//! Select Graphic Rendition: folding a CSI `m` parameter list into the pen.
//!
//! The whole parameter handling is specified by [`spec_sgr_step`], a pure
//! left-to-right fold over the parameter values, and the executable
//! dispatcher proves that it performs exactly that fold.

use vstd::prelude::*;

use crate::color::Rgb;
use crate::color::spec_ansi_color;
use crate::color::spec_ansi_bright_color;
use crate::color::spec_clamp_u16_to_u8;
use crate::color::spec_default_bg;
use crate::color::spec_default_fg;
use crate::color::spec_xterm_256;
use crate::color::ansi_color;
use crate::color::ansi_bright_color;
use crate::color::clamp_u16_to_u8;
use crate::color::xterm_256_to_rgb;
use crate::term::CellAttributes;
use crate::term::Pen;
use crate::term::TermView;
use crate::term::Vt100Terminal;
use crate::term::spec_default_pen;

verus! {

/// One step of the SGR fold: apply the values left to right.  Unknown
/// values are skipped; a truncated 38/48 extension ends the list, as
/// dispatch observed a terminating condition.
pub open spec fn spec_sgr_step(pen: Pen, vals: Seq<u16>) -> Pen
    decreases vals.len(),
{
    if vals.len() == 0 {
        pen
    } else {
        let v = vals[0];
        let rest = vals.drop_first();
        if v == 0 {
            spec_sgr_step(spec_default_pen(), rest)
        } else if v == 1 {
            spec_sgr_step(Pen { attrs: CellAttributes { bold: true, ..pen.attrs }, ..pen }, rest)
        } else if v == 4 {
            spec_sgr_step(
                Pen { attrs: CellAttributes { underline: true, ..pen.attrs }, ..pen },
                rest,
            )
        } else if v == 7 {
            spec_sgr_step(Pen { attrs: CellAttributes { inverse: true, ..pen.attrs }, ..pen }, rest)
        } else if v == 22 {
            spec_sgr_step(Pen { attrs: CellAttributes { bold: false, ..pen.attrs }, ..pen }, rest)
        } else if v == 24 {
            spec_sgr_step(
                Pen { attrs: CellAttributes { underline: false, ..pen.attrs }, ..pen },
                rest,
            )
        } else if v == 27 {
            spec_sgr_step(
                Pen { attrs: CellAttributes { inverse: false, ..pen.attrs }, ..pen },
                rest,
            )
        } else if 30 <= v && v <= 37 {
            spec_sgr_step(Pen { fg: spec_ansi_color(v - 30), ..pen }, rest)
        } else if 40 <= v && v <= 47 {
            spec_sgr_step(Pen { bg: spec_ansi_color(v - 40), ..pen }, rest)
        } else if 90 <= v && v <= 97 {
            spec_sgr_step(Pen { fg: spec_ansi_bright_color(v - 90), ..pen }, rest)
        } else if 100 <= v && v <= 107 {
            spec_sgr_step(Pen { bg: spec_ansi_bright_color(v - 100), ..pen }, rest)
        } else if v == 39 {
            spec_sgr_step(Pen { fg: spec_default_fg(), ..pen }, rest)
        } else if v == 49 {
            spec_sgr_step(Pen { bg: spec_default_bg(), ..pen }, rest)
        } else if v == 38 || v == 48 {
            if vals.len() < 2 {
                pen
            } else if vals[1] == 2 {
                if vals.len() < 5 {
                    pen
                } else {
                    let color = Rgb {
                        r: spec_clamp_u16_to_u8(vals[2]),
                        g: spec_clamp_u16_to_u8(vals[3]),
                        b: spec_clamp_u16_to_u8(vals[4]),
                    };
                    let p = if v == 38 {
                        Pen { fg: color, ..pen }
                    } else {
                        Pen { bg: color, ..pen }
                    };
                    spec_sgr_step(p, vals.skip(5))
                }
            } else if vals[1] == 5 {
                if vals.len() < 3 {
                    pen
                } else {
                    let color = spec_xterm_256(vals[2] as u8);
                    let p = if v == 38 {
                        Pen { fg: color, ..pen }
                    } else {
                        Pen { bg: color, ..pen }
                    };
                    spec_sgr_step(p, vals.skip(3))
                }
            } else {
                spec_sgr_step(pen, vals.skip(2))
            }
        } else {
            spec_sgr_step(pen, rest)
        }
    }
}

/// The pen after an SGR dispatch: an empty parameter list resets the pen,
/// otherwise the values are folded left to right.
pub open spec fn spec_sgr_apply(pen: Pen, vals: Seq<u16>) -> Pen {
    if vals.len() == 0 {
        spec_default_pen()
    } else {
        spec_sgr_step(pen, vals)
    }
}

/// A pen reset at the head of a parameter list erases all earlier pen
/// state: the remaining values act on a default pen.
pub proof fn lemma_sgr_reset_prefix(pen: Pen, vals: Seq<u16>)
    ensures
        spec_sgr_step(pen, seq![0u16] + vals) == spec_sgr_step(spec_default_pen(), vals),
{
    assert((seq![0u16] + vals).drop_first() =~= vals);
}

/// A pen reset dispatched first erases all earlier pen state entirely:
/// any parameter list applied right after an `SGR 0` dispatch acts on a
/// default pen.
pub proof fn lemma_sgr_after_reset(pen: Pen, vals: Seq<u16>)
    ensures
        spec_sgr_apply(spec_sgr_apply(pen, seq![0u16]), vals) == spec_sgr_apply(
            spec_default_pen(),
            vals,
        ),
{
    reveal_with_fuel(spec_sgr_step, 2);
    assert(seq![0u16][0] == 0u16);
    assert(seq![0u16].drop_first() =~= Seq::<u16>::empty());
    assert(spec_sgr_step(pen, seq![0u16]) == spec_default_pen());
}

/// Apply an SGR parameter list to the terminal's pen.  Nothing but the pen
/// changes.
pub fn apply_sgr(term: &mut Vt100Terminal, vals: &Vec<u16>)
    requires
        old(term).wf(),
    ensures
        final(term).wf(),
        final(term)@ == (TermView { pen: spec_sgr_apply(old(term)@.pen, vals@), ..old(term)@ }),
{
    if vals.len() == 0 {
        term.reset_attributes();
        return;
    }
    let n = vals.len();
    let mut i: usize = 0;
    proof {
        assert(vals@.skip(0) =~= vals@);
    }
    while i < n
        invariant
            term.wf(),
            n == vals@.len(),
            0 <= i <= n,
            term@ == (TermView { pen: term@.pen, ..old(term)@ }),
            spec_sgr_step(old(term)@.pen, vals@) == spec_sgr_step(term@.pen, vals@.skip(i as int)),
        decreases n - i,
    {
        let ghost tail = vals@.skip(i as int);
        let v = vals[i];
        let mut next: usize = i + 1;
        proof {
            assert(tail[0] == vals@[i as int]);
            assert(tail.drop_first() =~= vals@.skip(i + 1));
        }
        if v == 0 {
            term.reset_attributes();
        } else if v == 1 {
            term.set_bold(true);
        } else if v == 4 {
            term.set_underline(true);
        } else if v == 7 {
            term.set_inverse(true);
        } else if v == 22 {
            term.set_bold(false);
        } else if v == 24 {
            term.set_underline(false);
        } else if v == 27 {
            term.set_inverse(false);
        } else if 30 <= v && v <= 37 {
            term.set_fg_color(ansi_color((v - 30) as u8));
        } else if 40 <= v && v <= 47 {
            term.set_bg_color(ansi_color((v - 40) as u8));
        } else if 90 <= v && v <= 97 {
            term.set_fg_color(ansi_bright_color((v - 90) as u8));
        } else if 100 <= v && v <= 107 {
            term.set_bg_color(ansi_bright_color((v - 100) as u8));
        } else if v == 39 {
            term.reset_fg();
        } else if v == 49 {
            term.reset_bg();
        } else if v == 38 || v == 48 {
            if n - i < 2 {
                return;
            }
            let mode = vals[i + 1];
            if mode == 2 {
                if n - i < 5 {
                    return;
                }
                let color = Rgb {
                    r: clamp_u16_to_u8(vals[i + 2]),
                    g: clamp_u16_to_u8(vals[i + 3]),
                    b: clamp_u16_to_u8(vals[i + 4]),
                };
                if v == 38 {
                    term.set_fg_color(color);
                } else {
                    term.set_bg_color(color);
                }
                next = i + 5;
                proof {
                    assert(tail[1] == vals@[i + 1]);
                    assert(tail[2] == vals@[i + 2]);
                    assert(tail[3] == vals@[i + 3]);
                    assert(tail[4] == vals@[i + 4]);
                    assert(tail.skip(5) =~= vals@.skip(i + 5));
                }
            } else if mode == 5 {
                if n - i < 3 {
                    return;
                }
                let idx = vals[i + 2] as u8;
                let color = xterm_256_to_rgb(idx);
                if v == 38 {
                    term.set_fg_color(color);
                } else {
                    term.set_bg_color(color);
                }
                next = i + 3;
                proof {
                    assert(tail[1] == vals@[i + 1]);
                    assert(tail[2] == vals@[i + 2]);
                    assert(tail.skip(3) =~= vals@.skip(i + 3));
                }
            } else {
                next = i + 2;
                proof {
                    assert(tail[1] == vals@[i + 1]);
                    assert(tail.skip(2) =~= vals@.skip(i + 2));
                }
            }
        } else {
            // unrecognized value: skipped
        }
        i = next;
    }
    proof {
        assert(vals@.skip(n as int) =~= Seq::<u16>::empty());
    }
}

} // verus!
