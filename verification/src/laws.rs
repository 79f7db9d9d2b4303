//! Laws of the terminal model: full reset, the alternate-screen round
//! trip, and the placement of a printable character stream in a fresh
//! grid, wrap, scroll count and final positions included.

use vstd::prelude::*;

use vstd::arithmetic::div_mod::lemma_fundamental_div_mod;
use vstd::arithmetic::div_mod::lemma_fundamental_div_mod_converse;
use crate::parser::ParserView;
use crate::parser::spec_steps;
use crate::term::TermView;
use crate::term::spec_blank_cell;
use crate::term::spec_blank_row;
use crate::term::spec_clear;
use crate::term::spec_default_pen;
use crate::term::spec_enter_alt;
use crate::term::spec_fresh;
use crate::term::spec_leave_alt;
use crate::term::spec_pen_cell;
use crate::term::spec_write_printable;
use crate::term::view_wf;

verus! {

/// A full reset is idempotent: a second reset right after a first one
/// changes nothing, and either way the grid is the blank grid of a freshly
/// constructed terminal, with the cursor at the origin and a default pen.
pub proof fn lemma_double_reset(t: TermView)
    ensures
        spec_clear(spec_clear(t)) == spec_clear(t),
        spec_clear(t).grid == spec_fresh(t.width, t.height).grid,
        spec_clear(t).cursor_x == 0,
        spec_clear(t).cursor_y == 0,
        spec_clear(t).pen == spec_default_pen(),
{
    assert(spec_clear(spec_clear(t)) =~~= spec_clear(t));
}

/// Entering the alternate screen and leaving it again with no writes in
/// between restores the grid and the cursor exactly.
pub proof fn lemma_alternate_round_trip(t: TermView)
    requires
        t.alt is None,
    ensures
        spec_leave_alt(spec_enter_alt(t)).grid == t.grid,
        spec_leave_alt(spec_enter_alt(t)).cursor_x == t.cursor_x,
        spec_leave_alt(spec_enter_alt(t)).cursor_y == t.cursor_y,
        spec_leave_alt(spec_enter_alt(t)).alt is None,
{
}

/// The terminal after writing a sequence of code points through the
/// printable path, first one first.
pub open spec fn spec_write_seq(t: TermView, cs: Seq<char>) -> TermView
    decreases cs.len(),
{
    if cs.len() == 0 {
        t
    } else {
        spec_write_seq(spec_write_printable(t, cs[0]), cs.drop_first())
    }
}

/// Writing a sequence and then one more character is writing the extended
/// sequence.
pub proof fn lemma_write_seq_snoc(t: TermView, cs: Seq<char>, c: char)
    ensures
        spec_write_seq(t, cs.push(c)) == spec_write_printable(spec_write_seq(t, cs), c),
    decreases cs.len(),
{
    reveal_with_fuel(spec_write_seq, 3);
    if cs.len() == 0 {
        assert(cs.push(c)[0] == c);
        assert(cs.push(c).drop_first() =~= Seq::<char>::empty());
    } else {
        assert(cs.push(c)[0] == cs[0]);
        assert(cs.push(c).drop_first() =~= cs.drop_first().push(c));
        lemma_write_seq_snoc(spec_write_printable(t, cs[0]), cs.drop_first(), c);
    }
}

/// The number of scrolls that writing `k` characters into a fresh grid of
/// `w` columns and `h` rows forces.
pub open spec fn spec_scroll_count(k: int, w: int, h: int) -> int {
    if k / w <= h - 1 {
        0
    } else {
        k / w - (h - 1)
    }
}

/// Where a stream of `k` printable characters leaves a fresh terminal:
/// the cursor sits at column `k % w`, on row `k / w` until the stream
/// reaches the bottom row and on the bottom row from then on; the grid
/// shows the last window of the stream, shifted up by the scroll count,
/// with blank cells after the end; the pen is still the default and every
/// written cell carries it.
pub proof fn lemma_write_chars_fresh(w: int, h: int, cs: Seq<char>)
    requires
        1 <= w <= 0xFFFF,
        1 <= h <= 0xFFFF,
    ensures
        ({
            let t = spec_write_seq(spec_fresh(w, h), cs);
            let k = cs.len() as int;
            let s = spec_scroll_count(k, w, h);
            &&& view_wf(t)
            &&& t.width == w
            &&& t.height == h
            &&& t.cursor_x == k % w
            &&& t.cursor_y == (if k / w <= h - 1 { k / w } else { h - 1 })
            &&& t.pen == spec_default_pen()
            &&& t.saved is None
            &&& t.alt is None
            &&& t.grid.len() == h
            &&& forall|y: int| 0 <= y < h ==> #[trigger] t.grid[y].len() == w
            &&& forall|y: int, x: int|
                0 <= y < h && 0 <= x < w ==> #[trigger] t.grid[y][x] == (if (y + s) * w + x < k {
                    spec_pen_cell(spec_default_pen(), cs[(y + s) * w + x])
                } else {
                    spec_blank_cell()
                })
        }),
    decreases cs.len(),
{
    let k = cs.len() as int;
    if k == 0 {
        let t = spec_fresh(w, h);
        assert(cs =~= Seq::<char>::empty());
        lemma_fundamental_div_mod_converse(0, w, 0, 0);
        assert forall|y: int, x: int| 0 <= y < h && 0 <= x < w implies #[trigger] t.grid[y][x]
            == spec_blank_cell() && (y + 0) * w + x >= 0 by {
            assert(t.grid[y] == spec_blank_row(w));
            assert(y * w >= 0) by (nonlinear_arith)
                requires y >= 0 && w >= 1;
        }
    } else {
        let prev = cs.drop_last();
        let c = cs.last();
        let j = k - 1;
        lemma_write_chars_fresh(w, h, prev);
        assert(prev.push(c) =~= cs);
        lemma_write_seq_snoc(spec_fresh(w, h), prev, c);
        let t0 = spec_write_seq(spec_fresh(w, h), prev);
        let t = spec_write_printable(t0, c);
        let s0 = spec_scroll_count(j, w, h);
        let y0 = if j / w <= h - 1 { j / w } else { h - 1 };
        let x0 = j % w;
        lemma_fundamental_div_mod(j, w);
        // The updated cell holds character j of the stream.
        assert(y0 + s0 == j / w);
        assert((y0 + s0) * w + x0 == j) by (nonlinear_arith)
            requires
                j == w * (j / w) + j % w,
                x0 == j % w,
                y0 + s0 == j / w,
        ;
        let g1 = t0.grid.update(y0, t0.grid[y0].update(x0, spec_pen_cell(spec_default_pen(), c)));
        if x0 + 1 < w {
            // No wrap: the quotient and remainder only step within the row.
            assert(k == (j / w) * w + (x0 + 1)) by (nonlinear_arith)
                requires
                    j == w * (j / w) + x0,
                    k == j + 1,
            ;
            lemma_fundamental_div_mod_converse(k, w, j / w, x0 + 1);
            assert(t.grid == g1);
            assert(spec_scroll_count(k, w, h) == s0);
            assert forall|y: int, x: int| 0 <= y < h && 0 <= x < w implies #[trigger] t.grid[y][x]
                == (if (y + s0) * w + x < k {
                spec_pen_cell(spec_default_pen(), cs[(y + s0) * w + x])
            } else {
                spec_blank_cell()
            }) by {
                lemma_pos_distinct(w, y, x, y0, x0, s0);
                if y == y0 && x == x0 {
                } else {
                    assert(t.grid[y][x] == t0.grid[y][x]);
                    if (y + s0) * w + x < j {
                        assert(cs[(y + s0) * w + x] == prev[(y + s0) * w + x]);
                    }
                }
            }
        } else {
            // Wrap to column zero; scroll when already on the bottom row.
            assert(k == (j / w + 1) * w + 0) by (nonlinear_arith)
                requires
                    j == w * (j / w) + x0,
                    x0 == w - 1,
                    k == j + 1,
            ;
            lemma_fundamental_div_mod_converse(k, w, j / w + 1, 0);
            assert(k % w == 0 && k / w == j / w + 1);
            if y0 + 1 < h {
                // j / w <= h - 2, so no scroll yet.
                assert(t.grid == g1);
                assert(spec_scroll_count(k, w, h) == s0);
                assert forall|y: int, x: int| 0 <= y < h && 0 <= x < w implies #[trigger] t.grid[y][x]
                    == (if (y + s0) * w + x < k {
                    spec_pen_cell(spec_default_pen(), cs[(y + s0) * w + x])
                } else {
                    spec_blank_cell()
                }) by {
                    lemma_pos_distinct(w, y, x, y0, x0, s0);
                    if y == y0 && x == x0 {
                    } else {
                        assert(t.grid[y][x] == t0.grid[y][x]);
                        if (y + s0) * w + x < j {
                            assert(cs[(y + s0) * w + x] == prev[(y + s0) * w + x]);
                        }
                    }
                }
            } else {
                // Scroll: every row moves up one; the bottom row is blank.
                assert(y0 == h - 1 && j / w >= h - 1);
                assert(t.grid == g1.drop_first().push(spec_blank_row(w)));
                let s = spec_scroll_count(k, w, h);
                assert(s == s0 + 1);
                assert forall|y: int, x: int| 0 <= y < h && 0 <= x < w implies #[trigger] t.grid[y][x]
                    == (if (y + s) * w + x < k {
                    spec_pen_cell(spec_default_pen(), cs[(y + s) * w + x])
                } else {
                    spec_blank_cell()
                }) by {
                    if y < h - 1 {
                        assert(t.grid[y] == g1[y + 1]);
                        lemma_pos_distinct(w, y + 1, x, y0, x0, s0);
                        if y + 1 == y0 && x == x0 {
                            assert((y + s) * w + x == j);
                        } else {
                            assert(g1[y + 1][x] == t0.grid[y + 1][x]);
                            assert((y + 1 + s0) * w + x == (y + s) * w + x);
                            if (y + s) * w + x < j {
                                assert(cs[(y + s) * w + x] == prev[(y + s) * w + x]);
                            } else if (y + s) * w + x == j {
                                assert(y + 1 == y0 && x == x0) by {
                                    lemma_pos_unique(w, y + 1 + s0, x, y0 + s0, x0);
                                }
                            }
                        }
                    } else {
                        assert(t.grid[y] == spec_blank_row(w));
                        assert((y + s) * w + x >= k) by {
                            assert((h - 1 + s) * w == k) by (nonlinear_arith)
                                requires
                                    h - 1 + s == j / w + 1,
                                    k == (j / w + 1) * w + 0,
                            ;
                        }
                    }
                }
            }
        }
    }
}

/// Two distinct in-row positions address distinct stream indices.
proof fn lemma_pos_distinct(w: int, y: int, x: int, y0: int, x0: int, s: int)
    requires
        w >= 1,
        0 <= x < w,
        0 <= x0 < w,
    ensures
        (y + s) * w + x == (y0 + s) * w + x0 ==> (y == y0 && x == x0),
{
    if (y + s) * w + x == (y0 + s) * w + x0 {
        lemma_pos_unique(w, y + s, x, y0 + s, x0);
    }
}

/// Row-major addressing is injective for in-range columns.
proof fn lemma_pos_unique(w: int, a: int, x: int, b: int, x0: int)
    requires
        w >= 1,
        0 <= x < w,
        0 <= x0 < w,
        a * w + x == b * w + x0,
    ensures
        a == b && x == x0,
{
    assert((a - b) * w == x0 - x) by (nonlinear_arith)
        requires a * w + x == b * w + x0;
    if a > b {
        assert((a - b) * w >= w) by (nonlinear_arith)
            requires a - b >= 1 && w >= 1;
    } else if a < b {
        assert((a - b) * w <= -w) by (nonlinear_arith)
            requires a - b <= -1 && w >= 1;
    }
}

/// Writing `n` printable characters into a fresh grid, `n` at most the
/// width: they fill row zero left to right and the cursor rests just after
/// them, wrapping to the second row when the first is exactly filled.
pub proof fn lemma_write_row_zero(w: int, h: int, cs: Seq<char>)
    requires
        1 <= w <= 0xFFFF,
        2 <= h <= 0xFFFF,
        cs.len() <= w,
    ensures
        ({
            let t = spec_write_seq(spec_fresh(w, h), cs);
            let k = cs.len() as int;
            &&& forall|x: int| 0 <= x < k ==> #[trigger] t.grid[0][x] == spec_pen_cell(
                spec_default_pen(),
                cs[x],
            )
            &&& forall|x: int| k <= x < w ==> #[trigger] t.grid[0][x] == spec_blank_cell()
            &&& k < w ==> t.cursor_x == k && t.cursor_y == 0
            &&& k == w ==> t.cursor_x == 0 && t.cursor_y == 1
        }),
{
    lemma_write_chars_fresh(w, h, cs);
    let k = cs.len() as int;
    if k < w {
        lemma_fundamental_div_mod_converse(k, w, 0, k);
    } else {
        lemma_fundamental_div_mod_converse(k, w, 1, 0);
    }
    let t = spec_write_seq(spec_fresh(w, h), cs);
    assert forall|x: int| 0 <= x < w implies #[trigger] t.grid[0][x] == (if x < k {
        spec_pen_cell(spec_default_pen(), cs[x])
    } else {
        spec_blank_cell()
    }) by {
        assert((0 + spec_scroll_count(k, w, h)) * w + x == x);
    }
}

/// Writing more than `w * h` characters scrolls exactly
/// `k / w - (h - 1)` times, and when the stream does not end exactly at a
/// row boundary its final character sits in the bottom row at column
/// `(k - 1) % w`, with the cursor at `(k % w, h - 1)`.
pub proof fn lemma_write_overflow(w: int, h: int, cs: Seq<char>)
    requires
        1 <= w <= 0xFFFF,
        1 <= h <= 0xFFFF,
        cs.len() > w * h,
    ensures
        ({
            let t = spec_write_seq(spec_fresh(w, h), cs);
            let k = cs.len() as int;
            &&& spec_scroll_count(k, w, h) == k / w - (h - 1) >= 1
            &&& t.cursor_x == k % w
            &&& t.cursor_y == h - 1
            &&& k % w != 0 ==> t.grid[h - 1][(k - 1) % w] == spec_pen_cell(
                spec_default_pen(),
                cs[k - 1],
            )
        }),
{
    lemma_write_chars_fresh(w, h, cs);
    let k = cs.len() as int;
    let s = spec_scroll_count(k, w, h);
    assert(k / w >= h) by {
        assert(k >= w * h + 1);
        assert(w * h == h * w) by (nonlinear_arith);
        vstd::arithmetic::div_mod::lemma_div_multiples_vanish(h, w);
        assert((h * w) / w == h);
        vstd::arithmetic::div_mod::lemma_div_is_ordered(h * w, k, w);
    }
    if k % w != 0 {
        lemma_fundamental_div_mod(k, w);
        lemma_fundamental_div_mod_converse(k - 1, w, k / w, k % w - 1);
        assert((k - 1) % w == k % w - 1 && (k - 1) / w == k / w);
        assert((h - 1 + s) * w + (k - 1) % w == k - 1) by (nonlinear_arith)
            requires
                h - 1 + s == k / w,
                (k / w) * w + k % w == k,
                (k - 1) % w == k % w - 1,
        ;
    }
}

/// The characters of a printable ASCII byte stream.
pub open spec fn spec_chars_of(bytes: Seq<u8>) -> Seq<char> {
    bytes.map_values(|b: u8| b as char)
}

/// Feeding a stream of printable ASCII bytes to the machine in the ground
/// state writes exactly those characters: the parser stays in the ground
/// state with its accumulators untouched, and the terminal is the
/// character stream folded in through the printable path.
pub proof fn lemma_feed_printable_stream(p: ParserView, bytes: Seq<u8>)
    requires
        p.state is Ground,
        forall|i: int| 0 <= i < bytes.len() ==> 0x20 <= #[trigger] bytes[i] <= 0x7E,
    ensures
        spec_steps(p, bytes).term == spec_write_seq(p.term, spec_chars_of(bytes)),
        spec_steps(p, bytes).state is Ground,
        spec_steps(p, bytes).params == p.params,
        spec_steps(p, bytes).current == p.current,
        spec_steps(p, bytes).inters == p.inters,
    decreases bytes.len(),
{
    reveal_with_fuel(spec_write_seq, 2);
    if bytes.len() == 0 {
        assert(spec_chars_of(bytes) =~= Seq::<char>::empty());
    } else {
        let prev = bytes.drop_last();
        let b = bytes.last();
        lemma_feed_printable_stream(p, prev);
        let sp = spec_steps(p, prev);
        assert(0x20 <= b <= 0x7E);
        assert((b as char) != '\n' && (b as char) != '\r' && (b as char) != '\t') by {
            assert((b as char) as u32 == b as u32);
        }
        assert(spec_chars_of(bytes) =~= spec_chars_of(prev).push(b as char));
        lemma_write_seq_snoc(p.term, spec_chars_of(prev), b as char);
    }
}

} // verus!
