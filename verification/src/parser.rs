//! The escape-sequence parser: a byte-at-a-time state machine over ground,
//! escape, CSI, OSC and DCS states, with UTF-8 decoding on the printable
//! path.
//!
//! The machine is specified by [`spec_step`], a pure transition on
//! [`ParserView`]; `process_byte` proves that it performs exactly that
//! transition.  Malformed sequences never fail: they are discarded once a
//! terminating condition is seen.

use vstd::prelude::*;

use crate::sgr::spec_sgr_apply;
use crate::sgr::apply_sgr;
use crate::term::TermView;
use crate::term::Vt100Terminal;
use crate::term::spec_backspace;
use crate::term::spec_carriage_return;
use crate::term::spec_clear;
use crate::term::spec_clear_from_cursor;
use crate::term::spec_clear_line_from_cursor;
use crate::term::spec_enter_alt;
use crate::term::spec_leave_alt;
use crate::term::spec_line_feed;
use crate::term::spec_move_cursor;
use crate::term::spec_move_cursor_rel;
use crate::term::spec_restore_cursor;
use crate::term::spec_save_cursor;
use crate::term::spec_tab;
use crate::term::spec_write_char;

verus! {

/// Relies on `char::from_u32`: `Some` exactly on Unicode scalar values
/// (not a surrogate, at most U+10FFFF), returning the character with that
/// value.
pub assume_specification[ char::from_u32 ](i: u32) -> (r: Option<char>)
    ensures
        r is Some <==> spec_is_scalar(i),
        r is Some ==> r->0 as u32 == i,
;

/// A Unicode scalar value: in range and not a surrogate.
pub open spec fn spec_is_scalar(u: u32) -> bool {
    u < 0xD800 || (0xE000 <= u && u <= 0x10FFFF)
}

/// The states of the byte-level machine.  `Utf8` collects the continuation
/// bytes of one multi-byte character: `cp` the code point so far, `need`
/// how many continuation bytes are missing, `min` the smallest code point
/// the sequence length may encode (smaller is an overlong encoding,
/// discarded).
#[derive(Clone, Copy, PartialEq, Eq, Structural, Debug)]
pub enum ParseState {
    Ground,
    Utf8 { cp: u32, need: u8, min: u32 },
    Escape,
    CsiEntry,
    CsiParam,
    CsiIntermediate,
    CsiIgnore,
    OscString,
    OscEscape,
    DcsString,
    DcsEscape,
}

/// Mathematical model of the parser: the terminal model plus the machine
/// state and the accumulators.
#[verifier::ext_equal]
pub ghost struct ParserView {
    pub term: TermView,
    pub state: ParseState,
    pub params: Seq<u16>,
    pub current: u16,
    pub inters: Seq<u8>,
}

/// At most this many parameters are kept; further ones are dropped.
pub open spec fn spec_max_params() -> int {
    32
}

/// Well-formedness: the terminal is well-formed and a UTF-8 collection
/// state is one the machine can reach.
pub open spec fn parser_view_wf(p: ParserView) -> bool {
    &&& crate::term::view_wf(p.term)
    &&& match p.state {
        ParseState::Utf8 { cp, need, min } => (need == 1 && cp <= 20479) || (need == 2 && cp
            <= 319) || (need == 3 && cp <= 4),
        _ => true,
    }
}

/// The C0 control bytes executed from any state: line feed, carriage
/// return, tab and backspace; every other control byte does nothing.
pub open spec fn spec_execute_c0(t: TermView, b: u8) -> TermView {
    if b == 0x0A {
        spec_line_feed(t)
    } else if b == 0x0D {
        spec_carriage_return(t)
    } else if b == 0x09 {
        spec_tab(t)
    } else if b == 0x08 {
        spec_backspace(t)
    } else {
        t
    }
}

/// The parameter at `i`, with `default` standing in for an absent or zero
/// value.
pub open spec fn spec_param_or(params: Seq<u16>, i: int, default: u16) -> u16 {
    if 0 <= i < params.len() && params[i] != 0 {
        params[i]
    } else {
        default
    }
}

/// One-based cursor parameter to zero-based coordinate.
pub open spec fn spec_one_based(v: u16) -> int {
    if v > 0 {
        v - 1
    } else {
        0
    }
}

/// The effect of a complete CSI sequence on the terminal.
pub open spec fn spec_csi_effect(t: TermView, params: Seq<u16>, private: bool, action: u8) -> TermView {
    if action == 0x48 || action == 0x66 {  // 'H' | 'f'
        let row = spec_one_based(spec_param_or(params, 0, 1));
        let col = spec_one_based(spec_param_or(params, 1, 1));
        spec_move_cursor(t, col, row)
    } else if action == 0x41 {  // 'A'
        spec_move_cursor_rel(t, 0, -(spec_param_or(params, 0, 1) as int))
    } else if action == 0x42 {  // 'B'
        spec_move_cursor_rel(t, 0, spec_param_or(params, 0, 1) as int)
    } else if action == 0x43 {  // 'C'
        spec_move_cursor_rel(t, spec_param_or(params, 0, 1) as int, 0)
    } else if action == 0x44 {  // 'D'
        spec_move_cursor_rel(t, -(spec_param_or(params, 0, 1) as int), 0)
    } else if action == 0x4A {  // 'J'
        let mode = spec_param_or(params, 0, 0);
        if mode == 0 {
            spec_clear_from_cursor(t)
        } else if mode == 2 || mode == 3 {
            spec_clear(t)
        } else {
            t
        }
    } else if action == 0x4B {  // 'K'
        spec_clear_line_from_cursor(t)
    } else if action == 0x6D {  // 'm'
        TermView { pen: spec_sgr_apply(t.pen, params), ..t }
    } else if action == 0x73 {  // 's'
        spec_save_cursor(t)
    } else if action == 0x75 {  // 'u'
        spec_restore_cursor(t)
    } else if action == 0x68 && private {  // '?h'
        let mode = spec_param_or(params, 0, 0);
        if mode == 47 || mode == 1047 || mode == 1049 {
            spec_enter_alt(t)
        } else {
            t
        }
    } else if action == 0x6C && private {  // '?l'
        let mode = spec_param_or(params, 0, 0);
        if mode == 47 || mode == 1047 || mode == 1049 {
            spec_leave_alt(t)
        } else {
            t
        }
    } else {
        t
    }
}

/// The parameter list with the accumulator appended, unless the list is
/// already full: what a separator commits and what dispatch sees.
pub open spec fn spec_final_params(params: Seq<u16>, current: u16) -> Seq<u16> {
    if params.len() < spec_max_params() {
        params.push(current)
    } else {
        params
    }
}

/// Saturating decimal accumulation of one digit into a parameter.
pub open spec fn spec_accum_param(current: u16, d: u8) -> u16 {
    let v = current * 10 + d;
    if v > 0xFFFF {
        0xFFFF
    } else {
        v as u16
    }
}

/// A byte in the ground state: C0 controls execute, printable ASCII is
/// written, a UTF-8 lead byte opens a collection, ESC opens an escape
/// sequence, and everything else is ignored.
pub open spec fn spec_ground_byte(p: ParserView, b: u8) -> ParserView {
    if b == 0x1B {
        ParserView { state: ParseState::Escape, ..p }
    } else if b < 0x20 {
        ParserView { term: spec_execute_c0(p.term, b), ..p }
    } else if b <= 0x7E {
        ParserView { term: spec_write_char(p.term, b as char), ..p }
    } else if 0xC2 <= b && b <= 0xDF {
        ParserView {
            state: ParseState::Utf8 { cp: (b - 0xC0) as u32, need: 1, min: 0x80 },
            ..p
        }
    } else if 0xE0 <= b && b <= 0xEF {
        ParserView {
            state: ParseState::Utf8 { cp: (b - 0xE0) as u32, need: 2, min: 0x800 },
            ..p
        }
    } else if 0xF0 <= b && b <= 0xF4 {
        ParserView {
            state: ParseState::Utf8 { cp: (b - 0xF0) as u32, need: 3, min: 0x10000 },
            ..p
        }
    } else {
        p
    }
}

/// A byte during UTF-8 collection: a continuation byte extends the code
/// point, completing it when none is missing; anything else discards the
/// sequence and is handled from the ground state.
pub open spec fn spec_utf8_byte(p: ParserView, cp: u32, need: u8, min: u32, b: u8) -> ParserView {
    if 0x80 <= b && b <= 0xBF {
        let cp2 = (cp * 64 + (b - 0x80)) as u32;
        if need == 1 {
            if cp2 >= min && spec_is_scalar(cp2) {
                ParserView {
                    term: spec_write_char(p.term, cp2 as char),
                    state: ParseState::Ground,
                    ..p
                }
            } else {
                ParserView { state: ParseState::Ground, ..p }
            }
        } else {
            ParserView {
                state: ParseState::Utf8 { cp: cp2, need: (need - 1) as u8, min },
                ..p
            }
        }
    } else {
        spec_ground_byte(ParserView { state: ParseState::Ground, ..p }, b)
    }
}

/// A byte after ESC: `[` opens a control sequence, `]` an OSC body, `P`,
/// `X`, `^` and `_` a DCS-like ignored body; `7`, `8` and `c` dispatch;
/// intermediates are skipped; other finals abort to ground.
pub open spec fn spec_escape_byte(p: ParserView, b: u8) -> ParserView {
    if b == 0x5B {  // '['
        ParserView {
            state: ParseState::CsiEntry,
            params: Seq::empty(),
            current: 0,
            inters: Seq::empty(),
            ..p
        }
    } else if b == 0x5D {  // ']'
        ParserView { state: ParseState::OscString, ..p }
    } else if b == 0x50 || b == 0x58 || b == 0x5E || b == 0x5F {  // 'P' 'X' '^' '_'
        ParserView { state: ParseState::DcsString, ..p }
    } else if b == 0x37 {  // '7'
        ParserView { term: spec_save_cursor(p.term), state: ParseState::Ground, ..p }
    } else if b == 0x38 {  // '8'
        ParserView { term: spec_restore_cursor(p.term), state: ParseState::Ground, ..p }
    } else if b == 0x63 {  // 'c'
        ParserView { term: spec_clear(p.term), state: ParseState::Ground, ..p }
    } else if b == 0x1B {
        p
    } else if b == 0x18 || b == 0x1A {
        ParserView { state: ParseState::Ground, ..p }
    } else if b < 0x20 {
        ParserView { term: spec_execute_c0(p.term, b), ..p }
    } else if 0x20 <= b && b <= 0x2F {
        p
    } else if b == 0x7F {
        p
    } else {
        ParserView { state: ParseState::Ground, ..p }
    }
}

/// A byte inside a control sequence, in the entry, parameter or
/// intermediate state.
pub open spec fn spec_csi_byte(p: ParserView, b: u8) -> ParserView {
    if b == 0x1B {
        ParserView { state: ParseState::Escape, ..p }
    } else if b == 0x18 || b == 0x1A {
        ParserView { state: ParseState::Ground, ..p }
    } else if b < 0x20 {
        ParserView { term: spec_execute_c0(p.term, b), ..p }
    } else if b == 0x7F {
        p
    } else if 0x40 <= b && b <= 0x7E {
        let params = spec_final_params(p.params, p.current);
        let private = p.inters.contains(0x3F);
        ParserView {
            term: spec_csi_effect(p.term, params, private, b),
            state: ParseState::Ground,
            ..p
        }
    } else if 0x30 <= b && b <= 0x39 {
        if p.state is CsiIntermediate {
            ParserView { state: ParseState::CsiIgnore, ..p }
        } else {
            ParserView {
                state: ParseState::CsiParam,
                current: spec_accum_param(p.current, (b - 0x30) as u8),
                ..p
            }
        }
    } else if b == 0x3B || b == 0x3A {  // ';' ':'
        if p.state is CsiIntermediate {
            ParserView { state: ParseState::CsiIgnore, ..p }
        } else {
            ParserView {
                state: ParseState::CsiParam,
                params: spec_final_params(p.params, p.current),
                current: 0,
                ..p
            }
        }
    } else if 0x3C <= b && b <= 0x3F {
        if p.state is CsiEntry {
            ParserView {
                inters: if p.inters.len() < 2 {
                    p.inters.push(b)
                } else {
                    p.inters
                },
                ..p
            }
        } else {
            ParserView { state: ParseState::CsiIgnore, ..p }
        }
    } else {  // 0x20..=0x2F intermediates
        ParserView {
            state: ParseState::CsiIntermediate,
            inters: if p.inters.len() < 2 {
                p.inters.push(b)
            } else {
                p.inters
            },
            ..p
        }
    }
}

/// A byte in an ignored control sequence: everything up to the final byte
/// is swallowed.
pub open spec fn spec_csi_ignore_byte(p: ParserView, b: u8) -> ParserView {
    if b == 0x1B {
        ParserView { state: ParseState::Escape, ..p }
    } else if b == 0x18 || b == 0x1A {
        ParserView { state: ParseState::Ground, ..p }
    } else if b < 0x20 {
        ParserView { term: spec_execute_c0(p.term, b), ..p }
    } else if 0x40 <= b && b <= 0x7E {
        ParserView { state: ParseState::Ground, ..p }
    } else {
        p
    }
}

/// A byte in an ignored string body (OSC or DCS): BEL ends an OSC body,
/// ESC may begin the string terminator.
pub open spec fn spec_string_byte(p: ParserView, b: u8, osc: bool) -> ParserView {
    if b == 0x1B {
        ParserView {
            state: if osc {
                ParseState::OscEscape
            } else {
                ParseState::DcsEscape
            },
            ..p
        }
    } else if osc && b == 0x07 {
        ParserView { state: ParseState::Ground, ..p }
    } else if b == 0x18 || b == 0x1A {
        ParserView { state: ParseState::Ground, ..p }
    } else {
        p
    }
}

/// The byte after an ESC inside a string body: `\` terminates the string;
/// anything else is handled as an escape byte.
pub open spec fn spec_string_escape_byte(p: ParserView, b: u8) -> ParserView {
    if b == 0x5C {  // '\'
        ParserView { state: ParseState::Ground, ..p }
    } else {
        spec_escape_byte(ParserView { state: ParseState::Escape, ..p }, b)
    }
}

/// One step of the machine: dispatch on the current state.
pub open spec fn spec_step(p: ParserView, b: u8) -> ParserView {
    match p.state {
        ParseState::Ground => spec_ground_byte(p, b),
        ParseState::Utf8 { cp, need, min } => spec_utf8_byte(p, cp, need, min, b),
        ParseState::Escape => spec_escape_byte(p, b),
        ParseState::CsiEntry => spec_csi_byte(p, b),
        ParseState::CsiParam => spec_csi_byte(p, b),
        ParseState::CsiIntermediate => spec_csi_byte(p, b),
        ParseState::CsiIgnore => spec_csi_ignore_byte(p, b),
        ParseState::OscString => spec_string_byte(p, b, true),
        ParseState::DcsString => spec_string_byte(p, b, false),
        ParseState::OscEscape => spec_string_escape_byte(p, b),
        ParseState::DcsEscape => spec_string_escape_byte(p, b),
    }
}

/// The parser over a terminal: the machine state and the parameter
/// accumulators beside the terminal itself.
pub struct Vt100Parser {
    pub terminal: Vt100Terminal,
    pub state: ParseState,
    pub params: Vec<u16>,
    pub current: u16,
    pub inters: Vec<u8>,
}

impl View for Vt100Parser {
    type V = ParserView;

    open spec fn view(&self) -> ParserView {
        ParserView {
            term: self.terminal@,
            state: self.state,
            params: self.params@,
            current: self.current,
            inters: self.inters@,
        }
    }
}

impl Vt100Parser {
    /// Well-formedness: the terminal is well-formed and the machine state
    /// reachable.
    pub open spec fn wf(&self) -> bool {
        parser_view_wf(self@)
    }

    /// A parser over a fresh terminal of the given dimensions.
    pub fn new(width: u32, height: u32) -> (p: Vt100Parser)
        requires
            1 <= width <= 0xFFFF,
            1 <= height <= 0xFFFF,
        ensures
            p.wf(),
            p@.term =~~= crate::term::spec_fresh(width as int, height as int),
            p@.state == ParseState::Ground,
            p@.params == Seq::<u16>::empty(),
            p@.current == 0u16,
            p@.inters == Seq::<u8>::empty(),
    {
        let p = Vt100Parser {
            terminal: Vt100Terminal::new(width, height),
            state: ParseState::Ground,
            params: Vec::new(),
            current: 0,
            inters: Vec::new(),
        };
        p
    }

    /// The current terminal state.
    pub fn terminal(&self) -> (t: &Vt100Terminal)
        ensures
            t@ == self@.term,
    {
        &self.terminal
    }

    /// Mutable access to the terminal.
    pub fn terminal_mut(&mut self) -> (t: &mut Vt100Terminal)
        ensures
            *t == old(self).terminal,
            final(self).terminal == *final(t),
            final(self).state == old(self).state,
            final(self).params == old(self).params,
            final(self).current == old(self).current,
            final(self).inters == old(self).inters,
    {
        &mut self.terminal
    }

    /// Execute a C0 control byte on the terminal.
    fn execute_c0(&mut self, b: u8)
        requires
            old(self).wf(),
        ensures
            final(self).wf(),
            final(self)@ == (ParserView { term: spec_execute_c0(old(self)@.term, b), ..old(self)@ }),
    {
        if b == 0x0A {
            self.terminal.write_char('\n');
        } else if b == 0x0D {
            self.terminal.write_char('\r');
        } else if b == 0x09 {
            self.terminal.write_char('\t');
        } else if b == 0x08 {
            self.terminal.backspace();
        }
    }

    /// Handle a byte in the ground state.
    fn ground_byte(&mut self, b: u8)
        requires
            old(self).wf(),
            old(self)@.state == ParseState::Ground,
        ensures
            final(self).wf(),
            final(self)@ == spec_ground_byte(old(self)@, b),
    {
        if b == 0x1B {
            self.state = ParseState::Escape;
        } else if b < 0x20 {
            self.execute_c0(b);
        } else if b <= 0x7E {
            self.terminal.write_char(b as char);
        } else if 0xC2 <= b && b <= 0xDF {
            self.state = ParseState::Utf8 { cp: (b - 0xC0) as u32, need: 1, min: 0x80 };
        } else if 0xE0 <= b && b <= 0xEF {
            self.state = ParseState::Utf8 { cp: (b - 0xE0) as u32, need: 2, min: 0x800 };
        } else if 0xF0 <= b && b <= 0xF4 {
            self.state = ParseState::Utf8 { cp: (b - 0xF0) as u32, need: 3, min: 0x10000 };
        }
    }

    /// Handle a byte while collecting a UTF-8 sequence.
    fn utf8_byte(&mut self, cp: u32, need: u8, min: u32, b: u8)
        requires
            old(self).wf(),
            old(self)@.state == (ParseState::Utf8 { cp, need, min }),
        ensures
            final(self).wf(),
            final(self)@ == spec_utf8_byte(old(self)@, cp, need, min, b),
    {
        if 0x80 <= b && b <= 0xBF {
            let cp2: u32 = cp * 64 + (b - 0x80) as u32;
            if need == 1 {
                self.state = ParseState::Ground;
                if cp2 >= min {
                    match char::from_u32(cp2) {
                        Some(c) => {
                            proof {
                                vstd::utf8::char_u32_cast(c, cp2);
                            }
                            self.terminal.write_char(c);
                        },
                        None => {},
                    }
                }
            } else {
                self.state = ParseState::Utf8 { cp: cp2, need: need - 1, min };
            }
        } else {
            self.state = ParseState::Ground;
            self.ground_byte(b);
        }
    }

    /// Handle a byte after ESC.
    fn escape_byte(&mut self, b: u8)
        requires
            old(self).wf(),
            old(self)@.state == ParseState::Escape,
        ensures
            final(self).wf(),
            final(self)@ == spec_escape_byte(ParserView { state: ParseState::Escape, ..old(self)@ }, b),
    {
        if b == 0x5B {
            self.state = ParseState::CsiEntry;
            self.params = Vec::new();
            self.current = 0;
            self.inters = Vec::new();
        } else if b == 0x5D {
            self.state = ParseState::OscString;
        } else if b == 0x50 || b == 0x58 || b == 0x5E || b == 0x5F {
            self.state = ParseState::DcsString;
        } else if b == 0x37 {
            self.terminal.save_cursor();
            self.state = ParseState::Ground;
        } else if b == 0x38 {
            self.terminal.restore_cursor();
            self.state = ParseState::Ground;
        } else if b == 0x63 {
            self.terminal.clear();
            self.state = ParseState::Ground;
        } else if b == 0x1B {
        } else if b == 0x18 || b == 0x1A {
            self.state = ParseState::Ground;
        } else if b < 0x20 {
            self.execute_c0(b);
        } else if 0x20 <= b && b <= 0x2F {
        } else if b == 0x7F {
        } else {
            self.state = ParseState::Ground;
        }
    }

    /// Dispatch a complete CSI sequence.
    fn csi_dispatch(&mut self, action: u8)
        requires
            old(self).wf(),
        ensures
            final(self).wf(),
            final(self)@ == (ParserView {
                term: spec_csi_effect(
                    old(self)@.term,
                    spec_final_params(old(self)@.params, old(self)@.current),
                    old(self)@.inters.contains(0x3F),
                    action,
                ),
                state: ParseState::Ground,
                ..old(self)@
            }),
    {
        let ps = make_final_params(&self.params, self.current);
        let private = contains_byte(&self.inters, 0x3F);
        if action == 0x48 || action == 0x66 {
            let row16 = param_or(&ps, 0, 1);
            let col16 = param_or(&ps, 1, 1);
            let row: u32 = if row16 > 0 {
                row16 as u32 - 1
            } else {
                0
            };
            let col: u32 = if col16 > 0 {
                col16 as u32 - 1
            } else {
                0
            };
            self.terminal.move_cursor(col, row);
        } else if action == 0x41 {
            let v = param_or(&ps, 0, 1);
            self.terminal.move_cursor_rel(0, -(v as i32));
        } else if action == 0x42 {
            let v = param_or(&ps, 0, 1);
            self.terminal.move_cursor_rel(0, v as i32);
        } else if action == 0x43 {
            let v = param_or(&ps, 0, 1);
            self.terminal.move_cursor_rel(v as i32, 0);
        } else if action == 0x44 {
            let v = param_or(&ps, 0, 1);
            self.terminal.move_cursor_rel(-(v as i32), 0);
        } else if action == 0x4A {
            let mode = param_or(&ps, 0, 0);
            if mode == 0 {
                self.terminal.clear_from_cursor();
            } else if mode == 2 || mode == 3 {
                self.terminal.clear();
            }
        } else if action == 0x4B {
            self.terminal.clear_line_from_cursor();
        } else if action == 0x6D {
            apply_sgr(&mut self.terminal, &ps);
        } else if action == 0x73 {
            self.terminal.save_cursor();
        } else if action == 0x75 {
            self.terminal.restore_cursor();
        } else if action == 0x68 && private {
            let mode = param_or(&ps, 0, 0);
            if mode == 47 || mode == 1047 || mode == 1049 {
                self.terminal.enter_alternate_screen();
            }
        } else if action == 0x6C && private {
            let mode = param_or(&ps, 0, 0);
            if mode == 47 || mode == 1047 || mode == 1049 {
                self.terminal.leave_alternate_screen();
            }
        }
        self.state = ParseState::Ground;
    }

    /// Handle a byte in the CSI entry, parameter or intermediate state.
    fn csi_byte(&mut self, b: u8)
        requires
            old(self).wf(),
            old(self)@.state is CsiEntry || old(self)@.state is CsiParam || old(self)@.state
                is CsiIntermediate,
        ensures
            final(self).wf(),
            final(self)@ == spec_csi_byte(old(self)@, b),
    {
        if b == 0x1B {
            self.state = ParseState::Escape;
        } else if b == 0x18 || b == 0x1A {
            self.state = ParseState::Ground;
        } else if b < 0x20 {
            self.execute_c0(b);
        } else if b == 0x7F {
        } else if 0x40 <= b && b <= 0x7E {
            self.csi_dispatch(b);
        } else if 0x30 <= b && b <= 0x39 {
            match self.state {
                ParseState::CsiIntermediate => {
                    self.state = ParseState::CsiIgnore;
                },
                _ => {
                    let d = (b - 0x30) as u16;
                    let v: u32 = self.current as u32 * 10 + d as u32;
                    self.current = if v > 0xFFFF {
                        0xFFFF
                    } else {
                        v as u16
                    };
                    self.state = ParseState::CsiParam;
                },
            }
        } else if b == 0x3B || b == 0x3A {
            match self.state {
                ParseState::CsiIntermediate => {
                    self.state = ParseState::CsiIgnore;
                },
                _ => {
                    if self.params.len() < 32 {
                        let c = self.current;
                        self.params.push(c);
                    }
                    self.current = 0;
                    self.state = ParseState::CsiParam;
                },
            }
        } else if 0x3C <= b && b <= 0x3F {
            match self.state {
                ParseState::CsiEntry => {
                    if self.inters.len() < 2 {
                        self.inters.push(b);
                    }
                },
                _ => {
                    self.state = ParseState::CsiIgnore;
                },
            }
        } else {
            if self.inters.len() < 2 {
                self.inters.push(b);
            }
            self.state = ParseState::CsiIntermediate;
        }
    }

    /// Handle a byte in an ignored control sequence.
    fn csi_ignore_byte(&mut self, b: u8)
        requires
            old(self).wf(),
        ensures
            final(self).wf(),
            final(self)@ == spec_csi_ignore_byte(old(self)@, b),
    {
        if b == 0x1B {
            self.state = ParseState::Escape;
        } else if b == 0x18 || b == 0x1A {
            self.state = ParseState::Ground;
        } else if b < 0x20 {
            self.execute_c0(b);
        } else if 0x40 <= b && b <= 0x7E {
            self.state = ParseState::Ground;
        }
    }

    /// Handle a byte in an ignored OSC or DCS body.
    fn string_byte(&mut self, b: u8, osc: bool)
        requires
            old(self).wf(),
        ensures
            final(self).wf(),
            final(self)@ == spec_string_byte(old(self)@, b, osc),
    {
        if b == 0x1B {
            self.state = if osc {
                ParseState::OscEscape
            } else {
                ParseState::DcsEscape
            };
        } else if osc && b == 0x07 {
            self.state = ParseState::Ground;
        } else if b == 0x18 || b == 0x1A {
            self.state = ParseState::Ground;
        }
    }

    /// Handle the byte after an ESC inside a string body.
    fn string_escape_byte(&mut self, b: u8)
        requires
            old(self).wf(),
        ensures
            final(self).wf(),
            final(self)@ == spec_string_escape_byte(old(self)@, b),
    {
        if b == 0x5C {
            self.state = ParseState::Ground;
        } else {
            self.state = ParseState::Escape;
            self.escape_byte(b);
        }
    }

    /// Fold one byte into the state machine.  This never fails: malformed
    /// sequences are silently discarded.
    pub fn process_byte(&mut self, b: u8)
        requires
            old(self).wf(),
        ensures
            final(self).wf(),
            final(self)@ == spec_step(old(self)@, b),
            final(self)@.term.width == old(self)@.term.width,
            final(self)@.term.height == old(self)@.term.height,
    {
        proof {
            lemma_step_preserves_dims(old(self)@, b);
        }
        match self.state {
            ParseState::Ground => self.ground_byte(b),
            ParseState::Utf8 { cp, need, min } => self.utf8_byte(cp, need, min, b),
            ParseState::Escape => self.escape_byte(b),
            ParseState::CsiEntry => self.csi_byte(b),
            ParseState::CsiParam => self.csi_byte(b),
            ParseState::CsiIntermediate => self.csi_byte(b),
            ParseState::CsiIgnore => self.csi_ignore_byte(b),
            ParseState::OscString => self.string_byte(b, true),
            ParseState::DcsString => self.string_byte(b, false),
            ParseState::OscEscape => self.string_escape_byte(b),
            ParseState::DcsEscape => self.string_escape_byte(b),
        }
    }

    /// Fold a chunk of bytes into the state machine, in order.
    pub fn process_bytes(&mut self, bytes: &Vec<u8>)
        requires
            old(self).wf(),
        ensures
            final(self).wf(),
            final(self)@ == spec_steps(old(self)@, bytes@),
            final(self)@.term.width == old(self)@.term.width,
            final(self)@.term.height == old(self)@.term.height,
    {
        let n = bytes.len();
        let mut i: usize = 0;
        proof {
            assert(bytes@.take(0) =~= Seq::<u8>::empty());
        }
        while i < n
            invariant
                self.wf(),
                n == bytes@.len(),
                0 <= i <= n,
                self@ == spec_steps(old(self)@, bytes@.take(i as int)),
                self@.term.width == old(self)@.term.width,
                self@.term.height == old(self)@.term.height,
            decreases n - i,
        {
            self.process_byte(bytes[i]);
            i = i + 1;
            proof {
                assert(bytes@.take(i as int).drop_last() =~= bytes@.take(i - 1));
                assert(bytes@.take(i as int).last() == bytes@[i - 1]);
            }
        }
        proof {
            assert(bytes@.take(n as int) =~= bytes@);
        }
    }
}

/// The machine folded over a byte sequence, first byte first.
pub open spec fn spec_steps(p: ParserView, bytes: Seq<u8>) -> ParserView
    decreases bytes.len(),
{
    if bytes.len() == 0 {
        p
    } else {
        spec_step(spec_steps(p, bytes.drop_last()), bytes.last())
    }
}

/// One step never changes the terminal's dimensions.
pub proof fn lemma_step_preserves_dims(p: ParserView, b: u8)
    ensures
        spec_step(p, b).term.width == p.term.width,
        spec_step(p, b).term.height == p.term.height,
{
}

/// The dispatch-time parameter list: a copy of the accumulated parameters
/// with the current accumulator appended, unless the list is full.
fn make_final_params(params: &Vec<u16>, current: u16) -> (r: Vec<u16>)
    ensures
        r@ == spec_final_params(params@, current),
{
    let n = params.len();
    let mut r: Vec<u16> = Vec::new();
    let mut i: usize = 0;
    while i < n
        invariant
            n == params@.len(),
            0 <= i <= n,
            r@ =~= params@.take(i as int),
        decreases n - i,
    {
        r.push(params[i]);
        i = i + 1;
    }
    proof {
        assert(r@ =~= params@);
    }
    if n < 32 {
        r.push(current);
    }
    r
}

/// Whether a byte occurs in a vector.
fn contains_byte(v: &Vec<u8>, b: u8) -> (r: bool)
    ensures
        r == v@.contains(b),
{
    let n = v.len();
    let mut i: usize = 0;
    while i < n
        invariant
            n == v@.len(),
            0 <= i <= n,
            forall|k: int| 0 <= k < i ==> v@[k] != b,
        decreases n - i,
    {
        if v[i] == b {
            return true;
        }
        i = i + 1;
    }
    proof {
        assert(!v@.contains(b));
    }
    false
}

/// The parameter at `i`, with `default` standing in for absent or zero.
fn param_or(params: &Vec<u16>, i: usize, default: u16) -> (r: u16)
    ensures
        r == spec_param_or(params@, i as int, default),
{
    if i < params.len() && params[i] != 0 {
        params[i]
    } else {
        default
    }
}

} // verus!
