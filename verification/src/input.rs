//! Translation of symbolic key names into the byte sequences written to
//! the child's terminal, and the terminal size presets.

use vstd::prelude::*;

use vstd::utf8::encode_utf8;
use crate::text::ascii_lowercase;
use crate::text::spec_starts_with;
use crate::text::spec_trim;
use crate::text::starts_with;
use crate::text::str_bytes;
use crate::text::str_is;
use crate::text::trim_ascii;
use crate::text::parse_u16;
use crate::text::spec_all_digits;
use crate::text::spec_ascii_lower;
use crate::text::spec_dec_value;

verus! {

/// The position of the last `+` or `-` in the sequence, or -1.
pub open spec fn spec_last_sep(s: Seq<char>) -> int
    decreases s.len(),
{
    if s.len() == 0 {
        -1
    } else if s.last() == '+' || s.last() == '-' {
        s.len() - 1
    } else {
        spec_last_sep(s.drop_last())
    }
}

/// Find the position just after the last `+` or `-`, or 0.
fn after_last_sep(s: &str) -> (r: usize)
    ensures
        r == spec_last_sep(s@) + 1,
        r <= s@.len(),
{
    let n = s.unicode_len();
    let mut i: usize = n;
    proof {
        assert(s@.take(n as int) =~= s@);
    }
    while i > 0
        invariant
            n == s@.len(),
            0 <= i <= n,
            spec_last_sep(s@) == spec_last_sep(s@.take(i as int)),
        decreases i,
    {
        let c = s.get_char(i - 1);
        proof {
            assert(s@.take(i as int).last() == s@[i - 1]);
            assert(s@.take(i as int).drop_last() =~= s@.take(i - 1));
        }
        if c == '+' || c == '-' {
            return i;
        }
        i = i - 1;
    }
    proof {
        assert(s@.take(0) =~= Seq::<char>::empty());
    }
    0
}

/// The byte sequence that a symbolic input name stands for, per the key
/// table: the name is lowercased and trimmed, the named keys map to their
/// escape sequences, `ctrl+`/`alt+` combinations to control bytes and an
/// ESC prefix, and anything else to the bytes of the name itself.
pub open spec fn spec_parse_input(raw: Seq<char>) -> Seq<u8> {
    let t = spec_trim(spec_ascii_lower(raw));
    if t == "up"@ {
        seq![0x1bu8, 0x5bu8, 0x41u8]
    } else if t == "down"@ {
        seq![0x1bu8, 0x5bu8, 0x42u8]
    } else if t == "right"@ {
        seq![0x1bu8, 0x5bu8, 0x43u8]
    } else if t == "left"@ {
        seq![0x1bu8, 0x5bu8, 0x44u8]
    } else if t == "home"@ {
        seq![0x1bu8, 0x5bu8, 0x48u8]
    } else if t == "end"@ {
        seq![0x1bu8, 0x5bu8, 0x46u8]
    } else if t == "pageup"@ || t == "page_up"@ || t == "pgup"@ {
        seq![0x1bu8, 0x5bu8, 0x35u8, 0x7eu8]
    } else if t == "pagedown"@ || t == "page_down"@ || t == "pgdn"@ {
        seq![0x1bu8, 0x5bu8, 0x36u8, 0x7eu8]
    } else if t == "insert"@ || t == "ins"@ {
        seq![0x1bu8, 0x5bu8, 0x32u8, 0x7eu8]
    } else if t == "delete"@ || t == "del"@ {
        seq![0x1bu8, 0x5bu8, 0x33u8, 0x7eu8]
    } else if t == "enter"@ || t == "return"@ {
        seq![0x0du8]
    } else if t == "space"@ {
        seq![0x20u8]
    } else if t == "tab"@ {
        seq![0x09u8]
    } else if t == "backspace"@ || t == "bs"@ {
        seq![0x7fu8]
    } else if t == "escape"@ || t == "esc"@ {
        seq![0x1bu8]
    } else if t == "f1"@ {
        seq![0x1bu8, 0x4fu8, 0x50u8]
    } else if t == "f2"@ {
        seq![0x1bu8, 0x4fu8, 0x51u8]
    } else if t == "f3"@ {
        seq![0x1bu8, 0x4fu8, 0x52u8]
    } else if t == "f4"@ {
        seq![0x1bu8, 0x4fu8, 0x53u8]
    } else if t == "f5"@ {
        seq![0x1bu8, 0x5bu8, 0x31u8, 0x35u8, 0x7eu8]
    } else if t == "f6"@ {
        seq![0x1bu8, 0x5bu8, 0x31u8, 0x37u8, 0x7eu8]
    } else if t == "f7"@ {
        seq![0x1bu8, 0x5bu8, 0x31u8, 0x38u8, 0x7eu8]
    } else if t == "f8"@ {
        seq![0x1bu8, 0x5bu8, 0x31u8, 0x39u8, 0x7eu8]
    } else if t == "f9"@ {
        seq![0x1bu8, 0x5bu8, 0x32u8, 0x30u8, 0x7eu8]
    } else if t == "f10"@ {
        seq![0x1bu8, 0x5bu8, 0x32u8, 0x31u8, 0x7eu8]
    } else if t == "f11"@ {
        seq![0x1bu8, 0x5bu8, 0x32u8, 0x33u8, 0x7eu8]
    } else if t == "f12"@ {
        seq![0x1bu8, 0x5bu8, 0x32u8, 0x34u8, 0x7eu8]
    } else if spec_starts_with(t, "ctrl+"@) || spec_starts_with(t, "ctrl-"@) || spec_starts_with(
        t,
        "c-"@,
    ) {
        let key = t.skip(spec_last_sep(t) + 1);
        if key.len() == 1 {
            let ch = key[0];
            if 'a' <= ch && ch <= 'z' {
                seq![(ch as u32 - 'a' as u32 + 1) as u8]
            } else {
                encode_utf8(raw)
            }
        } else if key == "space"@ {
            seq![0u8]
        } else {
            encode_utf8(raw)
        }
    } else if spec_starts_with(t, "alt+"@) || spec_starts_with(t, "alt-"@) || spec_starts_with(
        t,
        "m-"@,
    ) {
        seq![0x1bu8] + encode_utf8(t.skip(spec_last_sep(t) + 1))
    } else {
        encode_utf8(raw)
    }
}

/// Translate a symbolic input name into the bytes to write to the PTY.
pub fn parse_input(input: &str) -> (r: Vec<u8>)
    ensures
        r@ == spec_parse_input(input@),
{
    let lowered = ascii_lowercase(input);
    let t = trim_ascii(lowered.as_str());
    let s = t.as_str();
    if str_is(s, "up") {
        return vec![0x1b, 0x5b, 0x41];
    }
    if str_is(s, "down") {
        return vec![0x1b, 0x5b, 0x42];
    }
    if str_is(s, "right") {
        return vec![0x1b, 0x5b, 0x43];
    }
    if str_is(s, "left") {
        return vec![0x1b, 0x5b, 0x44];
    }
    if str_is(s, "home") {
        return vec![0x1b, 0x5b, 0x48];
    }
    if str_is(s, "end") {
        return vec![0x1b, 0x5b, 0x46];
    }
    if str_is(s, "pageup") || str_is(s, "page_up") || str_is(s, "pgup") {
        return vec![0x1b, 0x5b, 0x35, 0x7e];
    }
    if str_is(s, "pagedown") || str_is(s, "page_down") || str_is(s, "pgdn") {
        return vec![0x1b, 0x5b, 0x36, 0x7e];
    }
    if str_is(s, "insert") || str_is(s, "ins") {
        return vec![0x1b, 0x5b, 0x32, 0x7e];
    }
    if str_is(s, "delete") || str_is(s, "del") {
        return vec![0x1b, 0x5b, 0x33, 0x7e];
    }
    if str_is(s, "enter") || str_is(s, "return") {
        return vec![0x0d];
    }
    if str_is(s, "space") {
        return vec![0x20];
    }
    if str_is(s, "tab") {
        return vec![0x09];
    }
    if str_is(s, "backspace") || str_is(s, "bs") {
        return vec![0x7f];
    }
    if str_is(s, "escape") || str_is(s, "esc") {
        return vec![0x1b];
    }
    if str_is(s, "f1") {
        return vec![0x1b, 0x4f, 0x50];
    }
    if str_is(s, "f2") {
        return vec![0x1b, 0x4f, 0x51];
    }
    if str_is(s, "f3") {
        return vec![0x1b, 0x4f, 0x52];
    }
    if str_is(s, "f4") {
        return vec![0x1b, 0x4f, 0x53];
    }
    if str_is(s, "f5") {
        return vec![0x1b, 0x5b, 0x31, 0x35, 0x7e];
    }
    if str_is(s, "f6") {
        return vec![0x1b, 0x5b, 0x31, 0x37, 0x7e];
    }
    if str_is(s, "f7") {
        return vec![0x1b, 0x5b, 0x31, 0x38, 0x7e];
    }
    if str_is(s, "f8") {
        return vec![0x1b, 0x5b, 0x31, 0x39, 0x7e];
    }
    if str_is(s, "f9") {
        return vec![0x1b, 0x5b, 0x32, 0x30, 0x7e];
    }
    if str_is(s, "f10") {
        return vec![0x1b, 0x5b, 0x32, 0x31, 0x7e];
    }
    if str_is(s, "f11") {
        return vec![0x1b, 0x5b, 0x32, 0x33, 0x7e];
    }
    if str_is(s, "f12") {
        return vec![0x1b, 0x5b, 0x32, 0x34, 0x7e];
    }
    if starts_with(s, "ctrl+") || starts_with(s, "ctrl-") || starts_with(s, "c-") {
        let pos = after_last_sep(s);
        let n = s.unicode_len();
        let key = s.substring_char(pos, n);
        if key.unicode_len() == 1 {
            let ch = key.get_char(0);
            if ch >= 'a' && ch <= 'z' {
                let b: u8 = (ch as u32 - 97 + 1) as u8;
                return vec![b];
            }
            return str_bytes(input);
        }
        if str_is(key, "space") {
            return vec![0u8];
        }
        return str_bytes(input);
    }
    if starts_with(s, "alt+") || starts_with(s, "alt-") || starts_with(s, "m-") {
        let pos = after_last_sep(s);
        let n = s.unicode_len();
        let key = s.substring_char(pos, n);
        let mut r: Vec<u8> = vec![0x1b];
        let kb = str_bytes(key);
        let m = kb.len();
        let mut i: usize = 0;
        while i < m
            invariant
                m == kb@.len(),
                0 <= i <= m,
                r@ =~= seq![0x1bu8] + kb@.take(i as int),
            decreases m - i,
        {
            r.push(kb[i]);
            i = i + 1;
        }
        proof {
            assert(kb@.take(m as int) =~= kb@);
        }
        return r;
    }
    str_bytes(input)
}

/// Terminal size presets and custom dimensions.
#[derive(Debug, Clone, Copy, PartialEq, Eq, Structural)]
pub enum TerminalSize {
    /// 80x24, a classic minimal terminal.
    Compact,
    /// 120x40, a typical modern terminal.
    Standard,
    /// 160x50, a large widescreen terminal.
    Large,
    /// 200x60, for high-resolution displays.
    ExtraLarge,
    /// Explicit dimensions.
    Custom(u16, u16),
}

/// The columns and rows of a terminal size.
pub open spec fn spec_dimensions(s: TerminalSize) -> (u16, u16) {
    match s {
        TerminalSize::Compact => (80u16, 24u16),
        TerminalSize::Standard => (120u16, 40u16),
        TerminalSize::Large => (160u16, 50u16),
        TerminalSize::ExtraLarge => (200u16, 60u16),
        TerminalSize::Custom(c, r) => (c, r),
    }
}

impl TerminalSize {
    /// The dimensions as `(cols, rows)`.
    pub fn dimensions(&self) -> (d: (u16, u16))
        ensures
            d == spec_dimensions(*self),
    {
        match self {
            TerminalSize::Compact => (80, 24),
            TerminalSize::Standard => (120, 40),
            TerminalSize::Large => (160, 50),
            TerminalSize::ExtraLarge => (200, 60),
            TerminalSize::Custom(c, r) => (*c, *r),
        }
    }

    /// Parse a size from a preset name or a `WxH` pair of decimal numbers.
    pub fn from_str(s: &str) -> (r: Option<TerminalSize>)
        ensures
            r == spec_size_from_str(s@),
    {
        let lowered = ascii_lowercase(s);
        let t = lowered.as_str();
        if str_is(t, "compact") || str_is(t, "small") || str_is(t, "minimal") {
            return Some(TerminalSize::Compact);
        }
        if str_is(t, "standard") || str_is(t, "default") || str_is(t, "normal") {
            return Some(TerminalSize::Standard);
        }
        if str_is(t, "large") || str_is(t, "wide") {
            return Some(TerminalSize::Large);
        }
        if str_is(t, "xl") || str_is(t, "extralarge") || str_is(t, "extra-large") {
            return Some(TerminalSize::ExtraLarge);
        }
        match split_two_on_x(t) {
            Some((left, right)) => {
                let c = parse_u16(left.as_str());
                let rr = parse_u16(right.as_str());
                match (c, rr) {
                    (Some(cols), Some(rows)) => Some(TerminalSize::Custom(cols, rows)),
                    _ => None,
                }
            },
            None => None,
        }
    }

    /// Every preset size.
    pub fn all_presets() -> (v: Vec<TerminalSize>)
        ensures
            v@ == seq![
                TerminalSize::Compact,
                TerminalSize::Standard,
                TerminalSize::Large,
                TerminalSize::ExtraLarge,
            ],
    {
        let v = vec![
            TerminalSize::Compact,
            TerminalSize::Standard,
            TerminalSize::Large,
            TerminalSize::ExtraLarge,
        ];
        proof {
            assert(v@ =~= seq![
                TerminalSize::Compact,
                TerminalSize::Standard,
                TerminalSize::Large,
                TerminalSize::ExtraLarge,
            ]);
        }
        v
    }
}

/// The number of `x` characters in a sequence.
pub open spec fn spec_count_x(s: Seq<char>) -> int
    decreases s.len(),
{
    if s.len() == 0 {
        0
    } else {
        (if s.last() == 'x' {
            1int
        } else {
            0int
        }) + spec_count_x(s.drop_last())
    }
}

/// The position of the first `x`, meaningful when one exists.
pub open spec fn spec_first_x(s: Seq<char>) -> int
    decreases s.len(),
{
    if s.len() == 0 {
        0
    } else if s[0] == 'x' {
        0
    } else {
        1 + spec_first_x(s.drop_first())
    }
}

/// A size written as `WxH`: exactly one `x`, both sides decimal numbers
/// that fit 16 bits.
pub open spec fn spec_size_from_str(raw: Seq<char>) -> Option<TerminalSize> {
    let t = spec_ascii_lower(raw);
    if t == "compact"@ || t == "small"@ || t == "minimal"@ {
        Some(TerminalSize::Compact)
    } else if t == "standard"@ || t == "default"@ || t == "normal"@ {
        Some(TerminalSize::Standard)
    } else if t == "large"@ || t == "wide"@ {
        Some(TerminalSize::Large)
    } else if t == "xl"@ || t == "extralarge"@ || t == "extra-large"@ {
        Some(TerminalSize::ExtraLarge)
    } else if spec_count_x(t) == 1 {
        let i = spec_first_x(t);
        let left = t.take(i);
        let right = t.skip(i + 1);
        if spec_all_digits(left) && spec_dec_value(left) <= u16::MAX && spec_all_digits(right)
            && spec_dec_value(right) <= u16::MAX {
            Some(
                TerminalSize::Custom(
                    spec_dec_value(left) as u16,
                    spec_dec_value(right) as u16,
                ),
            )
        } else {
            None
        }
    } else {
        None
    }
}

/// Split a string at its only `x`; `None` unless there is exactly one.
pub fn split_two_on_x(s: &str) -> (r: Option<(String, String)>)
    ensures
        r is Some <==> spec_count_x(s@) == 1,
        r is Some ==> (r->0).0@ == s@.take(spec_first_x(s@)) && (r->0).1@ == s@.skip(
            spec_first_x(s@) + 1,
        ),
{
    let n = s.unicode_len();
    let mut count: usize = 0;
    let mut first: usize = 0;
    let mut i: usize = 0;
    while i < n
        invariant
            n == s@.len(),
            0 <= i <= n,
            count == spec_count_x(s@.take(i as int)),
            count > 0 ==> first == spec_first_x(s@) && first < i && s@[first as int] == 'x',
            count == 0 ==> spec_first_x_none(s@.take(i as int)),
            count <= i,
        decreases n - i,
    {
        let c = s.get_char(i);
        proof {
            assert(s@.take(i + 1).drop_last() =~= s@.take(i as int));
            assert(s@.take(i + 1).last() == s@[i as int]);
        }
        if c == 'x' {
            if count == 0 {
                first = i;
                proof {
                    assert forall|j: int| 0 <= j < i implies s@[j] != 'x' by {
                        assert(s@.take(i as int)[j] == s@[j]);
                    }
                    lemma_first_x_position(s@, i as int);
                }
            }
            count = count + 1;
        }
        i = i + 1;
    }
    proof {
        assert(s@.take(n as int) =~= s@);
    }
    if count == 1 {
        let left = s.substring_char(0, first);
        let right = s.substring_char(first + 1, n);
        Some((left.to_owned(), right.to_owned()))
    } else {
        None
    }
}

/// No `x` occurs in the sequence.
pub open spec fn spec_first_x_none(s: Seq<char>) -> bool {
    forall|j: int| 0 <= j < s.len() ==> s[j] != 'x'
}

proof fn lemma_first_x_position(s: Seq<char>, i: int)
    requires
        0 <= i < s.len(),
        s[i] == 'x',
        forall|j: int| 0 <= j < i ==> s[j] != 'x',
    ensures
        spec_first_x(s) == i,
    decreases i,
{
    if i > 0 {
        lemma_first_x_position(s.drop_first(), i - 1);
    }
}

/// The control sequence a logical key label stands for, per the key
/// table: the name is matched case-insensitively; backspace is the delete
/// byte; any other name is sent as its own bytes, verbatim.
pub open spec fn spec_key_sequence(raw: Seq<char>) -> Seq<u8> {
    let t = spec_ascii_lower(raw);
    if t == "up"@ {
        seq![0x1bu8, 0x5bu8, 0x41u8]
    } else if t == "down"@ {
        seq![0x1bu8, 0x5bu8, 0x42u8]
    } else if t == "right"@ {
        seq![0x1bu8, 0x5bu8, 0x43u8]
    } else if t == "left"@ {
        seq![0x1bu8, 0x5bu8, 0x44u8]
    } else if t == "enter"@ {
        seq![0x0du8]
    } else if t == "space"@ {
        seq![0x20u8]
    } else if t == "tab"@ {
        seq![0x09u8]
    } else if t == "backspace"@ {
        seq![0x7fu8]
    } else {
        encode_utf8(raw)
    }
}

/// Translate a logical key label into the VT100 control sequence to send.
pub fn key_to_sequence(key: &str) -> (r: Vec<u8>)
    ensures
        r@ == spec_key_sequence(key@),
{
    let lowered = ascii_lowercase(key);
    let s = lowered.as_str();
    if str_is(s, "up") {
        return vec![0x1b, 0x5b, 0x41];
    }
    if str_is(s, "down") {
        return vec![0x1b, 0x5b, 0x42];
    }
    if str_is(s, "right") {
        return vec![0x1b, 0x5b, 0x43];
    }
    if str_is(s, "left") {
        return vec![0x1b, 0x5b, 0x44];
    }
    if str_is(s, "enter") {
        return vec![0x0d];
    }
    if str_is(s, "space") {
        return vec![0x20];
    }
    if str_is(s, "tab") {
        return vec![0x09];
    }
    if str_is(s, "backspace") {
        return vec![0x7f];
    }
    str_bytes(key)
}

} // verus!
