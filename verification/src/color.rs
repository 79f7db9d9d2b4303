//! RGB colors, the fixed ANSI color tables, the xterm 256-color palette,
//! and the brightening rule applied to bold text.

use vstd::prelude::*;

verus! {

/// A 24-bit RGB color.
#[derive(Clone, Copy, PartialEq, Eq, Structural, Debug)]
pub struct Rgb {
    pub r: u8,
    pub g: u8,
    pub b: u8,
}

impl Rgb {
    pub fn new(r: u8, g: u8, b: u8) -> (c: Rgb)
        ensures
            c == (Rgb { r, g, b }),
    {
        Rgb { r, g, b }
    }
}

/// Default foreground: white.
pub open spec fn spec_default_fg() -> Rgb {
    Rgb { r: 255, g: 255, b: 255 }
}

/// Default background: black.
pub open spec fn spec_default_bg() -> Rgb {
    Rgb { r: 0, g: 0, b: 0 }
}

pub fn default_fg() -> (c: Rgb)
    ensures
        c == spec_default_fg(),
{
    Rgb { r: 255, g: 255, b: 255 }
}

pub fn default_bg() -> (c: Rgb)
    ensures
        c == spec_default_bg(),
{
    Rgb { r: 0, g: 0, b: 0 }
}

/// The eight standard ANSI colors, indices 0 through 7.
pub open spec fn spec_ansi_color(idx: int) -> Rgb {
    if idx == 0 {
        Rgb { r: 0, g: 0, b: 0 }
    } else if idx == 1 {
        Rgb { r: 205, g: 49, b: 49 }
    } else if idx == 2 {
        Rgb { r: 13, g: 188, b: 121 }
    } else if idx == 3 {
        Rgb { r: 229, g: 229, b: 16 }
    } else if idx == 4 {
        Rgb { r: 36, g: 114, b: 200 }
    } else if idx == 5 {
        Rgb { r: 188, g: 63, b: 188 }
    } else if idx == 6 {
        Rgb { r: 17, g: 168, b: 205 }
    } else {
        Rgb { r: 229, g: 229, b: 229 }
    }
}

/// The eight bright ANSI colors, indices 0 through 7.
pub open spec fn spec_ansi_bright_color(idx: int) -> Rgb {
    if idx == 0 {
        Rgb { r: 102, g: 102, b: 102 }
    } else if idx == 1 {
        Rgb { r: 241, g: 76, b: 76 }
    } else if idx == 2 {
        Rgb { r: 35, g: 209, b: 139 }
    } else if idx == 3 {
        Rgb { r: 245, g: 245, b: 67 }
    } else if idx == 4 {
        Rgb { r: 59, g: 142, b: 234 }
    } else if idx == 5 {
        Rgb { r: 214, g: 112, b: 214 }
    } else if idx == 6 {
        Rgb { r: 41, g: 184, b: 219 }
    } else {
        Rgb { r: 255, g: 255, b: 255 }
    }
}

pub fn ansi_color(idx: u8) -> (c: Rgb)
    requires
        idx < 8,
    ensures
        c == spec_ansi_color(idx as int),
{
    if idx == 0 {
        Rgb { r: 0, g: 0, b: 0 }
    } else if idx == 1 {
        Rgb { r: 205, g: 49, b: 49 }
    } else if idx == 2 {
        Rgb { r: 13, g: 188, b: 121 }
    } else if idx == 3 {
        Rgb { r: 229, g: 229, b: 16 }
    } else if idx == 4 {
        Rgb { r: 36, g: 114, b: 200 }
    } else if idx == 5 {
        Rgb { r: 188, g: 63, b: 188 }
    } else if idx == 6 {
        Rgb { r: 17, g: 168, b: 205 }
    } else {
        Rgb { r: 229, g: 229, b: 229 }
    }
}

pub fn ansi_bright_color(idx: u8) -> (c: Rgb)
    requires
        idx < 8,
    ensures
        c == spec_ansi_bright_color(idx as int),
{
    if idx == 0 {
        Rgb { r: 102, g: 102, b: 102 }
    } else if idx == 1 {
        Rgb { r: 241, g: 76, b: 76 }
    } else if idx == 2 {
        Rgb { r: 35, g: 209, b: 139 }
    } else if idx == 3 {
        Rgb { r: 245, g: 245, b: 67 }
    } else if idx == 4 {
        Rgb { r: 59, g: 142, b: 234 }
    } else if idx == 5 {
        Rgb { r: 214, g: 112, b: 214 }
    } else if idx == 6 {
        Rgb { r: 41, g: 184, b: 219 }
    } else {
        Rgb { r: 255, g: 255, b: 255 }
    }
}

/// Clamp a 16-bit SGR parameter to a color channel.
pub open spec fn spec_clamp_u16_to_u8(value: u16) -> u8 {
    if value < 255 {
        value as u8
    } else {
        255
    }
}

pub fn clamp_u16_to_u8(value: u16) -> (r: u8)
    ensures
        r == spec_clamp_u16_to_u8(value),
{
    if value < 255 {
        value as u8
    } else {
        255
    }
}

/// The brightening rule for one channel of a bold foreground:
/// the larger of `c + 64` and `c * 4 / 3`, clamped to 255.
pub open spec fn spec_brighten_channel(c: u8) -> u8 {
    let lifted = if c + 64 >= c * 4 / 3 {
        c + 64
    } else {
        c * 4 / 3
    };
    if lifted > 255 {
        255
    } else {
        lifted as u8
    }
}

pub open spec fn spec_brighten(c: Rgb) -> Rgb {
    Rgb {
        r: spec_brighten_channel(c.r),
        g: spec_brighten_channel(c.g),
        b: spec_brighten_channel(c.b),
    }
}

fn brighten_channel(c: u8) -> (r: u8)
    ensures
        r == spec_brighten_channel(c),
{
    let added: u16 = c as u16 + 64;
    let scaled: u16 = c as u16 * 4 / 3;
    let lifted: u16 = if added >= scaled {
        added
    } else {
        scaled
    };
    if lifted > 255 {
        255
    } else {
        lifted as u8
    }
}

/// Brighten a color, the rule applied to bold foregrounds.
pub fn brighten_color(c: Rgb) -> (r: Rgb)
    ensures
        r == spec_brighten(c),
{
    Rgb { r: brighten_channel(c.r), g: brighten_channel(c.g), b: brighten_channel(c.b) }
}

/// One level of the 6-level color cube used by palette indices 16 through 231.
pub open spec fn spec_cube_level(i: int) -> u8 {
    if i == 0 {
        0
    } else if i == 1 {
        95
    } else if i == 2 {
        135
    } else if i == 3 {
        175
    } else if i == 4 {
        215
    } else {
        255
    }
}

fn cube_level(i: u8) -> (r: u8)
    requires
        i < 6,
    ensures
        r == spec_cube_level(i as int),
{
    if i == 0 {
        0
    } else if i == 1 {
        95
    } else if i == 2 {
        135
    } else if i == 3 {
        175
    } else if i == 4 {
        215
    } else {
        255
    }
}

/// The xterm 256-color palette: 0-7 standard, 8-15 bright, 16-231 a 6x6x6
/// color cube over the levels 0, 95, 135, 175, 215, 255 in RGB order, and
/// 232-255 a grayscale ramp `8 + 10 * (idx - 232)`.
pub open spec fn spec_xterm_256(idx: u8) -> Rgb {
    if idx < 8 {
        spec_ansi_color(idx as int)
    } else if idx < 16 {
        spec_ansi_bright_color(idx - 8)
    } else if idx < 232 {
        let n = idx - 16;
        Rgb {
            r: spec_cube_level(n / 36),
            g: spec_cube_level((n % 36) / 6),
            b: spec_cube_level(n % 6),
        }
    } else {
        let shade = (8 + (idx - 232) * 10) as u8;
        Rgb { r: shade, g: shade, b: shade }
    }
}

/// Map a 256-color palette index to its RGB value.
pub fn xterm_256_to_rgb(idx: u8) -> (c: Rgb)
    ensures
        c == spec_xterm_256(idx),
{
    if idx < 8 {
        ansi_color(idx)
    } else if idx < 16 {
        ansi_bright_color(idx - 8)
    } else if idx < 232 {
        let n = idx - 16;
        Rgb { r: cube_level(n / 36), g: cube_level((n % 36) / 6), b: cube_level(n % 6) }
    } else {
        let shade = 8 + (idx - 232) * 10;
        Rgb { r: shade, g: shade, b: shade }
    }
}

/// The value of one hexadecimal digit, or -1.
pub open spec fn spec_hex_val(c: char) -> int {
    if '0' <= c && c <= '9' {
        c as int - '0' as int
    } else if 'a' <= c && c <= 'f' {
        10 + (c as int - 'a' as int)
    } else if 'A' <= c && c <= 'F' {
        10 + (c as int - 'A' as int)
    } else {
        -1
    }
}

/// The sequence with every leading `#` removed.
pub open spec fn spec_strip_hashes(s: Seq<char>) -> Seq<char>
    decreases s.len(),
{
    if s.len() > 0 && s[0] == '#' {
        spec_strip_hashes(s.drop_first())
    } else {
        s
    }
}

/// Whether the first six characters are all hexadecimal digits.
pub open spec fn spec_all_hex6(t: Seq<char>) -> bool {
    forall|i: int| 0 <= i < 6 ==> spec_hex_val(#[trigger] t[i]) >= 0
}

/// What a hex color string parses to: leading `#` stripped, then exactly
/// six hexadecimal digits, two per channel.
pub open spec fn spec_parse_hex_color(raw: Seq<char>) -> Option<Rgb> {
    let t = spec_strip_hashes(raw);
    if t.len() == 6 && spec_all_hex6(t) {
        Some(
            Rgb {
                r: (spec_hex_val(t[0]) * 16 + spec_hex_val(t[1])) as u8,
                g: (spec_hex_val(t[2]) * 16 + spec_hex_val(t[3])) as u8,
                b: (spec_hex_val(t[4]) * 16 + spec_hex_val(t[5])) as u8,
            },
        )
    } else {
        None
    }
}

fn hex_val(c: char) -> (v: i8)
    ensures
        v as int == spec_hex_val(c),
{
    if c >= '0' && c <= '9' {
        (c as u32 - '0' as u32) as i8
    } else if c >= 'a' && c <= 'f' {
        (10 + (c as u32 - 'a' as u32)) as i8
    } else if c >= 'A' && c <= 'F' {
        (10 + (c as u32 - 'A' as u32)) as i8
    } else {
        -1
    }
}

/// Parse a color written as six hex digits, with any leading `#` ignored.
pub fn parse_hex_color(hex: &str) -> (r: Option<Rgb>)
    ensures
        r == spec_parse_hex_color(hex@),
{
    let n = hex.unicode_len();
    let mut start: usize = 0;
    proof {
        assert(hex@.skip(0) =~= hex@);
    }
    while start < n && hex.get_char(start) == '#'
        invariant
            n == hex@.len(),
            0 <= start <= n,
            spec_strip_hashes(hex@) == spec_strip_hashes(hex@.skip(start as int)),
        decreases n - start,
    {
        proof {
            assert(hex@.skip(start as int)[0] == hex@[start as int]);
            assert(hex@.skip(start as int).drop_first() =~= hex@.skip(start + 1));
        }
        start = start + 1;
    }
    proof {
        if start < n {
            assert(hex@.skip(start as int)[0] == hex@[start as int]);
            assert(spec_strip_hashes(hex@.skip(start as int)) == hex@.skip(start as int));
        } else {
            assert(hex@.skip(start as int) =~= Seq::<char>::empty());
        }
    }
    let ghost t = spec_strip_hashes(hex@);
    if n - start != 6 {
        return None;
    }
    let mut vals: [i8; 6] = [0, 0, 0, 0, 0, 0];
    let mut i: usize = 0;
    while i < 6
        invariant
            n == hex@.len(),
            n - start == 6,
            t == spec_strip_hashes(hex@),
            t == hex@.skip(start as int),
            t.len() == 6,
            0 <= i <= 6,
            forall|k: int| 0 <= k < i ==> vals@[k] as int == spec_hex_val(#[trigger] t[k])
                && spec_hex_val(t[k]) >= 0,
        decreases 6 - i,
    {
        let v = hex_val(hex.get_char(start + i));
        proof {
            assert(t[i as int] == hex@[start + i]);
        }
        if v < 0 {
            proof {
                assert(spec_hex_val(t[i as int]) < 0);
                assert(!spec_all_hex6(t));
            }
            return None;
        }
        vals[i] = v;
        i = i + 1;
    }
    let r8: u8 = (vals[0] as u8) * 16 + (vals[1] as u8);
    let g8: u8 = (vals[2] as u8) * 16 + (vals[3] as u8);
    let b8: u8 = (vals[4] as u8) * 16 + (vals[5] as u8);
    Some(Rgb { r: r8, g: g8, b: b8 })
}

} // verus!
