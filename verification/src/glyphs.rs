//! Glyph bitmaps: lookups in the bitmap font, synthetic Braille patterns,
//! and the doubling of 8x8 glyphs to the 8x16 cell.
//!
//! The font lookups are outside calls whose results are named; the Braille
//! rendering and the row doubling are specified and proved here.

use vstd::prelude::*;

verus! {

/// What the basic-set font lookup returns for a code point.
pub uninterp spec fn basic_glyph_of(c: char) -> Option<Seq<u8>>;

/// What the box-drawing font lookup returns for a code point.
pub uninterp spec fn box_glyph_of(c: char) -> Option<Seq<u8>>;

/// What the block-element font lookup returns for a code point.
pub uninterp spec fn block_glyph_of(c: char) -> Option<Seq<u8>>;

/// What the Latin-supplement font lookup returns for a code point.
pub uninterp spec fn latin_glyph_of(c: char) -> Option<Seq<u8>>;

/// What the Greek font lookup returns for a code point.
pub uninterp spec fn greek_glyph_of(c: char) -> Option<Seq<u8>>;

/// What the Hiragana font lookup returns for a code point.
pub uninterp spec fn hiragana_glyph_of(c: char) -> Option<Seq<u8>>;

/// What the miscellaneous font lookup returns for a code point.
pub uninterp spec fn misc_glyph_of(c: char) -> Option<Seq<u8>>;

/// Relies on `font8x8::BASIC_FONTS.get`: a pure lookup of the 8x8 glyph
/// for a code point of the basic set.
#[verifier::external_body]
pub(crate) fn basic_glyph(c: char) -> (r: Option<[u8; 8]>)
    ensures
        r is Some <==> basic_glyph_of(c) is Some,
        r is Some ==> r->0@ == basic_glyph_of(c)->0,
{
    font8x8::UnicodeFonts::get(&font8x8::BASIC_FONTS, c)
}

/// Relies on `font8x8::BOX_FONTS.get`: a pure lookup of the 8x8 glyph for
/// a box-drawing code point.
#[verifier::external_body]
fn box_glyph(c: char) -> (r: Option<[u8; 8]>)
    ensures
        r is Some <==> box_glyph_of(c) is Some,
        r is Some ==> r->0@ == box_glyph_of(c)->0,
{
    font8x8::UnicodeFonts::get(&font8x8::BOX_FONTS, c)
}

/// Relies on `font8x8::BLOCK_FONTS.get`: a pure lookup of the 8x8 glyph
/// for a block-element code point.
#[verifier::external_body]
fn block_glyph(c: char) -> (r: Option<[u8; 8]>)
    ensures
        r is Some <==> block_glyph_of(c) is Some,
        r is Some ==> r->0@ == block_glyph_of(c)->0,
{
    font8x8::UnicodeFonts::get(&font8x8::BLOCK_FONTS, c)
}

/// Relies on `font8x8::LATIN_FONTS.get`: a pure lookup of the 8x8 glyph
/// for a Latin-supplement code point.
#[verifier::external_body]
fn latin_glyph(c: char) -> (r: Option<[u8; 8]>)
    ensures
        r is Some <==> latin_glyph_of(c) is Some,
        r is Some ==> r->0@ == latin_glyph_of(c)->0,
{
    font8x8::UnicodeFonts::get(&font8x8::LATIN_FONTS, c)
}

/// Relies on `font8x8::GREEK_FONTS.get`: a pure lookup of the 8x8 glyph
/// for a Greek code point.
#[verifier::external_body]
fn greek_glyph(c: char) -> (r: Option<[u8; 8]>)
    ensures
        r is Some <==> greek_glyph_of(c) is Some,
        r is Some ==> r->0@ == greek_glyph_of(c)->0,
{
    font8x8::UnicodeFonts::get(&font8x8::GREEK_FONTS, c)
}

/// Relies on `font8x8::HIRAGANA_FONTS.get`: a pure lookup of the 8x8
/// glyph for a Hiragana code point.
#[verifier::external_body]
fn hiragana_glyph(c: char) -> (r: Option<[u8; 8]>)
    ensures
        r is Some <==> hiragana_glyph_of(c) is Some,
        r is Some ==> r->0@ == hiragana_glyph_of(c)->0,
{
    font8x8::UnicodeFonts::get(&font8x8::HIRAGANA_FONTS, c)
}

/// Relies on `font8x8::MISC_FONTS.get`: a pure lookup of the 8x8 glyph
/// for a miscellaneous code point.
#[verifier::external_body]
fn misc_glyph(c: char) -> (r: Option<[u8; 8]>)
    ensures
        r is Some <==> misc_glyph_of(c) is Some,
        r is Some ==> r->0@ == misc_glyph_of(c)->0,
{
    font8x8::UnicodeFonts::get(&font8x8::MISC_FONTS, c)
}

/// The 8x8 glyph of a code point: the font sets tried in a fixed order.
pub open spec fn spec_glyph8(c: char) -> Option<Seq<u8>> {
    if basic_glyph_of(c) is Some {
        basic_glyph_of(c)
    } else if box_glyph_of(c) is Some {
        box_glyph_of(c)
    } else if block_glyph_of(c) is Some {
        block_glyph_of(c)
    } else if latin_glyph_of(c) is Some {
        latin_glyph_of(c)
    } else if greek_glyph_of(c) is Some {
        greek_glyph_of(c)
    } else if hiragana_glyph_of(c) is Some {
        hiragana_glyph_of(c)
    } else if misc_glyph_of(c) is Some {
        misc_glyph_of(c)
    } else {
        None
    }
}

/// Whether a code point lies in the Braille patterns block.
pub open spec fn spec_is_braille(c: char) -> bool {
    0x2800 <= c as u32 <= 0x28FF
}

/// One row of the synthetic Braille bitmap: the pattern byte encodes 8
/// dots in two columns of four rows; each dot paints two bitmap rows, the
/// left column with a 3-pixel mask near the left edge, the right column
/// near the right edge.
pub open spec fn spec_braille_row(p: u8, r: int) -> u8 {
    let left = if r == 1 || r == 2 {
        p & 0x01 != 0
    } else if r == 5 || r == 6 {
        p & 0x02 != 0
    } else if r == 9 || r == 10 {
        p & 0x04 != 0
    } else if r == 13 || r == 14 {
        p & 0x40 != 0
    } else {
        false
    };
    let right = if r == 1 || r == 2 {
        p & 0x08 != 0
    } else if r == 5 || r == 6 {
        p & 0x10 != 0
    } else if r == 9 || r == 10 {
        p & 0x20 != 0
    } else if r == 13 || r == 14 {
        p & 0x80 != 0
    } else {
        false
    };
    if left && right {
        0x7Eu8
    } else if left {
        0x0Eu8
    } else if right {
        0x70u8
    } else {
        0u8
    }
}

/// The full 8x16 bitmap of a Braille pattern byte.
pub open spec fn spec_braille_bitmap(p: u8) -> Seq<u8> {
    Seq::new(16, |r: int| spec_braille_row(p, r))
}

fn braille_row(p: u8, r: u32) -> (b: u8)
    requires
        r < 16,
    ensures
        b == spec_braille_row(p, r as int),
{
    let left: bool = if r == 1 || r == 2 {
        p & 0x01 != 0
    } else if r == 5 || r == 6 {
        p & 0x02 != 0
    } else if r == 9 || r == 10 {
        p & 0x04 != 0
    } else if r == 13 || r == 14 {
        p & 0x40 != 0
    } else {
        false
    };
    let right: bool = if r == 1 || r == 2 {
        p & 0x08 != 0
    } else if r == 5 || r == 6 {
        p & 0x10 != 0
    } else if r == 9 || r == 10 {
        p & 0x20 != 0
    } else if r == 13 || r == 14 {
        p & 0x80 != 0
    } else {
        false
    };
    if left && right {
        0x7Eu8
    } else if left {
        0x0Eu8
    } else if right {
        0x70u8
    } else {
        0u8
    }
}

/// Render a Braille pattern to its 8x16 bitmap.
pub fn render_braille(p: u8) -> (bm: Vec<u8>)
    ensures
        bm@ == spec_braille_bitmap(p),
{
    let mut bm: Vec<u8> = Vec::new();
    let mut r: u32 = 0;
    while r < 16
        invariant
            0 <= r <= 16,
            bm@.len() == r,
            forall|i: int| 0 <= i < r ==> bm@[i] == spec_braille_row(p, i),
        decreases 16 - r,
    {
        bm.push(braille_row(p, r));
        r = r + 1;
    }
    proof {
        assert(bm@ =~= spec_braille_bitmap(p));
    }
    bm
}

/// An 8x8 glyph doubled row by row to fill the 8x16 cell.
pub open spec fn spec_expand_glyph(g: Seq<u8>) -> Seq<u8> {
    Seq::new(16, |i: int| g[i / 2])
}

fn expand_glyph(g: &[u8; 8]) -> (e: Vec<u8>)
    ensures
        e@ == spec_expand_glyph(g@),
{
    let mut e: Vec<u8> = Vec::new();
    let mut i: usize = 0;
    while i < 8
        invariant
            0 <= i <= 8,
            e@.len() == 2 * i,
            forall|j: int| 0 <= j < 2 * i ==> e@[j] == g@[j / 2],
        decreases 8 - i,
    {
        let row = g[i];
        e.push(row);
        e.push(row);
        i = i + 1;
    }
    proof {
        assert(e@ =~= spec_expand_glyph(g@));
    }
    e
}

/// The 8x16 bitmap a cell's code point renders with: a font glyph doubled
/// row by row; a Braille pattern rendered from its bits when no font set
/// covers it; otherwise all zeros, a blank cell.
pub open spec fn spec_glyph16(c: char) -> Seq<u8> {
    match spec_glyph8(c) {
        Some(g) => spec_expand_glyph(g),
        None => if spec_is_braille(c) {
            spec_braille_bitmap((c as u32 - 0x2800) as u8)
        } else {
            Seq::new(16, |i: int| 0u8)
        },
    }
}

/// Look up the 8x16 bitmap for a code point.
pub fn get_char_bitmap(c: char) -> (bm: Vec<u8>)
    ensures
        bm@ == spec_glyph16(c),
        bm@.len() == 16,
{
    if let Some(g) = basic_glyph(c) {
        return expand_glyph(&g);
    }
    if let Some(g) = box_glyph(c) {
        return expand_glyph(&g);
    }
    if let Some(g) = block_glyph(c) {
        return expand_glyph(&g);
    }
    if let Some(g) = latin_glyph(c) {
        return expand_glyph(&g);
    }
    if let Some(g) = greek_glyph(c) {
        return expand_glyph(&g);
    }
    if let Some(g) = hiragana_glyph(c) {
        return expand_glyph(&g);
    }
    if let Some(g) = misc_glyph(c) {
        return expand_glyph(&g);
    }
    let u = c as u32;
    if 0x2800 <= u && u <= 0x28FF {
        render_braille((u - 0x2800) as u8)
    } else {
        let mut bm: Vec<u8> = Vec::new();
        let mut i: u32 = 0;
        while i < 16
            invariant
                0 <= i <= 16,
                bm@.len() == i,
                forall|j: int| 0 <= j < i ==> bm@[j] == 0u8,
            decreases 16 - i,
        {
            bm.push(0);
            i = i + 1;
        }
        proof {
            assert(bm@ =~= Seq::new(16, |i: int| 0u8));
        }
        bm
    }
}

} // verus!
