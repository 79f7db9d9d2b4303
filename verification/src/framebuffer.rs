//! A virtual RGB framebuffer with a drawing API: fill, rectangles, text in
//! the 8x8 font, and direct pixel access.  It serves as the render target
//! of the rasterizer and as the test collaborator that stands in for a
//! real display.

use vstd::prelude::*;

use crate::color::Rgb;
use crate::glyphs::basic_glyph;
use crate::glyphs::basic_glyph_of;
use crate::imageio::decode_png;
use crate::imageio::encode_png;
use crate::imageio::png_decode_of;
use crate::imageio::png_of;
use crate::snapshot::SnapshotError;
use crate::snapshot::SnapshotResult;

verus! {

/// The pixel at `(a, b)` of a row-major RGB byte buffer of width `w`.
pub open spec fn spec_pix(data: Seq<u8>, w: int, a: int, b: int) -> Rgb {
    Rgb {
        r: data[3 * (b * w + a)],
        g: data[3 * (b * w + a) + 1],
        b: data[3 * (b * w + a) + 2],
    }
}

/// One row of an 8x8 glyph, a missing glyph reading as all zeros.
pub open spec fn spec_glyph_row(g: Option<Seq<u8>>, row: int) -> u8 {
    match g {
        Some(s) => s[row],
        None => 0,
    }
}

/// One pixel of an 8x8 glyph; the leftmost pixel is the least significant
/// bit.
pub open spec fn spec_glyph_bit(g: Option<Seq<u8>>, col: int, row: int) -> bool {
    (spec_glyph_row(g, row) >> col as u8) & 1 == 1
}

/// How many characters of a text drawn at column `x` fit before the pen
/// passes the right edge: the first character is always drawn, later ones
/// only while their start column is inside the buffer.
pub open spec fn spec_drawn_count(len: int, x: int, w: int) -> int {
    if len == 0 {
        0
    } else {
        let q = (w - x - 1) / 8 + 1;
        let cap = if q < 1 {
            1
        } else {
            q
        };
        if len < cap {
            len
        } else {
            cap
        }
    }
}

/// Row-major pixel addressing is injective for in-range columns.
proof fn lemma_rowmajor_unique(w: int, a: int, b: int, x: int, y: int)
    requires
        w >= 1,
        0 <= a < w,
        0 <= x < w,
        b * w + a == y * w + x,
    ensures
        a == x && b == y,
{
    assert((b - y) * w == x - a) by (nonlinear_arith)
        requires
            b * w + a == y * w + x,
    ;
    if b > y {
        assert((b - y) * w >= w) by (nonlinear_arith)
            requires
                b - y >= 1 && w >= 1,
        ;
    } else if b < y {
        assert((b - y) * w <= -w) by (nonlinear_arith)
            requires
                b - y <= -1 && w >= 1,
        ;
    }
}

/// A pixel's byte range lies inside a buffer of `w * h` pixels.
proof fn lemma_pix_in_bounds(w: int, h: int, a: int, b: int)
    requires
        0 <= a < w,
        0 <= b < h,
    ensures
        0 <= 3 * (b * w + a),
        3 * (b * w + a) + 2 < 3 * (w * h),
        3 * (b * w + a) + 2 < w * h * 3,
{
    assert(b * w + a >= 0 && b * w + a < w * h) by (nonlinear_arith)
        requires
            0 <= a < w && 0 <= b < h,
    ;
}

/// A virtual framebuffer: RGB bytes in row-major order, three per pixel.
#[derive(Clone, Debug)]
pub struct MockFramebuffer {
    /// Width in pixels; constant after construction.
    pub width: u32,
    /// Height in pixels; constant after construction.
    pub height: u32,
    /// The pixel bytes, exactly `width * height * 3` of them.
    pub buffer: Vec<u8>,
}

impl MockFramebuffer {
    /// Well-formedness: the buffer holds exactly three bytes per pixel.
    pub open spec fn wf(&self) -> bool {
        &&& self.buffer@.len() == (self.width as int) * (self.height as int) * 3
        &&& (self.width as int) * (self.height as int) * 3 <= usize::MAX
    }

    /// The pixel at `(a, b)`.
    pub open spec fn pix(&self, a: int, b: int) -> Rgb {
        spec_pix(self.buffer@, self.width as int, a, b)
    }

    /// A framebuffer of the given dimensions, all pixels black.
    pub fn new(width: u32, height: u32) -> (fb: MockFramebuffer)
        requires
            (width as int) * (height as int) * 3 <= usize::MAX,
        ensures
            fb.wf(),
            fb.width == width,
            fb.height == height,
            forall|a: int, b: int|
                0 <= a < width && 0 <= b < height ==> #[trigger] fb.pix(a, b) == (Rgb {
                    r: 0,
                    g: 0,
                    b: 0,
                }),
    {
        proof {
            assert((width as int) * (height as int) >= 0) by (nonlinear_arith)
                requires
                    width as int >= 0 && height as int >= 0,
            ;
        }
        let n: usize = (width as usize) * (height as usize) * 3;
        let mut buffer: Vec<u8> = Vec::new();
        let mut i: usize = 0;
        while i < n
            invariant
                0 <= i <= n,
                buffer@.len() == i,
                forall|j: int| 0 <= j < i ==> buffer@[j] == 0u8,
            decreases n - i,
        {
            buffer.push(0);
            i = i + 1;
        }
        let fb = MockFramebuffer { width, height, buffer };
        proof {
            assert forall|a: int, b: int| 0 <= a < width && 0 <= b < height implies #[trigger] fb.pix(
                a,
                b,
            ) == (Rgb { r: 0, g: 0, b: 0 }) by {
                lemma_pix_in_bounds(width as int, height as int, a, b);
            }
        }
        fb
    }

    /// A framebuffer of the given dimensions filled with one color.
    pub fn with_color(width: u32, height: u32, color: Rgb) -> (fb: MockFramebuffer)
        requires
            (width as int) * (height as int) * 3 <= usize::MAX,
        ensures
            fb.wf(),
            fb.width == width,
            fb.height == height,
            forall|a: int, b: int|
                0 <= a < width && 0 <= b < height ==> #[trigger] fb.pix(a, b) == color,
    {
        let mut fb = MockFramebuffer::new(width, height);
        fb.fill(color);
        fb
    }

    /// Set one pixel; coordinates outside the buffer are ignored.
    pub fn set_pixel(&mut self, x: u32, y: u32, color: Rgb)
        requires
            old(self).wf(),
        ensures
            final(self).wf(),
            final(self).width == old(self).width,
            final(self).height == old(self).height,
            final(self).buffer@.len() == old(self).buffer@.len(),
            forall|a: int, b: int|
                0 <= a < old(self).width && 0 <= b < old(self).height ==> #[trigger] final(self).pix(
                    a,
                    b,
                ) == (if a == x as int && b == y as int {
                    color
                } else {
                    old(self).pix(a, b)
                }),
            !(x < old(self).width && y < old(self).height) ==> final(self).buffer@ == old(
                self,
            ).buffer@,
    {
        if x >= self.width || y >= self.height {
            return;
        }
        proof {
            lemma_pix_in_bounds(self.width as int, self.height as int, x as int, y as int);
        }
        let idx: usize = 3usize * ((y as usize) * (self.width as usize) + (x as usize));
        self.buffer[idx] = color.r;
        self.buffer[idx + 1] = color.g;
        self.buffer[idx + 2] = color.b;
        proof {
            assert forall|a: int, b: int|
                0 <= a < old(self).width && 0 <= b < old(self).height implies #[trigger] self.pix(
                a,
                b,
            ) == (if a == x as int && b == y as int {
                color
            } else {
                old(self).pix(a, b)
            }) by {
                lemma_pix_in_bounds(self.width as int, self.height as int, a, b);
                if a == x as int && b == y as int {
                } else {
                    if b * (self.width as int) + a == (y as int) * (self.width as int) + (
                    x as int) {
                        lemma_rowmajor_unique(self.width as int, a, b, x as int, y as int);
                    }
                }
            }
        }
    }

    /// The pixel at `(x, y)`, black outside the buffer.
    pub fn get_pixel(&self, x: u32, y: u32) -> (c: Rgb)
        requires
            self.wf(),
        ensures
            c == (if x < self.width && y < self.height {
                self.pix(x as int, y as int)
            } else {
                Rgb { r: 0, g: 0, b: 0 }
            }),
    {
        if x >= self.width || y >= self.height {
            return Rgb { r: 0, g: 0, b: 0 };
        }
        proof {
            lemma_pix_in_bounds(self.width as int, self.height as int, x as int, y as int);
        }
        let idx: usize = 3usize * ((y as usize) * (self.width as usize) + (x as usize));
        Rgb { r: self.buffer[idx], g: self.buffer[idx + 1], b: self.buffer[idx + 2] }
    }

    /// Fill the whole buffer with one color.
    pub fn fill(&mut self, color: Rgb)
        requires
            old(self).wf(),
        ensures
            final(self).wf(),
            final(self).width == old(self).width,
            final(self).height == old(self).height,
            forall|a: int, b: int|
                0 <= a < old(self).width && 0 <= b < old(self).height ==> #[trigger] final(self).pix(
                    a,
                    b,
                ) == color,
    {
        let w = self.width;
        let h = self.height;
        let mut y: u32 = 0;
        while y < h
            invariant
                self.wf(),
                self.width == w,
                self.height == h,
                0 <= y <= h,
                forall|a: int, b: int|
                    0 <= a < w && 0 <= b < y ==> #[trigger] self.pix(a, b) == color,
            decreases h - y,
        {
            let mut x: u32 = 0;
            while x < w
                invariant
                    self.wf(),
                    self.width == w,
                    self.height == h,
                    0 <= y < h,
                    0 <= x <= w,
                    forall|a: int, b: int|
                        0 <= a < w && 0 <= b < y ==> #[trigger] self.pix(a, b) == color,
                    forall|a: int| 0 <= a < x ==> #[trigger] self.pix(a, y as int) == color,
                decreases w - x,
            {
                self.set_pixel(x, y, color);
                x = x + 1;
            }
            y = y + 1;
        }
    }

    /// Draw a filled rectangle, clipped to the buffer.
    pub fn draw_rect(&mut self, x: u32, y: u32, w: u32, h: u32, color: Rgb)
        requires
            old(self).wf(),
        ensures
            final(self).wf(),
            final(self).width == old(self).width,
            final(self).height == old(self).height,
            forall|a: int, b: int|
                0 <= a < old(self).width && 0 <= b < old(self).height ==> #[trigger] final(self).pix(
                    a,
                    b,
                ) == (if x <= a < x + w && y <= b < y + h {
                    color
                } else {
                    old(self).pix(a, b)
                }),
    {
        let width = self.width;
        let height = self.height;
        let y_end: u64 = if (y as u64) + (h as u64) < (height as u64) {
            (y as u64) + (h as u64)
        } else {
            height as u64
        };
        let x_end: u64 = if (x as u64) + (w as u64) < (width as u64) {
            (x as u64) + (w as u64)
        } else {
            width as u64
        };
        let mut b: u64 = y as u64;
        while b < y_end
            invariant
                self.wf(),
                self.width == width,
                self.height == height,
                y_end <= height,
                x_end <= width,
                y_end == (if y + h < height { y + h } else { height as int }),
                x_end == (if x + w < width { x + w } else { width as int }),
                y <= b <= y_end || (y_end <= y && b == y),
                forall|aa: int, bb: int|
                    0 <= aa < width && 0 <= bb < height ==> #[trigger] self.pix(aa, bb) == (if x
                        <= aa < x + w && y <= bb < b {
                        color
                    } else {
                        old(self).pix(aa, bb)
                    }),
            decreases y_end - b,
        {
            let mut a: u64 = x as u64;
            while a < x_end
                invariant
                    self.wf(),
                    self.width == width,
                    self.height == height,
                    y_end <= height,
                    x_end <= width,
                    y_end == (if y + h < height { y + h } else { height as int }),
                    x_end == (if x + w < width { x + w } else { width as int }),
                    y <= b < y_end,
                    x <= a <= x_end || (x_end <= x && a == x),
                    forall|aa: int, bb: int|
                        0 <= aa < width && 0 <= bb < height ==> #[trigger] self.pix(aa, bb) == (if (
                        x <= aa < x + w && y <= bb < b) || (bb == b && x <= aa < a) {
                            color
                        } else {
                            old(self).pix(aa, bb)
                        }),
                decreases x_end - a,
            {
                self.set_pixel(a as u32, b as u32, color);
                a = a + 1;
            }
            b = b + 1;
        }
    }

    /// Draw one character of the 8x8 font; pixels outside the buffer are
    /// clipped.
    pub fn draw_char(&mut self, x: u32, y: u32, ch: char, fg: Rgb, bg: Rgb)
        requires
            old(self).wf(),
        ensures
            final(self).wf(),
            final(self).width == old(self).width,
            final(self).height == old(self).height,
            final(self).buffer@.len() == old(self).buffer@.len(),
            forall|a: int, b: int|
                0 <= a < old(self).width && 0 <= b < old(self).height ==> #[trigger] final(self).pix(
                    a,
                    b,
                ) == (if x <= a < x + 8 && y <= b < y + 8 {
                    if spec_glyph_bit(basic_glyph_of(ch), a - x, b - y) {
                        fg
                    } else {
                        bg
                    }
                } else {
                    old(self).pix(a, b)
                }),
    {
        let rows = basic_glyph_rows(ch);
        let w = self.width;
        let h = self.height;
        let mut r: u32 = 0;
        while r < 8
            invariant
                self.wf(),
                self.width == w,
                self.height == h,
                self.buffer@.len() == old(self).buffer@.len(),
                rows@.len() == 8,
                forall|k: int| 0 <= k < 8 ==> rows@[k] == spec_glyph_row(basic_glyph_of(ch), k),
                0 <= r <= 8,
                forall|a: int, b: int|
                    0 <= a < w && 0 <= b < h ==> #[trigger] self.pix(a, b) == (if x <= a < x + 8
                        && y <= b < y + r {
                        if spec_glyph_bit(basic_glyph_of(ch), a - x, b - y) {
                            fg
                        } else {
                            bg
                        }
                    } else {
                        old(self).pix(a, b)
                    }),
            decreases 8 - r,
        {
            let row = rows[r as usize];
            let mut c: u32 = 0;
            while c < 8
                invariant
                    self.wf(),
                    self.width == w,
                    self.height == h,
                    self.buffer@.len() == old(self).buffer@.len(),
                    rows@.len() == 8,
                    forall|k: int| 0 <= k < 8 ==> rows@[k] == spec_glyph_row(basic_glyph_of(ch), k),
                    0 <= r < 8,
                    0 <= c <= 8,
                    row == spec_glyph_row(basic_glyph_of(ch), r as int),
                    forall|a: int, b: int|
                        0 <= a < w && 0 <= b < h ==> #[trigger] self.pix(a, b) == (if x <= a < x
                            + 8 && y <= b < y + 8 && (b - y < r || (b - y == r && a - x < c)) {
                            if spec_glyph_bit(basic_glyph_of(ch), a - x, b - y) {
                                fg
                            } else {
                                bg
                            }
                        } else {
                            old(self).pix(a, b)
                        }),
                decreases 8 - c,
            {
                let bit = (row >> c) & 1 == 1;
                let color = if bit {
                    fg
                } else {
                    bg
                };
                let px: u64 = x as u64 + c as u64;
                let py: u64 = y as u64 + r as u64;
                if px < w as u64 && py < h as u64 {
                    self.set_pixel(px as u32, py as u32, color);
                }
                c = c + 1;
            }
            r = r + 1;
        }
    }

    /// Draw text in the 8x8 font at `(x, y)`: characters advance 8 pixels
    /// each; drawing stops once the pen passes the right edge.  Text does
    /// not wrap.
    pub fn draw_text(&mut self, x: u32, y: u32, text: &str, fg: Rgb, bg: Rgb)
        requires
            old(self).wf(),
        ensures
            final(self).wf(),
            final(self).width == old(self).width,
            final(self).height == old(self).height,
            final(self).buffer@.len() == old(self).buffer@.len(),
            ({
                let n = spec_drawn_count(text@.len() as int, x as int, old(self).width as int);
                forall|a: int, b: int|
                    0 <= a < old(self).width && 0 <= b < old(self).height
                        ==> #[trigger] final(self).pix(a, b) == (if y <= b < y + 8 && x <= a < x
                        + 8 * n {
                        if spec_glyph_bit(basic_glyph_of(text@[(a - x) / 8]), (a - x) % 8, b - y) {
                            fg
                        } else {
                            bg
                        }
                    } else {
                        old(self).pix(a, b)
                    })
            }),
    {
        let len = text.unicode_len();
        let w = self.width;
        let mut i: usize = 0;
        let mut cx: u64 = x as u64;
        let mut go: bool = len > 0;
        while go
            invariant
                self.wf(),
                self.width == w,
                self.height == old(self).height,
                self.buffer@.len() == old(self).buffer@.len(),
                len == text@.len(),
                0 <= i <= len,
                cx == x + 8 * i,
                go ==> i < len,
                go ==> i == 0 || x + 8 * i < w,
                !go ==> i == len || (i >= 1 && x + 8 * i >= w),
                !go && len > 0 ==> i >= 1,
                forall|j: int| 1 <= j < i ==> x + #[trigger] (8 * j) < w,
                forall|a: int, b: int|
                    0 <= a < w && 0 <= b < old(self).height ==> #[trigger] self.pix(a, b) == (if y
                        <= b < y + 8 && x <= a < x + 8 * i {
                        if spec_glyph_bit(basic_glyph_of(text@[(a - x) / 8]), (a - x) % 8, b - y) {
                            fg
                        } else {
                            bg
                        }
                    } else {
                        old(self).pix(a, b)
                    }),
            decreases len - i,
        {
            let c = text.get_char(i);
            let ghost pre = *self;
            self.draw_char(cx as u32, y, c, fg, bg);
            proof {
                assert forall|a: int, b: int|
                    0 <= a < w && 0 <= b < old(self).height implies #[trigger] self.pix(a, b) == (
                if y <= b < y + 8 && x <= a < x + 8 * (i + 1) {
                    if spec_glyph_bit(basic_glyph_of(text@[(a - x) / 8]), (a - x) % 8, b - y) {
                        fg
                    } else {
                        bg
                    }
                } else {
                    pre.pix(a, b)
                }) by {
                    if y <= b < y + 8 && x + 8 * i <= a < x + 8 * (i + 1) {
                        vstd::arithmetic::div_mod::lemma_fundamental_div_mod_converse(
                            a - x,
                            8,
                            i as int,
                            a - (x + 8 * i),
                        );
                    }
                }
                assert forall|a: int, b: int|
                    0 <= a < w && 0 <= b < old(self).height && !(y <= b < y + 8 && x <= a < x + 8
                        * (i + 1)) implies #[trigger] self.pix(a, b) == old(self).pix(a, b) by {}
            }
            i = i + 1;
            cx = cx + 8;
            go = i < len && cx < w as u64;
        }
        proof {
            if len == 0 {
                assert(spec_drawn_count(len as int, x as int, w as int) == 0);
            } else {
                lemma_drawn_count_eq(len as int, x as int, w as int, i as int);
            }
        }
    }

    /// The raw RGB bytes.
    pub fn as_bytes(&self) -> (r: &[u8])
        ensures
            r@ == self.buffer@,
    {
        self.buffer.as_slice()
    }

    /// A framebuffer over a raw RGB byte buffer; the buffer length must
    /// match the dimensions exactly.
    pub fn from_raw_rgb(width: u32, height: u32, data: Vec<u8>) -> (r: SnapshotResult<
        MockFramebuffer,
    >)
        ensures
            r is Ok <==> data@.len() == (width as int) * (height as int) * 3,
            r is Ok ==> r->Ok_0.wf() && r->Ok_0.width == width && r->Ok_0.height == height
                && r->Ok_0.buffer@ == data@,
            r is Err ==> r->Err_0 is Capture,
    {
        proof {
            vstd::arithmetic::mul::lemma_mul_upper_bound(
                width as int,
                0xFFFFFFFF,
                height as int,
                0xFFFFFFFF,
            );
        }
        let expected: u128 = (width as u128) * (height as u128) * 3;
        if (data.len() as u128) != expected {
            return Err(SnapshotError::Capture("buffer size does not match dimensions".to_owned()));
        }
        let n = data.len();
        proof {
            assert(n <= usize::MAX);
        }
        Ok(MockFramebuffer { width, height, buffer: data })
    }

    /// Decode PNG bytes into a framebuffer.
    pub fn from_png_bytes(data: &[u8]) -> (r: SnapshotResult<MockFramebuffer>)
        ensures
            r is Ok <==> png_decode_of(data@) is Some,
            r is Ok ==> r->Ok_0.wf() && r->Ok_0.width == (png_decode_of(data@)->0).0
                && r->Ok_0.height == (png_decode_of(data@)->0).1 && r->Ok_0.buffer@ == (
            png_decode_of(data@)->0).2,
            r is Err ==> r->Err_0 is Capture,
    {
        match decode_png(data) {
            Ok((w, h, pixels)) => {
                let n = pixels.len();
                proof {
                    assert(n <= usize::MAX);
                }
                Ok(MockFramebuffer { width: w, height: h, buffer: pixels })
            },
            Err(m) => Err(SnapshotError::Capture(m)),
        }
    }

    /// Encode the framebuffer as PNG bytes; this succeeds whenever the
    /// framebuffer has any pixels.
    pub fn to_png(&self) -> (r: SnapshotResult<Vec<u8>>)
        requires
            self.wf(),
        ensures
            r is Ok ==> r->Ok_0@ == png_of(self.width, self.height, self.buffer@),
            self.width >= 1 && self.height >= 1 ==> r is Ok,
            r is Err ==> r->Err_0 is Capture,
    {
        match encode_png(self.width, self.height, &self.buffer) {
            Ok(bytes) => Ok(bytes),
            Err(m) => Err(SnapshotError::Capture(m)),
        }
    }
}

/// The 8 rows of a basic-font glyph, zeros when the font has none.
fn basic_glyph_rows(ch: char) -> (rows: Vec<u8>)
    ensures
        rows@.len() == 8,
        forall|k: int| 0 <= k < 8 ==> rows@[k] == spec_glyph_row(basic_glyph_of(ch), k),
{
    let mut rows: Vec<u8> = Vec::new();
    match basic_glyph(ch) {
        Some(g) => {
            let mut k: usize = 0;
            while k < 8
                invariant
                    0 <= k <= 8,
                    rows@.len() == k,
                    g@ == basic_glyph_of(ch)->0,
                    basic_glyph_of(ch) is Some,
                    forall|j: int| 0 <= j < k ==> rows@[j] == spec_glyph_row(basic_glyph_of(ch), j),
                decreases 8 - k,
            {
                rows.push(g[k]);
                k = k + 1;
            }
        },
        None => {
            let mut k: usize = 0;
            while k < 8
                invariant
                    0 <= k <= 8,
                    rows@.len() == k,
                    forall|j: int| 0 <= j < k ==> rows@[j] == 0u8,
                decreases 8 - k,
            {
                rows.push(0);
                k = k + 1;
            }
        },
    }
    rows
}

/// Where the drawing loop stops is exactly the drawn count.
proof fn lemma_drawn_count_eq(len: int, x: int, w: int, i: int)
    requires
        len >= 1,
        1 <= i <= len,
        forall|j: int| 1 <= j < i ==> x + #[trigger] (8 * j) < w,
        i == len || x + 8 * i >= w,
    ensures
        spec_drawn_count(len, x, w) == i,
{
    let q = (w - x - 1) / 8 + 1;
    let cap = if q < 1 {
        1int
    } else {
        q
    };
    if i == len {
        if len >= 2 {
            assert(x + 8 * (len - 1) < w);
            assert(8 * (len - 1) <= w - x - 1);
            vstd::arithmetic::div_mod::lemma_div_is_ordered(8 * (len - 1), w - x - 1, 8);
            vstd::arithmetic::div_mod::lemma_fundamental_div_mod_converse(
                8 * (len - 1),
                8,
                len - 1,
                0,
            );
            assert((w - x - 1) / 8 >= len - 1);
            assert(cap >= len);
        }
    }
    if i < len {
        // stopped at the edge
        if i == 1 {
            assert(x + 8 >= w);
            if w - x - 1 >= 0 {
                assert(w - x - 1 <= 7);
                vstd::arithmetic::div_mod::lemma_basic_div(w - x - 1, 8);
                assert(q == 1);
            } else {
                assert((w - x - 1) / 8 <= -1) by {
                    vstd::arithmetic::div_mod::lemma_div_is_ordered(w - x - 1, -1, 8);
                    vstd::arithmetic::div_mod::lemma_fundamental_div_mod_converse(-1, 8, -1, 7);
                }
                assert(cap == 1);
            }
        } else {
            assert(x + 8 * (i - 1) < w);
            assert(8 * (i - 1) <= w - x - 1);
            assert(x + 8 * i >= w);
            assert(w - x - 1 <= 8 * i - 1);
            vstd::arithmetic::div_mod::lemma_div_is_ordered(8 * (i - 1), w - x - 1, 8);
            vstd::arithmetic::div_mod::lemma_fundamental_div_mod_converse(8 * (i - 1), 8, i - 1, 0);
            vstd::arithmetic::div_mod::lemma_div_is_ordered(w - x - 1, 8 * i - 1, 8);
            vstd::arithmetic::div_mod::lemma_fundamental_div_mod_converse(8 * i - 1, 8, i - 1, 7);
            assert((w - x - 1) / 8 == i - 1);
            assert(cap == i);
        }
    }
    if i == len {
        if len == 1 {
            assert(cap >= 1);
            assert(spec_drawn_count(len, x, w) == 1);
        } else {
            assert(spec_drawn_count(len, x, w) == len);
        }
    } else {
        assert(spec_drawn_count(len, x, w) == cap);
        assert(spec_drawn_count(len, x, w) == i);
    }
}

} // verus!
