//! The grid rasterizer: from the terminal's cell grid to an RGB pixel
//! buffer.  Each cell becomes a 16x32 pixel block: its 8x16 glyph at a
//! 2x scale, drawn in the cell's colors with inverse, bold brightening
//! and underline applied.
//!
//! The whole output is specified by [`spec_render_data`], a pure function
//! of the grid alone; rendering proves that it produces exactly that
//! buffer.

use vstd::prelude::*;

use vstd::arithmetic::div_mod::lemma_fundamental_div_mod;
use vstd::arithmetic::div_mod::lemma_fundamental_div_mod_converse;
use crate::color::Rgb;
use crate::color::spec_brighten;
use crate::color::brighten_color;
use crate::framebuffer::MockFramebuffer;
use crate::glyphs::get_char_bitmap;
use crate::glyphs::spec_glyph16;
use crate::term::Cell;
use crate::term::TermView;
use crate::term::Vt100Terminal;

verus! {

/// Width of one rendered cell in pixels: an 8-pixel glyph at 2x scale.
pub const CELL_WIDTH: u32 = 16;

/// Height of one rendered cell in pixels: a 16-row glyph at 2x scale.
pub const CELL_HEIGHT: u32 = 32;

/// The color of one pixel within a cell's 16x32 block, at block
/// coordinates `(u, v)`: inverse swaps the colors, bold brightens the
/// foreground, the glyph bit picks foreground or background, and the
/// bottom two glyph rows are foreground when underlined.
pub open spec fn spec_cell_pixel(cell: Cell, u: int, v: int) -> Rgb {
    let base_fg = if cell.attrs.inverse {
        cell.bg
    } else {
        cell.fg
    };
    let base_bg = if cell.attrs.inverse {
        cell.fg
    } else {
        cell.bg
    };
    let fg = if cell.attrs.bold {
        spec_brighten(base_fg)
    } else {
        base_fg
    };
    let gc = u / 2;
    let gr = v / 2;
    let bit = (spec_glyph16(cell.ch)[gr] >> gc as u8) & 1 == 1;
    if cell.attrs.underline && gr >= 14 {
        fg
    } else if bit {
        fg
    } else {
        base_bg
    }
}

/// The color of one pixel of the rendered grid.
pub open spec fn spec_render_pixel(grid: Seq<Seq<Cell>>, px: int, py: int) -> Rgb {
    spec_cell_pixel(grid[py / 32][px / 16], px % 16, py % 32)
}

/// One channel of a color.
pub open spec fn spec_channel(c: Rgb, k: int) -> u8 {
    if k == 0 {
        c.r
    } else if k == 1 {
        c.g
    } else {
        c.b
    }
}

/// The full RGB byte buffer of the rendered grid of `w` columns and `h`
/// rows: a pure function of the grid contents alone.
pub open spec fn spec_render_data(grid: Seq<Seq<Cell>>, w: int, h: int) -> Seq<u8> {
    Seq::new(
        ((w * 16) * (h * 32) * 3) as nat,
        |idx: int|
            spec_channel(spec_render_pixel(grid, (idx / 3) % (w * 16), (idx / 3) / (w * 16)), idx % 3),
    )
}

/// Rendering is a pure function of the grid: two terminals with the same
/// dimensions and grid contents render to the same bytes.
pub proof fn lemma_rasterize_pure(a: TermView, b: TermView)
    requires
        a.width == b.width,
        a.height == b.height,
        a.grid == b.grid,
    ensures
        spec_render_data(a.grid, a.width, a.height) == spec_render_data(b.grid, b.width, b.height),
{
}

/// Render one cell's 16x32 block into the framebuffer.
fn render_cell(fb: &mut MockFramebuffer, cell: Cell, cx: u32, cy: u32)
    requires
        old(fb).wf(),
        (cx as int) * 16 + 16 <= old(fb).width,
        (cy as int) * 32 + 32 <= old(fb).height,
    ensures
        final(fb).wf(),
        final(fb).width == old(fb).width,
        final(fb).height == old(fb).height,
        final(fb).buffer@.len() == old(fb).buffer@.len(),
        forall|px: int, py: int|
            0 <= px < old(fb).width && 0 <= py < old(fb).height ==> #[trigger] final(fb).pix(
                px,
                py,
            ) == (if cx * 16 <= px < cx * 16 + 16 && cy * 32 <= py < cy * 32 + 32 {
                spec_cell_pixel(cell, px - cx * 16, py - cy * 32)
            } else {
                old(fb).pix(px, py)
            }),
{
    let bitmap = get_char_bitmap(cell.ch);
    let base_fg = if cell.attrs.inverse {
        cell.bg
    } else {
        cell.fg
    };
    let base_bg = if cell.attrs.inverse {
        cell.fg
    } else {
        cell.bg
    };
    let fg = if cell.attrs.bold {
        brighten_color(base_fg)
    } else {
        base_fg
    };
    let x0: u32 = cx * 16;
    let y0: u32 = cy * 32;
    let mut gr: u32 = 0;
    while gr < 16
        invariant
            fb.wf(),
            fb.width == old(fb).width,
            fb.height == old(fb).height,
            fb.buffer@.len() == old(fb).buffer@.len(),
            x0 == cx * 16,
            y0 == cy * 32,
            x0 + 16 <= fb.width,
            y0 + 32 <= fb.height,
            0 <= gr <= 16,
            bitmap@ == spec_glyph16(cell.ch),
            bitmap@.len() == 16,
            base_fg == (if cell.attrs.inverse {
                cell.bg
            } else {
                cell.fg
            }),
            base_bg == (if cell.attrs.inverse {
                cell.fg
            } else {
                cell.bg
            }),
            fg == (if cell.attrs.bold {
                spec_brighten(base_fg)
            } else {
                base_fg
            }),
            forall|px: int, py: int|
                0 <= px < fb.width && 0 <= py < fb.height ==> #[trigger] fb.pix(px, py) == (if x0
                    <= px < x0 + 16 && y0 <= py < y0 + 2 * gr {
                    spec_cell_pixel(cell, px - x0, py - y0)
                } else {
                    old(fb).pix(px, py)
                }),
        decreases 16 - gr,
    {
        let rowbits = bitmap[gr as usize];
        let mut gc: u32 = 0;
        while gc < 8
            invariant
                fb.wf(),
                fb.width == old(fb).width,
                fb.height == old(fb).height,
                fb.buffer@.len() == old(fb).buffer@.len(),
                x0 == cx * 16,
                y0 == cy * 32,
                x0 + 16 <= fb.width,
                y0 + 32 <= fb.height,
                0 <= gr < 16,
                0 <= gc <= 8,
                bitmap@ == spec_glyph16(cell.ch),
                bitmap@.len() == 16,
                rowbits == bitmap@[gr as int],
                base_fg == (if cell.attrs.inverse {
                    cell.bg
                } else {
                    cell.fg
                }),
                base_bg == (if cell.attrs.inverse {
                    cell.fg
                } else {
                    cell.bg
                }),
                fg == (if cell.attrs.bold {
                    spec_brighten(base_fg)
                } else {
                    base_fg
                }),
                forall|px: int, py: int|
                    0 <= px < fb.width && 0 <= py < fb.height ==> #[trigger] fb.pix(px, py) == (
                    if x0 <= px < x0 + 16 && y0 <= py < y0 + 2 * gr {
                        spec_cell_pixel(cell, px - x0, py - y0)
                    } else if y0 + 2 * gr <= py < y0 + 2 * gr + 2 && x0 <= px < x0 + 2 * gc {
                        spec_cell_pixel(cell, px - x0, py - y0)
                    } else {
                        old(fb).pix(px, py)
                    }),
            decreases 8 - gc,
        {
            let bit = (rowbits >> gc) & 1 == 1;
            let color = if cell.attrs.underline && gr >= 14 {
                fg
            } else if bit {
                fg
            } else {
                base_bg
            };
            proof {
                lemma_fundamental_div_mod_converse(gc as int * 2, 2, gc as int, 0);
                lemma_fundamental_div_mod_converse(gc as int * 2 + 1, 2, gc as int, 1);
                lemma_fundamental_div_mod_converse(gr as int * 2, 2, gr as int, 0);
                lemma_fundamental_div_mod_converse(gr as int * 2 + 1, 2, gr as int, 1);
                assert(spec_cell_pixel(cell, gc as int * 2, gr as int * 2) == color);
                assert(spec_cell_pixel(cell, gc as int * 2 + 1, gr as int * 2) == color);
                assert(spec_cell_pixel(cell, gc as int * 2, gr as int * 2 + 1) == color);
                assert(spec_cell_pixel(cell, gc as int * 2 + 1, gr as int * 2 + 1) == color);
            }
            fb.set_pixel(x0 + gc * 2, y0 + gr * 2, color);
            fb.set_pixel(x0 + gc * 2 + 1, y0 + gr * 2, color);
            fb.set_pixel(x0 + gc * 2, y0 + gr * 2 + 1, color);
            fb.set_pixel(x0 + gc * 2 + 1, y0 + gr * 2 + 1, color);
            gc = gc + 1;
        }
        gr = gr + 1;
    }
}

impl Vt100Terminal {
    /// Rasterize the grid to an RGB framebuffer of `width * 16` by
    /// `height * 32` pixels.  The output is a pure function of the grid.
    pub fn render_frame(&self) -> (fb: MockFramebuffer)
        requires
            self.wf(),
            (self.width as int) * 16 * ((self.height as int) * 32) * 3 <= usize::MAX,
        ensures
            fb.wf(),
            fb.width == self.width * 16,
            fb.height == self.height * 32,
            fb.buffer@ == spec_render_data(self@.grid, self.width as int, self.height as int),
    {
        let w = self.width;
        let h = self.height;
        let img_w: u32 = w * 16;
        let img_h: u32 = h * 32;
        let mut fb = MockFramebuffer::new(img_w, img_h);
        let mut cy: u32 = 0;
        while cy < h
            invariant
                self.wf(),
                w == self.width,
                h == self.height,
                img_w == w * 16,
                img_h == h * 32,
                fb.wf(),
                fb.width == img_w,
                fb.height == img_h,
                0 <= cy <= h,
                forall|px: int, py: int|
                    0 <= px < img_w && 0 <= py < img_h && py < cy * 32 ==> #[trigger] fb.pix(
                        px,
                        py,
                    ) == spec_render_pixel(self@.grid, px, py),
            decreases h - cy,
        {
            let mut cx: u32 = 0;
            while cx < w
                invariant
                    self.wf(),
                    w == self.width,
                    h == self.height,
                    img_w == w * 16,
                    img_h == h * 32,
                    fb.wf(),
                    fb.width == img_w,
                    fb.height == img_h,
                    0 <= cy < h,
                    0 <= cx <= w,
                    forall|px: int, py: int|
                        0 <= px < img_w && 0 <= py < img_h && py < cy * 32 ==> #[trigger] fb.pix(
                            px,
                            py,
                        ) == spec_render_pixel(self@.grid, px, py),
                    forall|px: int, py: int|
                        0 <= px < img_w && cy * 32 <= py < cy * 32 + 32 && px < cx * 16
                            ==> #[trigger] fb.pix(px, py) == spec_render_pixel(self@.grid, px, py),
                decreases w - cx,
            {
                proof {
                    assert(self@.grid[cy as int] == self.cells@[cy as int]@);
                    assert(self@.grid[cy as int].len() == self@.width);
                    assert(self@.grid.len() == self.cells@.len());
                    assert((cx as int) * 16 + 16 <= img_w) by (nonlinear_arith)
                        requires
                            (cx as int) < (w as int) && img_w == w * 16,
                    ;
                    assert((cy as int) * 32 + 32 <= img_h) by (nonlinear_arith)
                        requires
                            (cy as int) < (h as int) && img_h == h * 32,
                    ;
                }
                let cell = self.cells[cy as usize][cx as usize];
                let ghost pre = fb;
                render_cell(&mut fb, cell, cx, cy);
                proof {
                    assert forall|px: int, py: int|
                        0 <= px < img_w && ((0 <= py < img_h && py < cy * 32) || (cy * 32 <= py
                            < cy * 32 + 32 && px < cx * 16 + 16)) implies #[trigger] fb.pix(px, py)
                        == spec_render_pixel(self@.grid, px, py) by {
                        if cx * 16 <= px < cx * 16 + 16 && cy * 32 <= py < cy * 32 + 32 {
                            lemma_fundamental_div_mod_converse(px, 16, cx as int, px - cx * 16);
                            lemma_fundamental_div_mod_converse(py, 32, cy as int, py - cy * 32);
                        } else {
                            assert(fb.pix(px, py) == pre.pix(px, py));
                        }
                    }
                }
                cx = cx + 1;
            }
            cy = cy + 1;
        }
        proof {
            let grid = self@.grid;
            let data = spec_render_data(grid, w as int, h as int);
            assert(fb.buffer@.len() == data.len()) by (nonlinear_arith)
                requires
                    fb.buffer@.len() == (img_w as int) * (img_h as int) * 3,
                    data.len() == ((w as int) * 16) * ((h as int) * 32) * 3,
                    img_w == w * 16,
                    img_h == h * 32,
            ;
            assert forall|idx: int| 0 <= idx < fb.buffer@.len() implies fb.buffer@[idx] == data[idx]
                by {
                let p = idx / 3;
                let k = idx % 3;
                let big_w = img_w as int;
                lemma_fundamental_div_mod(idx, 3);
                let px = p % big_w;
                let py = p / big_w;
                lemma_fundamental_div_mod(p, big_w);
                vstd::arithmetic::div_mod::lemma_mod_bound(idx, 3);
                vstd::arithmetic::div_mod::lemma_mod_bound(p, big_w);
                assert(0 <= py && py < img_h) by (nonlinear_arith)
                    requires
                        p == big_w * py + px,
                        0 <= px < big_w,
                        0 <= p,
                        3 * p + k == idx,
                        0 <= k < 3,
                        idx < big_w * (img_h as int) * 3,
                        big_w > 0,
                        img_h > 0,
                        py == p / big_w,
                ;
                assert(fb.pix(px, py) == spec_render_pixel(grid, px, py));
                assert(3 * (py * big_w + px) == 3 * p) by (nonlinear_arith)
                    requires
                        p == big_w * py + px,
                ;
                assert(fb.buffer@[3 * (py * big_w + px) + k] == spec_channel(
                    spec_render_pixel(grid, px, py),
                    k,
                ));
                assert(data[idx] == spec_channel(spec_render_pixel(grid, px, py), k));
            }
            assert(fb.buffer@ =~= data);
        }
        fb
    }
}

} // verus!
