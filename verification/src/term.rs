//! The terminal model: a fixed-size grid of cells, a cursor, a pen, and the
//! screen operations that escape-sequence dispatch performs on them.
//!
//! Every operation is specified as a pure transition on [`TermView`], the
//! mathematical model of the terminal, and each executable method proves that
//! it performs exactly that transition.

use vstd::prelude::*;

use crate::color::Rgb;
use crate::color::spec_default_bg;
use crate::color::spec_default_fg;
use crate::color::default_bg;
use crate::color::default_fg;

verus! {

/// Attributes of one cell: bold, underline, inverse.
#[derive(Clone, Copy, PartialEq, Eq, Structural, Debug)]
pub struct CellAttributes {
    pub bold: bool,
    pub underline: bool,
    pub inverse: bool,
}

/// The attribute set with every flag off.
pub open spec fn spec_attrs_cleared() -> CellAttributes {
    CellAttributes { bold: false, underline: false, inverse: false }
}

impl CellAttributes {
    /// The attribute set with every flag off.
    pub fn cleared() -> (a: CellAttributes)
        ensures
            a == spec_attrs_cleared(),
    {
        CellAttributes { bold: false, underline: false, inverse: false }
    }
}

impl Default for CellAttributes {
    fn default() -> (a: CellAttributes)
        ensures
            a == spec_attrs_cleared(),
    {
        CellAttributes { bold: false, underline: false, inverse: false }
    }
}

/// The current drawing state copied into each written cell.
#[derive(Clone, Copy, PartialEq, Eq, Structural, Debug)]
pub struct Pen {
    pub fg: Rgb,
    pub bg: Rgb,
    pub attrs: CellAttributes,
}

/// The pen of a fresh terminal: default colors, no attributes.
pub open spec fn spec_default_pen() -> Pen {
    Pen { fg: spec_default_fg(), bg: spec_default_bg(), attrs: spec_attrs_cleared() }
}

pub fn default_pen() -> (p: Pen)
    ensures
        p == spec_default_pen(),
{
    Pen { fg: default_fg(), bg: default_bg(), attrs: CellAttributes::cleared() }
}

/// One character position: code point, colors, attributes.
#[derive(Clone, Copy, PartialEq, Eq, Structural, Debug)]
pub struct Cell {
    pub ch: char,
    pub fg: Rgb,
    pub bg: Rgb,
    pub attrs: CellAttributes,
}

/// A blank cell: a space with default colors and cleared attributes.
pub open spec fn spec_blank_cell() -> Cell {
    Cell { ch: ' ', fg: spec_default_fg(), bg: spec_default_bg(), attrs: spec_attrs_cleared() }
}

pub fn blank_cell() -> (c: Cell)
    ensures
        c == spec_blank_cell(),
{
    Cell { ch: ' ', fg: default_fg(), bg: default_bg(), attrs: CellAttributes::cleared() }
}

/// The cell written by the pen for a code point: an erased cell when the
/// pen erases, a glyph cell when it prints.
pub open spec fn spec_pen_cell(pen: Pen, ch: char) -> Cell {
    Cell { ch, fg: pen.fg, bg: pen.bg, attrs: pen.attrs }
}

/// A cell erased under a pen: a space in the pen's colors, attributes cleared.
pub open spec fn spec_erased_cell(pen: Pen) -> Cell {
    Cell { ch: ' ', fg: pen.fg, bg: pen.bg, attrs: spec_attrs_cleared() }
}

/// The grid, cursor and pen state saved when entering the alternate screen.
#[derive(Clone)]
pub struct SavedScreen {
    pub cells: Vec<Vec<Cell>>,
    pub cursor_x: u32,
    pub cursor_y: u32,
}

/// Mathematical model of a saved screen.
#[verifier::ext_equal]
pub ghost struct AltView {
    pub grid: Seq<Seq<Cell>>,
    pub cursor_x: int,
    pub cursor_y: int,
}

/// Mathematical model of the whole terminal state.
#[verifier::ext_equal]
pub ghost struct TermView {
    pub width: int,
    pub height: int,
    pub grid: Seq<Seq<Cell>>,
    pub cursor_x: int,
    pub cursor_y: int,
    pub pen: Pen,
    pub saved: Option<(int, int)>,
    pub alt: Option<AltView>,
}

/// A blank row of the given width.
pub open spec fn spec_blank_row(w: int) -> Seq<Cell> {
    Seq::new(w as nat, |i: int| spec_blank_cell())
}

/// A blank grid of the given dimensions.
pub open spec fn spec_blank_grid(w: int, h: int) -> Seq<Seq<Cell>> {
    Seq::new(h as nat, |y: int| spec_blank_row(w))
}

/// Scrolling drops the topmost row and appends a blank one.
pub open spec fn spec_scroll(grid: Seq<Seq<Cell>>, w: int) -> Seq<Seq<Cell>> {
    grid.drop_first().push(spec_blank_row(w))
}

/// Well-formedness of the model: dimensions positive and bounded, the grid
/// exactly `height` rows of `width` cells, cursor and saved cursor in range,
/// and the saved alternate screen itself well-shaped.
pub open spec fn view_wf(t: TermView) -> bool {
    &&& 1 <= t.width <= 0xFFFF
    &&& 1 <= t.height <= 0xFFFF
    &&& t.grid.len() == t.height
    &&& forall|y: int| 0 <= y < t.height ==> #[trigger] t.grid[y].len() == t.width
    &&& 0 <= t.cursor_x < t.width
    &&& 0 <= t.cursor_y < t.height
    &&& match t.saved {
        Some((x, y)) => 0 <= x < t.width && 0 <= y < t.height,
        None => true,
    }
    &&& match t.alt {
        Some(a) => {
            &&& a.grid.len() == t.height
            &&& forall|y: int| 0 <= y < t.height ==> #[trigger] a.grid[y].len() == t.width
            &&& 0 <= a.cursor_x < t.width
            &&& 0 <= a.cursor_y < t.height
        },
        None => true,
    }
}

/// The model of a freshly constructed terminal.
pub open spec fn spec_fresh(w: int, h: int) -> TermView {
    TermView {
        width: w,
        height: h,
        grid: spec_blank_grid(w, h),
        cursor_x: 0,
        cursor_y: 0,
        pen: spec_default_pen(),
        saved: None,
        alt: None,
    }
}

/// Advance the cursor one row, scrolling when it is already on the last row.
/// The column is left alone.
pub open spec fn spec_advance_row(t: TermView) -> TermView {
    if t.cursor_y + 1 < t.height {
        TermView { cursor_y: t.cursor_y + 1, ..t }
    } else {
        TermView { grid: spec_scroll(t.grid, t.width), ..t }
    }
}

/// Write a printable code point at the cursor: the pen is copied into the
/// cell, then the cursor advances, wrapping first and scrolling second.
pub open spec fn spec_write_printable(t: TermView, ch: char) -> TermView {
    let cell = spec_pen_cell(t.pen, ch);
    let g = t.grid.update(t.cursor_y, t.grid[t.cursor_y].update(t.cursor_x, cell));
    if t.cursor_x + 1 < t.width {
        TermView { grid: g, cursor_x: t.cursor_x + 1, ..t }
    } else {
        spec_advance_row(TermView { grid: g, cursor_x: 0, ..t })
    }
}

/// Line feed: next row (scrolling at the bottom), column unchanged.
pub open spec fn spec_line_feed(t: TermView) -> TermView {
    spec_advance_row(t)
}

/// Carriage return: column zero.
pub open spec fn spec_carriage_return(t: TermView) -> TermView {
    TermView { cursor_x: 0, ..t }
}

/// Horizontal tab: the column moves to the next multiple of 8, wrapping to
/// the next row (and scrolling at the bottom) when that passes the width.
pub open spec fn spec_tab(t: TermView) -> TermView {
    let nx = (t.cursor_x / 8 + 1) * 8;
    if nx < t.width {
        TermView { cursor_x: nx, ..t }
    } else {
        spec_advance_row(TermView { cursor_x: 0, ..t })
    }
}

/// Backspace: the column moves left by one, stopping at zero.
pub open spec fn spec_backspace(t: TermView) -> TermView {
    if t.cursor_x > 0 {
        TermView { cursor_x: t.cursor_x - 1, ..t }
    } else {
        t
    }
}

/// The byte-stream dispatch of one code point, as the printable path of the
/// state machine performs it.
pub open spec fn spec_write_char(t: TermView, ch: char) -> TermView {
    if ch == '\n' {
        spec_line_feed(t)
    } else if ch == '\r' {
        spec_carriage_return(t)
    } else if ch == '\t' {
        spec_tab(t)
    } else {
        spec_write_printable(t, ch)
    }
}

/// Absolute cursor motion, clamped to the grid.
pub open spec fn spec_move_cursor(t: TermView, x: int, y: int) -> TermView {
    TermView {
        cursor_x: if x < t.width - 1 { x } else { t.width - 1 },
        cursor_y: if y < t.height - 1 { y } else { t.height - 1 },
        ..t
    }
}

pub open spec fn spec_clamp(v: int, lo: int, hi: int) -> int {
    if v < lo {
        lo
    } else if v > hi {
        hi
    } else {
        v
    }
}

/// Relative cursor motion, clamped to the grid.
pub open spec fn spec_move_cursor_rel(t: TermView, dx: int, dy: int) -> TermView {
    TermView {
        cursor_x: spec_clamp(t.cursor_x + dx, 0, t.width - 1),
        cursor_y: spec_clamp(t.cursor_y + dy, 0, t.height - 1),
        ..t
    }
}

/// Full reset: blank grid, cursor home, pen and saved cursor reset.  The
/// alternate-screen slot is left alone.
pub open spec fn spec_clear(t: TermView) -> TermView {
    TermView {
        grid: spec_blank_grid(t.width, t.height),
        cursor_x: 0,
        cursor_y: 0,
        pen: spec_default_pen(),
        saved: None,
        ..t
    }
}

/// Erase from the cursor to the end of the current line.
pub open spec fn spec_clear_line_from_cursor(t: TermView) -> TermView {
    let row = Seq::new(
        t.grid[t.cursor_y].len(),
        |x: int| if x >= t.cursor_x { spec_erased_cell(t.pen) } else { t.grid[t.cursor_y][x] },
    );
    TermView { grid: t.grid.update(t.cursor_y, row), ..t }
}

/// Erase from the cursor to the end of the screen.
pub open spec fn spec_clear_from_cursor(t: TermView) -> TermView {
    let g = Seq::new(
        t.grid.len(),
        |y: int|
            Seq::new(
                t.grid[y].len(),
                |x: int|
                    if y > t.cursor_y || (y == t.cursor_y && x >= t.cursor_x) {
                        spec_erased_cell(t.pen)
                    } else {
                        t.grid[y][x]
                    },
            ),
    );
    TermView { grid: g, ..t }
}

/// Save the cursor position.
pub open spec fn spec_save_cursor(t: TermView) -> TermView {
    TermView { saved: Some((t.cursor_x, t.cursor_y)), ..t }
}

/// Restore the saved cursor position, clamped; a no-op when nothing is saved.
pub open spec fn spec_restore_cursor(t: TermView) -> TermView {
    match t.saved {
        Some((x, y)) => TermView {
            cursor_x: if x < t.width - 1 { x } else { t.width - 1 },
            cursor_y: if y < t.height - 1 { y } else { t.height - 1 },
            ..t
        },
        None => t,
    }
}

/// Enter the alternate screen: snapshot grid and cursor, then clear.  A
/// no-op when already in the alternate screen.
pub open spec fn spec_enter_alt(t: TermView) -> TermView {
    match t.alt {
        Some(_) => t,
        None => TermView {
            grid: spec_blank_grid(t.width, t.height),
            cursor_x: 0,
            cursor_y: 0,
            pen: spec_default_pen(),
            saved: None,
            alt: Some(AltView { grid: t.grid, cursor_x: t.cursor_x, cursor_y: t.cursor_y }),
            ..t
        },
    }
}

/// Leave the alternate screen: restore the snapshot and free it.  A no-op
/// when not in the alternate screen.
pub open spec fn spec_leave_alt(t: TermView) -> TermView {
    match t.alt {
        Some(a) => TermView {
            grid: a.grid,
            cursor_x: a.cursor_x,
            cursor_y: a.cursor_y,
            alt: None,
            ..t
        },
        None => t,
    }
}

/// The state of a VT100-style terminal: grid, cursor, pen, saved cursor,
/// and the optional alternate-screen snapshot.
#[derive(Clone)]
pub struct Vt100Terminal {
    /// Terminal width in character columns; constant after construction.
    pub width: u32,
    /// Terminal height in character rows; constant after construction.
    pub height: u32,
    /// The grid, as `height` rows of `width` cells.
    pub cells: Vec<Vec<Cell>>,
    /// Cursor column, always below `width`.
    pub cursor_x: u32,
    /// Cursor row, always below `height`.
    pub cursor_y: u32,
    /// The current drawing state.
    pub pen: Pen,
    /// The saved cursor position, if any.
    pub saved_cursor: Option<(u32, u32)>,
    /// The saved primary screen while the alternate screen is active.
    pub alternate: Option<Box<SavedScreen>>,
}

impl View for Vt100Terminal {
    type V = TermView;

    open spec fn view(&self) -> TermView {
        TermView {
            width: self.width as int,
            height: self.height as int,
            grid: Seq::new(self.cells@.len(), |y: int| self.cells@[y]@),
            cursor_x: self.cursor_x as int,
            cursor_y: self.cursor_y as int,
            pen: self.pen,
            saved: match self.saved_cursor {
                Some((x, y)) => Some((x as int, y as int)),
                None => None,
            },
            alt: match self.alternate {
                Some(s) => Some(
                    AltView {
                        grid: Seq::new(s.cells@.len(), |y: int| s.cells@[y]@),
                        cursor_x: s.cursor_x as int,
                        cursor_y: s.cursor_y as int,
                    },
                ),
                None => None,
            },
        }
    }
}

/// Build a blank row of `w` cells.
fn blank_row(w: u32) -> (r: Vec<Cell>)
    ensures
        r@ =~= spec_blank_row(w as int),
{
    let mut r: Vec<Cell> = Vec::new();
    let mut i: u32 = 0;
    while i < w
        invariant
            i <= w,
            r@.len() == i,
            forall|j: int| 0 <= j < i ==> r@[j] == spec_blank_cell(),
        decreases w - i,
    {
        r.push(blank_cell());
        i = i + 1;
    }
    proof {
        assert(r@ =~= spec_blank_row(w as int));
    }
    r
}

/// Build a blank grid of `h` rows of `w` cells.
fn blank_grid(w: u32, h: u32) -> (g: Vec<Vec<Cell>>)
    ensures
        g@.len() == h,
        forall|y: int| 0 <= y < h ==> #[trigger] g@[y]@ =~= spec_blank_row(w as int),
{
    let mut g: Vec<Vec<Cell>> = Vec::new();
    let mut i: u32 = 0;
    while i < h
        invariant
            i <= h,
            g@.len() == i,
            forall|y: int| 0 <= y < i ==> #[trigger] g@[y]@ =~= spec_blank_row(w as int),
        decreases h - i,
    {
        g.push(blank_row(w));
        i = i + 1;
    }
    g
}

impl Vt100Terminal {
    /// Well-formedness of the terminal: its model is well-formed.
    pub open spec fn wf(&self) -> bool {
        view_wf(self@)
    }

    /// Create a terminal with a blank grid, the cursor at the origin and the
    /// default pen.  Dimensions must be positive and fit a PTY size field.
    pub fn new(width: u32, height: u32) -> (t: Vt100Terminal)
        requires
            1 <= width <= 0xFFFF,
            1 <= height <= 0xFFFF,
        ensures
            t.wf(),
            t@ =~~= spec_fresh(width as int, height as int),
    {
        let t = Vt100Terminal {
            width,
            height,
            cells: blank_grid(width, height),
            cursor_x: 0,
            cursor_y: 0,
            pen: default_pen(),
            saved_cursor: None,
            alternate: None,
        };
        proof {
            assert(t@.grid =~~= spec_blank_grid(width as int, height as int));
        }
        t
    }

    /// Set the current foreground color.
    pub fn set_fg_color(&mut self, color: Rgb)
        requires
            old(self).wf(),
        ensures
            final(self).wf(),
            final(self)@ == (TermView { pen: Pen { fg: color, ..old(self)@.pen }, ..old(self)@ }),
    {
        self.pen.fg = color;
    }

    /// Set the current background color.
    pub fn set_bg_color(&mut self, color: Rgb)
        requires
            old(self).wf(),
        ensures
            final(self).wf(),
            final(self)@ == (TermView { pen: Pen { bg: color, ..old(self)@.pen }, ..old(self)@ }),
    {
        self.pen.bg = color;
    }

    /// Reset the pen to default colors and cleared attributes.
    pub fn reset_attributes(&mut self)
        requires
            old(self).wf(),
        ensures
            final(self).wf(),
            final(self)@ == (TermView { pen: spec_default_pen(), ..old(self)@ }),
    {
        self.pen = default_pen();
    }

    /// Reset the foreground to its default.
    pub fn reset_fg(&mut self)
        requires
            old(self).wf(),
        ensures
            final(self).wf(),
            final(self)@ == (TermView { pen: Pen { fg: spec_default_fg(), ..old(self)@.pen }, ..old(self)@ }),
    {
        self.pen.fg = default_fg();
    }

    /// Reset the background to its default.
    pub fn reset_bg(&mut self)
        requires
            old(self).wf(),
        ensures
            final(self).wf(),
            final(self)@ == (TermView { pen: Pen { bg: spec_default_bg(), ..old(self)@.pen }, ..old(self)@ }),
    {
        self.pen.bg = default_bg();
    }

    /// Switch the bold attribute.
    pub fn set_bold(&mut self, enabled: bool)
        requires
            old(self).wf(),
        ensures
            final(self).wf(),
            final(self)@ == (TermView {
                pen: Pen {
                    attrs: CellAttributes { bold: enabled, ..old(self)@.pen.attrs },
                    ..old(self)@.pen
                },
                ..old(self)@
            }),
    {
        self.pen.attrs.bold = enabled;
    }

    /// Switch the underline attribute.
    pub fn set_underline(&mut self, enabled: bool)
        requires
            old(self).wf(),
        ensures
            final(self).wf(),
            final(self)@ == (TermView {
                pen: Pen {
                    attrs: CellAttributes { underline: enabled, ..old(self)@.pen.attrs },
                    ..old(self)@.pen
                },
                ..old(self)@
            }),
    {
        self.pen.attrs.underline = enabled;
    }

    /// Switch the inverse attribute.
    pub fn set_inverse(&mut self, enabled: bool)
        requires
            old(self).wf(),
        ensures
            final(self).wf(),
            final(self)@ == (TermView {
                pen: Pen {
                    attrs: CellAttributes { inverse: enabled, ..old(self)@.pen.attrs },
                    ..old(self)@.pen
                },
                ..old(self)@
            }),
    {
        self.pen.attrs.inverse = enabled;
    }

    /// Whether the alternate screen is active.
    pub fn is_alternate_screen(&self) -> (r: bool)
        ensures
            r == (self@.alt is Some),
    {
        match self.alternate {
            Some(_) => true,
            None => false,
        }
    }

    /// Save the cursor position.
    pub fn save_cursor(&mut self)
        requires
            old(self).wf(),
        ensures
            final(self).wf(),
            final(self)@ == spec_save_cursor(old(self)@),
    {
        self.saved_cursor = Some((self.cursor_x, self.cursor_y));
    }

    /// Restore the saved cursor position, clamped to the grid.
    pub fn restore_cursor(&mut self)
        requires
            old(self).wf(),
        ensures
            final(self).wf(),
            final(self)@ == spec_restore_cursor(old(self)@),
    {
        if let Some((x, y)) = self.saved_cursor {
            self.cursor_x = if x < self.width - 1 {
                x
            } else {
                self.width - 1
            };
            self.cursor_y = if y < self.height - 1 {
                y
            } else {
                self.height - 1
            };
        }
    }

    /// Move the cursor left by one column, stopping at zero.
    pub fn backspace(&mut self)
        requires
            old(self).wf(),
        ensures
            final(self).wf(),
            final(self)@ == spec_backspace(old(self)@),
    {
        if self.cursor_x > 0 {
            self.cursor_x = self.cursor_x - 1;
        }
    }

    /// Move the cursor to an absolute position, clamped to the grid.
    pub fn move_cursor(&mut self, x: u32, y: u32)
        requires
            old(self).wf(),
        ensures
            final(self).wf(),
            final(self)@ == spec_move_cursor(old(self)@, x as int, y as int),
    {
        self.cursor_x = if x < self.width - 1 {
            x
        } else {
            self.width - 1
        };
        self.cursor_y = if y < self.height - 1 {
            y
        } else {
            self.height - 1
        };
    }

    /// Move the cursor by a relative offset, clamped to the grid.
    pub fn move_cursor_rel(&mut self, dx: i32, dy: i32)
        requires
            old(self).wf(),
        ensures
            final(self).wf(),
            final(self)@ == spec_move_cursor_rel(old(self)@, dx as int, dy as int),
    {
        let nx: i64 = self.cursor_x as i64 + dx as i64;
        let ny: i64 = self.cursor_y as i64 + dy as i64;
        let max_x: i64 = self.width as i64 - 1;
        let max_y: i64 = self.height as i64 - 1;
        let cx: i64 = if nx < 0 {
            0
        } else if nx > max_x {
            max_x
        } else {
            nx
        };
        let cy: i64 = if ny < 0 {
            0
        } else if ny > max_y {
            max_y
        } else {
            ny
        };
        self.cursor_x = cx as u32;
        self.cursor_y = cy as u32;
    }

    /// Advance the cursor one row, scrolling when it is on the last row.
    fn advance_row(&mut self)
        requires
            old(self).wf(),
        ensures
            final(self).wf(),
            final(self)@ == spec_advance_row(old(self)@),
    {
        if self.cursor_y + 1 < self.height {
            self.cursor_y = self.cursor_y + 1;
        } else {
            self.cells.remove(0);
            let row = blank_row(self.width);
            self.cells.push(row);
            proof {
                assert(self@.grid =~~= spec_scroll(old(self)@.grid, old(self)@.width));
                assert(self@ =~~= spec_advance_row(old(self)@));
            }
        }
    }

    /// Write one printable code point at the cursor with the current pen,
    /// then advance, wrapping at the right edge and scrolling past the
    /// bottom one.
    fn write_printable(&mut self, ch: char)
        requires
            old(self).wf(),
        ensures
            final(self).wf(),
            final(self)@ == spec_write_printable(old(self)@, ch),
    {
        let cell = Cell { ch, fg: self.pen.fg, bg: self.pen.bg, attrs: self.pen.attrs };
        let y = self.cursor_y as usize;
        let x = self.cursor_x as usize;
        self.cells[y][x] = cell;
        proof {
            assert(self@.grid =~~= old(self)@.grid.update(
                old(self)@.cursor_y,
                old(self)@.grid[old(self)@.cursor_y].update(old(self)@.cursor_x, cell),
            ));
        }
        if self.cursor_x + 1 < self.width {
            self.cursor_x = self.cursor_x + 1;
        } else {
            self.cursor_x = 0;
            self.advance_row();
        }
    }

    /// Move the column to the next multiple of 8, wrapping to the next row
    /// when that passes the width.
    fn tab(&mut self)
        requires
            old(self).wf(),
        ensures
            final(self).wf(),
            final(self)@ == spec_tab(old(self)@),
    {
        let nx: u32 = (self.cursor_x / 8 + 1) * 8;
        if nx < self.width {
            self.cursor_x = nx;
        } else {
            self.cursor_x = 0;
            self.advance_row();
        }
    }

    /// Fold one decoded code point into the grid: line feed, carriage
    /// return and tab move the cursor; everything else is written.
    pub fn write_char(&mut self, ch: char)
        requires
            old(self).wf(),
        ensures
            final(self).wf(),
            final(self)@ == spec_write_char(old(self)@, ch),
    {
        if ch == '\n' {
            self.advance_row();
        } else if ch == '\r' {
            self.cursor_x = 0;
        } else if ch == '\t' {
            self.tab();
        } else {
            self.write_printable(ch);
        }
    }

    /// Full reset: blank the grid, home the cursor, reset pen and saved
    /// cursor.  The alternate-screen snapshot is left alone.
    pub fn clear(&mut self)
        requires
            old(self).wf(),
        ensures
            final(self).wf(),
            final(self)@ == spec_clear(old(self)@),
    {
        self.cells = blank_grid(self.width, self.height);
        self.cursor_x = 0;
        self.cursor_y = 0;
        self.saved_cursor = None;
        self.pen = default_pen();
        proof {
            assert(self@.grid =~~= spec_blank_grid(old(self)@.width, old(self)@.height));
            assert(self@ =~~= spec_clear(old(self)@));
        }
    }

    /// Erase from the cursor to the end of the current line; erased cells
    /// take the pen's colors and cleared attributes.
    pub fn clear_line_from_cursor(&mut self)
        requires
            old(self).wf(),
        ensures
            final(self).wf(),
            final(self)@ == spec_clear_line_from_cursor(old(self)@),
    {
        let erased = Cell {
            ch: ' ',
            fg: self.pen.fg,
            bg: self.pen.bg,
            attrs: CellAttributes::cleared(),
        };
        let y = self.cursor_y as usize;
        let mut x: u32 = self.cursor_x;
        proof {
            assert(old(self)@.grid[y as int].len() == old(self)@.width);
            assert(old(self)@.grid[y as int] == old(self).cells@[y as int]@);
            assert(old(self)@.grid.len() == old(self).cells@.len());
        }
        while x < self.width
            invariant
                old(self).wf(),
                self.width == old(self).width,
                self.height == old(self).height,
                self.cursor_x == old(self).cursor_x,
                self.cursor_y == old(self).cursor_y,
                self.pen == old(self).pen,
                self.saved_cursor == old(self).saved_cursor,
                self.alternate == old(self).alternate,
                y == self.cursor_y as usize,
                y < self.cells@.len(),
                erased == spec_erased_cell(self.pen),
                self.cursor_x <= x <= self.width,
                self.cells@.len() == old(self).cells@.len(),
                self.cells@[y as int]@.len() == self.width,
                old(self).cells@[y as int]@.len() == self.width,
                forall|r: int| 0 <= r < self.cells@.len() && r != y ==> self.cells@[r]
                    == old(self).cells@[r],
                forall|j: int| 0 <= j < self.cursor_x ==> self.cells@[y as int]@[j] == old(
                    self,
                ).cells@[y as int]@[j],
                forall|j: int| self.cursor_x <= j < x ==> self.cells@[y as int]@[j] == erased,
                forall|j: int| x <= j < self.cells@[y as int]@.len() ==> self.cells@[y as int]@[j]
                    == old(self).cells@[y as int]@[j],
            decreases self.width - x,
        {
            self.cells[y][x as usize] = erased;
            x = x + 1;
        }
        proof {
            assert(self@ =~~= spec_clear_line_from_cursor(old(self)@));
        }
    }

    /// Erase one full row to the pen's erased cell.  Internal step of
    /// erasing to the end of the screen.
    fn erase_row(&mut self, y: u32)
        requires
            old(self).wf(),
            y < old(self).height,
        ensures
            final(self).wf(),
            final(self).width == old(self).width,
            final(self).height == old(self).height,
            final(self).cursor_x == old(self).cursor_x,
            final(self).cursor_y == old(self).cursor_y,
            final(self).pen == old(self).pen,
            final(self).saved_cursor == old(self).saved_cursor,
            final(self).alternate == old(self).alternate,
            final(self).cells@.len() == old(self).cells@.len(),
            forall|r: int| 0 <= r < old(self).cells@.len() && r != y ==> final(self).cells@[r]
                == old(self).cells@[r],
            final(self).cells@[y as int]@ =~= Seq::new(
                old(self).cells@[y as int]@.len(),
                |j: int| spec_erased_cell(old(self).pen),
            ),
    {
        let erased = Cell {
            ch: ' ',
            fg: self.pen.fg,
            bg: self.pen.bg,
            attrs: CellAttributes::cleared(),
        };
        let yi = y as usize;
        proof {
            assert(old(self)@.grid[y as int].len() == old(self)@.width);
            assert(old(self)@.grid[y as int] == old(self).cells@[y as int]@);
            assert(old(self)@.grid.len() == old(self).cells@.len());
        }
        let mut x: u32 = 0;
        while x < self.width
            invariant
                old(self).wf(),
                self.width == old(self).width,
                self.height == old(self).height,
                self.cursor_x == old(self).cursor_x,
                self.cursor_y == old(self).cursor_y,
                self.pen == old(self).pen,
                self.saved_cursor == old(self).saved_cursor,
                self.alternate == old(self).alternate,
                yi == y as usize,
                y < self.height,
                y < self.cells@.len(),
                erased == spec_erased_cell(self.pen),
                x <= self.width,
                self.cells@.len() == old(self).cells@.len(),
                self.cells@[y as int]@.len() == self.width,
                old(self).cells@[y as int]@.len() == self.width,
                forall|r: int| 0 <= r < self.cells@.len() && r != y ==> self.cells@[r] == old(
                    self,
                ).cells@[r],
                forall|j: int| 0 <= j < x ==> self.cells@[y as int]@[j] == erased,
                forall|j: int| x <= j < self.cells@[y as int]@.len() ==> self.cells@[y as int]@[j]
                    == old(self).cells@[y as int]@[j],
            decreases self.width - x,
        {
            self.cells[yi][x as usize] = erased;
            x = x + 1;
        }
        proof {
            assert forall|r: int| 0 <= r < self@.grid.len() implies #[trigger] self@.grid[r].len()
                == self@.width by {
                assert(old(self)@.grid[r].len() == old(self)@.width);
            }
            assert(view_wf(self@));
        }
    }

    /// Erase from the cursor to the end of the screen; erased cells take
    /// the pen's colors and cleared attributes.
    pub fn clear_from_cursor(&mut self)
        requires
            old(self).wf(),
        ensures
            final(self).wf(),
            final(self)@ == spec_clear_from_cursor(old(self)@),
    {
        self.clear_line_from_cursor();
        let mut y: u32 = self.cursor_y + 1;
        while y < self.height
            invariant
                old(self).wf(),
                self.wf(),
                self@.width == old(self)@.width,
                self@.height == old(self)@.height,
                self@.cursor_x == old(self)@.cursor_x,
                self@.cursor_y == old(self)@.cursor_y,
                self@.pen == old(self)@.pen,
                self@.saved == old(self)@.saved,
                self@.alt == old(self)@.alt,
                self.width == self@.width,
                self.height == self@.height,
                self.cursor_x == self@.cursor_x,
                self.cursor_y == self@.cursor_y,
                self@.cursor_y < y <= self@.height,
                self@.grid.len() == old(self)@.grid.len(),
                forall|r: int, j: int|
                    0 <= r < self@.grid.len() && 0 <= j < #[trigger] self@.grid[r].len()
                        ==> #[trigger] self@.grid[r][j] == (
                    if (r > self@.cursor_y || (r == self@.cursor_y && j >= self@.cursor_x)) && r
                        < y {
                        spec_erased_cell(self@.pen)
                    } else {
                        old(self)@.grid[r][j]
                    }),
            decreases self.height - y,
        {
            proof {
                assert(self@.grid[y as int] == self.cells@[y as int]@);
                assert(self@.grid[y as int].len() == self@.width);
            }
            let ghost prev = self@;
            self.erase_row(y);
            proof {
                assert forall|r: int, j: int|
                    0 <= r < self@.grid.len() && 0 <= j < #[trigger] self@.grid[r].len()
                        implies #[trigger] self@.grid[r][j] == (
                    if (r > self@.cursor_y || (r == self@.cursor_y && j >= self@.cursor_x)) && r
                        < y + 1 {
                        spec_erased_cell(self@.pen)
                    } else {
                        old(self)@.grid[r][j]
                    }) by {
                    assert(self@.grid[r] == self.cells@[r]@);
                    assert(prev.grid[r] == prev.grid[r]);
                    if r != y {
                        assert(self@.grid[r] == prev.grid[r]);
                    }
                }
            }
            y = y + 1;
        }
        proof {
            assert forall|r: int| 0 <= r < self@.grid.len() implies #[trigger] spec_clear_from_cursor(
                old(self)@,
            ).grid[r] =~= self@.grid[r] by {
                assert(self@.grid[r].len() == self@.width);
                assert(old(self)@.grid[r].len() == old(self)@.width);
            }
            assert(self@ =~~= spec_clear_from_cursor(old(self)@));
        }
    }

    /// Enter the alternate screen: snapshot the grid and cursor, then clear
    /// the screen and home the cursor.  A no-op when already there.
    pub fn enter_alternate_screen(&mut self)
        requires
            old(self).wf(),
        ensures
            final(self).wf(),
            final(self)@ == spec_enter_alt(old(self)@),
    {
        match self.alternate {
            Some(_) => {},
            None => {
                let saved = SavedScreen {
                    cells: copy_grid(&self.cells),
                    cursor_x: self.cursor_x,
                    cursor_y: self.cursor_y,
                };
                self.alternate = Some(Box::new(saved));
                proof {
                    assert forall|r: int| 0 <= r < self@.grid.len() implies #[trigger] self@.grid[r].len()
                        == self@.width by {
                        assert(old(self)@.grid[r].len() == old(self)@.width);
                        assert(old(self)@.grid[r] == old(self).cells@[r]@);
                    }
                    let a = self@.alt->Some_0;
                    assert forall|r: int| 0 <= r < a.grid.len() implies #[trigger] a.grid[r].len()
                        == self@.width by {
                        assert(old(self)@.grid[r].len() == old(self)@.width);
                        assert(old(self)@.grid[r] == old(self).cells@[r]@);
                    }
                    assert(a.grid =~~= old(self)@.grid);
                    assert(view_wf(self@));
                }
                self.clear();
                proof {
                    assert(self@ =~~= spec_enter_alt(old(self)@));
                }
            },
        }
    }

    /// Leave the alternate screen: restore the snapshot and free it.  A
    /// no-op when not there.
    pub fn leave_alternate_screen(&mut self)
        requires
            old(self).wf(),
        ensures
            final(self).wf(),
            final(self)@ == spec_leave_alt(old(self)@),
    {
        let taken = self.alternate.take();
        match taken {
            Some(saved) => {
                let s = *saved;
                self.cells = s.cells;
                self.cursor_x = s.cursor_x;
                self.cursor_y = s.cursor_y;
                proof {
                    assert(self@ =~~= spec_leave_alt(old(self)@));
                }
            },
            None => {},
        }
    }
}

/// The characters of one row, in order.
pub open spec fn spec_row_text(row: Seq<Cell>) -> Seq<char> {
    Seq::new(row.len(), |i: int| row[i].ch)
}

/// The text of the rows from `from` on, each row followed by a newline.
pub open spec fn spec_text_from(g: Seq<Seq<Cell>>, from: int) -> Seq<char>
    decreases g.len() - from,
{
    if from < 0 || from >= g.len() {
        Seq::empty()
    } else {
        spec_row_text(g[from]) + seq!['\n'] + spec_text_from(g, from + 1)
    }
}

/// The visible text of the whole grid.
pub open spec fn spec_grid_text(g: Seq<Seq<Cell>>) -> Seq<char> {
    spec_text_from(g, 0)
}

impl Vt100Terminal {
    /// Dump the grid as visible text, one line per row.
    pub fn to_text(&self) -> (r: String)
        requires
            self.wf(),
        ensures
            r@ == spec_grid_text(self@.grid),
    {
        let mut out = String::new();
        let mut y: usize = 0;
        let h = self.cells.len();
        while y < h
            invariant
                self.wf(),
                h == self.cells@.len(),
                0 <= y <= h,
                out@ + spec_text_from(self@.grid, y as int) =~= spec_grid_text(self@.grid),
            decreases h - y,
        {
            let ghost base = out@;
            let w = self.cells[y].len();
            let mut x: usize = 0;
            while x < w
                invariant
                    y < self.cells@.len(),
                    h == self.cells@.len(),
                    w == self.cells@[y as int]@.len(),
                    0 <= x <= w,
                    out@ =~= base + spec_row_text(self@.grid[y as int]).take(x as int),
                decreases w - x,
            {
                let c = self.cells[y][x];
                out.push(c.ch);
                x = x + 1;
                proof {
                    assert(self@.grid[y as int] == self.cells@[y as int]@);
                    assert(out@ =~= base + spec_row_text(self@.grid[y as int]).take(x as int));
                }
            }
            out.push('\n');
            y = y + 1;
            proof {
                assert(spec_row_text(self@.grid[y - 1]).take(w as int) =~= spec_row_text(
                    self@.grid[y - 1],
                ));
                assert(out@ =~= base + spec_row_text(self@.grid[y - 1]) + seq!['\n']);
                assert(out@ + spec_text_from(self@.grid, y as int) =~= spec_grid_text(
                    self@.grid,
                ));
            }
        }
        proof {
            assert(out@ + spec_text_from(self@.grid, h as int) =~= out@);
        }
        out
    }
}

/// Copy one row of cells.
fn copy_row(row: &Vec<Cell>) -> (r: Vec<Cell>)
    ensures
        r@ =~= row@,
{
    let mut r: Vec<Cell> = Vec::new();
    let mut i: usize = 0;
    while i < row.len()
        invariant
            i <= row@.len(),
            r@ =~= row@.take(i as int),
        decreases row@.len() - i,
    {
        r.push(row[i]);
        i = i + 1;
    }
    r
}

/// Deep-copy a grid of cells.
fn copy_grid(g: &Vec<Vec<Cell>>) -> (r: Vec<Vec<Cell>>)
    ensures
        r@.len() == g@.len(),
        forall|y: int| 0 <= y < g@.len() ==> #[trigger] r@[y]@ == g@[y]@,
{
    let mut r: Vec<Vec<Cell>> = Vec::new();
    let mut i: usize = 0;
    while i < g.len()
        invariant
            i <= g@.len(),
            r@.len() == i,
            forall|y: int| 0 <= y < i ==> #[trigger] r@[y]@ == g@[y]@,
        decreases g@.len() - i,
    {
        r.push(copy_row(&g[i]));
        i = i + 1;
    }
    r
}

} // verus!
