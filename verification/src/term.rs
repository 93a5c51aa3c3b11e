//! The grid a VT interpreter mutates: a screen of styled cells, the
//! history rows that scrolled off the top, a viewport offset into that
//! history, the cursor, and the current pen.
//!
//! Every operation is specified against [`TermView`], the mathematical
//! state: the screen and history as sequences of cell rows.
//!
//! Policy notes, where the VT conventions leave a choice:
//! - printing uses deferred wrap: the character at the last column is
//!   written in place and a wrap flag is set; the next printed
//!   character moves to the start of the following line first;
//! - a row that scrolls off the top is retained as history, up to
//!   [`SCROLLBACK_MAX`] rows, oldest dropped first;
//! - a resize truncates on shrink (bottom rows and right columns drop)
//!   and pads with blank cells on grow; history rows are fitted to the
//!   new width; the cursor is clamped into the new bounds.

use vstd::prelude::*;
use crate::color::ColorRef;
use crate::terminal::{default_flags, CellFlags, CursorShape};

verus! {

/// The most history rows kept when the screen scrolls.
pub const SCROLLBACK_MAX: usize = 1000;

/// One stored grid cell: a character with its symbolic colors and its
/// style flags. Colors stay references; they resolve only in snapshots.
#[derive(Clone, Copy, Debug, PartialEq, Eq, Structural)]
pub struct Cell {
    pub ch: char,
    pub fg: ColorRef,
    pub bg: ColorRef,
    pub flags: CellFlags,
}

/// The blank cell erased regions are filled with: a space in the
/// scheme's default colors with no styling.
pub open spec fn blank_cell() -> Cell {
    Cell { ch: ' ', fg: ColorRef::Foreground, bg: ColorRef::Background, flags: default_flags() }
}

/// A row of `cols` blank cells.
pub open spec fn blank_line(cols: int) -> Seq<Cell> {
    Seq::new(cols as nat, |i: int| blank_cell())
}

/// Cursor state: position, visibility, shape, and the deferred-wrap
/// flag set after printing in the last column.
#[derive(Clone, Copy, Debug, PartialEq, Eq, Structural)]
pub struct Cursor {
    pub row: u16,
    pub col: u16,
    pub visible: bool,
    pub shape: CursorShape,
    pub wrap: bool,
}

/// The attributes newly printed characters are stored with.
#[derive(Clone, Copy, Debug, PartialEq, Eq, Structural)]
pub struct Pen {
    pub fg: ColorRef,
    pub bg: ColorRef,
    pub flags: CellFlags,
}

/// The pen a fresh terminal starts with: default colors, no styling.
pub open spec fn default_pen() -> Pen {
    Pen { fg: ColorRef::Foreground, bg: ColorRef::Background, flags: default_flags() }
}

/// The mathematical state of a terminal grid.
#[verifier::ext_equal]
pub struct TermView {
    pub cols: int,
    pub rows: int,
    pub screen: Seq<Seq<Cell>>,
    pub history: Seq<Seq<Cell>>,
    pub offset: int,
    pub cursor: Cursor,
    pub pen: Pen,
}

/// Well-formedness of a grid state: positive dimensions that fit in
/// `u16`, a screen of exactly `rows` lines of exactly `cols` cells,
/// history lines of the same width, a viewport offset within history,
/// and a cursor inside the bounds.
pub open spec fn view_wf(v: TermView) -> bool {
    &&& 1 <= v.cols <= u16::MAX
    &&& 1 <= v.rows <= u16::MAX
    &&& v.screen.len() == v.rows
    &&& forall|i: int| 0 <= i < v.screen.len() ==> (#[trigger] v.screen[i]).len() == v.cols
    &&& forall|i: int| 0 <= i < v.history.len() ==> (#[trigger] v.history[i]).len() == v.cols
    &&& v.history.len() <= SCROLLBACK_MAX
    &&& 0 <= v.offset <= v.history.len()
    &&& v.cursor.row < v.rows
    &&& v.cursor.col < v.cols
}

/// `v` with the cell at `(r, c)` replaced.
pub open spec fn with_cell(v: TermView, r: int, c: int, cell: Cell) -> TermView {
    TermView { screen: v.screen.update(r, v.screen[r].update(c, cell)), ..v }
}

/// `v` scrolled up one line: the top screen line moves to the end of
/// history (dropping the oldest history line at the cap), the screen
/// shifts up, and a blank line appears at the bottom.
pub open spec fn scrolled_up(v: TermView) -> TermView {
    let pushed = if v.history.len() >= SCROLLBACK_MAX {
        v.history.drop_first().push(v.screen[0])
    } else {
        v.history.push(v.screen[0])
    };
    TermView {
        screen: v.screen.drop_first().push(blank_line(v.cols)),
        history: pushed,
        ..v
    }
}

/// A carriage return: the cursor moves to the first column; the wrap
/// flag clears.
pub open spec fn carriage_return_tv(v: TermView) -> TermView {
    TermView { cursor: Cursor { col: 0, wrap: false, ..v.cursor }, ..v }
}

/// A backspace: the cursor moves one column left, stopping at the
/// first column; the wrap flag clears.
pub open spec fn backspace_tv(v: TermView) -> TermView {
    TermView {
        cursor: Cursor {
            col: if v.cursor.col > 0 {
                (v.cursor.col - 1) as u16
            } else {
                0
            },
            wrap: false,
            ..v.cursor
        },
        ..v
    }
}

/// A horizontal tab: the cursor moves to the next tab stop (every
/// eight columns), stopping at the last column; the wrap flag clears.
pub open spec fn tab_tv(v: TermView) -> TermView {
    TermView {
        cursor: Cursor {
            col: if (v.cursor.col / 8 + 1) * 8 < v.cols {
                ((v.cursor.col / 8 + 1) * 8) as u16
            } else {
                (v.cols - 1) as u16
            },
            wrap: false,
            ..v.cursor
        },
        ..v
    }
}

/// A line feed: the cursor moves down one row, scrolling the content
/// up when it is already on the last row; the wrap flag clears.
pub open spec fn line_feed_tv(v: TermView) -> TermView {
    if v.cursor.row + 1 < v.rows {
        TermView { cursor: Cursor { row: (v.cursor.row + 1) as u16, wrap: false, ..v.cursor }, ..v }
    } else {
        let s = scrolled_up(v);
        TermView { cursor: Cursor { wrap: false, ..v.cursor }, ..s }
    }
}

/// Printing `ch`: a pending wrap first moves the cursor to the start
/// of the next line (scrolling if needed); the character is stored at
/// the cursor with the current pen; then the cursor advances one
/// column, or sets the wrap flag when already at the last column.
pub open spec fn put_char_tv(v: TermView, ch: char) -> TermView {
    let v1 = if v.cursor.wrap {
        let lf = line_feed_tv(v);
        TermView { cursor: Cursor { col: 0, ..lf.cursor }, ..lf }
    } else {
        v
    };
    let cell = Cell { ch, fg: v.pen.fg, bg: v.pen.bg, flags: v.pen.flags };
    let v2 = with_cell(v1, v1.cursor.row as int, v1.cursor.col as int, cell);
    if v1.cursor.col + 1 < v1.cols {
        TermView {
            cursor: Cursor { col: (v1.cursor.col + 1) as u16, wrap: false, ..v1.cursor },
            ..v2
        }
    } else {
        TermView { cursor: Cursor { wrap: true, ..v1.cursor }, ..v2 }
    }
}

/// The cursor moved to `(row, col)`, clamped into the bounds; the
/// wrap flag clears.
pub open spec fn move_to_tv(v: TermView, row: u16, col: u16) -> TermView {
    TermView {
        cursor: Cursor {
            row: if row < v.rows {
                row
            } else {
                (v.rows - 1) as u16
            },
            col: if col < v.cols {
                col
            } else {
                (v.cols - 1) as u16
            },
            wrap: false,
            ..v.cursor
        },
        ..v
    }
}

/// The cursor moved `n` rows up, stopping at the top.
pub open spec fn cursor_up_tv(v: TermView, n: u16) -> TermView {
    TermView {
        cursor: Cursor {
            row: if n <= v.cursor.row {
                (v.cursor.row - n) as u16
            } else {
                0
            },
            wrap: false,
            ..v.cursor
        },
        ..v
    }
}

/// The cursor moved `n` rows down, stopping at the bottom.
pub open spec fn cursor_down_tv(v: TermView, n: u16) -> TermView {
    TermView {
        cursor: Cursor {
            row: if v.cursor.row + n < v.rows {
                (v.cursor.row + n) as u16
            } else {
                (v.rows - 1) as u16
            },
            wrap: false,
            ..v.cursor
        },
        ..v
    }
}

/// The cursor moved `n` columns right, stopping at the last column.
pub open spec fn cursor_forward_tv(v: TermView, n: u16) -> TermView {
    TermView {
        cursor: Cursor {
            col: if v.cursor.col + n < v.cols {
                (v.cursor.col + n) as u16
            } else {
                (v.cols - 1) as u16
            },
            wrap: false,
            ..v.cursor
        },
        ..v
    }
}

/// The cursor moved `n` columns left, stopping at the first column.
pub open spec fn cursor_back_tv(v: TermView, n: u16) -> TermView {
    TermView {
        cursor: Cursor {
            col: if n <= v.cursor.col {
                (v.cursor.col - n) as u16
            } else {
                0
            },
            wrap: false,
            ..v.cursor
        },
        ..v
    }
}

/// `line` with cells at indices `a <= i < b` blanked.
pub open spec fn erase_row_range(line: Seq<Cell>, a: int, b: int) -> Seq<Cell> {
    Seq::new(line.len(), |i: int| if a <= i < b { blank_cell() } else { line[i] })
}

/// The erased-in-line state: mode 0 blanks from the cursor to the end
/// of the line, mode 1 from the start through the cursor, mode 2 the
/// whole line; other modes change nothing. The cursor stays put.
pub open spec fn erase_line_tv(v: TermView, mode: u16) -> TermView {
    let line = v.screen[v.cursor.row as int];
    let erased = if mode == 0 {
        erase_row_range(line, v.cursor.col as int, v.cols)
    } else if mode == 1 {
        erase_row_range(line, 0, v.cursor.col + 1)
    } else if mode == 2 {
        erase_row_range(line, 0, v.cols)
    } else {
        line
    };
    TermView { screen: v.screen.update(v.cursor.row as int, erased), ..v }
}

/// The erased-in-display state: mode 0 blanks from the cursor to the
/// end of the screen, mode 1 from the start of the screen through the
/// cursor, mode 2 the whole screen; other modes change nothing. The
/// cursor stays put and history is untouched.
pub open spec fn erase_display_tv(v: TermView, mode: u16) -> TermView {
    let r = v.cursor.row as int;
    let screen = if mode == 0 {
        Seq::new(
            v.screen.len(),
            |i: int|
                if i < r {
                    v.screen[i]
                } else if i == r {
                    erase_row_range(v.screen[i], v.cursor.col as int, v.cols)
                } else {
                    blank_line(v.cols)
                },
        )
    } else if mode == 1 {
        Seq::new(
            v.screen.len(),
            |i: int|
                if i < r {
                    blank_line(v.cols)
                } else if i == r {
                    erase_row_range(v.screen[i], 0, v.cursor.col + 1)
                } else {
                    v.screen[i]
                },
        )
    } else if mode == 2 {
        Seq::new(v.screen.len(), |i: int| blank_line(v.cols))
    } else {
        v.screen
    };
    TermView { screen, ..v }
}

/// `line` fitted to width `c`: truncated on the right, or padded with
/// blank cells.
pub open spec fn fit_line(line: Seq<Cell>, c: int) -> Seq<Cell> {
    Seq::new(c as nat, |i: int| if i < line.len() { line[i] } else { blank_cell() })
}

/// The resized state: every screen and history line fitted to the new
/// width, bottom screen rows dropped on shrink and blank rows added on
/// grow, the viewport offset kept, and the cursor clamped into the new
/// bounds.
pub open spec fn resize_tv(v: TermView, c: int, r: int) -> TermView {
    TermView {
        cols: c,
        rows: r,
        screen: Seq::new(
            r as nat,
            |i: int| if i < v.screen.len() { fit_line(v.screen[i], c) } else { blank_line(c) },
        ),
        history: v.history.map_values(|l: Seq<Cell>| fit_line(l, c)),
        offset: v.offset,
        cursor: Cursor {
            row: if v.cursor.row < r { v.cursor.row } else { (r - 1) as u16 },
            col: if v.cursor.col < c { v.cursor.col } else { (c - 1) as u16 },
            wrap: false,
            ..v.cursor
        },
        pen: v.pen,
    }
}

/// The viewport moved `delta` lines further into history (negative:
/// toward the live screen), clamped to the available history.
pub open spec fn scroll_display_tv(v: TermView, delta: int) -> TermView {
    TermView {
        offset: if v.offset + delta > v.history.len() {
            v.history.len() as int
        } else if v.offset + delta < 0 {
            0
        } else {
            v.offset + delta
        },
        ..v
    }
}

/// The line shown at screen position `r` once the viewport is scrolled
/// `v.offset` lines into history: history lines first, then the top of
/// the live screen.
pub open spec fn visible_line(v: TermView, r: int) -> Seq<Cell> {
    if r < v.offset {
        v.history[v.history.len() - v.offset + r]
    } else {
        v.screen[r - v.offset]
    }
}

/// Resize consistency: a resized grid reports exactly the new
/// dimensions, stays well-formed, and its cursor lies within the new
/// bounds.
pub proof fn lemma_resize_consistent(v: TermView, c: int, r: int)
    requires
        view_wf(v),
        1 <= c <= u16::MAX,
        1 <= r <= u16::MAX,
    ensures
        view_wf(resize_tv(v, c, r)),
        resize_tv(v, c, r).cols == c,
        resize_tv(v, c, r).rows == r,
        resize_tv(v, c, r).cursor.row < r,
        resize_tv(v, c, r).cursor.col < c,
{
}

/// The grid state a VT interpreter drives.
pub struct TermGrid {
    pub(crate) cols: u16,
    pub(crate) rows: u16,
    pub(crate) screen: Vec<Vec<Cell>>,
    pub(crate) history: Vec<Vec<Cell>>,
    pub(crate) display_offset: usize,
    pub(crate) cursor: Cursor,
    pub(crate) pen: Pen,
}

impl View for TermGrid {
    type V = TermView;

    closed spec fn view(&self) -> TermView {
        TermView {
            cols: self.cols as int,
            rows: self.rows as int,
            screen: self.screen@.map_values(|r: Vec<Cell>| r@),
            history: self.history@.map_values(|r: Vec<Cell>| r@),
            offset: self.display_offset as int,
            cursor: self.cursor,
            pen: self.pen,
        }
    }
}

/// A copy of `src` with cells at indices `a <= i < b` blanked.
fn erased_row(src: &Vec<Cell>, a: usize, b: usize) -> (r: Vec<Cell>)
    ensures
        r@ == erase_row_range(src@, a as int, b as int),
{
    let blank = Cell {
        ch: ' ',
        fg: ColorRef::Foreground,
        bg: ColorRef::Background,
        flags: CellFlags::default(),
    };
    let n = src.len();
    let mut r: Vec<Cell> = Vec::new();
    let mut i: usize = 0;
    while i < n
        invariant
            i <= n,
            n == src@.len(),
            blank == blank_cell(),
            r@ =~= erase_row_range(src@, a as int, b as int).take(i as int),
        decreases n - i,
    {
        if a <= i && i < b {
            r.push(blank);
        } else {
            r.push(src[i]);
        }
        proof {
            assert(r@ =~= erase_row_range(src@, a as int, b as int).take(i as int + 1));
        }
        i += 1;
    }
    proof {
        assert(r@ =~= erase_row_range(src@, a as int, b as int));
    }
    r
}

/// A copy of `src` fitted to width `c`: truncated or blank-padded.
fn fitted_row(src: &Vec<Cell>, c: u16) -> (r: Vec<Cell>)
    ensures
        r@ == fit_line(src@, c as int),
{
    let blank = Cell {
        ch: ' ',
        fg: ColorRef::Foreground,
        bg: ColorRef::Background,
        flags: CellFlags::default(),
    };
    let n = src.len();
    let mut r: Vec<Cell> = Vec::new();
    let mut i: usize = 0;
    while i < c as usize
        invariant
            i <= c as usize,
            n == src@.len(),
            blank == blank_cell(),
            r@ =~= fit_line(src@, c as int).take(i as int),
        decreases c as usize - i,
    {
        if i < n {
            r.push(src[i]);
        } else {
            r.push(blank);
        }
        proof {
            assert(r@ =~= fit_line(src@, c as int).take(i as int + 1));
        }
        i += 1;
    }
    proof {
        assert(r@ =~= fit_line(src@, c as int));
    }
    r
}

/// A freshly built row of blank cells.
fn make_blank_row(cols: u16) -> (r: Vec<Cell>)
    ensures
        r@ == blank_line(cols as int),
{
    let blank = Cell {
        ch: ' ',
        fg: ColorRef::Foreground,
        bg: ColorRef::Background,
        flags: CellFlags::default(),
    };
    let mut r: Vec<Cell> = Vec::new();
    let mut i: u16 = 0;
    while i < cols
        invariant
            i <= cols,
            blank == blank_cell(),
            r@ =~= blank_line(i as int),
        decreases cols - i,
    {
        r.push(blank);
        proof {
            assert(r@ =~= blank_line(i as int + 1));
        }
        i += 1;
    }
    proof {
        assert(r@ =~= blank_line(cols as int));
    }
    r
}

impl TermGrid {
    /// Well-formedness of this grid.
    pub open spec fn wf(self) -> bool {
        view_wf(self@)
    }

    /// A fresh grid: all cells blank, no history, viewport at the
    /// bottom, a visible block cursor at the origin, the default pen.
    pub fn new(cols: u16, rows: u16) -> (g: TermGrid)
        requires
            cols >= 1,
            rows >= 1,
        ensures
            g.wf(),
            g@.cols == cols,
            g@.rows == rows,
            g@.screen == Seq::new(rows as nat, |i: int| blank_line(cols as int)),
            g@.history == Seq::<Seq<Cell>>::empty(),
            g@.offset == 0,
            g@.cursor == (Cursor {
                row: 0,
                col: 0,
                visible: true,
                shape: CursorShape::Block,
                wrap: false,
            }),
            g@.pen == default_pen(),
    {
        let mut screen: Vec<Vec<Cell>> = Vec::new();
        let mut i: u16 = 0;
        while i < rows
            invariant
                i <= rows,
                screen@.len() == i,
                forall|j: int| 0 <= j < i ==> (#[trigger] screen@[j])@ == blank_line(cols as int),
            decreases rows - i,
        {
            screen.push(make_blank_row(cols));
            i += 1;
        }
        let g = TermGrid {
            cols,
            rows,
            screen,
            history: Vec::new(),
            display_offset: 0,
            cursor: Cursor { row: 0, col: 0, visible: true, shape: CursorShape::Block, wrap: false },
            pen: Pen { fg: ColorRef::Foreground, bg: ColorRef::Background, flags: CellFlags::default() },
        };
        proof {
            assert(g@.screen =~~= Seq::new(rows as nat, |i: int| blank_line(cols as int)));
            assert(g@.history =~~= Seq::<Seq<Cell>>::empty());
        }
        g
    }

    /// Move the cursor back to the first column.
    pub fn carriage_return(&mut self)
        requires
            old(self).wf(),
        ensures
            final(self).wf(),
            final(self)@ == carriage_return_tv(old(self)@),
    {
        self.cursor.col = 0;
        self.cursor.wrap = false;
    }

    /// Move the cursor one column left, stopping at the first column.
    pub fn backspace(&mut self)
        requires
            old(self).wf(),
        ensures
            final(self).wf(),
            final(self)@ == backspace_tv(old(self)@),
    {
        if self.cursor.col > 0 {
            self.cursor.col = self.cursor.col - 1;
        }
        self.cursor.wrap = false;
    }

    /// Move the cursor to the next tab stop (every eight columns),
    /// stopping at the last column.
    pub fn tab(&mut self)
        requires
            old(self).wf(),
        ensures
            final(self).wf(),
            final(self)@ == tab_tv(old(self)@),
    {
        let stop: u32 = (self.cursor.col as u32 / 8 + 1) * 8;
        if stop < self.cols as u32 {
            self.cursor.col = stop as u16;
        } else {
            self.cursor.col = self.cols - 1;
        }
        self.cursor.wrap = false;
    }

    /// Scroll the content up one line, keeping the top line as history.
    fn scroll_up_one(&mut self)
        requires
            old(self).wf(),
        ensures
            final(self).wf(),
            final(self)@ == scrolled_up(old(self)@),
    {
        if self.history.len() >= SCROLLBACK_MAX {
            self.history.remove(0);
        }
        let top = self.screen.remove(0);
        self.history.push(top);
        let blank = make_blank_row(self.cols);
        self.screen.push(blank);
        proof {
            assert(self@ =~~= scrolled_up(old(self)@));
        }
    }

    /// A line feed: down one row, scrolling at the bottom.
    pub fn line_feed(&mut self)
        requires
            old(self).wf(),
        ensures
            final(self).wf(),
            final(self)@ == line_feed_tv(old(self)@),
    {
        if self.cursor.row + 1 < self.rows {
            self.cursor.row = self.cursor.row + 1;
            self.cursor.wrap = false;
        } else {
            self.scroll_up_one();
            self.cursor.wrap = false;
            proof {
                assert(self@ =~~= line_feed_tv(old(self)@));
            }
        }
    }

    /// Print one character at the cursor with the current pen.
    pub fn put_char(&mut self, ch: char)
        requires
            old(self).wf(),
        ensures
            final(self).wf(),
            final(self)@ == put_char_tv(old(self)@, ch),
    {
        if self.cursor.wrap {
            self.line_feed();
            self.cursor.col = 0;
        }
        let cell = Cell { ch, fg: self.pen.fg, bg: self.pen.bg, flags: self.pen.flags };
        let r = self.cursor.row as usize;
        let c = self.cursor.col as usize;
        self.screen[r][c] = cell;
        proof {
            let v1 = if old(self)@.cursor.wrap {
                let lf = line_feed_tv(old(self)@);
                TermView { cursor: Cursor { col: 0, ..lf.cursor }, ..lf }
            } else {
                old(self)@
            };
            assert(self@ =~~= with_cell(v1, v1.cursor.row as int, v1.cursor.col as int, cell));
        }
        if self.cursor.col + 1 < self.cols {
            self.cursor.col = self.cursor.col + 1;
            self.cursor.wrap = false;
        } else {
            self.cursor.wrap = true;
        }
        proof {
            assert(self@ =~~= put_char_tv(old(self)@, ch));
        }
    }

    /// The stored cell at `(row, col)` of the live screen, colors
    /// still symbolic.
    pub fn cell(&self, row: u16, col: u16) -> (c: Cell)
        requires
            self.wf(),
            row < self@.rows,
            col < self@.cols,
        ensures
            c == self@.screen[row as int][col as int],
    {
        self.screen[row as usize][col as usize]
    }

    /// The grid's width.
    pub fn cols(&self) -> (c: u16)
        ensures
            c == self@.cols,
    {
        self.cols
    }

    /// The grid's height.
    pub fn rows(&self) -> (r: u16)
        ensures
            r == self@.rows,
    {
        self.rows
    }

    /// The cursor state.
    pub fn cursor(&self) -> (c: Cursor)
        ensures
            c == self@.cursor,
    {
        self.cursor
    }

    /// The current pen.
    pub fn pen(&self) -> (p: Pen)
        ensures
            p == self@.pen,
    {
        self.pen
    }

    /// Replace the pen used for newly printed characters.
    pub fn set_pen(&mut self, pen: Pen)
        requires
            old(self).wf(),
        ensures
            final(self).wf(),
            final(self)@ == (TermView { pen, ..old(self)@ }),
    {
        self.pen = pen;
    }

    /// Show or hide the cursor.
    pub fn set_cursor_visible(&mut self, visible: bool)
        requires
            old(self).wf(),
        ensures
            final(self).wf(),
            final(self)@ == (TermView {
                cursor: Cursor { visible, ..old(self)@.cursor },
                ..old(self)@
            }),
    {
        self.cursor.visible = visible;
    }

    /// Select the cursor shape.
    pub fn set_cursor_shape(&mut self, shape: CursorShape)
        requires
            old(self).wf(),
        ensures
            final(self).wf(),
            final(self)@ == (TermView { cursor: Cursor { shape, ..old(self)@.cursor }, ..old(self)@ }),
    {
        self.cursor.shape = shape;
    }

    /// Move the cursor to `(row, col)`, clamped into the bounds; the
    /// wrap flag clears.
    pub fn move_to(&mut self, row: u16, col: u16)
        requires
            old(self).wf(),
        ensures
            final(self).wf(),
            final(self)@ == move_to_tv(old(self)@, row, col),
    {
        self.cursor.row = if row < self.rows {
            row
        } else {
            self.rows - 1
        };
        self.cursor.col = if col < self.cols {
            col
        } else {
            self.cols - 1
        };
        self.cursor.wrap = false;
    }

    /// Move the cursor `n` rows up, stopping at the top.
    pub fn cursor_up(&mut self, n: u16)
        requires
            old(self).wf(),
        ensures
            final(self).wf(),
            final(self)@ == cursor_up_tv(old(self)@, n),
    {
        self.cursor.row = if n <= self.cursor.row {
            self.cursor.row - n
        } else {
            0
        };
        self.cursor.wrap = false;
    }

    /// Move the cursor `n` rows down, stopping at the bottom.
    pub fn cursor_down(&mut self, n: u16)
        requires
            old(self).wf(),
        ensures
            final(self).wf(),
            final(self)@ == cursor_down_tv(old(self)@, n),
    {
        let target: u32 = self.cursor.row as u32 + n as u32;
        self.cursor.row = if target < self.rows as u32 {
            target as u16
        } else {
            self.rows - 1
        };
        self.cursor.wrap = false;
    }

    /// Move the cursor `n` columns right, stopping at the last column.
    pub fn cursor_forward(&mut self, n: u16)
        requires
            old(self).wf(),
        ensures
            final(self).wf(),
            final(self)@ == cursor_forward_tv(old(self)@, n),
    {
        let target: u32 = self.cursor.col as u32 + n as u32;
        self.cursor.col = if target < self.cols as u32 {
            target as u16
        } else {
            self.cols - 1
        };
        self.cursor.wrap = false;
    }

    /// Move the cursor `n` columns left, stopping at the first column.
    pub fn cursor_back(&mut self, n: u16)
        requires
            old(self).wf(),
        ensures
            final(self).wf(),
            final(self)@ == cursor_back_tv(old(self)@, n),
    {
        self.cursor.col = if n <= self.cursor.col {
            self.cursor.col - n
        } else {
            0
        };
        self.cursor.wrap = false;
    }

    /// Erase within the cursor's line; see [`erase_line_tv`].
    pub fn erase_line(&mut self, mode: u16)
        requires
            old(self).wf(),
        ensures
            final(self).wf(),
            final(self)@ == erase_line_tv(old(self)@, mode),
    {
        let r = self.cursor.row as usize;
        let cols = self.cols as usize;
        proof {
            assert(old(self)@.screen[r as int].len() == old(self)@.cols);
        }
        if mode == 0 {
            let nr = erased_row(&self.screen[r], self.cursor.col as usize, cols);
            self.screen[r] = nr;
            proof {
                assert(self@.screen =~~= old(self)@.screen.update(r as int, nr@));
            }
        } else if mode == 1 {
            let nr = erased_row(&self.screen[r], 0, self.cursor.col as usize + 1);
            self.screen[r] = nr;
            proof {
                assert(self@.screen =~~= old(self)@.screen.update(r as int, nr@));
            }
        } else if mode == 2 {
            let nr = erased_row(&self.screen[r], 0, cols);
            self.screen[r] = nr;
            proof {
                assert(self@.screen =~~= old(self)@.screen.update(r as int, nr@));
            }
        }
        proof {
            assert(self@ =~~= erase_line_tv(old(self)@, mode));
        }
    }

    /// Erase within the screen; see [`erase_display_tv`].
    #[verifier::loop_isolation(false)]
    pub fn erase_display(&mut self, mode: u16)
        requires
            old(self).wf(),
        ensures
            final(self).wf(),
            final(self)@ == erase_display_tv(old(self)@, mode),
    {
        let r = self.cursor.row as usize;
        let rows = self.rows as usize;
        let cols = self.cols as usize;
        proof {
            assert(old(self)@.screen[r as int].len() == old(self)@.cols);
        }
        if mode == 0 {
            let nr = erased_row(&self.screen[r], self.cursor.col as usize, cols);
            self.screen[r] = nr;
            proof {
                assert(self@.screen =~~= old(self)@.screen.update(r as int, nr@));
            }
            let mut i = r + 1;
            while i < rows
                invariant
                    r < i <= rows,
                    self.wf(),
                    rows == self@.rows,
                    r == self@.cursor.row,
                    self@.cols == old(self)@.cols,
                    self@.history == old(self)@.history,
                    self@.offset == old(self)@.offset,
                    self@.cursor == old(self)@.cursor,
                    self@.pen == old(self)@.pen,
                    forall|j: int|
                        0 <= j < i ==> self@.screen[j] == erase_display_tv(old(self)@, 0).screen[j],
                    forall|j: int| i <= j < rows ==> self@.screen[j] == old(self)@.screen[j],
                decreases rows - i,
            {
                let blank = make_blank_row(self.cols);
                let ghost sv = self@.screen;
                self.screen[i] = blank;
                proof {
                    assert(self@.screen =~~= sv.update(i as int, blank_line(self@.cols)));
                }
                i += 1;
            }
        } else if mode == 1 {
            let nr = erased_row(&self.screen[r], 0, self.cursor.col as usize + 1);
            self.screen[r] = nr;
            proof {
                assert(self@.screen =~~= old(self)@.screen.update(r as int, nr@));
            }
            let mut i: usize = 0;
            while i < r
                invariant
                    i <= r < rows,
                    self.wf(),
                    rows == self@.rows,
                    r == self@.cursor.row,
                    self@.cols == old(self)@.cols,
                    self@.history == old(self)@.history,
                    self@.offset == old(self)@.offset,
                    self@.cursor == old(self)@.cursor,
                    self@.pen == old(self)@.pen,
                    self@.screen[r as int] == erase_display_tv(old(self)@, 1).screen[r as int],
                    forall|j: int|
                        0 <= j < i ==> self@.screen[j] == erase_display_tv(old(self)@, 1).screen[j],
                    forall|j: int|
                        i <= j < rows && j != r ==> self@.screen[j] == old(self)@.screen[j],
                decreases r - i,
            {
                let blank = make_blank_row(self.cols);
                let ghost sv = self@.screen;
                self.screen[i] = blank;
                proof {
                    assert(self@.screen =~~= sv.update(i as int, blank_line(self@.cols)));
                }
                i += 1;
            }
        } else if mode == 2 {
            let mut i: usize = 0;
            while i < rows
                invariant
                    i <= rows,
                    self.wf(),
                    rows == self@.rows,
                    self@.cols == old(self)@.cols,
                    self@.history == old(self)@.history,
                    self@.offset == old(self)@.offset,
                    self@.cursor == old(self)@.cursor,
                    self@.pen == old(self)@.pen,
                    forall|j: int|
                        0 <= j < i ==> self@.screen[j] == erase_display_tv(old(self)@, 2).screen[j],
                    forall|j: int| i <= j < rows ==> self@.screen[j] == old(self)@.screen[j],
                decreases rows - i,
            {
                let blank = make_blank_row(self.cols);
                let ghost sv = self@.screen;
                self.screen[i] = blank;
                proof {
                    assert(self@.screen =~~= sv.update(i as int, blank_line(self@.cols)));
                }
                i += 1;
            }
        }
        proof {
            assert(self@ =~~= erase_display_tv(old(self)@, mode));
        }
    }

    /// Resize to `cols x rows`; see [`resize_tv`] for the policy.
    #[verifier::loop_isolation(false)]
    pub fn resize(&mut self, cols: u16, rows: u16)
        requires
            old(self).wf(),
            cols >= 1,
            rows >= 1,
        ensures
            final(self).wf(),
            final(self)@ == resize_tv(old(self)@, cols as int, rows as int),
    {
        let ghost target = resize_tv(old(self)@, cols as int, rows as int);
        // fit the existing screen lines to the new width
        let old_rows = self.screen.len();
        let mut i: usize = 0;
        while i < old_rows
            invariant
                i <= old_rows,
                old_rows == old(self)@.screen.len(),
                self@.screen.len() == old_rows,
                self@.cols == old(self)@.cols,
                self@.rows == old(self)@.rows,
                self@.history == old(self)@.history,
                self@.offset == old(self)@.offset,
                self@.cursor == old(self)@.cursor,
                self@.pen == old(self)@.pen,
                forall|j: int|
                    0 <= j < i ==> self@.screen[j] == fit_line(old(self)@.screen[j], cols as int),
                forall|j: int| i <= j < old_rows ==> self@.screen[j] == old(self)@.screen[j],
            decreases old_rows - i,
        {
            let nr = fitted_row(&self.screen[i], cols);
            let ghost sv = self@.screen;
            self.screen[i] = nr;
            proof {
                assert(self@.screen =~~= sv.update(i as int, nr@));
            }
            i += 1;
        }
        // adjust the row count: drop from the bottom, or pad with blanks
        if (rows as usize) < old_rows {
            let ghost sv = self@.screen;
            self.screen.truncate(rows as usize);
            proof {
                assert(self@.screen =~~= sv.take(rows as int));
                assert(self@.screen =~~= target.screen);
            }
        } else {
            let mut i = old_rows;
            while i < rows as usize
                invariant
                    old_rows <= i <= rows as usize,
                    self@.screen.len() == i,
                    self@.cols == old(self)@.cols,
                    self@.rows == old(self)@.rows,
                    self@.history == old(self)@.history,
                    self@.offset == old(self)@.offset,
                    self@.cursor == old(self)@.cursor,
                    self@.pen == old(self)@.pen,
                    forall|j: int|
                        0 <= j < old_rows ==> self@.screen[j] == fit_line(
                            old(self)@.screen[j],
                            cols as int,
                        ),
                    forall|j: int|
                        old_rows <= j < i ==> self@.screen[j] == blank_line(cols as int),
                decreases rows as usize - i,
            {
                let blank = make_blank_row(cols);
                let ghost sv = self@.screen;
                self.screen.push(blank);
                proof {
                    assert(self@.screen =~~= sv.push(blank_line(cols as int)));
                }
                i += 1;
            }
            proof {
                assert(self@.screen =~~= target.screen);
            }
        }
        // fit the history lines to the new width
        let hist = self.history.len();
        let mut i: usize = 0;
        while i < hist
            invariant
                i <= hist,
                hist == old(self)@.history.len(),
                self@.history.len() == hist,
                self@.screen == target.screen,
                self@.cols == old(self)@.cols,
                self@.rows == old(self)@.rows,
                self@.offset == old(self)@.offset,
                self@.cursor == old(self)@.cursor,
                self@.pen == old(self)@.pen,
                forall|j: int|
                    0 <= j < i ==> self@.history[j] == fit_line(old(self)@.history[j], cols as int),
                forall|j: int| i <= j < hist ==> self@.history[j] == old(self)@.history[j],
            decreases hist - i,
        {
            let nr = fitted_row(&self.history[i], cols);
            let ghost sv = self@.history;
            self.history[i] = nr;
            proof {
                assert(self@.history =~~= sv.update(i as int, nr@));
            }
            i += 1;
        }
        // clamp the cursor and store the new dimensions
        self.cols = cols;
        self.rows = rows;
        if self.cursor.row >= rows {
            self.cursor.row = rows - 1;
        }
        if self.cursor.col >= cols {
            self.cursor.col = cols - 1;
        }
        self.cursor.wrap = false;
        proof {
            assert(self@ =~~= target);
        }
    }

    /// Move the viewport `delta` lines further into history (negative:
    /// toward the live screen), clamped to the available history.
    pub fn scroll_display(&mut self, delta: i32)
        requires
            old(self).wf(),
        ensures
            final(self).wf(),
            final(self)@ == scroll_display_tv(old(self)@, delta as int),
    {
        let hist = self.history.len();
        if delta >= 0 {
            let d = delta as usize;
            self.display_offset = if d > hist - self.display_offset {
                hist
            } else {
                self.display_offset + d
            };
        } else {
            let d = (-(delta as i64)) as usize;
            self.display_offset = if d > self.display_offset {
                0
            } else {
                self.display_offset - d
            };
        }
    }

    /// Bring the viewport back to the live screen.
    pub fn scroll_to_bottom(&mut self)
        requires
            old(self).wf(),
        ensures
            final(self).wf(),
            final(self)@ == (TermView { offset: 0, ..old(self)@ }),
    {
        self.display_offset = 0;
    }

    /// The line shown at screen position `r` under the current
    /// viewport offset.
    pub fn visible_row(&self, r: u16) -> (line: &Vec<Cell>)
        requires
            self.wf(),
            r < self@.rows,
        ensures
            line@ == visible_line(self@, r as int),
    {
        let off = self.display_offset;
        if (r as usize) < off {
            let hl = self.history.len();
            &self.history[hl - off + r as usize]
        } else {
            &self.screen[r as usize - off]
        }
    }
}

} // verus!
