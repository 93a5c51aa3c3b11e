//! Terminal text selection: a pair of grid positions driven by the
//! pointer, with normalized containment tests and text extraction from
//! a grid snapshot.

use vstd::prelude::*;
use crate::terminal::{CellInfo, TerminalGrid};
use crate::text::push_char;

verus! {

/// Whether position `a` comes no later than `b` in reading order:
/// an earlier row, or the same row and no greater column.
pub open spec fn pos_le(a: (u16, u16), b: (u16, u16)) -> bool {
    a.0 < b.0 || (a.0 == b.0 && a.1 <= b.1)
}

/// Whether `(row, col)` lies in the normalized range from `s` to `e`
/// (so `pos_le(s, e)` is expected): within the rows; at or past the
/// start column on the first row; at or before the end column on the
/// last row; anywhere on the rows between.
pub open spec fn range_contains(s: (u16, u16), e: (u16, u16), row: u16, col: u16) -> bool
    recommends
        pos_le(s, e),
{
    &&& s.0 <= row <= e.0
    &&& (row > s.0 || col >= s.1)
    &&& (row < e.0 || col <= e.1)
}

/// What [`Selection::contains`] returns: with both endpoints set, the
/// range between them after normalization; otherwise nothing.
pub open spec fn sel_contains(sel: Selection, row: u16, col: u16) -> bool {
    match (sel.start, sel.end) {
        (Some(s), Some(e)) => if pos_le(s, e) {
            range_contains(s, e, row, col)
        } else {
            range_contains(e, s, row, col)
        },
        _ => false,
    }
}

/// The first cell recorded for `(row, col)` in a snapshot's cell list.
pub open spec fn cell_at(cells: Seq<CellInfo>, row: u16, col: int) -> Option<CellInfo>
    decreases cells.len(),
{
    if cells.len() == 0 {
        None
    } else if cells[0].row == row && cells[0].col == col {
        Some(cells[0])
    } else {
        cell_at(cells.drop_first(), row, col)
    }
}

/// The text one grid position contributes: the recorded cell's content,
/// or a single space where no cell is recorded.
pub open spec fn cell_text(cells: Seq<CellInfo>, row: u16, col: int) -> Seq<char> {
    match cell_at(cells, row, col) {
        Some(c) => c.content@,
        None => seq![' '],
    }
}

/// The concatenated text of columns `c0..=c1` of `row`; empty when
/// `c0 > c1`.
pub open spec fn span_text(cells: Seq<CellInfo>, row: u16, c0: int, c1: int) -> Seq<char>
    decreases c1 - c0 + 1,
{
    if c0 > c1 {
        Seq::empty()
    } else {
        cell_text(cells, row, c0) + span_text(cells, row, c0 + 1, c1)
    }
}

/// `s` without its trailing spaces.
pub open spec fn trim_end_spaces(s: Seq<char>) -> Seq<char>
    decreases s.len(),
{
    if s.len() == 0 {
        s
    } else if s.last() == ' ' {
        trim_end_spaces(s.drop_last())
    } else {
        s
    }
}

/// The produced line for `row` of a normalized selection from `s` to
/// `e`: the selected span — from the start column on the first row,
/// to the end column on the last row, the full line width between —
/// with trailing spaces removed.
pub open spec fn line_text(
    cells: Seq<CellInfo>,
    cols: int,
    s: (u16, u16),
    e: (u16, u16),
    row: u16,
) -> Seq<char> {
    let c0: int = if row == s.0 {
        s.1 as int
    } else {
        0
    };
    let c1: int = if row == e.0 {
        e.1 as int
    } else {
        cols - 1
    };
    trim_end_spaces(span_text(cells, row, c0, c1))
}

/// The produced lines for rows `row..=e.0`, joined by line breaks with
/// no break after the last.
pub open spec fn rows_text(
    cells: Seq<CellInfo>,
    cols: int,
    s: (u16, u16),
    e: (u16, u16),
    row: int,
) -> Seq<char>
    decreases e.0 - row,
{
    if row >= e.0 {
        line_text(cells, cols, s, e, e.0)
    } else {
        line_text(cells, cols, s, e, row as u16) + seq!['\n'] + rows_text(cells, cols, s, e, row + 1)
    }
}

/// What [`Selection::get_text`] returns: with both endpoints set, the
/// normalized range's rows, each right-trimmed, joined by line breaks;
/// otherwise empty.
pub open spec fn sel_text(sel: Selection, cells: Seq<CellInfo>, cols: int) -> Seq<char> {
    match (sel.start, sel.end) {
        (Some(s0), Some(e0)) => {
            let s = if pos_le(s0, e0) {
                s0
            } else {
                e0
            };
            let e = if pos_le(s0, e0) {
                e0
            } else {
                s0
            };
            rows_text(cells, cols, s, e, s.0 as int)
        },
        _ => Seq::empty(),
    }
}

/// Selection state.
#[derive(Clone)]
pub struct Selection {
    /// Start position (row, col), where the selection was anchored.
    pub start: Option<(u16, u16)>,
    /// End position (row, col), where the pointer last moved to.
    pub end: Option<(u16, u16)>,
    /// Whether the selection is active (pointer button held).
    pub active: bool,
}

impl Default for Selection {
    /// An empty selection: no endpoints, not active.
    fn default() -> (s: Selection)
        ensures
            s == (Selection { start: None, end: None, active: false }),
    {
        Selection { start: None, end: None, active: false }
    }
}

impl Selection {
    /// Create a new empty selection.
    pub fn new() -> (s: Selection)
        ensures
            s == (Selection { start: None, end: None, active: false }),
    {
        Selection::default()
    }

    /// Start a new selection anchored at the given position: both
    /// endpoints move there and the selection becomes active.
    pub fn start_at(&mut self, row: u16, col: u16)
        ensures
            *final(self) == (Selection {
                start: Some((row, col)),
                end: Some((row, col)),
                active: true,
            }),
    {
        self.start = Some((row, col));
        self.end = Some((row, col));
        self.active = true;
    }

    /// Move the end position while the selection is active; without an
    /// active selection nothing changes.
    pub fn update_to(&mut self, row: u16, col: u16)
        ensures
            old(self).active ==> *final(self) == (Selection {
                start: old(self).start,
                end: Some((row, col)),
                active: true,
            }),
            !old(self).active ==> *final(self) == *old(self),
    {
        if self.active {
            self.end = Some((row, col));
        }
    }

    /// Complete the selection: it stops tracking the pointer but keeps
    /// its range, so the text stays available for copying.
    pub fn complete(&mut self)
        ensures
            *final(self) == (Selection { start: old(self).start, end: old(self).end, active: false }),
    {
        self.active = false;
    }

    /// Discard the selection entirely.
    pub fn clear(&mut self)
        ensures
            *final(self) == (Selection { start: None, end: None, active: false }),
    {
        self.start = None;
        self.end = None;
        self.active = false;
    }

    /// Whether the given position lies within the selection, treating
    /// whichever endpoint comes first in reading order as the start.
    pub fn contains(&self, row: u16, col: u16) -> (r: bool)
        ensures
            r == sel_contains(*self, row, col),
    {
        let (s, e) = match (self.start, self.end) {
            (Some(s), Some(e)) => (s, e),
            _ => {
                return false;
            },
        };

        let (s, e) = if s.0 < e.0 || (s.0 == e.0 && s.1 <= e.1) {
            (s, e)
        } else {
            (e, s)
        };

        if row < s.0 || row > e.0 {
            return false;
        }

        if row == s.0 && row == e.0 {
            col >= s.1 && col <= e.1
        } else if row == s.0 {
            col >= s.1
        } else if row == e.0 {
            col <= e.1
        } else {
            true
        }
    }

    /// Extract the selected text from a grid snapshot: the normalized
    /// range's rows one after another, a line break between rows but
    /// not after the last, a single space standing in for positions
    /// with no recorded cell, and trailing spaces removed from every
    /// produced line. Without both endpoints the text is empty.
    pub fn get_text(&self, grid: &TerminalGrid) -> (r: String)
        ensures
            r@ == sel_text(*self, grid.cells@, grid.cols as int),
    {
        let (a, b) = match (self.start, self.end) {
            (Some(a), Some(b)) => (a, b),
            _ => {
                return String::new();
            },
        };

        let (s, e) = if a.0 < b.0 || (a.0 == b.0 && a.1 <= b.1) {
            (a, b)
        } else {
            (b, a)
        };

        let mut out = String::new();
        let mut row = s.0;
        loop
            invariant_except_break
                s.0 <= row <= e.0,
                pos_le(s, e),
                sel_text(*self, grid.cells@, grid.cols as int) == rows_text(
                    grid.cells@,
                    grid.cols as int,
                    s,
                    e,
                    s.0 as int,
                ),
                out@ + rows_text(grid.cells@, grid.cols as int, s, e, row as int) == rows_text(
                    grid.cells@,
                    grid.cols as int,
                    s,
                    e,
                    s.0 as int,
                ),
            ensures
                out@ == sel_text(*self, grid.cells@, grid.cols as int),
            decreases e.0 - row,
        {
            let ghost out0 = out@;
            let line = line_chars(&grid.cells, grid.cols, s, e, row);
            append_chars(&mut out, &line);
            if row == e.0 {
                proof {
                    assert(out@ =~= out0 + rows_text(
                        grid.cells@,
                        grid.cols as int,
                        s,
                        e,
                        row as int,
                    ));
                }
                break;
            }
            push_char(&mut out, '\n');
            proof {
                assert(out@ + rows_text(grid.cells@, grid.cols as int, s, e, row as int + 1) =~= out0
                    + rows_text(grid.cells@, grid.cols as int, s, e, row as int));
            }
            row += 1;
        }
        out
    }

    /// Whether both endpoints are set, active or not.
    pub fn has_selection(&self) -> (r: bool)
        ensures
            r == (self.start is Some && self.end is Some),
    {
        self.start.is_some() && self.end.is_some()
    }
}

/// The first cell recorded for `(row, col)`, scanning the list in order.
fn find_cell<'a>(cells: &'a Vec<CellInfo>, row: u16, col: usize) -> (r: Option<&'a CellInfo>)
    ensures
        (match r {
            Some(c) => cell_at(cells@, row, col as int) == Some(*c),
            None => cell_at(cells@, row, col as int) is None,
        }),
{
    let n = cells.len();
    let mut i: usize = 0;
    proof {
        assert(cells@.skip(0) =~= cells@);
    }
    while i < n
        invariant
            i <= n,
            n == cells@.len(),
            cell_at(cells@, row, col as int) == cell_at(cells@.skip(i as int), row, col as int),
        decreases n - i,
    {
        let c = &cells[i];
        proof {
            assert(cells@.skip(i as int)[0] == cells@[i as int]);
        }
        if c.row == row && c.col as usize == col {
            return Some(c);
        }
        proof {
            assert(cells@.skip(i as int).drop_first() =~= cells@.skip(i as int + 1));
        }
        i += 1;
    }
    None
}

/// Append the content of the cell recorded at `(row, col)`, or one
/// space when no cell is recorded there.
fn push_cell_text(line: &mut Vec<char>, cells: &Vec<CellInfo>, row: u16, col: usize)
    ensures
        final(line)@ == old(line)@ + cell_text(cells@, row, col as int),
{
    match find_cell(cells, row, col) {
        Some(cell) => {
            let text = cell.content.as_str();
            let n = text.unicode_len();
            let mut i: usize = 0;
            while i < n
                invariant
                    i <= n,
                    n == text@.len(),
                    cell_text(cells@, row, col as int) == text@,
                    line@ == old(line)@ + text@.subrange(0, i as int),
                decreases n - i,
            {
                line.push(text.get_char(i));
                proof {
                    assert(line@ =~= old(line)@ + text@.subrange(0, i as int + 1));
                }
                i += 1;
            }
            proof {
                assert(text@.subrange(0, n as int) =~= text@);
            }
        },
        None => {
            line.push(' ');
            proof {
                assert(line@ =~= old(line)@ + seq![' ']);
            }
        },
    }
}

/// Build the produced line for `row` of the normalized range from `s`
/// to `e`: walk the selected span, then strip trailing spaces.
fn line_chars(cells: &Vec<CellInfo>, cols: usize, s: (u16, u16), e: (u16, u16), row: u16) -> (r:
    Vec<char>)
    requires
        s.0 <= row <= e.0,
    ensures
        r@ == line_text(cells@, cols as int, s, e, row),
{
    let ghost c0g: int = if row == s.0 {
        s.1 as int
    } else {
        0
    };
    let ghost c1g: int = if row == e.0 {
        e.1 as int
    } else {
        cols - 1
    };

    let mut line: Vec<char> = Vec::new();
    let c0: usize = if row == s.0 {
        s.1 as usize
    } else {
        0
    };
    let (have_span, c1): (bool, usize) = if row == e.0 {
        (c0 <= e.1 as usize, e.1 as usize)
    } else if cols >= 1 && c0 <= cols - 1 {
        (true, cols - 1)
    } else {
        (false, 0)
    };
    proof {
        assert(have_span <==> c0g <= c1g);
        assert(have_span ==> c0 == c0g && c1 == c1g);
    }

    if have_span {
        let mut col = c0;
        while col <= c1
            invariant
                c0 <= col,
                col <= c1 + 1,
                c1 < usize::MAX,
                c0 == c0g,
                c1 == c1g,
                line@ + span_text(cells@, row, col as int, c1 as int) == span_text(
                    cells@,
                    row,
                    c0 as int,
                    c1 as int,
                ),
            decreases c1 + 1 - col,
        {
            let ghost line0 = line@;
            push_cell_text(&mut line, cells, row, col);
            proof {
                assert(line@ + span_text(cells@, row, col as int + 1, c1 as int) =~= line0
                    + span_text(cells@, row, col as int, c1 as int));
            }
            col += 1;
        }
    }
    proof {
        assert(line@ == span_text(cells@, row, c0g, c1g));
    }

    while line.len() > 0 && line[line.len() - 1] == ' '
        invariant
            trim_end_spaces(line@) == trim_end_spaces(span_text(cells@, row, c0g, c1g)),
        decreases line.len(),
    {
        let ghost line0 = line@;
        line.pop();
        proof {
            assert(line@ =~= line0.drop_last());
        }
    }
    line
}

/// Append every character of `chars` to `s`.
fn append_chars(s: &mut String, chars: &Vec<char>)
    ensures
        final(s)@ == old(s)@ + chars@,
{
    let n = chars.len();
    let mut i: usize = 0;
    while i < n
        invariant
            i <= n,
            n == chars@.len(),
            s@ == old(s)@ + chars@.subrange(0, i as int),
        decreases n - i,
    {
        push_char(s, chars[i]);
        proof {
            assert(s@ =~= old(s)@ + chars@.subrange(0, i as int + 1));
        }
        i += 1;
    }
    proof {
        assert(chars@.subrange(0, n as int) =~= chars@);
    }
}

/// Containment does not depend on which endpoint was the anchor:
/// a selection anchored at `a` and extended to `b` contains exactly
/// the positions of one anchored at `b` and extended to `a`.
pub proof fn lemma_selection_normalization(a: (u16, u16), b: (u16, u16), row: u16, col: u16)
    ensures
        sel_contains(Selection { start: Some(a), end: Some(b), active: false }, row, col)
            == sel_contains(Selection { start: Some(b), end: Some(a), active: false }, row, col),
{
}

} // verus!
