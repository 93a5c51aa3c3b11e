//! The shapes a renderer consumes: a point-in-time snapshot of the
//! grid with resolved colors, cursor information, and the out-of-band
//! events a terminal session reports.

use vstd::prelude::*;

verus! {

/// A point-in-time copy of the visible terminal screen, for rendering.
#[derive(Clone)]
pub struct TerminalGrid {
    /// All cells in the visible area.
    pub cells: Vec<CellInfo>,
    /// Cursor information.
    pub cursor: CursorInfo,
    /// Number of columns.
    pub cols: usize,
    /// Number of rows.
    pub rows: usize,
}

impl Default for TerminalGrid {
    /// An empty snapshot: no cells, zero size, default cursor.
    fn default() -> (g: TerminalGrid)
        ensures
            g.cells@.len() == 0,
            g.cursor == default_cursor(),
            g.cols == 0,
            g.rows == 0,
    {
        TerminalGrid { cells: Vec::new(), cursor: CursorInfo::default(), cols: 0, rows: 0 }
    }
}

/// One cell of a snapshot, with its colors already resolved against the
/// scheme that was active when the snapshot was taken.
#[derive(Clone)]
pub struct CellInfo {
    /// Row position.
    pub row: u16,
    /// Column position.
    pub col: u16,
    /// Character content.
    pub content: String,
    /// Foreground color.
    pub fg: crate::color::Rgb,
    /// Background color.
    pub bg: crate::color::Rgb,
    /// Cell flags (bold, italic, underline, and the rest).
    pub flags: CellFlags,
}

/// The style flags a cell can carry.
#[derive(Clone, Copy, Debug, PartialEq, Eq, Structural)]
pub struct CellFlags {
    pub bold: bool,
    pub italic: bool,
    pub underline: bool,
    pub strikethrough: bool,
    pub inverse: bool,
    pub hidden: bool,
}

/// The value [`CellFlags::default`] returns: every flag off.
pub open spec fn default_flags() -> CellFlags {
    CellFlags {
        bold: false,
        italic: false,
        underline: false,
        strikethrough: false,
        inverse: false,
        hidden: false,
    }
}

impl Default for CellFlags {
    fn default() -> (f: CellFlags)
        ensures
            f == default_flags(),
    {
        CellFlags {
            bold: false,
            italic: false,
            underline: false,
            strikethrough: false,
            inverse: false,
            hidden: false,
        }
    }
}

/// Cursor position, visibility and shape.
#[derive(Clone, Copy, Debug, PartialEq, Eq, Structural)]
pub struct CursorInfo {
    /// Row position.
    pub row: u16,
    /// Column position.
    pub col: u16,
    /// Whether the cursor is visible.
    pub visible: bool,
    /// Cursor shape.
    pub shape: CursorShape,
}

/// The value [`CursorInfo::default`] returns: hidden block at the origin.
pub open spec fn default_cursor() -> CursorInfo {
    CursorInfo { row: 0, col: 0, visible: false, shape: CursorShape::Block }
}

impl Default for CursorInfo {
    fn default() -> (c: CursorInfo)
        ensures
            c == default_cursor(),
    {
        CursorInfo { row: 0, col: 0, visible: false, shape: CursorShape::Block }
    }
}

/// The shape a terminal cursor is drawn with.
#[derive(Clone, Copy, Debug, PartialEq, Eq, Structural)]
pub enum CursorShape {
    Block,
    Underline,
    Beam,
}

impl Default for CursorShape {
    fn default() -> (s: CursorShape)
        ensures
            s == CursorShape::Block,
    {
        CursorShape::Block
    }
}

/// An out-of-band event a terminal session reports, in arrival order.
#[derive(Clone, Debug)]
pub enum TerminalEvent {
    /// The terminal title changed.
    Title(String),
    /// The bell rang.
    Bell,
    /// The session's process exited.
    Exit,
    /// The application asked to store text on the clipboard.
    ClipboardStore(String),
    /// The application asked to read the clipboard.
    ClipboardLoad,
}

} // verus!
