//! The terminal session state machine: one VT interpreter over one
//! grid, an ordered queue of out-of-band events, the active color
//! scheme, and the session-ended flag.
//!
//! This is the computing half of a terminal manager. The half that
//! touches the operating system — opening the PTY, the blocking read
//! loop, writing to the child — lives with the caller, which feeds
//! every byte the PTY produced through [`TerminalManager::feed`], in
//! order, and reports end-of-stream through
//! [`TerminalManager::handle_eof`].
//!
//! The byte-level escape-sequence state machine is internal; each
//! state change it performs goes through the exactly-specified grid
//! operations of [`crate::term`]. Unrecognized or malformed sequences
//! are consumed without effect. Events are queued in arrival order and
//! never delivered reentrantly; [`TerminalManager::poll_events`]
//! drains them.

use vstd::prelude::*;
use crate::color::{dark_scheme, resolve_spec, ColorRef, ColorScheme, Rgb};
use crate::term::{
    backspace_tv, blank_line, carriage_return_tv, cursor_back_tv, cursor_down_tv,
    cursor_forward_tv, cursor_up_tv, default_pen, erase_display_tv, erase_line_tv, line_feed_tv,
    move_to_tv, put_char_tv, resize_tv, scroll_display_tv, tab_tv, view_wf, visible_line, Cell,
    Cursor, Pen, TermGrid, TermView,
};
use crate::terminal::{CellFlags, CellInfo, CursorInfo, CursorShape, TerminalEvent, TerminalGrid};
use crate::text::{char_to_string, push_char};

verus! {

/// The errors a terminal session reports.
#[derive(Clone, Copy, Debug, PartialEq, Eq, Structural)]
pub enum TermError {
    /// The shell process could not be started.
    SpawnFailed,
    /// A write or resize failed at the OS level after the session was
    /// established.
    IoFailed,
    /// The operation was attempted after the session ended.
    SessionEnded,
}

/// The mathematical state of a terminal session.
#[verifier::ext_equal]
pub struct ManagerView {
    /// The grid state.
    pub term: TermView,
    /// The pending out-of-band events, oldest first.
    pub events: Seq<TerminalEvent>,
    /// Whether the session has ended.
    pub ended: bool,
    /// The active color scheme.
    pub scheme: ColorScheme,
    /// Whether the escape-sequence machine stands in its plain-text
    /// state, where ordinary bytes print directly.
    pub ground: bool,
}

/// What one interpreter step may do to the session: the dimensions,
/// the ended flag and the scheme stay; events are only appended.
pub open spec fn step_frame(pre: ManagerView, post: ManagerView) -> bool {
    &&& post.term.cols == pre.term.cols
    &&& post.term.rows == pre.term.rows
    &&& post.ended == pre.ended
    &&& post.scheme == pre.scheme
    &&& pre.events.is_prefix_of(post.events)
}

/// The most parameters one control sequence keeps; further ones drop.
pub const CSI_PARAMS_MAX: usize = 16;

/// The largest value one control-sequence parameter keeps.
pub const CSI_PARAM_MAX: u32 = 9999;

/// The most bytes one operating-system-command string keeps.
pub const OSC_DATA_MAX: usize = 4096;

/// The pen after applying the select-graphic-rendition parameters from
/// index `i` on: 0 resets everything; 1, 3, 4, 9, 7, 8 set bold,
/// italic, underline, strikethrough, inverse and hidden, and 22, 23,
/// 24, 29, 27, 28 clear them; 30-37 and 90-97 select an indexed
/// foreground and 39 restores the default; 40-47, 100-107 and 49 do
/// the same for the background; 38;5;n / 48;5;n select an indexed
/// color and 38;2;r;g;b / 48;2;r;g;b a direct one, a malformed form
/// ending the run; anything else is ignored.
pub open spec fn sgr_pen(pen: Pen, params: Seq<u16>, i: int) -> Pen
    decreases params.len() - i,
{
    if i < 0 || i >= params.len() {
        pen
    } else {
        let p = params[i];
        if p == 0 {
            sgr_pen(default_pen(), params, i + 1)
        } else if p == 1 {
            sgr_pen(Pen { flags: CellFlags { bold: true, ..pen.flags }, ..pen }, params, i + 1)
        } else if p == 3 {
            sgr_pen(Pen { flags: CellFlags { italic: true, ..pen.flags }, ..pen }, params, i + 1)
        } else if p == 4 {
            sgr_pen(Pen { flags: CellFlags { underline: true, ..pen.flags }, ..pen }, params, i + 1)
        } else if p == 7 {
            sgr_pen(Pen { flags: CellFlags { inverse: true, ..pen.flags }, ..pen }, params, i + 1)
        } else if p == 8 {
            sgr_pen(Pen { flags: CellFlags { hidden: true, ..pen.flags }, ..pen }, params, i + 1)
        } else if p == 9 {
            sgr_pen(
                Pen { flags: CellFlags { strikethrough: true, ..pen.flags }, ..pen },
                params,
                i + 1,
            )
        } else if p == 22 {
            sgr_pen(Pen { flags: CellFlags { bold: false, ..pen.flags }, ..pen }, params, i + 1)
        } else if p == 23 {
            sgr_pen(Pen { flags: CellFlags { italic: false, ..pen.flags }, ..pen }, params, i + 1)
        } else if p == 24 {
            sgr_pen(Pen { flags: CellFlags { underline: false, ..pen.flags }, ..pen }, params, i + 1)
        } else if p == 27 {
            sgr_pen(Pen { flags: CellFlags { inverse: false, ..pen.flags }, ..pen }, params, i + 1)
        } else if p == 28 {
            sgr_pen(Pen { flags: CellFlags { hidden: false, ..pen.flags }, ..pen }, params, i + 1)
        } else if p == 29 {
            sgr_pen(
                Pen { flags: CellFlags { strikethrough: false, ..pen.flags }, ..pen },
                params,
                i + 1,
            )
        } else if 30 <= p && p <= 37 {
            sgr_pen(Pen { fg: ColorRef::Indexed((p - 30) as u8), ..pen }, params, i + 1)
        } else if p == 39 {
            sgr_pen(Pen { fg: ColorRef::Foreground, ..pen }, params, i + 1)
        } else if 40 <= p && p <= 47 {
            sgr_pen(Pen { bg: ColorRef::Indexed((p - 40) as u8), ..pen }, params, i + 1)
        } else if p == 49 {
            sgr_pen(Pen { bg: ColorRef::Background, ..pen }, params, i + 1)
        } else if 90 <= p && p <= 97 {
            sgr_pen(Pen { fg: ColorRef::Indexed((p - 90 + 8) as u8), ..pen }, params, i + 1)
        } else if 100 <= p && p <= 107 {
            sgr_pen(Pen { bg: ColorRef::Indexed((p - 100 + 8) as u8), ..pen }, params, i + 1)
        } else if p == 38 || p == 48 {
            if i + 2 < params.len() && params[i + 1] == 5 {
                let color = ColorRef::Indexed(params[i + 2] as u8);
                let next = if p == 38 {
                    Pen { fg: color, ..pen }
                } else {
                    Pen { bg: color, ..pen }
                };
                sgr_pen(next, params, i + 3)
            } else if i + 4 < params.len() && params[i + 1] == 2 {
                let color = ColorRef::Direct(
                    Rgb {
                        r: params[i + 2] as u8,
                        g: params[i + 3] as u8,
                        b: params[i + 4] as u8,
                    },
                );
                let next = if p == 38 {
                    Pen { fg: color, ..pen }
                } else {
                    Pen { bg: color, ..pen }
                };
                sgr_pen(next, params, i + 5)
            } else {
                pen
            }
        } else {
            sgr_pen(pen, params, i + 1)
        }
    }
}

/// Text decoded from bytes one-to-one: ASCII bytes become their
/// character, anything else the replacement character.
pub open spec fn ascii_lossy_text(bytes: Seq<u8>) -> Seq<char> {
    bytes.map_values(|b: u8| if b < 0x80 { b as char } else { '\u{FFFD}' })
}

/// Relies on `char::from_u32`: `Some` exactly for Unicode scalar
/// values (below the surrogates or between them and the last code
/// point), holding that value.
#[verifier::external_body]
fn char_from_u32(v: u32) -> (r: Option<char>)
    ensures
        r is Some <==> (v < 0xD800 || (0xE000 <= v && v <= 0x10FFFF)),
        r is Some ==> r->0 == v as char,
{
    char::from_u32(v)
}

/// The pen after one full select-graphic-rendition parameter list.
fn sgr_apply(pen: Pen, params: &Vec<u16>) -> (r: Pen)
    ensures
        r == sgr_pen(pen, params@, 0),
{
    let n = params.len();
    let mut cur = pen;
    let mut i: usize = 0;
    while i < n
        invariant
            i <= n,
            n == params@.len(),
            sgr_pen(pen, params@, 0) == sgr_pen(cur, params@, i as int),
        decreases n - i,
    {
        let p = params[i];
        if p == 0 {
            cur = Pen {
                fg: ColorRef::Foreground,
                bg: ColorRef::Background,
                flags: CellFlags::default(),
            };
            i += 1;
        } else if p == 1 {
            cur = Pen { flags: CellFlags { bold: true, ..cur.flags }, ..cur };
            i += 1;
        } else if p == 3 {
            cur = Pen { flags: CellFlags { italic: true, ..cur.flags }, ..cur };
            i += 1;
        } else if p == 4 {
            cur = Pen { flags: CellFlags { underline: true, ..cur.flags }, ..cur };
            i += 1;
        } else if p == 7 {
            cur = Pen { flags: CellFlags { inverse: true, ..cur.flags }, ..cur };
            i += 1;
        } else if p == 8 {
            cur = Pen { flags: CellFlags { hidden: true, ..cur.flags }, ..cur };
            i += 1;
        } else if p == 9 {
            cur = Pen { flags: CellFlags { strikethrough: true, ..cur.flags }, ..cur };
            i += 1;
        } else if p == 22 {
            cur = Pen { flags: CellFlags { bold: false, ..cur.flags }, ..cur };
            i += 1;
        } else if p == 23 {
            cur = Pen { flags: CellFlags { italic: false, ..cur.flags }, ..cur };
            i += 1;
        } else if p == 24 {
            cur = Pen { flags: CellFlags { underline: false, ..cur.flags }, ..cur };
            i += 1;
        } else if p == 27 {
            cur = Pen { flags: CellFlags { inverse: false, ..cur.flags }, ..cur };
            i += 1;
        } else if p == 28 {
            cur = Pen { flags: CellFlags { hidden: false, ..cur.flags }, ..cur };
            i += 1;
        } else if p == 29 {
            cur = Pen { flags: CellFlags { strikethrough: false, ..cur.flags }, ..cur };
            i += 1;
        } else if 30 <= p && p <= 37 {
            cur = Pen { fg: ColorRef::Indexed((p - 30) as u8), ..cur };
            i += 1;
        } else if p == 39 {
            cur = Pen { fg: ColorRef::Foreground, ..cur };
            i += 1;
        } else if 40 <= p && p <= 47 {
            cur = Pen { bg: ColorRef::Indexed((p - 40) as u8), ..cur };
            i += 1;
        } else if p == 49 {
            cur = Pen { bg: ColorRef::Background, ..cur };
            i += 1;
        } else if 90 <= p && p <= 97 {
            cur = Pen { fg: ColorRef::Indexed((p - 90 + 8) as u8), ..cur };
            i += 1;
        } else if 100 <= p && p <= 107 {
            cur = Pen { bg: ColorRef::Indexed((p - 100 + 8) as u8), ..cur };
            i += 1;
        } else if p == 38 || p == 48 {
            if n - i > 2 && params[i + 1] == 5 {
                let color = ColorRef::Indexed(params[i + 2] as u8);
                cur = if p == 38 {
                    Pen { fg: color, ..cur }
                } else {
                    Pen { bg: color, ..cur }
                };
                i += 3;
            } else if n - i > 4 && params[i + 1] == 2 {
                let color = ColorRef::Direct(
                    Rgb {
                        r: params[i + 2] as u8,
                        g: params[i + 3] as u8,
                        b: params[i + 4] as u8,
                    },
                );
                cur = if p == 38 {
                    Pen { fg: color, ..cur }
                } else {
                    Pen { bg: color, ..cur }
                };
                i += 5;
            } else {
                return cur;
            }
        } else {
            i += 1;
        }
    }
    cur
}

/// Decode `data[a..b]` as in [`ascii_lossy_text`].
fn ascii_lossy_range(data: &Vec<u8>, a: usize, b: usize) -> (s: String)
    requires
        a <= b <= data@.len(),
    ensures
        s@ == ascii_lossy_text(data@.subrange(a as int, b as int)),
{
    let mut s = String::new();
    let mut i = a;
    while i < b
        invariant
            a <= i <= b <= data@.len(),
            s@ =~= ascii_lossy_text(data@.subrange(a as int, i as int)),
        decreases b - i,
    {
        let byte = data[i];
        if byte < 0x80 {
            push_char(&mut s, byte as char);
        } else {
            push_char(&mut s, '\u{FFFD}');
        }
        proof {
            assert(s@ =~= ascii_lossy_text(data@.subrange(a as int, i as int + 1)));
        }
        i += 1;
    }
    proof {
        assert(s@ =~= ascii_lossy_text(data@.subrange(a as int, b as int)));
    }
    s
}

/// A prefix stays a prefix across a third extension.
proof fn lemma_prefix_trans(a: Seq<TerminalEvent>, b: Seq<TerminalEvent>, c: Seq<TerminalEvent>)
    requires
        a.is_prefix_of(b),
        b.is_prefix_of(c),
    ensures
        a.is_prefix_of(c),
{
    assert(a =~= c.subrange(0, a.len() as int));
}

/// Whether every byte is printable text (the space through tilde
/// range).
pub open spec fn all_printable(bytes: Seq<u8>) -> bool {
    forall|i: int| 0 <= i < bytes.len() ==> 0x20 <= #[trigger] bytes[i] <= 0x7e
}

/// The grid after printing `bytes` one after another.
pub open spec fn printed_tv(v: TermView, bytes: Seq<u8>) -> TermView
    decreases bytes.len(),
{
    if bytes.len() == 0 {
        v
    } else {
        put_char_tv(printed_tv(v, bytes.drop_last()), bytes.last() as char)
    }
}

/// The first index at or after `from` where byte `b` occurs.
pub open spec fn find_byte(data: Seq<u8>, b: u8, from: int) -> Option<int>
    decreases data.len() - from,
{
    if from < 0 || from >= data.len() {
        None
    } else if data[from] == b {
        Some(from)
    } else {
        find_byte(data, b, from + 1)
    }
}

/// The grid state one completed control sequence leaves behind:
/// cursor motion for the movement finals (one-based parameters,
/// missing or zero parameters meaning one), the erase operations with
/// their mode parameter, the pen after a select-graphic-rendition
/// list, cursor visibility for the private show/hide modes, and the
/// cursor shape selection; every other final leaves the grid alone.
pub open spec fn csi_effect(
    v: TermView,
    fin: u8,
    params: Seq<u16>,
    private: bool,
    inter: Option<u8>,
) -> TermView {
    let p0: u16 = if params.len() > 0 {
        params[0]
    } else {
        0
    };
    let n1: u16 = if p0 > 0 {
        p0
    } else {
        1
    };
    if fin == 0x41 {
        cursor_up_tv(v, n1)
    } else if fin == 0x42 || fin == 0x65 {
        cursor_down_tv(v, n1)
    } else if fin == 0x43 || fin == 0x61 {
        cursor_forward_tv(v, n1)
    } else if fin == 0x44 {
        cursor_back_tv(v, n1)
    } else if fin == 0x45 {
        carriage_return_tv(cursor_down_tv(v, n1))
    } else if fin == 0x46 {
        carriage_return_tv(cursor_up_tv(v, n1))
    } else if fin == 0x47 || fin == 0x60 {
        move_to_tv(v, v.cursor.row, (n1 - 1) as u16)
    } else if fin == 0x64 {
        move_to_tv(v, (n1 - 1) as u16, v.cursor.col)
    } else if fin == 0x48 || fin == 0x66 {
        let col: u16 = if params.len() > 1 && params[1] > 0 {
            (params[1] - 1) as u16
        } else {
            0
        };
        move_to_tv(v, (n1 - 1) as u16, col)
    } else if fin == 0x4a {
        erase_display_tv(v, p0)
    } else if fin == 0x4b {
        erase_line_tv(v, p0)
    } else if fin == 0x6d {
        let pen = if params.len() == 0 {
            default_pen()
        } else {
            sgr_pen(v.pen, params, 0)
        };
        TermView { pen, ..v }
    } else if fin == 0x68 && private && p0 == 25 {
        TermView { cursor: Cursor { visible: true, ..v.cursor }, ..v }
    } else if fin == 0x6c && private && p0 == 25 {
        TermView { cursor: Cursor { visible: false, ..v.cursor }, ..v }
    } else if fin == 0x71 && inter == Some(0x20u8) {
        if p0 <= 2 {
            TermView { cursor: Cursor { shape: CursorShape::Block, ..v.cursor }, ..v }
        } else if p0 <= 4 {
            TermView { cursor: Cursor { shape: CursorShape::Underline, ..v.cursor }, ..v }
        } else if p0 <= 6 {
            TermView { cursor: Cursor { shape: CursorShape::Beam, ..v.cursor }, ..v }
        } else {
            v
        }
    } else {
        v
    }
}

/// Whether one snapshot cell reports exactly the stored cell `cell`
/// at `(rr, cc)`: the position, the one-character content, the colors
/// resolved against `scheme`, and the flags.
pub open spec fn cell_info_matches(
    ci: CellInfo,
    cell: Cell,
    rr: int,
    cc: int,
    scheme: ColorScheme,
) -> bool {
    &&& ci.row == rr
    &&& ci.col == cc
    &&& ci.content@ == seq![cell.ch]
    &&& ci.fg == resolve_spec(scheme, cell.fg)
    &&& ci.bg == resolve_spec(scheme, cell.bg)
    &&& ci.flags == cell.flags
}

/// The byte-level parse state of the escape-sequence machine.
pub(crate) enum ParseState {
    /// Plain input.
    Ground,
    /// Inside a UTF-8 sequence: the scalar bits so far and how many
    /// continuation bytes remain.
    Utf8 { cp: u32, more: u8 },
    /// After an escape byte.
    Escape,
    /// After an escape byte and an intermediate byte; the next final
    /// byte ends the sequence.
    EscapeIntermediate,
    /// Inside a control sequence: finished parameters, the one being
    /// read, whether any of its digits were seen, whether a private
    /// marker was seen, and the latest intermediate byte.
    Csi { params: Vec<u16>, cur: u32, any_digit: bool, private: bool, inter: Option<u8> },
    /// Inside an operating-system-command string, collecting its
    /// bytes; `esc` notes a just-seen escape byte (a terminator may
    /// follow).
    Osc { data: Vec<u8>, esc: bool },
}

/// The terminal session state machine.
pub struct TerminalManager {
    pub(crate) grid: TermGrid,
    pub(crate) pstate: ParseState,
    pub(crate) events: Vec<TerminalEvent>,
    pub(crate) ended: bool,
    pub(crate) scheme: ColorScheme,
}

impl View for TerminalManager {
    type V = ManagerView;

    closed spec fn view(&self) -> ManagerView {
        ManagerView {
            term: self.grid@,
            events: self.events@,
            ended: self.ended,
            scheme: self.scheme,
            ground: self.pstate is Ground,
        }
    }
}

impl TerminalManager {
    /// Well-formedness of the session state.
    pub open spec fn wf(self) -> bool {
        view_wf(self@.term)
    }

    /// A fresh session over an empty `cols x rows` grid: a visible
    /// block cursor at the origin, no events, the dark scheme, not
    /// ended. The caller opens the PTY alongside and owns its spawn
    /// failures.
    pub fn new(cols: u16, rows: u16) -> (m: TerminalManager)
        requires
            cols >= 1,
            rows >= 1,
        ensures
            m.wf(),
            m@.term.cols == cols,
            m@.term.rows == rows,
            m@.term.screen == Seq::new(rows as nat, |i: int| blank_line(cols as int)),
            m@.term.history == Seq::<Seq<Cell>>::empty(),
            m@.term.offset == 0,
            m@.term.cursor == (Cursor {
                row: 0,
                col: 0,
                visible: true,
                shape: CursorShape::Block,
                wrap: false,
            }),
            m@.term.pen == default_pen(),
            m@.events == Seq::<TerminalEvent>::empty(),
            !m@.ended,
            m@.scheme == dark_scheme(),
            m@.ground,
    {
        TerminalManager {
            grid: TermGrid::new(cols, rows),
            pstate: ParseState::Ground,
            events: Vec::new(),
            ended: false,
            scheme: ColorScheme::dark(),
        }
    }

    /// Accept bytes for the shell's input. While the session lives the
    /// bytes are returned unchanged for the caller to forward to the
    /// PTY in full; after the session ended the call fails instead.
    pub fn write(&self, data: &[u8]) -> (r: Result<Vec<u8>, TermError>)
        ensures
            (match r {
                Ok(out) => !self@.ended && out@ == data@,
                Err(e) => self@.ended && e == TermError::SessionEnded,
            }),
    {
        if self.ended {
            Err(TermError::SessionEnded)
        } else {
            let mut out: Vec<u8> = Vec::new();
            let mut i: usize = 0;
            while i < data.len()
                invariant
                    i <= data@.len(),
                    out@ == data@.subrange(0, i as int),
                decreases data@.len() - i,
            {
                out.push(data[i]);
                proof {
                    assert(out@ =~= data@.subrange(0, i as int + 1));
                }
                i += 1;
            }
            proof {
                assert(out@ =~= data@);
            }
            Ok(out)
        }
    }

    /// End the session: every later `write` fails with
    /// [`TermError::SessionEnded`]. Idempotent; the caller tears the
    /// child process and its handles down alongside.
    pub fn close(&mut self)
        ensures
            final(self)@ == (ManagerView { ended: true, ..old(self)@ }),
    {
        self.ended = true;
    }

    /// Record that the PTY's byte stream ended: the session is over
    /// and an exit event joins the queue.
    pub fn handle_eof(&mut self)
        ensures
            final(self)@ == (ManagerView {
                ended: true,
                events: old(self)@.events.push(TerminalEvent::Exit),
                ..old(self)@
            }),
    {
        self.ended = true;
        self.events.push(TerminalEvent::Exit);
    }

    /// Drain the pending events, in arrival order. A second call with
    /// no new activity in between returns nothing.
    pub fn poll_events(&mut self) -> (evs: Vec<TerminalEvent>)
        ensures
            evs@ == old(self)@.events,
            final(self)@ == (ManagerView { events: Seq::empty(), ..old(self)@ }),
    {
        let mut evs: Vec<TerminalEvent> = Vec::new();
        core::mem::swap(&mut evs, &mut self.events);
        evs
    }

    /// Resize the grid; see [`resize_tv`] for the policy. The caller
    /// resizes the PTY to the same dimensions alongside.
    pub fn resize(&mut self, cols: u16, rows: u16)
        requires
            old(self).wf(),
            cols >= 1,
            rows >= 1,
        ensures
            final(self).wf(),
            final(self)@ == (ManagerView {
                term: resize_tv(old(self)@.term, cols as int, rows as int),
                ..old(self)@
            }),
    {
        self.grid.resize(cols, rows);
    }

    /// Move the viewport `delta` lines further into history (negative:
    /// toward the live screen), clamped to the available history.
    pub fn scroll(&mut self, delta: i32)
        requires
            old(self).wf(),
        ensures
            final(self).wf(),
            final(self)@ == (ManagerView {
                term: scroll_display_tv(old(self)@.term, delta as int),
                ..old(self)@
            }),
    {
        self.grid.scroll_display(delta);
    }

    /// Bring the viewport back to the live screen.
    pub fn scroll_to_bottom(&mut self)
        requires
            old(self).wf(),
        ensures
            final(self).wf(),
            final(self)@ == (ManagerView {
                term: (TermView { offset: 0, ..old(self)@.term }),
                ..old(self)@
            }),
    {
        self.grid.scroll_to_bottom();
    }

    /// Swap the scheme used when snapshots resolve colors. Stored
    /// references are untouched: the grid state does not change.
    pub fn set_color_scheme(&mut self, scheme: ColorScheme)
        ensures
            final(self)@ == (ManagerView { scheme, ..old(self)@ }),
    {
        self.scheme = scheme;
    }

    /// Interpret one batch of bytes from the PTY, in order. The
    /// escape-sequence machine drives the exactly-specified grid
    /// operations; dimensions, the ended flag and the scheme are
    /// untouched, and events are only appended, in arrival order.
    /// Plain printable text from the plain-text state prints exactly,
    /// character after character.
    pub fn feed(&mut self, data: &[u8])
        requires
            old(self).wf(),
        ensures
            final(self).wf(),
            step_frame(old(self)@, final(self)@),
            old(self)@.ground && all_printable(data@) ==> final(self)@ == (ManagerView {
                term: printed_tv(old(self)@.term, data@),
                ..old(self)@
            }),
    {
        let mut i: usize = 0;
        proof {
            assert(old(self)@.events =~= self@.events.subrange(0, old(self)@.events.len() as int));
            assert(data@.take(0) =~= Seq::<u8>::empty());
        }
        while i < data.len()
            invariant
                i <= data@.len(),
                self.wf(),
                step_frame(old(self)@, self@),
                old(self)@.ground && all_printable(data@) ==> self@ == (ManagerView {
                    term: printed_tv(old(self)@.term, data@.take(i as int)),
                    ..old(self)@
                }),
            decreases data@.len() - i,
        {
            let ghost mid = self@;
            self.process_byte(data[i]);
            proof {
                lemma_prefix_trans(old(self)@.events, mid.events, self@.events);
                if old(self)@.ground && all_printable(data@) {
                    assert(data@.take(i as int + 1).drop_last() =~= data@.take(i as int));
                    assert(data@.take(i as int + 1).last() == data@[i as int]);
                }
            }
            i += 1;
        }
        proof {
            assert(data@.take(data@.len() as int) =~= data@);
        }
    }

    /// Advance the escape-sequence machine by one byte. From the
    /// plain-text state the outcome is pinned down exactly: printable
    /// bytes print at the cursor, the control bytes perform their
    /// cursor motion, the bell queues its event, and an escape byte
    /// leaves the plain-text state.
    fn process_byte(&mut self, b: u8)
        requires
            old(self).wf(),
        ensures
            final(self).wf(),
            step_frame(old(self)@, final(self)@),
            old(self)@.ground && b == 0x07 ==> final(self)@ == (ManagerView {
                events: old(self)@.events.push(TerminalEvent::Bell),
                ..old(self)@
            }),
            old(self)@.ground && b == 0x08 ==> final(self)@ == (ManagerView {
                term: backspace_tv(old(self)@.term),
                ..old(self)@
            }),
            old(self)@.ground && b == 0x09 ==> final(self)@ == (ManagerView {
                term: tab_tv(old(self)@.term),
                ..old(self)@
            }),
            old(self)@.ground && (b == 0x0a || b == 0x0b || b == 0x0c) ==> final(self)@
                == (ManagerView { term: line_feed_tv(old(self)@.term), ..old(self)@ }),
            old(self)@.ground && b == 0x0d ==> final(self)@ == (ManagerView {
                term: carriage_return_tv(old(self)@.term),
                ..old(self)@
            }),
            old(self)@.ground && 0x20 <= b <= 0x7e ==> final(self)@ == (ManagerView {
                term: put_char_tv(old(self)@.term, b as char),
                ..old(self)@
            }),
            old(self)@.ground && b == 0x1b ==> final(self)@ == (ManagerView {
                ground: false,
                ..old(self)@
            }),
    {
        let mut st = ParseState::Ground;
        core::mem::swap(&mut st, &mut self.pstate);
        match st {
            ParseState::Ground => {
                if b == 0x07 {
                    self.events.push(TerminalEvent::Bell);
                } else if b == 0x08 {
                    self.grid.backspace();
                } else if b == 0x09 {
                    self.grid.tab();
                } else if b == 0x0a || b == 0x0b || b == 0x0c {
                    self.grid.line_feed();
                } else if b == 0x0d {
                    self.grid.carriage_return();
                } else if b == 0x1b {
                    self.pstate = ParseState::Escape;
                } else if 0x20 <= b && b <= 0x7e {
                    self.grid.put_char(b as char);
                } else if 0xc2 <= b && b <= 0xdf {
                    self.pstate = ParseState::Utf8 { cp: (b & 0x1f) as u32, more: 1 };
                } else if 0xe0 <= b && b <= 0xef {
                    self.pstate = ParseState::Utf8 { cp: (b & 0x0f) as u32, more: 2 };
                } else if 0xf0 <= b && b <= 0xf4 {
                    self.pstate = ParseState::Utf8 { cp: (b & 0x07) as u32, more: 3 };
                }
                // other control bytes and stray continuations: consumed
            },
            ParseState::Utf8 { cp, more } => {
                if 0x80 <= b && b <= 0xbf {
                    let cp2 = (cp << 6) | ((b & 0x3f) as u32);
                    if more <= 1 {
                        // sequence complete; invalid scalars are skipped
                        match char_from_u32(cp2) {
                            Some(ch) => {
                                self.grid.put_char(ch);
                            },
                            None => {},
                        }
                    } else {
                        self.pstate = ParseState::Utf8 { cp: cp2, more: more - 1 };
                    }
                }
                // a non-continuation byte aborts the sequence
            },
            ParseState::Escape => {
                if b == 0x5b {
                    self.pstate = ParseState::Csi {
                        params: Vec::new(),
                        cur: 0,
                        any_digit: false,
                        private: false,
                        inter: None,
                    };
                } else if b == 0x5d {
                    self.pstate = ParseState::Osc { data: Vec::new(), esc: false };
                } else if 0x20 <= b && b <= 0x2f {
                    self.pstate = ParseState::EscapeIntermediate;
                } else if b == 0x1b {
                    self.pstate = ParseState::Escape;
                }
                // other escape sequences: consumed without effect
            },
            ParseState::EscapeIntermediate => {
                if 0x20 <= b && b <= 0x2f {
                    self.pstate = ParseState::EscapeIntermediate;
                }
                // the final byte ends the sequence, without effect
            },
            ParseState::Csi { params, cur, any_digit, private, inter } => {
                let mut params = params;
                if 0x30 <= b && b <= 0x39 {
                    let base = if cur > CSI_PARAM_MAX {
                        CSI_PARAM_MAX
                    } else {
                        cur
                    };
                    let next = base * 10 + (b - 0x30) as u32;
                    let next = if next > CSI_PARAM_MAX {
                        CSI_PARAM_MAX
                    } else {
                        next
                    };
                    self.pstate = ParseState::Csi { params, cur: next, any_digit: true, private, inter };
                } else if b == 0x3b || b == 0x3a {
                    if params.len() < CSI_PARAMS_MAX {
                        let v = if cur > CSI_PARAM_MAX {
                            CSI_PARAM_MAX
                        } else {
                            cur
                        };
                        params.push(v as u16);
                    }
                    self.pstate = ParseState::Csi {
                        params,
                        cur: 0,
                        any_digit: false,
                        private,
                        inter,
                    };
                } else if 0x3c <= b && b <= 0x3f {
                    self.pstate = ParseState::Csi { params, cur, any_digit, private: true, inter };
                } else if 0x20 <= b && b <= 0x2f {
                    self.pstate = ParseState::Csi {
                        params,
                        cur,
                        any_digit,
                        private,
                        inter: Some(b),
                    };
                } else if 0x40 <= b && b <= 0x7e {
                    if any_digit && params.len() < CSI_PARAMS_MAX {
                        let v = if cur > CSI_PARAM_MAX {
                            CSI_PARAM_MAX
                        } else {
                            cur
                        };
                        params.push(v as u16);
                    }
                    self.csi_dispatch(b, &params, private, inter);
                } else if b == 0x1b {
                    self.pstate = ParseState::Escape;
                } else {
                    // a control byte inside the sequence: stay in it
                    self.pstate = ParseState::Csi { params, cur, any_digit, private, inter };
                }
            },
            ParseState::Osc { data, esc } => {
                let mut data = data;
                if esc {
                    if b == 0x5c {
                        self.osc_dispatch(&data);
                    }
                    // any other byte aborts the command string
                } else if b == 0x07 {
                    self.osc_dispatch(&data);
                } else if b == 0x1b {
                    self.pstate = ParseState::Osc { data, esc: true };
                } else {
                    if data.len() < OSC_DATA_MAX {
                        data.push(b);
                    }
                    self.pstate = ParseState::Osc { data, esc: false };
                }
            },
        }
        proof {
            assert(old(self)@.events =~= self@.events.subrange(0, old(self)@.events.len() as int));
        }
    }

    /// Perform one completed control sequence on the grid; see
    /// [`csi_effect`].
    fn csi_dispatch(&mut self, fin: u8, params: &Vec<u16>, private: bool, inter: Option<u8>)
        requires
            old(self).wf(),
        ensures
            final(self).wf(),
            final(self)@ == (ManagerView {
                term: csi_effect(old(self)@.term, fin, params@, private, inter),
                ..old(self)@
            }),
    {
        let p0 = if params.len() > 0 {
            params[0]
        } else {
            0
        };
        let n1 = if p0 > 0 {
            p0
        } else {
            1
        };
        if fin == 0x41 {
            self.grid.cursor_up(n1);
        } else if fin == 0x42 || fin == 0x65 {
            self.grid.cursor_down(n1);
        } else if fin == 0x43 || fin == 0x61 {
            self.grid.cursor_forward(n1);
        } else if fin == 0x44 {
            self.grid.cursor_back(n1);
        } else if fin == 0x45 {
            self.grid.cursor_down(n1);
            self.grid.carriage_return();
        } else if fin == 0x46 {
            self.grid.cursor_up(n1);
            self.grid.carriage_return();
        } else if fin == 0x47 || fin == 0x60 {
            let c = self.grid.cursor();
            self.grid.move_to(c.row, n1 - 1);
        } else if fin == 0x64 {
            let c = self.grid.cursor();
            self.grid.move_to(n1 - 1, c.col);
        } else if fin == 0x48 || fin == 0x66 {
            let col = if params.len() > 1 && params[1] > 0 {
                params[1] - 1
            } else {
                0
            };
            self.grid.move_to(n1 - 1, col);
        } else if fin == 0x4a {
            self.grid.erase_display(p0);
        } else if fin == 0x4b {
            self.grid.erase_line(p0);
        } else if fin == 0x6d {
            if params.len() == 0 {
                self.grid.set_pen(
                    Pen {
                        fg: ColorRef::Foreground,
                        bg: ColorRef::Background,
                        flags: CellFlags::default(),
                    },
                );
            } else {
                let pen = sgr_apply(self.grid.pen(), params);
                self.grid.set_pen(pen);
            }
        } else if fin == 0x68 && private {
            if p0 == 25 {
                self.grid.set_cursor_visible(true);
            }
        } else if fin == 0x6c && private {
            if p0 == 25 {
                self.grid.set_cursor_visible(false);
            }
        } else if fin == 0x71 {
            if inter == Some(0x20) {
                if p0 <= 2 {
                    self.grid.set_cursor_shape(CursorShape::Block);
                } else if p0 <= 4 {
                    self.grid.set_cursor_shape(CursorShape::Underline);
                } else if p0 <= 6 {
                    self.grid.set_cursor_shape(CursorShape::Beam);
                }
            }
        }
        // other finals: consumed without effect
    }

    /// Perform one completed operating-system command. The command
    /// number stands before the first separator: 0 and 2 queue a
    /// title change with the text after it; 52 queues a clipboard
    /// request — a load when the payload is a lone question mark,
    /// otherwise a store carrying the payload as it arrived (base64
    /// undecoded). Anything else is consumed without effect.
    fn osc_dispatch(&mut self, data: &Vec<u8>)
        requires
            old(self).wf(),
        ensures
            final(self).wf(),
            final(self)@.term == old(self)@.term,
            final(self)@.ended == old(self)@.ended,
            final(self)@.scheme == old(self)@.scheme,
            final(self)@.ground == old(self)@.ground,
            (match find_byte(data@, 0x3b, 0) {
                None => final(self)@.events == old(self)@.events,
                Some(semi) => {
                    let n = data@.len() as int;
                    if semi == 1 && (data@[0] == 0x30 || data@[0] == 0x32) {
                        &&& final(self)@.events.drop_last() == old(self)@.events
                        &&& final(self)@.events.len() == old(self)@.events.len() + 1
                        &&& (final(self)@.events.last() matches TerminalEvent::Title(t)
                            && t@ == ascii_lossy_text(data@.subrange(semi + 1, n)))
                    } else if semi == 2 && data@[0] == 0x35 && data@[1] == 0x32 {
                        match find_byte(data@, 0x3b, semi + 1) {
                            None => final(self)@.events == old(self)@.events,
                            Some(s2) => if n == s2 + 2 && data@[s2 + 1] == 0x3f {
                                final(self)@.events == old(self)@.events.push(
                                    TerminalEvent::ClipboardLoad,
                                )
                            } else {
                                &&& final(self)@.events.drop_last() == old(self)@.events
                                &&& final(self)@.events.len() == old(self)@.events.len() + 1
                                &&& (final(self)@.events.last()
                                    matches TerminalEvent::ClipboardStore(p)
                                    && p@ == ascii_lossy_text(data@.subrange(s2 + 1, n)))
                            },
                        }
                    } else {
                        final(self)@.events == old(self)@.events
                    }
                },
            }),
    {
        let n = data.len();
        // split at the first parameter separator
        let mut semi: usize = n;
        let mut i: usize = 0;
        while i < n && semi == n
            invariant
                i <= n,
                n == data@.len(),
                semi == n || semi < i,
                semi == n ==> find_byte(data@, 0x3b, 0) == find_byte(data@, 0x3b, i as int),
                semi < n ==> find_byte(data@, 0x3b, 0) == Some(semi as int),
            decreases n - i,
        {
            if data[i] == 0x3b {
                semi = i;
            }
            i += 1;
        }
        if semi >= n {
            proof {
                assert(old(self)@.events =~= self@.events.subrange(
                    0,
                    old(self)@.events.len() as int,
                ));
            }
            return ;
        }
        let is_title = semi == 1 && (data[0] == 0x30 || data[0] == 0x32);
        let is_clipboard = semi == 2 && data[0] == 0x35 && data[1] == 0x32;
        if is_title {
            let title = ascii_lossy_range(data, semi + 1, n);
            let ghost ev0 = self@.events;
            self.events.push(TerminalEvent::Title(title));
            proof {
                assert(self@.events.drop_last() =~= ev0);
            }
        } else if is_clipboard {
            // the selector follows, then the payload
            let mut semi2: usize = n;
            let mut j: usize = semi + 1;
            while j < n && semi2 == n
                invariant
                    semi + 1 <= j <= n,
                    n == data@.len(),
                    semi2 == n || semi2 < j,
                    semi2 == n ==> find_byte(data@, 0x3b, semi as int + 1) == find_byte(
                        data@,
                        0x3b,
                        j as int,
                    ),
                    semi2 < n ==> find_byte(data@, 0x3b, semi as int + 1) == Some(semi2 as int),
                decreases n - j,
            {
                if data[j] == 0x3b {
                    semi2 = j;
                }
                j += 1;
            }
            if semi2 < n {
                if n - semi2 == 2 && data[semi2 + 1] == 0x3f {
                    self.events.push(TerminalEvent::ClipboardLoad);
                } else {
                    // the payload passes through as it arrived
                    let payload = ascii_lossy_range(data, semi2 + 1, n);
                    let ghost ev0 = self@.events;
                    self.events.push(TerminalEvent::ClipboardStore(payload));
                    proof {
                        assert(self@.events.drop_last() =~= ev0);
                    }
                }
            }
        }
        proof {
            assert(old(self)@.events =~= self@.events.subrange(0, old(self)@.events.len() as int));
        }
    }

    /// A point-in-time snapshot of the visible screen for rendering:
    /// one cell record per grid position in row-major order, colors
    /// resolved against the active scheme (the grid keeps references),
    /// the cursor, and the dimensions. The visible window honors the
    /// viewport offset into history.
    #[verifier::loop_isolation(false)]
    pub fn get_grid(&self) -> (g: TerminalGrid)
        requires
            self.wf(),
        ensures
            g.cols == self@.term.cols,
            g.rows == self@.term.rows,
            g.cursor.row == self@.term.cursor.row,
            g.cursor.col == self@.term.cursor.col,
            g.cursor.visible == self@.term.cursor.visible,
            g.cursor.shape == self@.term.cursor.shape,
            g.cells@.len() == self@.term.rows * self@.term.cols,
            forall|i: int|
                0 <= i < g.cells@.len() ==> cell_info_matches(
                    #[trigger] g.cells@[i],
                    visible_line(self@.term, i / self@.term.cols)[i % self@.term.cols],
                    i / self@.term.cols,
                    i % self@.term.cols,
                    self@.scheme,
                ),
    {
        let rows = self.grid.rows();
        let cols = self.grid.cols();
        let mut cells: Vec<CellInfo> = Vec::new();
        let mut rr: u16 = 0;
        while rr < rows
            invariant
                rr <= rows,
                cells@.len() == rr as int * cols as int,
                forall|i: int|
                    0 <= i < cells@.len() ==> cell_info_matches(
                        #[trigger] cells@[i],
                        visible_line(self@.term, i / cols as int)[i % cols as int],
                        i / cols as int,
                        i % cols as int,
                        self@.scheme,
                    ),
            decreases rows - rr,
        {
            let line = self.grid.visible_row(rr);
            let mut cc: u16 = 0;
            while cc < cols
                invariant
                    cc <= cols,
                    rr < rows,
                    cells@.len() == rr as int * cols as int + cc as int,
                    forall|i: int|
                        0 <= i < cells@.len() ==> cell_info_matches(
                            #[trigger] cells@[i],
                            visible_line(self@.term, i / cols as int)[i % cols as int],
                            i / cols as int,
                            i % cols as int,
                            self@.scheme,
                        ),
                decreases cols - cc,
            {
                let cell = line[cc as usize];
                let info = CellInfo {
                    row: rr,
                    col: cc,
                    content: char_to_string(cell.ch),
                    fg: self.scheme.resolve(cell.fg),
                    bg: self.scheme.resolve(cell.bg),
                    flags: cell.flags,
                };
                cells.push(info);
                proof {
                    let idx = rr as int * cols as int + cc as int;
                    assert(idx / cols as int == rr as int && idx % cols as int == cc as int)
                        by (nonlinear_arith)
                        requires
                            0 <= rr as int,
                            0 <= cc as int,
                            (cc as int) < (cols as int),
                            idx == rr as int * cols as int + cc as int,
                    ;
                }
                cc += 1;
            }
            proof {
                assert((rr + 1) as int * cols as int == rr as int * cols as int + cols as int)
                    by (nonlinear_arith);
            }
            rr += 1;
        }
        let c = self.grid.cursor();
        TerminalGrid {
            cells,
            cursor: CursorInfo { row: c.row, col: c.col, visible: c.visible, shape: c.shape },
            cols: cols as usize,
            rows: rows as usize,
        }
    }

    /// The grid state itself, with its symbolic color references —
    /// the raw counterpart of the resolved snapshot.
    pub fn grid(&self) -> (g: &TermGrid)
        ensures
            g@ == self@.term,
    {
        &self.grid
    }

    /// The grid dimensions, as `(cols, rows)`.
    pub fn size(&self) -> (s: (u16, u16))
        ensures
            s.0 == self@.term.cols,
            s.1 == self@.term.rows,
    {
        (self.grid.cols(), self.grid.rows())
    }
}

} // verus!
