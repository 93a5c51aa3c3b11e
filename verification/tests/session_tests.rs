use khafre::color::ColorRef;
use khafre::manager::{TermError, TerminalManager};
use khafre::terminal::{CursorShape, TerminalEvent, TerminalGrid};

fn cell_text(grid: &TerminalGrid, row: usize, col: usize) -> String {
    grid.cells[row * grid.cols + col].content.clone()
}

#[test]
fn test_new_snapshot_dimensions_and_cursor() {
    let m = TerminalManager::new(80, 24);
    let grid = m.get_grid();
    assert_eq!(grid.cols, 80);
    assert_eq!(grid.rows, 24);
    assert_eq!(grid.cells.len(), 80 * 24);
    assert_eq!(grid.cursor.row, 0);
    assert_eq!(grid.cursor.col, 0);
    assert!(grid.cursor.visible);
    assert!(grid.cursor.shape == CursorShape::Block);
}

#[test]
fn test_feed_prints_text() {
    let mut m = TerminalManager::new(10, 3);
    m.feed(b"hi");
    let grid = m.get_grid();
    assert_eq!(cell_text(&grid, 0, 0), "h");
    assert_eq!(cell_text(&grid, 0, 1), "i");
    assert_eq!(cell_text(&grid, 0, 2), " ");
    assert_eq!(grid.cursor.col, 2);
}

#[test]
fn test_feed_carriage_return_line_feed() {
    let mut m = TerminalManager::new(10, 3);
    m.feed(b"ab\r\ncd");
    let grid = m.get_grid();
    assert_eq!(cell_text(&grid, 0, 0), "a");
    assert_eq!(cell_text(&grid, 1, 0), "c");
    assert_eq!(cell_text(&grid, 1, 1), "d");
    assert_eq!(grid.cursor.row, 1);
    assert_eq!(grid.cursor.col, 2);
}

#[test]
fn test_feed_wraps_at_line_end() {
    let mut m = TerminalManager::new(3, 2);
    m.feed(b"abcd");
    let grid = m.get_grid();
    assert_eq!(cell_text(&grid, 0, 2), "c");
    assert_eq!(cell_text(&grid, 1, 0), "d");
}

#[test]
fn test_feed_scrolls_at_bottom() {
    let mut m = TerminalManager::new(5, 2);
    m.feed(b"a\r\nb\r\nc");
    let grid = m.get_grid();
    // "a" scrolled into history; the screen shows "b" and "c"
    assert_eq!(cell_text(&grid, 0, 0), "b");
    assert_eq!(cell_text(&grid, 1, 0), "c");
    // scrolling one line back brings "a" into view
    m.scroll(1);
    let grid = m.get_grid();
    assert_eq!(cell_text(&grid, 0, 0), "a");
    assert_eq!(cell_text(&grid, 1, 0), "b");
    m.scroll_to_bottom();
    let grid = m.get_grid();
    assert_eq!(cell_text(&grid, 0, 0), "b");
}

#[test]
fn test_cursor_moves() {
    let mut m = TerminalManager::new(10, 5);
    m.feed(b"\x1b[3;4H");
    let grid = m.get_grid();
    assert_eq!(grid.cursor.row, 2);
    assert_eq!(grid.cursor.col, 3);
    m.feed(b"\x1b[A\x1b[2D");
    let grid = m.get_grid();
    assert_eq!(grid.cursor.row, 1);
    assert_eq!(grid.cursor.col, 1);
    m.feed(b"\x1b[99;99H");
    let grid = m.get_grid();
    // absolute moves clamp into the grid
    assert_eq!(grid.cursor.row, 4);
    assert_eq!(grid.cursor.col, 9);
}

#[test]
fn test_erase_line_right_of_cursor() {
    let mut m = TerminalManager::new(8, 2);
    m.feed(b"abcdef\x1b[4G\x1b[K");
    let grid = m.get_grid();
    assert_eq!(cell_text(&grid, 0, 0), "a");
    assert_eq!(cell_text(&grid, 0, 2), "c");
    assert_eq!(cell_text(&grid, 0, 3), " ");
    assert_eq!(cell_text(&grid, 0, 5), " ");
}

#[test]
fn test_erase_display_clears_screen() {
    let mut m = TerminalManager::new(6, 3);
    m.feed(b"abc\r\ndef\x1b[H\x1b[2J");
    let grid = m.get_grid();
    for row in 0..3 {
        for col in 0..6 {
            assert_eq!(cell_text(&grid, row, col), " ");
        }
    }
}

#[test]
fn test_sgr_colors_resolved_in_snapshot() {
    let mut m = TerminalManager::new(6, 2);
    m.feed(b"\x1b[31mx\x1b[0my");
    let grid = m.get_grid();
    let red = &grid.cells[0];
    // the dark scheme's red slot
    assert_eq!((red.fg.r, red.fg.g, red.fg.b), (205, 49, 49));
    let plain = &grid.cells[1];
    assert_eq!((plain.fg.r, plain.fg.g, plain.fg.b), (212, 212, 212));
}

#[test]
fn test_sgr_styles_and_indexed_colors() {
    let mut m = TerminalManager::new(8, 2);
    m.feed(b"\x1b[1;4;38;5;196mz");
    let grid = m.get_grid();
    let styled = &grid.cells[0];
    assert!(styled.flags.bold);
    assert!(styled.flags.underline);
    // palette entry 196 sits in the color cube: (255, 0, 0)
    assert_eq!((styled.fg.r, styled.fg.g, styled.fg.b), (255, 0, 0));
}

#[test]
fn test_direct_color_passthrough() {
    let mut m = TerminalManager::new(8, 2);
    m.feed(b"\x1b[38;2;9;8;7mq");
    let grid = m.get_grid();
    let c = &grid.cells[0];
    assert_eq!((c.fg.r, c.fg.g, c.fg.b), (9, 8, 7));
}

#[test]
fn test_cursor_visibility_and_shape() {
    let mut m = TerminalManager::new(8, 2);
    m.feed(b"\x1b[?25l");
    assert!(!m.get_grid().cursor.visible);
    m.feed(b"\x1b[?25h");
    assert!(m.get_grid().cursor.visible);
    m.feed(b"\x1b[5 q");
    assert!(m.get_grid().cursor.shape == CursorShape::Beam);
    m.feed(b"\x1b[3 q");
    assert!(m.get_grid().cursor.shape == CursorShape::Underline);
    m.feed(b"\x1b[2 q");
    assert!(m.get_grid().cursor.shape == CursorShape::Block);
}

#[test]
fn test_utf8_text() {
    let mut m = TerminalManager::new(8, 2);
    m.feed("é€".as_bytes());
    let grid = m.get_grid();
    assert_eq!(cell_text(&grid, 0, 0), "é");
    assert_eq!(cell_text(&grid, 0, 1), "€");
}

#[test]
fn test_malformed_sequences_are_skipped() {
    let mut m = TerminalManager::new(10, 2);
    // an unknown control sequence, a stray continuation byte, and an
    // unfinished escape, then plain text again
    m.feed(b"\x1b[999z\x90a\x1b");
    m.feed(b"(Bb");
    let grid = m.get_grid();
    assert_eq!(cell_text(&grid, 0, 0), "a");
    assert_eq!(cell_text(&grid, 0, 1), "b");
}

#[test]
fn test_title_and_bell_events_in_order() {
    let mut m = TerminalManager::new(10, 2);
    m.feed(b"\x1b]0;hello\x07\x07");
    let events = m.poll_events();
    assert_eq!(events.len(), 2);
    assert!(matches!(&events[0], TerminalEvent::Title(t) if t == "hello"));
    assert!(matches!(events[1], TerminalEvent::Bell));
}

#[test]
fn test_clipboard_events() {
    let mut m = TerminalManager::new(10, 2);
    m.feed(b"\x1b]52;c;aGk=\x1b\\");
    m.feed(b"\x1b]52;c;?\x07");
    let events = m.poll_events();
    assert_eq!(events.len(), 2);
    assert!(matches!(&events[0], TerminalEvent::ClipboardStore(p) if p == "aGk="));
    assert!(matches!(events[1], TerminalEvent::ClipboardLoad));
}

#[test]
fn test_poll_events_drains() {
    let mut m = TerminalManager::new(10, 2);
    m.feed(b"\x07");
    let first = m.poll_events();
    assert_eq!(first.len(), 1);
    let second = m.poll_events();
    assert!(second.is_empty());
}

#[test]
fn test_write_passes_bytes_through() {
    let m = TerminalManager::new(10, 2);
    let out = m.write(b"ls\r").expect("live session accepts writes");
    assert_eq!(out, b"ls\r".to_vec());
}

#[test]
fn test_write_after_close_fails_with_session_ended() {
    let mut m = TerminalManager::new(10, 2);
    m.close();
    m.close();
    let err = m.write(b"x").expect_err("closed session refuses writes");
    assert_eq!(err, TermError::SessionEnded);
}

#[test]
fn test_eof_posts_exit_and_ends_session() {
    let mut m = TerminalManager::new(10, 2);
    m.handle_eof();
    let events = m.poll_events();
    assert!(matches!(events[..], [TerminalEvent::Exit]));
    let err = m.write(b"x").expect_err("ended session refuses writes");
    assert_eq!(err, TermError::SessionEnded);
}

#[test]
fn test_resize_consistency() {
    let mut m = TerminalManager::new(80, 24);
    m.feed(b"\x1b[24;80H");
    m.resize(100, 40);
    assert_eq!(m.size(), (100, 40));
    let grid = m.get_grid();
    assert_eq!(grid.cols, 100);
    assert_eq!(grid.rows, 40);
    assert!(grid.cursor.row < 40);
    assert!(grid.cursor.col < 100);
    // shrink: the cursor clamps into the smaller grid
    m.resize(10, 4);
    let grid = m.get_grid();
    assert_eq!((grid.cols, grid.rows), (10, 4));
    assert!(grid.cursor.row < 4);
    assert!(grid.cursor.col < 10);
}

#[test]
fn test_resize_keeps_top_left_content() {
    let mut m = TerminalManager::new(8, 3);
    m.feed(b"abcdef");
    m.resize(4, 2);
    let grid = m.get_grid();
    assert_eq!(cell_text(&grid, 0, 0), "a");
    assert_eq!(cell_text(&grid, 0, 3), "d");
    m.resize(6, 3);
    let grid = m.get_grid();
    assert_eq!(cell_text(&grid, 0, 0), "a");
    // the columns cut by the shrink stay blank after growing
    assert_eq!(cell_text(&grid, 0, 4), " ");
}

#[test]
fn test_escape_sequence_split_across_feeds() {
    let mut m = TerminalManager::new(6, 2);
    m.feed(b"\x1b[");
    m.feed(b"31mx");
    let grid = m.get_grid();
    let c = &grid.cells[0];
    assert_eq!(cell_text(&grid, 0, 0), "x");
    assert_eq!((c.fg.r, c.fg.g, c.fg.b), (205, 49, 49));
}

#[test]
fn test_resize_refits_history() {
    let mut m = TerminalManager::new(6, 2);
    m.feed(b"abcdef\r\n1\r\n2");
    // the first line scrolled into history; narrow the grid
    m.resize(3, 2);
    m.scroll(1);
    let grid = m.get_grid();
    // the history line was cut to the new width
    assert_eq!((grid.cols, grid.rows), (3, 2));
    assert_eq!(cell_text(&grid, 0, 0), "a");
    assert_eq!(cell_text(&grid, 0, 2), "c");
}

#[test]
fn test_minimal_grid() {
    let mut m = TerminalManager::new(1, 1);
    let grid = m.get_grid();
    assert_eq!((grid.cols, grid.rows), (1, 1));
    assert_eq!(grid.cells.len(), 1);
    m.feed(b"ab");
    let grid = m.get_grid();
    // each printed character fills the only cell; the second printed
    // after a wrap that scrolled the first away
    assert_eq!(cell_text(&grid, 0, 0), "b");
}

#[test]
fn test_scroll_clamps_to_history() {
    let mut m = TerminalManager::new(5, 2);
    // no history yet: scrolling anywhere stays put
    m.scroll(5);
    m.scroll(-50);
    let grid = m.get_grid();
    assert_eq!(cell_text(&grid, 0, 0), " ");
    // two lines of history after four lines on a two-row screen
    m.feed(b"a\r\nb\r\nc\r\nd");
    m.scroll(100);
    let grid = m.get_grid();
    assert_eq!(cell_text(&grid, 0, 0), "a");
    assert_eq!(cell_text(&grid, 1, 0), "b");
}

#[test]
fn test_erase_line_left_and_whole() {
    let mut m = TerminalManager::new(6, 2);
    m.feed(b"abcdef\x1b[3G\x1b[1K");
    let grid = m.get_grid();
    // mode 1 blanks from the start through the cursor column
    assert_eq!(cell_text(&grid, 0, 0), " ");
    assert_eq!(cell_text(&grid, 0, 2), " ");
    assert_eq!(cell_text(&grid, 0, 3), "d");
    m.feed(b"\x1b[2K");
    let grid = m.get_grid();
    for col in 0..6 {
        assert_eq!(cell_text(&grid, 0, col), " ");
    }
}

#[test]
fn test_grid_keeps_symbolic_references() {
    let mut m = TerminalManager::new(6, 2);
    m.feed(b"\x1b[31mx");
    // the stored cell carries the reference, not a resolved color
    let cell = m.grid().cell(0, 0);
    assert!(cell.fg == ColorRef::Indexed(1));
    assert!(cell.bg == ColorRef::Background);
    assert_eq!(cell.ch, 'x');
}

#[test]
fn test_set_color_scheme_changes_resolution_only() {
    let mut m = TerminalManager::new(6, 2);
    m.feed(b"x");
    m.set_color_scheme(khafre::color::ColorScheme::light());
    let grid = m.get_grid();
    let c = &grid.cells[0];
    // the stored reference now resolves against the light scheme
    assert_eq!((c.fg.r, c.fg.g, c.fg.b), (0, 0, 0));
    assert_eq!(cell_text(&grid, 0, 0), "x");
}
