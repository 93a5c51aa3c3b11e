use khafre::color::Rgb;
use khafre::selection::Selection;
use khafre::terminal::{CellFlags, CellInfo, CursorInfo, TerminalGrid};

fn cell(row: u16, col: u16, text: &str) -> CellInfo {
    CellInfo {
        row,
        col,
        content: text.to_string(),
        fg: Rgb::new(212, 212, 212),
        bg: Rgb::new(30, 30, 30),
        flags: CellFlags::default(),
    }
}

fn grid_with(cells: Vec<CellInfo>, cols: usize, rows: usize) -> TerminalGrid {
    TerminalGrid { cells, cursor: CursorInfo::default(), cols, rows }
}

#[test]
fn test_selection_contains() {
    let mut sel = Selection::new();
    sel.start = Some((1, 5));
    sel.end = Some((3, 10));

    // Should contain
    assert!(sel.contains(1, 5));
    assert!(sel.contains(1, 10));
    assert!(sel.contains(2, 0));
    assert!(sel.contains(2, 50));
    assert!(sel.contains(3, 0));
    assert!(sel.contains(3, 10));

    // Should not contain
    assert!(!sel.contains(0, 5));
    assert!(!sel.contains(1, 4));
    assert!(!sel.contains(3, 11));
    assert!(!sel.contains(4, 5));
}

#[test]
fn test_selection_single_line() {
    let mut sel = Selection::new();
    sel.start = Some((2, 5));
    sel.end = Some((2, 10));

    assert!(sel.contains(2, 5));
    assert!(sel.contains(2, 7));
    assert!(sel.contains(2, 10));
    assert!(!sel.contains(2, 4));
    assert!(!sel.contains(2, 11));
}

#[test]
fn test_selection_reversed() {
    let mut sel = Selection::new();
    // Selection from bottom-right to top-left
    sel.start = Some((3, 10));
    sel.end = Some((1, 5));

    assert!(sel.contains(1, 5));
    assert!(sel.contains(2, 0));
    assert!(sel.contains(3, 10));
}

#[test]
fn test_selection_round_trip_single_row() {
    let mut cells = Vec::new();
    for (i, ch) in ["h", "e", "l", "l", "o"].iter().enumerate() {
        cells.push(cell(2, i as u16, ch));
    }
    let grid = grid_with(cells, 10, 5);

    let mut sel = Selection::new();
    sel.start_at(2, 0);
    sel.update_to(2, 4);
    sel.complete();
    assert!(sel.has_selection());
    assert!(!sel.active);
    assert_eq!(sel.get_text(&grid), "hello");
}

#[test]
fn test_selection_normalization_symmetric() {
    let mut forward = Selection::new();
    forward.start_at(1, 5);
    forward.update_to(3, 10);
    let mut backward = Selection::new();
    backward.start_at(3, 10);
    backward.update_to(1, 5);

    for row in 0..5u16 {
        for col in 0..60u16 {
            assert_eq!(forward.contains(row, col), backward.contains(row, col));
        }
    }
}

#[test]
fn test_selection_multi_line_trimmed() {
    // row 1 holds content from column 5 onward, row 3 up to column 10,
    // row 2 is fully selected.
    let mut cells = Vec::new();
    for c in 5..8u16 {
        cells.push(cell(1, c, "a"));
    }
    for c in 0..4u16 {
        cells.push(cell(2, c, "b"));
    }
    for c in 0..=10u16 {
        cells.push(cell(3, c, "c"));
    }
    let grid = grid_with(cells, 20, 6);

    let mut sel = Selection::new();
    sel.start_at(1, 5);
    sel.update_to(3, 10);
    sel.complete();
    let text = sel.get_text(&grid);
    assert_eq!(text, "aaa\nbbbb\nccccccccccc");
}

#[test]
fn test_selection_empty_without_endpoints() {
    let sel = Selection::new();
    assert!(!sel.has_selection());
    assert!(!sel.contains(0, 0));
    let grid = grid_with(Vec::new(), 10, 5);
    assert_eq!(sel.get_text(&grid), "");
}

#[test]
fn test_selection_update_inactive_is_noop() {
    let mut sel = Selection::new();
    sel.start_at(1, 1);
    sel.complete();
    sel.update_to(4, 4);
    assert_eq!(sel.end, Some((1, 1)));
}

#[test]
fn test_selection_clear() {
    let mut sel = Selection::new();
    sel.start_at(1, 1);
    sel.update_to(2, 2);
    sel.clear();
    assert!(!sel.has_selection());
    assert_eq!(sel.start, None);
    assert_eq!(sel.end, None);
    assert!(!sel.active);
}

#[test]
fn test_selection_rows_beyond_grid_are_spaces_trimmed() {
    // the selected range reaches below the recorded rows: those rows
    // produce only spaces, which trim to empty lines
    let cells = vec![cell(0, 0, "x")];
    let grid = grid_with(cells, 3, 2);
    let mut sel = Selection::new();
    sel.start_at(0, 0);
    sel.update_to(1, 2);
    sel.complete();
    assert_eq!(sel.get_text(&grid), "x\n");
}
