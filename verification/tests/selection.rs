use orbterm::grid::ScreenGrid;
use orbterm::selection::SelectionTracker;

fn row(text: &str, width: usize, height: usize) -> ScreenGrid {
    let mut grid = ScreenGrid::new(width, height, 1, 2);
    for (i, c) in text.chars().enumerate() {
        if c != ' ' {
            grid.put_char(i % width, i / width, c, 1, false);
        }
    }
    grid
}

fn select(start: usize, end: usize) -> SelectionTracker {
    let mut tracker = SelectionTracker::new();
    tracker.start_or_extend(start);
    tracker.start_or_extend(end);
    tracker
}

#[test]
fn a_selection_begins_and_is_extended() {
    let mut tracker = SelectionTracker::new();
    assert_eq!(tracker.selection, None);
    assert_eq!(tracker.normalized_range(), None);
    tracker.start_or_extend(7);
    assert_eq!(tracker.selection, Some((7, 7)));
    tracker.start_or_extend(12);
    assert_eq!(tracker.selection, Some((7, 12)));
    tracker.start_or_extend(3);
    assert_eq!(tracker.selection, Some((7, 3)));
    assert_eq!(tracker.normalized_range(), Some((3, 7)));
    tracker.clear();
    assert_eq!(tracker.selection, None);
}

#[test]
fn the_range_is_the_same_whichever_way_the_mouse_went() {
    assert_eq!(select(3, 7).normalized_range(), Some((3, 7)));
    assert_eq!(select(7, 3).normalized_range(), Some((3, 7)));
    assert_eq!(select(5, 5).normalized_range(), Some((5, 5)));
}

#[test]
fn the_selected_range_is_half_open() {
    let grid = row("ABCDEFG", 7, 1);
    assert_eq!(select(3, 7).extract_text(&grid), "DEFG");
    assert_eq!(select(7, 3).extract_text(&grid), "DEFG");
    assert_eq!(select(2, 5).extract_text(&grid), "CDE");
    assert_eq!(select(0, 7).extract_text(&grid), "ABCDEFG");
    assert_eq!(select(0, 1).extract_text(&grid), "A");
    assert_eq!(select(4, 4).extract_text(&grid), "");
    assert_eq!(SelectionTracker::new().extract_text(&grid), "");
}

#[test]
fn a_run_of_empty_cells_gives_one_line_break() {
    let grid = row("AB   CD E", 9, 1);
    assert_eq!(select(0, 9).extract_text(&grid), "AB\nCD\nE");
    assert_eq!(select(0, 5).extract_text(&grid), "AB");
    assert_eq!(select(2, 7).extract_text(&grid), "\nCD");
    assert_eq!(select(2, 5).extract_text(&grid), "");
}

#[test]
fn a_selection_runs_on_into_the_next_row() {
    let grid = row("ab  cd  ", 4, 2);
    assert_eq!(select(0, 8).extract_text(&grid), "ab\ncd");
    assert_eq!(select(1, 5).extract_text(&grid), "b\nc");
}

#[test]
fn a_selection_past_the_last_cell_ends_there() {
    let grid = row("ABCDEFG", 7, 1);
    assert_eq!(select(5, 100).extract_text(&grid), "FG");
    assert_eq!(select(7, 100).extract_text(&grid), "");
    assert_eq!(select(usize::MAX, 50).extract_text(&grid), "");
}
