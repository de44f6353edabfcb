use executive_edit::cursor::{cursor_end, cursor_home, cursor_move, Cursor, Direction};
use executive_edit::document::Document;
use executive_edit::error::EditError;

fn numbered(count: usize) -> Document {
    Document::new((0..count).map(|i| format!("line {}", i)).collect()).unwrap()
}

fn doc(lines: &[&str]) -> Document {
    Document::new(lines.iter().map(|l| l.to_string()).collect()).unwrap()
}

fn at(column: usize, row: usize) -> Cursor {
    Cursor { column, row }
}

#[test]
fn cursor_home_goes_to_the_top() {
    let mut scroll = 10;
    assert_eq!(cursor_home(&mut scroll), at(1, 1));
    assert_eq!(scroll, 0);
}

#[test]
fn cursor_end_of_a_long_document_shows_its_last_rows() {
    let d = numbered(20);
    let mut scroll = 3;
    assert_eq!(cursor_end(at(4, 2), &mut scroll, &d, 5), at(1, 5));
    assert_eq!(scroll, 15);
}

#[test]
fn cursor_end_of_a_short_document_goes_to_its_last_row() {
    let d = numbered(4);
    let mut scroll = 0;
    assert_eq!(cursor_end(at(3, 1), &mut scroll, &d, 5), at(3, 4));
    assert_eq!(scroll, 0);
    assert_eq!(cursor_end(at(3, 1), &mut scroll, &numbered(5), 5), at(3, 5));
    assert_eq!(scroll, 0);
}

#[test]
fn a_step_right_stops_behind_the_end_of_the_line() {
    let d = doc(&["ab"]);
    let mut scroll = 0;
    assert_eq!(cursor_move(at(1, 1), &d, Direction::Right, 5, &mut scroll), Ok(at(2, 1)));
    assert_eq!(cursor_move(at(2, 1), &d, Direction::Right, 5, &mut scroll), Ok(at(3, 1)));
    assert_eq!(cursor_move(at(3, 1), &d, Direction::Right, 5, &mut scroll), Ok(at(3, 1)));
    assert_eq!(scroll, 0);
}

#[test]
fn a_step_left_stops_at_the_first_column() {
    let d = doc(&["ab"]);
    let mut scroll = 0;
    assert_eq!(cursor_move(at(2, 1), &d, Direction::Left, 5, &mut scroll), Ok(at(1, 1)));
    assert_eq!(cursor_move(at(1, 1), &d, Direction::Left, 5, &mut scroll), Ok(at(1, 1)));
}

#[test]
fn a_step_up_stops_at_the_first_row() {
    let d = doc(&["ab", "cd"]);
    let mut scroll = 0;
    assert_eq!(cursor_move(at(2, 2), &d, Direction::Up, 5, &mut scroll), Ok(at(2, 1)));
    assert_eq!(cursor_move(at(2, 1), &d, Direction::Up, 5, &mut scroll), Ok(at(2, 1)));
    assert_eq!(scroll, 0);
}

#[test]
fn a_step_down_stops_at_the_last_line() {
    let d = doc(&["ab", "cd"]);
    let mut scroll = 0;
    assert_eq!(cursor_move(at(1, 1), &d, Direction::Down, 5, &mut scroll), Ok(at(1, 2)));
    assert_eq!(cursor_move(at(1, 2), &d, Direction::Down, 5, &mut scroll), Ok(at(1, 2)));
    assert_eq!(scroll, 0);
}

#[test]
fn a_step_to_a_shorter_line_pulls_the_column_in() {
    let d = doc(&["hello", "ab", ""]);
    let mut scroll = 0;
    assert_eq!(cursor_move(at(6, 1), &d, Direction::Down, 5, &mut scroll), Ok(at(3, 2)));
    assert_eq!(cursor_move(at(3, 2), &d, Direction::Down, 5, &mut scroll), Ok(at(1, 3)));
    assert_eq!(cursor_move(at(3, 2), &d, Direction::Up, 5, &mut scroll), Ok(at(3, 1)));
}

#[test]
fn a_step_down_from_the_last_visible_row_scrolls() {
    let d = numbered(20);
    let mut scroll = 0;
    assert_eq!(cursor_move(at(1, 4), &d, Direction::Down, 5, &mut scroll), Ok(at(1, 5)));
    assert_eq!(scroll, 0);
    assert_eq!(cursor_move(at(1, 5), &d, Direction::Down, 5, &mut scroll), Ok(at(1, 5)));
    assert_eq!(scroll, 1);
}

#[test]
fn a_step_down_does_not_scroll_behind_the_document() {
    let d = numbered(20);
    let mut scroll = 15;
    assert_eq!(cursor_move(at(1, 5), &d, Direction::Down, 5, &mut scroll), Ok(at(1, 5)));
    assert_eq!(scroll, 15);
    let mut scroll = 14;
    assert_eq!(cursor_move(at(1, 5), &d, Direction::Down, 5, &mut scroll), Ok(at(1, 5)));
    assert_eq!(scroll, 15);
}

#[test]
fn a_step_down_below_the_screen_stays_in_the_document() {
    let d = numbered(6);
    let mut scroll = 0;
    assert_eq!(cursor_move(at(1, 6), &d, Direction::Down, 5, &mut scroll), Ok(at(1, 6)));
    assert_eq!(scroll, 0);
}

#[test]
fn a_step_up_near_the_top_of_the_screen_scrolls() {
    let d = numbered(20);
    for row in 1..=3 {
        let mut scroll = 10;
        assert_eq!(cursor_move(at(1, row), &d, Direction::Up, 5, &mut scroll), Ok(at(1, row)));
        assert_eq!(scroll, 9);
    }
    let mut scroll = 10;
    assert_eq!(cursor_move(at(1, 4), &d, Direction::Up, 5, &mut scroll), Ok(at(1, 3)));
    assert_eq!(scroll, 10);
}

#[test]
fn a_scroll_pulls_the_column_in() {
    let d = doc(&["a", "bcdef", "g", "h", "i", "j", "k", "l"]);
    let mut scroll = 1;
    assert_eq!(cursor_move(at(6, 1), &d, Direction::Up, 3, &mut scroll), Ok(at(2, 1)));
    assert_eq!(scroll, 0);
    let d = doc(&["a", "b", "cdefg", "h", "i", "j", "k", "l"]);
    let mut scroll = 0;
    assert_eq!(cursor_move(at(6, 3), &d, Direction::Down, 3, &mut scroll), Ok(at(2, 3)));
    assert_eq!(scroll, 1);
}

#[test]
fn a_cursor_outside_the_document_is_refused() {
    let d = doc(&["ab", "c"]);
    let mut scroll = 0;
    for direction in [Direction::Up, Direction::Down, Direction::Left, Direction::Right] {
        assert_eq!(cursor_move(at(1, 3), &d, direction, 5, &mut scroll), Err(EditError::OutOfRange));
        assert_eq!(cursor_move(at(4, 1), &d, direction, 5, &mut scroll), Err(EditError::OutOfRange));
        assert_eq!(cursor_move(at(0, 1), &d, direction, 5, &mut scroll), Err(EditError::OutOfRange));
        assert_eq!(cursor_move(at(1, 0), &d, direction, 5, &mut scroll), Err(EditError::OutOfRange));
    }
    let mut scroll = 2;
    assert_eq!(cursor_move(at(1, 1), &d, Direction::Up, 5, &mut scroll), Err(EditError::OutOfRange));
    assert_eq!(scroll, 2);
}

#[test]
fn steps_down_scroll_one_row_at_a_time() {
    let d = numbered(20);
    let height = 5;
    let mut scroll = 0;
    let mut cursor = at(1, 1);
    for _ in 0..30 {
        let before = scroll;
        let row = cursor.row;
        cursor = cursor_move(cursor, &d, Direction::Down, height, &mut scroll).unwrap();
        assert!(scroll == before || scroll == before + 1);
        if scroll == before + 1 {
            assert!(row >= height);
            assert!(d.line_count() - before > height);
            assert_eq!(cursor.row, row);
        }
        assert!(cursor.row <= height);
        assert!(cursor.row - 1 + scroll < d.line_count());
    }
    assert_eq!(scroll, 15);
    assert_eq!(cursor, at(1, 5));
}
