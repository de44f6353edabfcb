use executive_edit::cursor::{Cursor, Viewport};
use executive_edit::document::Document;
use executive_edit::error::EditError;
use executive_edit::input::InputEvent;
use executive_edit::session::{Action, Session};

fn strings(lines: &[&str]) -> Vec<String> {
    lines.iter().map(|l| l.to_string()).collect()
}

fn session(lines: &[&str], column: usize, row: usize, scroll_offset: usize, height: usize) -> Session {
    Session {
        doc: Document::new(strings(lines)).unwrap(),
        cursor: Cursor { column, row },
        viewport: Viewport { scroll_offset, height },
        dirty: false,
    }
}

fn at(column: usize, row: usize) -> Cursor {
    Cursor { column, row }
}

fn assert_cursor_in_document(s: &Session) {
    assert!(s.cursor.row >= 1);
    let row = s.cursor.row - 1 + s.viewport.scroll_offset;
    assert!(row < s.doc.line_count());
    assert!(s.cursor.column >= 1);
    assert!(s.cursor.column <= s.doc.length_of(row).unwrap() + 1);
    for (line, length) in s.doc.lines().iter().zip(s.doc.lengths().iter()) {
        assert_eq!(line.chars().count(), *length);
    }
    assert_eq!(s.doc.lines().len(), s.doc.lengths().len());
}

#[test]
fn a_new_session_starts_at_the_top() {
    let s = Session::new(Document::from_lines(strings(&["ab"])).unwrap());
    assert_eq!(s.cursor, at(1, 1));
    assert_eq!(s.viewport, Viewport { scroll_offset: 0, height: 0 });
    assert!(!s.dirty);
    assert_eq!(s.doc.lines(), &strings(&["ab", ""]));
}

#[test]
fn enter_at_the_start_of_a_line_puts_an_empty_line_before_it() {
    let mut s = session(&["ab", "c", ""], 1, 1, 0, 5);
    assert_eq!(s.handle(InputEvent::Enter), Ok(Action::Redraw));
    assert_eq!(s.doc.lines(), &strings(&["", "ab", "c", ""]));
    assert_eq!(s.cursor, at(1, 2));
    assert!(s.dirty);
}

#[test]
fn enter_inside_a_line_cuts_it() {
    let mut s = session(&["hello"], 3, 1, 0, 5);
    assert_eq!(s.handle(InputEvent::Enter), Ok(Action::Redraw));
    assert_eq!(s.doc.lines(), &strings(&["he", "llo"]));
    assert_eq!(s.cursor, at(1, 2));
}

#[test]
fn backspace_at_the_end_of_a_line_removes_its_last_character() {
    let mut s = session(&["ab"], 3, 1, 0, 5);
    assert_eq!(s.handle(InputEvent::Backspace), Ok(Action::Redraw));
    assert_eq!(s.doc.lines(), &strings(&["a"]));
    assert_eq!(s.cursor, at(2, 1));
    assert!(s.dirty);
}

#[test]
fn backspace_at_the_start_of_a_line_joins_it_to_the_one_before() {
    let mut s = session(&["ab", "cd"], 1, 2, 0, 5);
    assert_eq!(s.handle(InputEvent::Backspace), Ok(Action::Redraw));
    assert_eq!(s.doc.lines(), &strings(&["abcd"]));
    assert_eq!(s.cursor, at(3, 1));
    assert!(s.dirty);
}

#[test]
fn backspace_at_the_very_start_does_nothing() {
    let mut s = session(&["ab", "cd"], 1, 1, 0, 5);
    assert_eq!(s.handle(InputEvent::Backspace), Ok(Action::Redraw));
    assert_eq!(s.doc.lines(), &strings(&["ab", "cd"]));
    assert_eq!(s.cursor, at(1, 1));
    assert!(!s.dirty);
}

#[test]
fn backspace_in_the_first_screen_row_does_not_join() {
    let mut s = session(&["ab", "cd"], 1, 1, 1, 5);
    assert_eq!(s.handle(InputEvent::Backspace), Ok(Action::Redraw));
    assert_eq!(s.doc.lines(), &strings(&["ab", "cd"]));
    assert_eq!(s.cursor, at(1, 1));
    assert!(!s.dirty);
}

#[test]
fn delete_at_the_end_of_a_line_joins_the_next_to_it() {
    let mut s = session(&["a", "b"], 2, 1, 0, 5);
    assert_eq!(s.handle(InputEvent::Delete), Ok(Action::Redraw));
    assert_eq!(s.doc.lines(), &strings(&["ab"]));
    assert_eq!(s.cursor, at(2, 1));
    assert!(s.dirty);
}

#[test]
fn delete_on_a_character_removes_it() {
    let mut s = session(&["abc"], 2, 1, 0, 5);
    assert_eq!(s.handle(InputEvent::Delete), Ok(Action::Redraw));
    assert_eq!(s.doc.lines(), &strings(&["ac"]));
    assert_eq!(s.cursor, at(2, 1));
    let mut s = session(&["abc"], 3, 1, 0, 5);
    assert_eq!(s.handle(InputEvent::Delete), Ok(Action::Redraw));
    assert_eq!(s.doc.lines(), &strings(&["ab"]));
    assert_eq!(s.cursor, at(3, 1));
}

#[test]
fn delete_at_the_end_of_the_document_does_nothing() {
    let mut s = session(&["a", "b"], 2, 2, 0, 5);
    assert_eq!(s.handle(InputEvent::Delete), Ok(Action::Redraw));
    assert_eq!(s.doc.lines(), &strings(&["a", "b"]));
    assert_eq!(s.cursor, at(2, 2));
    assert!(!s.dirty);
}

#[test]
fn delete_works_on_the_row_that_the_viewport_shows() {
    let mut s = session(&["xyz", "a", "b"], 2, 1, 1, 5);
    assert_eq!(s.handle(InputEvent::Delete), Ok(Action::Redraw));
    assert_eq!(s.doc.lines(), &strings(&["xyz", "ab"]));
    assert_eq!(s.cursor, at(2, 1));
}

#[test]
fn home_goes_to_the_top_of_the_document() {
    let lines: Vec<String> = (0..20).map(|i| format!("{}", i)).collect();
    let mut s = Session {
        doc: Document::new(lines).unwrap(),
        cursor: at(2, 3),
        viewport: Viewport { scroll_offset: 10, height: 5 },
        dirty: false,
    };
    assert_eq!(s.handle(InputEvent::Home), Ok(Action::Redraw));
    assert_eq!(s.viewport.scroll_offset, 0);
    assert_eq!(s.viewport.height, 5);
    assert_eq!(s.cursor, at(1, 1));
    assert!(!s.dirty);
}

#[test]
fn end_goes_to_the_last_rows_of_a_long_document() {
    let lines: Vec<String> = (0..20).map(|i| format!("{}", i)).collect();
    let mut s = Session::new(Document::new(lines).unwrap());
    s.set_height(5);
    assert_eq!(s.handle(InputEvent::End), Ok(Action::Redraw));
    assert_eq!(s.viewport.scroll_offset, 15);
    assert_eq!(s.cursor, at(1, 5));
    assert_cursor_in_document(&s);
}

#[test]
fn end_goes_to_the_last_row_of_a_short_document() {
    let mut s = session(&["ab", "cd", "ef"], 2, 1, 0, 5);
    assert_eq!(s.handle(InputEvent::End), Ok(Action::Redraw));
    assert_eq!(s.viewport.scroll_offset, 0);
    assert_eq!(s.cursor, at(2, 3));
}

#[test]
fn end_may_leave_the_cursor_behind_a_shorter_last_line() {
    let mut s = session(&["abc", ""], 4, 1, 0, 5);
    assert_eq!(s.handle(InputEvent::End), Ok(Action::Redraw));
    assert_eq!(s.cursor, at(4, 2));
    assert_eq!(s.handle(InputEvent::MoveLeft), Err(EditError::OutOfRange));
    assert_eq!(s.cursor, at(4, 2));
    assert_eq!(s.handle(InputEvent::Home), Ok(Action::Redraw));
    assert_cursor_in_document(&s);
}

#[test]
fn typing_puts_the_character_in_and_moves_on() {
    let mut s = session(&["ac"], 2, 1, 0, 5);
    assert_eq!(s.handle(InputEvent::InsertChar('b')), Ok(Action::Redraw));
    assert_eq!(s.doc.lines(), &strings(&["abc"]));
    assert_eq!(s.cursor, at(3, 1));
    assert!(s.dirty);
}

#[test]
fn typing_works_on_the_row_that_the_viewport_shows() {
    let mut s = session(&["a", "b", "c"], 2, 2, 1, 5);
    assert_eq!(s.handle(InputEvent::InsertChar('!')), Ok(Action::Redraw));
    assert_eq!(s.doc.lines(), &strings(&["a", "b", "c!"]));
    assert_eq!(s.cursor, at(3, 2));
}

#[test]
fn save_and_quit_change_nothing() {
    let mut s = session(&["ab"], 2, 1, 0, 5);
    s.dirty = true;
    assert_eq!(s.handle(InputEvent::Save), Ok(Action::Save));
    assert!(s.dirty);
    assert_eq!(s.handle(InputEvent::Quit), Ok(Action::Quit));
    assert_eq!(s.doc.lines(), &strings(&["ab"]));
    assert_eq!(s.cursor, at(2, 1));
    s.mark_saved();
    assert!(!s.dirty);
}

#[test]
fn moving_does_not_mark_the_document() {
    let mut s = session(&["ab", "cd"], 1, 1, 0, 5);
    for event in [InputEvent::MoveRight, InputEvent::MoveDown, InputEvent::MoveLeft, InputEvent::MoveUp, InputEvent::End, InputEvent::Home] {
        assert_eq!(s.handle(event), Ok(Action::Redraw));
        assert!(!s.dirty);
    }
    assert_eq!(s.doc.lines(), &strings(&["ab", "cd"]));
}

#[test]
fn edits_with_the_cursor_outside_the_document_are_refused() {
    for event in [InputEvent::InsertChar('x'), InputEvent::Enter, InputEvent::Backspace, InputEvent::Delete, InputEvent::MoveUp] {
        let mut s = session(&["ab"], 1, 2, 0, 5);
        assert_eq!(s.handle(event), Err(EditError::OutOfRange));
        assert_eq!(s.doc.lines(), &strings(&["ab"]));
        assert_eq!(s.cursor, at(1, 2));
        assert!(!s.dirty);
        let mut s = session(&["ab"], 4, 1, 0, 5);
        assert_eq!(s.handle(event), Err(EditError::OutOfRange));
        assert_eq!(s.doc.lines(), &strings(&["ab"]));
    }
}

#[test]
fn cursor_row_is_the_row_of_the_document() {
    let s = session(&["a", "b", "c"], 1, 2, 1, 5);
    assert_eq!(s.cursor_row(), Ok(2));
    let s = session(&["a", "b", "c"], 1, 3, 1, 5);
    assert_eq!(s.cursor_row(), Err(EditError::OutOfRange));
}

#[test]
fn the_cursor_stays_in_the_document_through_a_run_of_events() {
    let lines: Vec<String> = (0..12).map(|i| "x".repeat(i % 5)).collect();
    let mut s = Session::new(Document::from_lines(lines).unwrap());
    s.set_height(4);
    let events = [
        InputEvent::MoveDown, InputEvent::MoveDown, InputEvent::MoveRight, InputEvent::MoveRight,
        InputEvent::InsertChar('a'), InputEvent::Enter, InputEvent::MoveDown, InputEvent::MoveDown,
        InputEvent::MoveDown, InputEvent::MoveDown, InputEvent::Backspace, InputEvent::Backspace,
        InputEvent::Delete, InputEvent::MoveUp, InputEvent::MoveUp, InputEvent::MoveUp,
        InputEvent::MoveUp, InputEvent::Delete, InputEvent::Delete, InputEvent::MoveLeft,
        InputEvent::Enter, InputEvent::Enter, InputEvent::InsertChar('b'), InputEvent::MoveDown,
        InputEvent::MoveDown, InputEvent::MoveDown, InputEvent::MoveDown, InputEvent::MoveDown,
        InputEvent::MoveDown, InputEvent::MoveDown, InputEvent::MoveDown, InputEvent::MoveDown,
        InputEvent::MoveDown, InputEvent::MoveDown, InputEvent::MoveDown, InputEvent::Backspace,
        InputEvent::Home, InputEvent::Delete, InputEvent::Backspace, InputEvent::MoveRight,
    ];
    for round in 0..3 {
        for event in events {
            let scroll = s.viewport.scroll_offset;
            assert_eq!(s.handle(event), Ok(Action::Redraw), "round {}", round);
            assert_cursor_in_document(&s);
            if event == InputEvent::MoveDown {
                assert!(s.viewport.scroll_offset == scroll || s.viewport.scroll_offset == scroll + 1);
            }
        }
    }
    assert!(s.dirty);
}
