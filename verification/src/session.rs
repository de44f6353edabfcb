//! The session: one document, one viewport, one cursor and the flag that
//! says whether the document has unsaved changes.
//!
//! What an input event does is written down once, on the plain values of a
//! session ([`SessionView`]): [`refused`] says when an event is turned down
//! and [`after_event`] what the session is afterwards. [`Session::handle`]
//! does exactly that.
//!
//! An event that would need a cursor outside the document, or a line too
//! long for its end to have a column, is turned down with `OutOfRange` and
//! changes nothing.

use vstd::prelude::*;
use crate::cursor::{
    absolute_row, column_after_move, cursor_end, cursor_home, cursor_in_bounds, cursor_move,
    lemma_move_stays_in_bounds, lemma_move_stays_on_screen, row_after_move, scroll_after_move,
    Cursor, Direction, Viewport,
};
use crate::document::{
    all_short, lengths_of, lines_with_char, lines_without_char, merged_lines, split_lines, Document,
};
use crate::error::EditError;
use crate::input::{bool_toggle, InputEvent};

verus! {

/// What the caller does after an event.
#[derive(Clone, Copy, Debug, PartialEq, Eq, Structural)]
pub enum Action {
    /// Paint the screen again.
    Redraw,
    /// Write the document out, then paint the screen again.
    Save,
    /// Leave.
    Quit,
}

/// An editing session.
pub struct Session {
    pub doc: Document,
    pub cursor: Cursor,
    pub viewport: Viewport,
    pub dirty: bool,
}

/// A session as plain values.
pub struct SessionView {
    pub lines: Seq<Seq<char>>,
    pub cursor: Cursor,
    pub viewport: Viewport,
    pub dirty: bool,
}

impl View for Session {
    type V = SessionView;

    open spec fn view(&self) -> SessionView {
        SessionView {
            lines: self.doc@,
            cursor: self.cursor,
            viewport: self.viewport,
            dirty: self.dirty,
        }
    }
}

impl SessionView {
    /// The values are those of a session: the document has a line and no
    /// more than `usize::MAX` of them, and every line is shorter than
    /// `usize::MAX`.
    pub open spec fn wf(self) -> bool {
        &&& 1 <= self.lines.len() <= usize::MAX
        &&& all_short(self.lines)
    }

    /// End brings the cursor to a place in the document. It does where the
    /// document has more rows than the screen and the screen has a row; or
    /// where it has no more rows than the screen, the top of the document is
    /// in view, and the cursor's column is one of the last line.
    pub open spec fn end_stands_in_document(self) -> bool {
        if self.lines.len() > self.viewport.height {
            self.viewport.height >= 1
        } else {
            &&& self.viewport.scroll_offset == 0
            &&& 1 <= self.cursor.column <= self.lines.last().len() + 1
        }
    }

    /// The cursor stands in the document.
    pub open spec fn in_bounds(self) -> bool {
        cursor_in_bounds(self.cursor, self.viewport.scroll_offset, lengths_of(self.lines))
    }

    /// The document row of the cursor.
    pub open spec fn row(self) -> int {
        absolute_row(self.cursor.row, self.viewport.scroll_offset)
    }

    /// The line of the cursor.
    pub open spec fn line(self) -> Seq<char> {
        self.lines[self.row()]
    }

    /// Backspace joins the cursor's line to the one before it: the cursor is
    /// in the first column, and not in the first screen row.
    pub open spec fn joins_previous(self) -> bool {
        self.cursor.column == 1 && self.cursor.row > 1
    }

    /// Delete joins the next line to the cursor's: the cursor is behind the
    /// end of its line, and that is not the last line.
    pub open spec fn joins_next(self) -> bool {
        self.cursor.column > self.line().len() && self.row() + 1 < self.lines.len()
    }

    /// The session after a move of the cursor.
    pub open spec fn moved(self, direction: Direction) -> SessionView {
        let row = self.cursor.row;
        let scroll = self.viewport.scroll_offset;
        let height = self.viewport.height;
        SessionView {
            cursor: Cursor {
                column: column_after_move(
                    self.cursor,
                    scroll,
                    height,
                    direction,
                    lengths_of(self.lines),
                ) as usize,
                row: row_after_move(row, scroll, height, direction, self.lines.len()) as usize,
            },
            viewport: Viewport {
                scroll_offset: scroll_after_move(
                    row,
                    scroll,
                    height,
                    direction,
                    self.lines.len(),
                ) as usize,
                height,
            },
            ..self
        }
    }

    /// The session after Home: the top of the document, first row and column.
    pub open spec fn at_home(self) -> SessionView {
        SessionView {
            cursor: Cursor { column: 1, row: 1 },
            viewport: Viewport { scroll_offset: 0, height: self.viewport.height },
            ..self
        }
    }

    /// The session after End. A document with more rows than the screen is
    /// shown to its last row, with the cursor at the start of the last screen
    /// row. Otherwise only the cursor's row changes, to the number of lines.
    pub open spec fn at_end(self) -> SessionView {
        let height = self.viewport.height;
        if self.lines.len() > height {
            SessionView {
                cursor: Cursor { column: 1, row: height },
                viewport: Viewport { scroll_offset: (self.lines.len() - height) as usize, height },
                ..self
            }
        } else {
            SessionView {
                cursor: Cursor { column: self.cursor.column, row: self.lines.len() as usize },
                ..self
            }
        }
    }

    /// The session after a character was typed: it goes in at the cursor,
    /// and the cursor moves behind it.
    pub open spec fn typed(self, ch: char) -> SessionView {
        SessionView {
            lines: lines_with_char(self.lines, self.row(), self.cursor.column - 1, ch),
            cursor: Cursor { column: (self.cursor.column + 1) as usize, row: self.cursor.row },
            dirty: true,
            ..self
        }
    }

    /// The session after Enter: the line is cut at the cursor, and the cursor
    /// goes to the start of the new line.
    pub open spec fn entered(self) -> SessionView {
        SessionView {
            lines: split_lines(self.lines, self.row(), self.cursor.column - 1),
            cursor: Cursor { column: 1, row: (self.cursor.row + 1) as usize },
            dirty: true,
            ..self
        }
    }

    /// The session after Backspace. Inside a line the character before the
    /// cursor goes, and the cursor steps back. At the start of a line, below
    /// the first screen row, the line is joined to the one before it and the
    /// cursor comes to stand where the two meet. In the first column of the
    /// first screen row nothing happens.
    pub open spec fn backspaced(self) -> SessionView {
        if self.cursor.column > 1 {
            SessionView {
                lines: lines_without_char(self.lines, self.row(), self.cursor.column - 2),
                cursor: Cursor { column: (self.cursor.column - 1) as usize, row: self.cursor.row },
                dirty: true,
                ..self
            }
        } else if self.joins_previous() {
            SessionView {
                lines: merged_lines(self.lines, self.row() - 1),
                cursor: Cursor {
                    column: (self.lines[self.row() - 1].len() + 1) as usize,
                    row: (self.cursor.row - 1) as usize,
                },
                dirty: true,
                ..self
            }
        } else {
            self
        }
    }

    /// The session after Delete. On a character, that character goes. Behind
    /// the end of a line that is not the last, the next line is joined to it.
    /// Behind the end of the last line nothing happens. The cursor stays.
    pub open spec fn deleted(self) -> SessionView {
        if self.cursor.column <= self.line().len() {
            SessionView {
                lines: lines_without_char(self.lines, self.row(), self.cursor.column - 1),
                dirty: true,
                ..self
            }
        } else if self.joins_next() {
            SessionView { lines: merged_lines(self.lines, self.row()), dirty: true, ..self }
        } else {
            self
        }
    }
}

/// The event is turned down. Home, End, Save and Quit never are. The others
/// are when the cursor does not stand in the document, or when the line they
/// would make is not shorter than `usize::MAX`, or when the document had more
/// than `usize::MAX` lines after them.
pub open spec fn refused(s: SessionView, event: InputEvent) -> bool {
    match event {
        InputEvent::Home | InputEvent::End | InputEvent::Save | InputEvent::Quit => false,
        InputEvent::MoveUp
        | InputEvent::MoveDown
        | InputEvent::MoveLeft
        | InputEvent::MoveRight => !s.in_bounds(),
        InputEvent::Enter => !s.in_bounds() || s.lines.len() >= usize::MAX,
        InputEvent::InsertChar(_) => !s.in_bounds() || s.line().len() + 1 >= usize::MAX,
        InputEvent::Backspace => !s.in_bounds() || (s.joins_previous() && s.lines[s.row()
            - 1].len() + s.line().len() >= usize::MAX),
        InputEvent::Delete => !s.in_bounds() || (s.joins_next() && s.line().len() + s.lines[s.row()
            + 1].len() >= usize::MAX),
    }
}

/// The session after an event that is not turned down.
pub open spec fn after_event(s: SessionView, event: InputEvent) -> SessionView {
    match event {
        InputEvent::MoveUp => s.moved(Direction::Up),
        InputEvent::MoveDown => s.moved(Direction::Down),
        InputEvent::MoveLeft => s.moved(Direction::Left),
        InputEvent::MoveRight => s.moved(Direction::Right),
        InputEvent::Home => s.at_home(),
        InputEvent::End => s.at_end(),
        InputEvent::InsertChar(ch) => s.typed(ch),
        InputEvent::Enter => s.entered(),
        InputEvent::Backspace => s.backspaced(),
        InputEvent::Delete => s.deleted(),
        InputEvent::Save | InputEvent::Quit => s,
    }
}

/// The session after a run of events, each taken as it comes: one that is
/// turned down changes nothing, and the run goes on.
pub open spec fn after_events(s: SessionView, events: Seq<InputEvent>) -> SessionView
    decreases events.len(),
{
    if events.len() == 0 {
        s
    } else {
        let before = after_events(s, events.drop_last());
        if refused(before, events.last()) {
            before
        } else {
            after_event(before, events.last())
        }
    }
}

/// What the caller is to do after an event.
pub open spec fn action_for(event: InputEvent) -> Action {
    match event {
        InputEvent::Save => Action::Save,
        InputEvent::Quit => Action::Quit,
        _ => Action::Redraw,
    }
}

impl Session {
    /// The document is well formed.
    pub open spec fn wf(&self) -> bool {
        self.doc.wf()
    }

    /// A session on a document: the cursor in the first row and column, the
    /// top of the document in view, the screen not laid out yet, nothing to
    /// save.
    pub fn new(doc: Document) -> (session: Session)
        requires
            doc.wf(),
        ensures
            session.wf(),
            session@ == (SessionView {
                lines: doc@,
                cursor: Cursor { column: 1, row: 1 },
                viewport: Viewport { scroll_offset: 0, height: 0 },
                dirty: false,
            }),
            session@.in_bounds(),
    {
        Session {
            doc,
            cursor: Cursor { column: 1, row: 1 },
            viewport: Viewport { scroll_offset: 0, height: 0 },
            dirty: false,
        }
    }

    /// Takes the number of text rows that the screen has after a layout.
    pub fn set_height(&mut self, height: usize)
        ensures
            final(self)@ == (SessionView {
                viewport: Viewport { scroll_offset: old(self).viewport.scroll_offset, height },
                ..old(self)@
            }),
            final(self).doc == old(self).doc,
    {
        self.viewport.height = height;
    }

    /// Notes that the document was written out.
    pub fn mark_saved(&mut self)
        ensures
            final(self)@ == (SessionView { dirty: false, ..old(self)@ }),
            final(self).doc == old(self).doc,
    {
        self.dirty = false;
    }

    /// The document row of the cursor, where the cursor stands in the
    /// document.
    pub fn cursor_row(&self) -> (row: Result<usize, EditError>)
        requires
            self.wf(),
        ensures
            self@.in_bounds() ==> row is Ok && row->Ok_0 == self@.row(),
            !self@.in_bounds() ==> row == Err::<usize, EditError>(EditError::OutOfRange),
    {
        let count = self.doc.line_count();
        let scroll = self.viewport.scroll_offset;
        if self.cursor.row < 1 || self.cursor.column < 1 || scroll >= count || self.cursor.row - 1
            >= count - scroll {
            return Err(EditError::OutOfRange);
        }
        let row = self.cursor.row - 1 + scroll;
        match self.doc.length_of(row) {
            Ok(length) => {
                if self.cursor.column > length + 1 {
                    Err(EditError::OutOfRange)
                } else {
                    Ok(row)
                }
            },
            Err(e) => Err(e),
        }
    }

    /// Moves the cursor one step.
    pub fn move_cursor(&mut self, direction: Direction) -> (done: Result<(), EditError>)
        requires
            old(self).wf(),
        ensures
            final(self).wf(),
            done is Ok <==> old(self)@.in_bounds(),
            done is Ok ==> final(self)@ == old(self)@.moved(direction),
            done is Err ==> done == Err::<(), EditError>(EditError::OutOfRange) && final(self)@
                == old(self)@,
    {
        let mut scroll = self.viewport.scroll_offset;
        match cursor_move(self.cursor, &self.doc, direction, self.viewport.height, &mut scroll) {
            Ok(cursor) => {
                self.cursor = cursor;
                self.viewport.scroll_offset = scroll;
                Ok(())
            },
            Err(e) => Err(e),
        }
    }

    /// Goes to the top of the document.
    pub fn home(&mut self)
        ensures
            final(self)@ == old(self)@.at_home(),
            final(self).doc == old(self).doc,
    {
        let mut scroll = self.viewport.scroll_offset;
        self.cursor = cursor_home(&mut scroll);
        self.viewport.scroll_offset = scroll;
    }

    /// Goes to the end of the document.
    pub fn end(&mut self)
        requires
            old(self).wf(),
        ensures
            final(self)@ == old(self)@.at_end(),
            final(self).doc == old(self).doc,
    {
        let mut scroll = self.viewport.scroll_offset;
        self.cursor = cursor_end(self.cursor, &mut scroll, &self.doc, self.viewport.height);
        self.viewport.scroll_offset = scroll;
    }

    /// Types a character at the cursor.
    pub fn insert_char(&mut self, ch: char) -> (done: Result<(), EditError>)
        requires
            old(self).wf(),
        ensures
            final(self).wf(),
            done is Ok <==> !refused(old(self)@, InputEvent::InsertChar(ch)),
            done is Ok ==> final(self)@ == old(self)@.typed(ch),
            done is Err ==> done == Err::<(), EditError>(EditError::OutOfRange) && final(self)@
                == old(self)@,
    {
        let row = match self.cursor_row() {
            Ok(row) => row,
            Err(e) => {
                return Err(e);
            },
        };
        match self.doc.insert_char(row, self.cursor.column - 1, ch) {
            Ok(()) => {
                self.cursor.column = self.cursor.column + 1;
                bool_toggle(&mut self.dirty);
                Ok(())
            },
            Err(e) => Err(e),
        }
    }

    /// Cuts the line at the cursor.
    pub fn enter(&mut self) -> (done: Result<(), EditError>)
        requires
            old(self).wf(),
        ensures
            final(self).wf(),
            done is Ok <==> !refused(old(self)@, InputEvent::Enter),
            done is Ok ==> final(self)@ == old(self)@.entered(),
            done is Err ==> done == Err::<(), EditError>(EditError::OutOfRange) && final(self)@
                == old(self)@,
    {
        let row = match self.cursor_row() {
            Ok(row) => row,
            Err(e) => {
                return Err(e);
            },
        };
        if self.doc.line_count() == usize::MAX {
            return Err(EditError::OutOfRange);
        }
        match self.doc.split(row, self.cursor.column - 1) {
            Ok(()) => {
                self.cursor.column = 1;
                self.cursor.row = self.cursor.row + 1;
                bool_toggle(&mut self.dirty);
                Ok(())
            },
            Err(e) => Err(e),
        }
    }

    /// Removes what stands before the cursor.
    pub fn backspace(&mut self) -> (done: Result<(), EditError>)
        requires
            old(self).wf(),
        ensures
            final(self).wf(),
            done is Ok <==> !refused(old(self)@, InputEvent::Backspace),
            done is Ok ==> final(self)@ == old(self)@.backspaced(),
            done is Err ==> done == Err::<(), EditError>(EditError::OutOfRange) && final(self)@
                == old(self)@,
    {
        let row = match self.cursor_row() {
            Ok(row) => row,
            Err(e) => {
                return Err(e);
            },
        };
        if self.cursor.column > 1 {
            match self.doc.remove_char(row, self.cursor.column - 2) {
                Ok(()) => {
                    self.cursor.column = self.cursor.column - 1;
                    bool_toggle(&mut self.dirty);
                    Ok(())
                },
                Err(e) => Err(e),
            }
        } else if self.cursor.row > 1 {
            let before = match self.doc.length_of(row - 1) {
                Ok(length) => length,
                Err(e) => {
                    return Err(e);
                },
            };
            match self.doc.merge_with_next(row - 1) {
                Ok(()) => {
                    self.cursor.column = before + 1;
                    self.cursor.row = self.cursor.row - 1;
                    bool_toggle(&mut self.dirty);
                    Ok(())
                },
                Err(e) => Err(e),
            }
        } else {
            Ok(())
        }
    }

    /// Removes what stands at the cursor.
    pub fn delete(&mut self) -> (done: Result<(), EditError>)
        requires
            old(self).wf(),
        ensures
            final(self).wf(),
            done is Ok <==> !refused(old(self)@, InputEvent::Delete),
            done is Ok ==> final(self)@ == old(self)@.deleted(),
            done is Err ==> done == Err::<(), EditError>(EditError::OutOfRange) && final(self)@
                == old(self)@,
    {
        let row = match self.cursor_row() {
            Ok(row) => row,
            Err(e) => {
                return Err(e);
            },
        };
        let length = match self.doc.length_of(row) {
            Ok(length) => length,
            Err(e) => {
                return Err(e);
            },
        };
        if self.cursor.column <= length {
            match self.doc.remove_char(row, self.cursor.column - 1) {
                Ok(()) => {
                    bool_toggle(&mut self.dirty);
                    Ok(())
                },
                Err(e) => Err(e),
            }
        } else if row < self.doc.line_count() - 1 {
            match self.doc.merge_with_next(row) {
                Ok(()) => {
                    bool_toggle(&mut self.dirty);
                    Ok(())
                },
                Err(e) => Err(e),
            }
        } else {
            Ok(())
        }
    }

    /// Takes one input event and says what the caller is to do next.
    pub fn handle(&mut self, event: InputEvent) -> (action: Result<Action, EditError>)
        requires
            old(self).wf(),
        ensures
            final(self).wf(),
            action is Ok <==> !refused(old(self)@, event),
            action is Ok ==> action == Ok::<Action, EditError>(action_for(event)) && final(self)@
                == after_event(old(self)@, event),
            action is Err ==> action == Err::<Action, EditError>(EditError::OutOfRange)
                && final(self)@ == old(self)@,
            old(self)@.in_bounds() && (event == InputEvent::End ==> old(
                self,
            )@.end_stands_in_document()) ==> final(self)@.in_bounds(),
    {
        proof {
            if self@.in_bounds() && !refused(self@, event) && (event == InputEvent::End
                ==> self@.end_stands_in_document()) {
                lemma_cursor_stays_in_document(self@, event);
            }
        }
        let done = match event {
            InputEvent::MoveUp => self.move_cursor(Direction::Up),
            InputEvent::MoveDown => self.move_cursor(Direction::Down),
            InputEvent::MoveLeft => self.move_cursor(Direction::Left),
            InputEvent::MoveRight => self.move_cursor(Direction::Right),
            InputEvent::Home => {
                self.home();
                Ok(())
            },
            InputEvent::End => {
                self.end();
                Ok(())
            },
            InputEvent::InsertChar(ch) => self.insert_char(ch),
            InputEvent::Enter => self.enter(),
            InputEvent::Backspace => self.backspace(),
            InputEvent::Delete => self.delete(),
            InputEvent::Save => {
                return Ok(Action::Save);
            },
            InputEvent::Quit => {
                return Ok(Action::Quit);
            },
        };
        match done {
            Ok(()) => Ok(Action::Redraw),
            Err(e) => Err(e),
        }
    }
}

/// An event that is not turned down leaves the cursor in the document: in a
/// row of it, on one of the row's characters or right behind the last. End
/// does so where [`SessionView::end_stands_in_document`] holds.
pub proof fn lemma_cursor_stays_in_document(s: SessionView, event: InputEvent)
    requires
        s.wf(),
        s.in_bounds(),
        !refused(s, event),
        event == InputEvent::End ==> s.end_stands_in_document(),
    ensures
        after_event(s, event).wf(),
        after_event(s, event).in_bounds(),
{
    let t = after_event(s, event);
    let lens = lengths_of(s.lines);
    let row = s.row();
    match event {
        InputEvent::MoveUp => {
            lemma_move_stays_in_bounds(
                s.cursor,
                s.viewport.scroll_offset,
                s.viewport.height,
                Direction::Up,
                lens,
            );
        },
        InputEvent::MoveDown => {
            lemma_move_stays_in_bounds(
                s.cursor,
                s.viewport.scroll_offset,
                s.viewport.height,
                Direction::Down,
                lens,
            );
        },
        InputEvent::MoveLeft => {
            lemma_move_stays_in_bounds(
                s.cursor,
                s.viewport.scroll_offset,
                s.viewport.height,
                Direction::Left,
                lens,
            );
        },
        InputEvent::MoveRight => {
            lemma_move_stays_in_bounds(
                s.cursor,
                s.viewport.scroll_offset,
                s.viewport.height,
                Direction::Right,
                lens,
            );
        },
        InputEvent::InsertChar(_) | InputEvent::Enter | InputEvent::Backspace | InputEvent::Delete => {
            assert(s.lines[row].len() < usize::MAX);
            if row > 0 {
                assert(s.lines[row - 1].len() < usize::MAX);
            }
            assert forall|i: int| 0 <= i < t.lines.len() implies (#[trigger] t.lines[i]).len()
                < usize::MAX by {
                if t.lines.len() == s.lines.len() {
                    assert(i != row ==> t.lines[i] == s.lines[i]);
                } else if t.lines.len() > s.lines.len() {
                    assert(i < row ==> t.lines[i] == s.lines[i]);
                    assert(i > row + 1 ==> t.lines[i] == s.lines[i - 1]);
                } else if event == InputEvent::Backspace {
                    assert(i < row - 1 ==> t.lines[i] == s.lines[i]);
                    assert(i > row - 1 ==> t.lines[i] == s.lines[i + 1]);
                } else {
                    assert(i < row ==> t.lines[i] == s.lines[i]);
                    assert(i > row ==> t.lines[i] == s.lines[i + 1]);
                }
            }
        },
        _ => {},
    }
}

/// Through any run of events the cursor stays in the document, as long as
/// each End in the run comes where
/// [`SessionView::end_stands_in_document`] holds.
pub proof fn lemma_cursor_stays_in_document_through(s: SessionView, events: Seq<InputEvent>)
    requires
        s.wf(),
        s.in_bounds(),
        forall|k: int|
            0 <= k < events.len() && #[trigger] events[k] == InputEvent::End ==> after_events(
                s,
                events.take(k),
            ).end_stands_in_document(),
    ensures
        after_events(s, events).wf(),
        after_events(s, events).in_bounds(),
    decreases events.len(),
{
    if events.len() > 0 {
        let earlier = events.drop_last();
        assert forall|k: int|
            0 <= k < earlier.len() && #[trigger] earlier[k] == InputEvent::End implies after_events(
            s,
            earlier.take(k),
        ).end_stands_in_document() by {
            assert(events[k] == earlier[k]);
            assert(events.take(k) =~= earlier.take(k));
        }
        lemma_cursor_stays_in_document_through(s, earlier);
        let before = after_events(s, earlier);
        if !refused(before, events.last()) {
            assert(events.take(events.len() - 1) =~= earlier);
            assert(events[events.len() - 1] == events.last());
            lemma_cursor_stays_in_document(before, events.last());
        }
    }
}

/// A step down scrolls the viewport down by one row or not at all, and it
/// scrolls only where the cursor is in the last visible row or below it and
/// the document goes on below the visible rows.
pub proof fn lemma_move_down_scrolls_one_row_at_most(s: SessionView)
    requires
        s.wf(),
        s.in_bounds(),
    ensures
        ({
            let before = s.viewport.scroll_offset;
            let after = after_event(s, InputEvent::MoveDown).viewport.scroll_offset;
            &&& (after == before || after == before + 1)
            &&& after == before + 1 ==> s.cursor.row >= s.viewport.height && s.lines.len() - before
                > s.viewport.height
        }),
{
}

/// An arrow key scrolls the viewport by one row at most, and only Home, End
/// and the arrow keys scroll it at all. No event changes its height.
pub proof fn lemma_scrolling_is_by_one_row(s: SessionView, event: InputEvent)
    requires
        s.wf(),
        s.in_bounds(),
    ensures
        after_event(s, event).viewport.height == s.viewport.height,
        event != InputEvent::Home && event != InputEvent::End ==> s.viewport.scroll_offset - 1
            <= after_event(s, event).viewport.scroll_offset <= s.viewport.scroll_offset + 1,
        !(event is MoveUp || event is MoveDown || event is Home || event is End) ==> after_event(
            s,
            event,
        ).viewport == s.viewport,
{
}

/// An arrow key leaves a cursor that is on the screen on the screen.
pub proof fn lemma_moves_stay_on_screen(s: SessionView, direction: Direction)
    requires
        s.wf(),
        s.in_bounds(),
        s.cursor.row <= s.viewport.height,
    ensures
        1 <= s.moved(direction).cursor.row <= s.viewport.height,
{
    lemma_move_stays_on_screen(
        s.cursor.row,
        s.viewport.scroll_offset,
        s.viewport.height,
        direction,
        s.lines.len(),
    );
}

/// No event takes the mark of unsaved changes away, and an event that
/// changes the document sets it. Only typing, Enter, Backspace and Delete
/// change the document.
pub proof fn lemma_changes_are_marked(s: SessionView, event: InputEvent)
    ensures
        s.dirty ==> after_event(s, event).dirty,
        after_event(s, event).lines != s.lines ==> after_event(s, event).dirty,
        !(event is InsertChar || event is Enter || event is Backspace || event is Delete)
            ==> after_event(s, event).lines == s.lines && after_event(s, event).dirty == s.dirty,
{
}

} // verus!
