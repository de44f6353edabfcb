//! The cursor and the viewport: moving over the document and scrolling.
//!
//! The cursor lives in screen coordinates, both counted from 1. The viewport
//! shows the document from row `scroll_offset` on, so the cursor in screen
//! row `row` stands in document row `row - 1 + scroll_offset`.

use vstd::prelude::*;
use crate::document::{lengths_of, Document};
use crate::error::EditError;

verus! {

/// A cursor position on the screen, counted from 1.
#[derive(Clone, Copy, Debug, PartialEq, Eq, Structural)]
pub struct Cursor {
    pub column: usize,
    pub row: usize,
}

/// The part of the document that the screen shows.
#[derive(Clone, Copy, Debug, PartialEq, Eq, Structural)]
pub struct Viewport {
    /// The document row in the first screen row, counted from 0.
    pub scroll_offset: usize,
    /// The number of text rows on the screen; 0 until the screen was laid out.
    pub height: usize,
}

/// The four directions of the arrow keys.
#[derive(Clone, Copy, Debug, PartialEq, Eq, Structural)]
pub enum Direction {
    Up,
    Down,
    Left,
    Right,
}

/// Moving up inside the first rows of the screen scrolls instead, as long as
/// anything is left above.
pub const SCROLL_UP_BAND: usize = 3;

/// The document row that a screen row shows.
pub open spec fn absolute_row(row: usize, scroll_offset: usize) -> int {
    row - 1 + scroll_offset
}

/// A position on the screen stands on a row of the document, on one of its
/// characters or right behind the last.
pub open spec fn stands_in(column: int, row: int, scroll_offset: int, lengths: Seq<nat>) -> bool {
    &&& 0 <= scroll_offset
    &&& 1 <= row
    &&& row - 1 + scroll_offset < lengths.len()
    &&& 1 <= column <= lengths[row - 1 + scroll_offset] + 1
}

/// The cursor stands on a row of the document, on one of its characters or
/// right behind the last.
pub open spec fn cursor_in_bounds(cursor: Cursor, scroll_offset: usize, lengths: Seq<nat>) -> bool {
    stands_in(cursor.column as int, cursor.row as int, scroll_offset as int, lengths)
}

/// A move up that scrolls the viewport up by one row.
pub open spec fn scrolls_up(row: usize, scroll_offset: usize, direction: Direction) -> bool {
    direction == Direction::Up && row <= SCROLL_UP_BAND && scroll_offset > 0
}

/// A move down that scrolls the viewport down by one row: the cursor is in
/// the last visible row or below it, the document goes on below the visible
/// rows, and the cursor is not in its last row.
pub open spec fn scrolls_down(
    row: usize,
    scroll_offset: usize,
    height: usize,
    direction: Direction,
    line_count: nat,
) -> bool {
    &&& direction == Direction::Down
    &&& row >= height
    &&& line_count - scroll_offset > height
    &&& absolute_row(row, scroll_offset) + 1 < line_count
}

/// The scroll offset after a move.
pub open spec fn scroll_after_move(
    row: usize,
    scroll_offset: usize,
    height: usize,
    direction: Direction,
    line_count: nat,
) -> int {
    if scrolls_up(row, scroll_offset, direction) {
        scroll_offset - 1
    } else if scrolls_down(row, scroll_offset, height, direction, line_count) {
        scroll_offset + 1
    } else {
        scroll_offset as int
    }
}

/// The screen row after a move. A move that scrolls leaves it alone; a step
/// up stops at the first row, a step down at the last row of the document.
pub open spec fn row_after_move(
    row: usize,
    scroll_offset: usize,
    height: usize,
    direction: Direction,
    line_count: nat,
) -> int {
    if scrolls_up(row, scroll_offset, direction) || scrolls_down(
        row,
        scroll_offset,
        height,
        direction,
        line_count,
    ) {
        row as int
    } else if direction == Direction::Up && row > 1 {
        row - 1
    } else if direction == Direction::Down && row < line_count - scroll_offset {
        row + 1
    } else {
        row as int
    }
}

/// The column after a move, before it is held to the length of the row that
/// the cursor has come to.
pub open spec fn column_stepped(column: usize, direction: Direction) -> int {
    if direction == Direction::Left && column > 1 {
        column - 1
    } else if direction == Direction::Right {
        column + 1
    } else {
        column as int
    }
}

/// The column after a move: never further than right behind the end of the
/// row that the cursor has come to.
pub open spec fn column_after_move(
    cursor: Cursor,
    scroll_offset: usize,
    height: usize,
    direction: Direction,
    lengths: Seq<nat>,
) -> int {
    let stepped = column_stepped(cursor.column, direction);
    let row = row_after_move(cursor.row, scroll_offset, height, direction, lengths.len());
    let scroll = scroll_after_move(cursor.row, scroll_offset, height, direction, lengths.len());
    let limit = lengths[row - 1 + scroll] as int + 1;
    if stepped > limit {
        limit
    } else {
        stepped
    }
}

/// Puts the viewport at the top of the document and the cursor in its first
/// row and column.
pub fn cursor_home(span_start: &mut usize) -> (cursor: Cursor)
    ensures
        *final(span_start) == 0,
        cursor == (Cursor { column: 1, row: 1 }),
{
    *span_start = 0;
    Cursor { column: 1, row: 1 }
}

/// Goes to the end of the document. Where the document has more rows than
/// the viewport shows, the viewport comes to show the last `render_height`
/// rows and the cursor stands at the start of the last visible row.
/// Otherwise the viewport stays, the cursor keeps its column and its row
/// becomes the number of lines.
pub fn cursor_end(
    cursor: Cursor,
    span_start: &mut usize,
    doc: &Document,
    render_height: usize,
) -> (end: Cursor)
    requires
        doc.wf(),
    ensures
        doc@.len() > render_height ==> {
            &&& *final(span_start) == doc@.len() - render_height
            &&& end == (Cursor { column: 1, row: render_height })
        },
        doc@.len() <= render_height ==> {
            &&& *final(span_start) == *old(span_start)
            &&& end == (Cursor { column: cursor.column, row: doc@.len() as usize })
        },
{
    let count = doc.line_count();
    if count > render_height {
        *span_start = count - render_height;
        Cursor { column: 1, row: render_height }
    } else {
        Cursor { column: cursor.column, row: count }
    }
}

/// Moves the cursor one step in a direction, and scrolls the viewport by one
/// row where the step would leave the visible rows.
///
/// A cursor that does not stand in the document is refused, and nothing
/// moves.
pub fn cursor_move(
    cursor: Cursor,
    doc: &Document,
    direction: Direction,
    render_height: usize,
    span_start: &mut usize,
) -> (moved: Result<Cursor, EditError>)
    requires
        doc.wf(),
    ensures
        moved is Ok <==> cursor_in_bounds(cursor, *old(span_start), lengths_of(doc@)),
        moved is Err ==> moved == Err::<Cursor, EditError>(EditError::OutOfRange)
            && *final(span_start) == *old(span_start),
        moved is Ok ==> cursor_in_bounds(moved->Ok_0, *final(span_start), lengths_of(doc@)),
        moved is Ok ==> {
            &&& *final(span_start) == scroll_after_move(
                cursor.row,
                *old(span_start),
                render_height,
                direction,
                doc@.len(),
            )
            &&& moved->Ok_0.row == row_after_move(
                cursor.row,
                *old(span_start),
                render_height,
                direction,
                doc@.len(),
            )
            &&& moved->Ok_0.column == column_after_move(
                cursor,
                *old(span_start),
                render_height,
                direction,
                lengths_of(doc@),
            )
        },
{
    let count = doc.line_count();
    let scroll = *span_start;
    if cursor.row < 1 || cursor.column < 1 || scroll >= count || cursor.row - 1 >= count - scroll {
        return Err(EditError::OutOfRange);
    }
    let remaining = count - scroll;
    let length = match doc.length_of(cursor.row - 1 + scroll) {
        Ok(length) => length,
        Err(e) => {
            return Err(e);
        },
    };
    if cursor.column > length + 1 {
        return Err(EditError::OutOfRange);
    }
    let mut column = cursor.column;
    let mut row = cursor.row;
    match direction {
        Direction::Up => {
            if row <= SCROLL_UP_BAND && scroll > 0 {
                *span_start = scroll - 1;
            } else if row > 1 {
                row = row - 1;
            }
        },
        Direction::Down => {
            if row < remaining {
                if row >= render_height && remaining > render_height {
                    *span_start = scroll + 1;
                } else {
                    row = row + 1;
                }
            }
        },
        Direction::Left => {
            if column > 1 {
                column = column - 1;
            }
        },
        Direction::Right => {
            if column <= length {
                column = column + 1;
            }
        },
    }
    let target = match doc.length_of(row - 1 + *span_start) {
        Ok(length) => length,
        Err(e) => {
            return Err(e);
        },
    };
    if column > target + 1 {
        column = target + 1;
    }
    Ok(Cursor { column, row })
}

/// A move leaves a cursor that stands in the document in the document.
pub proof fn lemma_move_stays_in_bounds(
    cursor: Cursor,
    scroll_offset: usize,
    height: usize,
    direction: Direction,
    lengths: Seq<nat>,
)
    requires
        cursor_in_bounds(cursor, scroll_offset, lengths),
    ensures
        stands_in(
            column_after_move(cursor, scroll_offset, height, direction, lengths),
            row_after_move(cursor.row, scroll_offset, height, direction, lengths.len()),
            scroll_after_move(cursor.row, scroll_offset, height, direction, lengths.len()),
            lengths,
        ),
{
}

/// A move scrolls by one row at most. It scrolls down only on a step down
/// from the last visible row or below it with more of the document below
/// the visible rows, and up only on a step up from one of the first rows of
/// the screen with some of the document above. A step to the left or to the
/// right does not scroll.
pub proof fn lemma_move_scrolls_one_row_at_most(
    row: usize,
    scroll_offset: usize,
    height: usize,
    direction: Direction,
    line_count: nat,
)
    ensures
        scroll_offset - 1 <= scroll_after_move(row, scroll_offset, height, direction, line_count)
            <= scroll_offset + 1,
        scroll_after_move(row, scroll_offset, height, direction, line_count) > scroll_offset ==> {
            &&& direction == Direction::Down
            &&& row >= height
            &&& line_count - scroll_offset > height
        },
        scroll_after_move(row, scroll_offset, height, direction, line_count) < scroll_offset ==> {
            &&& direction == Direction::Up
            &&& row <= SCROLL_UP_BAND
            &&& scroll_offset > 0
        },
        direction == Direction::Down ==> scroll_after_move(
            row,
            scroll_offset,
            height,
            direction,
            line_count,
        ) >= scroll_offset,
{
}

/// A move changes the document row of the cursor by one at most, and a move
/// that scrolls leaves the screen row alone.
pub proof fn lemma_move_is_one_step(
    row: usize,
    scroll_offset: usize,
    height: usize,
    direction: Direction,
    line_count: nat,
)
    requires
        row >= 1,
    ensures
        ({
            let before = absolute_row(row, scroll_offset);
            let after = row_after_move(row, scroll_offset, height, direction, line_count) - 1
                + scroll_after_move(row, scroll_offset, height, direction, line_count);
            before - 1 <= after <= before + 1
        }),
        scroll_after_move(row, scroll_offset, height, direction, line_count) != scroll_offset
            ==> row_after_move(row, scroll_offset, height, direction, line_count) == row,
{
}

/// A move leaves a cursor that is on the screen on the screen.
pub proof fn lemma_move_stays_on_screen(
    row: usize,
    scroll_offset: usize,
    height: usize,
    direction: Direction,
    line_count: nat,
)
    requires
        1 <= row <= height,
        absolute_row(row, scroll_offset) < line_count,
    ensures
        1 <= row_after_move(row, scroll_offset, height, direction, line_count) <= height,
{
}

} // verus!
