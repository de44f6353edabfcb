//! What goes to the screen: the lines in view and the title.

use vstd::prelude::*;
use vstd::string::*;
use crate::text::views_of;
use crate::error::EditError;

verus! {

/// A line of styled text, as the screen library takes it.
#[verifier::external_type_specification]
#[verifier::external_body]
pub struct ExSpans<'a>(tui::text::Spans<'a>);

/// The text of each span of a line of styled text, in order.
pub uninterp spec fn spans_content(spans: tui::text::Spans<'static>) -> Seq<Seq<char>>;

/// Makes a line of styled text from a string. This is `Spans::from` of tui
/// for a `String`: the line has one span, which holds the string, in the
/// default style.
#[verifier::external_body]
fn line_spans(text: String) -> (spans: tui::text::Spans<'static>)
    ensures
        spans_content(spans) == seq![text@],
{
    tui::text::Spans::from(text)
}

/// The mark that the title carries while the document has unsaved changes.
pub open spec fn dirty_mark() -> Seq<char> {
    seq![' ', '*']
}

/// The row behind the last row that goes to the screen, for a document of
/// `line_count` lines shown from row `scroll_offset` on a screen of `height`
/// text rows. While the height is not known (0), or where no more than
/// `height + 1` rows are left, that is the end of the document. Otherwise
/// `height + 2` rows go to the screen: a little more than it shows, so that
/// the rows at its lower edge do not flicker.
pub open spec fn window_end(line_count: nat, scroll_offset: usize, height: usize) -> int {
    if height == 0 || line_count - scroll_offset <= height + 1 {
        line_count as int
    } else {
        scroll_offset + height + 2
    }
}

/// The lines that go to the screen.
pub open spec fn window_of(lines: Seq<Seq<char>>, scroll_offset: usize, height: usize) -> Seq<
    Seq<char>,
> {
    lines.subrange(scroll_offset as int, window_end(lines.len(), scroll_offset, height))
}

/// The row behind the last row that goes to the screen.
fn window_limit(line_count: usize, start_y: usize, render_height: usize) -> (limit: usize)
    requires
        start_y < line_count,
    ensures
        limit == window_end(line_count as nat, start_y, render_height),
        start_y < limit <= line_count,
{
    if render_height == 0 || line_count - start_y - 1 <= render_height {
        line_count
    } else {
        start_y + render_height + 2
    }
}

/// The lines that go to the screen, as strings. A viewport that starts
/// behind the last line is refused.
pub fn visible_lines(file_vector: &Vec<String>, start_y: usize, render_height: usize) -> (shown:
    Result<Vec<String>, EditError>)
    ensures
        shown is Ok <==> start_y < file_vector@.len(),
        shown is Ok ==> views_of(shown->Ok_0@) == window_of(
            views_of(file_vector@),
            start_y,
            render_height,
        ),
        shown is Err ==> shown->Err_0 == EditError::OutOfRange,
{
    if start_y >= file_vector.len() {
        return Err(EditError::OutOfRange);
    }
    let limit = window_limit(file_vector.len(), start_y, render_height);
    let mut shown: Vec<String> = Vec::new();
    let mut i: usize = start_y;
    while i < limit
        invariant
            start_y <= i <= limit <= file_vector@.len(),
            views_of(shown@) == views_of(file_vector@).subrange(start_y as int, i as int),
        decreases limit - i,
    {
        let ghost before = shown@;
        shown.push(file_vector[i].clone());
        assert(views_of(shown@) =~= views_of(before).push(file_vector@[i as int]@));
        assert(views_of(file_vector@).subrange(start_y as int, i + 1) =~= views_of(
            file_vector@,
        ).subrange(start_y as int, i as int).push(file_vector@[i as int]@));
        i += 1;
    }
    Ok(shown)
}

/// The lines that go to the screen, each as a line of styled text of one
/// span. A viewport that starts behind the last line is refused.
pub fn str_vec_to_span(file_vector: &Vec<String>, start_y: usize, render_height: usize) -> (shown:
    Result<Vec<tui::text::Spans<'static>>, EditError>)
    ensures
        shown is Ok <==> start_y < file_vector@.len(),
        shown is Ok ==> {
            let window = window_of(views_of(file_vector@), start_y, render_height);
            &&& shown->Ok_0@.len() == window.len()
            &&& forall|k: int|
                0 <= k < window.len() ==> spans_content(#[trigger] shown->Ok_0@[k]) == seq![
                    window[k],
                ]
        },
        shown is Err ==> shown->Err_0 == EditError::OutOfRange,
{
    if start_y >= file_vector.len() {
        return Err(EditError::OutOfRange);
    }
    let limit = window_limit(file_vector.len(), start_y, render_height);
    let mut shown: Vec<tui::text::Spans<'static>> = Vec::new();
    let mut i: usize = start_y;
    while i < limit
        invariant
            start_y <= i <= limit <= file_vector@.len(),
            shown@.len() == i - start_y,
            forall|k: int|
                0 <= k < shown@.len() ==> spans_content(#[trigger] shown@[k]) == seq![
                    file_vector@[start_y + k]@,
                ],
        decreases limit - i,
    {
        shown.push(line_spans(file_vector[i].clone()));
        i += 1;
    }
    Ok(shown)
}

/// The title of the screen: the path of the file, followed by a mark while
/// the document has unsaved changes.
pub fn title(file_path: &str, dirty: bool) -> (title: String)
    ensures
        title@ == (if dirty {
            file_path@ + dirty_mark()
        } else {
            file_path@
        }),
{
    let mut title = String::from_str(file_path);
    if dirty {
        proof {
            reveal_strlit(" *");
            assert(" *"@ =~= dirty_mark());
        }
        title.append(" *");
    }
    title
}

} // verus!
