//! Character-indexed operations on strings.
//!
//! Every position in this module counts characters, not bytes, so none of
//! these functions can cut a character in two.

use vstd::prelude::*;
use vstd::string::*;
use vstd::std_specs::iter::IteratorSpec;

verus! {
/// The views of some strings, in order.
pub open spec fn views_of(lines: Seq<String>) -> Seq<Seq<char>> {
    lines.map_values(|line: String| line@)
}

/// The place of the first line feed of a text, or the length of the text
/// where it has none.
pub open spec fn line_end(text: Seq<char>) -> int
    decreases text.len(),
{
    if text.len() == 0 || text[0] == '\n' {
        0
    } else {
        1 + line_end(text.drop_first())
    }
}

/// A line without the carriage return at its end, if it has one there.
pub open spec fn without_carriage_return(line: Seq<char>) -> Seq<char> {
    if line.len() > 0 && line.last() == '\r' {
        line.drop_last()
    } else {
        line
    }
}

/// The lines of a text. A line ends with a line feed, or with a carriage
/// return and a line feed; neither belongs to the line. What stands behind
/// the last line feed is a line too, unless it is empty; a carriage return
/// at its end stays.
pub open spec fn lines_of_text(text: Seq<char>) -> Seq<Seq<char>>
    decreases text.len(),
{
    let end = line_end(text);
    if text.len() == 0 {
        Seq::empty()
    } else if 0 <= end < text.len() {
        seq![without_carriage_return(text.take(end))] + lines_of_text(text.skip(end + 1))
    } else {
        seq![text]
    }
}

/// The text is empty or ends with a line feed.
pub open spec fn ends_every_line(text: Seq<char>) -> bool {
    text.len() == 0 || text.last() == '\n'
}

/// No line feed of the text comes right after a carriage return.
pub open spec fn has_no_crlf(text: Seq<char>) -> bool {
    forall|i: int| 0 <= i < text.len() - 1 && #[trigger] text[i] == '\r' ==> text[i + 1] != '\n'
}

/// The text of some lines, each followed by a line feed.
pub open spec fn terminated_text(lines: Seq<Seq<char>>) -> Seq<char>
    decreases lines.len(),
{
    if lines.len() == 0 {
        Seq::empty()
    } else {
        terminated_text(lines.drop_last()) + lines.last().push('\n')
    }
}

/// Where the first `k` characters of a text hold no line feed, and the text
/// ends there or has a line feed there, its first line ends at `k`.
pub proof fn lemma_line_end(text: Seq<char>, k: int)
    requires
        0 <= k <= text.len(),
        forall|j: int| 0 <= j < k ==> text[j] != '\n',
        k == text.len() || text[k] == '\n',
    ensures
        line_end(text) == k,
    decreases k,
{
    if k > 0 {
        let rest = text.drop_first();
        assert forall|j: int| 0 <= j < k - 1 implies rest[j] != '\n' by {
            assert(rest[j] == text[j + 1]);
        }
        lemma_line_end(rest, k - 1);
    }
}

/// The first line of a text ends inside the text or at its end, holds no
/// line feed, and where it ends inside the text a line feed stands.
pub proof fn lemma_line_end_is_first_line_feed(text: Seq<char>)
    ensures
        0 <= line_end(text) <= text.len(),
        forall|j: int| 0 <= j < line_end(text) ==> text[j] != '\n',
        line_end(text) < text.len() ==> text[line_end(text)] == '\n',
    decreases text.len(),
{
    if !(text.len() == 0 || text[0] == '\n') {
        let rest = text.drop_first();
        lemma_line_end_is_first_line_feed(rest);
        assert forall|j: int| 0 <= j < line_end(text) implies text[j] != '\n' by {
            if j > 0 {
                assert(rest[j - 1] == text[j]);
            }
        }
    }
}

/// The text of two lists of lines, one after the other, is the text of the
/// first followed by the text of the second.
pub proof fn lemma_terminated_text_concat(first: Seq<Seq<char>>, second: Seq<Seq<char>>)
    ensures
        terminated_text(first + second) == terminated_text(first) + terminated_text(second),
    decreases second.len(),
{
    if second.len() == 0 {
        assert(first + second =~= first);
        assert(terminated_text(first) + terminated_text(second) =~= terminated_text(first));
    } else {
        assert((first + second).drop_last() =~= first + second.drop_last());
        assert((first + second).last() == second.last());
        lemma_terminated_text_concat(first, second.drop_last());
        assert(terminated_text(first + second) =~= terminated_text(first) + terminated_text(
            second,
        ));
    }
}

/// A text in which every line ends with a line feed, and no line feed comes
/// after a carriage return, is the text of its lines.
pub proof fn lemma_text_round_trip(text: Seq<char>)
    requires
        ends_every_line(text),
        has_no_crlf(text),
    ensures
        terminated_text(lines_of_text(text)) == text,
    decreases text.len(),
{
    if text.len() > 0 {
        let end = line_end(text);
        lemma_line_end_is_first_line_feed(text);
        let line = text.take(end);
        let rest = text.skip(end + 1);
        if end > 0 {
            assert(line.last() == text[end - 1]);
        }
        assert(without_carriage_return(line) == line);
        assert(ends_every_line(rest)) by {
            if rest.len() > 0 {
                assert(rest.last() == text.last());
            }
        }
        assert(has_no_crlf(rest)) by {
            assert forall|i: int| 0 <= i < rest.len() - 1 && #[trigger] rest[i] == '\r' implies rest[i
                + 1] != '\n' by {
                assert(text[i + end + 1] == '\r');
                assert(rest[i + 1] == text[i + end + 1 + 1]);
            }
        }
        lemma_text_round_trip(rest);
        lemma_terminated_text_concat(seq![line], lines_of_text(rest));
        assert(terminated_text(seq![line]) =~= line.push('\n')) by {
            reveal_with_fuel(terminated_text, 2);
            assert(seq![line].drop_last() =~= Seq::<Seq<char>>::empty());
        }
        assert(text =~= line.push('\n') + rest);
    }
}



/// Appends one character to a string. This is `String::push` of the standard
/// library: the string afterwards is the string before, followed by `c`.
#[verifier::external_body]
fn push_char(s: &mut String, c: char)
    ensures
        final(s)@ == old(s)@.push(c),
{
    s.push(c);
}

/// The characters of `line` from position `from` up to, not including, `to`.
pub(crate) fn slice_chars(line: &String, from: usize, to: usize) -> (part: String)
    requires
        from <= to <= line@.len(),
    ensures
        part@ == line@.subrange(from as int, to as int),
{
    String::from_str(line.as_str().substring_char(from, to))
}

/// `line` with the character `ch` put in before position `at`.
pub(crate) fn with_char_inserted(line: &String, at: usize, ch: char) -> (longer: String)
    requires
        at <= line@.len(),
    ensures
        longer@ == line@.insert(at as int, ch),
{
    let n = line.as_str().unicode_len();
    let mut longer = slice_chars(line, 0, at);
    push_char(&mut longer, ch);
    longer.append(line.as_str().substring_char(at, n));
    assert(longer@ =~= line@.insert(at as int, ch));
    longer
}

/// `line` without the character at position `at`.
pub(crate) fn with_char_removed(line: &String, at: usize) -> (shorter: String)
    requires
        at < line@.len(),
    ensures
        shorter@ == line@.remove(at as int),
{
    let n = line.as_str().unicode_len();
    let mut shorter = slice_chars(line, 0, at);
    shorter.append(line.as_str().substring_char(at + 1, n));
    assert(shorter@ =~= line@.remove(at as int));
    shorter
}

/// `first` followed by `second`.
pub(crate) fn joined(first: &String, second: &String) -> (both: String)
    ensures
        both@ == first@ + second@,
{
    let mut both = first.clone();
    both.append(second.as_str());
    both
}

/// Cuts a text into its lines.
pub fn text_lines(text: &str) -> (lines: Vec<String>)
    ensures
        views_of(lines@) == lines_of_text(text@),
{
    broadcast use group_string_axioms;

    let mut lines: Vec<String> = Vec::new();
    let mut current = String::new();
    // A carriage return was read and is not in `current` yet: it belongs to
    // the line unless a line feed follows.
    let mut pending = false;
    let mut chars = text.chars();
    let ghost mut start: int = 0;
    let ghost mut read: int = 0;
    loop
        invariant
            0 <= start <= read <= text@.len(),
            chars.remaining() == text@.skip(read),
            chars.decrease() is Some,
            forall|j: int| start <= j < read ==> text@[j] != '\n',
            current@ + (if pending {
                seq!['\r']
            } else {
                Seq::<char>::empty()
            }) == text@.subrange(start, read),
            !pending ==> current@.len() == 0 || current@.last() != '\r',
            views_of(lines@) + lines_of_text(text@.skip(start)) == lines_of_text(text@),
        decreases text@.len() - read,
    {
        let ghost rest = text@.skip(start);
        let ghost so_far = text@.subrange(start, read);
        match chars.next() {
            Some(c) => {
                assert(text@.skip(read).len() > 0);
                assert(c == text@[read]);
                if c == '\n' {
                    proof {
                        assert forall|j: int| 0 <= j < read - start implies rest[j] != '\n' by {
                            assert(rest[j] == text@[start + j]);
                        }
                        lemma_line_end(rest, read - start);
                        assert(rest.take(read - start) =~= so_far);
                        assert(rest.skip(read - start + 1) =~= text@.skip(read + 1));
                        if pending {
                            assert(so_far.last() == '\r');
                            assert(so_far.drop_last() =~= current@);
                        } else {
                            assert(so_far =~= current@);
                        }
                        assert(without_carriage_return(so_far) == current@);
                        assert(views_of(lines@.push(current)) + lines_of_text(text@.skip(read + 1))
                            =~= views_of(lines@) + lines_of_text(rest));
                        start = read + 1;
                    }
                    lines.push(current);
                    current = String::new();
                    pending = false;
                } else {
                    assert(text@.subrange(start, read + 1) =~= so_far.push(c));
                    if pending {
                        push_char(&mut current, '\r');
                    }
                    assert(current@ =~= so_far);
                    if c == '\r' {
                        pending = true;
                        assert(current@ + seq!['\r'] =~= so_far.push(c));
                    } else {
                        pending = false;
                        push_char(&mut current, c);
                        assert(current@ + Seq::<char>::empty() =~= so_far.push(c));
                    }
                }
                proof {
                    read = read + 1;
                    assert(chars.remaining() =~= text@.skip(read));
                }
            },
            None => {
                if pending {
                    push_char(&mut current, '\r');
                }
                proof {
                    assert(read == text@.len());
                    assert(rest =~= so_far);
                    assert(current@ =~= rest);
                    assert forall|j: int| 0 <= j < rest.len() implies rest[j] != '\n' by {
                        assert(rest[j] == text@[start + j]);
                    }
                    lemma_line_end(rest, rest.len() as int);
                }
                if !current.as_str().is_empty() {
                    assert(lines_of_text(rest) =~= seq![rest]);
                    assert(views_of(lines@.push(current)) =~= views_of(lines@) + seq![rest]);
                    lines.push(current);
                } else {
                    assert(views_of(lines@) + lines_of_text(rest) =~= views_of(lines@));
                }
                return lines;
            },
        }
    }
}

} // verus!
