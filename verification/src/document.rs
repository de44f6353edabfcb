//! The document: text lines and the table of their lengths.

use vstd::prelude::*;
use vstd::string::*;
use crate::error::EditError;
use crate::text::{
    ends_every_line, has_no_crlf, joined, lemma_text_round_trip, lines_of_text, slice_chars,
    terminated_text, text_lines, views_of, with_char_inserted, with_char_removed,
};

verus! {

/// The lengths of the lines of a document.
pub open spec fn lengths_of(lines: Seq<Seq<char>>) -> Seq<nat> {
    Seq::new(lines.len(), |i: int| lines[i].len())
}

/// The lines after line `row` was cut in two before position `at`: the part
/// before `at` stays in `row`, the rest becomes a new line right after it.
pub open spec fn split_lines(lines: Seq<Seq<char>>, row: int, at: int) -> Seq<Seq<char>> {
    lines.update(row, lines[row].subrange(0, at)).insert(
        row + 1,
        lines[row].subrange(at, lines[row].len() as int),
    )
}

/// The lines after line `row + 1` was put behind line `row` and removed.
pub open spec fn merged_lines(lines: Seq<Seq<char>>, row: int) -> Seq<Seq<char>> {
    lines.update(row, lines[row] + lines[row + 1]).remove(row + 1)
}

/// The lines after `ch` was put into line `row` before position `at`.
pub open spec fn lines_with_char(lines: Seq<Seq<char>>, row: int, at: int, ch: char) -> Seq<
    Seq<char>,
> {
    lines.update(row, lines[row].insert(at, ch))
}

/// The lines after the character at position `at` of line `row` was removed.
pub open spec fn lines_without_char(lines: Seq<Seq<char>>, row: int, at: int) -> Seq<Seq<char>> {
    lines.update(row, lines[row].remove(at))
}

/// The lines that are written out: all of them, but for one empty line at
/// the end.
pub open spec fn persisted_lines(lines: Seq<Seq<char>>) -> Seq<Seq<char>> {
    if lines.len() > 0 && lines.last().len() == 0 {
        lines.drop_last()
    } else {
        lines
    }
}

/// Every line is shorter than `usize::MAX`.
pub open spec fn all_short(lines: Seq<Seq<char>>) -> bool {
    forall|i: int| 0 <= i < lines.len() ==> (#[trigger] lines[i]).len() < usize::MAX
}

/// A line-oriented text buffer.
pub struct Document {
    lines: Vec<String>,
    lengths: Vec<usize>,
}

impl View for Document {
    type V = Seq<Seq<char>>;

    /// The lines of the document, each as its characters.
    closed spec fn view(&self) -> Seq<Seq<char>> {
        views_of(self.lines@)
    }
}

impl Document {
    /// The cached table of line lengths.
    pub closed spec fn cached_lengths(&self) -> Seq<usize> {
        self.lengths@
    }

    /// The document is never empty, and the table holds the length of every
    /// line. A line is shorter than `usize::MAX`, so that the column behind
    /// its last character is a `usize` too.
    pub open spec fn wf(&self) -> bool {
        &&& 1 <= self@.len() <= usize::MAX
        &&& self.cached_lengths().len() == self@.len()
        &&& forall|i: int|
            0 <= i < self@.len() ==> (#[trigger] self.cached_lengths()[i]) == self@[i].len()
        &&& all_short(self@)
    }

    /// The number of lines.
    pub fn line_count(&self) -> (count: usize)
        requires
            self.wf(),
        ensures
            count == self@.len(),
            count >= 1,
    {
        self.lines.len()
    }

    /// A document of exactly the given lines. There must be at least one,
    /// and each must be shorter than `usize::MAX`.
    pub fn new(lines: Vec<String>) -> (doc: Result<Document, EditError>)
        ensures
            doc is Ok <==> lines@.len() >= 1 && all_short(views_of(lines@)),
            doc is Ok ==> doc->Ok_0.wf() && doc->Ok_0@ == views_of(lines@),
            doc is Err ==> doc->Err_0 == EditError::OutOfRange,
    {
        if lines.len() == 0 {
            return Err(EditError::OutOfRange);
        }
        let mut lengths: Vec<usize> = Vec::new();
        let mut i: usize = 0;
        while i < lines.len()
            invariant
                i <= lines@.len(),
                lengths@.len() == i,
                forall|k: int| 0 <= k < i ==> (#[trigger] lengths@[k]) == lines@[k]@.len(),
                forall|k: int| 0 <= k < i ==> (#[trigger] lines@[k])@.len() < usize::MAX,
            decreases lines@.len() - i,
        {
            let length = lines[i].as_str().unicode_len();
            if length == usize::MAX {
                assert(views_of(lines@)[i as int].len() == usize::MAX);
                return Err(EditError::OutOfRange);
            }
            lengths.push(length);
            i += 1;
        }
        Ok(Document { lines, lengths })
    }

    /// A document of the given lines, with one empty line added at the end
    /// to give the cursor a place behind the last of them. Each line must be
    /// shorter than `usize::MAX`.
    pub fn from_lines(lines: Vec<String>) -> (doc: Result<Document, EditError>)
        ensures
            doc is Ok <==> all_short(views_of(lines@)),
            doc is Ok ==> doc->Ok_0.wf() && doc->Ok_0@ == views_of(lines@).push(Seq::empty()),
            doc is Err ==> doc->Err_0 == EditError::OutOfRange,
    {
        let mut lines = lines;
        let ghost given = lines@;
        lines.push(String::new());
        proof {
            assert(views_of(lines@) =~= views_of(given).push(Seq::empty()));
            if all_short(views_of(lines@)) {
                assert forall|i: int| 0 <= i < views_of(given).len() implies (#[trigger] views_of(
                    given,
                )[i]).len() < usize::MAX by {
                    assert(views_of(lines@)[i] == views_of(given)[i]);
                }
            }
        }
        Document::new(lines)
    }

    /// The document of a text: its lines, cut at the line feeds as
    /// [`lines_of_text`] says, and one empty line behind them. Each line must
    /// be shorter than `usize::MAX`.
    pub fn from_text(text: &str) -> (doc: Result<Document, EditError>)
        ensures
            doc is Ok <==> all_short(lines_of_text(text@)),
            doc is Ok ==> doc->Ok_0.wf() && doc->Ok_0@ == lines_of_text(text@).push(Seq::empty()),
            doc is Err ==> doc->Err_0 == EditError::OutOfRange,
    {
        Document::from_lines(text_lines(text))
    }

    /// The cached length of line `row`.
    pub fn length_of(&self, row: usize) -> (length: Result<usize, EditError>)
        requires
            self.wf(),
        ensures
            row < self@.len() ==> length is Ok && length->Ok_0 == self@[row as int].len(),
            row >= self@.len() ==> length == Err::<usize, EditError>(EditError::OutOfRange),
    {
        if row < self.lengths.len() {
            Ok(self.lengths[row])
        } else {
            Err(EditError::OutOfRange)
        }
    }

    /// The text of line `row`.
    pub fn text_of(&self, row: usize) -> (text: Result<String, EditError>)
        requires
            self.wf(),
        ensures
            row < self@.len() ==> text is Ok && text->Ok_0@ == self@[row as int],
            row >= self@.len() ==> text == Err::<String, EditError>(EditError::OutOfRange),
    {
        if row < self.lines.len() {
            Ok(self.lines[row].clone())
        } else {
            Err(EditError::OutOfRange)
        }
    }

    /// Cuts line `row` in two before position `at`.
    pub fn split(&mut self, row: usize, at: usize) -> (done: Result<(), EditError>)
        requires
            old(self).wf(),
        ensures
            final(self).wf(),
            done is Ok <==> row < old(self)@.len() && at <= old(self)@[row as int].len(),
            done is Ok ==> final(self)@ == split_lines(old(self)@, row as int, at as int),
            done is Err ==> done == Err::<(), EditError>(EditError::OutOfRange) && final(self)@
                == old(self)@,
    {
        if row >= self.lines.len() {
            return Err(EditError::OutOfRange);
        }
        let length = self.lengths[row];
        if at > length {
            return Err(EditError::OutOfRange);
        }
        let head = slice_chars(&self.lines[row], 0, at);
        let tail = slice_chars(&self.lines[row], at, length);
        self.lines.set(row, head);
        self.lines.insert(row + 1, tail);
        self.lengths.set(row, at);
        self.lengths.insert(row + 1, length - at);
        assert(self@ =~= split_lines(old(self)@, row as int, at as int));
        assert(self.lines@.len() == self.lines.len());
        Ok(())
    }

    /// Puts line `row + 1` behind line `row` and removes it. The joined line
    /// must stay shorter than `usize::MAX`.
    pub fn merge_with_next(&mut self, row: usize) -> (done: Result<(), EditError>)
        requires
            old(self).wf(),
        ensures
            final(self).wf(),
            done is Ok <==> row + 1 < old(self)@.len() && old(self)@[row as int].len() + old(
                self,
            )@[row + 1].len() < usize::MAX,
            done is Ok ==> final(self)@ == merged_lines(old(self)@, row as int),
            done is Err ==> done == Err::<(), EditError>(EditError::OutOfRange) && final(self)@
                == old(self)@,
    {
        if row >= self.lines.len() - 1 {
            return Err(EditError::OutOfRange);
        }
        let first = self.lengths[row];
        let second = self.lengths[row + 1];
        if second >= usize::MAX - first {
            return Err(EditError::OutOfRange);
        }
        let both = joined(&self.lines[row], &self.lines[row + 1]);
        self.lines.set(row, both);
        self.lines.remove(row + 1);
        self.lengths.set(row, first + second);
        self.lengths.remove(row + 1);
        assert(self@ =~= merged_lines(old(self)@, row as int));
        Ok(())
    }

    /// Puts `ch` into line `row` before position `at`. The line must stay
    /// shorter than `usize::MAX`.
    pub fn insert_char(&mut self, row: usize, at: usize, ch: char) -> (done: Result<
        (),
        EditError,
    >)
        requires
            old(self).wf(),
        ensures
            final(self).wf(),
            done is Ok <==> row < old(self)@.len() && at <= old(self)@[row as int].len() && old(
                self,
            )@[row as int].len() + 1 < usize::MAX,
            done is Ok ==> final(self)@ == lines_with_char(old(self)@, row as int, at as int, ch),
            done is Err ==> done == Err::<(), EditError>(EditError::OutOfRange) && final(self)@
                == old(self)@,
    {
        if row >= self.lines.len() {
            return Err(EditError::OutOfRange);
        }
        let length = self.lengths[row];
        if at > length || length >= usize::MAX - 1 {
            return Err(EditError::OutOfRange);
        }
        let longer = with_char_inserted(&self.lines[row], at, ch);
        self.lines.set(row, longer);
        self.lengths.set(row, length + 1);
        assert(self@ =~= lines_with_char(old(self)@, row as int, at as int, ch));
        Ok(())
    }

    /// Removes the character at position `at` of line `row`.
    pub fn remove_char(&mut self, row: usize, at: usize) -> (done: Result<(), EditError>)
        requires
            old(self).wf(),
        ensures
            final(self).wf(),
            done is Ok <==> row < old(self)@.len() && at < old(self)@[row as int].len(),
            done is Ok ==> final(self)@ == lines_without_char(old(self)@, row as int, at as int),
            done is Err ==> done == Err::<(), EditError>(EditError::OutOfRange) && final(self)@
                == old(self)@,
    {
        if row >= self.lines.len() {
            return Err(EditError::OutOfRange);
        }
        let length = self.lengths[row];
        if at >= length {
            return Err(EditError::OutOfRange);
        }
        let shorter = with_char_removed(&self.lines[row], at);
        self.lines.set(row, shorter);
        self.lengths.set(row, length - 1);
        assert(self@ =~= lines_without_char(old(self)@, row as int, at as int));
        Ok(())
    }

    /// The lines, in order.
    pub fn lines(&self) -> (lines: &Vec<String>)
        ensures
            views_of(lines@) == self@,
    {
        &self.lines
    }

    /// The cached lengths of the lines, in order.
    pub fn lengths(&self) -> (lengths: &Vec<usize>)
        ensures
            lengths@ == self.cached_lengths(),
    {
        &self.lengths
    }

    /// The text to write out: every line followed by a line feed, but for one
    /// empty line at the end of the document, which is left out.
    pub fn saved_text(&self) -> (text: String)
        requires
            self.wf(),
        ensures
            text@ == terminated_text(persisted_lines(self@)),
    {
        let count = self.lines.len();
        let kept = if self.lengths[count - 1] == 0 {
            count - 1
        } else {
            count
        };
        assert(persisted_lines(self@) =~= self@.take(kept as int));
        let mut text = String::new();
        let mut i: usize = 0;
        while i < kept
            invariant
                i <= kept <= self@.len(),
                self.lines@.len() == self@.len(),
                text@ == terminated_text(self@.take(i as int)),
            decreases kept - i,
        {
            proof {
                reveal_strlit("\n");
                assert(self@.take(i + 1).drop_last() =~= self@.take(i as int));
                assert(self@.take(i + 1).last() == self@[i as int]);
                assert("\n"@ =~= seq!['\n']);
                assert(self@[i as int].push('\n') =~= self@[i as int] + seq!['\n']);
            }
            text.append(self.lines[i].as_str());
            text.append("\n");
            i += 1;
        }
        text
    }
}

/// Cutting a line in two and joining the two parts again gives the document
/// back, and with it the length of every line.
pub proof fn lemma_split_then_merge(lines: Seq<Seq<char>>, row: int, at: int)
    requires
        0 <= row < lines.len(),
        0 <= at <= lines[row].len(),
    ensures
        merged_lines(split_lines(lines, row, at), row) == lines,
        lengths_of(merged_lines(split_lines(lines, row, at), row)) == lengths_of(lines),
{
    let cut = split_lines(lines, row, at);
    assert(cut[row] + cut[row + 1] =~= lines[row]);
    assert(merged_lines(cut, row) =~= lines);
}

/// Joining two lines and cutting the joined line where they met gives the
/// document back.
pub proof fn lemma_merge_then_split(lines: Seq<Seq<char>>, row: int)
    requires
        0 <= row,
        row + 1 < lines.len(),
    ensures
        split_lines(merged_lines(lines, row), row, lines[row].len() as int) == lines,
{
    let joined = merged_lines(lines, row);
    let at = lines[row].len() as int;
    assert(joined[row].subrange(0, at) =~= lines[row]);
    assert(joined[row].subrange(at, joined[row].len() as int) =~= lines[row + 1]);
    assert(split_lines(joined, row, at) =~= lines);
}

/// Putting a character into a line and removing it from that place gives
/// the document back.
pub proof fn lemma_insert_then_remove(lines: Seq<Seq<char>>, row: int, at: int, ch: char)
    requires
        0 <= row < lines.len(),
        0 <= at <= lines[row].len(),
    ensures
        lines_without_char(lines_with_char(lines, row, at, ch), row, at) == lines,
{
    assert(lines[row].insert(at, ch).remove(at) =~= lines[row]);
    assert(lines_without_char(lines_with_char(lines, row, at, ch), row, at) =~= lines);
}

/// A document that was loaded and not changed is written out as the lines it
/// was loaded from: the empty line that loading adds is the one that saving
/// leaves out.
pub proof fn lemma_load_then_save(given: Seq<Seq<char>>)
    ensures
        persisted_lines(given.push(Seq::empty())) == given,
        terminated_text(persisted_lines(given.push(Seq::empty()))) == terminated_text(given),
{
    assert(given.push(Seq::empty()).drop_last() =~= given);
}

/// A text in which every line ends with a line feed, and no line feed comes
/// after a carriage return, is written out as it was read: saving right
/// after loading gives the same text, character for character.
pub proof fn lemma_load_text_then_save(text: Seq<char>)
    requires
        ends_every_line(text),
        has_no_crlf(text),
    ensures
        terminated_text(persisted_lines(lines_of_text(text).push(Seq::empty()))) == text,
{
    lemma_load_then_save(lines_of_text(text));
    lemma_text_round_trip(text);
}

} // verus!
