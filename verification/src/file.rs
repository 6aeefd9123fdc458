//! A document: its path, its raw text and the text's lines.

use crate::text::{lemma_texts_push, push_char, texts};
use vstd::prelude::*;
use vstd::std_specs::iter::IteratorSpec;
use vstd::string::StrSliceExecFns;
use vstd::string::StringExecFns;

verus! {

broadcast use vstd::string::group_string_axioms;

/// A tabular text document as it was read.
#[derive(Debug)]
pub struct File {
    /// Where the document came from; also its tag in the store.
    pub path: String,
    /// The full text.
    pub contents: String,
    /// The lines of `contents`, in order, without their line endings.
    pub rows: Vec<String>,
}

/// What a `File` holds, as plain sequences.
pub struct FileView {
    pub path: Seq<char>,
    pub contents: Seq<char>,
    pub rows: Seq<Seq<char>>,
}

impl View for File {
    type V = FileView;

    open spec fn view(&self) -> FileView {
        FileView { path: self.path@, contents: self.contents@, rows: texts(self.rows@) }
    }
}

/// The position of the first line feed in `s`, or `s.len()` if it has none.
pub open spec fn line_break(s: Seq<char>) -> int
    decreases s.len(),
{
    if s.len() == 0 || s[0] == '\n' {
        0
    } else {
        1 + line_break(s.drop_first())
    }
}

/// A line without the carriage return that stood before its line feed.
pub open spec fn without_carriage_return(line: Seq<char>) -> Seq<char> {
    if line.len() > 0 && line.last() == '\r' {
        line.drop_last()
    } else {
        line
    }
}

/// The lines of a text.
///
/// A line ends at a line feed, or at a carriage return directly followed by a
/// line feed; the ending is not part of the line. The last line needs no
/// ending, and an ending at the very end of the text starts no further line.
/// A carriage return that no line feed follows is an ordinary character.
pub open spec fn lines_of(s: Seq<char>) -> Seq<Seq<char>>
    decreases s.len(),
{
    let k = line_break(s);
    if s.len() == 0 {
        Seq::empty()
    } else if 0 <= k < s.len() {
        seq![without_carriage_return(s.subrange(0, k))] + lines_of(
            s.subrange(k + 1, s.len() as int),
        )
    } else {
        seq![s]
    }
}

/// `line_break` finds `k` when no line feed stands before `k` and one stands
/// at `k`, or `k` is the end of the text.
pub proof fn lemma_line_break_at(s: Seq<char>, k: int)
    requires
        0 <= k <= s.len(),
        forall|j: int| 0 <= j < k ==> s[j] != '\n',
        k < s.len() ==> s[k] == '\n',
    ensures
        line_break(s) == k,
    decreases k,
{
    if k > 0 {
        lemma_line_break_at(s.drop_first(), k - 1);
    }
}

/// `line_break` is the position of the first line feed: none stands before
/// it, and one stands at it unless it is the end of the text.
pub proof fn lemma_line_break_is_first(s: Seq<char>)
    ensures
        0 <= line_break(s) <= s.len(),
        forall|j: int| 0 <= j < line_break(s) ==> s[j] != '\n',
        line_break(s) < s.len() ==> s[line_break(s)] == '\n',
    decreases s.len(),
{
    if s.len() > 0 && s[0] != '\n' {
        let rest = s.drop_first();
        lemma_line_break_is_first(rest);
        assert forall|j: int| 0 <= j < line_break(s) implies s[j] != '\n' by {
            if j > 0 {
                assert(s[j] == rest[j - 1]);
            }
        }
    }
}

/// A text has no lines exactly when it is empty.
pub proof fn lemma_no_lines_iff_empty(s: Seq<char>)
    ensures
        lines_of(s).len() == 0 <==> s.len() == 0,
{
}

/// No line holds a line feed.
pub proof fn lemma_lines_hold_no_line_feed(s: Seq<char>)
    ensures
        forall|i: int, j: int|
            0 <= i < lines_of(s).len() && 0 <= j < lines_of(s)[i].len() ==> lines_of(s)[i][j]
                != '\n',
    decreases s.len(),
{
    let k = line_break(s);
    lemma_line_break_is_first(s);
    if s.len() > 0 && k < s.len() {
        let rest = s.subrange(k + 1, s.len() as int);
        lemma_lines_hold_no_line_feed(rest);
        let first = without_carriage_return(s.subrange(0, k));
        assert forall|i: int, j: int|
            0 <= i < lines_of(s).len() && 0 <= j < lines_of(s)[i].len() implies lines_of(s)[i][j]
            != '\n' by {
            if i == 0 {
                assert(lines_of(s)[0] == first);
                assert(first[j] == s[j]);
            } else {
                assert(lines_of(s)[i] == lines_of(rest)[i - 1]);
            }
        }
    }
}

/// Splits a text into its lines.
pub fn split_lines(text: &str) -> (rows: Vec<String>)
    ensures
        texts(rows@) == lines_of(text@),
{
    let ghost len = text@.len() as int;
    let mut rows: Vec<String> = Vec::new();
    let mut line = String::new();
    let mut after_cr = false;
    let ghost mut start: int = 0;
    let ghost mut pos: int = 0;
    let mut rest = text.chars();
    proof {
        assert(text@.subrange(0, len) =~= text@);
        assert(texts(rows@) + lines_of(text@) =~= lines_of(text@));
    }
    loop
        invariant
            len == text@.len(),
            0 <= start <= pos <= len,
            rest.remaining() == text@.subrange(pos, len),
            line@ == text@.subrange(start, pos),
            after_cr == (pos > start && text@[pos - 1] == '\r'),
            forall|j: int| start <= j < pos ==> text@[j] != '\n',
            texts(rows@) + lines_of(text@.subrange(start, len)) == lines_of(text@),
        ensures
            pos == len,
            0 <= start <= len,
            line@ == text@.subrange(start, len),
            forall|j: int| start <= j < len ==> text@[j] != '\n',
            texts(rows@) + lines_of(text@.subrange(start, len)) == lines_of(text@),
        decreases len - pos,
    {
        let next = rest.next();
        match next {
            None => {
                break;
            },
            Some(c) => {
                assert(c == text@[pos]);
                if c == '\n' {
                    proof {
                        let tail = text@.subrange(start, len);
                        lemma_line_break_at(tail, pos - start);
                        assert(tail.subrange(0, pos - start) =~= text@.subrange(start, pos));
                        assert(tail.subrange(pos - start + 1, tail.len() as int)
                            =~= text@.subrange(pos + 1, len));
                    }
                    if after_cr {
                        let n = line.as_str().unicode_len();
                        let kept = String::from_str(line.as_str().substring_char(0, n - 1));
                        proof {
                            assert(kept@ =~= without_carriage_return(line@));
                            lemma_texts_push(rows@, kept);
                        }
                        rows.push(kept);
                    } else {
                        proof {
                            assert(line@ =~= without_carriage_return(line@));
                            lemma_texts_push(rows@, line);
                        }
                        rows.push(line);
                    }
                    line = String::new();
                    after_cr = false;
                    proof {
                        start = pos + 1;
                    }
                } else {
                    push_char(&mut line, c);
                    after_cr = c == '\r';
                }
                proof {
                    pos = pos + 1;
                }
            },
        }
    }
    proof {
        lemma_line_break_at(text@.subrange(start, len), len - start);
    }
    if !line.as_str().is_empty() {
        proof {
            lemma_texts_push(rows@, line);
        }
        rows.push(line);
    }
    rows
}

impl File {
    /// A document from its path and its text; `rows` are the text's lines.
    pub fn new(path: String, contents: String) -> (file: File)
        ensures
            file@.path == path@,
            file@.contents == contents@,
            file@.rows == lines_of(contents@),
    {
        let rows = split_lines(contents.as_str());
        File { path, contents, rows }
    }
}

} // verus!
