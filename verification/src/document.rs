//! The loaded text, split into lines once.

use vstd::prelude::*;

verus! {

/// The character that ends a line in a source text.
pub const NEWLINE: char = '\n';

/// The number of characters before the first newline of `text`; the whole
/// length where it has none.
pub open spec fn line_end(text: Seq<char>) -> int
    decreases text.len(),
{
    if text.len() == 0 || text[0] == NEWLINE {
        0
    } else {
        1 + line_end(text.skip(1))
    }
}

/// The lines of `text`: the pieces that its newlines end, without the newline,
/// and after the last newline the rest, if any is left. A final newline starts
/// no further line, so `"a\n"` and `"a"` both have the one line `"a"`, and the
/// empty text has no line.
pub open spec fn lines_of(text: Seq<char>) -> Seq<Seq<char>>
    decreases text.len(),
{
    let end: int = line_end(text);
    if text.len() == 0 {
        Seq::empty()
    } else if 0 <= end < text.len() {
        seq![text.take(end)] + lines_of(text.skip(end + 1))
    } else {
        seq![text]
    }
}

/// The views of a vector of strings.
pub open spec fn texts(lines: Seq<String>) -> Seq<Seq<char>> {
    Seq::new(lines.len(), |i: int| lines[i]@)
}

/// Whether `text` holds no newline.
pub open spec fn newline_free(text: Seq<char>) -> bool {
    forall|i: int| 0 <= i < text.len() ==> text[i] != NEWLINE
}

/// `line_end` is a position in the text, nothing before it is a newline, and
/// it is the end of the text or a newline.
pub proof fn lemma_line_end(text: Seq<char>)
    ensures
        0 <= line_end(text) <= text.len(),
        newline_free(text.take(line_end(text))),
        line_end(text) < text.len() ==> text[line_end(text)] == NEWLINE,
    decreases text.len(),
{
    if text.len() == 0 || text[0] == NEWLINE {
    } else {
        let rest = text.skip(1);
        lemma_line_end(rest);
        let end: int = line_end(text);
        assert forall|i: int| 0 <= i < end implies text.take(end)[i] != NEWLINE by {
            if i > 0 {
                assert(rest.take(end - 1)[i - 1] == text[i]);
            }
        }
    }
}

/// A newline-free prefix followed by a newline is the first line of a text.
pub proof fn lemma_line_end_at(head: Seq<char>, tail: Seq<char>)
    requires
        newline_free(head),
        tail.len() > 0,
        tail[0] == NEWLINE,
    ensures
        line_end(head + tail) == head.len(),
    decreases head.len(),
{
    if head.len() > 0 {
        assert((head + tail).skip(1) =~= head.skip(1) + tail);
        lemma_line_end_at(head.skip(1), tail);
    }
}

/// A text without a newline is its own only line, or no line if it is empty.
pub proof fn lemma_lines_of_newline_free(text: Seq<char>)
    requires
        newline_free(text),
    ensures
        lines_of(text) == if text.len() == 0 {
            Seq::<Seq<char>>::empty()
        } else {
            seq![text]
        },
{
    lemma_line_end(text);
}

/// No line of a text holds a newline.
pub proof fn lemma_lines_newline_free(text: Seq<char>)
    ensures
        forall|i: int| 0 <= i < lines_of(text).len() ==> newline_free(#[trigger] lines_of(text)[i]),
    decreases text.len(),
{
    let end: int = line_end(text);
    lemma_line_end(text);
    if text.len() == 0 {
    } else if end < text.len() {
        let rest = lines_of(text.skip(end + 1));
        lemma_lines_newline_free(text.skip(end + 1));
        assert forall|i: int| 0 <= i < lines_of(text).len() implies newline_free(
            #[trigger] lines_of(text)[i],
        ) by {
            if i > 0 {
                assert(lines_of(text)[i] == rest[i - 1]);
            }
        }
    } else {
        assert(text.take(end) =~= text);
    }
}

/// Splits `text` into its lines.
pub fn split_lines(text: &str) -> (lines: Vec<String>)
    ensures
        texts(lines@) == lines_of(text@),
{
    let mut lines: Vec<String> = Vec::new();
    let mut current = String::new();
    proof {
        assert(current@ + text@.skip(0) =~= text@);
    }
    for c in it: text.chars()
        invariant
            it.seq() == text@,
            newline_free(current@),
            lines_of(text@) == texts(lines@) + lines_of(current@ + text@.skip(it.index())),
    {
        let ghost rest = text@.skip(it.index());
        let ghost after = text@.skip(it.index() + 1);
        let ghost done = texts(lines@);
        let ghost line = current@;
        if c == NEWLINE {
            proof {
                lemma_line_end_at(line, rest);
                assert((line + rest).take(line.len() as int) =~= line);
                assert((line + rest).skip(line.len() as int + 1) =~= after);
            }
            lines.push(current);
            current = String::new();
            proof {
                assert(done + (seq![line] + lines_of(after)) =~= (done + seq![line]) + lines_of(
                    after,
                ));
            }
        } else {
            current.push(c);
            assert(current@ + after =~= line + rest);
        }
    }
    proof {
        lemma_lines_of_newline_free(current@);
    }
    if !current.as_str().is_empty() {
        lines.push(current);
    }
    lines
}

} // verus!
