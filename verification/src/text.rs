//! Source text cut into lines.

use vstd::prelude::*;

verus! {

/// The mathematical values of a list of strings.
pub open spec fn strings_view(lines: Seq<String>) -> Seq<Seq<char>> {
    Seq::new(lines.len(), |i: int| lines[i]@)
}

/// The lines of `text`: a line ends before each line feed, and the text after
/// the last line feed is a line too, so a text with `n` line feeds has
/// `n + 1` lines and none of them holds a line feed.
pub open spec fn lines_of(text: Seq<char>) -> Seq<Seq<char>>
    decreases text.len(),
{
    if text.len() == 0 {
        seq![Seq::empty()]
    } else {
        let before = lines_of(text.drop_last());
        if text.last() == '\n' {
            before.push(Seq::empty())
        } else {
            before.update(before.len() - 1, before.last().push(text.last()))
        }
    }
}

/// The lines put together again, with a line feed between each two.
pub open spec fn joined(lines: Seq<Seq<char>>) -> Seq<char>
    decreases lines.len(),
{
    if lines.len() == 0 {
        Seq::empty()
    } else if lines.len() == 1 {
        lines[0]
    } else {
        joined(lines.drop_last()) + seq!['\n'] + lines.last()
    }
}

/// Cutting a text into lines loses nothing and keeps every line break:
/// there is at least one line, no line holds a line feed, and the lines put
/// together with line feeds between them are the text.
pub proof fn lemma_lines_of(text: Seq<char>)
    ensures
        lines_of(text).len() >= 1,
        forall|k: int, i: int|
            0 <= k < lines_of(text).len() && 0 <= i < lines_of(text)[k].len() ==> (
            #[trigger] lines_of(text)[k][i]) != '\n',
        joined(lines_of(text)) == text,
    decreases text.len(),
{
    if text.len() > 0 {
        let shorter = text.drop_last();
        lemma_lines_of(shorter);
        let before = lines_of(shorter);
        let lines = lines_of(text);
        if text.last() == '\n' {
            assert(lines.drop_last() == before);
        } else if before.len() > 1 {
            assert(lines.drop_last() == before.drop_last());
            assert(joined(lines) == (joined(before.drop_last()) + seq!['\n']
                + before.last()).push(text.last()));
        }
    }
}

/// Cuts `text` at every line feed.
pub fn split_lines(text: &str) -> (lines: Vec<String>)
    ensures
        strings_view(lines@) == lines_of(text@),
{
    broadcast use vstd::string::group_string_axioms;

    let total = text.unicode_len();
    let mut lines: Vec<String> = Vec::new();
    let mut start: usize = 0;
    let mut i: usize = 0;
    assert(text@.take(0) == Seq::<char>::empty());
    for c in it: text.chars()
        invariant
            it.seq() == text@,
            total == text@.len(),
            i == it.index(),
            start <= i,
            lines_of(text@.take(i as int)) == strings_view(lines@).push(
                text@.subrange(start as int, i as int),
            ),
    {
        let ghost done = strings_view(lines@);
        let ghost open_line = text@.subrange(start as int, i as int);
        proof {
            let prefix = text@.take(i + 1);
            assert(prefix.drop_last() == text@.take(i as int));
        }
        if c == '\n' {
            let piece = text.substring_char(start, i);
            lines.push(piece.to_owned());
            start = i + 1;
            assert(text@.subrange(i + 1, i + 1) == Seq::<char>::empty());
        } else {
            assert(done.push(open_line).update(done.len() as int, open_line.push(c)) == done.push(
                text@.subrange(start as int, i + 1),
            )) by {
                assert(open_line.push(c) == text@.subrange(start as int, i + 1));
            }
        }
        i = i + 1;
    }
    assert(text@.take(i as int) == text@);
    let piece = text.substring_char(start, i);
    lines.push(piece.to_owned());
    lines
}

} // verus!
