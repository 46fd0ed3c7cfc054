//! Splitting a snapshot of the log buffer into its lines.
//!
//! A line ends at a line feed; a carriage return directly before that line
//! feed belongs to the line ending too. Text after the last line feed is a
//! line of its own unless it is empty, and is kept as it stands.

use vstd::prelude::*;

verus! {

/// The position of the first line feed in `text`, or the length of `text`
/// when it holds none.
pub open spec fn first_line_feed(text: Seq<char>) -> nat
    decreases text.len(),
{
    if text.len() == 0 || text[0] == '\n' {
        0
    } else {
        1 + first_line_feed(text.drop_first())
    }
}

/// `line` without the carriage return that ends it, if one does.
pub open spec fn without_carriage_return(line: Seq<char>) -> Seq<char> {
    if line.len() > 0 && line.last() == '\r' {
        line.drop_last()
    } else {
        line
    }
}

/// The lines of `text`, in order.
pub open spec fn lines_of(text: Seq<char>) -> Seq<Seq<char>>
    decreases text.len(),
{
    let end = first_line_feed(text);
    if text.len() == 0 {
        Seq::empty()
    } else if end < text.len() {
        seq![without_carriage_return(text.take(end as int))] + lines_of(text.skip(end as int + 1))
    } else {
        seq![text]
    }
}

/// Whether `text` holds no line feed.
pub open spec fn single_line(text: Seq<char>) -> bool {
    forall|i: int| 0 <= i < text.len() ==> text[i] != '\n'
}

/// A text that starts with a line free of line feeds has its first line feed
/// where that line ends.
pub proof fn lemma_first_line_feed_after(line: Seq<char>, rest: Seq<char>)
    requires
        single_line(line),
    ensures
        first_line_feed(line + rest) == line.len() + first_line_feed(rest),
    decreases line.len(),
{
    if line.len() == 0 {
        assert(line + rest =~= rest);
    } else {
        assert((line + rest)[0] == line[0]);
        assert((line + rest).drop_first() =~= line.drop_first() + rest);
        lemma_first_line_feed_after(line.drop_first(), rest);
    }
}

/// The lines of a line followed by a line feed and more text: the line,
/// without its carriage return, and then the lines of the rest.
pub proof fn lemma_lines_of_terminated(line: Seq<char>, rest: Seq<char>)
    requires
        single_line(line),
    ensures
        lines_of(line + seq!['\n'] + rest) == seq![without_carriage_return(line)] + lines_of(rest),
{
    let text = line + seq!['\n'] + rest;
    assert(text =~= line + (seq!['\n'] + rest));
    lemma_first_line_feed_after(line, seq!['\n'] + rest);
    assert(first_line_feed(seq!['\n'] + rest) == 0);
    assert(text.take(line.len() as int) =~= line);
    assert(text.skip(line.len() as int + 1) =~= rest);
}

/// The lines of a text without a line feed: the text itself, unless it is
/// empty.
pub proof fn lemma_lines_of_unterminated(line: Seq<char>)
    requires
        single_line(line),
    ensures
        line.len() == 0 ==> lines_of(line) == Seq::<Seq<char>>::empty(),
        line.len() > 0 ==> lines_of(line) == seq![line],
{
    lemma_first_line_feed_after(line, Seq::empty());
    assert(line + Seq::<char>::empty() =~= line);
}

/// `String::push` appends the character to the end of the string.
pub assume_specification[ String::push ](line: &mut String, ch: char)
    ensures
        final(line)@ == old(line)@.push(ch),
;

/// The text that a pending line stands for: what was stored of it, and the
/// carriage return that is still held back.
spec fn pending_line(stored: Seq<char>, held: bool) -> Seq<char> {
    if held {
        stored.push('\r')
    } else {
        stored
    }
}

/// Splits `text` into its lines.
pub fn split_lines(text: &str) -> (lines: Vec<String>)
    ensures
        lines.deep_view() == lines_of(text@),
{
    let mut lines: Vec<String> = Vec::new();
    let mut current = String::new();
    // A carriage return that has been read but not yet stored: the next
    // character decides whether it belongs to a line ending.
    let mut held: bool = false;
    let ghost mut pos: int = 0;
    proof {
        assert(lines.deep_view() =~= Seq::<Seq<char>>::empty());
        assert(pending_line(current@, held) + text@.skip(0) =~= text@);
    }
    for ch in iter: text.chars()
        invariant
            iter.seq() == text@,
            pos == iter.index(),
            single_line(current@),
            !held ==> current@.len() == 0 || current@.last() != '\r',
            lines_of(text@) == lines.deep_view() + lines_of(
                pending_line(current@, held) + text@.skip(pos),
            ),
    {
        let ghost before = lines.deep_view();
        let ghost line = pending_line(current@, held);
        let ghost rest = text@.skip(pos + 1);
        assert(text@.skip(pos) =~= seq![ch] + rest);
        if ch == '\n' {
            proof {
                lemma_lines_of_terminated(line, rest);
                assert(line + text@.skip(pos) =~= line + seq!['\n'] + rest);
                assert(without_carriage_return(line) == current@);
            }
            lines.push(current);
            current = String::new();
            held = false;
            assert(lines.deep_view() =~= before.push(without_carriage_return(line)));
            assert(pending_line(current@, held) + rest =~= rest);
        } else {
            if held {
                current.push('\r');
            }
            if ch == '\r' {
                held = true;
            } else {
                current.push(ch);
                held = false;
            }
            assert(pending_line(current@, held) + rest =~= line + text@.skip(pos));
        }
        proof {
            pos = pos + 1;
        }
    }
    let ghost line = pending_line(current@, held);
    if held {
        current.push('\r');
    }
    proof {
        assert(line + text@.skip(pos) =~= current@);
        lemma_lines_of_unterminated(current@);
    }
    if !current.as_str().is_empty() {
        let ghost before = lines.deep_view();
        lines.push(current);
        assert(lines.deep_view() =~= before.push(current@));
    }
    lines
}

} // verus!
