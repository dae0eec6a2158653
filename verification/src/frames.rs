//! The frames of a petal whose outline changes from one drawing to the
//! next, as they stand in a text with one outline on each line.

use vstd::prelude::*;

verus! {

/// Where the first line of a text ends: the place of its first line feed,
/// or the length of the text if it has none.
pub open spec fn first_line_end(text: Seq<char>) -> int
    decreases text.len(),
{
    if text.len() == 0 || text[0] == '\n' {
        0
    } else {
        1 + first_line_end(text.skip(1))
    }
}

/// A line without the carriage return that stands before its line feed.
pub open spec fn without_return(line: Seq<char>) -> Seq<char> {
    if line.len() > 0 && line.last() == '\r' {
        line.drop_last()
    } else {
        line
    }
}

/// The frames of a text that holds the path data of one outline on each
/// line. A line ends with a line feed, which may follow a carriage return;
/// neither belongs to the frame. What stands after the last line feed is a
/// frame too, unless it is empty.
pub open spec fn frames_of(text: Seq<char>) -> Seq<Seq<char>>
    decreases text.len(),
{
    if text.len() == 0 {
        Seq::empty()
    } else {
        let end = first_line_end(text);
        if 0 <= end < text.len() {
            seq![without_return(text.take(end))] + frames_of(text.skip(end + 1))
        } else {
            seq![text]
        }
    }
}

/// The first line of a text ends at the first line feed, and at the end of
/// the text where there is no line feed.
pub proof fn lemma_first_line_end(text: Seq<char>, end: int)
    requires
        0 <= end <= text.len(),
        forall|i: int| 0 <= i < end ==> text[i] != '\n',
        end < text.len() ==> text[end] == '\n',
    ensures
        first_line_end(text) == end,
    decreases end,
{
    if end > 0 {
        lemma_first_line_end(text.skip(1), end - 1);
    }
}

/// Splits a text that holds the path data of one outline on each line into
/// its frames.
pub fn frame_lines(text: &str) -> (frames: Vec<String>)
    ensures
        frames.deep_view() == frames_of(text@),
{
    let length = text.unicode_len();
    let mut frames: Vec<String> = Vec::new();
    let mut start: usize = 0;
    let mut pos: usize = 0;
    let mut after_return = false;
    assert(text@.skip(0) == text@);
    for c in it: text.chars()
        invariant
            pos == it.index(),
            it.seq() == text@,
            length == text@.len(),
            start <= pos,
            forall|i: int| start <= i < pos ==> text@[i] != '\n',
            after_return == (start < pos && text@[pos - 1] == '\r'),
            frames_of(text@) == frames.deep_view() + frames_of(text@.skip(start as int)),
    {
        if c == '\n' {
            let end = if after_return {
                pos - 1
            } else {
                pos
            };
            let ghost rest = text@.skip(start as int);
            proof {
                lemma_first_line_end(rest, pos - start);
                assert(without_return(rest.take(pos - start)) == text@.subrange(
                    start as int,
                    end as int,
                ));
                assert(rest.skip(pos - start + 1) == text@.skip(pos + 1));
            }
            frames.push(text.substring_char(start, end).to_owned());
            start = pos + 1;
            after_return = false;
        } else {
            after_return = c == '\r';
        }
        pos = pos + 1;
    }
    if start < length {
        proof {
            let rest = text@.skip(start as int);
            lemma_first_line_end(rest, rest.len() as int);
        }
        frames.push(text.substring_char(start, length).to_owned());
    }
    frames
}

} // verus!
