//! Line structure of a text: where the line holding an offset begins and
//! ends, and how many line breaks precede an offset.
use vstd::prelude::*;

verus! {

/// The offset at which the line holding offset `i` begins: just after the
/// last line break before `i`, or 0.
pub open spec fn line_start(s: Seq<char>, i: int) -> int
    decreases i,
{
    if i <= 0 {
        0
    } else if s[i - 1] == '\n' {
        i
    } else {
        line_start(s, i - 1)
    }
}

/// The offset at which the line holding offset `i` ends: the first line
/// break at or after `i`, or the end of the text.
pub open spec fn line_end(s: Seq<char>, i: int) -> int
    decreases s.len() - i,
{
    if i >= s.len() {
        s.len() as int
    } else if s[i] == '\n' {
        i
    } else {
        line_end(s, i + 1)
    }
}

/// The number of line breaks in `s`.
pub open spec fn newline_count(s: Seq<char>) -> nat
    decreases s.len(),
{
    if s.len() == 0 {
        0
    } else {
        newline_count(s.drop_last()) + if s.last() == '\n' {
            1nat
        } else {
            0nat
        }
    }
}

/// The row holding offset `i`: the number of line breaks before it.
pub open spec fn row_of(s: Seq<char>, i: int) -> nat {
    newline_count(s.subrange(0, i))
}

/// The column of offset `i` within its line.
pub open spec fn column_of(s: Seq<char>, i: int) -> int {
    i - line_start(s, i)
}

/// The text as a raw-mode terminal shows it: each line break becomes a
/// carriage return followed by a line feed.
pub open spec fn screen_text(s: Seq<char>) -> Seq<char>
    decreases s.len(),
{
    if s.len() == 0 {
        Seq::<char>::empty()
    } else {
        screen_text(s.drop_last()) + if s.last() == '\n' {
            seq!['\r', '\n']
        } else {
            seq![s.last()]
        }
    }
}

/// A line start lies between the start of the text and the offset.
pub proof fn lemma_line_start_bounds(s: Seq<char>, i: int)
    requires
        0 <= i,
    ensures
        0 <= line_start(s, i) <= i,
    decreases i,
{
    if i > 0 && s[i - 1] != '\n' {
        lemma_line_start_bounds(s, i - 1);
    }
}

/// A line end lies between the offset and the end of the text.
pub proof fn lemma_line_end_bounds(s: Seq<char>, i: int)
    requires
        0 <= i <= s.len(),
    ensures
        i <= line_end(s, i) <= s.len(),
    decreases s.len() - i,
{
    if i < s.len() && s[i] != '\n' {
        lemma_line_end_bounds(s, i + 1);
    }
}

} // verus!
