//! The text buffer: the document as a sequence of characters and a cursor
//! given as an offset into it.
use vstd::prelude::*;
use vstd::std_specs::iter::IteratorSpec;
use crate::lines::{
    column_of, lemma_line_end_bounds, lemma_line_start_bounds, line_end, line_start,
    newline_count, row_of, screen_text,
};

verus! {

/// The abstract state of a buffer: its text and the cursor offset.
pub struct BufferState {
    pub text: Seq<char>,
    pub cursor: nat,
}

/// The editable document and its cursor.
///
/// The cursor is an absolute offset in characters; offset `len` is the
/// append position after the last character.
pub struct Editor {
    buffer: Vec<char>,
    cursor: usize,
}

/// Relies on std's `String::push`: appends one character to the string.
#[verifier::external_body]
fn push_char(s: &mut String, c: char)
    ensures
        final(s)@ == old(s)@.push(c),
{
    s.push(c)
}

/// Why a file could not be read or written.
#[derive(Clone, Copy, PartialEq, Eq, Debug, Structural)]
pub enum FileError {
    ReadFailed,
    WriteFailed,
}

/// One editing operation on a buffer.
#[derive(Clone, Copy, PartialEq, Eq, Debug, Structural)]
pub enum Edit {
    Insert(char),
    DeleteForward,
    DeleteBackward,
    Left,
    Right,
    LineStart,
    LineEnd,
}

/// What one edit does to a buffer, stated on its text and cursor.
pub open spec fn apply_edit(st: BufferState, e: Edit) -> BufferState {
    let (s, c) = (st.text, st.cursor as int);
    match e {
        Edit::Insert(ch) => BufferState { text: s.insert(c, ch), cursor: (c + 1) as nat },
        Edit::DeleteForward => if c < s.len() {
            BufferState { text: s.remove(c), cursor: st.cursor }
        } else {
            st
        },
        Edit::DeleteBackward => if c > 0 {
            BufferState { text: s.remove(c - 1), cursor: (c - 1) as nat }
        } else {
            st
        },
        Edit::Left => if c > 0 {
            BufferState { text: s, cursor: (c - 1) as nat }
        } else {
            st
        },
        Edit::Right => if c < s.len() {
            BufferState { text: s, cursor: (c + 1) as nat }
        } else {
            st
        },
        Edit::LineStart => BufferState { text: s, cursor: line_start(s, c) as nat },
        Edit::LineEnd => BufferState { text: s, cursor: line_end(s, c) as nat },
    }
}

/// The buffer after applying `es` in order.
pub open spec fn apply_edits(st: BufferState, es: Seq<Edit>) -> BufferState
    decreases es.len(),
{
    if es.len() == 0 {
        st
    } else {
        apply_edit(apply_edits(st, es.drop_last()), es.last())
    }
}

/// An edit leaves the cursor within the text, and grows the text by at
/// most one character.
pub proof fn lemma_edit_keeps_cursor_in_text(st: BufferState, e: Edit)
    requires
        st.cursor <= st.text.len(),
    ensures
        apply_edit(st, e).cursor <= apply_edit(st, e).text.len(),
        apply_edit(st, e).text.len() <= st.text.len() + 1,
{
    lemma_line_start_bounds(st.text, st.cursor as int);
    lemma_line_end_bounds(st.text, st.cursor as int);
}

/// Whatever edits are applied, the cursor stays between offset 0 and the
/// append position.
pub proof fn lemma_edits_keep_cursor_in_text(st: BufferState, es: Seq<Edit>)
    requires
        st.cursor <= st.text.len(),
    ensures
        apply_edits(st, es).cursor <= apply_edits(st, es).text.len(),
        apply_edits(st, es).text.len() <= st.text.len() + es.len(),
    decreases es.len(),
{
    if es.len() > 0 {
        lemma_edits_keep_cursor_in_text(st, es.drop_last());
        lemma_edit_keeps_cursor_in_text(apply_edits(st, es.drop_last()), es.last());
    }
}

impl View for Editor {
    type V = BufferState;

    closed spec fn view(&self) -> BufferState {
        BufferState { text: self.buffer@, cursor: self.cursor as nat }
    }
}

impl Editor {
    /// The cursor never stands past the append position.
    pub open spec fn wf(&self) -> bool {
        self@.cursor <= self@.text.len()
    }

    /// An empty buffer with the cursor at offset 0.
    pub fn new() -> (r: Editor)
        ensures
            r.wf(),
            r@.text == Seq::<char>::empty(),
            r@.cursor == 0,
    {
        Editor { buffer: Vec::new(), cursor: 0 }
    }

    /// A buffer holding `s`, with the cursor at offset 0.
    pub fn from_text(s: &str) -> (r: Editor)
        ensures
            r.wf(),
            r@.text == s@,
            r@.cursor == 0,
    {
        broadcast use vstd::string::group_string_axioms;
        let mut buffer: Vec<char> = Vec::new();
        let mut chars = s.chars();
        loop
            invariant
                buffer@ + chars.remaining() == s@,
                chars.obeys_prophetic_iter_laws(),
                chars.decrease() is Some,
            ensures
                buffer@ == s@,
            decreases chars.decrease()->0,
        {
            match chars.next() {
                Some(c) => {
                    buffer.push(c);
                },
                None => {
                    assert(buffer@ + chars.remaining() =~= buffer@);
                    break;
                },
            }
        }
        Editor { buffer, cursor: 0 }
    }

    /// The whole text as a string.
    pub fn text(&self) -> (r: String)
        ensures
            r@ == self@.text,
    {
        let mut r = String::new();
        let mut j: usize = 0;
        while j < self.buffer.len()
            invariant
                j <= self.buffer.len(),
                r@ == self.buffer@.subrange(0, j as int),
            decreases self.buffer.len() - j,
        {
            push_char(&mut r, self.buffer[j]);
            j = j + 1;
        }
        r
    }

    /// The text with each line break written as a carriage return and a
    /// line feed.
    pub fn screen_text(&self) -> (r: String)
        ensures
            r@ == screen_text(self@.text),
    {
        let mut r = String::new();
        let mut j: usize = 0;
        while j < self.buffer.len()
            invariant
                j <= self.buffer.len(),
                r@ == screen_text(self.buffer@.subrange(0, j as int)),
            decreases self.buffer.len() - j,
        {
            assert(self.buffer@.subrange(0, j + 1).drop_last() == self.buffer@.subrange(0, j as int));
            let c = self.buffer[j];
            if c == '\n' {
                push_char(&mut r, '\r');
            }
            push_char(&mut r, c);
            j = j + 1;
        }
        assert(self.buffer@.subrange(0, self.buffer.len() as int) == self.buffer@);
        r
    }

    /// Inserts `c` at the cursor and moves the cursor past it.
    pub fn insert(&mut self, c: char)
        requires
            old(self).wf(),
            old(self)@.text.len() < usize::MAX,
        ensures
            final(self).wf(),
            final(self)@.text == old(self)@.text.insert(old(self)@.cursor as int, c),
            final(self)@.cursor == old(self)@.cursor + 1,
    {
        self.buffer.insert(self.cursor, c);
        self.cursor = self.cursor + 1;
    }
    /// Removes the character at the cursor; at the end of the text nothing
    /// changes. The cursor stays where it is.
    pub fn delete(&mut self)
        requires
            old(self).wf(),
        ensures
            final(self).wf(),
            final(self)@.cursor == old(self)@.cursor,
            old(self)@.cursor == old(self)@.text.len() ==> final(self)@.text == old(self)@.text,
            old(self)@.cursor < old(self)@.text.len() ==> final(self)@.text == old(
                self,
            )@.text.remove(old(self)@.cursor as int),
    {
        if self.cursor == self.buffer.len() {
            return;
        }
        self.buffer.remove(self.cursor);
    }

    /// Removes the character before the cursor and moves the cursor back
    /// over it; at offset 0 nothing changes.
    pub fn backspace(&mut self)
        requires
            old(self).wf(),
        ensures
            final(self).wf(),
            old(self)@.cursor == 0 ==> final(self)@ == old(self)@,
            old(self)@.cursor > 0 ==> final(self)@.text == old(self)@.text.remove(
                old(self)@.cursor - 1,
            ),
            old(self)@.cursor > 0 ==> final(self)@.cursor == old(self)@.cursor - 1,
    {
        if self.cursor == 0 {
            return;
        }
        self.buffer.remove(self.cursor - 1);
        self.cursor = self.cursor - 1;
    }

    /// Moves the cursor one character back, stopping at offset 0.
    pub fn move_cursor_left(&mut self)
        requires
            old(self).wf(),
        ensures
            final(self).wf(),
            final(self)@.text == old(self)@.text,
            final(self)@.cursor == if old(self)@.cursor > 0 {
                (old(self)@.cursor - 1) as nat
            } else {
                0
            },
    {
        if self.cursor > 0 {
            self.cursor = self.cursor - 1;
        }
    }

    /// Moves the cursor one character forward, stopping at the append
    /// position.
    pub fn move_cursor_right(&mut self)
        requires
            old(self).wf(),
        ensures
            final(self).wf(),
            final(self)@.text == old(self)@.text,
            final(self)@.cursor == if old(self)@.cursor < old(self)@.text.len() {
                old(self)@.cursor + 1
            } else {
                old(self)@.cursor
            },
    {
        if self.cursor < self.buffer.len() {
            self.cursor = self.cursor + 1;
        }
    }

    /// The offset at which the line holding offset `i` begins.
    fn line_start_of(&self, i: usize) -> (r: usize)
        requires
            i <= self@.text.len(),
        ensures
            r == line_start(self@.text, i as int),
            r <= i,
    {
        let mut j: usize = i;
        while j > 0 && self.buffer[j - 1] != '\n'
            invariant
                j <= i <= self.buffer.len(),
                line_start(self.buffer@, j as int) == line_start(self.buffer@, i as int),
            decreases j,
        {
            j = j - 1;
        }
        j
    }

    /// The offset at which the line holding offset `i` ends.
    fn line_end_of(&self, i: usize) -> (r: usize)
        requires
            i <= self@.text.len(),
        ensures
            r == line_end(self@.text, i as int),
            i <= r <= self@.text.len(),
    {
        let mut j: usize = i;
        while j < self.buffer.len() && self.buffer[j] != '\n'
            invariant
                i <= j <= self.buffer.len(),
                line_end(self.buffer@, j as int) == line_end(self.buffer@, i as int),
            decreases self.buffer.len() - j,
        {
            j = j + 1;
        }
        j
    }

    /// Moves the cursor to column 0 of its line.
    pub fn move_to_line_start(&mut self)
        requires
            old(self).wf(),
        ensures
            final(self).wf(),
            final(self)@.text == old(self)@.text,
            final(self)@.cursor == line_start(old(self)@.text, old(self)@.cursor as int),
    {
        self.cursor = self.line_start_of(self.cursor);
    }

    /// Moves the cursor to the append position of its line: onto the line
    /// break that ends it, or to the end of the text.
    pub fn move_to_line_end(&mut self)
        requires
            old(self).wf(),
        ensures
            final(self).wf(),
            final(self)@.text == old(self)@.text,
            final(self)@.cursor == line_end(old(self)@.text, old(self)@.cursor as int),
    {
        self.cursor = self.line_end_of(self.cursor);
    }

    /// The row and column of the cursor, both counted from 0.
    pub fn cursor_row_col(&self) -> (r: (usize, usize))
        requires
            self.wf(),
        ensures
            r.0 == row_of(self@.text, self@.cursor as int),
            r.1 == column_of(self@.text, self@.cursor as int),
    {
        let mut row: usize = 0;
        let mut start: usize = 0;
        let mut j: usize = 0;
        while j < self.cursor
            invariant
                j <= self.cursor <= self.buffer.len(),
                row <= j,
                start <= j,
                row == newline_count(self.buffer@.subrange(0, j as int)),
                start == line_start(self.buffer@, j as int),
            decreases self.cursor - j,
        {
            assert(self.buffer@.subrange(0, j + 1).drop_last() == self.buffer@.subrange(0, j as int));
            if self.buffer[j] == '\n' {
                row = row + 1;
                start = j + 1;
            }
            j = j + 1;
        }
        (row, self.cursor - start)
    }

    /// The characters from `from` up to `to`.
    fn slice(&self, from: usize, to: usize) -> (r: Vec<char>)
        requires
            from <= to <= self@.text.len(),
        ensures
            r@ == self@.text.subrange(from as int, to as int),
    {
        let mut r: Vec<char> = Vec::new();
        let mut j: usize = from;
        while j < to
            invariant
                from <= j <= to <= self.buffer.len(),
                r@ == self.buffer@.subrange(from as int, j as int),
            decreases to - j,
        {
            r.push(self.buffer[j]);
            j = j + 1;
        }
        r
    }

    /// The line the cursor is on, without its line break.
    pub fn current_line(&self) -> (r: Vec<char>)
        requires
            self.wf(),
        ensures
            r@ == self@.text.subrange(
                line_start(self@.text, self@.cursor as int),
                line_end(self@.text, self@.cursor as int),
            ),
    {
        let from = self.line_start_of(self.cursor);
        let to = self.line_end_of(self.cursor);
        self.slice(from, to)
    }

    /// The cursor's line from column `col` on; a column past the end of
    /// the line gives an empty line rather than a fault.
    pub fn line_from_column(&self, col: usize) -> (r: Vec<char>)
        requires
            self.wf(),
        ensures
            ({
                let s = self@.text;
                let ls = line_start(s, self@.cursor as int);
                let le = line_end(s, self@.cursor as int);
                r@ == if ls + col <= le {
                    s.subrange(ls + col, le)
                } else {
                    Seq::<char>::empty()
                }
            }),
    {
        let from = self.line_start_of(self.cursor);
        let to = self.line_end_of(self.cursor);
        if col <= to - from {
            self.slice(from + col, to)
        } else {
            Vec::new()
        }
    }
    /// Applies one edit.
    pub fn apply(&mut self, e: Edit)
        requires
            old(self).wf(),
            old(self)@.text.len() < usize::MAX,
        ensures
            final(self).wf(),
            final(self)@ == apply_edit(old(self)@, e),
    {
        match e {
            Edit::Insert(c) => self.insert(c),
            Edit::DeleteForward => self.delete(),
            Edit::DeleteBackward => self.backspace(),
            Edit::Left => self.move_cursor_left(),
            Edit::Right => self.move_cursor_right(),
            Edit::LineStart => self.move_to_line_start(),
            Edit::LineEnd => self.move_to_line_end(),
        }
    }

    /// Applies the edits of `es` in order.
    pub fn apply_all(&mut self, es: &Vec<Edit>)
        requires
            old(self).wf(),
            old(self)@.text.len() + es@.len() <= usize::MAX,
        ensures
            final(self).wf(),
            final(self)@ == apply_edits(old(self)@, es@),
    {
        let ghost start = self@;
        let mut i: usize = 0;
        while i < es.len()
            invariant
                i <= es.len(),
                start.text.len() + es@.len() <= usize::MAX,
                start.cursor <= start.text.len(),
                self.wf(),
                self@ == apply_edits(start, es@.subrange(0, i as int)),
            decreases es.len() - i,
        {
            proof {
                assert(es@.subrange(0, i + 1).drop_last() == es@.subrange(0, i as int));
                lemma_edits_keep_cursor_in_text(start, es@.subrange(0, i as int));
            }
            self.apply(es[i]);
            i = i + 1;
        }
        assert(es@.subrange(0, es.len() as int) == es@);
    }
    /// The number of characters in the text.
    pub fn len(&self) -> (r: usize)
        ensures
            r == self@.text.len(),
    {
        self.buffer.len()
    }

    /// The cursor offset.
    pub fn cursor(&self) -> (r: usize)
        ensures
            r == self@.cursor,
    {
        self.cursor
    }
}

} // verus!
