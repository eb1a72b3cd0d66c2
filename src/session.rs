//! The editing session: a buffer, an editing mode and an optional save
//! target, driven one key event at a time.
use vstd::prelude::*;
use crate::buffer::{apply_edit, BufferState, Edit, Editor};
use crate::lines::{column_of, row_of, screen_text};

verus! {

/// Whether character keys edit the text or are read as commands.
#[derive(Clone, Copy, PartialEq, Eq, Debug, Structural)]
pub enum Mode {
    Insert,
    Normal,
}

/// A decoded key press.
#[derive(Clone, Copy, PartialEq, Eq, Debug, Structural)]
pub enum KeyEvent {
    Char(char),
    Backspace,
    Delete,
    Left,
    Right,
    Home,
    End,
    Esc,
    Ctrl(char),
    Other,
}

/// What the loop around the session does after an event.
#[derive(Clone, Copy, PartialEq, Eq, Debug, Structural)]
pub enum Action {
    /// Redraw the screen and read the next event.
    Redraw,
    /// Write the text to the save target, then redraw.
    Save,
    /// Restore the terminal and end the session.
    Quit,
}

/// The mode after `key`: the escape key switches between the two modes.
pub open spec fn next_mode(mode: Mode, key: KeyEvent) -> Mode {
    match key {
        KeyEvent::Esc => match mode {
            Mode::Insert => Mode::Normal,
            Mode::Normal => Mode::Insert,
        },
        _ => mode,
    }
}

/// The edit that `key` makes in `mode`, if any: only insert mode edits.
pub open spec fn edit_for(mode: Mode, key: KeyEvent) -> Option<Edit> {
    match mode {
        Mode::Normal => None,
        Mode::Insert => match key {
            KeyEvent::Char(c) => Some(Edit::Insert(c)),
            KeyEvent::Backspace => Some(Edit::DeleteBackward),
            KeyEvent::Delete => Some(Edit::DeleteForward),
            KeyEvent::Left => Some(Edit::Left),
            KeyEvent::Right => Some(Edit::Right),
            KeyEvent::Home => Some(Edit::LineStart),
            KeyEvent::End => Some(Edit::LineEnd),
            _ => None,
        },
    }
}

/// The action that follows `key` in `mode`: Ctrl-C quits in either mode,
/// `q` quits in normal mode, Ctrl-S saves when there is a save target.
pub open spec fn action_for(mode: Mode, key: KeyEvent, has_target: bool) -> Action {
    match key {
        KeyEvent::Ctrl('c') => Action::Quit,
        KeyEvent::Ctrl('s') => if has_target {
            Action::Save
        } else {
            Action::Redraw
        },
        KeyEvent::Char('q') => match mode {
            Mode::Normal => Action::Quit,
            Mode::Insert => Action::Redraw,
        },
        _ => Action::Redraw,
    }
}

/// The buffer after `key` in `mode`.
pub open spec fn buffer_after(mode: Mode, st: BufferState, key: KeyEvent) -> BufferState {
    match edit_for(mode, key) {
        Some(e) => apply_edit(st, e),
        None => st,
    }
}

/// An editor session. It starts in insert mode.
pub struct Session {
    editor: Editor,
    mode: Mode,
    file_path: Option<String>,
}

impl Session {
    /// The buffer's cursor stands within its text.
    pub open spec fn wf(&self) -> bool {
        self.buffer_view().cursor <= self.buffer_view().text.len()
    }

    /// The state of the session's buffer.
    pub closed spec fn buffer_view(&self) -> BufferState {
        self.editor@
    }

    /// The current editing mode.
    pub closed spec fn mode_view(&self) -> Mode {
        self.mode
    }

    /// The save target.
    pub closed spec fn target_view(&self) -> Option<String> {
        self.file_path
    }

    /// A session in insert mode over `editor`, saving to `file_path` if
    /// one is given.
    pub fn new(editor: Editor, file_path: Option<String>) -> (r: Session)
        requires
            editor.wf(),
        ensures
            r.wf(),
            r.buffer_view() == editor@,
            r.mode_view() == Mode::Insert,
            r.target_view() == file_path,
    {
        Session { editor, mode: Mode::Insert, file_path }
    }

    /// Handles one key event: edits the buffer, switches mode, or asks
    /// the caller to save or quit.
    pub fn handle_key(&mut self, key: KeyEvent) -> (a: Action)
        requires
            old(self).wf(),
            old(self).buffer_view().text.len() < usize::MAX,
        ensures
            final(self).wf(),
            final(self).mode_view() == next_mode(old(self).mode_view(), key),
            final(self).buffer_view() == buffer_after(
                old(self).mode_view(),
                old(self).buffer_view(),
                key,
            ),
            final(self).target_view() == old(self).target_view(),
            a == action_for(old(self).mode_view(), key, old(self).target_view() is Some),
    {
        let edit: Option<Edit> = match self.mode {
            Mode::Normal => None,
            Mode::Insert => match key {
                KeyEvent::Char(c) => Some(Edit::Insert(c)),
                KeyEvent::Backspace => Some(Edit::DeleteBackward),
                KeyEvent::Delete => Some(Edit::DeleteForward),
                KeyEvent::Left => Some(Edit::Left),
                KeyEvent::Right => Some(Edit::Right),
                KeyEvent::Home => Some(Edit::LineStart),
                KeyEvent::End => Some(Edit::LineEnd),
                _ => None,
            },
        };
        if let Some(e) = edit {
            self.editor.apply(e);
        }
        let action = match key {
            KeyEvent::Ctrl(c) => if c == 'c' {
                Action::Quit
            } else if c == 's' && self.file_path.is_some() {
                Action::Save
            } else {
                Action::Redraw
            },
            KeyEvent::Char(c) => if c == 'q' && self.mode == Mode::Normal {
                Action::Quit
            } else {
                Action::Redraw
            },
            _ => Action::Redraw,
        };
        if let KeyEvent::Esc = key {
            self.mode = match self.mode {
                Mode::Insert => Mode::Normal,
                Mode::Normal => Mode::Insert,
            };
        }
        action
    }

    /// The session's buffer.
    pub fn editor(&self) -> (r: &Editor)
        ensures
            r@ == self.buffer_view(),
    {
        &self.editor
    }

    /// The editing mode.
    pub fn mode(&self) -> (r: Mode)
        ensures
            r == self.mode_view(),
    {
        self.mode
    }

    /// Where the text is saved, if anywhere.
    pub fn file_path(&self) -> (r: &Option<String>)
        ensures
            r == self.target_view(),
    {
        &self.file_path
    }

    /// The terminal position of the cursor as (column, row), both counted
    /// from 1, held at the largest value a terminal coordinate can take.
    pub fn cursor_screen_position(&self) -> (r: (u16, u16))
        requires
            self.wf(),
        ensures
            ({
                let st = self.buffer_view();
                &&& r.0 == clamp_coordinate(column_of(st.text, st.cursor as int) + 1)
                &&& r.1 == clamp_coordinate(row_of(st.text, st.cursor as int) as int + 1)
            }),
    {
        let (row, col) = self.editor.cursor_row_col();
        (to_coordinate(col), to_coordinate(row))
    }

    /// The text as the terminal shows it in raw mode, where a line feed
    /// alone does not return to the first column.
    pub fn screen_text(&self) -> (r: String)
        ensures
            r@ == screen_text(self.buffer_view().text),
    {
        self.editor.screen_text()
    }
}

/// The mode and buffer after the events of `keys`, in order.
pub open spec fn after_keys(
    mode: Mode,
    st: BufferState,
    keys: Seq<KeyEvent>,
) -> (Mode, BufferState)
    decreases keys.len(),
{
    if keys.len() == 0 {
        (mode, st)
    } else {
        let (m, b) = after_keys(mode, st, keys.drop_last());
        (next_mode(m, keys.last()), buffer_after(m, b, keys.last()))
    }
}

/// In normal mode no event but the escape key changes anything: the mode
/// stays normal and the buffer, text and cursor alike, stays as it was.
pub proof fn lemma_normal_mode_leaves_buffer(st: BufferState, keys: Seq<KeyEvent>)
    requires
        forall|i: int| 0 <= i < keys.len() ==> keys[i] != KeyEvent::Esc,
    ensures
        after_keys(Mode::Normal, st, keys) == (Mode::Normal, st),
    decreases keys.len(),
{
    if keys.len() > 0 {
        assert(forall|i: int| 0 <= i < keys.len() - 1 ==> keys.drop_last()[i] == keys[i]);
        lemma_normal_mode_leaves_buffer(st, keys.drop_last());
    }
}

/// `n` as a terminal coordinate, held at `u16::MAX`.
pub open spec fn clamp_coordinate(n: int) -> int {
    if n < u16::MAX {
        n
    } else {
        u16::MAX as int
    }
}

/// The 1-based coordinate of the 0-based position `n`.
fn to_coordinate(n: usize) -> (r: u16)
    ensures
        r == clamp_coordinate(n + 1),
{
    if n < u16::MAX as usize {
        (n + 1) as u16
    } else {
        u16::MAX
    }
}

} // verus!
