use text_editor::buffer::{Edit, Editor};

fn typed(s: &str) -> Editor {
    let mut e = Editor::new();
    for c in s.chars() {
        e.insert(c);
    }
    e
}

#[test]
fn insert_then_backspace_twice() {
    let mut e = typed("abc");
    assert_eq!(e.cursor(), 3);
    e.backspace();
    e.backspace();
    assert_eq!(e.text(), "a");
    assert_eq!(e.cursor(), 1);
}

#[test]
fn line_end_on_first_row_then_insert() {
    let mut e = Editor::from_text("line1\nline2");
    assert_eq!(e.cursor(), 0);
    e.move_to_line_end();
    assert_eq!(e.cursor(), 5);
    e.insert('X');
    assert_eq!(e.text(), "line1X\nline2");
}

#[test]
fn load_then_text_is_identical() {
    let src = "héllo\r\nwörld\n\tend\n";
    let e = Editor::from_text(src);
    assert_eq!(e.text(), src);
    assert_eq!(Editor::from_text("").text(), "");
}

#[test]
fn delete_at_end_is_no_op() {
    let mut e = typed("ab");
    e.delete();
    assert_eq!(e.text(), "ab");
    assert_eq!(e.cursor(), 2);
}

#[test]
fn delete_removes_char_ahead() {
    let mut e = Editor::from_text("abc");
    e.move_cursor_right();
    e.delete();
    assert_eq!(e.text(), "ac");
    assert_eq!(e.cursor(), 1);
}

#[test]
fn backspace_at_start_is_no_op() {
    let mut e = Editor::from_text("ab");
    e.backspace();
    assert_eq!(e.text(), "ab");
    assert_eq!(e.cursor(), 0);
}

#[test]
fn moves_are_clamped() {
    let mut e = Editor::from_text("ab");
    e.move_cursor_left();
    assert_eq!(e.cursor(), 0);
    e.move_cursor_right();
    e.move_cursor_right();
    assert_eq!(e.cursor(), 2);
    e.move_cursor_right();
    assert_eq!(e.cursor(), 2);
    assert_eq!(e.text(), "ab");
    let mut empty = Editor::new();
    empty.move_cursor_left();
    empty.move_cursor_right();
    assert_eq!(empty.cursor(), 0);
    assert_eq!(empty.len(), 0);
}

#[test]
fn line_start_and_row_col() {
    let mut e = Editor::from_text("ab\ncde\n\nf");
    for _ in 0..5 {
        e.move_cursor_right();
    }
    assert_eq!(e.cursor_row_col(), (1, 2));
    assert_eq!(e.current_line(), vec!['c', 'd', 'e']);
    assert_eq!(e.line_from_column(1), vec!['d', 'e']);
    assert_eq!(e.line_from_column(3), Vec::<char>::new());
    assert_eq!(e.line_from_column(10), Vec::<char>::new());
    e.move_to_line_start();
    assert_eq!(e.cursor(), 3);
    assert_eq!(e.cursor_row_col(), (1, 0));
    e.move_to_line_end();
    assert_eq!(e.cursor(), 6);
    e.move_cursor_right();
    assert_eq!(e.cursor_row_col(), (2, 0));
    assert_eq!(e.current_line(), Vec::<char>::new());
    e.move_to_line_end();
    assert_eq!(e.cursor(), 7);
    e.move_cursor_right();
    e.move_to_line_end();
    assert_eq!(e.cursor(), 9);
    assert_eq!(e.cursor_row_col(), (3, 1));
}

#[test]
fn newline_insert_changes_rows() {
    let mut e = typed("ab");
    e.move_cursor_left();
    e.insert('\n');
    assert_eq!(e.text(), "a\nb");
    assert_eq!(e.cursor_row_col(), (1, 0));
}

#[test]
fn screen_text_returns_carriage() {
    let e = Editor::from_text("a\nb\n");
    assert_eq!(e.screen_text(), "a\r\nb\r\n");
}

fn reference(ops: &[Edit], start: &str) -> (String, usize) {
    let mut s: Vec<char> = start.chars().collect();
    let mut c: usize = 0;
    for op in ops {
        match *op {
            Edit::Insert(ch) => {
                s.insert(c, ch);
                c += 1;
            }
            Edit::DeleteForward => {
                if c < s.len() {
                    s.remove(c);
                }
            }
            Edit::DeleteBackward => {
                if c > 0 {
                    s.remove(c - 1);
                    c -= 1;
                }
            }
            Edit::Left => c = c.saturating_sub(1),
            Edit::Right => c = (c + 1).min(s.len()),
            Edit::LineStart => {
                while c > 0 && s[c - 1] != '\n' {
                    c -= 1;
                }
            }
            Edit::LineEnd => {
                while c < s.len() && s[c] != '\n' {
                    c += 1;
                }
            }
        }
    }
    (s.into_iter().collect(), c)
}

#[test]
fn edit_sequence_matches_reference() {
    let ops = vec![
        Edit::Insert('x'),
        Edit::Insert('\n'),
        Edit::Right,
        Edit::Right,
        Edit::DeleteForward,
        Edit::LineEnd,
        Edit::Insert('!'),
        Edit::Left,
        Edit::Left,
        Edit::DeleteBackward,
        Edit::LineStart,
        Edit::DeleteBackward,
        Edit::Left,
        Edit::LineEnd,
        Edit::DeleteForward,
        Edit::DeleteForward,
        Edit::Right,
        Edit::Insert('é'),
    ];
    let start = "hello\nworld";
    let mut e = Editor::from_text(start);
    e.apply_all(&ops);
    let (text, cursor) = reference(&ops, start);
    assert_eq!(e.text(), text);
    assert_eq!(e.cursor(), cursor);
    assert!(e.cursor() <= e.len());
}

#[test]
fn cursor_stays_in_text_after_each_edit() {
    let ops = [
        Edit::DeleteBackward,
        Edit::Left,
        Edit::DeleteForward,
        Edit::Insert('a'),
        Edit::Right,
        Edit::Right,
        Edit::LineEnd,
        Edit::DeleteForward,
        Edit::DeleteBackward,
        Edit::DeleteBackward,
        Edit::LineStart,
    ];
    let mut e = Editor::new();
    for op in ops {
        e.apply(op);
        assert!(e.cursor() <= e.len());
    }
    assert_eq!(e.text(), "");
}
