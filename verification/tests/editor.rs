use hookey::actions::Action;
use hookey::buffer::{Buffer, BufferError};
use hookey::cursor::Cursor;
use hookey::domain::{BufInt, BufRange};
use hookey::editor::{BufferOp, CursorOp, Editor, Operation};

fn range(a: usize, b: usize) -> BufRange {
    BufRange::new(BufInt::new(a), BufInt::new(b))
}

#[test]
fn editor_starts_with_cursor_at_zero() {
    let ed = Editor::new(Buffer::from_str("hello"));
    assert_eq!(ed.buffer().as_string(), "hello");
    assert_eq!(ed.cursor().char_index().raw(), 0);
}

#[test]
fn editor_with_cursor_keeps_cursor() {
    let ed = Editor::with_cursor(Buffer::from_str("hello"), Cursor::new(BufInt::new(3)));
    assert_eq!(ed.cursor().char_index().raw(), 3);
}

#[test]
fn editor_insert_append_delete_actions() {
    let mut ed = Editor::new(Buffer::from_str("heo"));
    ed.apply_action(Action::InsertText { char_index: BufInt::new(2), text: "ll".to_string() }).unwrap();
    assert_eq!(ed.buffer().as_string(), "hello");
    ed.apply_action(Action::AppendText { text: " world".to_string() }).unwrap();
    assert_eq!(ed.buffer().as_string(), "hello world");
    ed.apply_action(Action::DeleteRange { range: range(0, 6) }).unwrap();
    assert_eq!(ed.buffer().as_string(), "world");
}

#[test]
fn editor_replace_range() {
    let mut ed = Editor::with_cursor(Buffer::from_str("hello world"), Cursor::new(BufInt::new(7)));
    ed.apply_action(Action::ReplaceRange { range: range(6, 11), text: "there".to_string() }).unwrap();
    assert_eq!(ed.buffer().as_string(), "hello there");
    // The cursor is not adjusted by buffer operations.
    assert_eq!(ed.cursor().char_index().raw(), 7);

    ed.apply_action(Action::ReplaceRange { range: range(0, 5), text: String::new() }).unwrap();
    assert_eq!(ed.buffer().as_string(), " there");

    ed.apply_action(Action::ReplaceRange { range: range(0, 0), text: "hi".to_string() }).unwrap();
    assert_eq!(ed.buffer().as_string(), "hi there");
}

#[test]
fn editor_refused_replace_changes_nothing() {
    let mut ed = Editor::with_cursor(Buffer::from_str("hello"), Cursor::new(BufInt::new(2)));
    let err = ed
        .apply_action(Action::ReplaceRange { range: range(3, 9), text: "x".to_string() })
        .unwrap_err();
    assert_eq!(err, BufferError::OutOfBoundsCharRange { range: range(3, 9), len: BufInt::new(5) });
    assert_eq!(ed.buffer().as_string(), "hello");
    assert_eq!(ed.cursor().char_index().raw(), 2);

    let err = ed
        .apply_action(Action::ReplaceRange { range: range(4, 1), text: "x".to_string() })
        .unwrap_err();
    assert_eq!(err, BufferError::MalformedCharRange { range: range(4, 1) });

    // An empty range past the end is an insertion at an invalid index.
    let err = ed
        .apply_action(Action::ReplaceRange { range: range(7, 7), text: "x".to_string() })
        .unwrap_err();
    assert_eq!(err, BufferError::InvalidBufferIndex { index: BufInt::new(7), len: BufInt::new(5) });
    assert_eq!(ed.buffer().as_string(), "hello");
}

#[test]
fn editor_cursor_actions() {
    let mut ed = Editor::new(Buffer::from_str("abc"));
    ed.apply_action(Action::MoveCursorLeft).unwrap();
    assert_eq!(ed.cursor().char_index().raw(), 0);
    ed.apply_action(Action::MoveCursorRight).unwrap();
    ed.apply_action(Action::MoveCursorRight).unwrap();
    assert_eq!(ed.cursor().char_index().raw(), 2);
    ed.apply_action(Action::SetCursor { char_index: BufInt::new(10) }).unwrap();
    assert_eq!(ed.cursor().char_index().raw(), 10);
    assert_eq!(ed.buffer().as_string(), "abc");
}

#[test]
fn editor_clamp_operation() {
    let mut ed = Editor::with_cursor(Buffer::from_str("abc"), Cursor::new(BufInt::new(10)));
    ed.apply_operation(Operation::Cursor(CursorOp::ClampToBuffer)).unwrap();
    assert_eq!(ed.cursor().char_index().raw(), 3);
}

#[test]
fn editor_buffer_operation_errors() {
    let mut ed = Editor::new(Buffer::from_str("abc"));
    let err = ed
        .apply_operation(Operation::Buffer(BufferOp::InsertStr { char_index: BufInt::new(4), text: "x".to_string() }))
        .unwrap_err();
    assert_eq!(err, BufferError::InvalidBufferIndex { index: BufInt::new(4), len: BufInt::new(3) });
    ed.apply_operation(Operation::Buffer(BufferOp::AppendStr { text: "d".to_string() })).unwrap();
    assert_eq!(ed.buffer().as_string(), "abcd");
}
