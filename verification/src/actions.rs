//! High-level editor intents.
use vstd::prelude::*;
use crate::domain::{BufInt, BufRange};
use crate::buffer::BufferError;
use crate::editor::{
    apply_ops, lemma_append_op, lemma_apply_single_op, lemma_delete_op,
    lemma_insert_op, lemma_offset_op, lemma_set_cursor_op, BufferOp, CursorOp, EditorState,
    Operation,
};

verus! {

/// High-level editor intents.
///
/// This is the layer where one describes *what should happen*, without
/// directly manipulating the buffer or cursor: user-facing intents, editor
/// commands at the semantic level, each turned into one or more primitive
/// operations.
///
/// `into_operations()` is pure: it does not inspect the current buffer or
/// cursor state, it only maps an action to the operations it represents.
#[derive(Debug, Clone, PartialEq, Eq)]
pub enum Action {
    /// Insert text at a specific character index.
    InsertText { char_index: BufInt, text: String },
    /// Append text to the end of the buffer.
    AppendText { text: String },
    /// Delete a half-open range of characters (start included, end
    /// excluded).
    DeleteRange { range: BufRange },
    /// Replace a range of characters with new text.
    ReplaceRange { range: BufRange, text: String },
    /// Move the cursor one character left, as a relative movement.
    MoveCursorLeft,
    /// Move the cursor one character right, as a relative movement.
    MoveCursorRight,
    /// Set the cursor to an exact character index.
    SetCursor { char_index: BufInt },
}

impl Action {
    /// The primitive operations that this action stands for, in order.
    ///
    /// A replacement with empty text is a deletion; a replacement of an empty
    /// range is an insertion at its start; any other replacement deletes the
    /// range and then inserts the text at its start.
    pub open spec fn operations_spec(self) -> Seq<Operation> {
        match self {
            Action::InsertText { char_index, text } => seq![
                Operation::Buffer(BufferOp::InsertStr { char_index, text }),
            ],
            Action::AppendText { text } => seq![Operation::Buffer(BufferOp::AppendStr { text })],
            Action::DeleteRange { range } => seq![
                Operation::Buffer(BufferOp::DeleteChars { range }),
            ],
            Action::ReplaceRange { range, text } => if text@.len() == 0 {
                seq![Operation::Buffer(BufferOp::DeleteChars { range })]
            } else if range.start == range.end {
                seq![Operation::Buffer(BufferOp::InsertStr { char_index: range.start, text })]
            } else {
                seq![
                    Operation::Buffer(BufferOp::DeleteChars { range }),
                    Operation::Buffer(BufferOp::InsertStr { char_index: range.start, text }),
                ]
            },
            Action::MoveCursorLeft => seq![
                Operation::Cursor(CursorOp::OffsetCharIndex { offset: 1, positive: false }),
            ],
            Action::MoveCursorRight => seq![
                Operation::Cursor(CursorOp::OffsetCharIndex { offset: 1, positive: true }),
            ],
            Action::SetCursor { char_index } => seq![
                Operation::Cursor(CursorOp::SetCharIndex(char_index)),
            ],
        }
    }

    /// Convert this high-level action into primitive editor operations.
    ///
    /// This function is pure: no buffer input, no cursor input, no state
    /// lookup.
    pub fn into_operations(self) -> (res: Vec<Operation>)
        ensures
            res@ == self.operations_spec(),
    {
        match self {
            Action::InsertText { char_index, text } => {
                vec![Operation::Buffer(BufferOp::InsertStr { char_index, text })]
            },
            Action::AppendText { text } => { vec![Operation::Buffer(BufferOp::AppendStr { text })]
            },
            Action::DeleteRange { range } => {
                vec![Operation::Buffer(BufferOp::DeleteChars { range })]
            },
            Action::ReplaceRange { range, text } => {
                if text.as_str().is_empty() {
                    vec![Operation::Buffer(BufferOp::DeleteChars { range })]
                } else if range.start == range.end {
                    vec![Operation::Buffer(BufferOp::InsertStr { char_index: range.start, text })]
                } else {
                    vec![
                        Operation::Buffer(BufferOp::DeleteChars { range }),
                        Operation::Buffer(BufferOp::InsertStr { char_index: range.start, text }),
                    ]
                }
            },
            Action::MoveCursorLeft => {
                vec![Operation::Cursor(CursorOp::OffsetCharIndex { offset: 1, positive: false })]
            },
            Action::MoveCursorRight => {
                vec![Operation::Cursor(CursorOp::OffsetCharIndex { offset: 1, positive: true })]
            },
            Action::SetCursor { char_index } => {
                vec![Operation::Cursor(CursorOp::SetCharIndex(char_index))]
            },
        }
    }
}

/// Applying `InsertText { char_index, text }` to an editor puts `text` at
/// exactly `char_index` (0 included) when that index is at most the text
/// length: the characters before the index stay, `text` follows, then the
/// rest of the old text, and the cursor stays. Past the end the action is
/// refused with `InvalidBufferIndex` and the editor is unchanged.
pub proof fn lemma_insert_text_action(s: EditorState, char_index: BufInt, text: String)
    requires
        s.text.len() <= usize::MAX,
    ensures
        ({
            let (n, res) = apply_ops(s, (Action::InsertText { char_index, text }).operations_spec());
            let i = char_index@ as int;
            &&& i <= s.text.len() ==> {
                &&& res is Ok
                &&& n.cursor == s.cursor
                &&& n.text.len() == s.text.len() + text@.len()
                &&& forall|k: int| 0 <= k < i ==> #[trigger] n.text[k] == s.text[k]
                &&& forall|k: int| 0 <= k < text@.len() ==> #[trigger] n.text[i + k] == text@[k]
                &&& forall|k: int|
                    i <= k < s.text.len() ==> #[trigger] n.text[k + text@.len()] == s.text[k]
            }
            &&& i > s.text.len() ==> {
                &&& n == s
                &&& res is Err
                &&& res->Err_0 matches BufferError::InvalidBufferIndex { index, len }
                &&& index == char_index
                &&& len@ == s.text.len()
            }
        }),
{
    let op = Operation::Buffer(BufferOp::InsertStr { char_index, text });
    assert((Action::InsertText { char_index, text }).operations_spec() == seq![op]);
    lemma_apply_single_op(s, op);
    lemma_insert_op(s, char_index, text);
}

/// Applying `AppendText { text }` always succeeds and puts `text` at the very
/// end: the old text stays as a prefix whatever it ends with, `text`
/// follows, and the cursor stays.
pub proof fn lemma_append_text_action(s: EditorState, text: String)
    ensures
        ({
            let (n, res) = apply_ops(s, (Action::AppendText { text }).operations_spec());
            &&& res is Ok
            &&& n.cursor == s.cursor
            &&& n.text.len() == s.text.len() + text@.len()
            &&& forall|k: int| 0 <= k < s.text.len() ==> #[trigger] n.text[k] == s.text[k]
            &&& forall|k: int|
                0 <= k < text@.len() ==> #[trigger] n.text[s.text.len() + k] == text@[k]
        }),
{
    let op = Operation::Buffer(BufferOp::AppendStr { text });
    assert((Action::AppendText { text }).operations_spec() == seq![op]);
    lemma_apply_single_op(s, op);
    lemma_append_op(s, text);
}

/// Applying `DeleteRange { range }` with `start <= end <= len` removes
/// exactly the characters at positions `start .. end` (end excluded): the
/// characters before `start` stay, those from `end` on move down to `start`,
/// an empty range changes nothing, and the cursor stays. A malformed range
/// (`start > end`) or one that ends past the text is refused and the editor
/// is unchanged.
pub proof fn lemma_delete_range_action(s: EditorState, range: BufRange)
    requires
        s.text.len() <= usize::MAX,
    ensures
        ({
            let (n, res) = apply_ops(s, (Action::DeleteRange { range }).operations_spec());
            let a = range.start@ as int;
            let b = range.end@ as int;
            &&& a > b ==> n == s && res == Err::<(), BufferError>(
                BufferError::MalformedCharRange { range },
            )
            &&& a <= b && b > s.text.len() ==> {
                &&& n == s
                &&& res is Err
                &&& res->Err_0 matches BufferError::OutOfBoundsCharRange { range: rg, len }
                &&& rg == range
                &&& len@ == s.text.len()
            }
            &&& a <= b <= s.text.len() ==> {
                &&& res is Ok
                &&& n.cursor == s.cursor
                &&& n.text.len() == s.text.len() - (b - a)
                &&& forall|k: int| 0 <= k < a ==> #[trigger] n.text[k] == s.text[k]
                &&& forall|k: int|
                    a <= k < s.text.len() - (b - a) ==> #[trigger] n.text[k] == s.text[k + (b
                        - a)]
                &&& a == b ==> n.text == s.text
            }
        }),
{
    let op = Operation::Buffer(BufferOp::DeleteChars { range });
    assert((Action::DeleteRange { range }).operations_spec() == seq![op]);
    lemma_apply_single_op(s, op);
    lemma_delete_op(s, range);
}

/// `MoveCursorLeft` moves the cursor one position left, staying at 0 when it
/// is there already; `MoveCursorRight` moves it one position right. Neither
/// changes the text or fails.
pub proof fn lemma_move_cursor_actions(s: EditorState)
    ensures
        ({
            let (n, res) = apply_ops(s, Action::MoveCursorLeft.operations_spec());
            &&& res is Ok
            &&& n.text == s.text
            &&& s.cursor > 0 ==> n.cursor == s.cursor - 1
            &&& s.cursor == 0 ==> n.cursor == 0
        }),
        s.cursor < usize::MAX ==> ({
            let (n, res) = apply_ops(s, Action::MoveCursorRight.operations_spec());
            &&& res is Ok
            &&& n.text == s.text
            &&& n.cursor == s.cursor + 1
        }),
{
    let left = Operation::Cursor(CursorOp::OffsetCharIndex { offset: 1, positive: false });
    assert(Action::MoveCursorLeft.operations_spec() == seq![left]);
    lemma_apply_single_op(s, left);
    lemma_offset_op(s, 1, false);
    let right = Operation::Cursor(CursorOp::OffsetCharIndex { offset: 1, positive: true });
    assert(Action::MoveCursorRight.operations_spec() == seq![right]);
    lemma_apply_single_op(s, right);
    if s.cursor < usize::MAX {
        lemma_offset_op(s, 1, true);
    }
}

/// `SetCursor { char_index }` puts the cursor at exactly `char_index`,
/// without clamping, and leaves the text as it was.
pub proof fn lemma_set_cursor_action(s: EditorState, char_index: BufInt)
    ensures
        apply_ops(s, (Action::SetCursor { char_index }).operations_spec()) == (
        EditorState { text: s.text, cursor: char_index@ },
        Ok::<(), BufferError>(()),
    ),
{
    let op = Operation::Cursor(CursorOp::SetCharIndex(char_index));
    assert((Action::SetCursor { char_index }).operations_spec() == seq![op]);
    lemma_apply_single_op(s, op);
    lemma_set_cursor_op(s, char_index);
}

} // verus!
