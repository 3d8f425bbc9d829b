//! The editor core: a buffer and a cursor, driven by primitive operations.
use vstd::prelude::*;
use crate::actions::Action;
use crate::buffer::{deleted, inserted, Buffer, BufferError};
use crate::cursor::{clamped_index, offset_index, Cursor};
use crate::domain::{BufInt, BufRange};

verus! {

broadcast use {BufInt::lemma_from_raw_view, BufInt::lemma_from_raw_of_view};

/// A primitive operation that the editor can apply: the domain language of
/// the editor core.
#[derive(Debug, Clone, PartialEq, Eq)]
pub enum Operation {
    Buffer(BufferOp),
    Cursor(CursorOp),
}

/// Primitive operations that mutate the buffer; each maps directly to a
/// method of `Buffer`.
#[derive(Debug, Clone, PartialEq, Eq)]
pub enum BufferOp {
    /// Insert text at a specific character index.
    InsertStr { char_index: BufInt, text: String },
    /// Append text to the end of the buffer.
    AppendStr { text: String },
    /// Delete a half-open character range from the buffer.
    DeleteChars { range: BufRange },
}

/// Primitive operations that mutate the cursor; each maps directly to a
/// method of `Cursor`.
#[derive(Debug, Clone, Copy, PartialEq, Eq, Structural)]
pub enum CursorOp {
    /// Set the cursor to an exact character index; this does not clamp.
    SetCharIndex(BufInt),
    /// Offset the cursor: to the right if `positive`, to the left otherwise.
    /// This does not clamp either.
    OffsetCharIndex { offset: usize, positive: bool },
    /// Clamp the cursor to the current buffer bounds: the explicit "make the
    /// cursor valid again" operation.
    ClampToBuffer,
}

/// The abstract state of an editor: the text of its buffer and the
/// character index of its cursor.
pub struct EditorState {
    pub text: Seq<char>,
    pub cursor: usize,
}

/// What a buffer operation makes of `text`: the new text, or the error that
/// refuses it.
pub open spec fn buffer_op_result(text: Seq<char>, op: BufferOp) -> Result<Seq<char>, BufferError> {
    match op {
        BufferOp::InsertStr { char_index, text: t } => if char_index@ <= text.len() {
            Ok(inserted(text, char_index@ as int, t@))
        } else {
            Err(
                BufferError::InvalidBufferIndex {
                    index: char_index,
                    len: BufInt::from_raw(text.len() as usize),
                },
            )
        },
        BufferOp::AppendStr { text: t } => Ok(text + t@),
        BufferOp::DeleteChars { range } => if range.start@ > range.end@ {
            Err(BufferError::MalformedCharRange { range })
        } else if range.end@ > text.len() {
            Err(
                BufferError::OutOfBoundsCharRange {
                    range,
                    len: BufInt::from_raw(text.len() as usize),
                },
            )
        } else {
            Ok(deleted(text, range.start@ as int, range.end@ as int))
        },
    }
}

/// Where a cursor operation moves a cursor at `cursor` in a text of length
/// `len`.
pub open spec fn cursor_op_result(cursor: usize, len: nat, op: CursorOp) -> usize {
    match op {
        CursorOp::SetCharIndex(char_index) => char_index@,
        CursorOp::OffsetCharIndex { offset, positive } => offset_index(
            cursor as int,
            offset as int,
            positive,
        ) as usize,
        CursorOp::ClampToBuffer => clamped_index(cursor as int, len as int) as usize,
    }
}

/// What an operation makes of an editor state: buffer operations change
/// only the text, cursor operations only the cursor.
pub open spec fn step(s: EditorState, op: Operation) -> Result<EditorState, BufferError> {
    match op {
        Operation::Buffer(bop) => match buffer_op_result(s.text, bop) {
            Ok(text) => Ok(EditorState { text, cursor: s.cursor }),
            Err(e) => Err(e),
        },
        Operation::Cursor(cop) => Ok(
            EditorState { text: s.text, cursor: cursor_op_result(s.cursor, s.text.len(), cop) },
        ),
    }
}

/// Whether the operation can be applied without overflow: moving the
/// cursor right must not pass `usize::MAX`.
pub open spec fn op_allowed(s: EditorState, op: Operation) -> bool {
    op matches Operation::Cursor(CursorOp::OffsetCharIndex { offset, positive }) ==> (positive
        ==> s.cursor + offset <= usize::MAX)
}

/// Applying `ops` in order, stopping at the first one that fails: the final
/// state and whether every operation succeeded (or the first error).
pub open spec fn apply_ops(s: EditorState, ops: Seq<Operation>) -> (EditorState, Result<
    (),
    BufferError,
>)
    decreases ops.len(),
{
    if ops.len() == 0 {
        (s, Ok(()))
    } else {
        match step(s, ops[0]) {
            Ok(next) => apply_ops(next, ops.drop_first()),
            Err(e) => (s, Err(e)),
        }
    }
}

/// Whether the action can be applied without overflow: moving the cursor
/// right must not pass `usize::MAX`.
pub open spec fn action_allowed(s: EditorState, action: Action) -> bool {
    action is MoveCursorRight ==> s.cursor < usize::MAX
}

/// The state and result after one operation whose outcome is `r`: the new
/// state on success, the unchanged state `s` with the error otherwise.
pub open spec fn outcome(s: EditorState, r: Result<EditorState, BufferError>) -> (EditorState, Result<
    (),
    BufferError,
>) {
    match r {
        Ok(next) => (next, Ok(())),
        Err(e) => (s, Err(e)),
    }
}

/// Applying a single operation as a sequence is applying the operation.
pub proof fn lemma_apply_single_op(s: EditorState, op: Operation)
    ensures
        apply_ops(s, seq![op]) == outcome(s, step(s, op)),
{
    let ops = seq![op];
    assert(ops[0] == op);
    if step(s, op) is Ok {
        let next = step(s, op)->Ok_0;
        assert(ops.drop_first().len() == 0);
        assert(apply_ops(next, ops.drop_first()) == (next, Ok::<(), BufferError>(())));
    }
}

/// Whether every operation of `ops` that gets applied can be applied
/// without overflow.
pub open spec fn ops_allowed(s: EditorState, ops: Seq<Operation>) -> bool
    decreases ops.len(),
{
    ops.len() == 0 || (op_allowed(s, ops[0]) && match step(s, ops[0]) {
        Ok(next) => ops_allowed(next, ops.drop_first()),
        Err(_) => true,
    })
}

/// The main editor core: a buffer and a cursor.
pub struct Editor {
    buffer: Buffer,
    cursor: Cursor,
}

impl View for Editor {
    type V = EditorState;

    closed spec fn view(&self) -> EditorState {
        EditorState { text: self.buffer@, cursor: self.cursor.char_index@ }
    }
}

impl Editor {
    /// Create a new editor from an existing buffer; the cursor starts at
    /// index 0.
    pub fn new(buffer: Buffer) -> (res: Self)
        ensures
            res@ == (EditorState { text: buffer@, cursor: 0 }),
    {
        Self { buffer, cursor: Cursor::default() }
    }

    /// Create a new editor from an existing buffer and cursor.
    pub fn with_cursor(buffer: Buffer, cursor: Cursor) -> (res: Self)
        ensures
            res@ == (EditorState { text: buffer@, cursor: cursor.char_index@ }),
    {
        Self { buffer, cursor }
    }

    /// Get an immutable reference to the buffer.
    pub fn buffer(&self) -> (res: &Buffer)
        ensures
            res@ == self@.text,
    {
        &self.buffer
    }

    /// Get an immutable reference to the cursor.
    pub fn cursor(&self) -> (res: &Cursor)
        ensures
            res.char_index@ == self@.cursor,
    {
        &self.cursor
    }

    /// Apply a high-level action: convert it into its operations and apply
    /// them in order, stopping at the first one that fails.
    pub fn apply_action(&mut self, action: Action) -> (res: Result<(), BufferError>)
        requires
            action_allowed(old(self)@, action),
        ensures
            (final(self)@, res) == apply_ops(old(self)@, action.operations_spec()),
    {
        let ghost all = action.operations_spec();
        proof {
            lemma_allowed_action_ops(old(self)@, action);
        }
        let mut operations = action.into_operations();
        let mut result: Result<(), BufferError> = Ok(());
        while operations.len() > 0
            invariant_except_break
                result == Ok::<(), BufferError>(()),
                apply_ops(old(self)@, all) == apply_ops(self@, operations@),
                ops_allowed(self@, operations@),
            ensures
                apply_ops(old(self)@, all) == (self@, result),
            decreases operations.len(),
        {
            let ghost before = operations@;
            let operation = operations.remove(0);
            assert(operations@ =~= before.drop_first());
            if let Err(e) = self.apply_operation(operation) {
                result = Err(e);
                break;
            }
        }
        result
    }

    /// Apply a primitive editor operation. Buffer operations may fail;
    /// cursor operations cannot.
    pub fn apply_operation(&mut self, operation: Operation) -> (res: Result<(), BufferError>)
        requires
            op_allowed(old(self)@, operation),
        ensures
            match step(old(self)@, operation) {
                Ok(next) => res is Ok && final(self)@ == next,
                Err(e) => res == Err::<(), BufferError>(e) && final(self)@ == old(self)@,
            },
    {
        match operation {
            Operation::Buffer(buffer_op) => self.apply_buffer_op(buffer_op),
            Operation::Cursor(cursor_op) => {
                self.apply_cursor_op(cursor_op);
                Ok(())
            },
        }
    }

    /// Apply a primitive buffer operation. It only changes the buffer: the
    /// cursor is neither clamped nor adjusted.
    fn apply_buffer_op(&mut self, op: BufferOp) -> (res: Result<(), BufferError>)
        ensures
            final(self).cursor == old(self).cursor,
            match buffer_op_result(old(self)@.text, op) {
                Ok(text) => res is Ok && final(self)@.text == text,
                Err(e) => res == Err::<(), BufferError>(e) && final(self)@.text == old(self)@.text,
            },
    {
        match op {
            BufferOp::InsertStr { char_index, text } => {
                self.buffer.insert_str(char_index, text.as_str())?;
                Ok(())
            },
            BufferOp::AppendStr { text } => {
                self.buffer.append_str(text.as_str());
                Ok(())
            },
            BufferOp::DeleteChars { range } => {
                self.buffer.delete_chars(range)?;
                Ok(())
            },
        }
    }

    /// Apply a primitive cursor operation; the buffer is left unchanged.
    fn apply_cursor_op(&mut self, op: CursorOp)
        requires
            op matches CursorOp::OffsetCharIndex { offset, positive } ==> (positive
                ==> old(self).cursor.char_index@ + offset <= usize::MAX),
        ensures
            final(self).buffer == old(self).buffer,
            final(self)@.cursor == cursor_op_result(
                old(self)@.cursor,
                old(self)@.text.len(),
                op,
            ),
    {
        match op {
            CursorOp::SetCharIndex(char_index) => {
                self.cursor.set_char_index(char_index);
            },
            CursorOp::OffsetCharIndex { offset, positive } => {
                self.cursor.offset_char_index(offset, positive);
            },
            CursorOp::ClampToBuffer => {
                self.cursor.clamp_to_buffer(&self.buffer);
            },
        }
    }
}

proof fn lemma_allowed_action_ops(s: EditorState, action: Action)
    requires
        action_allowed(s, action),
    ensures
        ops_allowed(s, action.operations_spec()),
{
    let ops = action.operations_spec();
    assert(op_allowed(s, ops[0]));
    let rest = ops.drop_first();
    if ops.len() == 1 {
        assert(rest.len() == 0);
        if step(s, ops[0]) is Ok {
            assert(ops_allowed(step(s, ops[0])->Ok_0, rest));
        }
    } else {
        assert(rest[0] == ops[1]);
        assert(rest.drop_first().len() == 0);
        if step(s, ops[0]) is Ok {
            let mid = step(s, ops[0])->Ok_0;
            assert(op_allowed(mid, rest[0]));
            if step(mid, rest[0]) is Ok {
                assert(ops_allowed(step(mid, rest[0])->Ok_0, rest.drop_first()));
            }
            assert(ops_allowed(mid, rest));
        }
    }
}

/// Buffer operations never move the cursor, and cursor operations never
/// change the text.
pub proof fn lemma_operations_touch_their_own_part(s: EditorState, op: Operation)
    ensures
        op is Buffer && step(s, op) is Ok ==> step(s, op)->Ok_0.cursor == s.cursor,
        op is Cursor ==> step(s, op) is Ok && step(s, op)->Ok_0.text == s.text,
{
}

/// Replacing a range succeeds exactly when the range is well formed and lies
/// within the text; the text then reads: what came before the range, the new
/// text, what came after the range, and the cursor stays where it was. A
/// refused replacement leaves the editor as it was.
pub proof fn lemma_replace_range(s: EditorState, range: BufRange, text: String)
    ensures
        ({
            let (after, res) = apply_ops(
                s,
                (Action::ReplaceRange { range, text }).operations_spec(),
            );
            &&& res is Ok <==> range.start@ <= range.end@ <= s.text.len()
            &&& res is Ok ==> after == EditorState {
                text: s.text.take(range.start@ as int) + text@ + s.text.skip(range.end@ as int),
                cursor: s.cursor,
            }
            &&& res is Err ==> after == s
        }),
{
    let ops = (Action::ReplaceRange { range, text }).operations_spec();
    let start = range.start@ as int;
    let end = range.end@ as int;
    let expected = s.text.take(start) + text@ + s.text.skip(end);
    let first = step(s, ops[0]);
    if text@.len() == 0 {
        if first is Ok {
            assert(first->Ok_0.text =~= expected);
            assert(apply_ops(first->Ok_0, ops.drop_first()) == (first->Ok_0, Ok::<(), BufferError>(())));
        }
    } else if range.start == range.end {
        if first is Ok {
            assert(first->Ok_0.text =~= expected);
            assert(apply_ops(first->Ok_0, ops.drop_first()) == (first->Ok_0, Ok::<(), BufferError>(())));
        }
    } else if start <= end <= s.text.len() {
        let mid = first->Ok_0;
        let rest = ops.drop_first();
        assert(mid.text =~= deleted(s.text, start, end));
        assert(rest[0] == ops[1]);
        let second = step(mid, rest[0]);
        assert(second is Ok);
        assert(second->Ok_0.text =~= expected);
        assert(apply_ops(second->Ok_0, rest.drop_first()) == (second->Ok_0, Ok::<(), BufferError>(())));
        assert(apply_ops(mid, rest) == (second->Ok_0, Ok::<(), BufferError>(())));
    }
}

/// An action that is refused leaves the editor exactly as it was: no action
/// applies part of its operations.
pub proof fn lemma_refused_action_changes_nothing(s: EditorState, action: Action)
    ensures
        apply_ops(s, action.operations_spec()).1 is Err ==> apply_ops(
            s,
            action.operations_spec(),
        ).0 == s,
{
    let ops = action.operations_spec();
    if let Action::ReplaceRange { range, text } = action {
        lemma_replace_range(s, range, text);
    } else {
        assert(ops.len() == 1);
        let first = step(s, ops[0]);
        if first is Ok {
            assert(ops.drop_first().len() == 0);
            assert(apply_ops(first->Ok_0, ops.drop_first()).1 is Ok);
        }
    }
}

/// Inserting `t` at `index` succeeds exactly when `index` is at most the
/// text length. The new text is then the old text with `t` spliced in at
/// `index`: the characters before `index` stay, `t` follows, then the rest
/// of the old text; the cursor does not move. Past the end, the insertion is
/// refused with `InvalidBufferIndex` naming the index and the text length.
pub proof fn lemma_insert_op(s: EditorState, index: BufInt, t: String)
    requires
        s.text.len() <= usize::MAX,
    ensures
        ({
            let r = step(s, Operation::Buffer(BufferOp::InsertStr { char_index: index, text: t }));
            &&& index@ <= s.text.len() ==> {
                &&& r is Ok
                &&& r->Ok_0.cursor == s.cursor
                &&& r->Ok_0.text.len() == s.text.len() + t@.len()
                &&& forall|k: int| 0 <= k < index@ ==> #[trigger] r->Ok_0.text[k] == s.text[k]
                &&& forall|k: int|
                    0 <= k < t@.len() ==> #[trigger] r->Ok_0.text[index@ + k] == t@[k]
                &&& forall|k: int|
                    index@ <= k < s.text.len() ==> #[trigger] r->Ok_0.text[k + t@.len()]
                        == s.text[k]
            }
            &&& index@ > s.text.len() ==> {
                &&& r is Err
                &&& r->Err_0 matches BufferError::InvalidBufferIndex { index: i, len }
                &&& i == index
                &&& len@ == s.text.len()
            }
        }),
{
    let r = step(s, Operation::Buffer(BufferOp::InsertStr { char_index: index, text: t }));
    if index@ <= s.text.len() {
        let n = r->Ok_0.text;
        let i = index@ as int;
        assert(n =~= s.text.take(i) + t@ + s.text.skip(i));
        assert forall|k: int| i <= k < s.text.len() implies #[trigger] n[k + t@.len()] == s.text[k] by {
            assert(n[k + t@.len()] == s.text.skip(i)[k - i]);
        }
    }
}

/// Appending `t` always succeeds: the old text is kept unchanged as a
/// prefix, `t` follows it at the very end, whatever the old text ends with,
/// and the cursor does not move.
pub proof fn lemma_append_op(s: EditorState, t: String)
    ensures
        ({
            let r = step(s, Operation::Buffer(BufferOp::AppendStr { text: t }));
            &&& r is Ok
            &&& r->Ok_0.cursor == s.cursor
            &&& r->Ok_0.text.len() == s.text.len() + t@.len()
            &&& forall|k: int| 0 <= k < s.text.len() ==> #[trigger] r->Ok_0.text[k] == s.text[k]
            &&& forall|k: int|
                0 <= k < t@.len() ==> #[trigger] r->Ok_0.text[s.text.len() + k] == t@[k]
        }),
{
}

/// Deleting the half-open range `start .. end`: a range with `start > end`
/// is refused as malformed, one with `end` past the text as out of bounds
/// (naming the text length); otherwise exactly the `end - start` characters
/// at positions `start .. end` leave the text: those before `start` stay,
/// and those from `end` on move down to `start`. An empty range deletes
/// nothing. The cursor does not move.
pub proof fn lemma_delete_op(s: EditorState, range: BufRange)
    requires
        s.text.len() <= usize::MAX,
    ensures
        ({
            let r = step(s, Operation::Buffer(BufferOp::DeleteChars { range }));
            let a = range.start@ as int;
            let b = range.end@ as int;
            &&& a > b ==> r == Err::<EditorState, BufferError>(
                BufferError::MalformedCharRange { range },
            )
            &&& a <= b && b > s.text.len() ==> {
                &&& r is Err
                &&& r->Err_0 matches BufferError::OutOfBoundsCharRange { range: rg, len }
                &&& rg == range
                &&& len@ == s.text.len()
            }
            &&& a <= b <= s.text.len() ==> {
                &&& r is Ok
                &&& r->Ok_0.cursor == s.cursor
                &&& r->Ok_0.text.len() == s.text.len() - (b - a)
                &&& forall|k: int| 0 <= k < a ==> #[trigger] r->Ok_0.text[k] == s.text[k]
                &&& forall|k: int|
                    a <= k < s.text.len() - (b - a) ==> #[trigger] r->Ok_0.text[k] == s.text[k + (
                    b - a)]
                &&& a == b ==> r->Ok_0.text == s.text
            }
        }),
{
    let r = step(s, Operation::Buffer(BufferOp::DeleteChars { range }));
    let a = range.start@ as int;
    let b = range.end@ as int;
    if a <= b <= s.text.len() {
        let n = r->Ok_0.text;
        assert forall|k: int| a <= k < s.text.len() - (b - a) implies #[trigger] n[k] == s.text[k
            + (b - a)] by {
            assert(n[k] == s.text.skip(b)[k - a]);
        }
        if a == b {
            assert(n =~= s.text);
        }
    }
}

/// Setting the cursor puts it at exactly the given index, without clamping,
/// and leaves the text as it was.
pub proof fn lemma_set_cursor_op(s: EditorState, index: BufInt)
    ensures
        step(s, Operation::Cursor(CursorOp::SetCharIndex(index))) == Ok::<
            EditorState,
            BufferError,
        >(EditorState { text: s.text, cursor: index@ }),
{
}

/// Offsetting the cursor by `offset` moves it by exactly `offset`
/// positions: to the right when `positive`, to the left otherwise, where a
/// move left stops at 0. The text is left as it was.
pub proof fn lemma_offset_op(s: EditorState, offset: usize, positive: bool)
    requires
        positive ==> s.cursor + offset <= usize::MAX,
    ensures
        ({
            let r = step(s, Operation::Cursor(CursorOp::OffsetCharIndex { offset, positive }));
            &&& r is Ok
            &&& r->Ok_0.text == s.text
            &&& positive ==> r->Ok_0.cursor == s.cursor + offset
            &&& !positive && offset <= s.cursor ==> r->Ok_0.cursor == s.cursor - offset
            &&& !positive && offset > s.cursor ==> r->Ok_0.cursor == 0
        }),
{
}

/// Clamping the cursor leaves a cursor within the text (one past the end
/// included) where it is and moves a cursor past the end to the end: the new
/// cursor is the smaller of the old cursor and the text length. The text is
/// left as it was.
pub proof fn lemma_clamp_op(s: EditorState)
    requires
        s.text.len() <= usize::MAX,
    ensures
        ({
            let r = step(s, Operation::Cursor(CursorOp::ClampToBuffer));
            &&& r is Ok
            &&& r->Ok_0.text == s.text
            &&& s.cursor <= s.text.len() ==> r->Ok_0.cursor == s.cursor
            &&& s.cursor > s.text.len() ==> r->Ok_0.cursor == s.text.len()
        }),
{
}

} // verus!
