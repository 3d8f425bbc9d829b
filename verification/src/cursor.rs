//! A persistent cursor, stored as an absolute character index.
use vstd::prelude::*;
use crate::buffer::Buffer;
use crate::domain::{BufInt, LineIndex};
use crate::lines::{lemma_line_start_of_line_of, line_count, line_of, line_start};

verus! {

/// Where a cursor lands when it moves by `offset` characters from `index`:
/// to the right when `positive`, to the left otherwise, where moving left
/// stops at 0.
pub open spec fn offset_index(index: int, offset: int, positive: bool) -> int {
    if positive {
        index + offset
    } else if index >= offset {
        index - offset
    } else {
        0
    }
}

/// Where a cursor at `index` lands when it is clamped to a text of length
/// `len`.
pub open spec fn clamped_index(index: int, len: int) -> int {
    if index > len {
        len
    } else {
        index
    }
}

/// A cursor position inside the buffer.
///
/// The cursor stores a character index, not a visual screen position: the
/// rope works in character offsets, and line numbers and in-line positions
/// are logarithmic to compute anyway.
///
/// The cursor may temporarily be out of bounds after relative movement; in
/// that case `clamp_to_buffer()` brings it back into range.
#[derive(Debug, Clone, Copy, PartialEq, Eq, Structural)]
pub struct Cursor {
    /// Absolute character index in the buffer.
    pub char_index: BufInt,
}

impl Cursor {
    /// Create a cursor at a specific position.
    pub fn new(char_index: BufInt) -> (res: Self)
        ensures
            res.char_index == char_index,
    {
        Self { char_index }
    }

    /// Return the current absolute character index.
    pub fn char_index(&self) -> (res: BufInt)
        ensures
            res == self.char_index,
    {
        self.char_index
    }

    /// Get the line containing the cursor; the cursor must lie within the
    /// buffer (one past the end included).
    pub fn line_index(&self, buffer: &Buffer) -> (res: LineIndex)
        requires
            self.char_index@ <= buffer@.len(),
        ensures
            res@ == line_of(buffer@, self.char_index@ as int),
            res@ < line_count(buffer@),
    {
        proof {
            lemma_line_start_of_line_of(buffer@, self.char_index@ as int);
        }
        buffer.char_to_line(self.char_index).expect(
            "cursor should be within buffer when asking for line index",
        )
    }

    /// Get the character offset at the start of the cursor's line; the
    /// cursor must lie within the buffer (one past the end included). That
    /// start lies at or before the cursor, on the same line.
    pub fn line_start(&self, buffer: &Buffer) -> (res: BufInt)
        requires
            self.char_index@ <= buffer@.len(),
        ensures
            res@ == line_start(buffer@, line_of(buffer@, self.char_index@ as int)),
            res@ <= self.char_index@,
            line_of(buffer@, res@ as int) == line_of(buffer@, self.char_index@ as int),
    {
        let line = self.line_index(buffer);
        proof {
            lemma_line_start_of_line_of(buffer@, self.char_index@ as int);
        }
        buffer.line_to_char(line).expect("line index should be valid when asking for line start")
    }

    /// Set the cursor to a specific character index. This does not clamp.
    pub fn set_char_index(&mut self, char_index: BufInt)
        ensures
            final(self).char_index == char_index,
    {
        self.char_index = char_index;
    }

    /// Offset the cursor by a number of character positions: to the right if
    /// `positive`, to the left otherwise, where moving left stops at 0.
    /// This does not clamp to the buffer length. Moving right past
    /// `usize::MAX` overflows, which `requires` leaves out.
    pub fn offset_char_index(&mut self, offset: usize, positive: bool)
        requires
            positive ==> old(self).char_index@ + offset <= usize::MAX,
        ensures
            final(self).char_index@ == offset_index(
                old(self).char_index@ as int,
                offset as int,
                positive,
            ),
    {
        if positive {
            self.char_index = BufInt::new(self.char_index.raw() + offset);
        } else {
            self.char_index = BufInt::new(self.char_index.raw().saturating_sub(offset));
        }
    }

    /// Clamp the cursor so it stays inside the valid buffer range (one past
    /// the end included).
    pub fn clamp_to_buffer(&mut self, buffer: &Buffer)
        ensures
            final(self).char_index@ == clamped_index(
                old(self).char_index@ as int,
                buffer@.len() as int,
            ),
    {
        let len = buffer.len_chars();
        if self.char_index.raw() > len.raw() {
            self.char_index = len;
        }
    }
}

impl Default for Cursor {
    fn default() -> (res: Self)
        ensures
            res.char_index@ == 0,
    {
        Self::new(BufInt::new(0))
    }
}

/// Moving right by `n` and then left by `n` brings the cursor back.
pub proof fn lemma_offset_right_then_left(index: int, n: int)
    requires
        0 <= index,
        0 <= n,
    ensures
        offset_index(offset_index(index, n, true), n, false) == index,
{
}

/// A clamped cursor lies within the text, and clamping it again changes
/// nothing.
pub proof fn lemma_clamp_in_range(index: int, len: int)
    requires
        0 <= index,
        0 <= len,
    ensures
        0 <= clamped_index(index, len) <= len,
        clamped_index(clamped_index(index, len), len) == clamped_index(index, len),
{
}

/// A cursor moves by exactly the offset: right by `n` gives `index + n`,
/// left by `n` gives `index - n`, or 0 when `n` exceeds `index`.
pub proof fn lemma_offset_moves_by_offset(index: int, n: int)
    requires
        0 <= index,
        0 <= n,
    ensures
        offset_index(index, n, true) == index + n,
        n <= index ==> offset_index(index, n, false) == index - n,
        n > index ==> offset_index(index, n, false) == 0,
{
}

/// Clamping leaves an index within the text (one past the end included)
/// where it is and moves an index past the end to the end.
pub proof fn lemma_clamp_is_min(index: int, len: int)
    ensures
        index <= len ==> clamped_index(index, len) == index,
        index > len ==> clamped_index(index, len) == len,
{
}

} // verus!
