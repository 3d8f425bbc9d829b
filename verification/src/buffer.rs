//! The text storage of the editor: a thin, typed layer over a rope.
//!
//! Positions are *character* indices, not byte offsets as in `String`.
use vstd::prelude::*;
use ropey::Rope;
use crate::domain::{BufInt, BufRange, LineCount, LineIndex};
use crate::lines::{line_count, line_of, line_start};
use crate::decimal::{decimal, push_decimal};

verus! {

/// The rope type of the `ropey` crate, declared so that it can be held in a
/// field and passed to the trusted items below.
#[verifier::external_type_specification]
#[verifier::external_body]
pub struct ExRope(Rope);

/// The characters that a rope holds, in order.
pub uninterp spec fn rope_chars(rope: Rope) -> Seq<char>;

/// `Rope::new` builds an empty rope.
pub assume_specification[ Rope::new ]() -> (rope: Rope)
    ensures
        rope_chars(rope) == Seq::<char>::empty(),
;

/// `Rope::from_str` builds a rope that holds exactly the characters of
/// `text`.
pub assume_specification[ Rope::from_str ](text: &str) -> (rope: Rope)
    ensures
        rope_chars(rope) == text@,
;

/// `Rope::len_chars` returns the number of characters in the rope.
pub assume_specification[ Rope::len_chars ](rope: &Rope) -> (len: usize)
    ensures
        len == rope_chars(*rope).len(),
;

/// `Rope::char` returns the character at `char_idx`; it panics when
/// `char_idx >= len_chars()`, which `requires` leaves out.
pub assume_specification[ Rope::char ](rope: &Rope, char_idx: usize) -> (c: char)
    requires
        char_idx < rope_chars(*rope).len(),
    ensures
        c == rope_chars(*rope)[char_idx as int],
;

/// `Rope::len_lines` returns the number of line breaks plus one; with the
/// crate's default features the breaks are all Unicode mandatory breaks,
/// CRLF counting once (module `lines`).
pub assume_specification[ Rope::len_lines ](rope: &Rope) -> (count: usize)
    ensures
        count == line_count(rope_chars(*rope)),
;

/// `Rope::char_to_line` counts the line breaks before `char_idx`, i.e.
/// returns the line that holds it (the last line for one past the end); it
/// panics when `char_idx > len_chars()`, which `requires` leaves out.
pub assume_specification[ Rope::char_to_line ](rope: &Rope, char_idx: usize) -> (line: usize)
    requires
        char_idx <= rope_chars(*rope).len(),
    ensures
        line == line_of(rope_chars(*rope), char_idx as int),
;

/// `Rope::line_to_char` returns the position just after the `line_idx`-th
/// line break (0 for line 0, one past the end for `len_lines()`); it panics
/// when `line_idx > len_lines()`, which `requires` leaves out.
pub assume_specification[ Rope::line_to_char ](rope: &Rope, line_idx: usize) -> (pos: usize)
    requires
        line_idx <= line_count(rope_chars(*rope)),
    ensures
        pos == line_start(rope_chars(*rope), line_idx as nat),
;

/// `Rope::insert` puts the characters of `text` at `char_idx`; it panics
/// when `char_idx > len_chars()`, which `requires` leaves out.
pub assume_specification[ Rope::insert ](rope: &mut Rope, char_idx: usize, text: &str)
    requires
        char_idx <= rope_chars(*old(rope)).len(),
    ensures
        rope_chars(*final(rope)) == rope_chars(*old(rope)).take(char_idx as int) + text@
            + rope_chars(*old(rope)).skip(char_idx as int),
;

/// `Rope::append` adds the characters of `other` at the end.
pub assume_specification[ Rope::append ](rope: &mut Rope, other: Rope)
    ensures
        rope_chars(*final(rope)) == rope_chars(*old(rope)) + rope_chars(other),
;

/// The derived `Clone` of `Rope` shares the tree of the original: the copy
/// holds the same characters.
pub assume_specification[ <Rope as Clone>::clone ](rope: &Rope) -> (copy: Rope)
    ensures
        rope_chars(copy) == rope_chars(*rope),
;

/// Wraps `Rope::remove` on a half-open range: the characters at positions
/// `range.start .. range.end` leave the rope. The call panics when
/// `start > end` or `end > len_chars()`, which `requires` leaves out.
#[verifier::external_body]
fn rope_remove(rope: &mut Rope, range: std::ops::Range<usize>)
    requires
        range.start <= range.end <= rope_chars(*old(rope)).len(),
    ensures
        rope_chars(*final(rope)) == rope_chars(*old(rope)).take(range.start as int)
            + rope_chars(*old(rope)).skip(range.end as int),
{
    rope.remove(range)
}

/// Wraps the `Display` of `Rope` (through `to_string`), which writes the
/// rope's chunks in order: the string holds exactly the rope's characters.
#[verifier::external_body]
fn rope_to_string(rope: &Rope) -> (s: String)
    ensures
        s@ == rope_chars(*rope),
{
    rope.to_string()
}

/// The text with `t` put at position `i`.
pub open spec fn inserted(s: Seq<char>, i: int, t: Seq<char>) -> Seq<char> {
    s.take(i) + t + s.skip(i)
}

/// The text without the characters at positions `start .. end`.
pub open spec fn deleted(s: Seq<char>, start: int, end: int) -> Seq<char> {
    s.take(start) + s.skip(end)
}

/// Errors that can happen while editing the buffer.
#[derive(Debug, Clone, PartialEq, Eq, Structural)]
pub enum BufferError {
    /// A buffer character index was outside the valid range.
    InvalidBufferIndex { index: BufInt, len: BufInt },
    /// A line index was outside the valid range.
    InvalidLineIndex { index: LineIndex, len: LineCount },
    /// The range itself was malformed, e.g. `start > end` as in `10..3`.
    MalformedCharRange { range: BufRange },
    /// The range was well-formed, but not fully inside the buffer, e.g.
    /// `0..9999` when the buffer is shorter than that.
    OutOfBoundsCharRange { range: BufRange, len: BufInt },
}

impl BufferError {
    /// The human-readable description of the error.
    pub open spec fn message_spec(self) -> Seq<char> {
        match self {
            BufferError::InvalidBufferIndex { index, len } => "invalid buffer index: "@ + decimal(
                index@ as nat,
            ) + " (buffer length: "@ + decimal(len@ as nat) + ")"@,
            BufferError::InvalidLineIndex { index, len } => "invalid line index: "@ + decimal(
                index@ as nat,
            ) + " (line count: "@ + decimal(len@ as nat) + ")"@,
            BufferError::MalformedCharRange { range } => "malformed char range: "@ + decimal(
                range.start@ as nat,
            ) + ".."@ + decimal(range.end@ as nat) + " (start must be <= end)"@,
            BufferError::OutOfBoundsCharRange { range, len } => "out of bounds char range: "@
                + decimal(range.start@ as nat) + ".."@ + decimal(range.end@ as nat)
                + " (buffer length: "@ + decimal(len@ as nat) + ")"@,
        }
    }

    /// Describes the error for a human reader, e.g.
    /// `invalid buffer index: 999 (buffer length: 5)`.
    pub fn message(&self) -> (res: String)
        ensures
            res@ == self.message_spec(),
    {
        let mut out = String::new();
        match self {
            BufferError::InvalidBufferIndex { index, len } => {
                out.append("invalid buffer index: ");
                push_decimal(&mut out, index.raw());
                out.append(" (buffer length: ");
                push_decimal(&mut out, len.raw());
                out.append(")");
            },
            BufferError::InvalidLineIndex { index, len } => {
                out.append("invalid line index: ");
                push_decimal(&mut out, index.raw());
                out.append(" (line count: ");
                push_decimal(&mut out, len.raw());
                out.append(")");
            },
            BufferError::MalformedCharRange { range } => {
                out.append("malformed char range: ");
                push_decimal(&mut out, range.start.raw());
                out.append("..");
                push_decimal(&mut out, range.end.raw());
                out.append(" (start must be <= end)");
            },
            BufferError::OutOfBoundsCharRange { range, len } => {
                out.append("out of bounds char range: ");
                push_decimal(&mut out, range.start.raw());
                out.append("..");
                push_decimal(&mut out, range.end.raw());
                out.append(" (buffer length: ");
                push_decimal(&mut out, len.raw());
                out.append(")");
            },
        }
        out
    }
}

/// A text buffer over a rope.
///
/// It is the low-level text storage type, with typed return values and
/// errors. Its view is the sequence of characters it holds.
#[derive(Debug, Clone, PartialEq, Eq)]
pub struct Buffer {
    rope: Rope,
}

impl View for Buffer {
    type V = Seq<char>;

    closed spec fn view(&self) -> Seq<char> {
        rope_chars(self.rope)
    }
}

impl Buffer {
    /// Creates an empty buffer.
    pub fn new() -> (res: Self)
        ensures
            res@ == Seq::<char>::empty(),
    {
        Self { rope: Rope::new() }
    }

    /// Creates a buffer from an existing string slice.
    pub fn from_str(s: &str) -> (res: Self)
        ensures
            res@ == s@,
    {
        Self { rope: Rope::from_str(s) }
    }

    /// Returns the number of characters in the buffer.
    pub fn len_chars(&self) -> (res: BufInt)
        ensures
            res@ == self@.len(),
    {
        BufInt::new(self.rope.len_chars())
    }

    /// Gets the character at a given character index, or `None` if the index
    /// is out of bounds.
    pub fn char_at(&self, char_index: BufInt) -> (res: Option<char>)
        ensures
            res == (if char_index@ < self@.len() {
                Some(self@[char_index@ as int])
            } else {
                None
            }),
    {
        if char_index.raw() >= self.len_chars().raw() {
            return None;
        }
        Some(self.rope.char(char_index.raw()))
    }

    /// Returns the number of lines in the buffer: one more than the number of
    /// line breaks, so an empty buffer has one line and a trailing break
    /// starts a final empty line.
    pub fn len_lines(&self) -> (res: LineCount)
        ensures
            res@ == line_count(self@),
    {
        LineCount::new(self.rope.len_lines())
    }

    /// Converts a character index to the line containing it. The index may be
    /// one past the end, which gives the last line.
    pub fn char_to_line(&self, char_index: BufInt) -> (res: Result<LineIndex, BufferError>)
        ensures
            match res {
                Ok(line) => char_index@ <= self@.len() && line@ == line_of(
                    self@,
                    char_index@ as int,
                ),
                Err(e) => char_index@ > self@.len() && (e matches BufferError::InvalidBufferIndex {
                    index,
                    len,
                } && index == char_index && len@ == self@.len()),
            },
    {
        let len = self.len_chars();
        if char_index.raw() > len.raw() {
            return Err(BufferError::InvalidBufferIndex { index: char_index, len });
        }
        Ok(LineIndex::new(self.rope.char_to_line(char_index.raw())))
    }

    /// Converts a line index to the character index at the start of that
    /// line. The index may be the line count, which gives one past the end.
    pub fn line_to_char(&self, line_index: LineIndex) -> (res: Result<BufInt, BufferError>)
        ensures
            match res {
                Ok(pos) => line_index@ <= line_count(self@) && pos@ == line_start(
                    self@,
                    line_index@ as nat,
                ),
                Err(e) => line_index@ > line_count(self@) && (e matches BufferError::InvalidLineIndex {
                    index,
                    len,
                } && index == line_index && len@ == line_count(self@)),
            },
    {
        let len = self.len_lines();
        if line_index.raw() > len.raw() {
            return Err(BufferError::InvalidLineIndex { index: line_index, len });
        }
        Ok(BufInt::new(self.rope.line_to_char(line_index.raw())))
    }

    /// Inserts text at a character index; the index may be one past the end.
    pub fn insert_str(&mut self, char_index: BufInt, text: &str) -> (res: Result<(), BufferError>)
        ensures
            match res {
                Ok(()) => char_index@ <= old(self)@.len() && final(self)@ == inserted(
                    old(self)@,
                    char_index@ as int,
                    text@,
                ),
                Err(e) => char_index@ > old(self)@.len() && final(self)@ == old(self)@ && (
                e matches BufferError::InvalidBufferIndex { index, len } && index == char_index
                    && len@ == old(self)@.len()),
            },
    {
        let len = self.len_chars();
        if char_index.raw() > len.raw() {
            return Err(BufferError::InvalidBufferIndex { index: char_index, len });
        }
        self.rope.insert(char_index.raw(), text);
        Ok(())
    }

    /// Appends text to the end of the buffer.
    pub fn append_str(&mut self, text: &str)
        ensures
            final(self)@ == old(self)@ + text@,
    {
        self.rope.append(Rope::from_str(text));
    }

    /// Removes a half-open range of characters: `start` is included, `end`
    /// excluded. A range with `start > end` is malformed; one whose end lies
    /// past the buffer is out of bounds; either leaves the buffer unchanged.
    pub fn delete_chars(&mut self, range: BufRange) -> (res: Result<(), BufferError>)
        ensures
            match res {
                Ok(()) => range.start@ <= range.end@ <= old(self)@.len() && final(self)@
                    == deleted(old(self)@, range.start@ as int, range.end@ as int),
                Err(e) => final(self)@ == old(self)@ && if range.start@ > range.end@ {
                    e == BufferError::MalformedCharRange { range }
                } else {
                    range.end@ > old(self)@.len() && (e matches BufferError::OutOfBoundsCharRange {
                        range: r,
                        len,
                    } && r == range && len@ == old(self)@.len())
                },
            },
    {
        let length = self.len_chars();
        if range.start.raw() > range.end.raw() {
            return Err(BufferError::MalformedCharRange { range });
        }
        if range.end.raw() > length.raw() {
            return Err(BufferError::OutOfBoundsCharRange { range, len: length });
        }
        rope_remove(&mut self.rope, range.into_std());
        Ok(())
    }

    /// Converts the whole buffer into a `String`.
    pub fn as_string(&self) -> (res: String)
        ensures
            res@ == self@,
    {
        rope_to_string(&self.rope)
    }
}

impl Default for Buffer {
    fn default() -> (res: Self)
        ensures
            res@ == Seq::<char>::empty(),
    {
        Self::new()
    }
}

/// Deleting exactly the characters that an insertion put in gives the text
/// back as it was: the delete undoes the insert.
pub proof fn lemma_delete_undoes_insert(s: Seq<char>, i: int, t: Seq<char>)
    requires
        0 <= i <= s.len(),
    ensures
        deleted(inserted(s, i, t), i, i + t.len()) == s,
{
    assert(deleted(inserted(s, i, t), i, i + t.len()) =~= s);
}

/// Appending text is inserting it one past the end.
pub proof fn lemma_append_is_insert_at_end(s: Seq<char>, t: Seq<char>)
    ensures
        s + t == inserted(s, s.len() as int, t),
{
    assert(s + t =~= inserted(s, s.len() as int, t));
}

} // verus!
