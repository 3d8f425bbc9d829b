use vstd::prelude::*;

verus! {

/// A typed integer for characters in the buffer.
///
/// This is **not** a byte index: when used as an index it is a position in
/// character space. It is not a displayed terminal column and not a grapheme
/// cluster index either.
#[derive(Debug, Copy, Clone, PartialEq, Eq, Structural, PartialOrd, Ord, Hash)]
pub struct BufInt(usize);

impl View for BufInt {
    type V = usize;

    closed spec fn view(&self) -> usize {
        self.0
    }
}

impl BufInt {
    /// The character index whose raw value is `value`.
    pub closed spec fn from_raw(value: usize) -> Self {
        BufInt(value)
    }

    /// Create a new character index.
    pub fn new(value: usize) -> (res: Self)
        ensures
            res == Self::from_raw(value),
            res@ == value,
    {
        Self(value)
    }

    /// Get the raw `usize` value.
    pub fn raw(self) -> (res: usize)
        ensures
            res == self@,
    {
        self.0
    }

    /// `from_raw` gives an index of the given raw value.
    pub broadcast proof fn lemma_from_raw_view(value: usize)
        ensures
            #[trigger] Self::from_raw(value)@ == value,
    {
    }

    /// An index is determined by its raw value.
    pub broadcast proof fn lemma_from_raw_of_view(index: Self)
        ensures
            #[trigger] Self::from_raw(index@) == index,
    {
    }
}

/// A half-open range of character positions.
///
/// Half-open means that `start` is included and `end` is excluded, so
/// `5..8` means 5, 6 and 7.
#[derive(Debug, Copy, Clone, PartialEq, Eq, Structural, Hash)]
pub struct BufRange {
    pub start: BufInt,
    pub end: BufInt,
}

impl BufRange {
    /// Create a new typed character range.
    pub fn new(start: BufInt, end: BufInt) -> (res: Self)
        ensures
            res.start == start,
            res.end == end,
    {
        Self { start, end }
    }

    /// Convert into a normal Rust range of `usize` values.
    pub fn into_std(self) -> (res: std::ops::Range<usize>)
        ensures
            res.start == self.start@,
            res.end == self.end@,
    {
        self.start.raw()..self.end.raw()
    }
}

/// A typed, zero-based line index: the first line is 0, the second 1, and
/// so on.
#[derive(Debug, Copy, Clone, PartialEq, Eq, Structural, PartialOrd, Ord, Hash)]
pub struct LineIndex(usize);

impl View for LineIndex {
    type V = usize;

    closed spec fn view(&self) -> usize {
        self.0
    }
}

impl LineIndex {
    /// Create a new line index.
    pub fn new(value: usize) -> (res: Self)
        ensures
            res@ == value,
    {
        Self(value)
    }

    /// Get the raw `usize` value back out.
    pub fn raw(self) -> (res: usize)
        ensures
            res == self@,
    {
        self.0
    }

}

/// A typed line count.
#[derive(Debug, Copy, Clone, PartialEq, Eq, Structural, PartialOrd, Ord, Hash)]
pub struct LineCount(usize);

impl View for LineCount {
    type V = usize;

    closed spec fn view(&self) -> usize {
        self.0
    }
}

impl LineCount {
    /// Create a new line count.
    pub fn new(value: usize) -> (res: Self)
        ensures
            res@ == value,
    {
        Self(value)
    }

    /// Get the raw `usize` value back out.
    pub fn raw(self) -> (res: usize)
        ensures
            res == self@,
    {
        self.0
    }

}

} // verus!
