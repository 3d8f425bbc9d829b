//! The line structure of a text, as a mathematical model over `Seq<char>`.
//!
//! A text is split into lines by line breaks. The recognised breaks are the
//! Unicode mandatory breaks: LF, VT, FF, CR, NEL, LINE SEPARATOR and
//! PARAGRAPH SEPARATOR, where a CR immediately followed by an LF forms one
//! single break (CRLF). A break belongs to the line it ends, and a text that
//! ends with a break has a final empty line, so a text always has one line
//! more than it has breaks.
use vstd::prelude::*;

verus! {

/// Whether `c` is one of the characters that can end a line.
pub open spec fn is_line_break_char(c: char) -> bool {
    ||| c == '\u{000A}'
    ||| c == '\u{000B}'
    ||| c == '\u{000C}'
    ||| c == '\u{000D}'
    ||| c == '\u{0085}'
    ||| c == '\u{2028}'
    ||| c == '\u{2029}'
}

/// Whether a line break ends right before position `j` of `s`, so that a new
/// line starts at `j`. The CR of a CRLF pair ends no line: the pair ends
/// after its LF.
pub open spec fn break_ends_at(s: Seq<char>, j: int) -> bool {
    &&& 1 <= j <= s.len()
    &&& is_line_break_char(s[j - 1])
    &&& !(s[j - 1] == '\u{000D}' && j < s.len() && s[j] == '\u{000A}')
}

/// The number of line breaks that end at or before position `i`.
pub open spec fn breaks_upto(s: Seq<char>, i: int) -> nat
    decreases i,
{
    if i <= 0 {
        0
    } else {
        breaks_upto(s, i - 1) + if break_ends_at(s, i) {
            1nat
        } else {
            0nat
        }
    }
}

/// The number of lines of `s`: one more than its number of line breaks.
pub open spec fn line_count(s: Seq<char>) -> nat {
    breaks_upto(s, s.len() as int) + 1
}

/// The zero-based index of the line that holds position `i` of `s` (for
/// `0 <= i <= s.len()`): the number of breaks that end at or before `i`.
pub open spec fn line_of(s: Seq<char>, i: int) -> nat {
    breaks_upto(s, i)
}

/// The first position `p >= j` at which `k` line breaks have ended, or the
/// length of `s` if there is none.
pub open spec fn line_start_from(s: Seq<char>, k: nat, j: int) -> int
    decreases s.len() - j,
{
    if j >= s.len() {
        s.len() as int
    } else if breaks_upto(s, j) >= k {
        j
    } else {
        line_start_from(s, k, j + 1)
    }
}

/// The position at which line `k` of `s` starts; one past the end of `s`
/// when `k` is the line count.
pub open spec fn line_start(s: Seq<char>, k: nat) -> int {
    line_start_from(s, k, 0)
}

/// More characters never end fewer lines.
pub proof fn lemma_breaks_upto_monotone(s: Seq<char>, i: int, j: int)
    requires
        i <= j,
    ensures
        breaks_upto(s, i) <= breaks_upto(s, j),
    decreases j - i,
{
    if i < j {
        lemma_breaks_upto_monotone(s, i, j - 1);
    }
}

proof fn lemma_line_start_from(s: Seq<char>, k: nat, j: int)
    requires
        0 <= j <= s.len(),
    ensures
        j <= line_start_from(s, k, j) <= s.len(),
        forall|q: int|
            j <= q < line_start_from(s, k, j) ==> #[trigger] breaks_upto(s, q) < k,
        breaks_upto(s, s.len() as int) >= k ==> breaks_upto(s, line_start_from(s, k, j)) >= k,
        line_start_from(s, k, j) < s.len() ==> breaks_upto(s, line_start_from(s, k, j)) >= k,
    decreases s.len() - j,
{
    if j >= s.len() {
    } else if breaks_upto(s, j) >= k {
    } else {
        lemma_line_start_from(s, k, j + 1);
    }
}

/// What `line_start` is: for an existing line `k`, the first position at
/// which exactly `k` breaks have ended (0 for the first line, just after the
/// `k`-th break otherwise); for `k` equal to the line count, the end of the
/// text.
pub proof fn lemma_line_start(s: Seq<char>, k: nat)
    requires
        k <= line_count(s),
    ensures
        0 <= line_start(s, k) <= s.len(),
        k < line_count(s) ==> breaks_upto(s, line_start(s, k)) == k,
        k < line_count(s) ==> forall|q: int|
            0 <= q < line_start(s, k) ==> #[trigger] breaks_upto(s, q) < k,
        k == 0 ==> line_start(s, k) == 0,
        0 < k < line_count(s) ==> break_ends_at(s, line_start(s, k)),
        k == line_count(s) ==> line_start(s, k) == s.len(),
{
    lemma_line_start_from(s, k, 0);
    let p = line_start(s, k);
    if k < line_count(s) {
        if p > 0 {
            assert(breaks_upto(s, p - 1) < k);
        }
    } else {
        if p < s.len() {
            lemma_breaks_upto_monotone(s, p, s.len() as int);
        }
    }
}

/// The line that starts at `line_start(s, k)` is line `k`.
pub proof fn lemma_line_of_line_start(s: Seq<char>, k: nat)
    requires
        k < line_count(s),
    ensures
        line_of(s, line_start(s, k)) == k,
{
    lemma_line_start(s, k);
}

/// Every position lies at or after the start of its own line, and that start
/// lies on the same line.
pub proof fn lemma_line_start_of_line_of(s: Seq<char>, i: int)
    requires
        0 <= i <= s.len(),
    ensures
        line_of(s, i) < line_count(s),
        line_start(s, line_of(s, i)) <= i,
        line_of(s, line_start(s, line_of(s, i))) == line_of(s, i),
{
    lemma_breaks_upto_monotone(s, i, s.len() as int);
    lemma_line_start(s, line_of(s, i));
}

/// The end of the text lies on its last line.
pub proof fn lemma_end_on_last_line(s: Seq<char>)
    ensures
        line_of(s, s.len() as int) + 1 == line_count(s),
{
}

proof fn lemma_breaks_upto_prefix(s: Seq<char>, t: Seq<char>, i: int)
    requires
        0 <= i < s.len(),
    ensures
        breaks_upto(s + t, i) == breaks_upto(s, i),
    decreases i,
{
    if i > 0 {
        lemma_breaks_upto_prefix(s, t, i - 1);
        assert((s + t)[i - 1] == s[i - 1]);
        assert((s + t)[i] == s[i]);
    }
}

proof fn lemma_no_breaks_upto(s: Seq<char>, i: int)
    requires
        0 <= i <= s.len(),
        forall|k: int| 0 <= k < s.len() ==> !is_line_break_char(#[trigger] s[k]),
    ensures
        breaks_upto(s, i) == 0,
    decreases i,
{
    if i > 0 {
        lemma_no_breaks_upto(s, i - 1);
    }
}

/// A text in which no character is LF, VT, FF, CR, NEL, LINE SEPARATOR or
/// PARAGRAPH SEPARATOR has exactly one line; in particular the empty text
/// has one line.
pub proof fn lemma_text_without_breaks_has_one_line(s: Seq<char>)
    requires
        forall|k: int|
            0 <= k < s.len() ==> {
                let c = #[trigger] s[k];
                c != '\u{000A}' && c != '\u{000B}' && c != '\u{000C}' && c != '\u{000D}' && c
                    != '\u{0085}' && c != '\u{2028}' && c != '\u{2029}'
            },
    ensures
        line_count(s) == 1,
{
    lemma_no_breaks_upto(s, s.len() as int);
}

/// How one more character at the end changes the line count: an LF adds a
/// line, except right after a CR, where the CRLF pair stays one break; any of
/// VT, FF, CR, NEL, LINE SEPARATOR or PARAGRAPH SEPARATOR adds a line; any
/// other character adds none.
pub proof fn lemma_line_count_push(s: Seq<char>, c: char)
    ensures
        c == '\u{000A}' && (s.len() == 0 || s.last() != '\u{000D}') ==> line_count(s.push(c))
            == line_count(s) + 1,
        c == '\u{000A}' && s.len() > 0 && s.last() == '\u{000D}' ==> line_count(s.push(c))
            == line_count(s),
        (c == '\u{000B}' || c == '\u{000C}' || c == '\u{000D}' || c == '\u{0085}' || c
            == '\u{2028}' || c == '\u{2029}') ==> line_count(s.push(c)) == line_count(s) + 1,
        !(c == '\u{000A}' || c == '\u{000B}' || c == '\u{000C}' || c == '\u{000D}' || c
            == '\u{0085}' || c == '\u{2028}' || c == '\u{2029}') ==> line_count(s.push(c))
            == line_count(s),
{
    let t = s.push(c);
    let n = s.len() as int;
    assert(t == s + seq![c]);
    assert(t[n] == c);
    if n > 0 {
        lemma_breaks_upto_prefix(s, seq![c], n - 1);
        assert(t[n - 1] == s[n - 1]);
        assert(s.last() == s[n - 1]);
    }
    assert(breaks_upto(t, n + 1) == breaks_upto(t, n) + if break_ends_at(t, n + 1) {
        1nat
    } else {
        0nat
    });
}

} // verus!
