//! Character classes, and the longest run of one class in a text.

use vstd::prelude::*;

verus! {

/// An ASCII decimal digit.
pub open spec fn digit(c: char) -> bool {
    '0' <= c && c <= '9'
}

/// An ASCII letter.
pub open spec fn letter(c: char) -> bool {
    ('a' <= c && c <= 'z') || ('A' <= c && c <= 'Z')
}

/// An ASCII letter or digit.
pub open spec fn alphanumeric(c: char) -> bool {
    letter(c) || digit(c)
}

/// A space, a carriage return or a tab.
pub open spec fn blank(c: char) -> bool {
    c == ' ' || c == '\r' || c == '\t'
}

/// Whether `c` is an ASCII decimal digit.
pub fn is_digit(c: char) -> (r: bool)
    ensures
        r == digit(c),
{
    '0' <= c && c <= '9'
}

/// Whether `c` is an ASCII letter.
pub fn is_letter(c: char) -> (r: bool)
    ensures
        r == letter(c),
{
    ('a' <= c && c <= 'z') || ('A' <= c && c <= 'Z')
}

/// Whether `c` is an ASCII letter or digit.
pub fn is_alphanumeric(c: char) -> (r: bool)
    ensures
        r == alphanumeric(c),
{
    is_letter(c) || is_digit(c)
}

/// The classes of characters of which a lexeme takes the longest run.
pub enum CharClass {
    /// Decimal digits.
    Digit,
    /// Letters and digits: what continues a word.
    Alphanumeric,
    /// Everything up to the end of the line: what a comment holds.
    CommentText,
    /// Everything up to the next double quote: what a string holds.
    StringText,
}

impl CharClass {
    /// Whether `c` is of the class.
    pub open spec fn has(self, c: char) -> bool {
        match self {
            CharClass::Digit => digit(c),
            CharClass::Alphanumeric => alphanumeric(c),
            CharClass::CommentText => c != '\n',
            CharClass::StringText => c != '"',
        }
    }
}

/// Whether every character of `s` is of `class`.
pub open spec fn all_of(s: Seq<char>, class: CharClass) -> bool {
    forall|k: int| 0 <= k < s.len() ==> class.has(#[trigger] s[k])
}

/// Where the longest run of characters of `class` that starts at `i` ends:
/// the first position from `i` on that holds no character of the class.
pub open spec fn run_end(s: Seq<char>, i: int, class: CharClass) -> int
    decreases s.len() - i,
{
    if 0 <= i < s.len() && class.has(s[i]) {
        run_end(s, i + 1, class)
    } else {
        i
    }
}

/// The number of line feeds in `s[from..to]`.
pub open spec fn newlines(s: Seq<char>, from: int, to: int) -> nat
    decreases to - from,
{
    if from < to {
        newlines(s, from, to - 1) + if s[to - 1] == '\n' {
            1nat
        } else {
            0nat
        }
    } else {
        0
    }
}

/// A run ends at or after its start and within the text, every character
/// in it is of the class, and the character after it, if any, is not.
pub proof fn lemma_run_end(s: Seq<char>, i: int, class: CharClass)
    requires
        0 <= i <= s.len(),
    ensures
        i <= run_end(s, i, class) <= s.len(),
        all_of(s.subrange(i, run_end(s, i, class)), class),
        run_end(s, i, class) < s.len() ==> !class.has(s[run_end(s, i, class)]),
    decreases s.len() - i,
{
    if i < s.len() && class.has(s[i]) {
        lemma_run_end(s, i + 1, class);
        let e = run_end(s, i, class);
        assert forall|k: int| 0 <= k < e - i implies class.has(#[trigger] s.subrange(i, e)[k]) by {
            if k > 0 {
                assert(s.subrange(i, e)[k] == s.subrange(i + 1, e)[k - 1]);
            }
        }
    }
}

/// A run ends at `e` if everything from `i` up to `e` is of the class and
/// the text ends at `e` or goes on with a character that is not.
pub proof fn lemma_run_end_is(s: Seq<char>, i: int, e: int, class: CharClass)
    requires
        0 <= i <= e <= s.len(),
        all_of(s.subrange(i, e), class),
        e < s.len() ==> !class.has(s[e]),
    ensures
        run_end(s, i, class) == e,
    decreases e - i,
{
    if i < e {
        assert(s.subrange(i, e)[0] == s[i]);
        assert forall|k: int| 0 <= k < e - (i + 1) implies class.has(
            #[trigger] s.subrange(i + 1, e)[k],
        ) by {
            assert(s.subrange(i + 1, e)[k] == s.subrange(i, e)[k + 1]);
        }
        lemma_run_end_is(s, i + 1, e, class);
    }
}

/// Line feeds are counted piece by piece.
pub proof fn lemma_newlines_split(s: Seq<char>, from: int, mid: int, to: int)
    requires
        from <= mid <= to,
    ensures
        newlines(s, from, to) == newlines(s, from, mid) + newlines(s, mid, to),
    decreases to - mid,
{
    if mid < to {
        lemma_newlines_split(s, from, mid, to - 1);
    }
}

} // verus!
