//! Decimal numbers, held exactly.
//!
//! A number literal is a decimal numeral: digits, then optionally a point
//! and more digits. Its value is kept as the shortest numeral that denotes
//! it, so that two numerals of one value decode to equal numbers.

use crate::chars::{all_of, is_digit, lemma_run_end, lemma_run_end_is, run_end, CharClass};
use crate::text::{push_chars, to_chars};
use vstd::prelude::*;

verus! {

/// Where the whole part of `s` ends: the first position that holds no digit.
pub open spec fn point(s: Seq<char>) -> int {
    run_end(s, 0, CharClass::Digit)
}

/// A numeral: one or more digits, then either nothing or a point and one or
/// more digits.
pub open spec fn is_numeral(s: Seq<char>) -> bool {
    &&& 0 < point(s)
    &&& point(s) < s.len() ==> {
        &&& s[point(s)] == '.'
        &&& point(s) + 1 < s.len()
        &&& all_of(s.subrange(point(s) + 1, s.len() as int), CharClass::Digit)
    }
}

/// The digits before the point.
pub open spec fn whole_part(s: Seq<char>) -> Seq<char> {
    s.subrange(0, point(s))
}

/// The digits after the point; none where the numeral has no point.
pub open spec fn fraction_part(s: Seq<char>) -> Seq<char> {
    if point(s) < s.len() {
        s.subrange(point(s) + 1, s.len() as int)
    } else {
        Seq::empty()
    }
}

/// `s` without its leading zeros, of which the last one stays where nothing
/// else would be left.
pub open spec fn without_leading_zeros(s: Seq<char>) -> Seq<char>
    decreases s.len(),
{
    if s.len() > 1 && s[0] == '0' {
        without_leading_zeros(s.subrange(1, s.len() as int))
    } else {
        s
    }
}

/// `s` without its trailing zeros.
pub open spec fn without_trailing_zeros(s: Seq<char>) -> Seq<char>
    decreases s.len(),
{
    if s.len() > 0 && s[s.len() - 1] == '0' {
        without_trailing_zeros(s.subrange(0, s.len() - 1))
    } else {
        s
    }
}

/// The shortest numeral of the value with the digits `whole` before the
/// point and `fraction` after it.
pub open spec fn shortest(whole: Seq<char>, fraction: Seq<char>) -> Seq<char> {
    let w = without_leading_zeros(whole);
    let f = without_trailing_zeros(fraction);
    if f.len() == 0 {
        w
    } else {
        w + seq!['.'] + f
    }
}

/// The value of the numeral `s`, as its shortest numeral.
pub open spec fn decode(s: Seq<char>) -> Seq<char> {
    shortest(whole_part(s), fraction_part(s))
}

/// A numeral that is the shortest of its value: no zero before the first
/// digit of the whole part but where it is the only one, and none at the end
/// of the fraction.
pub open spec fn is_shortest(s: Seq<char>) -> bool {
    &&& is_numeral(s)
    &&& s[0] == '0' ==> point(s) == 1
    &&& point(s) < s.len() ==> s[s.len() - 1] != '0'
}

/// A decimal number.
#[derive(Debug)]
pub struct Number {
    text: String,
}

impl View for Number {
    type V = Seq<char>;

    /// The shortest numeral of the number.
    closed spec fn view(&self) -> Seq<char> {
        self.text@
    }
}

impl Clone for Number {
    fn clone(&self) -> (r: Self)
        ensures
            r == *self,
    {
        proof {
            use_type_invariant(self);
        }
        Number { text: self.text.clone() }
    }
}

impl Number {
    #[verifier::type_invariant]
    spec fn well_formed(&self) -> bool {
        is_shortest(self.text@)
    }

    /// The number that the numeral `chars[from..to]` denotes, whose whole
    /// part ends at `point`.
    pub fn from_digits(chars: &Vec<char>, from: usize, point: usize, to: usize) -> (r: Number)
        requires
            from < point <= to <= chars@.len(),
            all_of(chars@.subrange(from as int, point as int), CharClass::Digit),
            point < to ==> chars@[point as int] == '.' && point + 1 < to && all_of(
                chars@.subrange(point + 1, to as int),
                CharClass::Digit,
            ),
        ensures
            r@ == shortest(
                chars@.subrange(from as int, point as int),
                if point < to {
                    chars@.subrange(point + 1, to as int)
                } else {
                    Seq::empty()
                },
            ),
            is_shortest(r@),
    {
        let ghost whole = chars@.subrange(from as int, point as int);
        let ghost fraction = if point < to {
            chars@.subrange(point + 1, to as int)
        } else {
            Seq::empty()
        };
        let mut a: usize = from;
        while a + 1 < point && chars[a] == '0'
            invariant
                from <= a < point <= chars@.len(),
                without_leading_zeros(whole) == without_leading_zeros(
                    chars@.subrange(a as int, point as int),
                ),
            decreases point - a,
        {
            assert(chars@.subrange(a as int, point as int).subrange(1, point - a)
                == chars@.subrange(a + 1, point as int));
            a += 1;
        }
        let mut text = String::new();
        push_chars(&mut text, chars, a, point);
        let mut b: usize = to;
        if point < to {
            while b > point + 1 && chars[b - 1] == '0'
                invariant
                    point + 1 <= b <= to <= chars@.len(),
                    fraction == chars@.subrange(point + 1, to as int),
                    without_trailing_zeros(fraction) == without_trailing_zeros(
                        chars@.subrange(point + 1, b as int),
                    ),
                decreases b,
            {
                assert(chars@.subrange(point + 1, b as int).subrange(0, b - (point + 1) - 1)
                    == chars@.subrange(point + 1, b - 1));
                b -= 1;
            }
            if b > point + 1 {
                text.push('.');
                push_chars(&mut text, chars, point + 1, b);
            }
        }
        proof {
            assert(text@ == shortest(whole, fraction));
            lemma_shortest(whole, fraction);
        }
        Number { text }
    }

    /// Decodes a numeral. Anything else is no number.
    pub fn parse(text: &str) -> (r: Option<Number>)
        ensures
            r is Some <==> is_numeral(text@),
            r matches Some(n) ==> n@ == decode(text@),
    {
        let chars = to_chars(text);
        let n: usize = chars.len();
        let mut p: usize = 0;
        while p < n && is_digit(chars[p])
            invariant
                p <= n == chars@.len(),
                run_end(chars@, p as int, CharClass::Digit) == point(chars@),
            decreases n - p,
        {
            p += 1;
        }
        proof {
            lemma_run_end(chars@, 0, CharClass::Digit);
        }
        if p == 0 {
            return None;
        }
        if p < n {
            if chars[p] != '.' || p + 1 >= n {
                return None;
            }
            let mut q: usize = p + 1;
            while q < n && is_digit(chars[q])
                invariant
                    p < q <= n == chars@.len(),
                    run_end(chars@, q as int, CharClass::Digit) == run_end(
                        chars@,
                        p + 1,
                        CharClass::Digit,
                    ),
                decreases n - q,
            {
                q += 1;
            }
            proof {
                lemma_run_end(chars@, p + 1, CharClass::Digit);
            }
            if q < n {
                assert(!CharClass::Digit.has(chars@.subrange(p + 1, n as int)[q - (p + 1)]));
                return None;
            }
        }
        Some(Number::from_digits(&chars, 0, p, n))
    }

    /// The shortest numeral of the number.
    pub fn to_text(&self) -> (r: String)
        ensures
            r@ == self@,
    {
        self.text.clone()
    }
}

/// What is left of digits without their leading zeros: the last digits,
/// at least one, with a zero in front only where it is the only digit.
pub proof fn lemma_without_leading_zeros(s: Seq<char>)
    requires
        s.len() > 0,
        all_of(s, CharClass::Digit),
    ensures
        ({
            let r = without_leading_zeros(s);
            &&& 0 < r.len() <= s.len()
            &&& r == s.subrange(s.len() - r.len(), s.len() as int)
            &&& all_of(r, CharClass::Digit)
            &&& r[0] == '0' ==> r.len() == 1
        }),
    decreases s.len(),
{
    if s.len() > 1 && s[0] == '0' {
        lemma_without_leading_zeros(s.subrange(1, s.len() as int));
    }
}

/// What is left of digits without their trailing zeros: the first digits,
/// perhaps none, and no zero at their end.
pub proof fn lemma_without_trailing_zeros(s: Seq<char>)
    requires
        all_of(s, CharClass::Digit),
    ensures
        ({
            let r = without_trailing_zeros(s);
            &&& r.len() <= s.len()
            &&& r == s.subrange(0, r.len() as int)
            &&& all_of(r, CharClass::Digit)
            &&& r.len() > 0 ==> r[r.len() - 1] != '0'
        }),
    decreases s.len(),
{
    if s.len() > 0 && s[s.len() - 1] == '0' {
        lemma_without_trailing_zeros(s.subrange(0, s.len() - 1));
    }
}

/// The shortest numeral of a value is a numeral, and the shortest of its
/// value.
pub proof fn lemma_shortest(whole: Seq<char>, fraction: Seq<char>)
    requires
        whole.len() > 0,
        all_of(whole, CharClass::Digit),
        all_of(fraction, CharClass::Digit),
    ensures
        is_shortest(shortest(whole, fraction)),
        whole_part(shortest(whole, fraction)) == without_leading_zeros(whole),
        fraction_part(shortest(whole, fraction)) == without_trailing_zeros(fraction),
{
    lemma_without_leading_zeros(whole);
    lemma_without_trailing_zeros(fraction);
    lemma_run_end_is(
        shortest(whole, fraction),
        0,
        without_leading_zeros(whole).len() as int,
        CharClass::Digit,
    );
}

/// The parts of a numeral are digits, and at least one stands before the
/// point.
pub proof fn lemma_numeral_parts(s: Seq<char>)
    requires
        is_numeral(s),
    ensures
        whole_part(s).len() > 0,
        all_of(whole_part(s), CharClass::Digit),
        all_of(fraction_part(s), CharClass::Digit),
{
    lemma_run_end(s, 0, CharClass::Digit);
}

/// The value of a numeral is the shortest numeral of that value, and its
/// own value: decoding what was decoded changes nothing.
pub proof fn lemma_decode_is_shortest(s: Seq<char>)
    requires
        is_numeral(s),
    ensures
        is_shortest(decode(s)),
        decode(decode(s)) == decode(s),
{
    lemma_numeral_parts(s);
    lemma_shortest(whole_part(s), fraction_part(s));
}

/// The shortest numeral of a value is its own value.
pub proof fn lemma_decode_shortest(s: Seq<char>)
    requires
        is_shortest(s),
    ensures
        decode(s) == s,
{
    lemma_run_end(s, 0, CharClass::Digit);
}

} // verus!
