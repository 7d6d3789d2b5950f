//! Decimal text of integers, as `i64`'s `Display` writes it and its `FromStr`
//! reads it, and exact comparison of text.

use vstd::prelude::*;

verus! {

/// The character of a decimal digit `d` in `0..10`.
pub open spec fn digit_char(d: int) -> char {
    (d + 48) as char
}

/// Whether `c` is an ASCII decimal digit.
pub open spec fn is_digit(c: char) -> bool {
    '0' <= c && c <= '9'
}

/// The value of the ASCII decimal digit `c`.
pub open spec fn digit_value(c: char) -> int {
    c as int - 48
}

/// The decimal digits of `n`, most significant first, with no leading zero.
pub open spec fn digits_of(n: nat) -> Seq<char>
    decreases n,
{
    if n < 10 {
        seq![digit_char(n as int)]
    } else {
        digits_of(n / 10).push(digit_char((n % 10) as int))
    }
}

/// The text that `Display` writes for the integer `n`: a `-` for a negative
/// number, then its decimal digits.
pub open spec fn decimal_text(n: int) -> Seq<char> {
    if n < 0 {
        seq!['-'] + digits_of((-n) as nat)
    } else {
        digits_of(n as nat)
    }
}

/// Whether every character of `s` is a decimal digit.
pub open spec fn all_digits(s: Seq<char>) -> bool {
    forall|i: int| 0 <= i < s.len() ==> is_digit(#[trigger] s[i])
}

/// The value of a run of decimal digits.
pub open spec fn value_of_digits(s: Seq<char>) -> int
    decreases s.len(),
{
    if s.len() == 0 {
        0
    } else {
        value_of_digits(s.drop_last()) * 10 + digit_value(s.last())
    }
}

/// The integer that the text `s` denotes as `FromStr` for an integer reads it:
/// an optional `+` or `-` sign followed by at least one decimal digit and
/// nothing else.
pub open spec fn parse_decimal(s: Seq<char>) -> Option<int> {
    if s.len() > 0 && (s[0] == '-' || s[0] == '+') {
        let body = s.drop_first();
        if body.len() > 0 && all_digits(body) {
            if s[0] == '-' {
                Some(-value_of_digits(body))
            } else {
                Some(value_of_digits(body))
            }
        } else {
            None
        }
    } else if s.len() > 0 && all_digits(s) {
        Some(value_of_digits(s))
    } else {
        None
    }
}

/// What `str::parse::<i64>` gives for `s`: the denoted integer where it fits in
/// an `i64`, and nothing otherwise.
pub open spec fn parsed_i64(s: Seq<char>) -> Option<i64> {
    match parse_decimal(s) {
        Some(v) => if i64::MIN <= v <= i64::MAX {
            Some(v as i64)
        } else {
            None
        },
        None => None,
    }
}

proof fn lemma_digit_char(d: int)
    requires
        0 <= d < 10,
    ensures
        is_digit(digit_char(d)),
        digit_value(digit_char(d)) == d,
{
}

/// The digits of `n` are a nonempty run of decimal digits whose value is `n`.
pub proof fn lemma_digits_of(n: nat)
    ensures
        digits_of(n).len() > 0,
        all_digits(digits_of(n)),
        value_of_digits(digits_of(n)) == n,
    decreases n,
{
    if n < 10 {
        lemma_digit_char(n as int);
        let s = digits_of(n);
        assert(s.drop_last() =~= Seq::<char>::empty());
        assert(value_of_digits(s.drop_last()) == 0);
        assert(s.last() == digit_char(n as int));
    } else {
        lemma_digits_of(n / 10);
        lemma_digit_char((n % 10) as int);
        let s = digits_of(n);
        assert(s.drop_last() =~= digits_of(n / 10));
        assert(s.last() == digit_char((n % 10) as int));
        assert(value_of_digits(s) == value_of_digits(digits_of(n / 10)) * 10 + (n % 10));
        assert((n / 10) * 10 + n % 10 == n);
        assert forall|i: int| 0 <= i < s.len() implies is_digit(#[trigger] s[i]) by {
            if i < s.len() - 1 {
                assert(s[i] == digits_of(n / 10)[i]);
            }
        }
    }
}

/// Reading back the decimal text of an integer gives that integer.
pub proof fn lemma_parse_decimal_text(n: int)
    ensures
        parse_decimal(decimal_text(n)) == Some(n),
{
    if n < 0 {
        let m = (-n) as nat;
        lemma_digits_of(m);
        let s = decimal_text(n);
        assert(s.drop_first() =~= digits_of(m));
    } else {
        let m = n as nat;
        lemma_digits_of(m);
        let s = decimal_text(n);
        assert(is_digit(s[0]));
    }
}

/// Parsing the decimal text of an `i64` as an `i64` gives it back.
pub proof fn lemma_parsed_i64_of_text(n: i64)
    ensures
        parsed_i64(decimal_text(n as int)) == Some(n),
{
    lemma_parse_decimal_text(n as int);
}

/// The decimal text of `n`, written by `i64`'s `Display` (through `to_string`).
#[verifier::external_body]
pub(crate) fn decimal_string(n: i64) -> (s: String)
    ensures
        s@ == decimal_text(n as int),
{
    n.to_string()
}

/// `str::parse::<i64>`, with its error dropped: the integer that `s` denotes
/// where `s` is an optional sign and decimal digits and the value fits.
#[verifier::external_body]
pub(crate) fn parse_i64(s: &str) -> (r: Option<i64>)
    ensures
        r == parsed_i64(s@),
{
    s.parse::<i64>().ok()
}

/// Whether two texts hold the same characters.
pub fn same_text(a: &str, b: &str) -> (r: bool)
    ensures
        r == (a@ == b@),
{
    let a_owned = a.to_owned();
    let b_owned = b.to_owned();
    a_owned == b_owned
}

} // verus!
