//! Reading decimal integers out of text, as the standard integer parsers do:
//! an optional sign, then one or more digits, nothing else, and no value
//! outside the range of the type.

use crate::text::{decimal, digit_text, signed_decimal};
use vstd::prelude::*;

verus! {

/// Whether a character is a decimal digit.
pub open spec fn is_digit(c: char) -> bool {
    '0' <= c <= '9'
}

/// The value of a decimal digit.
pub open spec fn digit_value(c: char) -> nat {
    (c as nat - '0' as nat) as nat
}

/// Whether a text is made of decimal digits only.
pub open spec fn all_digits(s: Seq<char>) -> bool {
    forall|i: int| 0 <= i < s.len() ==> is_digit(#[trigger] s[i])
}

/// The number that a text of digits denotes.
pub open spec fn digits_value(s: Seq<char>) -> nat
    decreases s.len(),
{
    if s.len() == 0 {
        0
    } else {
        digits_value(s.drop_last()) * 10 + digit_value(s.last())
    }
}

/// The number that a text of one or more digits denotes.
pub open spec fn magnitude(s: Seq<char>) -> Option<nat> {
    if s.len() > 0 && all_digits(s) {
        Some(digits_value(s))
    } else {
        None
    }
}

/// What follows the first character of a text.
pub open spec fn tail(s: Seq<char>) -> Seq<char> {
    s.subrange(1, s.len() as int)
}

/// The number that a text denotes as an unsigned integer: digits, with an
/// optional plus sign before them.
pub open spec fn unsigned_value(s: Seq<char>) -> Option<nat> {
    if s.len() > 0 && s[0] == '+' {
        magnitude(tail(s))
    } else {
        magnitude(s)
    }
}

/// The number that a text denotes as a signed integer: digits, with an
/// optional plus or minus sign before them.
pub open spec fn signed_value(s: Seq<char>) -> Option<int> {
    if s.len() > 0 && s[0] == '-' {
        match magnitude(tail(s)) {
            Some(n) => Some(-(n as int)),
            None => None,
        }
    } else {
        match unsigned_value(s) {
            Some(n) => Some(n as int),
            None => None,
        }
    }
}

/// What parsing a text as `u64` gives.
pub open spec fn parsed_u64(s: Seq<char>) -> Option<u64> {
    match unsigned_value(s) {
        Some(n) => if n <= u64::MAX {
            Some(n as u64)
        } else {
            None
        },
        None => None,
    }
}

/// What parsing a text as `u16` gives.
pub open spec fn parsed_u16(s: Seq<char>) -> Option<u16> {
    match unsigned_value(s) {
        Some(n) => if n <= u16::MAX {
            Some(n as u16)
        } else {
            None
        },
        None => None,
    }
}

/// What parsing a text as `i64` gives.
pub open spec fn parsed_i64(s: Seq<char>) -> Option<i64> {
    match signed_value(s) {
        Some(v) => if i64::MIN <= v <= i64::MAX {
            Some(v as i64)
        } else {
            None
        },
        None => None,
    }
}

/// What parsing a text as `bool` gives.
pub open spec fn parsed_bool(s: Seq<char>) -> Option<bool> {
    if s == "true"@ {
        Some(true)
    } else if s == "false"@ {
        Some(false)
    } else {
        None
    }
}

/// A text of digits denotes at least what any of its prefixes denotes.
pub proof fn lemma_digits_value_grows(s: Seq<char>, k: int)
    requires
        0 <= k <= s.len(),
    ensures
        digits_value(s.subrange(0, k)) <= digits_value(s),
    decreases s.len() - k,
{
    if k == s.len() {
        assert(s.subrange(0, k) =~= s);
    } else {
        lemma_digits_value_grows(s, k + 1);
        let longer = s.subrange(0, k + 1);
        assert(longer.drop_last() =~= s.subrange(0, k));
    }
}

/// The text of a digit is that digit.
pub proof fn lemma_digit_text(d: nat)
    requires
        d < 10,
    ensures
        digit_text(d).len() == 1,
        is_digit(digit_text(d)[0]),
        digit_value(digit_text(d)[0]) == d,
{
    reveal_strlit("0");
    reveal_strlit("1");
    reveal_strlit("2");
    reveal_strlit("3");
    reveal_strlit("4");
    reveal_strlit("5");
    reveal_strlit("6");
    reveal_strlit("7");
    reveal_strlit("8");
    reveal_strlit("9");
}

/// The decimal numeral of a number is made of digits, and denotes the number.
pub proof fn lemma_decimal_reads_back(n: nat)
    ensures
        decimal(n).len() > 0,
        all_digits(decimal(n)),
        digits_value(decimal(n)) == n,
    decreases n,
{
    lemma_digit_text(n % 10);
    let last = digit_text(n % 10);
    if n < 10 {
        assert(last.drop_last() =~= Seq::<char>::empty());
        assert(digits_value(last.drop_last()) == 0);
    } else {
        lemma_decimal_reads_back(n / 10);
        let front = decimal(n / 10);
        let whole = front + last;
        assert(whole.drop_last() =~= front);
        assert(whole.last() == last[0]);
        assert forall|i: int| 0 <= i < whole.len() implies is_digit(#[trigger] whole[i]) by {
            if i < front.len() {
                assert(whole[i] == front[i]);
            } else {
                assert(whole[i] == last[0]);
            }
        }
    }
}

/// A number is read back from its decimal numeral.
pub proof fn lemma_parsed_decimal(n: u64)
    ensures
        parsed_u64(decimal(n as nat)) == Some(n),
{
    lemma_decimal_reads_back(n as nat);
    let s = decimal(n as nat);
    assert(is_digit(s[0]));
}

/// An integer is read back from its decimal numeral.
pub proof fn lemma_parsed_signed_decimal(n: i64)
    ensures
        parsed_i64(signed_decimal(n as int)) == Some(n),
{
    let s = signed_decimal(n as int);
    if n < 0 {
        reveal_strlit("-");
        let digits = decimal((-n) as nat);
        lemma_decimal_reads_back((-n) as nat);
        assert(s[0] == '-');
        assert(tail(s) =~= digits);
    } else {
        lemma_decimal_reads_back(n as nat);
        assert(is_digit(s[0]));
    }
}

/// Different numbers have different decimal numerals.
pub proof fn lemma_decimal_injective(a: nat, b: nat)
    requires
        decimal(a) == decimal(b),
    ensures
        a == b,
{
    lemma_decimal_reads_back(a);
    lemma_decimal_reads_back(b);
}

/// Reads the number that the digits of `s` from position `from` on denote.
/// `None` where there is no digit, where another character stands among them,
/// or where the number does not fit.
fn parse_digits(s: &str, from: usize) -> (r: Option<u64>)
    requires
        from <= s@.len(),
    ensures
        r == match magnitude(s@.subrange(from as int, s@.len() as int)) {
            Some(n) => if n <= u64::MAX {
                Some(n as u64)
            } else {
                None
            },
            None => None,
        },
{
    let len: usize = s.unicode_len();
    let ghost body = s@.subrange(from as int, len as int);
    if from == len {
        return None;
    }
    let mut acc: u64 = 0;
    let mut i: usize = from;
    assert(body.subrange(0, 0) =~= Seq::<char>::empty());
    while i < len
        invariant
            len == s@.len(),
            from <= i <= len,
            body == s@.subrange(from as int, len as int),
            all_digits(body.subrange(0, i - from)),
            acc == digits_value(body.subrange(0, i - from)),
        decreases len - i,
    {
        let c: char = s.get_char(i);
        let code: u32 = c as u32;
        assert(body[i - from] == c);
        if code < 48 || code > 57 {
            assert(!is_digit(body[i - from]));
            return None;
        }
        let d: u64 = (code - 48) as u64;
        proof {
            let next = body.subrange(0, i - from + 1);
            assert(next.drop_last() =~= body.subrange(0, i - from));
            assert(next.last() == c);
            assert(digit_value(c) == d);
            assert(digits_value(next) == acc * 10 + d);
            assert forall|j: int| 0 <= j < next.len() implies is_digit(#[trigger] next[j]) by {
                if j < i - from {
                    assert(body.subrange(0, i - from)[j] == next[j]);
                }
            }
            lemma_digits_value_grows(body, i - from + 1);
        }
        if acc > (u64::MAX - d) / 10 {
            proof {
                // the number read so far is already too large
                assert(acc * 10 + d > u64::MAX);
                if all_digits(body) {
                    assert(digits_value(body) > u64::MAX);
                }
            }
            // a later character that is no digit gives `None` as well
            return None;
        }
        acc = acc * 10 + d;
        i += 1;
    }
    assert(body.subrange(0, len - from) =~= body);
    Some(acc)
}

/// Parses a text as `u64`.
pub fn parse_u64(s: &str) -> (r: Option<u64>)
    ensures
        r == parsed_u64(s@),
{
    let len: usize = s.unicode_len();
    if len > 0 && s.get_char(0) == '+' {
        parse_digits(s, 1)
    } else {
        assert(s@.subrange(0, s@.len() as int) =~= s@);
        parse_digits(s, 0)
    }
}

/// Parses a text as `u16`.
pub fn parse_u16(s: &str) -> (r: Option<u16>)
    ensures
        r == parsed_u16(s@),
{
    match parse_u64(s) {
        Some(n) => if n <= 0xffff {
            Some(n as u16)
        } else {
            None
        },
        None => None,
    }
}

/// Parses a text as `i64`.
pub fn parse_i64(s: &str) -> (r: Option<i64>)
    ensures
        r == parsed_i64(s@),
{
    let len: usize = s.unicode_len();
    if len > 0 && s.get_char(0) == '-' {
        match parse_digits(s, 1) {
            Some(n) => if n <= 0x7fff_ffff_ffff_ffff {
                Some(-(n as i64))
            } else if n == 0x8000_0000_0000_0000 {
                Some(i64::MIN)
            } else {
                None
            },
            None => None,
        }
    } else {
        match parse_u64(s) {
            Some(n) => if n <= 0x7fff_ffff_ffff_ffff {
                Some(n as i64)
            } else {
                None
            },
            None => None,
        }
    }
}

/// Parses a text as `bool`: `true` or `false`, nothing else.
pub fn parse_bool(s: &str) -> (r: Option<bool>)
    ensures
        r == parsed_bool(s@),
{
    if crate::text::same_text(s, "true") {
        Some(true)
    } else if crate::text::same_text(s, "false") {
        Some(false)
    } else {
        None
    }
}

} // verus!
