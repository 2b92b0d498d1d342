//! Small text tools that the renderer and the parsers share.

use vstd::prelude::*;
use vstd::std_specs::iter::IteratorSpec;

verus! {

/// The text of one decimal digit.
pub open spec fn digit_text(d: nat) -> Seq<char> {
    if d == 0 {
        "0"@
    } else if d == 1 {
        "1"@
    } else if d == 2 {
        "2"@
    } else if d == 3 {
        "3"@
    } else if d == 4 {
        "4"@
    } else if d == 5 {
        "5"@
    } else if d == 6 {
        "6"@
    } else if d == 7 {
        "7"@
    } else if d == 8 {
        "8"@
    } else {
        "9"@
    }
}

/// The decimal numeral of a natural number, without leading zeros.
pub open spec fn decimal(n: nat) -> Seq<char>
    decreases n,
{
    if n < 10 {
        digit_text(n)
    } else {
        decimal(n / 10) + digit_text(n % 10)
    }
}

/// The decimal numeral of an integer, with a minus sign when it is negative.
pub open spec fn signed_decimal(n: int) -> Seq<char> {
    if n < 0 {
        "-"@ + decimal((-n) as nat)
    } else {
        decimal(n as nat)
    }
}

/// The first `n` characters of a text, or all of it when it is shorter.
pub open spec fn prefix_of(s: Seq<char>, n: nat) -> Seq<char> {
    if s.len() <= n {
        s
    } else {
        s.subrange(0, n as int)
    }
}

/// The position of the first line feed in a text, or its length when there is
/// none.
pub open spec fn line_end(s: Seq<char>) -> int
    decreases s.len(),
{
    if s.len() == 0 || s[0] == '\n' {
        0
    } else {
        1 + line_end(s.subrange(1, s.len() as int))
    }
}

/// The first line of a text: what precedes the first line feed, less one
/// carriage return directly before that line feed. A text without a line feed
/// is its own first line; the empty text has the empty first line.
pub open spec fn first_line(s: Seq<char>) -> Seq<char> {
    let end = line_end(s);
    if end < s.len() && end > 0 && s[end - 1] == '\r' {
        s.subrange(0, end - 1)
    } else {
        s.subrange(0, end)
    }
}

/// `line_end` is the least position that holds a line feed.
pub proof fn lemma_line_end(s: Seq<char>)
    ensures
        0 <= line_end(s) <= s.len(),
        forall|i: int| 0 <= i < line_end(s) ==> s[i] != '\n',
        line_end(s) < s.len() ==> s[line_end(s)] == '\n',
    decreases s.len(),
{
    if s.len() == 0 || s[0] == '\n' {
    } else {
        let rest = s.subrange(1, s.len() as int);
        lemma_line_end(rest);
        assert forall|i: int| 0 <= i < line_end(s) implies s[i] != '\n' by {
            if i > 0 {
                assert(rest[i - 1] == s[i]);
            }
        }
    }
}

/// A position that holds the first line feed, or the length where none is
/// found before it, is `line_end`.
pub proof fn lemma_line_end_is(s: Seq<char>, k: int)
    requires
        0 <= k <= s.len(),
        forall|i: int| 0 <= i < k ==> s[i] != '\n',
        k < s.len() ==> s[k] == '\n',
    ensures
        line_end(s) == k,
{
    lemma_line_end(s);
    let e = line_end(s);
    if e < k {
        assert(s[e] == '\n');
    } else if k < e {
        assert(s[k] != '\n');
    }
}

fn digit_str(d: u64) -> (s: &'static str)
    requires
        d < 10,
    ensures
        s@ == digit_text(d as nat),
{
    if d == 0 {
        "0"
    } else if d == 1 {
        "1"
    } else if d == 2 {
        "2"
    } else if d == 3 {
        "3"
    } else if d == 4 {
        "4"
    } else if d == 5 {
        "5"
    } else if d == 6 {
        "6"
    } else if d == 7 {
        "7"
    } else if d == 8 {
        "8"
    } else {
        "9"
    }
}

/// Appends the decimal numeral of `n` to `out`.
pub fn push_decimal(out: &mut String, n: u64)
    ensures
        final(out)@ == old(out)@ + decimal(n as nat),
    decreases n,
{
    if n >= 10 {
        push_decimal(out, n / 10);
    }
    out.append(digit_str(n % 10));
    assert(final(out)@ =~= old(out)@ + decimal(n as nat));
}

/// The decimal numeral of `n`.
pub fn decimal_string(n: u64) -> (s: String)
    ensures
        s@ == decimal(n as nat),
{
    let mut s = String::new();
    push_decimal(&mut s, n);
    assert(s@ =~= decimal(n as nat));
    s
}

/// Appends the decimal numeral of `n`, with its sign, to `out`.
pub fn push_signed_decimal(out: &mut String, n: i64)
    ensures
        final(out)@ == old(out)@ + signed_decimal(n as int),
{
    if n < 0 {
        out.append("-");
        let magnitude: u64 = if n == i64::MIN {
            0x8000_0000_0000_0000u64
        } else {
            (-n) as u64
        };
        push_decimal(out, magnitude);
        assert(final(out)@ =~= old(out)@ + signed_decimal(n as int));
    } else {
        push_decimal(out, n as u64);
    }
}

/// Whether two texts are the same.
pub fn same_text(a: &str, b: &str) -> (same: bool)
    ensures
        same == (a@ == b@),
{
    a.to_owned() == b.to_owned()
}

/// The first `n` characters of `s`.
pub fn take_prefix(s: &str, n: usize) -> (r: &str)
    ensures
        r@ == prefix_of(s@, n as nat),
{
    let len: usize = s.unicode_len();
    if len <= n {
        s
    } else {
        s.substring_char(0, n)
    }
}

/// The position of the first character of `s` that is `wanted`, or the
/// length of `s` where there is none.
pub fn find_char(s: &str, wanted: char) -> (k: usize)
    ensures
        k <= s@.len(),
        forall|i: int| 0 <= i < k ==> s@[i] != wanted,
        k < s@.len() ==> s@[k as int] == wanted,
{
    broadcast use vstd::string::group_string_axioms;

    let len: usize = s.unicode_len();
    let mut it = s.chars();
    let mut k: usize = 0;
    assert(s@.subrange(0, len as int) =~= s@);
    loop
        invariant_except_break
            it.remaining() == s@.subrange(k as int, len as int),
        invariant
            len == s@.len(),
            k <= len,
            it.obeys_prophetic_iter_laws(),
            forall|i: int| 0 <= i < k ==> s@[i] != wanted,
        ensures
            k <= len,
            forall|i: int| 0 <= i < k ==> s@[i] != wanted,
            k < len ==> s@[k as int] == wanted,
        decreases len - k,
    {
        let ghost before = it.remaining();
        match it.next() {
            Some(c) => {
                assert(before[0] == s@[k as int]);
                if c == wanted {
                    break;
                }
                assert(before.drop_first() =~= s@.subrange(k + 1, len as int));
                k += 1;
            },
            None => {
                break;
            },
        }
    }
    k
}

/// The first line of `s`, as `str::lines` would yield it first; the empty
/// text when `s` is empty.
pub fn first_line_of(s: &str) -> (r: &str)
    ensures
        r@ == first_line(s@),
{
    let len: usize = s.unicode_len();
    let k = find_char(s, '\n');
    proof {
        lemma_line_end_is(s@, k as int);
    }
    if k < len && k > 0 && s.get_char(k - 1) == '\r' {
        s.substring_char(0, k - 1)
    } else {
        s.substring_char(0, k)
    }
}

} // verus!
