//! Parsing of the textual configuration values the services read from the
//! environment: unsigned decimal integers and booleans, with the exact
//! acceptance rules of `u64::from_str` and `bool::from_str`.

use vstd::prelude::*;
use vstd::string::*;

verus! {

pub open spec fn is_decimal_digit(c: char) -> bool {
    '0' <= c && c <= '9'
}

pub open spec fn digit_value(c: char) -> int {
    (c as int) - ('0' as int)
}

pub open spec fn all_decimal_digits(s: Seq<char>) -> bool {
    forall|i: int| 0 <= i < s.len() ==> is_decimal_digit(#[trigger] s[i])
}

/// The number written by a string of decimal digits, most significant first.
pub open spec fn decimal_value(digits: Seq<char>) -> int
    decreases digits.len(),
{
    if digits.len() == 0 {
        0
    } else {
        decimal_value(digits.drop_last()) * 10 + digit_value(digits.last())
    }
}

/// The digits of an unsigned number: the text without one leading `+`.
pub open spec fn unsigned_digits(text: Seq<char>) -> Seq<char> {
    if text.len() > 0 && text[0] == '+' {
        text.drop_first()
    } else {
        text
    }
}

/// The value `u64::from_str` reads from `text`: an optional `+`, then one or
/// more decimal digits whose value fits in 64 bits; `None` for anything else.
pub open spec fn u64_from_text(text: Seq<char>) -> Option<u64> {
    let digits = unsigned_digits(text);
    if digits.len() > 0 && all_decimal_digits(digits) && decimal_value(digits) <= u64::MAX {
        Some(decimal_value(digits) as u64)
    } else {
        None
    }
}

/// The value `bool::from_str` reads from `text`: exactly `true` or `false`.
pub open spec fn bool_from_text(text: Seq<char>) -> Option<bool> {
    if text == seq!['t', 'r', 'u', 'e'] {
        Some(true)
    } else if text == seq!['f', 'a', 'l', 's', 'e'] {
        Some(false)
    } else {
        None
    }
}

proof fn lemma_decimal_value_nonneg(digits: Seq<char>)
    requires
        all_decimal_digits(digits),
    ensures
        decimal_value(digits) >= 0,
    decreases digits.len(),
{
    if digits.len() > 0 {
        lemma_decimal_value_nonneg(digits.drop_last());
    }
}

/// A prefix of a digit string never writes a larger number than the whole.
proof fn lemma_prefix_value_le(digits: Seq<char>, k: int)
    requires
        all_decimal_digits(digits),
        0 <= k <= digits.len(),
    ensures
        decimal_value(digits.take(k)) <= decimal_value(digits),
    decreases digits.len(),
{
    if k == digits.len() {
        assert(digits.take(k) =~= digits);
    } else {
        let shorter = digits.drop_last();
        assert(shorter.take(k) =~= digits.take(k));
        lemma_prefix_value_le(shorter, k);
        lemma_decimal_value_nonneg(shorter);
    }
}

/// Reads an unsigned decimal number as `u64::from_str` does.
pub fn parse_u64(text: &str) -> (r: Option<u64>)
    ensures
        r == u64_from_text(text@),
{
    let n = text.unicode_len();
    let mut start: usize = 0;
    if n > 0 && text.get_char(0) == '+' {
        start = 1;
    }
    let ghost digits = unsigned_digits(text@);
    assert(digits =~= text@.subrange(start as int, n as int));
    if start >= n {
        return None;
    }
    let mut value: u64 = 0;
    let mut i: usize = start;
    while i < n
        invariant
            start <= i <= n,
            n == text@.len(),
            start < n,
            digits == text@.subrange(start as int, n as int),
            digits == unsigned_digits(text@),
            all_decimal_digits(digits.take(i - start)),
            value == decimal_value(digits.take(i - start)),
        decreases n - i,
    {
        let c = text.get_char(i);
        assert(c == digits[i - start]);
        if !('0' <= c && c <= '9') {
            assert(!is_decimal_digit(digits[i - start]));
            assert(!all_decimal_digits(digits));
            return None;
        }
        let d: u64 = (c as u32 - '0' as u32) as u64;
        let ghost next = digits.take(i - start + 1);
        assert(next.drop_last() =~= digits.take(i - start));
        assert(all_decimal_digits(next));
        assert(decimal_value(next) == value * 10 + d);
        if value > 1844674407370955161 || (value == 1844674407370955161 && d > 5) {
            assert(decimal_value(next) > u64::MAX);
            proof {
                if all_decimal_digits(digits) {
                    lemma_prefix_value_le(digits, i - start + 1);
                }
            }
            return None;
        }
        value = value * 10 + d;
        i = i + 1;
    }
    assert(digits.take(n - start) =~= digits);
    Some(value)
}

/// Reads a boolean as `bool::from_str` does.
pub fn parse_bool(text: &str) -> (r: Option<bool>)
    ensures
        r == bool_from_text(text@),
{
    let n = text.unicode_len();
    if n == 4 && text.get_char(0) == 't' && text.get_char(1) == 'r' && text.get_char(2) == 'u'
        && text.get_char(3) == 'e' {
        assert(text@ =~= seq!['t', 'r', 'u', 'e']);
        Some(true)
    } else if n == 5 && text.get_char(0) == 'f' && text.get_char(1) == 'a' && text.get_char(2)
        == 'l' && text.get_char(3) == 's' && text.get_char(4) == 'e' {
        assert(text@ =~= seq!['f', 'a', 'l', 's', 'e']);
        Some(false)
    } else {
        proof {
            if text@ == seq!['t', 'r', 'u', 'e'] {
                assert(text@[1] == 'r');
            }
            if text@ == seq!['f', 'a', 'l', 's', 'e'] {
                assert(text@[1] == 'a');
            }
        }
        None
    }
}

/// Whether two texts are the same, character for character.
pub fn same_text(a: &str, b: &str) -> (same: bool)
    ensures
        same == (a@ == b@),
{
    let n = a.unicode_len();
    if n != b.unicode_len() {
        return false;
    }
    let mut i: usize = 0;
    while i < n
        invariant
            i <= n,
            n == a@.len(),
            n == b@.len(),
            forall|j: int| 0 <= j < i ==> a@[j] == b@[j],
        decreases n - i,
    {
        if a.get_char(i) != b.get_char(i) {
            return false;
        }
        i = i + 1;
    }
    assert(a@ =~= b@);
    true
}

/// A copy of `text`, or of `default` when there is none.
pub fn text_or(text: Option<&str>, default: &str) -> (copy: String)
    ensures
        copy@ == match text {
            Some(t) => t@,
            None => default@,
        },
{
    match text {
        Some(t) => String::from_str(t),
        None => String::from_str(default),
    }
}

} // verus!
