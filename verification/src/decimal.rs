//! Unsigned decimal numerals: what a text denotes as a 64-bit number, and the
//! numeral of a number.

use vstd::prelude::*;
use vstd::string::*;

verus! {

/// Whether `c` is one of the ten ASCII digits.
pub open spec fn is_digit(c: char) -> bool {
    '0' <= c && c <= '9'
}

/// The number that the digit `c` denotes.
pub open spec fn digit_value(c: char) -> nat {
    (c as int - '0' as int) as nat
}

/// The digit that denotes `d`, for `d` below ten.
pub open spec fn digit_char(d: nat) -> char {
    ('0' as nat + d) as char
}

/// Whether `s` holds ASCII digits only.
pub open spec fn all_digits(s: Seq<char>) -> bool {
    forall|i: int| 0 <= i < s.len() ==> is_digit(#[trigger] s[i])
}

/// The number that a sequence of digits denotes in base ten.
pub open spec fn decimal_value(s: Seq<char>) -> nat
    decreases s.len(),
{
    if s.len() == 0 {
        0
    } else {
        10 * decimal_value(s.drop_last()) + digit_value(s.last())
    }
}

/// The digits of a numeral: the text without the plus sign that may lead it.
pub open spec fn unsigned_digits(s: Seq<char>) -> Seq<char> {
    if s.len() > 0 && s[0] == '+' {
        s.subrange(1, s.len() as int)
    } else {
        s
    }
}

/// What a text denotes as an unsigned 64-bit number: it is an optional `+`
/// followed by one or more ASCII digits and nothing else, and the number they
/// denote is at most `u64::MAX`.
pub open spec fn parse_u64_spec(s: Seq<char>) -> Option<u64> {
    let digits = unsigned_digits(s);
    if digits.len() > 0 && all_digits(digits) && decimal_value(digits) <= u64::MAX {
        Some(decimal_value(digits) as u64)
    } else {
        None
    }
}

/// The numeral of `n`: its decimal digits without leading zeros.
pub open spec fn decimal_digits(n: nat) -> Seq<char>
    decreases n,
{
    if n < 10 {
        seq![digit_char(n)]
    } else {
        decimal_digits(n / 10).push(digit_char(n % 10))
    }
}

/// A sequence of digits denotes at least what any of its prefixes denotes.
pub proof fn lemma_decimal_value_prefix(s: Seq<char>, k: int)
    requires
        0 <= k <= s.len(),
    ensures
        decimal_value(s.subrange(0, k)) <= decimal_value(s),
    decreases s.len(),
{
    if k == s.len() {
        assert(s.subrange(0, k) =~= s);
    } else {
        assert(s.drop_last().subrange(0, k) =~= s.subrange(0, k));
        lemma_decimal_value_prefix(s.drop_last(), k);
    }
}

/// The numeral of a number is not empty, holds digits only and denotes the
/// number.
pub proof fn lemma_decimal_digits_value(n: nat)
    ensures
        decimal_digits(n).len() > 0,
        all_digits(decimal_digits(n)),
        decimal_value(decimal_digits(n)) == n,
    decreases n,
{
    let s = decimal_digits(n);
    if n >= 10 {
        lemma_decimal_digits_value(n / 10);
        assert(s.drop_last() =~= decimal_digits(n / 10));
    } else {
        assert(decimal_value(s.drop_last()) == 0);
    }
}

/// Reading the numeral of a number gives the number back.
pub proof fn lemma_parse_decimal_digits(n: u64)
    ensures
        parse_u64_spec(decimal_digits(n as nat)) == Some(n),
{
    lemma_decimal_digits_value(n as nat);
}

/// Reads an unsigned decimal numeral.
pub fn parse_u64(s: &str) -> (r: Option<u64>)
    ensures
        r == parse_u64_spec(s@),
{
    let ghost digits = unsigned_digits(s@);
    if !s.is_ascii() {
        proof {
            let i = choose|i: int| 0 <= i < s@.len() && !('\0' <= #[trigger] s@[i] <= '\u{7f}');
            if s@[0] == '+' {
                assert(!is_digit(digits[i - 1]));
            }
        }
        return None;
    }
    let n: usize = s.as_bytes().len();
    proof {
        is_ascii_spec_bytes(s);
    }
    let mut i: usize = 0;
    if n > 0 && s.get_ascii(0) == 43u8 {
        i = 1;
    }
    if i == n {
        return None;
    }
    let start: usize = i;
    let mut value: u64 = 0;
    while i < n
        invariant
            start <= i <= n,
            n == s@.len(),
            s.is_ascii(),
            digits == unsigned_digits(s@),
            digits == s@.subrange(start as int, n as int),
            all_digits(digits.subrange(0, i - start)),
            value == decimal_value(digits.subrange(0, i - start)),
        decreases n - i,
    {
        let b: u8 = s.get_ascii(i);
        let ghost prefix = digits.subrange(0, i - start + 1);
        assert(prefix.drop_last() =~= digits.subrange(0, i - start));
        assert(prefix.last() == s@[i as int]);
        if b < 48u8 || b > 57u8 {
            return None;
        }
        let d: u64 = (b - 48u8) as u64;
        let next: Option<u64> = match value.checked_mul(10) {
            Some(tens) => tens.checked_add(d),
            None => None,
        };
        match next {
            Some(v) => {
                value = v;
            },
            None => {
                proof {
                    lemma_decimal_value_prefix(digits, i - start + 1);
                }
                return None;
            },
        }
        i += 1;
    }
    assert(digits.subrange(0, i - start) =~= digits);
    Some(value)
}

/// `String::push` of the standard library appends the given character to the
/// end of the string and changes nothing else.
pub assume_specification[ String::push ](s: &mut String, ch: char)
    ensures
        final(s)@ == old(s)@.push(ch),
;

/// Appends the numeral of `n` to `out`.
pub fn push_decimal(out: &mut String, n: u64)
    ensures
        final(out)@ == old(out)@ + decimal_digits(n as nat),
    decreases n,
{
    if n >= 10 {
        push_decimal(out, n / 10);
    }
    let d: u8 = (n % 10) as u8;
    out.push((48u8 + d) as char);
}

/// The numeral of `n`.
pub fn decimal_string(n: u64) -> (s: String)
    ensures
        s@ == decimal_digits(n as nat),
{
    let mut s = String::new();
    push_decimal(&mut s, n);
    s
}

} // verus!
