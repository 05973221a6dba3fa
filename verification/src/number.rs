//! Decimal numerals: reading a signed integer from text and writing one out.

use crate::text::{chars_of, text_of};
use vstd::prelude::*;

verus! {

/// Whether `c` is one of the ten decimal digits `0` to `9`.
pub open spec fn is_digit(c: char) -> bool {
    '0' <= c <= '9'
}

/// The number that the digit `c` stands for.
pub open spec fn digit_value(c: char) -> int {
    c as int - 48
}

/// The digit that stands for `d`, for `d` from 0 to 9.
pub open spec fn digit_char(d: int) -> char {
    (d + 48) as char
}

/// Whether `s` is a numeral without a sign: at least one character, all of them
/// digits.
pub open spec fn is_numeral(s: Seq<char>) -> bool {
    s.len() > 0 && forall|i: int| 0 <= i < s.len() ==> is_digit(#[trigger] s[i])
}

/// The number that a string of digits stands for, read in base ten.
pub open spec fn numeral_value(s: Seq<char>) -> int
    decreases s.len(),
{
    if s.len() == 0 {
        0
    } else {
        numeral_value(s.drop_last()) * 10 + digit_value(s.last())
    }
}

/// The integer that `s` stands for: a numeral, with at most one sign `+` or `-`
/// before it. `None` for any other text, the empty one and a lone sign included.
pub open spec fn parsed_int(s: Seq<char>) -> Option<int> {
    if s.len() > 0 && s[0] == '-' {
        if is_numeral(s.skip(1)) {
            Some(-numeral_value(s.skip(1)))
        } else {
            None
        }
    } else if s.len() > 0 && s[0] == '+' {
        if is_numeral(s.skip(1)) {
            Some(numeral_value(s.skip(1)))
        } else {
            None
        }
    } else if is_numeral(s) {
        Some(numeral_value(s))
    } else {
        None
    }
}

/// The 32-bit integer that `s` stands for: `None` where `s` is no integer or the
/// integer does not fit.
pub open spec fn parsed_i32(s: Seq<char>) -> Option<i32> {
    match parsed_int(s) {
        Some(v) => if i32::MIN <= v <= i32::MAX {
            Some(v as i32)
        } else {
            None
        },
        None => None,
    }
}

/// The digits of `n` in base ten, without leading zeros.
pub open spec fn numeral_of(n: nat) -> Seq<char>
    decreases n,
{
    if n < 10 {
        seq![digit_char(n as int)]
    } else {
        numeral_of(n / 10).push(digit_char(n as int % 10))
    }
}

/// `n` written in base ten, with a `-` before it where it is negative.
pub open spec fn decimal(n: int) -> Seq<char> {
    if n < 0 {
        seq!['-'] + numeral_of((-n) as nat)
    } else {
        numeral_of(n as nat)
    }
}

/// What `numeral_of` writes is a numeral, and it stands for the number written.
pub proof fn lemma_numeral_of(n: nat)
    ensures
        is_numeral(numeral_of(n)),
        numeral_value(numeral_of(n)) == n,
    decreases n,
{
    if n < 10 {
        let s = numeral_of(n);
        assert(s.drop_last() =~= Seq::<char>::empty());
        assert(numeral_value(s.drop_last()) == 0);
    } else {
        lemma_numeral_of(n / 10);
        let s = numeral_of(n);
        assert(s.drop_last() =~= numeral_of(n / 10));
    }
}

/// Reading what was written gives the number back: every integer is the value
/// of its own decimal form.
pub proof fn lemma_parse_decimal(n: int)
    ensures
        parsed_int(decimal(n)) == Some(n),
{
    if n < 0 {
        lemma_numeral_of((-n) as nat);
        assert(decimal(n).skip(1) =~= numeral_of((-n) as nat));
    } else {
        lemma_numeral_of(n as nat);
        assert(is_digit(numeral_of(n as nat)[0]));
    }
}

/// Appends the digits of `n` to `out`.
fn push_numeral(out: &mut Vec<char>, n: u64)
    ensures
        final(out)@ == old(out)@ + numeral_of(n as nat),
    decreases n,
{
    if n >= 10 {
        push_numeral(out, n / 10);
    }
    let d: u8 = (n % 10) as u8;
    out.push((48u8 + d) as char);
    assert(final(out)@ =~= old(out)@ + numeral_of(n as nat));
}

/// `n` written in base ten.
pub fn format_int(n: i64) -> (out: String)
    ensures
        out@ == decimal(n as int),
{
    let mut chars: Vec<char> = Vec::new();
    if n < 0 {
        chars.push('-');
        let magnitude: u64 = (-(n + 1)) as u64 + 1;
        push_numeral(&mut chars, magnitude);
    } else {
        push_numeral(&mut chars, n as u64);
    }
    assert(chars@ =~= decimal(n as int));
    let out = text_of(&chars, 0, chars.len());
    assert(chars@.subrange(0, chars.len() as int) =~= chars@);
    out
}

/// Reads a 32-bit integer: an optional sign, then decimal digits and nothing
/// else. Returns `None` for any other text and for a number that does not fit.
pub fn parse_i32(s: &str) -> (r: Option<i32>)
    ensures
        r == parsed_i32(s@),
{
    let chars = chars_of(s);
    let len: usize = chars.len();
    let mut negative: bool = false;
    let mut start: usize = 0;
    if len > 0 && chars[0] == '-' {
        negative = true;
        start = 1;
    } else if len > 0 && chars[0] == '+' {
        start = 1;
    }
    if start == len {
        assert(chars@.skip(start as int).len() == 0);
        return None;
    }
    let ghost digits = chars@.skip(start as int);
    let ghost sign: int = if negative { -1 } else { 1 };
    assert(chars@.skip(0) =~= chars@);
    assert(parsed_int(s@) == if is_numeral(digits) {
        Some(sign * numeral_value(digits))
    } else {
        None
    });
    let mut value: i64 = 0;
    let mut too_big: bool = false;
    let mut i: usize = start;
    while i < len
        invariant
            start <= i <= len,
            len == chars.len(),
            digits == chars@.skip(start as int),
            sign == if negative { -1int } else { 1int },
            parsed_int(s@) == if is_numeral(digits) {
                Some(sign * numeral_value(digits))
            } else {
                None
            },
            forall|k: int| 0 <= k < i - start ==> is_digit(#[trigger] digits[k]),
            0 <= value <= 2147483648,
            !too_big ==> value == numeral_value(digits.take(i - start)),
            too_big ==> numeral_value(digits.take(i - start)) > 2147483648,
        decreases len - i,
    {
        let c = chars[i];
        if !('0' <= c && c <= '9') {
            assert(!is_digit(digits[i - start]));
            return None;
        }
        proof {
            let head = digits.take(i - start + 1);
            assert(head.drop_last() =~= digits.take(i - start));
            assert(head.last() == c);
        }
        if !too_big {
            let d: i64 = (c as u8 - 48u8) as i64;
            let next: i64 = value * 10 + d;
            if next > 2147483648 {
                too_big = true;
            } else {
                value = next;
            }
        }
        i += 1;
    }
    assert(digits.take(len - start) =~= digits);
    assert(is_numeral(digits));
    if too_big {
        None
    } else if negative {
        Some((-value) as i32)
    } else if value > 2147483647 {
        None
    } else {
        Some(value as i32)
    }
}

} // verus!
