//! JSON numbers as whole numbers.

use crate::text::chars_of;
use vstd::prelude::*;

verus! {

/// Whether `c` is a decimal digit.
pub open spec fn is_digit(c: char) -> bool {
    '0' <= c <= '9'
}

/// The number that the decimal digit `c` stands for.
pub open spec fn digit_value(c: char) -> int {
    c as int - '0' as int
}

/// The number that a text of decimal digits stands for.
pub open spec fn digits_value(s: Seq<char>) -> int
    decreases s.len(),
{
    if s.len() == 0 {
        0
    } else {
        digits_value(s.drop_last()) * 10 + digit_value(s.last())
    }
}

/// Whether `s` is a text of one or more decimal digits.
pub open spec fn all_digits(s: Seq<char>) -> bool {
    s.len() > 0 && forall|i: int| 0 <= i < s.len() ==> is_digit(#[trigger] s[i])
}

/// The whole number that `s` writes: decimal digits, with a minus sign in
/// front for a negative number. `None` for any other text.
pub open spec fn integer_of(s: Seq<char>) -> Option<int> {
    if all_digits(s) {
        Some(digits_value(s))
    } else if s.len() > 0 && s[0] == '-' && all_digits(s.skip(1)) {
        Some(-digits_value(s.skip(1)))
    } else {
        None
    }
}

/// The whole number that `s` writes, where it fits in an `i32`.
pub open spec fn i32_of(s: Seq<char>) -> Option<i32> {
    match integer_of(s) {
        Some(n) => if i32::MIN <= n <= i32::MAX {
            Some(n as i32)
        } else {
            None
        },
        None => None,
    }
}

/// The number that a decimal digit stands for; `None` for another character.
pub fn digit_of(c: char) -> (out: Option<u8>)
    ensures
        match out {
            Some(d) => is_digit(c) && d == digit_value(c),
            None => !is_digit(c),
        },
{
    match c {
        '0' => Some(0),
        '1' => Some(1),
        '2' => Some(2),
        '3' => Some(3),
        '4' => Some(4),
        '5' => Some(5),
        '6' => Some(6),
        '7' => Some(7),
        '8' => Some(8),
        '9' => Some(9),
        _ => None,
    }
}

/// Reads a whole number that fits in an `i32` from its decimal text: digits,
/// with a minus sign in front for a negative number. Any other text, a
/// fraction or an exponent among them, gives `None`.
pub fn parse_i32(text: &str) -> (out: Option<i32>)
    ensures
        out == i32_of(text@),
{
    let chars = chars_of(text);
    let negative = chars.len() > 0 && chars[0] == '-';
    let start: usize = if negative {
        1
    } else {
        0
    };
    if start >= chars.len() {
        return None;
    }
    let ghost digits = chars@.skip(start as int);
    let mut acc: i64 = 0;
    let mut too_large = false;
    let mut i: usize = start;
    assert(digits.take(0) == Seq::<char>::empty());
    while i < chars.len()
        invariant
            start <= i <= chars.len(),
            chars@ == text@,
            digits == chars@.skip(start as int),
            start == if negative { 1usize } else { 0usize },
            negative == (chars@.len() > 0 && chars@[0] == '-'),
            forall|j: int| 0 <= j < i - start ==> is_digit(#[trigger] digits[j]),
            0 <= acc <= 2147483648,
            !too_large ==> acc == digits_value(digits.take(i - start)),
            too_large ==> digits_value(digits.take(i - start)) > 2147483648,
        decreases chars.len() - i,
    {
        let digit = match digit_of(chars[i]) {
            Some(d) => d,
            None => {
                assert(!is_digit(digits[i - start]));
                assert(!all_digits(digits));
                assert(negative ==> !is_digit(chars@[0]));
                assert(!negative ==> digits =~= chars@);
                assert(!all_digits(chars@));
                return None;
            },
        };
        assert(digits.take(i - start + 1).drop_last() == digits.take(i - start));
        assert(digits.take(i - start + 1).last() == chars@[i as int]);
        if !too_large {
            let next = acc * 10 + digit as i64;
            if next > 2147483648 {
                too_large = true;
            } else {
                acc = next;
            }
        }
        i = i + 1;
    }
    assert(digits.take(digits.len() as int) == digits);
    assert(all_digits(digits));
    assert(negative ==> !is_digit(chars@[0]));
    assert(!negative ==> digits == chars@);
    if too_large {
        None
    } else if negative {
        Some((0 - acc) as i32)
    } else if acc <= 2147483647 {
        Some(acc as i32)
    } else {
        None
    }
}

} // verus!
