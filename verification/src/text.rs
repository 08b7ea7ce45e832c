//! Decimal text: what the digits of a number are, and which number a text
//! stands for.

use vstd::prelude::*;
use vstd::string::StringExecFns;

verus! {

/// Whether `c` is one of `0` to `9`.
pub open spec fn is_digit(c: char) -> bool {
    '0' <= c <= '9'
}

/// The character of the digit `d`.
pub open spec fn digit_char(d: nat) -> char
    recommends
        d < 10,
{
    (('0' as u8) + d) as char
}

/// The decimal digits of `n`, most significant first, without leading
/// zeros; `0` for zero.
pub open spec fn decimal(n: nat) -> Seq<char>
    decreases n,
{
    if n < 10 {
        seq![digit_char(n)]
    } else {
        decimal(n / 10).push(digit_char(n % 10))
    }
}

/// The decimal text of an integer: a `-` before the digits of a negative
/// one.
pub open spec fn signed_decimal(n: int) -> Seq<char> {
    if n < 0 {
        seq!['-'] + decimal((-n) as nat)
    } else {
        decimal(n as nat)
    }
}

/// The number that the digits in `text` spell, read left to right; a
/// character that is no digit is passed over.
pub open spec fn digits_value(text: Seq<char>) -> nat
    decreases text.len(),
{
    if text.len() == 0 {
        0
    } else if is_digit(text.last()) {
        (10 * digits_value(text.drop_last()) + (text.last() as nat - '0' as nat)) as nat
    } else {
        digits_value(text.drop_last())
    }
}

/// Whether every character of `text` is a digit.
pub open spec fn all_digits(text: Seq<char>) -> bool {
    forall|i: int| 0 <= i < text.len() ==> is_digit(#[trigger] text[i])
}

/// The integer that `text` stands for: an optional `+` or `-`, then one or
/// more digits and nothing else, with a value that a 64-bit signed integer
/// holds. Any other text stands for none.
pub open spec fn parsed_i64(text: Seq<char>) -> Option<i64> {
    let signed = text.len() > 0 && (text[0] == '+' || text[0] == '-');
    let digits = if signed {
        text.skip(1)
    } else {
        text
    };
    let value = if text.len() > 0 && text[0] == '-' {
        -(digits_value(digits) as int)
    } else {
        digits_value(digits) as int
    };
    if digits.len() > 0 && all_digits(digits) && i64::MIN <= value <= i64::MAX {
        Some(value as i64)
    } else {
        None
    }
}

/// The text of one digit.
pub fn digit_text(digit: u64) -> (text: &'static str)
    requires
        digit < 10,
    ensures
        text@ == seq![digit_char(digit as nat)],
{
    proof {
        reveal_strlit("0");
        reveal_strlit("1");
        reveal_strlit("2");
        reveal_strlit("3");
        reveal_strlit("4");
        reveal_strlit("5");
        reveal_strlit("6");
        reveal_strlit("7");
        reveal_strlit("8");
        reveal_strlit("9");
    }
    let text = if digit == 0 {
        "0"
    } else if digit == 1 {
        "1"
    } else if digit == 2 {
        "2"
    } else if digit == 3 {
        "3"
    } else if digit == 4 {
        "4"
    } else if digit == 5 {
        "5"
    } else if digit == 6 {
        "6"
    } else if digit == 7 {
        "7"
    } else if digit == 8 {
        "8"
    } else {
        "9"
    };
    assert(text@ =~= seq![digit_char(digit as nat)]);
    text
}

/// The decimal text of a natural number.
pub fn natural_text(number: u64) -> (text: String)
    ensures
        text@ == decimal(number as nat),
    decreases number,
{
    if number < 10 {
        String::from_str(digit_text(number))
    } else {
        let mut text = natural_text(number / 10);
        text.append(digit_text(number % 10));
        assert(text@ =~= decimal((number / 10) as nat).push(digit_char((number % 10) as nat)));
        text
    }
}

/// The decimal text of `number`.
pub fn integer_text(number: i64) -> (text: String)
    ensures
        text@ == signed_decimal(number as int),
{
    if number < 0 {
        let magnitude: u64 = (-(number as i128)) as u64;
        let mut text = String::from_str("-");
        proof {
            reveal_strlit("-");
        }
        text.append(natural_text(magnitude).as_str());
        assert(text@ =~= seq!['-'] + decimal((-number) as nat));
        text
    } else {
        natural_text(number as u64)
    }
}

/// A text spells at least what its beginning spells.
pub proof fn digits_value_grows(text: Seq<char>, length: int)
    requires
        0 <= length <= text.len(),
    ensures
        digits_value(text.take(length)) <= digits_value(text),
    decreases text.len(),
{
    if length == text.len() {
        assert(text.take(length) =~= text);
    } else {
        digits_value_grows(text.drop_last(), length);
        assert(text.drop_last().take(length) =~= text.take(length));
    }
}

/// Reads a 64-bit signed integer from decimal text: an optional `+` or
/// `-`, then one or more digits and nothing else.
pub fn parse_integer(text: &str) -> (value: Option<i64>)
    ensures
        value == parsed_i64(text@),
{
    let length = text.unicode_len();
    if length == 0 {
        return None;
    }
    let first = text.get_char(0);
    let negative = first == '-';
    let start: usize = if first == '+' || first == '-' {
        1
    } else {
        0
    };
    let ghost digits = text@.skip(start as int);
    if start == length {
        return None;
    }
    let limit: u64 = 9223372036854775808;
    let mut total: u64 = 0;
    let mut i: usize = start;
    assert(digits.take(0) =~= Seq::<char>::empty());
    while i < length
        invariant
            start <= i <= length,
            0 < length == text@.len(),
            negative == (text@[0] == '-'),
            start == (if text@[0] == '+' || text@[0] == '-' {
                1int
            } else {
                0int
            }),
            digits == text@.skip(start as int),
            limit == 9223372036854775808,
            total <= limit,
            total == digits_value(digits.take(i - start)),
            all_digits(digits.take(i - start)),
        decreases length - i,
    {
        let c = text.get_char(i);
        assert(c == digits[i - start]);
        assert(digits.take(i - start + 1).drop_last() =~= digits.take(i - start));
        if !(c >= '0' && c <= '9') {
            assert(!all_digits(digits));
            return None;
        }
        let digit: u64 = (c as u32 - '0' as u32) as u64;
        assert(digits.take(i - start + 1).last() == c);
        assert(digits_value(digits.take(i - start + 1)) == 10 * total + digit);
        if total > (limit - digit) / 10 {
            proof {
                digits_value_grows(digits, i - start + 1);
                assert(10 * total + digit > limit);
                assert(digits_value(digits) > limit);
                assert(text@.skip(0) =~= text@);
            }
            return None;
        }
        total = total * 10 + digit;
        i = i + 1;
    }
    assert(digits.take(i - start) =~= digits);
    assert(text@.skip(0) =~= text@);
    if negative {
        Some((-(total as i128)) as i64)
    } else if total < limit {
        Some(total as i64)
    } else {
        None
    }
}

/// Whether `wanted` occurs in `text`.
pub fn contains_char(text: &str, wanted: char) -> (found: bool)
    ensures
        found == text@.contains(wanted),
{
    let length = text.unicode_len();
    let mut i: usize = 0;
    while i < length
        invariant
            0 <= i <= length,
            length == text@.len(),
            forall|k: int| 0 <= k < i ==> text@[k] != wanted,
        decreases length - i,
    {
        if text.get_char(i) == wanted {
            return true;
        }
        i = i + 1;
    }
    false
}

/// The text, or the empty text where there is none.
pub open spec fn text_or_empty(text: Option<String>) -> Seq<char> {
    match text {
        Some(t) => t@,
        None => Seq::empty(),
    }
}

/// A copy of the text, or the empty text where there is none.
pub fn clone_or_empty(text: &Option<String>) -> (copy: String)
    ensures
        copy@ == text_or_empty(*text),
{
    match text {
        Some(t) => t.clone(),
        None => String::new(),
    }
}

/// Whether two texts are the same.
pub fn same_text(left: &str, right: &str) -> (same: bool)
    ensures
        same == (left@ == right@),
{
    String::from_str(left) == String::from_str(right)
}

} // verus!
