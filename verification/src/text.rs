//! Numbers as text: decimal, and hexadecimal in the form `0x0000002a`.

use vstd::prelude::*;
use vstd::string::{StrSliceExecFns, StringExecFns};

verus! {

/// The character that stands for a digit below sixteen, letters in lower case.
pub open spec fn digit_char(digit: int) -> char {
    if digit == 0 {
        '0'
    } else if digit == 1 {
        '1'
    } else if digit == 2 {
        '2'
    } else if digit == 3 {
        '3'
    } else if digit == 4 {
        '4'
    } else if digit == 5 {
        '5'
    } else if digit == 6 {
        '6'
    } else if digit == 7 {
        '7'
    } else if digit == 8 {
        '8'
    } else if digit == 9 {
        '9'
    } else if digit == 10 {
        'a'
    } else if digit == 11 {
        'b'
    } else if digit == 12 {
        'c'
    } else if digit == 13 {
        'd'
    } else if digit == 14 {
        'e'
    } else {
        'f'
    }
}

/// The hexadecimal digits of `value`, most significant first, without leading zeros.
pub open spec fn hex_digits(value: nat) -> Seq<char>
    decreases value,
{
    if value < 16 {
        seq![digit_char(value as int)]
    } else {
        hex_digits(value / 16).push(digit_char((value % 16) as int))
    }
}

/// The decimal digits of `value`, most significant first, without leading zeros.
pub open spec fn decimal_digits(value: nat) -> Seq<char>
    decreases value,
{
    if value < 10 {
        seq![digit_char(value as int)]
    } else {
        decimal_digits(value / 10).push(digit_char((value % 10) as int))
    }
}

/// `count` zeros; none for a count that is not positive.
pub open spec fn zeros(count: int) -> Seq<char> {
    Seq::new(
        if count > 0 {
            count as nat
        } else {
            0
        },
        |i: int| '0',
    )
}

/// `value` as `0x` and its hexadecimal digits, filled with zeros to at least eight digits.
pub open spec fn hex_text(value: nat) -> Seq<char> {
    "0x"@ + zeros(8 - hex_digits(value).len()) + hex_digits(value)
}

/// The text of one digit.
fn digit_str(digit: usize) -> (text: &'static str)
    requires
        digit < 16,
    ensures
        text@ == seq![digit_char(digit as int)],
{
    proof {
        reveal_strlit("0");
        reveal_strlit("1");
        reveal_strlit("2");
        reveal_strlit("3");
        reveal_strlit("4");
        reveal_strlit("5");
        reveal_strlit("6");
        reveal_strlit("7");
        reveal_strlit("8");
        reveal_strlit("9");
        reveal_strlit("a");
        reveal_strlit("b");
        reveal_strlit("c");
        reveal_strlit("d");
        reveal_strlit("e");
        reveal_strlit("f");
    }
    let text = match digit {
        0 => "0",
        1 => "1",
        2 => "2",
        3 => "3",
        4 => "4",
        5 => "5",
        6 => "6",
        7 => "7",
        8 => "8",
        9 => "9",
        10 => "a",
        11 => "b",
        12 => "c",
        13 => "d",
        14 => "e",
        _ => "f",
    };
    assert(text@ =~= seq![digit_char(digit as int)]);
    text
}

/// Writes `value` in hexadecimal without leading zeros.
pub fn to_hex_digits(value: usize) -> (text: String)
    ensures
        text@ == hex_digits(value as nat),
    decreases value,
{
    if value < 16 {
        String::from_str(digit_str(value))
    } else {
        let mut text = to_hex_digits(value / 16);
        text.append(digit_str(value % 16));
        assert(text@ =~= hex_digits(value as nat));
        text
    }
}

/// Writes `value` in decimal.
pub fn to_decimal_digits(value: usize) -> (text: String)
    ensures
        text@ == decimal_digits(value as nat),
    decreases value,
{
    if value < 10 {
        String::from_str(digit_str(value))
    } else {
        let mut text = to_decimal_digits(value / 10);
        text.append(digit_str(value % 10));
        assert(text@ =~= decimal_digits(value as nat));
        text
    }
}

/// Writes `value` as `0x` and at least eight hexadecimal digits.
pub fn to_hex_text(value: usize) -> (text: String)
    ensures
        text@ == hex_text(value as nat),
{
    let digits = to_hex_digits(value);
    let len = digits.as_str().unicode_len();
    let mut text = String::from_str("0x");
    let mut width = len;
    while width < 8
        invariant
            len == digits@.len(),
            len <= width,
            len < 8 ==> width <= 8,
            len >= 8 ==> width == len,
            text@ == "0x"@ + zeros(width - len),
        decreases 8 - width,
    {
        text.append("0");
        proof {
            reveal_strlit("0");
            assert(text@ =~= "0x"@ + zeros(width + 1 - len));
        }
        width = width + 1;
    }
    assert(zeros(width - len) =~= zeros(8 - len));
    text.append(digits.as_str());
    text
}

} // verus!
