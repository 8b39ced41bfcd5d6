//! Whole numbers written in decimal.

use vstd::prelude::*;
use vstd::string::StringExecFns;

verus! {

/// The character of a decimal digit.
pub open spec fn digit_char(digit: int) -> char {
    if digit == 0 {
        '0'
    } else if digit == 1 {
        '1'
    } else if digit == 2 {
        '2'
    } else if digit == 3 {
        '3'
    } else if digit == 4 {
        '4'
    } else if digit == 5 {
        '5'
    } else if digit == 6 {
        '6'
    } else if digit == 7 {
        '7'
    } else if digit == 8 {
        '8'
    } else {
        '9'
    }
}

/// The decimal digits of `n`, most significant first, without leading zeros.
pub open spec fn decimal_digits(n: nat) -> Seq<char>
    decreases n,
{
    if n < 10 {
        seq![digit_char(n as int)]
    } else {
        decimal_digits(n / 10).push(digit_char((n % 10) as int))
    }
}

/// `x` written in decimal, with a minus sign where it is negative.
pub open spec fn decimal(x: int) -> Seq<char> {
    if x < 0 {
        seq!['-'] + decimal_digits((-x) as nat)
    } else {
        decimal_digits(x as nat)
    }
}

/// The digits that are still to be written for `n`: none for zero.
spec fn leading_digits(n: nat) -> Seq<char> {
    if n == 0 {
        Seq::empty()
    } else {
        decimal_digits(n)
    }
}

/// The characters of `digits` in reverse order.
spec fn written_digits(digits: Seq<u8>) -> Seq<char> {
    Seq::new(digits.len(), |i: int| digit_char(digits[digits.len() - 1 - i] as int))
}

/// The one-character string of a digit.
fn digit_str(digit: u8) -> (text: &'static str)
    requires
        digit < 10,
    ensures
        text@ == seq![digit_char(digit as int)],
{
    proof {
        reveal_strlit("0");
        reveal_strlit("1");
        reveal_strlit("2");
        reveal_strlit("3");
        reveal_strlit("4");
        reveal_strlit("5");
        reveal_strlit("6");
        reveal_strlit("7");
        reveal_strlit("8");
        reveal_strlit("9");
    }
    let text = match digit {
        0 => "0",
        1 => "1",
        2 => "2",
        3 => "3",
        4 => "4",
        5 => "5",
        6 => "6",
        7 => "7",
        8 => "8",
        _ => "9",
    };
    assert(text@ =~= seq![digit_char(digit as int)]);
    text
}

/// Writes `n` in decimal at the end of `text`.
pub fn append_decimal(text: &mut String, n: u32)
    ensures
        final(text)@ == old(text)@ + decimal_digits(n as nat),
{
    let mut left: u32 = n / 10;
    let mut digits: Vec<u8> = Vec::new();
    digits.push((n % 10) as u8);
    assert(decimal_digits(n as nat) =~= leading_digits(left as nat) + written_digits(digits@));
    while left > 0
        invariant
            digits@.len() >= 1,
            forall|i: int| 0 <= i < digits@.len() ==> digits@[i] < 10,
            decimal_digits(n as nat) == leading_digits(left as nat) + written_digits(digits@),
        decreases left,
    {
        let ghost before = digits@;
        let ghost was = left;
        digits.push((left % 10) as u8);
        left = left / 10;
        proof {
            assert(written_digits(digits@) =~= seq![digit_char((was % 10) as int)]
                + written_digits(before));
            assert(leading_digits(was as nat) =~= leading_digits(left as nat) + seq![
                digit_char((was % 10) as int),
            ]);
        }
    }
    let ghost start = text@;
    let mut i: usize = digits.len();
    while i > 0
        invariant
            i <= digits@.len(),
            forall|k: int| 0 <= k < digits@.len() ==> digits@[k] < 10,
            text@ == start + written_digits(digits@).subrange(0, digits@.len() - i),
        decreases i,
    {
        i -= 1;
        text.append(digit_str(digits[i]));
        proof {
            let all = written_digits(digits@);
            assert(all.subrange(0, digits@.len() - i) =~= all.subrange(
                0,
                digits@.len() - i - 1,
            ).push(all[digits@.len() - i - 1]));
            assert(text@ =~= start + all.subrange(0, digits@.len() - i));
        }
    }
    assert(written_digits(digits@).subrange(0, digits@.len() as int) =~= written_digits(digits@));
    assert(leading_digits(0) + written_digits(digits@) =~= written_digits(digits@));
}

/// `n` written in decimal.
pub fn unsigned_decimal_string(n: u32) -> (text: String)
    ensures
        text@ == decimal_digits(n as nat),
{
    proof {
        reveal_strlit("");
    }
    let mut text = String::from_str("");
    append_decimal(&mut text, n);
    assert(text@ =~= decimal_digits(n as nat));
    text
}

/// `x` written in decimal, with a minus sign where it is negative.
pub fn decimal_string(x: i32) -> (text: String)
    ensures
        text@ == decimal(x as int),
{
    proof {
        reveal_strlit("-");
    }
    if x < 0 {
        let mut text = String::from_str("-");
        append_decimal(&mut text, (-(x as i64)) as u32);
        text
    } else {
        unsigned_decimal_string(x as u32)
    }
}

} // verus!
