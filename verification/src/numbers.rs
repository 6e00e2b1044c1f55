//! Decimal numbers as text: reading a run of digits and writing a number
//! out, bare or padded to two digits.

use vstd::prelude::*;

verus! {

/// The character that stands for a digit below ten.
pub open spec fn digit_char(d: nat) -> char {
    if d == 0 {
        '0'
    } else if d == 1 {
        '1'
    } else if d == 2 {
        '2'
    } else if d == 3 {
        '3'
    } else if d == 4 {
        '4'
    } else if d == 5 {
        '5'
    } else if d == 6 {
        '6'
    } else if d == 7 {
        '7'
    } else if d == 8 {
        '8'
    } else {
        '9'
    }
}

/// The digit that a character stands for, if it is one of `0` to `9`.
pub open spec fn digit_value(c: char) -> Option<nat> {
    if c == '0' {
        Some(0)
    } else if c == '1' {
        Some(1)
    } else if c == '2' {
        Some(2)
    } else if c == '3' {
        Some(3)
    } else if c == '4' {
        Some(4)
    } else if c == '5' {
        Some(5)
    } else if c == '6' {
        Some(6)
    } else if c == '7' {
        Some(7)
    } else if c == '8' {
        Some(8)
    } else if c == '9' {
        Some(9)
    } else {
        None
    }
}

/// The decimal digits of a number, most significant first, without
/// leading zeros.
pub open spec fn decimal(n: nat) -> Seq<char>
    decreases n,
{
    if n < 10 {
        seq![digit_char(n)]
    } else {
        decimal(n / 10).push(digit_char(n % 10))
    }
}

/// The decimal digits of a number, with a leading zero where it has only
/// one digit. Longer numbers keep all their digits.
pub open spec fn two_digits(n: nat) -> Seq<char> {
    if n < 10 {
        seq!['0', digit_char(n)]
    } else {
        decimal(n)
    }
}

/// The number that a text spells in decimal digits. Empty text and text
/// with any other character spell no number.
pub open spec fn decimal_value(text: Seq<char>) -> Option<nat>
    decreases text.len(),
{
    if text.len() == 0 {
        None
    } else if text.len() == 1 {
        digit_value(text[0])
    } else {
        match (decimal_value(text.drop_last()), digit_value(text.last())) {
            (Some(high), Some(low)) => Some(high * 10 + low),
            _ => None,
        }
    }
}

/// The number that a text spells, where it fits in 32 bits.
pub open spec fn parsed(text: Seq<char>) -> Option<u32> {
    match decimal_value(text) {
        Some(value) => if value <= u32::MAX {
            Some(value as u32)
        } else {
            None
        },
        None => None,
    }
}

fn digit_of(d: u32) -> (c: char)
    requires
        d < 10,
    ensures
        c == digit_char(d as nat),
{
    if d == 0 {
        '0'
    } else if d == 1 {
        '1'
    } else if d == 2 {
        '2'
    } else if d == 3 {
        '3'
    } else if d == 4 {
        '4'
    } else if d == 5 {
        '5'
    } else if d == 6 {
        '6'
    } else if d == 7 {
        '7'
    } else if d == 8 {
        '8'
    } else {
        '9'
    }
}

fn value_of(c: char) -> (d: Option<u32>)
    ensures
        d matches Some(v) ==> v < 10,
        digit_value(c) == match d {
            Some(v) => Some(v as nat),
            None => None::<nat>,
        },
{
    if c == '0' {
        Some(0)
    } else if c == '1' {
        Some(1)
    } else if c == '2' {
        Some(2)
    } else if c == '3' {
        Some(3)
    } else if c == '4' {
        Some(4)
    } else if c == '5' {
        Some(5)
    } else if c == '6' {
        Some(6)
    } else if c == '7' {
        Some(7)
    } else if c == '8' {
        Some(8)
    } else if c == '9' {
        Some(9)
    } else {
        None
    }
}

/// Writes a number in decimal digits.
pub fn decimal_chars(n: u32) -> (digits: Vec<char>)
    ensures
        digits@ == decimal(n as nat),
    decreases n,
{
    if n < 10 {
        let mut digits: Vec<char> = Vec::new();
        digits.push(digit_of(n));
        digits
    } else {
        let mut digits = decimal_chars(n / 10);
        digits.push(digit_of(n % 10));
        digits
    }
}

/// Writes a number in at least two decimal digits.
pub fn two_digit_chars(n: u32) -> (digits: Vec<char>)
    ensures
        digits@ == two_digits(n as nat),
{
    if n < 10 {
        let mut digits: Vec<char> = Vec::new();
        digits.push('0');
        digits.push(digit_of(n));
        digits
    } else {
        decimal_chars(n)
    }
}

/// What `decimal` writes spells the number back.
pub proof fn lemma_decimal_spells(n: nat)
    ensures
        decimal(n).len() >= 1,
        decimal_value(decimal(n)) == Some(n),
    decreases n,
{
    if n >= 10 {
        lemma_decimal_spells(n / 10);
        assert(decimal(n).drop_last() == decimal(n / 10));
        assert(decimal(n).last() == digit_char(n % 10));
    }
}

/// Padding changes no number: what `two_digits` writes has two digits or
/// more, exactly two for a number below a hundred, and spells the number
/// back.
pub proof fn lemma_two_digits_spell(n: nat)
    ensures
        two_digits(n).len() >= 2,
        n < 100 ==> two_digits(n).len() == 2,
        decimal_value(two_digits(n)) == Some(n),
{
    lemma_decimal_spells(n);
    if n < 10 {
        assert(two_digits(n).drop_last() == seq!['0']);
        assert(decimal_value(seq!['0']) == Some(0nat));
    } else {
        lemma_decimal_spells(n / 10);
        if n < 100 {
            assert(decimal(n / 10).len() == 1);
        }
    }
}

/// Every text that begins a number spells a number itself, and no greater
/// one.
proof fn lemma_prefix_value(text: Seq<char>, k: int)
    requires
        1 <= k <= text.len(),
        decimal_value(text) is Some,
    ensures
        decimal_value(text.take(k)) is Some,
        decimal_value(text.take(k))->0 <= decimal_value(text)->0,
    decreases text.len(),
{
    if k == text.len() {
        assert(text.take(k) == text);
    } else {
        assert(text.drop_last().take(k) == text.take(k));
        lemma_prefix_value(text.drop_last(), k);
    }
}

/// Reads a number written in decimal digits. Text that spells no number,
/// or one that does not fit in 32 bits, gives `None`.
pub fn parse_number(chars: &Vec<char>) -> (number: Option<u32>)
    ensures
        number == parsed(chars@),
{
    let n = chars.len();
    if n == 0 {
        return None;
    }
    let mut value: u32 = 0;
    let mut i: usize = 0;
    while i < n
        invariant
            i <= n,
            n == chars.len(),
            n > 0,
            i > 0 ==> decimal_value(chars@.take(i as int)) == Some(value as nat),
            i == 0 ==> value == 0,
        decreases n - i,
    {
        let ghost before = chars@.take(i as int);
        let ghost now = chars@.take(i + 1);
        assert(now.drop_last() == before);
        assert(now.last() == chars@[i as int]);
        match value_of(chars[i]) {
            None => {
                proof {
                    assert(decimal_value(now) is None);
                    if decimal_value(chars@) is Some {
                        lemma_prefix_value(chars@, i + 1);
                    }
                }
                return None;
            },
            Some(low) => {
                let next = match value.checked_mul(10) {
                    Some(scaled) => scaled.checked_add(low),
                    None => None,
                };
                match next {
                    None => {
                        proof {
                            assert(decimal_value(now) == Some((value * 10 + low) as nat));
                            if decimal_value(chars@) is Some {
                                lemma_prefix_value(chars@, i + 1);
                            }
                        }
                        return None;
                    },
                    Some(sum) => {
                        assert(decimal_value(now) == Some(sum as nat));
                        value = sum;
                    },
                }
            },
        }
        i += 1;
    }
    assert(chars@.take(i as int) == chars@);
    Some(value)
}

} // verus!
