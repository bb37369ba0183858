//! Decimal and hexadecimal text of numbers.

use vstd::prelude::*;
use vstd::string::StringExecFns;

verus! {

/// Decimal digit character of `digit`.
pub open spec fn digit_char(digit: int) -> char {
    ('0' as int + digit) as char
}

/// Lower-case hexadecimal digit character of `digit`.
pub open spec fn hex_digit_char(digit: int) -> char {
    if digit < 10 {
        ('0' as int + digit) as char
    } else {
        ('a' as int + digit - 10) as char
    }
}

/// Decimal digits of a natural number, without leading zeros.
pub open spec fn decimal_digits(value: nat) -> Seq<char>
    decreases value,
{
    if value < 10 {
        seq![digit_char(value as int)]
    } else {
        decimal_digits(value / 10) + seq![digit_char(value as int % 10)]
    }
}

/// Decimal text of an integer, as Rust's `Display` writes it.
pub open spec fn decimal_text(value: int) -> Seq<char> {
    if value < 0 {
        seq!['-'] + decimal_digits((-value) as nat)
    } else {
        decimal_digits(value as nat)
    }
}

/// Decimal text of a natural number padded with zeros to at least two characters, as `{:02}`
/// writes it.
pub open spec fn two_digit_text(value: nat) -> Seq<char> {
    if value < 10 {
        seq!['0', digit_char(value as int)]
    } else {
        decimal_digits(value)
    }
}

/// Lower-case hexadecimal text of bytes, two characters per byte, as `{:02x}` writes each.
pub open spec fn hex_text(bytes: Seq<u8>) -> Seq<char>
    decreases bytes.len(),
{
    if bytes.len() == 0 {
        seq![]
    } else {
        hex_text(bytes.drop_last()) + seq![
            hex_digit_char(bytes.last() as int / 16),
            hex_digit_char(bytes.last() as int % 16),
        ]
    }
}

/// One-character text of the digit (0 to 15).
fn digit_str(digit: u64) -> (text: &'static str)
    requires
        digit < 16,
    ensures
        text@ == seq![hex_digit_char(digit as int)],
{
    proof {
        reveal_strlit("0");
        reveal_strlit("1");
        reveal_strlit("2");
        reveal_strlit("3");
        reveal_strlit("4");
        reveal_strlit("5");
        reveal_strlit("6");
        reveal_strlit("7");
        reveal_strlit("8");
        reveal_strlit("9");
        reveal_strlit("a");
        reveal_strlit("b");
        reveal_strlit("c");
        reveal_strlit("d");
        reveal_strlit("e");
        reveal_strlit("f");
    }
    let text = match digit {
        0 => "0",
        1 => "1",
        2 => "2",
        3 => "3",
        4 => "4",
        5 => "5",
        6 => "6",
        7 => "7",
        8 => "8",
        9 => "9",
        10 => "a",
        11 => "b",
        12 => "c",
        13 => "d",
        14 => "e",
        _ => "f",
    };
    assert(text@ =~= seq![hex_digit_char(digit as int)]);
    text
}

/// Decimal digits of a natural number.
fn decimal_digits_of(value: u64) -> (text: String)
    ensures
        text@ == decimal_digits(value as nat),
    decreases value,
{
    if value < 10 {
        let text = String::from_str(digit_str(value));
        assert(text@ =~= decimal_digits(value as nat));
        text
    } else {
        let mut text = decimal_digits_of(value / 10);
        text.append(digit_str(value % 10));
        assert(text@ =~= decimal_digits(value as nat));
        text
    }
}

/// Decimal text of the integer.
pub fn decimal(value: i64) -> (text: String)
    ensures
        text@ == decimal_text(value as int),
{
    if value < 0 {
        let magnitude: u64 = if value == i64::MIN {
            0x8000_0000_0000_0000u64
        } else {
            (-value) as u64
        };
        let mut text = String::from_str("-");
        proof {
            reveal_strlit("-");
        }
        let digits = decimal_digits_of(magnitude);
        text.append(digits.as_str());
        assert(text@ =~= decimal_text(value as int));
        text
    } else {
        decimal_digits_of(value as u64)
    }
}

/// Decimal text of the number padded with zeros to at least two characters.
pub fn two_digits(value: u32) -> (text: String)
    ensures
        text@ == two_digit_text(value as nat),
{
    if value < 10 {
        let mut text = String::from_str("0");
        proof {
            reveal_strlit("0");
        }
        text.append(digit_str(value as u64));
        assert(text@ =~= two_digit_text(value as nat));
        text
    } else {
        decimal_digits_of(value as u64)
    }
}

/// Lower-case hexadecimal text of the bytes.
pub fn hex(bytes: &[u8]) -> (text: String)
    ensures
        text@ == hex_text(bytes@),
{
    let mut text = String::new();
    for i in 0..bytes.len()
        invariant
            text@ == hex_text(bytes@.take(i as int)),
    {
        let byte = bytes[i];
        text.append(digit_str((byte / 16) as u64));
        text.append(digit_str((byte % 16) as u64));
        assert(bytes@.take(i + 1).drop_last() =~= bytes@.take(i as int));
        assert(text@ =~= hex_text(bytes@.take(i + 1)));
    }
    assert(bytes@.take(bytes@.len() as int) =~= bytes@);
    text
}

/// Hexadecimal text has two characters per byte.
pub proof fn lemma_hex_text_len(bytes: Seq<u8>)
    ensures
        hex_text(bytes).len() == 2 * bytes.len(),
    decreases bytes.len(),
{
    if bytes.len() > 0 {
        lemma_hex_text_len(bytes.drop_last());
    }
}

} // verus!
