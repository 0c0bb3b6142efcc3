//! Small pieces of text: digits and numbers as they appear in mnemonics and reports.

use vstd::prelude::*;
use vstd::string::*;

verus! {

/// The text of a hexadecimal digit, in upper case.
pub open spec fn digit_text(d: int) -> Seq<char> {
    if d == 0 {
        "0"@
    } else if d == 1 {
        "1"@
    } else if d == 2 {
        "2"@
    } else if d == 3 {
        "3"@
    } else if d == 4 {
        "4"@
    } else if d == 5 {
        "5"@
    } else if d == 6 {
        "6"@
    } else if d == 7 {
        "7"@
    } else if d == 8 {
        "8"@
    } else if d == 9 {
        "9"@
    } else if d == 10 {
        "A"@
    } else if d == 11 {
        "B"@
    } else if d == 12 {
        "C"@
    } else if d == 13 {
        "D"@
    } else if d == 14 {
        "E"@
    } else {
        "F"@
    }
}

/// The text of a number in decimal, without leading zeros.
pub open spec fn decimal_text(n: nat) -> Seq<char>
    decreases n,
{
    if n < 10 {
        digit_text(n as int)
    } else {
        decimal_text(n / 10) + digit_text((n % 10) as int)
    }
}

/// The text of a byte as two hexadecimal digits.
pub open spec fn hex_text8(value: u8) -> Seq<char> {
    digit_text(value as int / 16) + digit_text(value as int % 16)
}

/// The text of a word as four hexadecimal digits.
pub open spec fn hex_text16(value: u16) -> Seq<char> {
    hex_text8((value / 256) as u8) + hex_text8((value % 256) as u8)
}

/// The text of a hexadecimal digit, in upper case.
pub fn digit_str(d: u8) -> (text: &'static str)
    requires
        d < 16,
    ensures
        text@ == digit_text(d as int),
{
    match d {
        0 => "0",
        1 => "1",
        2 => "2",
        3 => "3",
        4 => "4",
        5 => "5",
        6 => "6",
        7 => "7",
        8 => "8",
        9 => "9",
        10 => "A",
        11 => "B",
        12 => "C",
        13 => "D",
        14 => "E",
        _ => "F",
    }
}

/// Appends a byte in decimal.
pub fn append_decimal(text: &mut String, value: u8)
    ensures
        final(text)@ == old(text)@ + decimal_text(value as nat),
{
    if value >= 100 {
        text.append(digit_str(value / 100));
        assert(decimal_text((value / 10) as nat) == digit_text(value as int / 100) + digit_text(
            value as int / 10 % 10,
        )) by {
            reveal_with_fuel(decimal_text, 2);
        }
    }
    if value >= 10 {
        text.append(digit_str(value / 10 % 10));
    }
    text.append(digit_str(value % 10));
    assert(final(text)@ =~= old(text)@ + decimal_text(value as nat)) by {
        reveal_with_fuel(decimal_text, 3);
    }
}

/// Appends a byte as two hexadecimal digits.
pub fn append_hex8(text: &mut String, value: u8)
    ensures
        final(text)@ == old(text)@ + hex_text8(value),
{
    text.append(digit_str(value / 16));
    text.append(digit_str(value % 16));
    assert(final(text)@ =~= old(text)@ + hex_text8(value));
}

/// Appends a word as four hexadecimal digits.
pub fn append_hex16(text: &mut String, value: u16)
    ensures
        final(text)@ == old(text)@ + hex_text16(value),
{
    append_hex8(text, (value / 256) as u8);
    append_hex8(text, (value % 256) as u8);
    assert(final(text)@ =~= old(text)@ + hex_text16(value));
}

} // verus!
