//! Numbers as text: lower-case hexadecimal and decimal.

use vstd::prelude::*;
use vstd::string::StringExecFns;

verus! {

/// The hexadecimal digit of a number below 16.
pub open spec fn hex_digit(n: u8) -> Seq<char> {
    match n {
        0 => "0"@,
        1 => "1"@,
        2 => "2"@,
        3 => "3"@,
        4 => "4"@,
        5 => "5"@,
        6 => "6"@,
        7 => "7"@,
        8 => "8"@,
        9 => "9"@,
        10 => "a"@,
        11 => "b"@,
        12 => "c"@,
        13 => "d"@,
        14 => "e"@,
        _ => "f"@,
    }
}

/// A byte as two hexadecimal digits.
pub open spec fn hex_u8(value: u8) -> Seq<char> {
    hex_digit(value / 16) + hex_digit(value % 16)
}

/// A word as four hexadecimal digits.
pub open spec fn hex_u16(value: u16) -> Seq<char> {
    hex_u8((value / 256) as u8) + hex_u8((value % 256) as u8)
}

/// The hexadecimal digit of a number below 16.
pub fn hex_digit_text(n: u8) -> (digit: &'static str)
    ensures
        digit@ == hex_digit(n),
{
    match n {
        0 => "0",
        1 => "1",
        2 => "2",
        3 => "3",
        4 => "4",
        5 => "5",
        6 => "6",
        7 => "7",
        8 => "8",
        9 => "9",
        10 => "a",
        11 => "b",
        12 => "c",
        13 => "d",
        14 => "e",
        _ => "f",
    }
}

/// Appends a byte as two hexadecimal digits.
pub fn push_hex_u8(text: &mut String, value: u8)
    ensures
        final(text)@ == old(text)@ + hex_u8(value),
{
    text.append(hex_digit_text(value / 16));
    text.append(hex_digit_text(value % 16));
    assert(text@ =~= old(text)@ + hex_u8(value));
}

/// Appends a word as four hexadecimal digits.
pub fn push_hex_u16(text: &mut String, value: u16)
    ensures
        final(text)@ == old(text)@ + hex_u16(value),
{
    push_hex_u8(text, (value / 256) as u8);
    push_hex_u8(text, (value % 256) as u8);
    assert(text@ =~= old(text)@ + hex_u16(value));
}

/// The decimal digit of a number below 10.
pub open spec fn decimal_digit(n: nat) -> Seq<char> {
    hex_digit((n % 10) as u8)
}

/// A number in decimal, without leading zeros.
pub open spec fn decimal(n: nat) -> Seq<char>
    decreases n,
{
    if n < 10 {
        decimal_digit(n)
    } else {
        decimal(n / 10) + decimal_digit(n % 10)
    }
}

/// Appends a number in decimal.
pub fn push_decimal(text: &mut String, n: usize)
    ensures
        final(text)@ == old(text)@ + decimal(n as nat),
    decreases n,
{
    if n >= 10 {
        push_decimal(text, n / 10);
    }
    text.append(hex_digit_text((n % 10) as u8));
    assert(text@ =~= old(text)@ + decimal(n as nat));
}

/// The lowest `count` bits of a number, the highest of them first.
pub open spec fn bits(value: u8, count: nat) -> Seq<char>
    decreases count,
{
    if count == 0 {
        Seq::empty()
    } else {
        bits(value / 2, (count - 1) as nat) + hex_digit(value % 2)
    }
}

/// The eight bits of a byte, the highest first.
pub open spec fn binary_u8(value: u8) -> Seq<char> {
    bits(value, 8)
}

/// Appends the lowest `count` bits of a number, the highest of them
/// first.
pub fn push_bits(text: &mut String, value: u8, count: u8)
    ensures
        final(text)@ == old(text)@ + bits(value, count as nat),
    decreases count,
{
    if count > 0 {
        push_bits(text, value / 2, count - 1);
        text.append(hex_digit_text(value % 2));
    }
    assert(text@ =~= old(text)@ + bits(value, count as nat));
}

/// Appends the eight bits of a byte, the highest first.
pub fn push_binary_u8(text: &mut String, value: u8)
    ensures
        final(text)@ == old(text)@ + binary_u8(value),
{
    push_bits(text, value, 8);
}

} // verus!
