//! Building diagnostic text: hexadecimal digits and growing strings.

use vstd::prelude::*;

verus! {

/// `String::push` of the standard library: appends one character to the end
/// of the string and leaves what was there before it.
pub assume_specification[ String::push ](text: &mut String, ch: char)
    ensures
        final(text)@ == old(text)@.push(ch),
;

/// `String::push_str` of the standard library: appends the characters of
/// `tail`, in order, to the end of the string.
pub assume_specification[ String::push_str ](text: &mut String, tail: &str)
    ensures
        final(text)@ == old(text)@ + tail@,
;

/// The upper-case hexadecimal digit for `n`, which is below 16.
pub open spec fn hex_digit(n: int) -> char {
    if n == 0 {
        '0'
    } else if n == 1 {
        '1'
    } else if n == 2 {
        '2'
    } else if n == 3 {
        '3'
    } else if n == 4 {
        '4'
    } else if n == 5 {
        '5'
    } else if n == 6 {
        '6'
    } else if n == 7 {
        '7'
    } else if n == 8 {
        '8'
    } else if n == 9 {
        '9'
    } else if n == 10 {
        'A'
    } else if n == 11 {
        'B'
    } else if n == 12 {
        'C'
    } else if n == 13 {
        'D'
    } else if n == 14 {
        'E'
    } else {
        'F'
    }
}

/// `value` as two upper-case hexadecimal digits.
pub open spec fn hex2(value: int) -> Seq<char> {
    seq![hex_digit(value / 16 % 16), hex_digit(value % 16)]
}

/// `value` as four upper-case hexadecimal digits.
pub open spec fn hex4(value: int) -> Seq<char> {
    hex2(value / 256) + hex2(value % 256)
}

/// The upper-case hexadecimal digit for `n`.
pub fn digit(n: u8) -> (ch: char)
    requires
        n < 16,
    ensures
        ch == hex_digit(n as int),
{
    match n {
        0 => '0',
        1 => '1',
        2 => '2',
        3 => '3',
        4 => '4',
        5 => '5',
        6 => '6',
        7 => '7',
        8 => '8',
        9 => '9',
        10 => 'A',
        11 => 'B',
        12 => 'C',
        13 => 'D',
        14 => 'E',
        _ => 'F',
    }
}

/// Appends `value` as two hexadecimal digits.
pub fn push_hex2(text: &mut String, value: u8)
    ensures
        final(text)@ == old(text)@ + hex2(value as int),
{
    text.push(digit(value / 16));
    text.push(digit(value % 16));
    assert(text@ =~= old(text)@ + hex2(value as int));
}

/// Appends `value` as four hexadecimal digits.
pub fn push_hex4(text: &mut String, value: u16)
    ensures
        final(text)@ == old(text)@ + hex4(value as int),
{
    push_hex2(text, (value / 256) as u8);
    push_hex2(text, (value % 256) as u8);
    assert(text@ =~= old(text)@ + hex4(value as int));
}

} // verus!
