//! Numbers as text: upper-case hexadecimal and decimal, appended to a
//! `String` one character at a time.

use vstd::prelude::*;

verus! {

/// The character for one hexadecimal digit.
pub open spec fn hex_digit(n: int) -> char {
    if n == 0 {
        '0'
    } else if n == 1 {
        '1'
    } else if n == 2 {
        '2'
    } else if n == 3 {
        '3'
    } else if n == 4 {
        '4'
    } else if n == 5 {
        '5'
    } else if n == 6 {
        '6'
    } else if n == 7 {
        '7'
    } else if n == 8 {
        '8'
    } else if n == 9 {
        '9'
    } else if n == 10 {
        'A'
    } else if n == 11 {
        'B'
    } else if n == 12 {
        'C'
    } else if n == 13 {
        'D'
    } else if n == 14 {
        'E'
    } else {
        'F'
    }
}

/// A number in hexadecimal, without leading zeros.
pub open spec fn hex_number(n: nat) -> Seq<char>
    decreases n,
{
    if n < 16 {
        seq![hex_digit(n as int)]
    } else {
        hex_number(n / 16).push(hex_digit((n % 16) as int))
    }
}

/// A number in decimal, without leading zeros.
pub open spec fn decimal_number(n: nat) -> Seq<char>
    decreases n,
{
    if n < 10 {
        seq![hex_digit(n as int)]
    } else {
        decimal_number(n / 10).push(hex_digit((n % 10) as int))
    }
}

/// A byte as exactly two hexadecimal digits.
pub open spec fn hex_byte(byte: u8) -> Seq<char> {
    seq![hex_digit(byte as int / 16), hex_digit(byte as int % 16)]
}

/// A word as exactly four hexadecimal digits.
pub open spec fn hex_word(word: u16) -> Seq<char> {
    hex_byte((word / 256) as u8) + hex_byte((word % 256) as u8)
}

/// A number in hexadecimal, filled with zeros on the left to four digits
/// and longer where it needs more.
pub open spec fn hex_offset(n: nat) -> Seq<char> {
    if n < 0x10 {
        seq!['0', '0', '0'] + hex_number(n)
    } else if n < 0x100 {
        seq!['0', '0'] + hex_number(n)
    } else if n < 0x1000 {
        seq!['0'] + hex_number(n)
    } else {
        hex_number(n)
    }
}

/// A byte read as a signed number, in decimal, with its sign: `+` above
/// zero, `-` below, none for zero.
pub open spec fn signed_decimal(byte: u8) -> Seq<char> {
    if byte == 0 {
        seq!['0']
    } else if byte < 128 {
        seq!['+'] + decimal_number(byte as nat)
    } else {
        seq!['-'] + decimal_number((256 - byte) as nat)
    }
}

/// Appends one character. This is `String::push`, whose documentation says
/// that it appends the given character to the end of the string.
#[verifier::external_body]
pub(crate) fn push_char(out: &mut String, c: char)
    ensures
        final(out)@ == old(out)@.push(c),
{
    out.push(c)
}

fn digit_char(n: u8) -> (c: char)
    requires
        n < 16,
    ensures
        c == hex_digit(n as int),
{
    match n {
        0 => '0',
        1 => '1',
        2 => '2',
        3 => '3',
        4 => '4',
        5 => '5',
        6 => '6',
        7 => '7',
        8 => '8',
        9 => '9',
        10 => 'A',
        11 => 'B',
        12 => 'C',
        13 => 'D',
        14 => 'E',
        _ => 'F',
    }
}

/// Appends a number in hexadecimal, without leading zeros.
pub fn push_hex_number(out: &mut String, n: usize)
    ensures
        final(out)@ == old(out)@ + hex_number(n as nat),
    decreases n,
{
    if n >= 16 {
        push_hex_number(out, n / 16);
    }
    push_char(out, digit_char((n % 16) as u8));
    assert(out@ =~= old(out)@ + hex_number(n as nat));
}

/// Appends a number in decimal, without leading zeros.
pub fn push_decimal_number(out: &mut String, n: u32)
    ensures
        final(out)@ == old(out)@ + decimal_number(n as nat),
    decreases n,
{
    if n >= 10 {
        push_decimal_number(out, n / 10);
    }
    push_char(out, digit_char((n % 10) as u8));
    assert(out@ =~= old(out)@ + decimal_number(n as nat));
}

/// Appends a byte as two hexadecimal digits.
pub fn push_hex_byte(out: &mut String, byte: u8)
    ensures
        final(out)@ == old(out)@ + hex_byte(byte),
{
    push_char(out, digit_char(byte / 16));
    push_char(out, digit_char(byte % 16));
    assert(out@ =~= old(out)@ + hex_byte(byte));
}

/// Appends a word as four hexadecimal digits.
pub fn push_hex_word(out: &mut String, word: u16)
    ensures
        final(out)@ == old(out)@ + hex_word(word),
{
    push_hex_byte(out, (word / 256) as u8);
    push_hex_byte(out, (word % 256) as u8);
    assert(out@ =~= old(out)@ + hex_word(word));
}

/// Appends a number in hexadecimal, at least four digits wide.
pub fn push_hex_offset(out: &mut String, n: usize)
    ensures
        final(out)@ == old(out)@ + hex_offset(n as nat),
{
    if n < 0x10 {
        push_char(out, '0');
    }
    if n < 0x100 {
        push_char(out, '0');
    }
    if n < 0x1000 {
        push_char(out, '0');
    }
    push_hex_number(out, n);
    assert(out@ =~= old(out)@ + hex_offset(n as nat));
}

/// Appends a byte as a signed decimal number with its sign.
pub fn push_signed_decimal(out: &mut String, byte: u8)
    ensures
        final(out)@ == old(out)@ + signed_decimal(byte),
{
    if byte == 0 {
        push_char(out, '0');
    } else if byte < 128 {
        push_char(out, '+');
        push_decimal_number(out, byte as u32);
    } else {
        push_char(out, '-');
        push_decimal_number(out, 256 - byte as u32);
    }
    assert(out@ =~= old(out)@ + signed_decimal(byte));
}


/// `count` spaces.
pub open spec fn spaces(count: nat) -> Seq<char> {
    Seq::new(count, |i: int| ' ')
}

/// A text filled with spaces on the right to `width` characters, and
/// unchanged where it is as long or longer.
pub open spec fn padded(text: Seq<char>, width: nat) -> Seq<char> {
    if text.len() < width {
        text + spaces((width - text.len()) as nat)
    } else {
        text
    }
}

/// Appends `count` spaces.
pub fn push_spaces(out: &mut String, count: usize)
    ensures
        final(out)@ == old(out)@ + spaces(count as nat),
{
    let mut pushed: usize = 0;
    while pushed < count
        invariant
            pushed <= count,
            out@ == old(out)@ + spaces(pushed as nat),
        decreases count - pushed,
    {
        push_char(out, ' ');
        pushed += 1;
        assert(out@ =~= old(out)@ + spaces(pushed as nat));
    }
}

/// Appends a text, filled with spaces on the right to `width` characters.
pub fn push_padded(out: &mut String, text: &str, width: usize)
    ensures
        final(out)@ == old(out)@ + padded(text@, width as nat),
{
    let length = text.unicode_len();
    out.append(text);
    if length < width {
        push_spaces(out, width - length);
    }
    assert(out@ =~= old(out)@ + padded(text@, width as nat));
}

} // verus!
