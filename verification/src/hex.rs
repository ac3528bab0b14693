//! Uppercase hexadecimal rendering of the bit fields of an instruction word.
//!
//! Operands are rendered zero-padded to their field's nibble width: addresses
//! to three digits, immediate bytes to two, register indices and sizes to one.

use vstd::prelude::*;

verus! {

/// The uppercase hexadecimal digit for a nibble value. Values of 15 and
/// above all map to 'F'; callers only apply it below 16.
pub open spec fn spec_hex_digit(n: u16) -> char {
    if n == 0x0 {
        '0'
    } else if n == 0x1 {
        '1'
    } else if n == 0x2 {
        '2'
    } else if n == 0x3 {
        '3'
    } else if n == 0x4 {
        '4'
    } else if n == 0x5 {
        '5'
    } else if n == 0x6 {
        '6'
    } else if n == 0x7 {
        '7'
    } else if n == 0x8 {
        '8'
    } else if n == 0x9 {
        '9'
    } else if n == 0xA {
        'A'
    } else if n == 0xB {
        'B'
    } else if n == 0xC {
        'C'
    } else if n == 0xD {
        'D'
    } else if n == 0xE {
        'E'
    } else {
        'F'
    }
}

/// One hex digit: a nibble-sized field such as a register index.
pub open spec fn spec_hex1(n: u16) -> Seq<char> {
    seq![spec_hex_digit(n)]
}

/// Two hex digits: an immediate byte, high nibble first.
pub open spec fn spec_hex2(n: u16) -> Seq<char> {
    seq![spec_hex_digit(n >> 4), spec_hex_digit(n & 0xF)]
}

/// Three hex digits: a 12-bit address, high nibble first.
pub open spec fn spec_hex3(n: u16) -> Seq<char> {
    seq![spec_hex_digit(n >> 8), spec_hex_digit((n >> 4) & 0xF), spec_hex_digit(n & 0xF)]
}

/// Four hex digits: a whole instruction word, high nibble first.
pub open spec fn spec_hex4(n: u16) -> Seq<char> {
    seq![
        spec_hex_digit(n >> 12),
        spec_hex_digit((n >> 8) & 0xF),
        spec_hex_digit((n >> 4) & 0xF),
        spec_hex_digit(n & 0xF),
    ]
}

/// Render one nibble as its uppercase hexadecimal digit.
pub fn hex1(n: u16) -> (r: &'static str)
    requires
        n < 16,
    ensures
        r@ == spec_hex1(n),
{
    proof {
        reveal_strlit("0");
        reveal_strlit("1");
        reveal_strlit("2");
        reveal_strlit("3");
        reveal_strlit("4");
        reveal_strlit("5");
        reveal_strlit("6");
        reveal_strlit("7");
        reveal_strlit("8");
        reveal_strlit("9");
        reveal_strlit("A");
        reveal_strlit("B");
        reveal_strlit("C");
        reveal_strlit("D");
        reveal_strlit("E");
        reveal_strlit("F");
    }
    let r: &'static str = if n == 0x0 {
        "0"
    } else if n == 0x1 {
        "1"
    } else if n == 0x2 {
        "2"
    } else if n == 0x3 {
        "3"
    } else if n == 0x4 {
        "4"
    } else if n == 0x5 {
        "5"
    } else if n == 0x6 {
        "6"
    } else if n == 0x7 {
        "7"
    } else if n == 0x8 {
        "8"
    } else if n == 0x9 {
        "9"
    } else if n == 0xA {
        "A"
    } else if n == 0xB {
        "B"
    } else if n == 0xC {
        "C"
    } else if n == 0xD {
        "D"
    } else if n == 0xE {
        "E"
    } else {
        "F"
    };
    assert(r@ =~= spec_hex1(n));
    r
}

/// Render a byte-sized field as two uppercase hexadecimal digits.
pub fn hex2(n: u16) -> (r: String)
    requires
        n < 256,
    ensures
        r@ == spec_hex2(n),
{
    assert(n >> 4 < 16 && n & 0xF < 16) by (bit_vector)
        requires
            n < 256,
    ;
    let mut r = String::from_str(hex1(n >> 4));
    r.append(hex1(n & 0xF));
    assert(r@ =~= spec_hex2(n));
    r
}

/// Render a 12-bit address as three uppercase hexadecimal digits.
pub fn hex3(n: u16) -> (r: String)
    requires
        n < 4096,
    ensures
        r@ == spec_hex3(n),
{
    assert(n >> 8 < 16 && (n >> 4) & 0xF < 16 && n & 0xF < 16) by (bit_vector)
        requires
            n < 4096,
    ;
    let mut r = String::from_str(hex1(n >> 8));
    r.append(hex1((n >> 4) & 0xF));
    r.append(hex1(n & 0xF));
    assert(r@ =~= spec_hex3(n));
    r
}

/// Render a whole word as four uppercase hexadecimal digits.
pub fn hex4(n: u16) -> (r: String)
    ensures
        r@ == spec_hex4(n),
{
    assert(n >> 12 < 16 && (n >> 8) & 0xF < 16 && (n >> 4) & 0xF < 16 && n & 0xF < 16)
        by (bit_vector);
    let mut r = String::from_str(hex1(n >> 12));
    r.append(hex1((n >> 8) & 0xF));
    r.append(hex1((n >> 4) & 0xF));
    r.append(hex1(n & 0xF));
    assert(r@ =~= spec_hex4(n));
    r
}

} // verus!
