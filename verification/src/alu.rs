use vstd::prelude::*;

verus! {

/// Eight-bit addition: the sum modulo 256, and whether the true sum exceeds
/// 255.
pub fn add_with_carry(a: u8, b: u8) -> (r: (u8, bool))
    ensures
        r.0 == (a + b) % 256,
        r.1 == (a + b > 255),
{
    (a.wrapping_add(b), a as u16 + b as u16 > 255)
}

/// Eight-bit subtraction: the difference modulo 256, and whether it needed
/// no borrow.
pub fn sub_with_borrow(a: u8, b: u8) -> (r: (u8, bool))
    ensures
        r.0 == (a - b) % 256,
        r.1 == (a >= b),
{
    (a.wrapping_sub(b), a >= b)
}

/// A shift right by one place: the half, and whether a set bit fell off.
pub fn shift_right(value: u8) -> (r: (u8, bool))
    ensures
        r.0 == value / 2,
        r.1 == (value % 2 == 1),
{
    assert(value >> 1 == value / 2 && (value & 1 == 1) == (value % 2 == 1)) by (bit_vector);
    (value >> 1, value & 1 == 1)
}

/// A shift left by one place: the double modulo 256, and whether a set bit
/// fell off.
pub fn shift_left(value: u8) -> (r: (u8, bool))
    ensures
        r.0 == (value * 2) % 256,
        r.1 == (value >= 128),
{
    assert(value << 1 == (value * 2) % 256 && (value & 0x80 != 0) == (value >= 128))
        by (bit_vector);
    (value << 1, value & 0x80 != 0)
}

/// The three decimal digits of a byte: hundreds, tens and ones.
pub fn decimal_digits(value: u8) -> (r: (u8, u8, u8))
    ensures
        r.0 == value / 100,
        r.1 == (value / 10) % 10,
        r.2 == value % 10,
        value == r.0 * 100 + r.1 * 10 + r.2,
{
    (value / 100, (value / 10) % 10, value % 10)
}

} // verus!
