//! Eight-bit arithmetic with the flag each operation reports.

use crate::semantics::flag;
use vstd::prelude::*;

verus! {

/// Wrapping sum of `a` and `b`, and the carry flag: 1 if the sum exceeds
/// 255, else 0.
pub fn add_carry(a: u8, b: u8) -> (out: (u8, u8))
    ensures
        out.0 == (a + b) % 0x100,
        out.1 == flag(a + b > 0xFF),
{
    let carry: u8 = if a as u16 + b as u16 > 0xFF {
        1
    } else {
        0
    };
    (a.wrapping_add(b), carry)
}

/// Wrapping difference `a - b`, and the no-borrow flag: 1 if `a >= b`,
/// else 0.
pub fn sub_borrow(a: u8, b: u8) -> (out: (u8, u8))
    ensures
        out.0 == (a - b) % 0x100,
        out.1 == flag(a >= b),
{
    let no_borrow: u8 = if a >= b {
        1
    } else {
        0
    };
    (a.wrapping_sub(b), no_borrow)
}

/// `a` shifted right by one bit, and the bit shifted out.
pub fn shift_right(a: u8) -> (out: (u8, u8))
    ensures
        out.0 == a / 2,
        out.1 == a % 2,
{
    assert(a >> 1 == a / 2) by (bit_vector);
    assert(a & 0x1 == a % 2) by (bit_vector);
    (a >> 1, a & 0x1)
}

/// `a` shifted left by one bit within eight bits, and the bit shifted out.
pub fn shift_left(a: u8) -> (out: (u8, u8))
    ensures
        out.0 == (a * 2) % 0x100,
        out.1 == a / 0x80,
{
    assert(a << 1 == (a * 2) % 0x100) by (bit_vector);
    assert((a & 0x80) >> 7 == a / 0x80) by (bit_vector);
    (a << 1, (a & 0x80) >> 7)
}

} // verus!
