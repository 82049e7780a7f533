//! Integers as they cross the boundary.
//!
//! WebAssembly has one 32-bit integer type and leaves its sign to each
//! operation. The interpreter hands such a value over as an `i32`; an
//! offset into guest memory is the same 32 bits read as unsigned.

use vstd::prelude::*;

verus! {

/// The 32 bits of `value`, read as an unsigned number.
pub open spec fn unsigned(value: i32) -> u32 {
    if value >= 0 {
        value as u32
    } else {
        (value + 0x1_0000_0000) as u32
    }
}

/// The 32 bits of `value`, read as a signed number.
pub open spec fn signed(value: u32) -> i32 {
    if value <= i32::MAX {
        value as i32
    } else {
        (value - 0x1_0000_0000) as i32
    }
}

/// `value` widened to 64 bits with its sign, then read as unsigned: a
/// negative amount becomes a huge one.
pub open spec fn sign_extended(value: i32) -> u64 {
    if value >= 0 {
        value as u64
    } else {
        (value + 0x1_0000_0000_0000_0000) as u64
    }
}

/// Reads a value from the guest as an offset into its memory.
pub fn to_unsigned(value: i32) -> (offset: u32)
    ensures
        offset == unsigned(value),
{
    if value >= 0 {
        value as u32
    } else {
        (value as i64 + 0x1_0000_0000) as u32
    }
}

/// Puts an offset into the form in which the guest receives it.
pub fn to_signed(offset: u32) -> (value: i32)
    ensures
        value == signed(offset),
{
    if offset <= 0x7fff_ffff {
        offset as i32
    } else {
        (offset as i64 - 0x1_0000_0000) as i32
    }
}

/// Widens an amount from the guest as the interpreter's cast does.
pub fn to_sign_extended(value: i32) -> (amount: u64)
    ensures
        amount == sign_extended(value),
{
    if value >= 0 {
        value as u64
    } else {
        (value as i128 + 0x1_0000_0000_0000_0000) as u64
    }
}

/// The two readings of 32 bits undo each other.
pub proof fn lemma_sign_round_trip(value: i32, offset: u32)
    ensures
        signed(unsigned(value)) == value,
        unsigned(signed(offset)) == offset,
        unsigned(value) == 0 <==> value == 0,
{
}

} // verus!
