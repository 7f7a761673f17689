//! Numeric coercion: every fixed-width integer type read as a double.
//!
//! The engines take observations as binary64 bit patterns; these functions
//! turn the integer element types into that shape.  The narrower types widen
//! exactly to 64 bits in verified code, so only the two 64-bit conversions
//! themselves are trusted.  Values beyond 2^53 in magnitude round to the
//! nearest representable double, which is accepted.

use vstd::prelude::*;

use crate::ieee::{from_u64_bits, from_i64_bits, from_u64, from_i64};

verus! {

/// The double nearest to an unsigned 64-bit observation, as its bit pattern.
pub fn bits_of_u64(x: u64) -> (r: u64)
    ensures
        r == from_u64_bits(x),
{
    from_u64(x)
}

/// The double nearest to a signed 64-bit observation, as its bit pattern.
pub fn bits_of_i64(x: i64) -> (r: u64)
    ensures
        r == from_i64_bits(x),
{
    from_i64(x)
}

/// An unsigned size read as a double.
pub fn bits_of_usize(x: usize) -> (r: u64)
    ensures
        r == from_u64_bits(x as u64),
{
    from_u64(x as u64)
}

/// A signed size read as a double.
pub fn bits_of_isize(x: isize) -> (r: u64)
    ensures
        r == from_i64_bits(x as i64),
{
    from_i64(x as i64)
}

/// An unsigned 8-bit observation read as a double (exactly).
pub fn bits_of_u8(x: u8) -> (r: u64)
    ensures
        r == from_u64_bits(x as u64),
{
    from_u64(x as u64)
}

/// An unsigned 16-bit observation read as a double (exactly).
pub fn bits_of_u16(x: u16) -> (r: u64)
    ensures
        r == from_u64_bits(x as u64),
{
    from_u64(x as u64)
}

/// An unsigned 32-bit observation read as a double (exactly).
pub fn bits_of_u32(x: u32) -> (r: u64)
    ensures
        r == from_u64_bits(x as u64),
{
    from_u64(x as u64)
}

/// A signed 8-bit observation read as a double (exactly).
pub fn bits_of_i8(x: i8) -> (r: u64)
    ensures
        r == from_i64_bits(x as i64),
{
    from_i64(x as i64)
}

/// A signed 16-bit observation read as a double (exactly).
pub fn bits_of_i16(x: i16) -> (r: u64)
    ensures
        r == from_i64_bits(x as i64),
{
    from_i64(x as i64)
}

/// A signed 32-bit observation read as a double (exactly).
pub fn bits_of_i32(x: i32) -> (r: u64)
    ensures
        r == from_i64_bits(x as i64),
{
    from_i64(x as i64)
}

} // verus!
