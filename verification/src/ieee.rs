//! IEEE-754 binary64 values as bit patterns.
//!
//! A double is carried as the `u64` holding its bit pattern.  Classification,
//! comparison and absolute value are pure bit logic, implemented and verified
//! here.  Rounded arithmetic (add, subtract, multiply, divide, square root)
//! and the casts between integers and doubles are deterministic functions of
//! the operand bits; each is given a name by an uninterpreted spec function
//! and carried out, bit-exactly to the IEEE-754 operation, by the software
//! float implementation of `rustc_apfloat` (and `ieee_apsqrt` for the square
//! root) behind a trusted wrapper.

use vstd::prelude::*;

use rustc_apfloat::Float;

verus! {

/// Bit pattern of positive zero.
pub const ZERO_BITS: u64 = 0;

/// Bit pattern of 1.0.
pub const ONE_BITS: u64 = 0x3FF0_0000_0000_0000;

/// Bit pattern of 2.0.
pub const TWO_BITS: u64 = 0x4000_0000_0000_0000;

/// Bit pattern of 3.0.
pub const THREE_BITS: u64 = 0x4008_0000_0000_0000;

/// The canonical quiet NaN: sign clear, exponent all ones, quiet bit set,
/// payload zero.  The software arithmetic below produces no other NaN from
/// NaN-free operands.
pub const QNAN_BITS: u64 = 0x7FF8_0000_0000_0000;

/// A NaN: all eleven exponent bits set and a non-zero fraction.
pub open spec fn is_nan_bits(x: u64) -> bool {
    (x >> 52) & 0x7FF == 0x7FF && x & 0x000F_FFFF_FFFF_FFFF != 0
}

/// If the value is a NaN at all, it is the canonical quiet NaN.  The trusted
/// arithmetic below preserves this, which lets callers reason about the one
/// case where an IEEE operation is not symmetric in its operands: two NaN
/// operands with different payloads.
pub open spec fn nan_canonical(x: u64) -> bool {
    is_nan_bits(x) ==> x == QNAN_BITS
}

/// IEEE-754 `<` on doubles, as bit logic: false if either operand is a NaN;
/// the two zeros are equal; otherwise negative sorts below positive, and
/// within one sign the magnitude bits order the values.
pub open spec fn spec_lt(a: u64, b: u64) -> bool {
    if is_nan_bits(a) || is_nan_bits(b) {
        false
    } else {
        let ma = a & 0x7FFF_FFFF_FFFF_FFFF;
        let mb = b & 0x7FFF_FFFF_FFFF_FFFF;
        if ma == 0 && mb == 0 {
            false
        } else if (a >> 63) != (b >> 63) {
            a >> 63 == 1
        } else if a >> 63 == 0 {
            ma < mb
        } else {
            mb < ma
        }
    }
}

/// IEEE-754 `>` on doubles.
pub open spec fn spec_gt(a: u64, b: u64) -> bool {
    spec_lt(b, a)
}

/// Absolute value of a double: the sign bit cleared.  This is exact IEEE-754
/// `abs`, with no rounding and no special case.
pub open spec fn spec_abs(x: u64) -> u64 {
    x & 0x7FFF_FFFF_FFFF_FFFF
}

/// The strict order is asymmetric.
pub proof fn lemma_lt_asym(a: u64, b: u64)
    requires
        spec_lt(a, b),
    ensures
        !spec_lt(b, a),
{
}

/// For a non-NaN `b`: `b <= a` and `a < c` give `b < c`.
pub proof fn lemma_le_lt_trans(a: u64, b: u64, c: u64)
    requires
        !is_nan_bits(b),
        !spec_lt(a, b),
        spec_lt(a, c),
    ensures
        spec_lt(b, c),
{
    assert(a >> 63 == 0 || a >> 63 == 1) by (bit_vector);
    assert(b >> 63 == 0 || b >> 63 == 1) by (bit_vector);
    assert(c >> 63 == 0 || c >> 63 == 1) by (bit_vector);
}

/// For a non-NaN `c`: `a < b` and `b <= c` give `a < c`.
pub proof fn lemma_lt_le_trans(a: u64, b: u64, c: u64)
    requires
        !is_nan_bits(c),
        spec_lt(a, b),
        !spec_lt(c, b),
    ensures
        spec_lt(a, c),
{
    assert(a >> 63 == 0 || a >> 63 == 1) by (bit_vector);
    assert(b >> 63 == 0 || b >> 63 == 1) by (bit_vector);
    assert(c >> 63 == 0 || c >> 63 == 1) by (bit_vector);
}

pub fn is_nan64(x: u64) -> (r: bool)
    ensures
        r == is_nan_bits(x),
{
    (x >> 52) & 0x7FF == 0x7FF && x & 0x000F_FFFF_FFFF_FFFF != 0
}

pub fn lt64(a: u64, b: u64) -> (r: bool)
    ensures
        r == spec_lt(a, b),
{
    if is_nan64(a) || is_nan64(b) {
        false
    } else {
        let ma = a & 0x7FFF_FFFF_FFFF_FFFF;
        let mb = b & 0x7FFF_FFFF_FFFF_FFFF;
        if ma == 0 && mb == 0 {
            false
        } else if (a >> 63) != (b >> 63) {
            a >> 63 == 1
        } else if a >> 63 == 0 {
            ma < mb
        } else {
            mb < ma
        }
    }
}

pub fn gt64(a: u64, b: u64) -> (r: bool)
    ensures
        r == spec_gt(a, b),
{
    lt64(b, a)
}

pub fn abs64(x: u64) -> (r: u64)
    ensures
        r == spec_abs(x),
{
    x & 0x7FFF_FFFF_FFFF_FFFF
}

/// The rounded IEEE-754 binary64 sum of two bit patterns.
pub uninterp spec fn add_bits(a: u64, b: u64) -> u64;

/// The rounded IEEE-754 binary64 difference of two bit patterns.
pub uninterp spec fn sub_bits(a: u64, b: u64) -> u64;

/// The rounded IEEE-754 binary64 product of two bit patterns.
pub uninterp spec fn mul_bits(a: u64, b: u64) -> u64;

/// The rounded IEEE-754 binary64 quotient of two bit patterns.
pub uninterp spec fn div_bits(a: u64, b: u64) -> u64;

/// The correctly rounded IEEE-754 binary64 square root of a bit pattern.
pub uninterp spec fn sqrt_bits(a: u64) -> u64;

/// The IEEE-754 binary64 nearest to an unsigned 64-bit integer.
pub uninterp spec fn from_u64_bits(n: u64) -> u64;

/// The IEEE-754 binary64 nearest to a signed 64-bit integer.
pub uninterp spec fn from_i64_bits(n: i64) -> u64;

/// A double truncated toward zero to an `i32`, saturating at the type's
/// bounds, with NaN taken to zero.
pub uninterp spec fn trunc_i32_bits(x: u64) -> i32;

/// Relies on `rustc_apfloat::ieee::Double::add_r`: IEEE-754 binary64
/// addition, round to nearest, ties to even.  A NaN result from NaN-free
/// canonical operands is always the canonical quiet NaN.
#[verifier::external_body]
pub(crate) fn add64(a: u64, b: u64) -> (r: u64)
    ensures
        r == add_bits(a, b),
        nan_canonical(a) && nan_canonical(b) ==> nan_canonical(r),
{
    let x = rustc_apfloat::ieee::Double::from_bits(a as u128);
    let y = rustc_apfloat::ieee::Double::from_bits(b as u128);
    x.add_r(y, rustc_apfloat::Round::NearestTiesToEven).value.to_bits() as u64
}

/// Relies on `rustc_apfloat::ieee::Double::sub_r`: IEEE-754 binary64
/// subtraction, round to nearest, ties to even, preserving canonical NaNs
/// as `add_r` does.
#[verifier::external_body]
pub(crate) fn sub64(a: u64, b: u64) -> (r: u64)
    ensures
        r == sub_bits(a, b),
        nan_canonical(a) && nan_canonical(b) ==> nan_canonical(r),
{
    let x = rustc_apfloat::ieee::Double::from_bits(a as u128);
    let y = rustc_apfloat::ieee::Double::from_bits(b as u128);
    x.sub_r(y, rustc_apfloat::Round::NearestTiesToEven).value.to_bits() as u64
}

/// Relies on `rustc_apfloat::ieee::Double::mul_r`: IEEE-754 binary64
/// multiplication, round to nearest, ties to even.  It is symmetric in its
/// operands except when both are NaNs with different bit patterns (the first
/// payload then propagates), and a NaN result from NaN-free canonical
/// operands is the canonical quiet NaN.
#[verifier::external_body]
pub(crate) fn mul64(a: u64, b: u64) -> (r: u64)
    ensures
        r == mul_bits(a, b),
        a == b || !is_nan_bits(a) || !is_nan_bits(b) ==> r == mul_bits(b, a),
        nan_canonical(a) && nan_canonical(b) ==> nan_canonical(r),
{
    let x = rustc_apfloat::ieee::Double::from_bits(a as u128);
    let y = rustc_apfloat::ieee::Double::from_bits(b as u128);
    x.mul_r(y, rustc_apfloat::Round::NearestTiesToEven).value.to_bits() as u64
}

/// Relies on `rustc_apfloat::ieee::Double::div_r`: IEEE-754 binary64
/// division, round to nearest, ties to even, preserving canonical NaNs
/// (zero over zero and infinity over infinity give the canonical quiet NaN).
#[verifier::external_body]
pub(crate) fn div64(a: u64, b: u64) -> (r: u64)
    ensures
        r == div_bits(a, b),
        nan_canonical(a) && nan_canonical(b) ==> nan_canonical(r),
{
    let x = rustc_apfloat::ieee::Double::from_bits(a as u128);
    let y = rustc_apfloat::ieee::Double::from_bits(b as u128);
    x.div_r(y, rustc_apfloat::Round::NearestTiesToEven).value.to_bits() as u64
}

/// Relies on `ieee_apsqrt::sqrt_accurate`: the correctly rounded IEEE-754
/// binary64 square root (round to nearest, ties to even) on bit patterns.
/// Every NaN it returns is the canonical quiet NaN.
#[verifier::external_body]
pub(crate) fn sqrt64(a: u64) -> (r: u64)
    ensures
        r == sqrt_bits(a),
        nan_canonical(r),
{
    ieee_apsqrt::sqrt_accurate(a, rustc_apfloat::Round::NearestTiesToEven).0.value
}

/// Relies on `rustc_apfloat::ieee::Double::from_u128`: conversion of an
/// unsigned integer to the nearest binary64 (ties to even).  The result is
/// never a NaN.
#[verifier::external_body]
pub(crate) fn from_u64(n: u64) -> (r: u64)
    ensures
        r == from_u64_bits(n),
        !is_nan_bits(r),
{
    rustc_apfloat::ieee::Double::from_u128(n as u128).value.to_bits() as u64
}

/// Relies on `rustc_apfloat::ieee::Double::from_i128`: conversion of a
/// signed integer to the nearest binary64 (ties to even).  The result is
/// never a NaN.
#[verifier::external_body]
pub(crate) fn from_i64(n: i64) -> (r: u64)
    ensures
        r == from_i64_bits(n),
        !is_nan_bits(r),
{
    rustc_apfloat::ieee::Double::from_i128(n as i128).value.to_bits() as u64
}

/// Relies on `rustc_apfloat::ieee::Double::to_i128`: conversion of a double
/// toward zero to a 32-bit signed integer, saturating at the bounds, NaN to
/// zero.
#[verifier::external_body]
pub(crate) fn to_i32_trunc(x: u64) -> (r: i32)
    ensures
        r == trunc_i32_bits(x),
{
    let v = rustc_apfloat::ieee::Double::from_bits(x as u128);
    rustc_apfloat::Float::to_i128(v, 32).value as i32
}

} // verus!
