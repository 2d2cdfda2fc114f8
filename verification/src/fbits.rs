//! IEEE-754 single-precision arithmetic on raw bit patterns.
//!
//! Pixel samples are carried through the library as the bit patterns (`u32`)
//! of IEEE-754 single-precision values. The arithmetic itself is done in
//! software by the `const_soft_float` crate (a port of the compiler-builtins
//! and libm routines, correctly rounded per IEEE-754, round to nearest, ties
//! to even) and by `rustc_apfloat` for integer conversion. Every operation is
//! a pure function of the argument bit patterns; each result is named by an
//! uninterpreted spec function, so the contracts above this module speak of
//! the exact value the arithmetic produces.
//!
//! The bit pattern `0u32` is positive zero.
use vstd::prelude::*;
use const_soft_float::soft_f32::SoftF32;
use rustc_apfloat::Float;
use rustc_apfloat::ieee::Single;

verus! {

/// Bit pattern of the IEEE-754 single-precision sum of the values with bit
/// patterns `a` and `b`, rounded to nearest, ties to even.
pub uninterp spec fn add_bits(a: u32, b: u32) -> u32;

/// Bit pattern of the IEEE-754 single-precision difference `a - b`,
/// rounded to nearest, ties to even.
pub uninterp spec fn sub_bits(a: u32, b: u32) -> u32;

/// Bit pattern of the IEEE-754 single-precision product of `a` and `b`,
/// rounded to nearest, ties to even.
pub uninterp spec fn mul_bits(a: u32, b: u32) -> u32;

/// Bit pattern of the IEEE-754 single-precision quotient `a / b`,
/// rounded to nearest, ties to even.
pub uninterp spec fn div_bits(a: u32, b: u32) -> u32;

/// Bit pattern of the IEEE-754 single-precision square root of `a`,
/// rounded to nearest, ties to even.
pub uninterp spec fn sqrt_bits(a: u32) -> u32;

/// The IEEE-754 quiet less-than predicate on the values with bit patterns
/// `a` and `b`; false whenever either value is NaN.
pub uninterp spec fn lt_bits(a: u32, b: u32) -> bool;

/// Bit pattern of the IEEE-754 single-precision value nearest to the
/// unsigned integer `v` (ties to even).
pub uninterp spec fn float_of_u32(v: u32) -> u32;

/// Relies on `const_soft_float::soft_f32::SoftF32::add`: correctly rounded
/// IEEE-754 addition, a pure function of the two bit patterns.
#[verifier::external_body]
pub(crate) fn add_f32(a: u32, b: u32) -> (r: u32)
    ensures
        r == add_bits(a, b),
{
    SoftF32::from_bits(a).add(SoftF32::from_bits(b)).to_bits()
}

/// Relies on `const_soft_float::soft_f32::SoftF32::sub`: correctly rounded
/// IEEE-754 subtraction, a pure function of the two bit patterns.
#[verifier::external_body]
pub(crate) fn sub_f32(a: u32, b: u32) -> (r: u32)
    ensures
        r == sub_bits(a, b),
{
    SoftF32::from_bits(a).sub(SoftF32::from_bits(b)).to_bits()
}

/// Relies on `const_soft_float::soft_f32::SoftF32::mul`: correctly rounded
/// IEEE-754 multiplication, a pure function of the two bit patterns.
#[verifier::external_body]
pub(crate) fn mul_f32(a: u32, b: u32) -> (r: u32)
    ensures
        r == mul_bits(a, b),
{
    SoftF32::from_bits(a).mul(SoftF32::from_bits(b)).to_bits()
}

/// Relies on `const_soft_float::soft_f32::SoftF32::div`: correctly rounded
/// IEEE-754 division, a pure function of the two bit patterns.
#[verifier::external_body]
pub(crate) fn div_f32(a: u32, b: u32) -> (r: u32)
    ensures
        r == div_bits(a, b),
{
    SoftF32::from_bits(a).div(SoftF32::from_bits(b)).to_bits()
}

/// Relies on `const_soft_float::soft_f32::SoftF32::sqrt` (the libm `sqrtf`
/// routine): correctly rounded IEEE-754 square root, a pure function of the
/// bit pattern.
#[verifier::external_body]
pub(crate) fn sqrt_f32(a: u32) -> (r: u32)
    ensures
        r == sqrt_bits(a),
{
    SoftF32::from_bits(a).sqrt().to_bits()
}

/// Relies on `const_soft_float::soft_f32::SoftF32::cmp` (the
/// compiler-builtins comparison): the IEEE-754 quiet ordering, which is
/// `None` when either operand is NaN, so the strict less-than here is false
/// on NaN. The remaining clauses are facts of that order which IEEE-754
/// plainly gives: no value is less than itself (so a true comparison means
/// the bit patterns differ), less-than is asymmetric, and it is transitive
/// (a true comparison never involves a NaN, so every value above `b` is
/// also above `a`).
#[verifier::external_body]
pub(crate) fn lt_f32(a: u32, b: u32) -> (r: bool)
    ensures
        r == lt_bits(a, b),
        r ==> a != b,
        r ==> !lt_bits(b, a),
        r ==> (forall|c: u32| lt_bits(b, c) ==> lt_bits(a, c)),
{
    matches!(
        SoftF32::from_bits(a).cmp(SoftF32::from_bits(b)),
        Some(core::cmp::Ordering::Less)
    )
}

/// Relies on `rustc_apfloat::ieee::Single::from_u128`: conversion of an
/// unsigned integer to the nearest IEEE-754 single-precision value (ties to
/// even), a pure function of the integer.
#[verifier::external_body]
pub(crate) fn u32_to_f32(v: u32) -> (r: u32)
    ensures
        r == float_of_u32(v),
{
    Single::from_u128(v as u128).value.to_bits() as u32
}

} // verus!
