//! The scalar layer: every matrix entry is an IEEE-754 double carried as its
//! 64-bit pattern, and the arithmetic on those patterns is delegated to
//! bit-exact software floating-point routines. Each operation's result is
//! named by an uninterpreted spec function, so that the contracts of the
//! matrix and network operations can pin their results down exactly.

use vstd::prelude::*;

use const_soft_float::soft_f64::SoftF64;
use rand::Rng;

verus! {

/// Bit pattern of the double 1.0.
pub const ONE_BITS: u64 = 0x3FF0000000000000;

/// Bit pattern of the double 2.0.
pub const TWO_BITS: u64 = 0x4000000000000000;

/// Bit pattern of the sum of the doubles with bit patterns `a` and `b`.
pub uninterp spec fn add_bits(a: u64, b: u64) -> u64;

/// Bit pattern of the difference of the doubles with bit patterns `a` and `b`.
pub uninterp spec fn sub_bits(a: u64, b: u64) -> u64;

/// Bit pattern of the product of the doubles with bit patterns `a` and `b`.
pub uninterp spec fn mul_bits(a: u64, b: u64) -> u64;

/// Bit pattern of the quotient of the doubles with bit patterns `a` and `b`.
pub uninterp spec fn div_bits(a: u64, b: u64) -> u64;

/// Bit pattern of e raised to the double with bit pattern `a`.
pub uninterp spec fn exp_bits(a: u64) -> u64;

/// Bit pattern of the hyperbolic tangent of the double with bit pattern `a`.
pub uninterp spec fn tanh_bits(a: u64) -> u64;

/// Bit pattern of the larger of the double with bit pattern `a` and zero.
pub uninterp spec fn max_zero_bits(a: u64) -> u64;

/// Negating a double flips its sign bit and nothing else.
pub open spec fn neg_bits(a: u64) -> u64 {
    a ^ 0x8000000000000000u64
}

/// Holds exactly of the bit patterns of doubles in [0, 1): such a double is
/// positive (sign bit clear) and below 1.0, and on non-negative doubles the
/// bit patterns are ordered as the values are.
pub open spec fn unit_interval_bits(a: u64) -> bool {
    a < ONE_BITS
}

/// Relies on const_soft_float's SoftF64::add: IEEE-754 double addition
/// (round to nearest, ties to even) on bit patterns.
#[verifier::external_body]
pub(crate) fn scalar_add(a: u64, b: u64) -> (r: u64)
    ensures
        r == add_bits(a, b),
{
    SoftF64::from_bits(a).add(SoftF64::from_bits(b)).to_bits()
}

/// Relies on const_soft_float's SoftF64::sub: IEEE-754 double subtraction.
#[verifier::external_body]
pub(crate) fn scalar_sub(a: u64, b: u64) -> (r: u64)
    ensures
        r == sub_bits(a, b),
{
    SoftF64::from_bits(a).sub(SoftF64::from_bits(b)).to_bits()
}

/// Relies on const_soft_float's SoftF64::mul: IEEE-754 double multiplication.
#[verifier::external_body]
pub(crate) fn scalar_mul(a: u64, b: u64) -> (r: u64)
    ensures
        r == mul_bits(a, b),
{
    SoftF64::from_bits(a).mul(SoftF64::from_bits(b)).to_bits()
}

/// Relies on const_soft_float's SoftF64::div: IEEE-754 double division.
#[verifier::external_body]
pub(crate) fn scalar_div(a: u64, b: u64) -> (r: u64)
    ensures
        r == div_bits(a, b),
{
    SoftF64::from_bits(a).div(SoftF64::from_bits(b)).to_bits()
}

/// Negation of the double with bit pattern `a`: the sign bit flips.
pub(crate) fn scalar_neg(a: u64) -> (r: u64)
    ensures
        r == neg_bits(a),
{
    a ^ 0x8000000000000000u64
}

/// Relies on libm::exp: the natural exponential of a double, a pure
/// function of its argument's bits.
#[verifier::external_body]
pub(crate) fn scalar_exp(a: u64) -> (r: u64)
    ensures
        r == exp_bits(a),
{
    SoftF64(libm::exp(SoftF64::from_bits(a).0)).to_bits()
}

/// Relies on libm::tanh: the hyperbolic tangent of a double, a pure
/// function of its argument's bits.
#[verifier::external_body]
pub(crate) fn scalar_tanh(a: u64) -> (r: u64)
    ensures
        r == tanh_bits(a),
{
    SoftF64(libm::tanh(SoftF64::from_bits(a).0)).to_bits()
}

/// Relies on libm::fmax with zero as its second argument: the larger of the
/// double with bit pattern `a` and 0.0, a pure function of `a`.
#[verifier::external_body]
pub(crate) fn scalar_max_zero(a: u64) -> (r: u64)
    ensures
        r == max_zero_bits(a),
{
    SoftF64(libm::fmax(SoftF64::from_bits(a).0, SoftF64::from_bits(0).0)).to_bits()
}

/// Relies on rand's thread-local generator and its Standard distribution for
/// doubles, which draws uniformly from [0, 1): the draw is positive and below
/// 1.0, so its bit pattern is below that of 1.0. Nothing more is promised of
/// any single draw.
#[verifier::external_body]
pub(crate) fn scalar_rand_unit() -> (r: u64)
    ensures
        unit_interval_bits(r),
{
    SoftF64(rand::thread_rng().gen()).to_bits()
}

} // verus!
