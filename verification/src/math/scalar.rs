//! Scalars: their encoding, their order, the constants the kernel uses, and
//! the range of coordinates within which the kernel computes.
//!
//! A scalar of `fj_math` is a floating-point number that is not NaN, and
//! `fj_math` panics when an operation yields NaN. The kernel therefore calls
//! `fj_math` only on coordinates of a magnitude of at most 2^62: within that
//! range no sum of a few products overflows, so that no operation the kernel
//! uses can meet infinity minus infinity or zero times infinity.
//!
//! The kernel orders scalars and tests their range by their encoding, the 64
//! bits of IEEE 754: a sign, eleven bits of exponent, and the fraction.
//! Without the sign, the bits of numbers grow with their magnitude, and the
//! infinities have the greatest bits of all numbers.

use approx::AbsDiffEq;
use fj_math::Scalar;
use vstd::prelude::*;

use crate::validate::ValidationError;

verus! {

/// The bit of the sign.
pub const SIGN_BIT: u64 = 0x8000_0000_0000_0000;

/// The bits of the magnitude: all but that of the sign.
pub const MAGNITUDE_MASK: u64 = 0x7fff_ffff_ffff_ffff;

/// The bits of 2^62, the largest magnitude of a coordinate that the kernel
/// computes with.
pub const LIMIT_BITS: u64 = 0x43d0_0000_0000_0000;

/// The bits of the circumference of the unit circle: of the number nearest
/// to twice pi.
pub const TAU_BITS: u64 = 0x4019_21fb_5444_2d18;

/// The bits of the tolerance below which `fj_math` takes two directions for
/// perpendicular: of 2^-52, the gap between one and the next greater number.
pub const EPSILON_BITS: u64 = 0x3cb0_0000_0000_0000;

/// The 64 bits that encode a scalar.
pub uninterp spec fn scalar_bits(s: Scalar) -> u64;

/// The scalar that `fj_math` makes of a whole number.
pub uninterp spec fn scalar_of_u64(n: u64) -> Scalar;

/// The negation of a scalar.
pub uninterp spec fn scalar_negated(s: Scalar) -> Scalar;

/// The quotient of two scalars.
pub uninterp spec fn scalar_quotient(a: Scalar, b: Scalar) -> Scalar;

/// The place in the order of all numbers of the number with the given bits:
/// its magnitude, taken negative where the sign is set. Zero and negative
/// zero share the place zero.
pub open spec fn bits_rank(bits: u64) -> int {
    if bits & SIGN_BIT == 0 {
        (bits & MAGNITUDE_MASK) as int
    } else {
        -((bits & MAGNITUDE_MASK) as int)
    }
}

/// Whether the bits encode a number of a magnitude within the range of
/// coordinates. Of what is no number, the bits lie beyond those of the
/// infinities.
pub open spec fn bits_in_range(bits: u64) -> bool {
    bits & MAGNITUDE_MASK <= LIMIT_BITS
}

/// The place of a scalar in the order of all scalars. Scalars that compare
/// equal (zero and negative zero) have the same rank.
pub open spec fn scalar_rank(s: Scalar) -> int {
    bits_rank(scalar_bits(s))
}

/// Whether two scalars compare equal.
pub open spec fn same_rank(a: Scalar, b: Scalar) -> bool {
    scalar_rank(a) == scalar_rank(b)
}

/// Whether a scalar compares equal to zero.
pub open spec fn is_zero(s: Scalar) -> bool {
    scalar_rank(s) == 0
}

/// Whether a scalar lies within the range of coordinates.
pub open spec fn scalar_in_range(s: Scalar) -> bool {
    bits_in_range(scalar_bits(s))
}

/// `fj_math::Scalar::into_f64`, and the bits of the number it hands out.
#[verifier::external_body]
fn raw_bits(s: Scalar) -> (r: u64)
    ensures
        r == scalar_bits(s),
{
    s.into_f64().to_bits()
}

/// `fj_math::Scalar::from_u64`: the conversion of a whole number, which is
/// never NaN. Zero becomes the number with no bit set, and one the number
/// whose bits are `0x3ff0_0000_0000_0000`.
#[verifier::external_body]
fn scalar_from_u64(n: u64) -> (r: Scalar)
    ensures
        r == scalar_of_u64(n),
        n == 0 ==> scalar_bits(r) == 0,
        n == 1 ==> scalar_bits(r) == 0x3ff0_0000_0000_0000,
{
    Scalar::from_u64(n)
}

/// The constant `fj_math::Scalar::TAU`, which is std's `TAU`: the number
/// nearest to twice pi.
#[verifier::external_body]
fn raw_tau() -> (r: Scalar)
    ensures
        scalar_bits(r) == TAU_BITS,
{
    Scalar::TAU
}

/// `fj_math::Scalar::default_epsilon`, which hands on the default epsilon of
/// `approx` for the wrapped numbers: std's `EPSILON`, 2^-52.
#[verifier::external_body]
fn raw_epsilon() -> (r: Scalar)
    ensures
        scalar_bits(r) == EPSILON_BITS,
{
    Scalar::default_epsilon()
}

/// `-s` on `fj_math::Scalar`. The negation of a number is a number.
#[verifier::external_body]
fn scalar_neg(s: Scalar) -> (r: Scalar)
    ensures
        r == scalar_negated(s),
{
    -s
}

/// `a / b` on `fj_math::Scalar`. With both in range and `b` not zero the
/// quotient is a number (possibly infinite), so the division does not panic.
#[verifier::external_body]
fn scalar_div(a: Scalar, b: Scalar) -> (r: Scalar)
    requires
        scalar_in_range(a),
        scalar_in_range(b),
        !is_zero(b),
    ensures
        r == scalar_quotient(a, b),
{
    a / b
}

/// The bits that encode `s`.
pub fn bits(s: Scalar) -> (r: u64)
    ensures
        r == scalar_bits(s),
{
    raw_bits(s)
}

/// Whether the number with the bits `a` is smaller than that with the bits
/// `b`.
pub fn rank_less(a: u64, b: u64) -> (r: bool)
    ensures
        r == (bits_rank(a) < bits_rank(b)),
{
    let a_magnitude = a & MAGNITUDE_MASK;
    let b_magnitude = b & MAGNITUDE_MASK;
    if a & SIGN_BIT != 0 {
        if b & SIGN_BIT != 0 {
            a_magnitude > b_magnitude
        } else {
            a_magnitude != 0 || b_magnitude != 0
        }
    } else {
        if b & SIGN_BIT != 0 {
            false
        } else {
            a_magnitude < b_magnitude
        }
    }
}

/// The scalar zero.
pub fn zero() -> (r: Scalar)
    ensures
        r == scalar_of_u64(0),
        scalar_bits(r) == 0,
        is_zero(r),
        scalar_in_range(r),
{
    let r = scalar_from_u64(0);
    assert(0u64 & SIGN_BIT == 0 && 0u64 & MAGNITUDE_MASK == 0) by (bit_vector);
    r
}

/// The scalar one.
pub fn one() -> (r: Scalar)
    ensures
        r == scalar_of_u64(1),
        scalar_bits(r) == 0x3ff0_0000_0000_0000,
        scalar_rank(r) > 0,
        scalar_in_range(r),
{
    let r = scalar_from_u64(1);
    assert(0x3ff0_0000_0000_0000u64 & SIGN_BIT == 0 && 0x3ff0_0000_0000_0000u64
        & MAGNITUDE_MASK == 0x3ff0_0000_0000_0000) by (bit_vector);
    r
}

/// The scalar of a whole number.
pub fn whole(n: u64) -> (r: Scalar)
    ensures
        r == scalar_of_u64(n),
{
    scalar_from_u64(n)
}

/// The circumference of the unit circle.
pub fn tau() -> (r: Scalar)
    ensures
        scalar_bits(r) == TAU_BITS,
        scalar_rank(r) > 0,
        scalar_in_range(r),
{
    let r = raw_tau();
    assert(0x4019_21fb_5444_2d18u64 & SIGN_BIT == 0 && 0x4019_21fb_5444_2d18u64
        & MAGNITUDE_MASK == 0x4019_21fb_5444_2d18) by (bit_vector);
    r
}

/// The tolerance for perpendicular directions.
pub fn epsilon() -> (r: Scalar)
    ensures
        scalar_bits(r) == EPSILON_BITS,
{
    raw_epsilon()
}

/// Whether `a` is strictly smaller than `b`.
pub fn less(a: Scalar, b: Scalar) -> (r: bool)
    ensures
        r == (scalar_rank(a) < scalar_rank(b)),
{
    rank_less(raw_bits(a), raw_bits(b))
}

/// Whether `a` and `b` compare equal.
pub fn equal(a: Scalar, b: Scalar) -> (r: bool)
    ensures
        r == same_rank(a, b),
{
    !less(a, b) && !less(b, a)
}

/// Whether `s` compares equal to zero.
pub fn equals_zero(s: Scalar) -> (r: bool)
    ensures
        r == is_zero(s),
{
    raw_bits(s) & MAGNITUDE_MASK == 0
}

/// The negation of `s`.
pub fn negate(s: Scalar) -> (r: Scalar)
    ensures
        r == scalar_negated(s),
{
    scalar_neg(s)
}

/// Whether `s` lies within the range of coordinates.
pub fn in_range(s: Scalar) -> (r: bool)
    ensures
        r == scalar_in_range(s),
{
    raw_bits(s) & MAGNITUDE_MASK <= LIMIT_BITS
}

/// What [`divide`] returns.
pub open spec fn divide_spec(a: Scalar, b: Scalar) -> Result<Scalar, ValidationError> {
    if !scalar_in_range(a) || !scalar_in_range(b) {
        Err(ValidationError::OutOfRange)
    } else if is_zero(b) {
        Err(ValidationError::Degenerate)
    } else {
        Ok(scalar_quotient(a, b))
    }
}

/// The quotient of `a` and `b`, both within range and `b` not zero.
pub fn divide(a: Scalar, b: Scalar) -> (r: Result<Scalar, ValidationError>)
    ensures
        r == divide_spec(a, b),
{
    if !in_range(a) || !in_range(b) {
        Err(ValidationError::OutOfRange)
    } else if equals_zero(b) {
        Err(ValidationError::Degenerate)
    } else {
        Ok(scalar_div(a, b))
    }
}

} // verus!
