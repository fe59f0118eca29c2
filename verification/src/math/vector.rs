//! Points and vectors: the range check on their coordinates, and the
//! arithmetic that the kernel asks of `fj_math`.

use fj_math::{Point, Scalar, Vector};
use vstd::prelude::*;

use crate::math::scalar::{in_range, is_zero, scalar_in_range, scalar_of_u64};
use crate::validate::ValidationError;

verus! {

/// `Ok(value)` where the operands were in range, else
/// [`ValidationError::OutOfRange`].
pub open spec fn guarded<T>(operands_in_range: bool, value: T) -> Result<T, ValidationError> {
    if operands_in_range {
        Ok(value)
    } else {
        Err(ValidationError::OutOfRange)
    }
}

/// What `r` holds where it is `Ok`.
pub open spec fn held_by<T>(r: Result<T, ValidationError>) -> T {
    r->Ok_0
}

pub open spec fn vector1_in_range(v: Vector<1>) -> bool {
    scalar_in_range(v.components[0])
}

pub open spec fn vector2_in_range(v: Vector<2>) -> bool {
    scalar_in_range(v.components[0]) && scalar_in_range(v.components[1])
}

pub open spec fn vector3_in_range(v: Vector<3>) -> bool {
    scalar_in_range(v.components[0]) && scalar_in_range(v.components[1]) && scalar_in_range(
        v.components[2],
    )
}

pub open spec fn point1_in_range(p: Point<1>) -> bool {
    vector1_in_range(p.coords)
}

pub open spec fn point2_in_range(p: Point<2>) -> bool {
    vector2_in_range(p.coords)
}

pub open spec fn point3_in_range(p: Point<3>) -> bool {
    vector3_in_range(p.coords)
}

/// The point on a one-dimensional axis at coordinate `t`.
pub open spec fn point1_at(t: Scalar) -> Point<1> {
    Point { coords: Vector { components: [t] } }
}

/// The vector with the components `u` and `v`.
pub open spec fn vector2_of(u: Scalar, v: Scalar) -> Vector<2> {
    Vector { components: [u, v] }
}

/// The point with the coordinates `u` and `v`.
pub open spec fn point2_at(u: Scalar, v: Scalar) -> Point<2> {
    Point { coords: vector2_of(u, v) }
}

/// The point `p` moved by `v`.
pub uninterp spec fn translated3(p: Point<3>, v: Vector<3>) -> Point<3>;

/// The vector that leads from `b` to `a`.
pub uninterp spec fn offset2(a: Point<2>, b: Point<2>) -> Vector<2>;

/// The dot product of two vectors in the plane.
pub uninterp spec fn dot_product2(a: Vector<2>, b: Vector<2>) -> Scalar;

/// The dot product of two vectors in space.
pub uninterp spec fn dot_product3(a: Vector<3>, b: Vector<3>) -> Scalar;

/// The cross product of two vectors in space.
pub uninterp spec fn cross_product(a: Vector<3>, b: Vector<3>) -> Vector<3>;

/// The length of a vector in the plane.
pub uninterp spec fn magnitude2(v: Vector<2>) -> Scalar;

/// The length of a vector in space.
pub uninterp spec fn magnitude3(v: Vector<3>) -> Scalar;

/// The vector `v` scaled by `s`.
pub uninterp spec fn scaled3(v: Vector<3>, s: Scalar) -> Vector<3>;

/// The vector `a - b`.
pub uninterp spec fn difference3(a: Vector<3>, b: Vector<3>) -> Vector<3>;

/// The vector `v` divided by `s`.
pub uninterp spec fn divided3(v: Vector<3>, s: Scalar) -> Vector<3>;

/// `p + v` on `fj_math::Point<3>`. The sum of coordinates in range is a
/// number.
#[verifier::external_body]
fn raw_translate3(p: Point<3>, v: Vector<3>) -> (r: Point<3>)
    requires
        point3_in_range(p),
        vector3_in_range(v),
    ensures
        r == translated3(p, v),
{
    p + v
}

/// `a - b` on `fj_math::Point<2>`. The difference of coordinates in range is
/// a number.
#[verifier::external_body]
fn raw_offset2(a: Point<2>, b: Point<2>) -> (r: Vector<2>)
    requires
        point2_in_range(a),
        point2_in_range(b),
    ensures
        r == offset2(a, b),
{
    a - b
}

/// `fj_math::Vector::<2>::dot`. Products of coordinates in range do not
/// overflow, so their sum is a number.
#[verifier::external_body]
fn raw_dot2(a: Vector<2>, b: Vector<2>) -> (r: Scalar)
    requires
        vector2_in_range(a),
        vector2_in_range(b),
    ensures
        r == dot_product2(a, b),
{
    a.dot(&b)
}

/// `fj_math::Vector::<3>::dot`. Products of coordinates in range do not
/// overflow, so their sum is a number.
#[verifier::external_body]
fn raw_dot3(a: Vector<3>, b: Vector<3>) -> (r: Scalar)
    requires
        vector3_in_range(a),
        vector3_in_range(b),
    ensures
        r == dot_product3(a, b),
{
    a.dot(&b)
}

/// `fj_math::Vector::<3>::cross`. Products of coordinates in range do not
/// overflow, so their differences are numbers.
#[verifier::external_body]
fn raw_cross3(a: Vector<3>, b: Vector<3>) -> (r: Vector<3>)
    requires
        vector3_in_range(a),
        vector3_in_range(b),
    ensures
        r == cross_product(a, b),
{
    a.cross(&b)
}

/// `fj_math::Vector::<2>::magnitude`: the root of a sum of squares, which is
/// a number (possibly infinite) for every vector.
#[verifier::external_body]
fn raw_length2(v: Vector<2>) -> (r: Scalar)
    ensures
        r == magnitude2(v),
{
    v.magnitude()
}

/// `fj_math::Vector::<3>::magnitude`: the root of a sum of squares, which is
/// a number (possibly infinite) for every vector.
#[verifier::external_body]
fn raw_length3(v: Vector<3>) -> (r: Scalar)
    ensures
        r == magnitude3(v),
{
    v.magnitude()
}

/// `v * s` on `fj_math::Vector<3>`. A product of two numbers in range is a
/// number.
#[verifier::external_body]
fn raw_scale3(v: Vector<3>, s: Scalar) -> (r: Vector<3>)
    requires
        vector3_in_range(v),
        scalar_in_range(s),
    ensures
        r == scaled3(v, s),
{
    v * s
}

/// `a - b` on `fj_math::Vector<3>`. The difference of coordinates in range
/// is a number.
#[verifier::external_body]
fn raw_subtract3(a: Vector<3>, b: Vector<3>) -> (r: Vector<3>)
    requires
        vector3_in_range(a),
        vector3_in_range(b),
    ensures
        r == difference3(a, b),
{
    a - b
}

/// `v / s` on `fj_math::Vector<3>`. With the operands in range and `s` not
/// zero each quotient is a number (possibly infinite).
#[verifier::external_body]
fn raw_divide3(v: Vector<3>, s: Scalar) -> (r: Vector<3>)
    requires
        vector3_in_range(v),
        scalar_in_range(s),
        !is_zero(s),
    ensures
        r == divided3(v, s),
{
    v / s
}

pub fn vector1_is_in_range(v: &Vector<1>) -> (r: bool)
    ensures
        r == vector1_in_range(*v),
{
    in_range(v.components[0])
}

pub fn vector2_is_in_range(v: &Vector<2>) -> (r: bool)
    ensures
        r == vector2_in_range(*v),
{
    in_range(v.components[0]) && in_range(v.components[1])
}

pub fn vector3_is_in_range(v: &Vector<3>) -> (r: bool)
    ensures
        r == vector3_in_range(*v),
{
    in_range(v.components[0]) && in_range(v.components[1]) && in_range(v.components[2])
}

pub fn point1_is_in_range(p: &Point<1>) -> (r: bool)
    ensures
        r == point1_in_range(*p),
{
    vector1_is_in_range(&p.coords)
}

pub fn point2_is_in_range(p: &Point<2>) -> (r: bool)
    ensures
        r == point2_in_range(*p),
{
    vector2_is_in_range(&p.coords)
}

pub fn point3_is_in_range(p: &Point<3>) -> (r: bool)
    ensures
        r == point3_in_range(*p),
{
    vector3_is_in_range(&p.coords)
}

/// The point on a one-dimensional axis at coordinate `t`.
pub fn point1(t: Scalar) -> (r: Point<1>)
    ensures
        r == point1_at(t),
{
    Point { coords: Vector { components: [t] } }
}

/// The vector with the components `u` and `v`.
pub fn vector2(u: Scalar, v: Scalar) -> (r: Vector<2>)
    ensures
        r == vector2_of(u, v),
{
    Vector { components: [u, v] }
}

/// The point with the coordinates `u` and `v`.
pub fn point2(u: Scalar, v: Scalar) -> (r: Point<2>)
    ensures
        r == point2_at(u, v),
{
    Point { coords: vector2(u, v) }
}

/// The point `p` moved by `v`.
pub fn translate3(p: Point<3>, v: Vector<3>) -> (r: Result<Point<3>, ValidationError>)
    ensures
        r == guarded(point3_in_range(p) && vector3_in_range(v), translated3(p, v)),
{
    if point3_is_in_range(&p) && vector3_is_in_range(&v) {
        Ok(raw_translate3(p, v))
    } else {
        Err(ValidationError::OutOfRange)
    }
}

/// The vector that leads from `b` to `a`.
pub fn offset_between2(a: Point<2>, b: Point<2>) -> (r: Result<Vector<2>, ValidationError>)
    ensures
        r == guarded(point2_in_range(a) && point2_in_range(b), offset2(a, b)),
{
    if point2_is_in_range(&a) && point2_is_in_range(&b) {
        Ok(raw_offset2(a, b))
    } else {
        Err(ValidationError::OutOfRange)
    }
}

/// The dot product of `a` and `b`.
pub fn dot2(a: Vector<2>, b: Vector<2>) -> (r: Result<Scalar, ValidationError>)
    ensures
        r == guarded(vector2_in_range(a) && vector2_in_range(b), dot_product2(a, b)),
{
    if vector2_is_in_range(&a) && vector2_is_in_range(&b) {
        Ok(raw_dot2(a, b))
    } else {
        Err(ValidationError::OutOfRange)
    }
}

/// The dot product of `a` and `b`.
pub fn dot3(a: Vector<3>, b: Vector<3>) -> (r: Result<Scalar, ValidationError>)
    ensures
        r == guarded(vector3_in_range(a) && vector3_in_range(b), dot_product3(a, b)),
{
    if vector3_is_in_range(&a) && vector3_is_in_range(&b) {
        Ok(raw_dot3(a, b))
    } else {
        Err(ValidationError::OutOfRange)
    }
}

/// The cross product of `a` and `b`.
pub fn cross3(a: Vector<3>, b: Vector<3>) -> (r: Result<Vector<3>, ValidationError>)
    ensures
        r == guarded(vector3_in_range(a) && vector3_in_range(b), cross_product(a, b)),
{
    if vector3_is_in_range(&a) && vector3_is_in_range(&b) {
        Ok(raw_cross3(a, b))
    } else {
        Err(ValidationError::OutOfRange)
    }
}

/// The length of `v`.
pub fn length2(v: Vector<2>) -> (r: Scalar)
    ensures
        r == magnitude2(v),
{
    raw_length2(v)
}

/// The length of `v`.
pub fn length3(v: Vector<3>) -> (r: Scalar)
    ensures
        r == magnitude3(v),
{
    raw_length3(v)
}

/// The vector `v` scaled by `s`.
pub fn scale3(v: Vector<3>, s: Scalar) -> (r: Result<Vector<3>, ValidationError>)
    ensures
        r == guarded(vector3_in_range(v) && scalar_in_range(s), scaled3(v, s)),
{
    if vector3_is_in_range(&v) && in_range(s) {
        Ok(raw_scale3(v, s))
    } else {
        Err(ValidationError::OutOfRange)
    }
}

/// The vector `a - b`.
pub fn subtract3(a: Vector<3>, b: Vector<3>) -> (r: Result<Vector<3>, ValidationError>)
    ensures
        r == guarded(vector3_in_range(a) && vector3_in_range(b), difference3(a, b)),
{
    if vector3_is_in_range(&a) && vector3_is_in_range(&b) {
        Ok(raw_subtract3(a, b))
    } else {
        Err(ValidationError::OutOfRange)
    }
}

/// What [`divide3`] returns.
pub open spec fn divide3_spec(v: Vector<3>, s: Scalar) -> Result<Vector<3>, ValidationError> {
    if !vector3_in_range(v) || !scalar_in_range(s) {
        Err(ValidationError::OutOfRange)
    } else if is_zero(s) {
        Err(ValidationError::Degenerate)
    } else {
        Ok(divided3(v, s))
    }
}

/// The vector `v` divided by `s`, which must not be zero.
pub fn divide3(v: Vector<3>, s: Scalar) -> (r: Result<Vector<3>, ValidationError>)
    ensures
        r == divide3_spec(v, s),
{
    if !vector3_is_in_range(&v) || !in_range(s) {
        Err(ValidationError::OutOfRange)
    } else if crate::math::scalar::equals_zero(s) {
        Err(ValidationError::Degenerate)
    } else {
        Ok(raw_divide3(v, s))
    }
}

/// The origin of a space of two dimensions.
pub fn origin2() -> (r: Point<2>)
    ensures
        r == point2_at(scalar_of_u64(0), scalar_of_u64(0)),
{
    point2(crate::math::scalar::zero(), crate::math::scalar::zero())
}

} // verus!
