//! Circles in the plane and in space.

use fj_math::{Circle, Point, Scalar, Vector};
use vstd::prelude::*;

use crate::math::scalar::{equals_zero, in_range, is_zero, scalar_in_range, scalar_of_u64, zero};
use crate::math::vector::{
    guarded, length2, magnitude2, point1_in_range, point1_is_in_range, point2_in_range,
    point2_is_in_range, point3_in_range, point3_is_in_range, vector2, vector2_in_range,
    vector2_is_in_range, vector2_of, vector3_in_range, vector3_is_in_range,
};
use crate::validate::ValidationError;

verus! {

/// The center of a circle in the plane.
pub uninterp spec fn circle2_center(circle: Circle<2>) -> Point<2>;

/// The vector from the center of a circle in the plane to its point at the
/// circle coordinate zero.
pub uninterp spec fn circle2_a(circle: Circle<2>) -> Vector<2>;

/// The vector from the center of a circle in the plane to its point a quarter
/// turn on.
pub uninterp spec fn circle2_b(circle: Circle<2>) -> Vector<2>;

/// The center of a circle in space.
pub uninterp spec fn circle3_center(circle: Circle<3>) -> Point<3>;

/// The vector from the center of a circle in space to its point at the circle
/// coordinate zero.
pub uninterp spec fn circle3_a(circle: Circle<3>) -> Vector<3>;

/// The vector from the center of a circle in space to its point a quarter
/// turn on.
pub uninterp spec fn circle3_b(circle: Circle<3>) -> Vector<3>;

/// The circle in the plane around the origin with the given radius.
pub uninterp spec fn circle2_of_radius(radius: Scalar) -> Circle<2>;

pub open spec fn circle2_in_range(circle: Circle<2>) -> bool {
    point2_in_range(circle2_center(circle)) && vector2_in_range(circle2_a(circle))
        && vector2_in_range(circle2_b(circle))
}

pub open spec fn circle3_in_range(circle: Circle<3>) -> bool {
    point3_in_range(circle3_center(circle)) && vector3_in_range(circle3_a(circle))
        && vector3_in_range(circle3_b(circle))
}

/// `fj_math::Circle::<2>::center`, which reads a field.
#[verifier::external_body]
fn raw_center2(circle: &Circle<2>) -> (r: Point<2>)
    ensures
        r == circle2_center(*circle),
{
    circle.center()
}

/// `fj_math::Circle::<2>::a`, which reads a field.
#[verifier::external_body]
fn raw_a2(circle: &Circle<2>) -> (r: Vector<2>)
    ensures
        r == circle2_a(*circle),
{
    circle.a()
}

/// `fj_math::Circle::<2>::b`, which reads a field.
#[verifier::external_body]
fn raw_b2(circle: &Circle<2>) -> (r: Vector<2>)
    ensures
        r == circle2_b(*circle),
{
    circle.b()
}

/// `fj_math::Circle::<3>::center`, which reads a field.
#[verifier::external_body]
fn raw_center3(circle: &Circle<3>) -> (r: Point<3>)
    ensures
        r == circle3_center(*circle),
{
    circle.center()
}

/// `fj_math::Circle::<3>::a`, which reads a field.
#[verifier::external_body]
fn raw_a3(circle: &Circle<3>) -> (r: Vector<3>)
    ensures
        r == circle3_a(*circle),
{
    circle.a()
}

/// `fj_math::Circle::<3>::b`, which reads a field.
#[verifier::external_body]
fn raw_b3(circle: &Circle<3>) -> (r: Vector<3>)
    ensures
        r == circle3_b(*circle),
{
    circle.b()
}

/// `fj_math::Circle::<2>::from_center_and_radius` around
/// `fj_math::Point::origin()`. It takes `(radius, 0)` and `(0, radius)` for
/// the two axes, which are equally long and perpendicular, and panics only
/// where their length is zero.
#[verifier::external_body]
fn raw_circle2_of_radius(radius: Scalar) -> (r: Circle<2>)
    requires
        scalar_in_range(radius),
        !is_zero(magnitude2(vector2_of(radius, scalar_of_u64(0)))),
    ensures
        r == circle2_of_radius(radius),
{
    Circle::from_center_and_radius(Point::origin(), radius)
}

/// `fj_math::Circle::<2>::point_from_circle_coords`: the center plus the
/// axes scaled by cosine and sine, a number in each coordinate where all
/// operands are in range. Which number, nothing says: std leaves the
/// precision of sine and cosine open, so two calls may differ.
#[verifier::external_body]
fn raw_point2(circle: &Circle<2>, t: Point<1>) -> (r: Point<2>)
    requires
        circle2_in_range(*circle),
        point1_in_range(t),
{
    circle.point_from_circle_coords(t)
}

/// `fj_math::Circle::<3>::point_from_circle_coords`: the center plus the
/// axes scaled by cosine and sine, a number in each coordinate where all
/// operands are in range. Which number, nothing says: std leaves the
/// precision of sine and cosine open, so two calls may differ.
#[verifier::external_body]
fn raw_point3(circle: &Circle<3>, t: Point<1>) -> (r: Point<3>)
    requires
        circle3_in_range(*circle),
        point1_in_range(t),
{
    circle.point_from_circle_coords(t)
}

/// The center of `circle`.
pub fn center_of_circle3(circle: &Circle<3>) -> (r: Point<3>)
    ensures
        r == circle3_center(*circle),
{
    raw_center3(circle)
}

/// The first axis of `circle`.
pub fn a_of_circle3(circle: &Circle<3>) -> (r: Vector<3>)
    ensures
        r == circle3_a(*circle),
{
    raw_a3(circle)
}

/// The second axis of `circle`.
pub fn b_of_circle3(circle: &Circle<3>) -> (r: Vector<3>)
    ensures
        r == circle3_b(*circle),
{
    raw_b3(circle)
}

pub fn circle2_is_in_range(circle: &Circle<2>) -> (r: bool)
    ensures
        r == circle2_in_range(*circle),
{
    let center = raw_center2(circle);
    let a = raw_a2(circle);
    let b = raw_b2(circle);
    point2_is_in_range(&center) && vector2_is_in_range(&a) && vector2_is_in_range(&b)
}

pub fn circle3_is_in_range(circle: &Circle<3>) -> (r: bool)
    ensures
        r == circle3_in_range(*circle),
{
    let center = raw_center3(circle);
    let a = raw_a3(circle);
    let b = raw_b3(circle);
    point3_is_in_range(&center) && vector3_is_in_range(&a) && vector3_is_in_range(&b)
}

/// What [`circle2_from_radius`] returns.
pub open spec fn circle2_from_radius_spec(radius: Scalar) -> Result<Circle<2>, ValidationError> {
    if !scalar_in_range(radius) {
        Err(ValidationError::OutOfRange)
    } else if is_zero(magnitude2(vector2_of(radius, scalar_of_u64(0)))) {
        Err(ValidationError::Degenerate)
    } else {
        Ok(circle2_of_radius(radius))
    }
}

/// The circle around the origin with the given radius, whose length must not
/// be zero.
pub fn circle2_from_radius(radius: Scalar) -> (r: Result<Circle<2>, ValidationError>)
    ensures
        r == circle2_from_radius_spec(radius),
{
    if !in_range(radius) {
        Err(ValidationError::OutOfRange)
    } else if equals_zero(length2(vector2(radius, zero()))) {
        Err(ValidationError::Degenerate)
    } else {
        Ok(raw_circle2_of_radius(radius))
    }
}

/// What [`point_on_circle2`] returns where `fj_math` drew the point `drawn`:
/// that point, where circle and coordinate are in range.
pub open spec fn point_on_circle2_spec(circle: Circle<2>, t: Point<1>, drawn: Point<2>) -> Result<
    Point<2>,
    ValidationError,
> {
    guarded(circle2_in_range(circle) && point1_in_range(t), drawn)
}

/// What [`point_on_circle3`] returns where `fj_math` drew the point `drawn`:
/// that point, where circle and coordinate are in range.
pub open spec fn point_on_circle3_spec(circle: Circle<3>, t: Point<1>, drawn: Point<3>) -> Result<
    Point<3>,
    ValidationError,
> {
    guarded(circle3_in_range(circle) && point1_in_range(t), drawn)
}

/// The point of `circle` at the circle coordinate `t`, as `fj_math` places
/// it. It is found exactly where circle and coordinate are in range; which
/// point it is, rests with the sine and cosine of the machine.
pub fn point_on_circle2(circle: &Circle<2>, t: Point<1>) -> (r: Result<Point<2>, ValidationError>)
    ensures
        r is Ok <==> circle2_in_range(*circle) && point1_in_range(t),
        r is Err ==> r == Err::<Point<2>, _>(ValidationError::OutOfRange),
{
    if circle2_is_in_range(circle) && point1_is_in_range(&t) {
        Ok(raw_point2(circle, t))
    } else {
        Err(ValidationError::OutOfRange)
    }
}

/// The point of `circle` at the circle coordinate `t`, as `fj_math` places
/// it. It is found exactly where circle and coordinate are in range; which
/// point it is, rests with the sine and cosine of the machine.
pub fn point_on_circle3(circle: &Circle<3>, t: Point<1>) -> (r: Result<Point<3>, ValidationError>)
    ensures
        r is Ok <==> circle3_in_range(*circle) && point1_in_range(t),
        r is Err ==> r == Err::<Point<3>, _>(ValidationError::OutOfRange),
{
    if circle3_is_in_range(circle) && point1_is_in_range(&t) {
        Ok(raw_point3(circle, t))
    } else {
        Err(ValidationError::OutOfRange)
    }
}

} // verus!
