//! Lines in the plane and in space.

use fj_math::{Line, Point, Scalar, Vector};
use vstd::prelude::*;

use crate::math::scalar::{equals_zero, in_range, is_zero, scalar_in_range};
use crate::math::vector::{
    guarded, length2, length3, magnitude2, magnitude3, offset2, offset_between2, point1_in_range,
    point1_is_in_range, point2_in_range, point2_is_in_range, point3_in_range, point3_is_in_range,
    vector2_in_range, vector2_is_in_range, vector3_in_range, vector3_is_in_range,
};
use crate::validate::ValidationError;

verus! {

/// The point of a line in the plane at which its coordinate is zero.
pub uninterp spec fn line2_origin(line: Line<2>) -> Point<2>;

/// The vector that leads from coordinate zero to coordinate one of a line in
/// the plane.
pub uninterp spec fn line2_direction(line: Line<2>) -> Vector<2>;

/// The point of a line in space at which its coordinate is zero.
pub uninterp spec fn line3_origin(line: Line<3>) -> Point<3>;

/// The vector that leads from coordinate zero to coordinate one of a line in
/// space.
pub uninterp spec fn line3_direction(line: Line<3>) -> Vector<3>;

/// The line through `a`, at coordinate zero, and `b`, at coordinate one.
pub uninterp spec fn line2_through(a: Point<2>, b: Point<2>) -> Line<2>;

/// The line in space with the given origin and direction.
pub uninterp spec fn line3_from(origin: Point<3>, direction: Vector<3>) -> Line<3>;

/// The point of a line in the plane at the line coordinate `t`.
pub uninterp spec fn line2_point(line: Line<2>, t: Point<1>) -> Point<2>;

/// The point of a line in space at the line coordinate `t`.
pub uninterp spec fn line3_point(line: Line<3>, t: Point<1>) -> Point<3>;

/// The direction of a line in space, scaled by `t`.
pub uninterp spec fn line3_vector(line: Line<3>, t: Scalar) -> Vector<3>;

/// The line coordinate of the projection of `p` onto a line in the plane.
pub uninterp spec fn line2_coords(line: Line<2>, p: Point<2>) -> Point<1>;

pub open spec fn line2_in_range(line: Line<2>) -> bool {
    point2_in_range(line2_origin(line)) && vector2_in_range(line2_direction(line))
}

pub open spec fn line3_in_range(line: Line<3>) -> bool {
    point3_in_range(line3_origin(line)) && vector3_in_range(line3_direction(line))
}

/// `fj_math::Line::<2>::origin`, which reads a field.
#[verifier::external_body]
fn raw_origin2(line: &Line<2>) -> (r: Point<2>)
    ensures
        r == line2_origin(*line),
{
    line.origin()
}

/// `fj_math::Line::<2>::direction`, which reads a field.
#[verifier::external_body]
fn raw_direction2(line: &Line<2>) -> (r: Vector<2>)
    ensures
        r == line2_direction(*line),
{
    line.direction()
}

/// `fj_math::Line::<3>::origin`, which reads a field.
#[verifier::external_body]
fn raw_origin3(line: &Line<3>) -> (r: Point<3>)
    ensures
        r == line3_origin(*line),
{
    line.origin()
}

/// `fj_math::Line::<3>::direction`, which reads a field.
#[verifier::external_body]
fn raw_direction3(line: &Line<3>) -> (r: Vector<3>)
    ensures
        r == line3_direction(*line),
{
    line.direction()
}

/// `fj_math::Line::<2>::from_points`. It takes `a` for the origin and
/// `b - a` for the direction, and panics only where the length of that
/// direction is zero.
#[verifier::external_body]
fn raw_line2_through(a: Point<2>, b: Point<2>) -> (r: Line<2>)
    requires
        point2_in_range(a),
        point2_in_range(b),
        !is_zero(magnitude2(offset2(b, a))),
    ensures
        r == line2_through(a, b),
        line2_origin(r) == a,
        line2_direction(r) == offset2(b, a),
{
    Line::from_points([a, b])
}

/// `fj_math::Line::<3>::from_origin_and_direction`. It stores both, and
/// panics only where the length of the direction is zero.
#[verifier::external_body]
fn raw_line3_from(origin: Point<3>, direction: Vector<3>) -> (r: Line<3>)
    requires
        !is_zero(magnitude3(direction)),
    ensures
        r == line3_from(origin, direction),
        line3_origin(r) == origin,
        line3_direction(r) == direction,
{
    Line::from_origin_and_direction(origin, direction)
}

/// `fj_math::Line::<2>::point_from_line_coords`: the origin plus the scaled
/// direction, a number in each coordinate where all operands are in range.
#[verifier::external_body]
fn raw_point2(line: &Line<2>, t: Point<1>) -> (r: Point<2>)
    requires
        line2_in_range(*line),
        point1_in_range(t),
    ensures
        r == line2_point(*line, t),
{
    line.point_from_line_coords(t)
}

/// `fj_math::Line::<3>::point_from_line_coords`: the origin plus the scaled
/// direction, a number in each coordinate where all operands are in range.
#[verifier::external_body]
fn raw_point3(line: &Line<3>, t: Point<1>) -> (r: Point<3>)
    requires
        line3_in_range(*line),
        point1_in_range(t),
    ensures
        r == line3_point(*line, t),
{
    line.point_from_line_coords(t)
}

/// `fj_math::Line::<3>::vector_from_line_coords`: the scaled direction, a
/// number in each coordinate where all operands are in range.
#[verifier::external_body]
fn raw_vector3(line: &Line<3>, t: Scalar) -> (r: Vector<3>)
    requires
        line3_in_range(*line),
        scalar_in_range(t),
    ensures
        r == line3_vector(*line, t),
{
    line.vector_from_line_coords([t])
}

/// `fj_math::Line::<2>::point_to_line_coords`. It normalizes the direction
/// and divides by its length, so that length must not be zero; with all
/// operands in range the result is then a number (possibly infinite).
#[verifier::external_body]
fn raw_coords2(line: &Line<2>, p: Point<2>) -> (r: Point<1>)
    requires
        line2_in_range(*line),
        point2_in_range(p),
        !is_zero(magnitude2(line2_direction(*line))),
    ensures
        r == line2_coords(*line, p),
{
    line.point_to_line_coords(p)
}

/// The point of `line` at which its coordinate is zero.
pub fn origin_of_line2(line: &Line<2>) -> (r: Point<2>)
    ensures
        r == line2_origin(*line),
{
    raw_origin2(line)
}

/// The direction of `line`.
pub fn direction_of_line2(line: &Line<2>) -> (r: Vector<2>)
    ensures
        r == line2_direction(*line),
{
    raw_direction2(line)
}

/// The point of `line` at which its coordinate is zero.
pub fn origin_of_line3(line: &Line<3>) -> (r: Point<3>)
    ensures
        r == line3_origin(*line),
{
    raw_origin3(line)
}

/// The direction of `line`.
pub fn direction_of_line3(line: &Line<3>) -> (r: Vector<3>)
    ensures
        r == line3_direction(*line),
{
    raw_direction3(line)
}

pub fn line2_is_in_range(line: &Line<2>) -> (r: bool)
    ensures
        r == line2_in_range(*line),
{
    let origin = raw_origin2(line);
    let direction = raw_direction2(line);
    point2_is_in_range(&origin) && vector2_is_in_range(&direction)
}

pub fn line3_is_in_range(line: &Line<3>) -> (r: bool)
    ensures
        r == line3_in_range(*line),
{
    let origin = raw_origin3(line);
    let direction = raw_direction3(line);
    point3_is_in_range(&origin) && vector3_is_in_range(&direction)
}

/// What [`line2_from_points`] returns.
pub open spec fn line2_from_points_spec(a: Point<2>, b: Point<2>) -> Result<
    Line<2>,
    ValidationError,
> {
    if !(point2_in_range(a) && point2_in_range(b)) {
        Err(ValidationError::OutOfRange)
    } else if is_zero(magnitude2(offset2(b, a))) {
        Err(ValidationError::Degenerate)
    } else {
        Ok(line2_through(a, b))
    }
}

/// The line through `a` and `b`, which must not coincide.
pub fn line2_from_points(a: Point<2>, b: Point<2>) -> (r: Result<Line<2>, ValidationError>)
    ensures
        r == line2_from_points_spec(a, b),
        r matches Ok(line) ==> line2_origin(line) == a && line2_direction(line) == offset2(b, a),
{
    match offset_between2(b, a) {
        Err(e) => Err(e),
        Ok(direction) => {
            if equals_zero(length2(direction)) {
                Err(ValidationError::Degenerate)
            } else {
                Ok(raw_line2_through(a, b))
            }
        },
    }
}

/// What [`line3_from_origin_and_direction`] returns.
pub open spec fn line3_from_spec(origin: Point<3>, direction: Vector<3>) -> Result<
    Line<3>,
    ValidationError,
> {
    if is_zero(magnitude3(direction)) {
        Err(ValidationError::Degenerate)
    } else {
        Ok(line3_from(origin, direction))
    }
}

/// The line with the given origin and direction, which must not have the
/// length zero.
pub fn line3_from_origin_and_direction(origin: Point<3>, direction: Vector<3>) -> (r: Result<
    Line<3>,
    ValidationError,
>)
    ensures
        r == line3_from_spec(origin, direction),
        r matches Ok(line) ==> line3_origin(line) == origin && line3_direction(line) == direction,
{
    if equals_zero(length3(direction)) {
        Err(ValidationError::Degenerate)
    } else {
        Ok(raw_line3_from(origin, direction))
    }
}

/// The point of `line` at the line coordinate `t`.
pub fn point_on_line2(line: &Line<2>, t: Point<1>) -> (r: Result<Point<2>, ValidationError>)
    ensures
        r == guarded(line2_in_range(*line) && point1_in_range(t), line2_point(*line, t)),
{
    if line2_is_in_range(line) && point1_is_in_range(&t) {
        Ok(raw_point2(line, t))
    } else {
        Err(ValidationError::OutOfRange)
    }
}

/// The point of `line` at the line coordinate `t`.
pub fn point_on_line3(line: &Line<3>, t: Point<1>) -> (r: Result<Point<3>, ValidationError>)
    ensures
        r == guarded(line3_in_range(*line) && point1_in_range(t), line3_point(*line, t)),
{
    if line3_is_in_range(line) && point1_is_in_range(&t) {
        Ok(raw_point3(line, t))
    } else {
        Err(ValidationError::OutOfRange)
    }
}

/// The direction of `line`, scaled by `t`.
pub fn vector_on_line3(line: &Line<3>, t: Scalar) -> (r: Result<Vector<3>, ValidationError>)
    ensures
        r == guarded(line3_in_range(*line) && scalar_in_range(t), line3_vector(*line, t)),
{
    if line3_is_in_range(line) && in_range(t) {
        Ok(raw_vector3(line, t))
    } else {
        Err(ValidationError::OutOfRange)
    }
}

/// What [`coords_on_line2`] returns.
pub open spec fn coords_on_line2_spec(line: Line<2>, p: Point<2>) -> Result<
    Point<1>,
    ValidationError,
> {
    if !(line2_in_range(line) && point2_in_range(p)) {
        Err(ValidationError::OutOfRange)
    } else if is_zero(magnitude2(line2_direction(line))) {
        Err(ValidationError::Degenerate)
    } else {
        Ok(line2_coords(line, p))
    }
}

/// The line coordinate of the projection of `p` onto `line`.
pub fn coords_on_line2(line: &Line<2>, p: Point<2>) -> (r: Result<Point<1>, ValidationError>)
    ensures
        r == coords_on_line2_spec(*line, p),
{
    if !(line2_is_in_range(line) && point2_is_in_range(&p)) {
        Err(ValidationError::OutOfRange)
    } else if equals_zero(length2(raw_direction2(line))) {
        Err(ValidationError::Degenerate)
    } else {
        Ok(raw_coords2(line, p))
    }
}

} // verus!
