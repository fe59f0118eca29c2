//! Affine transforms of space and what they make of points, vectors, lines
//! and circles.

use fj_math::{Circle, Line, Point, Transform, Vector};
use vstd::prelude::*;

use crate::math::circle::{
    a_of_circle3, b_of_circle3, circle3_a, circle3_b, circle3_in_range, circle3_is_in_range,
};
use crate::math::line::{
    direction_of_line3, line3_direction, line3_in_range, line3_is_in_range, line3_origin,
};
use crate::math::scalar::{
    bits_in_range, bits_rank, epsilon, equal, equals_zero, is_zero, less, same_rank, scalar_rank,
    EPSILON_BITS, LIMIT_BITS, MAGNITUDE_MASK,
};
use crate::math::vector::{
    dot_product3, guarded, length3, magnitude3, point3_in_range, point3_is_in_range,
    vector3_in_range, vector3_is_in_range,
};
use crate::validate::ValidationError;

verus! {

/// The entries of the matrix of `transform`, each as the 64 bits of its
/// encoding: a sign, eleven bits of exponent, and the fraction.
pub uninterp spec fn transform_entries(transform: Transform) -> Seq<u64>;


/// The image of a point under a transform.
pub uninterp spec fn transformed_point(transform: Transform, p: Point<3>) -> Point<3>;

/// The image of a vector under the linear part of a transform.
pub uninterp spec fn transformed_vector(transform: Transform, v: Vector<3>) -> Vector<3>;

/// The image of a line under a transform.
pub uninterp spec fn transformed_line(transform: Transform, line: Line<3>) -> Line<3>;

/// The image of a circle under a transform.
pub uninterp spec fn transformed_circle(transform: Transform, circle: Circle<3>) -> Circle<3>;

/// Whether the entries of the matrix of `transform` are within the range of
/// coordinates.
pub open spec fn transform_in_range(transform: Transform) -> bool {
    forall|i: int|
        0 <= i < transform_entries(transform).len() ==> bits_in_range(
            #[trigger] transform_entries(transform)[i],
        )
}

/// `fj_math::Transform::data`, which hands out the entries of the matrix,
/// each converted to its bits.
#[verifier::external_body]
fn raw_entries(transform: &Transform) -> (r: Vec<u64>)
    ensures
        r@ == transform_entries(*transform),
{
    let mut entries = Vec::new();
    for entry in transform.data() {
        entries.push(entry.to_bits());
    }
    entries
}

/// `fj_math::Transform::transform_point`: sums of products of entries and
/// coordinates, which are numbers where all of them are in range.
#[verifier::external_body]
fn raw_point(transform: &Transform, p: Point<3>) -> (r: Point<3>)
    requires
        transform_in_range(*transform),
        point3_in_range(p),
    ensures
        r == transformed_point(*transform, p),
{
    transform.transform_point(&p)
}

/// `fj_math::Transform::transform_vector`: sums of products of entries and
/// coordinates, which are numbers where all of them are in range.
#[verifier::external_body]
fn raw_vector(transform: &Transform, v: Vector<3>) -> (r: Vector<3>)
    requires
        transform_in_range(*transform),
        vector3_in_range(v),
    ensures
        r == transformed_vector(*transform, v),
{
    transform.transform_vector(&v)
}

/// `fj_math::Transform::transform_line`. It transforms origin and direction
/// and makes a line of them, and panics only where the length of the
/// transformed direction is zero.
#[verifier::external_body]
fn raw_line(transform: &Transform, line: &Line<3>) -> (r: Line<3>)
    requires
        transform_in_range(*transform),
        line3_in_range(*line),
        !is_zero(magnitude3(transformed_vector(*transform, line3_direction(*line)))),
    ensures
        r == transformed_line(*transform, *line),
        line3_origin(r) == transformed_point(*transform, line3_origin(*line)),
        line3_direction(r) == transformed_vector(*transform, line3_direction(*line)),
{
    transform.transform_line(line)
}

/// Whether the transformed axes `a` and `b` still span a circle: equally
/// long, not of length zero, and perpendicular within the tolerance.
pub open spec fn spans_circle(a: Vector<3>, b: Vector<3>) -> bool {
    &&& same_rank(magnitude3(a), magnitude3(b))
    &&& !is_zero(magnitude3(a))
    &&& scalar_rank(dot_product3(a, b)) < bits_rank(EPSILON_BITS)
}

/// `fj_math::Transform::transform_circle`. It transforms center and axes and
/// makes a circle of them, and panics only where the transformed axes differ
/// in length, have the length zero, or have a dot product that is not below
/// the tolerance.
#[verifier::external_body]
fn raw_circle(transform: &Transform, circle: &Circle<3>) -> (r: Circle<3>)
    requires
        transform_in_range(*transform),
        circle3_in_range(*circle),
        vector3_in_range(transformed_vector(*transform, circle3_a(*circle))),
        vector3_in_range(transformed_vector(*transform, circle3_b(*circle))),
        spans_circle(
            transformed_vector(*transform, circle3_a(*circle)),
            transformed_vector(*transform, circle3_b(*circle)),
        ),
    ensures
        r == transformed_circle(*transform, *circle),
{
    transform.transform_circle(circle)
}

/// Whether the entries of the matrix of `transform` are within the range of
/// coordinates.
pub fn transform_is_in_range(transform: &Transform) -> (r: bool)
    ensures
        r == transform_in_range(*transform),
{
    let entries = raw_entries(transform);
    let mut i: usize = 0;
    while i < entries.len()
        invariant
            i <= entries.len(),
            entries@ == transform_entries(*transform),
            forall|k: int| 0 <= k < i ==> bits_in_range(#[trigger] entries@[k]),
        decreases entries.len() - i,
    {
        if entries[i] & MAGNITUDE_MASK > LIMIT_BITS {
            return false;
        }
        i += 1;
    }
    true
}

/// The image of `p` under `transform`.
pub fn transform_point(transform: &Transform, p: Point<3>) -> (r: Result<
    Point<3>,
    ValidationError,
>)
    ensures
        r == guarded(
            transform_in_range(*transform) && point3_in_range(p),
            transformed_point(*transform, p),
        ),
{
    if transform_is_in_range(transform) && point3_is_in_range(&p) {
        Ok(raw_point(transform, p))
    } else {
        Err(ValidationError::OutOfRange)
    }
}

/// The image of `v` under the linear part of `transform`.
pub fn transform_vector(transform: &Transform, v: Vector<3>) -> (r: Result<
    Vector<3>,
    ValidationError,
>)
    ensures
        r == guarded(
            transform_in_range(*transform) && vector3_in_range(v),
            transformed_vector(*transform, v),
        ),
{
    if transform_is_in_range(transform) && vector3_is_in_range(&v) {
        Ok(raw_vector(transform, v))
    } else {
        Err(ValidationError::OutOfRange)
    }
}

/// What [`transform_line`] returns.
pub open spec fn transform_line_spec(transform: Transform, line: Line<3>) -> Result<
    Line<3>,
    ValidationError,
> {
    if !(transform_in_range(transform) && line3_in_range(line)) {
        Err(ValidationError::OutOfRange)
    } else if is_zero(magnitude3(transformed_vector(transform, line3_direction(line)))) {
        Err(ValidationError::Degenerate)
    } else {
        Ok(transformed_line(transform, line))
    }
}

/// The image of `line` under `transform`, which must not collapse its
/// direction.
pub fn transform_line(transform: &Transform, line: &Line<3>) -> (r: Result<
    Line<3>,
    ValidationError,
>)
    ensures
        r == transform_line_spec(*transform, *line),
        r matches Ok(image) ==> {
            &&& line3_origin(image) == transformed_point(*transform, line3_origin(*line))
            &&& line3_direction(image) == transformed_vector(*transform, line3_direction(*line))
        },
{
    if !(transform_is_in_range(transform) && line3_is_in_range(line)) {
        return Err(ValidationError::OutOfRange);
    }
    let direction = raw_vector(transform, direction_of_line3(line));
    if equals_zero(length3(direction)) {
        Err(ValidationError::Degenerate)
    } else {
        Ok(raw_line(transform, line))
    }
}

/// What [`transform_circle`] returns.
pub open spec fn transform_circle_spec(transform: Transform, circle: Circle<3>) -> Result<
    Circle<3>,
    ValidationError,
> {
    let a = transformed_vector(transform, circle3_a(circle));
    let b = transformed_vector(transform, circle3_b(circle));
    if !(transform_in_range(transform) && circle3_in_range(circle)) {
        Err(ValidationError::OutOfRange)
    } else if !(vector3_in_range(a) && vector3_in_range(b)) {
        Err(ValidationError::OutOfRange)
    } else if is_zero(magnitude3(a)) {
        Err(ValidationError::Degenerate)
    } else if !spans_circle(a, b) {
        Err(ValidationError::Unsupported)
    } else {
        Ok(transformed_circle(transform, circle))
    }
}

/// The image of `circle` under `transform`, which must keep it a circle.
pub fn transform_circle(transform: &Transform, circle: &Circle<3>) -> (r: Result<
    Circle<3>,
    ValidationError,
>)
    ensures
        r == transform_circle_spec(*transform, *circle),
{
    if !(transform_is_in_range(transform) && circle3_is_in_range(circle)) {
        return Err(ValidationError::OutOfRange);
    }
    let a = raw_vector(transform, a_of_circle3(circle));
    let b = raw_vector(transform, b_of_circle3(circle));
    if !(vector3_is_in_range(&a) && vector3_is_in_range(&b)) {
        return Err(ValidationError::OutOfRange);
    }
    let length_a = length3(a);
    if equals_zero(length_a) {
        return Err(ValidationError::Degenerate);
    }
    let dot = match crate::math::vector::dot3(a, b) {
        Ok(dot) => dot,
        Err(e) => { return Err(e); },
    };
    if !equal(length_a, length3(b)) || !less(dot, epsilon()) {
        Err(ValidationError::Unsupported)
    } else {
        Ok(raw_circle(transform, circle))
    }
}

} // verus!
