//! The intersection of a line and a line segment in the plane.

use fj_math::{Line, Point, Scalar, Vector};
use vstd::prelude::*;

use crate::math::line::{
    coords_on_line2, coords_on_line2_spec, direction_of_line2, line2_direction, line2_in_range,
    line2_origin, line2_point, origin_of_line2, point_on_line2,
};
use crate::math::scalar::{
    divide, divide_spec, equals_zero, is_zero, less, negate, scalar_negated, scalar_rank,
};
use crate::math::vector::{
    dot2, dot_product2, guarded, offset2, offset_between2, point1, point1_at, point1_in_range,
    point2_in_range, vector2, vector2_in_range, vector2_of,
};
use crate::validate::ValidationError;

verus! {

/// Where a line meets a line segment.
#[derive(Clone, Copy, Debug, PartialEq, Eq, Hash)]
pub enum LineSegmentIntersection {
    /// They meet in one point, which has this coordinate on the line.
    Point { point_on_line: Point<1> },
    /// The segment lies on the line; its ends have these coordinates on the
    /// line.
    Coincident { points_on_line: [Point<1>; 2] },
}

/// Whether `x` lies between `a` and `b`, whichever of them is the smaller.
pub open spec fn between(a: Scalar, b: Scalar, x: Scalar) -> bool {
    ||| scalar_rank(a) <= scalar_rank(x) <= scalar_rank(b)
    ||| scalar_rank(b) <= scalar_rank(x) <= scalar_rank(a)
}

/// Whether `p` lies in the smallest box with sides along the axes that holds
/// `a` and `b`.
pub open spec fn box_contains(a: Point<2>, b: Point<2>, p: Point<2>) -> bool {
    &&& between(a.coords.components[0], b.coords.components[0], p.coords.components[0])
    &&& between(a.coords.components[1], b.coords.components[1], p.coords.components[1])
}

/// Whether `x` lies between `a` and `b`, whichever of them is the smaller.
pub fn is_between(a: Scalar, b: Scalar, x: Scalar) -> (r: bool)
    ensures
        r == between(a, b, x),
{
    (!less(x, a) && !less(b, x)) || (!less(x, b) && !less(a, x))
}

/// Whether `p` lies in the smallest box with sides along the axes that holds
/// `a` and `b`.
pub fn is_in_box(a: &Point<2>, b: &Point<2>, p: &Point<2>) -> (r: bool)
    ensures
        r == box_contains(*a, *b, *p),
{
    is_between(a.coords.components[0], b.coords.components[0], p.coords.components[0])
        && is_between(a.coords.components[1], b.coords.components[1], p.coords.components[1])
}

/// A vector perpendicular to the one from `a` to `b`, of the same length.
pub open spec fn normal_spec(a: Point<2>, b: Point<2>) -> Result<Vector<2>, ValidationError> {
    match guarded(point2_in_range(b) && point2_in_range(a), offset2(b, a)) {
        Err(e) => Err(e),
        Ok(along) => Ok(vector2_of(scalar_negated(along.components[1]), along.components[0])),
    }
}

/// A vector perpendicular to the one from `a` to `b`.
pub fn normal(a: Point<2>, b: Point<2>) -> (r: Result<Vector<2>, ValidationError>)
    ensures
        r == normal_spec(a, b),
{
    match offset_between2(b, a) {
        Err(e) => Err(e),
        Ok(along) => Ok(vector2(negate(along.components[1]), along.components[0])),
    }
}

/// The dot products of the normal `n` of a segment that ends in `b` with the
/// vector from the origin of `line` to `b`, and with the direction of
/// `line`. The second is zero where line and segment are parallel; then the
/// first is zero where the segment lies on the line.
pub open spec fn projections_spec(line: Line<2>, n: Vector<2>, b: Point<2>) -> Result<
    (Scalar, Scalar),
    ValidationError,
> {
    match guarded(point2_in_range(b) && point2_in_range(line2_origin(line)), offset2(b, line2_origin(line))) {
        Err(e) => Err(e),
        Ok(to_end) => match guarded(
            vector2_in_range(n) && vector2_in_range(to_end),
            dot_product2(n, to_end),
        ) {
            Err(e) => Err(e),
            Ok(of_origin) => match guarded(
                vector2_in_range(n) && vector2_in_range(line2_direction(line)),
                dot_product2(n, line2_direction(line)),
            ) {
                Err(e) => Err(e),
                Ok(of_direction) => Ok((of_origin, of_direction)),
            },
        },
    }
}

/// The dot products of the normal of a segment with the vector from the
/// origin of `line` to the end of the segment, and with the direction of
/// `line`.
pub fn projections(line: &Line<2>, n: Vector<2>, b: Point<2>) -> (r: Result<
    (Scalar, Scalar),
    ValidationError,
>)
    ensures
        r == projections_spec(*line, n, b),
{
    let to_end = match offset_between2(b, origin_of_line2(line)) {
        Ok(v) => v,
        Err(e) => { return Err(e); },
    };
    let of_origin = match dot2(n, to_end) {
        Ok(s) => s,
        Err(e) => { return Err(e); },
    };
    match dot2(n, direction_of_line2(line)) {
        Ok(of_direction) => Ok((of_origin, of_direction)),
        Err(e) => Err(e),
    }
}

impl LineSegmentIntersection {
    /// What [`LineSegmentIntersection::compute`] returns.
    pub open spec fn compute_spec(line: Line<2>, segment: [Point<2>; 2]) -> Result<
        Option<LineSegmentIntersection>,
        ValidationError,
    > {
        match normal_spec(segment[0], segment[1]) {
            Err(e) => Err(e),
            Ok(n) => match projections_spec(line, n, segment[1]) {
                Err(e) => Err(e),
                Ok((of_origin, of_direction)) => if is_zero(of_direction) {
                    if is_zero(of_origin) {
                        match coords_on_line2_spec(line, segment[0]) {
                            Err(e) => Err(e),
                            Ok(first) => match coords_on_line2_spec(line, segment[1]) {
                                Err(e) => Err(e),
                                Ok(second) => Ok(
                                    Some(
                                        LineSegmentIntersection::Coincident {
                                            points_on_line: [first, second],
                                        },
                                    ),
                                ),
                            },
                        }
                    } else {
                        Ok(None)
                    }
                } else {
                    match divide_spec(of_origin, of_direction) {
                        Err(e) => Err(e),
                        Ok(t) => match guarded(
                            line2_in_range(line) && point1_in_range(point1_at(t)),
                            line2_point(line, point1_at(t)),
                        ) {
                            Err(e) => Err(e),
                            Ok(hit) => if box_contains(segment[0], segment[1], hit) {
                                Ok(
                                    Some(
                                        LineSegmentIntersection::Point {
                                            point_on_line: point1_at(t),
                                        },
                                    ),
                                )
                            } else {
                                Ok(None)
                            },
                        },
                    }
                },
            },
        }
    }

    /// Intersects `line` with the segment between the two points.
    ///
    /// Where line and segment are parallel, they meet only if the segment
    /// lies on the line. Else the line meets the line of the segment in one
    /// point, which counts if it lies in the box that the ends of the
    /// segment span.
    #[verifier::rlimit(50)]
    pub fn compute(line: &Line<2>, segment: [Point<2>; 2]) -> (r: Result<
        Option<LineSegmentIntersection>,
        ValidationError,
    >)
        ensures
            r == Self::compute_spec(*line, segment),
    {
        let n = match normal(segment[0], segment[1]) {
            Ok(n) => n,
            Err(e) => { return Err(e); },
        };
        let (of_origin, of_direction) = match projections(line, n, segment[1]) {
            Ok(pair) => pair,
            Err(e) => { return Err(e); },
        };
        if equals_zero(of_direction) {
            if equals_zero(of_origin) {
                let first = match coords_on_line2(line, segment[0]) {
                    Ok(p) => p,
                    Err(e) => { return Err(e); },
                };
                let second = match coords_on_line2(line, segment[1]) {
                    Ok(p) => p,
                    Err(e) => { return Err(e); },
                };
                return Ok(
                    Some(LineSegmentIntersection::Coincident { points_on_line: [first, second] }),
                );
            }
            return Ok(None);
        }
        let t = match divide(of_origin, of_direction) {
            Ok(t) => t,
            Err(e) => { return Err(e); },
        };
        let hit = match point_on_line2(line, point1(t)) {
            Ok(p) => p,
            Err(e) => { return Err(e); },
        };
        if is_in_box(&segment[0], &segment[1], &hit) {
            Ok(Some(LineSegmentIntersection::Point { point_on_line: point1(t) }))
        } else {
            Ok(None)
        }
    }
}

} // verus!
