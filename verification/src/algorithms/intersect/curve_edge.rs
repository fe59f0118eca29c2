//! The intersection of a curve and a half-edge on one surface.

use fj_math::Point;
use vstd::prelude::*;

use crate::algorithms::intersect::line_segment::LineSegmentIntersection;
use crate::math::line::{line2_in_range, line2_point, point_on_line2};
use crate::math::vector::{guarded, point1_in_range};
use crate::objects::curve::Curve;
use crate::objects::edge::HalfEdge;
use crate::path::SurfacePath;
use crate::validate::ValidationError;

verus! {

/// Where a curve meets a half-edge.
#[derive(Clone, Copy, Debug, PartialEq, Eq, Hash)]
pub enum CurveEdgeIntersection {
    /// They meet in one point, which has this coordinate on the curve.
    Point { point_on_curve: Point<1> },
    /// The half-edge lies on the curve; its ends have these coordinates on
    /// the curve.
    Coincident { points_on_curve: [Point<1>; 2] },
}

impl CurveEdgeIntersection {
    /// What [`CurveEdgeIntersection::compute`] returns.
    #[verifier::opaque]
    pub open spec fn compute_spec(curve: Curve, half_edge: HalfEdge) -> Result<
        Option<CurveEdgeIntersection>,
        ValidationError,
    > {
        match (curve.path, half_edge.vertices[0].curve.object.path) {
            (SurfacePath::Line(line), SurfacePath::Line(edge_line)) => match guarded(
                line2_in_range(edge_line) && point1_in_range(half_edge.vertices[0].position),
                line2_point(edge_line, half_edge.vertices[0].position),
            ) {
                Err(e) => Err(e),
                Ok(from) => match guarded(
                    line2_in_range(edge_line) && point1_in_range(half_edge.vertices[1].position),
                    line2_point(edge_line, half_edge.vertices[1].position),
                ) {
                    Err(e) => Err(e),
                    Ok(to) => match LineSegmentIntersection::compute_spec(line, [from, to]) {
                        Err(e) => Err(e),
                        Ok(None) => Ok(None),
                        Ok(Some(LineSegmentIntersection::Point { point_on_line })) => Ok(
                            Some(CurveEdgeIntersection::Point { point_on_curve: point_on_line }),
                        ),
                        Ok(Some(LineSegmentIntersection::Coincident { points_on_line })) => Ok(
                            Some(
                                CurveEdgeIntersection::Coincident { points_on_curve: points_on_line },
                            ),
                        ),
                    },
                },
            },
            _ => Err(ValidationError::Unsupported),
        }
    }

    /// Intersects `curve` with `half_edge`, both taken to lie on one
    /// surface. Both must be lines, else the result is
    /// [`ValidationError::Unsupported`].
    pub fn compute(curve: &Curve, half_edge: &HalfEdge) -> (r: Result<
        Option<CurveEdgeIntersection>,
        ValidationError,
    >)
        ensures
            r == Self::compute_spec(*curve, *half_edge),
    {
        reveal(CurveEdgeIntersection::compute_spec);
        let line = match &curve.path {
            SurfacePath::Line(line) => line,
            SurfacePath::Circle(_) => { return Err(ValidationError::Unsupported); },
        };
        let edge_curve = half_edge.curve();
        let edge_line = match &edge_curve.object.path {
            SurfacePath::Line(line) => line,
            SurfacePath::Circle(_) => { return Err(ValidationError::Unsupported); },
        };
        let from = match point_on_line2(edge_line, half_edge.vertices[0].position) {
            Ok(p) => p,
            Err(e) => { return Err(e); },
        };
        let to = match point_on_line2(edge_line, half_edge.vertices[1].position) {
            Ok(p) => p,
            Err(e) => { return Err(e); },
        };
        match LineSegmentIntersection::compute(line, [from, to]) {
            Err(e) => Err(e),
            Ok(None) => Ok(None),
            Ok(Some(LineSegmentIntersection::Point { point_on_line })) => Ok(
                Some(CurveEdgeIntersection::Point { point_on_curve: point_on_line }),
            ),
            Ok(Some(LineSegmentIntersection::Coincident { points_on_line })) => Ok(
                Some(CurveEdgeIntersection::Coincident { points_on_curve: points_on_line }),
            ),
        }
    }
}

} // verus!
