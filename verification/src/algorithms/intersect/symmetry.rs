//! What exchanging the two faces does to their intersection.
//!
//! The stretches that two faces have in common are measured along the line
//! in which their surfaces meet. Whether that line comes out the same when
//! the surfaces are exchanged rests on the arithmetic of `fj_math`. Where it
//! does, the intersection of the faces is the same either way: it is found
//! or missed alike, covers the same curve coordinates, and has the same path
//! on each surface.

use fj_math::{Line, Point};
use vstd::prelude::*;

use crate::algorithms::intersect::curve_edge::CurveEdgeIntersection;
use crate::algorithms::intersect::curve_face::{
    cycle_hits, edge_hits, merged_spec, rank_of, sorted_spec, CurveFaceIntersection,
    CurveFaceIntersectionInterval,
};
use crate::algorithms::intersect::face_face::FaceFaceIntersection;
use crate::algorithms::intersect::intervals::{
    covers, merge_keeps_order, merge_keeps_what_both_cover, ordered,
    pairs_of_ascending_are_ordered, sorting_orders_and_permutes, within,
};
use crate::algorithms::intersect::surface_surface::{meeting_lines_spec, plane_of_spec};
use crate::objects::curve::Curve;
use crate::objects::cycle::CycleView;
use crate::objects::edge::HalfEdge;
use crate::objects::face::FaceView;
use crate::objects::surface::Surface;
use crate::objects::ObjectsView;
use crate::validate::ValidationError;

verus! {

/// The two lines in the other order.
pub open spec fn exchanged(lines: Result<Option<(Line<2>, Line<2>)>, ValidationError>) -> Result<
    Option<(Line<2>, Line<2>)>,
    ValidationError,
> {
    match lines {
        Ok(Some((first, second))) => Ok(Some((second, first))),
        other => other,
    }
}

/// Whether two planes meet in the same line, with the same coordinates on
/// it, whichever of them is named first.
pub open spec fn line_is_the_same_either_way(a: Surface, b: Surface) -> bool {
    match (plane_of_spec(a), plane_of_spec(b)) {
        (Ok(first), Ok(second)) => meeting_lines_spec(second, first) == exchanged(
            meeting_lines_spec(first, second),
        ),
        _ => true,
    }
}

/// Where a curve crosses half-edges depends on nothing of the curve but its
/// path.
pub proof fn edge_hits_depend_on_the_path(
    first: Curve,
    second: Curve,
    edges: Seq<HalfEdge>,
    found: Seq<Point<1>>,
)
    requires
        first.path == second.path,
    ensures
        edge_hits(first, edges, found) == edge_hits(second, edges, found),
    decreases edges.len(),
{
    reveal(CurveEdgeIntersection::compute_spec);
    if edges.len() > 0 {
        match CurveEdgeIntersection::compute_spec(first, edges[0]) {
            Err(_) => {},
            Ok(None) => {
                edge_hits_depend_on_the_path(first, second, edges.drop_first(), found);
            },
            Ok(Some(CurveEdgeIntersection::Point { point_on_curve })) => {
                edge_hits_depend_on_the_path(
                    first,
                    second,
                    edges.drop_first(),
                    found.push(point_on_curve),
                );
            },
            Ok(Some(CurveEdgeIntersection::Coincident { points_on_curve })) => {
                edge_hits_depend_on_the_path(
                    first,
                    second,
                    edges.drop_first(),
                    found.push(points_on_curve[0]).push(points_on_curve[1]),
                );
            },
        }
    }
}

/// Where a curve crosses cycles depends on nothing of the curve but its
/// path.
pub proof fn cycle_hits_depend_on_the_path(
    first: Curve,
    second: Curve,
    cycles: Seq<CycleView>,
    found: Seq<Point<1>>,
)
    requires
        first.path == second.path,
    ensures
        cycle_hits(first, cycles, found) == cycle_hits(second, cycles, found),
    decreases cycles.len(),
{
    if cycles.len() > 0 {
        edge_hits_depend_on_the_path(first, second, cycles[0].half_edges, found);
        if let Ok(more) = edge_hits(first, cycles[0].half_edges, found) {
            cycle_hits_depend_on_the_path(first, second, cycles.drop_first(), more);
        }
    }
}

/// The part of a curve within a face depends on nothing of the curve but
/// its path, and is an ordered list of stretches.
pub proof fn cut_depends_on_the_path(first: Curve, second: Curve, face: FaceView)
    requires
        first.path == second.path,
    ensures
        CurveFaceIntersection::compute_spec(first, face) == CurveFaceIntersection::compute_spec(
            second,
            face,
        ),
        CurveFaceIntersection::compute_spec(first, face) matches Ok(list) ==> ordered(list),
{
    edge_hits_depend_on_the_path(first, second, face.exterior.half_edges, Seq::empty());
    if let Ok(found) = edge_hits(first, face.exterior.half_edges, Seq::empty()) {
        cycle_hits_depend_on_the_path(first, second, face.interiors, found);
    }
    if let Ok(hits) = CurveFaceIntersection::hits_spec(first, face) {
        sorting_orders_and_permutes(hits);
        pairs_of_ascending_are_ordered(sorted_spec(hits));
    }
}

/// An ordered list of stretches covers nothing exactly if it is empty.
pub proof fn something_is_covered(list: Seq<CurveFaceIntersectionInterval>)
    requires
        ordered(list),
        list.len() > 0,
    ensures
        covers(list, rank_of(list[0][0])),
{
    assert(rank_of(list[0][0]) <= rank_of(list[0][1]));
    assert(within(list[0], rank_of(list[0][0])));
}

/// Where the surfaces of two faces meet in the same line whichever of them
/// is named first, the faces intersect in the same way whichever of them is
/// named first: an intersection is found for both orders or for neither,
/// its stretches cover the same curve coordinates, and the curve on the
/// surface of each face has the same path. The curves themselves are new
/// objects of each call, and so is their global curve.
pub proof fn face_intersection_is_symmetric_where_the_line_is(
    a: FaceView,
    b: FaceView,
    first: ObjectsView,
    second: ObjectsView,
)
    requires
        line_is_the_same_either_way(a.surface.object, b.surface.object),
        FaceFaceIntersection::compute_spec(a, b, first) is Ok,
        FaceFaceIntersection::compute_spec(b, a, second) is Ok,
    ensures
        ({
            let ab = FaceFaceIntersection::compute_spec(a, b, first)->Ok_0.0;
            let ba = FaceFaceIntersection::compute_spec(b, a, second)->Ok_0.0;
            &&& ab is None <==> ba is None
            &&& ab is Some ==> {
                &&& forall|x: int| #[trigger]
                    covers(ab->Some_0.intersection_intervals, x) <==> covers(
                        ba->Some_0.intersection_intervals,
                        x,
                    )
                &&& ab->Some_0.intersection_curves[0].object.surface == a.surface
                &&& ba->Some_0.intersection_curves[1].object.surface == a.surface
                &&& ab->Some_0.intersection_curves[1].object.surface == b.surface
                &&& ba->Some_0.intersection_curves[0].object.surface == b.surface
                &&& ab->Some_0.intersection_curves[0].object.path
                    == ba->Some_0.intersection_curves[1].object.path
                &&& ab->Some_0.intersection_curves[1].object.path
                    == ba->Some_0.intersection_curves[0].object.path
            }
        }),
{
    let plane_a = plane_of_spec(a.surface.object)->Ok_0;
    let plane_b = plane_of_spec(b.surface.object)->Ok_0;
    let lines = meeting_lines_spec(plane_a, plane_b);
    if let Ok(Some((on_a, on_b))) = lines {
        let ab_curves = crate::algorithms::intersect::surface_surface::SurfaceSurfaceIntersection::compute_spec(
            [a.surface, b.surface],
            first,
        )->Ok_0.0->Some_0.intersection_curves;
        let ba_curves = crate::algorithms::intersect::surface_surface::SurfaceSurfaceIntersection::compute_spec(
            [b.surface, a.surface],
            second,
        )->Ok_0.0->Some_0.intersection_curves;
        cut_depends_on_the_path(ab_curves[0].object, ba_curves[1].object, a);
        cut_depends_on_the_path(ab_curves[1].object, ba_curves[0].object, b);
        let in_a = CurveFaceIntersection::compute_spec(ab_curves[0].object, a)->Ok_0;
        let in_b = CurveFaceIntersection::compute_spec(ab_curves[1].object, b)->Ok_0;
        let forth = merged_spec(in_a, in_b);
        let back = merged_spec(in_b, in_a);
        merge_keeps_order(in_a, in_b);
        merge_keeps_order(in_b, in_a);
        assert forall|x: int| #[trigger] covers(forth, x) <==> covers(back, x) by {
            merge_keeps_what_both_cover(in_a, in_b, x);
            merge_keeps_what_both_cover(in_b, in_a, x);
        }
        if forth.len() > 0 {
            something_is_covered(forth);
            assert(covers(back, rank_of(forth[0][0])));
        }
        if back.len() > 0 {
            something_is_covered(back);
            assert(covers(forth, rank_of(back[0][0])));
        }
    }
}

} // verus!
