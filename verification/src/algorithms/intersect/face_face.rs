//! The intersection of two faces.

use vstd::prelude::*;

use crate::algorithms::intersect::curve_face::{
    merged_spec, CurveFaceIntersection, CurveFaceIntersectionInterval,
};
use crate::algorithms::intersect::intervals::{covers, ordered};
use crate::algorithms::intersect::surface_surface::SurfaceSurfaceIntersection;
use crate::objects::curve::Curve;
use crate::objects::face::{Face, FaceView};
use crate::objects::{Objects, ObjectsView};
use crate::storage::Handle;
use crate::validate::ValidationError;

verus! {

/// An intersection between two faces.
#[derive(Debug, PartialEq, Eq, Hash)]
pub struct FaceFaceIntersection {
    /// The line of the intersection as a curve on the surface of each face,
    /// in the order of the faces. Both are images of one global curve.
    pub intersection_curves: [Handle<Curve>; 2],
    /// The stretches of that line that lie within both faces, in curve
    /// coordinates, which are the same on both curves.
    pub intersection_intervals: CurveFaceIntersection,
}

/// What a face-face intersection holds.
pub struct FaceFaceIntersectionView {
    pub intersection_curves: [Handle<Curve>; 2],
    pub intersection_intervals: Seq<CurveFaceIntersectionInterval>,
}

impl View for FaceFaceIntersection {
    type V = FaceFaceIntersectionView;

    open spec fn view(&self) -> FaceFaceIntersectionView {
        FaceFaceIntersectionView {
            intersection_curves: self.intersection_curves,
            intersection_intervals: self.intersection_intervals@,
        }
    }
}

/// Whether the faces `a` and `b` both reach the place `x` on the curves in
/// which their surfaces meet: `a` on the first curve and `b` on the second.
pub open spec fn both_reach(curves: [Handle<Curve>; 2], a: FaceView, b: FaceView, x: int) -> bool {
    &&& CurveFaceIntersection::compute_spec(curves[0].object, a) matches Ok(in_a) && covers(
        in_a,
        x,
    )
    &&& CurveFaceIntersection::compute_spec(curves[1].object, b) matches Ok(in_b) && covers(
        in_b,
        x,
    )
}

impl FaceFaceIntersection {
    /// What the faces have in common on the curves in which their surfaces
    /// meet: each curve is cut to its own face, and what remains of both is
    /// the intersection, unless it is empty.
    pub open spec fn within_faces_spec(
        curves: [Handle<Curve>; 2],
        a: FaceView,
        b: FaceView,
    ) -> Result<Option<FaceFaceIntersectionView>, ValidationError> {
        match CurveFaceIntersection::compute_spec(curves[0].object, a) {
            Err(e) => Err(e),
            Ok(in_a) => match CurveFaceIntersection::compute_spec(curves[1].object, b) {
                Err(e) => Err(e),
                Ok(in_b) => {
                    let common = merged_spec(in_a, in_b);
                    if common.len() == 0 {
                        Ok(None)
                    } else {
                        Ok(
                            Some(
                                FaceFaceIntersectionView {
                                    intersection_curves: curves,
                                    intersection_intervals: common,
                                },
                            ),
                        )
                    }
                },
            },
        }
    }

    /// What [`FaceFaceIntersection::compute`] returns, and the stores after
    /// it.
    pub open spec fn compute_spec(a: FaceView, b: FaceView, objects: ObjectsView) -> Result<
        (Option<FaceFaceIntersectionView>, ObjectsView),
        ValidationError,
    > {
        match SurfaceSurfaceIntersection::compute_spec([a.surface, b.surface], objects) {
            Err(e) => Err(e),
            Ok((None, stores)) => Ok((None, stores)),
            Ok((Some(surfaces), stores)) => match Self::within_faces_spec(
                surfaces.intersection_curves,
                a,
                b,
            ) {
                Err(e) => Err(e),
                Ok(found) => Ok((found, stores)),
            },
        }
    }

    /// Cuts the curves in which the surfaces of two faces meet to the faces.
    pub fn within_faces(curves: [Handle<Curve>; 2], a: &Face, b: &Face) -> (r: Result<
        Option<FaceFaceIntersection>,
        ValidationError,
    >)
        ensures
            match Self::within_faces_spec(curves, a@, b@) {
                Err(e) => r is Err && r->Err_0 == e,
                Ok(None) => r matches Ok(None),
                Ok(Some(view)) => r matches Ok(Some(found)) && found@ == view,
            },
            r matches Ok(Some(found)) ==> found@.intersection_intervals.len() > 0
                && found.intersection_curves == curves && ordered(
                found@.intersection_intervals,
            ),
            r matches Ok(Some(found)) ==> forall|x: int|
                covers(found@.intersection_intervals, x) <==> #[trigger] both_reach(
                    curves,
                    a@,
                    b@,
                    x,
                ),
            r matches Ok(None) ==> forall|x: int| !#[trigger] both_reach(curves, a@, b@, x),
    {
        let in_a = match CurveFaceIntersection::compute(&curves[0].object, a) {
            Ok(intervals) => intervals,
            Err(e) => { return Err(e); },
        };
        let in_b = match CurveFaceIntersection::compute(&curves[1].object, b) {
            Ok(intervals) => intervals,
            Err(e) => { return Err(e); },
        };
        let common = in_a.merge(&in_b);
        assert forall|x: int| covers(common@, x) <==> #[trigger] both_reach(curves, a@, b@, x) by {
            assert(covers(common@, x) <==> (covers(in_a@, x) && covers(in_b@, x)));
        }
        if common.is_empty() {
            return Ok(None);
        }
        Ok(Some(FaceFaceIntersection { intersection_curves: curves, intersection_intervals: common }))
    }

    /// Intersects two faces.
    ///
    /// Where the surfaces of the faces do not meet, the result is `None`,
    /// and nothing is inserted. Else the line in which they meet is cut to
    /// each face, and what the two cuts have in common is the intersection:
    /// its stretches cover exactly the curve coordinates that both cuts
    /// cover. Where that is nothing, the surfaces cross but the faces miss
    /// each other, and the result is `None` too.
    pub fn compute(faces: [&Face; 2], objects: &mut Objects) -> (r: Result<
        Option<FaceFaceIntersection>,
        ValidationError,
    >)
        ensures
            final(objects)@.extends(old(objects)@),
            match Self::compute_spec(faces[0]@, faces[1]@, old(objects)@) {
                Err(e) => r is Err && r->Err_0 == e,
                Ok((None, stores)) => r matches Ok(None) && final(objects)@ == stores,
                Ok((Some(view), stores)) => r matches Ok(Some(found)) && found@ == view
                    && final(objects)@ == stores,
            },
            r matches Ok(Some(found)) ==> {
                &&& forall|x: int|
                    covers(found@.intersection_intervals, x) <==> #[trigger] both_reach(
                        found.intersection_curves,
                        faces[0]@,
                        faces[1]@,
                        x,
                    )
                &&& found@.intersection_intervals.len() > 0
                &&& ordered(found@.intersection_intervals)
                &&& found.intersection_curves[0].object.surface == faces[0].surface
                &&& found.intersection_curves[1].object.surface == faces[1].surface
                &&& found.intersection_curves[0].object.global_form
                    == found.intersection_curves[1].object.global_form
            },
    {
        let surfaces = [faces[0].surface, faces[1].surface];
        let curves = match SurfaceSurfaceIntersection::compute(surfaces, objects) {
            Err(e) => { return Err(e); },
            Ok(None) => { return Ok(None); },
            Ok(Some(found)) => found.intersection_curves,
        };
        Self::within_faces(curves, faces[0], faces[1])
    }
}

} // verus!
