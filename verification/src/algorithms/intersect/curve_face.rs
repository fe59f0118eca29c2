//! The intersection of a curve and a face on one surface.

use fj_math::Point;
use vstd::prelude::*;

use crate::algorithms::intersect::curve_edge::CurveEdgeIntersection;
use crate::algorithms::intersect::intervals::{
    covers, merge_keeps_order, merge_keeps_what_both_cover, ordered,
    pairs_of_ascending_are_ordered, sorting_orders_and_permutes,
};
use crate::math::scalar::{less, scalar_rank};
use crate::objects::curve::Curve;
use crate::objects::cycle::{Cycle, CycleView};
use crate::objects::edge::HalfEdge;
use crate::objects::face::{Face, FaceView};
use crate::validate::ValidationError;

verus! {

/// A stretch of a curve, from the first curve coordinate to the second.
pub type CurveFaceIntersectionInterval = [Point<1>; 2];

/// The part of a curve that lies within a face: a list of stretches of the
/// curve, each from one crossing of the boundary of the face to the next.
#[derive(Debug, PartialEq, Eq, Hash)]
pub struct CurveFaceIntersection {
    pub intervals: Vec<CurveFaceIntersectionInterval>,
}

impl View for CurveFaceIntersection {
    type V = Seq<CurveFaceIntersectionInterval>;

    open spec fn view(&self) -> Seq<CurveFaceIntersectionInterval> {
        self.intervals@
    }
}

/// The place of a curve coordinate in the order of all curve coordinates.
pub open spec fn rank_of(p: Point<1>) -> int {
    scalar_rank(p.coords.components[0])
}

/// The later of two curve coordinates; the second where they are equal.
pub open spec fn later(a: Point<1>, b: Point<1>) -> Point<1> {
    if rank_of(b) < rank_of(a) {
        a
    } else {
        b
    }
}

/// The earlier of two curve coordinates; the first where they are equal.
pub open spec fn earlier(a: Point<1>, b: Point<1>) -> Point<1> {
    if rank_of(b) < rank_of(a) {
        b
    } else {
        a
    }
}

/// The crossings `found`, followed by those of `curve` with the half-edges
/// `edges`, in the order of the half-edges. A half-edge that lies on the
/// curve counts for two crossings, at its ends.
pub open spec fn edge_hits(curve: Curve, edges: Seq<HalfEdge>, found: Seq<Point<1>>) -> Result<
    Seq<Point<1>>,
    ValidationError,
>
    decreases edges.len(),
{
    if edges.len() == 0 {
        Ok(found)
    } else {
        match CurveEdgeIntersection::compute_spec(curve, edges[0]) {
            Err(e) => Err(e),
            Ok(None) => edge_hits(curve, edges.drop_first(), found),
            Ok(Some(CurveEdgeIntersection::Point { point_on_curve })) => edge_hits(
                curve,
                edges.drop_first(),
                found.push(point_on_curve),
            ),
            Ok(Some(CurveEdgeIntersection::Coincident { points_on_curve })) => edge_hits(
                curve,
                edges.drop_first(),
                found.push(points_on_curve[0]).push(points_on_curve[1]),
            ),
        }
    }
}

/// The crossings `found`, followed by those of `curve` with the half-edges
/// of each of `cycles`.
pub open spec fn cycle_hits(curve: Curve, cycles: Seq<CycleView>, found: Seq<Point<1>>) -> Result<
    Seq<Point<1>>,
    ValidationError,
>
    decreases cycles.len(),
{
    if cycles.len() == 0 {
        Ok(found)
    } else {
        match edge_hits(curve, cycles[0].half_edges, found) {
            Err(e) => Err(e),
            Ok(more) => cycle_hits(curve, cycles.drop_first(), more),
        }
    }
}

/// The number of leading coordinates of `sorted` that are not later than
/// `x`: the place at which `x` enters a sorted list, behind its equals.
pub open spec fn insertion_index(sorted: Seq<Point<1>>, x: Point<1>) -> int
    decreases sorted.len(),
{
    if sorted.len() == 0 || rank_of(x) < rank_of(sorted[0]) {
        0
    } else {
        1 + insertion_index(sorted.drop_first(), x)
    }
}

/// The coordinates in ascending order, equals in the order in which they
/// came.
pub open spec fn sorted_spec(points: Seq<Point<1>>) -> Seq<Point<1>>
    decreases points.len(),
{
    if points.len() == 0 {
        Seq::empty()
    } else {
        let sorted = sorted_spec(points.drop_last());
        sorted.insert(insertion_index(sorted, points.last()), points.last())
    }
}

/// The coordinates taken two by two.
pub open spec fn pairs_spec(points: Seq<Point<1>>) -> Seq<CurveFaceIntersectionInterval> {
    Seq::new((points.len() / 2) as nat, |i: int| [points[2 * i], points[2 * i + 1]])
}

/// The stretches that two lists of stretches have in common, found by
/// walking along both lists at once: the common part of the two stretches at
/// hand, where they have one, and then the same for the rest, where the
/// stretch that ends first has been passed.
pub open spec fn merged_spec(
    a: Seq<CurveFaceIntersectionInterval>,
    b: Seq<CurveFaceIntersectionInterval>,
) -> Seq<CurveFaceIntersectionInterval>
    decreases a.len() + b.len(),
{
    if a.len() == 0 || b.len() == 0 {
        Seq::empty()
    } else {
        let start = later(a[0][0], b[0][0]);
        let end = earlier(a[0][1], b[0][1]);
        let common = if rank_of(start) <= rank_of(end) {
            seq![[start, end]]
        } else {
            Seq::empty()
        };
        let rest_a = if rank_of(a[0][1]) <= rank_of(end) {
            a.drop_first()
        } else {
            a
        };
        let rest_b = if rank_of(b[0][1]) <= rank_of(end) {
            b.drop_first()
        } else {
            b
        };
        common + merged_spec(rest_a, rest_b)
    }
}

/// Appends to `found` the crossings of `curve` with the half-edges of
/// `cycle`.
#[verifier::loop_isolation(false)]
fn collect_hits(curve: &Curve, cycle: &Cycle, found: &mut Vec<Point<1>>) -> (r: Result<
    (),
    ValidationError,
>)
    ensures
        match edge_hits(*curve, cycle@.half_edges, old(found)@) {
            Ok(all) => r is Ok && final(found)@ == all,
            Err(e) => r is Err && r->Err_0 == e,
        },
{
    let ghost whole = edge_hits(*curve, cycle@.half_edges, found@);
    assert(cycle@.half_edges.skip(0) =~= cycle@.half_edges);
    let mut i: usize = 0;
    while i < cycle.half_edges.len()
        invariant
            i <= cycle.half_edges.len(),
            edge_hits(*curve, cycle@.half_edges.skip(i as int), found@) == whole,
        decreases cycle.half_edges.len() - i,
    {
        assert(cycle@.half_edges.skip(i as int).drop_first() =~= cycle@.half_edges.skip(i + 1));
        match CurveEdgeIntersection::compute(curve, &cycle.half_edges[i]) {
            Err(e) => { return Err(e); },
            Ok(None) => {},
            Ok(Some(CurveEdgeIntersection::Point { point_on_curve })) => {
                found.push(point_on_curve);
            },
            Ok(Some(CurveEdgeIntersection::Coincident { points_on_curve })) => {
                found.push(points_on_curve[0]);
                found.push(points_on_curve[1]);
            },
        }
        i += 1;
    }
    Ok(())
}

/// The place at which `x` enters the sorted list.
fn index_for(sorted: &Vec<Point<1>>, x: &Point<1>) -> (r: usize)
    ensures
        r == insertion_index(sorted@, *x),
        r <= sorted@.len(),
{
    assert(sorted@.skip(0) =~= sorted@);
    let mut j: usize = 0;
    while j < sorted.len() && !less(x.coords.components[0], sorted[j].coords.components[0])
        invariant
            j <= sorted.len(),
            insertion_index(sorted@, *x) == j + insertion_index(sorted@.skip(j as int), *x),
        decreases sorted.len() - j,
    {
        assert(sorted@.skip(j as int).drop_first() =~= sorted@.skip(j + 1));
        j += 1;
    }
    j
}

/// Sorts curve coordinates into ascending order.
pub fn sort_points(points: &Vec<Point<1>>) -> (r: Vec<Point<1>>)
    ensures
        r@ == sorted_spec(points@),
{
    let mut sorted: Vec<Point<1>> = Vec::new();
    let mut i: usize = 0;
    assert(points@.take(0) =~= Seq::<Point<1>>::empty());
    while i < points.len()
        invariant
            i <= points.len(),
            sorted@ == sorted_spec(points@.take(i as int)),
        decreases points.len() - i,
    {
        assert(points@.take(i + 1).drop_last() =~= points@.take(i as int));
        let at = index_for(&sorted, &points[i]);
        sorted.insert(at, points[i]);
        i += 1;
    }
    assert(points@.take(i as int) =~= points@);
    sorted
}

/// Takes curve coordinates two by two.
fn pair_up(points: &Vec<Point<1>>) -> (r: Vec<CurveFaceIntersectionInterval>)
    ensures
        r@ == pairs_spec(points@),
{
    let count = points.len() / 2;
    let mut pairs: Vec<CurveFaceIntersectionInterval> = Vec::new();
    let mut k: usize = 0;
    while k < count
        invariant
            k <= count,
            count == points.len() / 2,
            pairs@.len() == k,
            forall|i: int|
                0 <= i < k ==> #[trigger] pairs@[i] == [points@[2 * i], points@[2 * i + 1]],
        decreases count - k,
    {
        pairs.push([points[2 * k], points[2 * k + 1]]);
        k += 1;
    }
    assert(pairs@ =~= pairs_spec(points@));
    pairs
}

impl CurveFaceIntersection {
    /// The intersection that consists of the given stretches.
    pub fn from_intervals(intervals: Vec<CurveFaceIntersectionInterval>) -> (r: Self)
        ensures
            r@ == intervals@,
    {
        CurveFaceIntersection { intervals }
    }

    /// Whether the curve and the face have nothing in common.
    pub fn is_empty(&self) -> (r: bool)
        ensures
            r == (self@.len() == 0),
    {
        self.intervals.len() == 0
    }

    /// All crossings of `curve` with the boundary of `face`: with the
    /// exterior cycle first, then with each interior cycle.
    pub open spec fn hits_spec(curve: Curve, face: FaceView) -> Result<
        Seq<Point<1>>,
        ValidationError,
    > {
        match edge_hits(curve, face.exterior.half_edges, Seq::empty()) {
            Err(e) => Err(e),
            Ok(found) => cycle_hits(curve, face.interiors, found),
        }
    }

    /// What [`CurveFaceIntersection::compute`] returns.
    pub open spec fn compute_spec(curve: Curve, face: FaceView) -> Result<
        Seq<CurveFaceIntersectionInterval>,
        ValidationError,
    > {
        match Self::hits_spec(curve, face) {
            Err(e) => Err(e),
            Ok(hits) => if hits.len() % 2 != 0 {
                Err(ValidationError::Degenerate)
            } else {
                Ok(pairs_spec(sorted_spec(hits)))
            },
        }
    }

    /// Intersects `curve` with `face`, both taken to lie on one surface.
    ///
    /// The curve enters or leaves the face wherever it crosses a half-edge
    /// of the boundary. The crossings, in ascending order of their curve
    /// coordinates and taken two by two, bound the stretches of the curve
    /// within the face. An odd number of crossings bounds nothing, and the
    /// result is [`ValidationError::Degenerate`].
    #[verifier::loop_isolation(false)]
    #[verifier::rlimit(50)]
    pub fn compute(curve: &Curve, face: &Face) -> (r: Result<Self, ValidationError>)
        ensures
            match Self::compute_spec(*curve, face@) {
                Ok(intervals) => r is Ok && r->Ok_0@ == intervals,
                Err(e) => r is Err && r->Err_0 == e,
            },
            r matches Ok(found) ==> ordered(found@),
    {
        let mut hits: Vec<Point<1>> = Vec::new();
        match collect_hits(curve, &face.exterior, &mut hits) {
            Err(e) => { return Err(e); },
            Ok(()) => {},
        }
        let ghost whole = cycle_hits(*curve, face@.interiors, hits@);
        assert(face@.interiors.skip(0) =~= face@.interiors);
        let mut i: usize = 0;
        while i < face.interiors.len()
            invariant
                i <= face.interiors.len(),
                cycle_hits(*curve, face@.interiors.skip(i as int), hits@) == whole,
            decreases face.interiors.len() - i,
        {
            assert(face@.interiors.skip(i as int).drop_first() =~= face@.interiors.skip(i + 1));
            assert(face@.interiors.skip(i as int)[0] == face.interiors@[i as int]@);
            match collect_hits(curve, &face.interiors[i], &mut hits) {
                Err(e) => { return Err(e); },
                Ok(()) => {},
            }
            i += 1;
        }
        if hits.len() % 2 != 0 {
            return Err(ValidationError::Degenerate);
        }
        let sorted = sort_points(&hits);
        proof {
            sorting_orders_and_permutes(hits@);
            pairs_of_ascending_are_ordered(sorted@);
        }
        Ok(CurveFaceIntersection { intervals: pair_up(&sorted) })
    }

    /// What two intersections of one curve have in common: the stretches
    /// that lie in both. A stretch that two stretches share with no more
    /// than one point is kept, as a stretch of no length.
    ///
    /// Where both lists are ordered, so is the result, and it covers
    /// exactly the curve coordinates that both lists cover.
    #[verifier::rlimit(50)]
    pub fn merge(&self, other: &Self) -> (r: Self)
        ensures
            r@ == merged_spec(self@, other@),
            ordered(self@) && ordered(other@) ==> ordered(r@),
            ordered(self@) && ordered(other@) ==> forall|x: int|
                #[trigger] covers(r@, x) <==> (covers(self@, x) && covers(other@, x)),
    {
        let mut intervals: Vec<CurveFaceIntersectionInterval> = Vec::new();
        let mut i: usize = 0;
        let mut j: usize = 0;
        assert(self@.skip(0) =~= self@);
        assert(other@.skip(0) =~= other@);
        assert(Seq::<CurveFaceIntersectionInterval>::empty() + merged_spec(self@, other@)
            =~= merged_spec(self@, other@));
        while i < self.intervals.len() && j < other.intervals.len()
            invariant
                i <= self.intervals.len(),
                j <= other.intervals.len(),
                intervals@ + merged_spec(self@.skip(i as int), other@.skip(j as int))
                    == merged_spec(self@, other@),
            decreases self.intervals.len() - i + other.intervals.len() - j,
        {
            let ours = self.intervals[i];
            let theirs = other.intervals[j];
            let start = if less(theirs[0].coords.components[0], ours[0].coords.components[0]) {
                ours[0]
            } else {
                theirs[0]
            };
            let end = if less(theirs[1].coords.components[0], ours[1].coords.components[0]) {
                theirs[1]
            } else {
                ours[1]
            };
            let ghost before = intervals@;
            let ghost rest_before = merged_spec(self@.skip(i as int), other@.skip(j as int));
            assert(self@.skip(i as int).drop_first() =~= self@.skip(i + 1));
            assert(other@.skip(j as int).drop_first() =~= other@.skip(j + 1));
            let ghost common = if rank_of(start) <= rank_of(end) {
                seq![[start, end]]
            } else {
                Seq::empty()
            };
            if !less(end.coords.components[0], start.coords.components[0]) {
                intervals.push([start, end]);
            }
            assert(intervals@ =~= before + common);
            let pass_ours = !less(end.coords.components[0], ours[1].coords.components[0]);
            let pass_theirs = !less(end.coords.components[0], theirs[1].coords.components[0]);
            if pass_ours {
                i += 1;
            }
            if pass_theirs {
                j += 1;
            }
            assert(rest_before == common + merged_spec(
                self@.skip(i as int),
                other@.skip(j as int),
            ));
            assert((before + common) + merged_spec(self@.skip(i as int), other@.skip(j as int))
                =~= before + (common + merged_spec(self@.skip(i as int), other@.skip(j as int))));
        }
        proof {
            if ordered(self@) && ordered(other@) {
                merge_keeps_order(self@, other@);
                assert forall|x: int| #[trigger]
                    covers(merged_spec(self@, other@), x) <==> (covers(self@, x) && covers(
                        other@,
                        x,
                    )) by {
                    merge_keeps_what_both_cover(self@, other@, x);
                }
            }
        }
        CurveFaceIntersection { intervals }
    }
}

} // verus!
