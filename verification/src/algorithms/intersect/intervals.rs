//! What sorting crossings and merging stretches of a curve mean.
//!
//! A list of stretches stands for the set of curve coordinates that its
//! stretches cover, their ends included. The lists that the kernel computes
//! are ordered: no stretch ends before it starts, and none starts before
//! the one in front of it has ended. For ordered lists, merging two lists
//! gives a list that covers exactly what both cover.

use fj_math::Point;
use vstd::prelude::*;

use crate::algorithms::intersect::curve_face::{
    earlier, insertion_index, later, merged_spec, pairs_spec, rank_of, sorted_spec,
    CurveFaceIntersectionInterval,
};

verus! {

/// Whether the coordinates stand in ascending order.
pub open spec fn ascending(points: Seq<Point<1>>) -> bool {
    forall|i: int, j: int|
        0 <= i < j < points.len() ==> rank_of(#[trigger] points[i]) <= rank_of(
            #[trigger] points[j],
        )
}

/// Whether no stretch ends before it starts, and none starts before an
/// earlier one of the list has ended.
pub open spec fn ordered(list: Seq<CurveFaceIntersectionInterval>) -> bool {
    &&& forall|i: int|
        0 <= i < list.len() ==> rank_of((#[trigger] list[i])[0]) <= rank_of(list[i][1])
    &&& forall|i: int, j: int|
        0 <= i < j < list.len() ==> rank_of((#[trigger] list[i])[1]) <= rank_of(
            (#[trigger] list[j])[0],
        )
}

/// Whether the stretch reaches the place `x` in the order of coordinates.
pub open spec fn within(interval: CurveFaceIntersectionInterval, x: int) -> bool {
    rank_of(interval[0]) <= x <= rank_of(interval[1])
}

/// Whether one of the stretches reaches the place `x`.
pub open spec fn covers(list: Seq<CurveFaceIntersectionInterval>, x: int) -> bool
    decreases list.len(),
{
    list.len() > 0 && (within(list[0], x) || covers(list.drop_first(), x))
}

/// A coordinate enters an ascending list behind all that are not later than
/// it and in front of all that are.
pub proof fn insertion_index_is_the_place(sorted: Seq<Point<1>>, x: Point<1>)
    ensures
        0 <= insertion_index(sorted, x) <= sorted.len(),
        ascending(sorted) ==> forall|k: int|
            0 <= k < sorted.len() ==> (rank_of(#[trigger] sorted[k]) <= rank_of(x) <==> k
                < insertion_index(sorted, x)),
    decreases sorted.len(),
{
    if sorted.len() == 0 || rank_of(x) < rank_of(sorted[0]) {
    } else {
        let rest = sorted.drop_first();
        insertion_index_is_the_place(rest, x);
        if ascending(sorted) {
            assert forall|i: int, j: int| 0 <= i < j < rest.len() implies rank_of(
                #[trigger] rest[i],
            ) <= rank_of(#[trigger] rest[j]) by {
                assert(rest[i] == sorted[i + 1]);
                assert(rest[j] == sorted[j + 1]);
            }
            assert forall|k: int| 0 <= k < sorted.len() implies (rank_of(#[trigger] sorted[k])
                <= rank_of(x) <==> k < insertion_index(sorted, x)) by {
                if k > 0 {
                    assert(sorted[k] == rest[k - 1]);
                }
            }
        }
    }
}

/// Sorting puts the coordinates into ascending order and neither adds nor
/// loses one.
pub proof fn sorting_orders_and_permutes(points: Seq<Point<1>>)
    ensures
        ascending(sorted_spec(points)),
        sorted_spec(points).len() == points.len(),
        sorted_spec(points).to_multiset() == points.to_multiset(),
    decreases points.len(),
{
    if points.len() == 0 {
        assert(sorted_spec(points) =~= points);
    } else {
        let front = points.drop_last();
        let x = points.last();
        let sorted = sorted_spec(front);
        let at = insertion_index(sorted, x);
        let result = sorted.insert(at, x);
        sorting_orders_and_permutes(front);
        insertion_index_is_the_place(sorted, x);
        sorted.insert_ensures(at, x);
        assert forall|i: int, j: int| 0 <= i < j < result.len() implies rank_of(
            #[trigger] result[i],
        ) <= rank_of(#[trigger] result[j]) by {
            if i < at && j > at {
                assert(result[i] == sorted[i]);
                assert(result[j] == sorted[j - 1]);
            } else if i < at && j < at {
                assert(result[i] == sorted[i]);
                assert(result[j] == sorted[j]);
            } else if i < at && j == at {
                assert(result[i] == sorted[i]);
            } else if i == at {
                assert(result[j] == sorted[j - 1]);
            } else {
                assert(result[i] == sorted[i - 1]);
                assert(result[j] == sorted[j - 1]);
            }
        }
        vstd::seq_lib::to_multiset_insert(sorted, at, x);
        vstd::seq_lib::to_multiset_build(front, x);
        assert(points =~= front.push(x));
    }
}

/// Ascending coordinates, taken two by two, make an ordered list.
pub proof fn pairs_of_ascending_are_ordered(points: Seq<Point<1>>)
    requires
        ascending(points),
    ensures
        ordered(pairs_spec(points)),
{
    let pairs = pairs_spec(points);
    assert forall|i: int| 0 <= i < pairs.len() implies rank_of((#[trigger] pairs[i])[0])
        <= rank_of(pairs[i][1]) by {
        assert(pairs[i][0] == points[2 * i]);
        assert(pairs[i][1] == points[2 * i + 1]);
    }
    assert forall|i: int, j: int| 0 <= i < j < pairs.len() implies rank_of(
        (#[trigger] pairs[i])[1],
    ) <= rank_of((#[trigger] pairs[j])[0]) by {
        assert(pairs[i][1] == points[2 * i + 1]);
        assert(pairs[j][0] == points[2 * j]);
    }
}

/// What is left of an ordered list behind its first stretch is ordered.
pub proof fn rest_is_ordered(list: Seq<CurveFaceIntersectionInterval>)
    requires
        ordered(list),
        list.len() > 0,
    ensures
        ordered(list.drop_first()),
{
    let rest = list.drop_first();
    assert forall|i: int| 0 <= i < rest.len() implies rank_of((#[trigger] rest[i])[0]) <= rank_of(
        rest[i][1],
    ) by {
        assert(rest[i] == list[i + 1]);
    }
    assert forall|i: int, j: int| 0 <= i < j < rest.len() implies rank_of(
        (#[trigger] rest[i])[1],
    ) <= rank_of((#[trigger] rest[j])[0]) by {
        assert(rest[i] == list[i + 1]);
        assert(rest[j] == list[j + 1]);
    }
}

/// What the stretches behind the first one of an ordered list cover lies
/// not before the end of the first.
pub proof fn rest_lies_behind(list: Seq<CurveFaceIntersectionInterval>, x: int)
    requires
        ordered(list),
        list.len() > 0,
        covers(list.drop_first(), x),
    ensures
        rank_of(list[0][1]) <= x,
    decreases list.len(),
{
    let rest = list.drop_first();
    rest_is_ordered(list);
    assert(rest[0] == list[1]);
    assert(rank_of(list[0][1]) <= rank_of(list[1][0]));
    assert(rank_of(list[1][0]) <= rank_of(list[1][1]));
    if !within(rest[0], x) {
        rest_lies_behind(rest, x);
    }
}

/// Merging two ordered lists gives a list that covers exactly what both of
/// them cover.
pub proof fn merge_keeps_what_both_cover(
    a: Seq<CurveFaceIntersectionInterval>,
    b: Seq<CurveFaceIntersectionInterval>,
    x: int,
)
    requires
        ordered(a),
        ordered(b),
    ensures
        covers(merged_spec(a, b), x) <==> (covers(a, x) && covers(b, x)),
    decreases a.len() + b.len(),
{
    if a.len() == 0 || b.len() == 0 {
    } else {
        let start = later(a[0][0], b[0][0]);
        let end = earlier(a[0][1], b[0][1]);
        let common = if rank_of(start) <= rank_of(end) {
            seq![[start, end]]
        } else {
            Seq::empty()
        };
        let rest_a = if rank_of(a[0][1]) <= rank_of(end) {
            a.drop_first()
        } else {
            a
        };
        let rest_b = if rank_of(b[0][1]) <= rank_of(end) {
            b.drop_first()
        } else {
            b
        };
        let rest = merged_spec(rest_a, rest_b);
        rest_is_ordered(a);
        rest_is_ordered(b);
        merge_keeps_what_both_cover(rest_a, rest_b, x);
        assert(rank_of(a[0][0]) <= rank_of(a[0][1]));
        assert(rank_of(b[0][0]) <= rank_of(b[0][1]));
        if rank_of(start) <= rank_of(end) {
            assert((common + rest).drop_first() =~= rest);
            assert((common + rest)[0] == [start, end]);
            assert(covers(common + rest, x) <==> (within([start, end], x) || covers(rest, x)));
        } else {
            assert(common + rest =~= rest);
        }
        if covers(a.drop_first(), x) {
            rest_lies_behind(a, x);
        }
        if covers(b.drop_first(), x) {
            rest_lies_behind(b, x);
        }
    }
}

/// Merging does not depend on the order of the two lists: either way the
/// result covers the same.
pub proof fn merge_is_symmetric(
    a: Seq<CurveFaceIntersectionInterval>,
    b: Seq<CurveFaceIntersectionInterval>,
    x: int,
)
    requires
        ordered(a),
        ordered(b),
    ensures
        covers(merged_spec(a, b), x) <==> covers(merged_spec(b, a), x),
{
    merge_keeps_what_both_cover(a, b, x);
    merge_keeps_what_both_cover(b, a, x);
}

/// No stretch of a merged list starts before the first stretch of either
/// list.
pub proof fn merged_starts_late(
    a: Seq<CurveFaceIntersectionInterval>,
    b: Seq<CurveFaceIntersectionInterval>,
)
    requires
        ordered(a),
        ordered(b),
        a.len() > 0,
        b.len() > 0,
    ensures
        forall|k: int|
            0 <= k < merged_spec(a, b).len() ==> rank_of(a[0][0]) <= rank_of(
                (#[trigger] merged_spec(a, b)[k])[0],
            ) && rank_of(b[0][0]) <= rank_of(merged_spec(a, b)[k][0]),
    decreases a.len() + b.len(),
{
    let start = later(a[0][0], b[0][0]);
    let end = earlier(a[0][1], b[0][1]);
    let common = if rank_of(start) <= rank_of(end) {
        seq![[start, end]]
    } else {
        Seq::empty()
    };
    let rest_a = if rank_of(a[0][1]) <= rank_of(end) {
        a.drop_first()
    } else {
        a
    };
    let rest_b = if rank_of(b[0][1]) <= rank_of(end) {
        b.drop_first()
    } else {
        b
    };
    let rest = merged_spec(rest_a, rest_b);
    let merged = merged_spec(a, b);
    rest_is_ordered(a);
    rest_is_ordered(b);
    assert(rank_of(a[0][0]) <= rank_of(a[0][1]));
    assert(rank_of(b[0][0]) <= rank_of(b[0][1]));
    if rest_a.len() > 0 && rest_b.len() > 0 {
        merged_starts_late(rest_a, rest_b);
        if a.len() > 1 {
            assert(a.drop_first()[0] == a[1]);
            assert(rank_of(a[0][1]) <= rank_of(a[1][0]));
        }
        if b.len() > 1 {
            assert(b.drop_first()[0] == b[1]);
            assert(rank_of(b[0][1]) <= rank_of(b[1][0]));
        }
        assert(rank_of(a[0][0]) <= rank_of(rest_a[0][0]));
        assert(rank_of(b[0][0]) <= rank_of(rest_b[0][0]));
    }
    assert forall|k: int| 0 <= k < merged.len() implies rank_of(a[0][0]) <= rank_of(
        (#[trigger] merged[k])[0],
    ) && rank_of(b[0][0]) <= rank_of(merged[k][0]) by {
        if rank_of(start) <= rank_of(end) {
            if k == 0 {
                assert(merged[0] == [start, end]);
            } else {
                assert(merged[k] == rest[k - 1]);
            }
        } else {
            assert(merged[k] == rest[k]);
        }
    }
}

/// Merging two ordered lists gives an ordered list.
pub proof fn merge_keeps_order(
    a: Seq<CurveFaceIntersectionInterval>,
    b: Seq<CurveFaceIntersectionInterval>,
)
    requires
        ordered(a),
        ordered(b),
    ensures
        ordered(merged_spec(a, b)),
    decreases a.len() + b.len(),
{
    if a.len() == 0 || b.len() == 0 {
    } else {
        let start = later(a[0][0], b[0][0]);
        let end = earlier(a[0][1], b[0][1]);
        let common = if rank_of(start) <= rank_of(end) {
            seq![[start, end]]
        } else {
            Seq::empty()
        };
        let rest_a = if rank_of(a[0][1]) <= rank_of(end) {
            a.drop_first()
        } else {
            a
        };
        let rest_b = if rank_of(b[0][1]) <= rank_of(end) {
            b.drop_first()
        } else {
            b
        };
        let rest = merged_spec(rest_a, rest_b);
        let merged = merged_spec(a, b);
        rest_is_ordered(a);
        rest_is_ordered(b);
        merge_keeps_order(rest_a, rest_b);
        if rest_a.len() > 0 && rest_b.len() > 0 {
            merged_starts_late(rest_a, rest_b);
            if rank_of(a[0][1]) <= rank_of(end) {
                assert(rest_a[0] == a[1]);
                assert(rank_of(a[0][1]) <= rank_of(a[1][0]));
            } else {
                assert(rest_b[0] == b[1]);
                assert(rank_of(b[0][1]) <= rank_of(b[1][0]));
            }
        }
        assert forall|i: int| 0 <= i < merged.len() implies rank_of((#[trigger] merged[i])[0])
            <= rank_of(merged[i][1]) by {
            if rank_of(start) <= rank_of(end) {
                if i == 0 {
                    assert(merged[0] == [start, end]);
                } else {
                    assert(merged[i] == rest[i - 1]);
                }
            } else {
                assert(merged[i] == rest[i]);
            }
        }
        assert forall|i: int, j: int| 0 <= i < j < merged.len() implies rank_of(
            (#[trigger] merged[i])[1],
        ) <= rank_of((#[trigger] merged[j])[0]) by {
            if rank_of(start) <= rank_of(end) {
                assert(merged[j] == rest[j - 1]);
                if i == 0 {
                    assert(merged[0] == [start, end]);
                } else {
                    assert(merged[i] == rest[i - 1]);
                }
            } else {
                assert(merged[i] == rest[i]);
                assert(merged[j] == rest[j]);
            }
        }
    }
}

} // verus!
