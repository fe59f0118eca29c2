//! Partial objects: objects under construction, any field of which may still
//! be absent.
//!
//! A partial object is created empty, filled by its `with_` methods, each of
//! which leaves a field as it is when handed `None`, and consumed by `build`,
//! which derives what is absent from what is there and fails where it cannot.

use fj_math::Point;
use vstd::prelude::*;

pub mod curve;
pub mod cycle;
pub mod edge;
pub mod held;
pub mod vertex;

use crate::objects::ObjectsView;
use crate::validate::ValidationError;

verus! {

/// Either a finished object or a partial one.
#[derive(Clone, Copy, Debug, PartialEq, Eq, Hash)]
pub enum MaybePartial<F, P> {
    Full(F),
    Partial(P),
}

/// The points that `fj_math` places on circles while a vertex is built: a
/// build reads `on_curve` where it has to find the surface position of a
/// vertex on a circular curve, and `on_path` where it has to find the
/// position in space of a vertex on a surface that sweeps a circle. Nothing
/// but `fj_math` and the machine says which points these are. Where no
/// circle is in play, a build reads neither.
pub struct VertexDraw {
    pub on_curve: Point<2>,
    pub on_path: Point<3>,
}

/// The points that `fj_math` places on circles while the two vertices of a
/// half-edge are built.
pub struct EdgeDraw {
    pub back: VertexDraw,
    pub front: VertexDraw,
}

/// The field `current` after an update with `update`: the update where there
/// is one, else the field as it was.
pub open spec fn overlay<T>(current: Option<T>, update: Option<T>) -> Option<T> {
    if update is Some {
        update
    } else {
        current
    }
}

/// Whether an operation on the stores came out as `model` says: with the
/// result and the stores that `model` gives on success, with its error on
/// failure, and in either case with stores that kept all they held `before`.
pub open spec fn outcome<T>(
    model: Result<(T, ObjectsView), ValidationError>,
    r: Result<T, ValidationError>,
    before: ObjectsView,
    after: ObjectsView,
) -> bool {
    &&& after.extends(before)
    &&& match model {
        Ok((value, stores)) => r == Ok::<T, ValidationError>(value) && after == stores,
        Err(e) => r == Err::<T, ValidationError>(e),
    }
}

} // verus!
