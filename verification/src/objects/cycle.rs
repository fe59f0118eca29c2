//! Cycles: closed chains of half-edges on one surface.

use vstd::prelude::*;

use crate::objects::edge::HalfEdge;
use crate::objects::surface::Surface;
use crate::storage::Handle;
use crate::validate::ValidationError;

verus! {

/// A chain of half-edges that bounds a region of a surface.
#[derive(Debug, PartialEq, Eq, Hash)]
pub struct Cycle {
    pub surface: Handle<Surface>,
    pub half_edges: Vec<HalfEdge>,
}

/// What a cycle holds.
pub struct CycleView {
    pub surface: Handle<Surface>,
    pub half_edges: Seq<HalfEdge>,
}

impl View for Cycle {
    type V = CycleView;

    open spec fn view(&self) -> CycleView {
        CycleView { surface: self.surface, half_edges: self.half_edges@ }
    }
}

/// Whether every one of the half-edges runs on a curve of `surface`.
pub open spec fn all_on_surface(surface: Handle<Surface>, half_edges: Seq<HalfEdge>) -> bool {
    forall|i: int|
        0 <= i < half_edges.len() ==> (#[trigger] half_edges[i]).vertices[0].curve.object.surface.id
            == surface.id
}

impl CycleView {
    /// A cycle is well-formed if all its half-edges run on its surface.
    pub open spec fn wf(self) -> bool {
        all_on_surface(self.surface, self.half_edges)
    }
}

impl Cycle {
    /// What [`Cycle::new`] returns.
    pub open spec fn new_spec(surface: Handle<Surface>, half_edges: Seq<HalfEdge>) -> Result<
        CycleView,
        ValidationError,
    > {
        if all_on_surface(surface, half_edges) {
            Ok(CycleView { surface, half_edges })
        } else {
            Err(ValidationError::Mismatch)
        }
    }

    /// The cycle of the given half-edges on `surface`. It fails with
    /// [`ValidationError::Mismatch`] where a half-edge runs on a curve of
    /// another surface.
    pub fn new(surface: Handle<Surface>, half_edges: Vec<HalfEdge>) -> (r: Result<
        Cycle,
        ValidationError,
    >)
        ensures
            match Self::new_spec(surface, half_edges@) {
                Ok(view) => r is Ok && r->Ok_0@ == view,
                Err(e) => r is Err && r->Err_0 == e,
            },
            r matches Ok(cycle) ==> cycle@.wf(),
    {
        let mut i: usize = 0;
        while i < half_edges.len()
            invariant
                i <= half_edges.len(),
                all_on_surface(surface, half_edges@.take(i as int)),
            decreases half_edges.len() - i,
        {
            if half_edges[i].curve().object.surface.id != surface.id {
                return Err(ValidationError::Mismatch);
            }
            i += 1;
        }
        assert(half_edges@.take(i as int) =~= half_edges@);
        Ok(Cycle { surface, half_edges })
    }

    /// A copy of the cycle.
    pub fn duplicate(&self) -> (r: Cycle)
        ensures
            r@ == self@,
    {
        let mut half_edges: Vec<HalfEdge> = Vec::new();
        let mut i: usize = 0;
        while i < self.half_edges.len()
            invariant
                i <= self.half_edges.len(),
                half_edges@ == self.half_edges@.take(i as int),
            decreases self.half_edges.len() - i,
        {
            half_edges.push(self.half_edges[i]);
            assert(self.half_edges@.take(i + 1) =~= self.half_edges@.take(i as int).push(
                self.half_edges@[i as int],
            ));
            i += 1;
        }
        assert(self.half_edges@.take(i as int) =~= self.half_edges@);
        Cycle { surface: self.surface, half_edges }
    }
}

} // verus!
