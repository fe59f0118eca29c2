//! Edges: oriented half-edges on a curve, and their identity in space.

use vstd::prelude::*;

use crate::math::scalar::{equal, same_rank};
use crate::objects::curve::{Curve, GlobalCurve};
use crate::objects::vertex::{GlobalVertex, Vertex};
use crate::storage::Handle;
use crate::validate::ValidationError;

verus! {

/// The two vertices of an edge in space, in an order that does not depend on
/// the direction of the half-edge they were taken from: by ascending id.
#[derive(Clone, Copy, Debug, PartialEq, Eq, Hash)]
pub struct VerticesInNormalizedOrder(pub [Handle<GlobalVertex>; 2]);

/// An edge in space: a global curve and the two global vertices that bound
/// it. Half-edges of either orientation share one global edge.
#[derive(Clone, Copy, Debug, PartialEq, Eq, Hash)]
pub struct GlobalEdge {
    pub curve: Handle<GlobalCurve>,
    pub vertices: VerticesInNormalizedOrder,
}

/// An oriented edge: it runs on the curve of its vertices from the first
/// vertex to the second.
#[derive(Clone, Copy, Debug, PartialEq, Eq, Hash)]
pub struct HalfEdge {
    pub vertices: [Vertex; 2],
    pub global_form: GlobalEdge,
}

/// The two vertices in normalized order.
pub open spec fn normalized(vertices: [Handle<GlobalVertex>; 2]) -> [Handle<GlobalVertex>; 2] {
    if vertices[0].id <= vertices[1].id {
        vertices
    } else {
        [vertices[1], vertices[0]]
    }
}

impl VerticesInNormalizedOrder {
    /// Whether the vertices are in normalized order.
    pub open spec fn wf(self) -> bool {
        self.0[0].id <= self.0[1].id
    }

    /// Puts the vertices into normalized order, and tells whether that
    /// exchanged them.
    pub fn new(vertices: [Handle<GlobalVertex>; 2]) -> (r: (Self, bool))
        ensures
            r.0.0 == normalized(vertices),
            r.1 == (vertices[0].id > vertices[1].id),
            r.0.wf(),
    {
        if vertices[0].id <= vertices[1].id {
            (VerticesInNormalizedOrder(vertices), false)
        } else {
            (VerticesInNormalizedOrder([vertices[1], vertices[0]]), true)
        }
    }

    /// The vertices, in normalized order.
    pub fn access_in_normalized_order(&self) -> (r: [Handle<GlobalVertex>; 2])
        ensures
            r == self.0,
    {
        self.0
    }
}

impl GlobalEdge {
    /// A global edge is well-formed if its vertices are in normalized order.
    pub open spec fn wf(self) -> bool {
        self.vertices.wf()
    }

    /// The global edge that [`GlobalEdge::new`] returns.
    pub open spec fn new_spec(
        curve: Handle<GlobalCurve>,
        vertices: [Handle<GlobalVertex>; 2],
    ) -> GlobalEdge {
        GlobalEdge { curve, vertices: VerticesInNormalizedOrder(normalized(vertices)) }
    }

    /// The edge on `curve` between the two vertices, whatever their order.
    pub fn new(curve: Handle<GlobalCurve>, vertices: [Handle<GlobalVertex>; 2]) -> (r: Self)
        ensures
            r == Self::new_spec(curve, vertices),
            r.wf(),
    {
        let (vertices, _) = VerticesInNormalizedOrder::new(vertices);
        GlobalEdge { curve, vertices }
    }
}

impl HalfEdge {
    /// A half-edge is well-formed if both vertices lie on one curve, at
    /// different places, and that curve is an image of the curve of the
    /// global form.
    pub open spec fn wf(self) -> bool {
        &&& self.vertices[0].curve.id == self.vertices[1].curve.id
        &&& self.vertices[0].curve.object.global_form.id == self.global_form.curve.id
        &&& !same_rank(
            self.vertices[0].position.coords.components[0],
            self.vertices[1].position.coords.components[0],
        )
    }

    /// What [`HalfEdge::new`] returns.
    pub open spec fn new_spec(vertices: [Vertex; 2], global_form: GlobalEdge) -> Result<
        HalfEdge,
        ValidationError,
    > {
        if vertices[0].curve.id != vertices[1].curve.id {
            Err(ValidationError::Mismatch)
        } else if vertices[0].curve.object.global_form.id != global_form.curve.id {
            Err(ValidationError::Mismatch)
        } else if same_rank(
            vertices[0].position.coords.components[0],
            vertices[1].position.coords.components[0],
        ) {
            Err(ValidationError::Degenerate)
        } else {
            Ok(HalfEdge { vertices, global_form })
        }
    }

    /// The half-edge from the first vertex to the second. It fails with
    /// [`ValidationError::Mismatch`] where the vertices lie on different
    /// curves or the global form is the edge of another global curve, and
    /// with [`ValidationError::Degenerate`] where the vertices coincide on
    /// the curve.
    pub fn new(vertices: [Vertex; 2], global_form: GlobalEdge) -> (r: Result<
        HalfEdge,
        ValidationError,
    >)
        ensures
            r == Self::new_spec(vertices, global_form),
            r matches Ok(half_edge) ==> half_edge.wf(),
    {
        if vertices[0].curve.id != vertices[1].curve.id {
            Err(ValidationError::Mismatch)
        } else if vertices[0].curve.object.global_form.id != global_form.curve.id {
            Err(ValidationError::Mismatch)
        } else if equal(
            vertices[0].position.coords.components[0],
            vertices[1].position.coords.components[0],
        ) {
            Err(ValidationError::Degenerate)
        } else {
            Ok(HalfEdge { vertices, global_form })
        }
    }

    /// The curve on which the half-edge runs.
    pub fn curve(&self) -> (r: Handle<Curve>)
        ensures
            r == self.vertices[0].curve,
    {
        self.vertices[0].curve
    }

    /// The vertex at which the half-edge starts.
    pub fn back(&self) -> (r: Vertex)
        ensures
            r == self.vertices[0],
    {
        self.vertices[0]
    }

    /// The vertex at which the half-edge ends.
    pub fn front(&self) -> (r: Vertex)
        ensures
            r == self.vertices[1],
    {
        self.vertices[1]
    }
}

/// A global edge does not depend on the order in which its vertices are
/// given: built from `(a, b)` and from `(b, a)` it is the same edge.
pub proof fn global_edge_ignores_orientation(
    store: Seq<GlobalVertex>,
    curve: Handle<GlobalCurve>,
    a: Handle<GlobalVertex>,
    b: Handle<GlobalVertex>,
)
    requires
        crate::storage::holds(store, a),
        crate::storage::holds(store, b),
    ensures
        GlobalEdge::new_spec(curve, [a, b]) == GlobalEdge::new_spec(curve, [b, a]),
{
    let forward = normalized([a, b]);
    let backward = normalized([b, a]);
    assert(forward =~= backward);
}

} // verus!
