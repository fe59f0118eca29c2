//! What is built from objects of the stores lies in the stores.
//!
//! A partial object is held by the stores if every handle in it was issued
//! by them. Building such a partial object gives a finished object that is
//! held by the stores as they are after the build: no build hands out a
//! handle to an object that the stores do not own.

use vstd::prelude::*;

use crate::objects::edge::normalized;
use crate::objects::{
    earlier_stores_fit, extends_is_transitive, growth_keeps_objects, insertion_extends, ObjectsView,
};
use crate::partial::curve::{MaybePartialCurve, PartialCurve};
use crate::partial::edge::{MaybePartialGlobalEdge, PartialGlobalEdge, PartialHalfEdge};
use crate::partial::vertex::{
    MaybePartialGlobalVertex, MaybePartialSurfaceVertex, MaybePartialVertex, PartialGlobalVertex,
    PartialSurfaceVertex, PartialVertex,
};
use crate::partial::{EdgeDraw, MaybePartial, VertexDraw};
use crate::storage::holds;

verus! {

impl ObjectsView {
    /// Whether the stores hold what the partial curve refers to.
    pub open spec fn holds_partial_curve(self, curve: PartialCurve) -> bool {
        &&& curve.surface matches Some(surface) ==> holds(self.surfaces, surface)
        &&& curve.global_form matches Some(global_form) ==> holds(self.global_curves, global_form)
    }

    /// Whether the stores hold what the curve refers to.
    pub open spec fn holds_maybe_curve(self, curve: MaybePartialCurve) -> bool {
        match curve {
            MaybePartial::Full(full) => self.holds_curve(full),
            MaybePartial::Partial(partial) => self.holds_partial_curve(partial),
        }
    }

    /// Whether the stores hold what the global vertex refers to.
    pub open spec fn holds_maybe_global_vertex(self, vertex: MaybePartialGlobalVertex) -> bool {
        match vertex {
            MaybePartial::Full(full) => holds(self.global_vertices, full),
            MaybePartial::Partial(_) => true,
        }
    }

    /// Whether the stores hold what the partial surface vertex refers to.
    pub open spec fn holds_partial_surface_vertex(self, vertex: PartialSurfaceVertex) -> bool {
        &&& vertex.surface matches Some(surface) ==> holds(self.surfaces, surface)
        &&& vertex.global_form matches Some(global_form) ==> self.holds_maybe_global_vertex(
            global_form,
        )
    }

    /// Whether the stores hold what the surface vertex refers to.
    pub open spec fn holds_maybe_surface_vertex(self, vertex: MaybePartialSurfaceVertex) -> bool {
        match vertex {
            MaybePartial::Full(full) => self.holds_surface_vertex(full),
            MaybePartial::Partial(partial) => self.holds_partial_surface_vertex(partial),
        }
    }

    /// Whether the stores hold what the partial vertex refers to.
    pub open spec fn holds_partial_vertex(self, vertex: PartialVertex) -> bool {
        &&& vertex.curve matches Some(curve) ==> self.holds_maybe_curve(curve)
        &&& vertex.surface_form matches Some(surface_form) ==> self.holds_maybe_surface_vertex(
            surface_form,
        )
        &&& vertex.global_form matches Some(global_form) ==> self.holds_maybe_global_vertex(
            global_form,
        )
    }

    /// Whether the stores hold what the vertex refers to.
    pub open spec fn holds_maybe_vertex(self, vertex: MaybePartialVertex) -> bool {
        match vertex {
            MaybePartial::Full(full) => self.holds_vertex(full),
            MaybePartial::Partial(partial) => self.holds_partial_vertex(partial),
        }
    }

    /// Whether the stores hold what the partial global edge refers to.
    pub open spec fn holds_partial_global_edge(self, edge: PartialGlobalEdge) -> bool {
        &&& edge.curve matches Some(curve) ==> holds(self.global_curves, curve)
        &&& edge.vertices matches Some(vertices) ==> holds(self.global_vertices, vertices[0])
            && holds(self.global_vertices, vertices[1])
    }

    /// Whether the stores hold what the global edge refers to.
    pub open spec fn holds_maybe_global_edge(self, edge: MaybePartialGlobalEdge) -> bool {
        match edge {
            MaybePartial::Full(full) => self.holds_global_edge(full),
            MaybePartial::Partial(partial) => self.holds_partial_global_edge(partial),
        }
    }

    /// Whether the stores hold what the partial half-edge refers to.
    pub open spec fn holds_partial_half_edge(self, edge: PartialHalfEdge) -> bool {
        &&& edge.surface matches Some(surface) ==> holds(self.surfaces, surface)
        &&& edge.curve matches Some(curve) ==> self.holds_maybe_curve(curve)
        &&& edge.vertices matches Some(vertices) ==> self.holds_maybe_vertex(vertices[0])
            && self.holds_maybe_vertex(vertices[1])
        &&& edge.global_form matches Some(global_form) ==> self.holds_maybe_global_edge(
            global_form,
        )
    }
}

/// A partial object that the stores held is held by every later state of
/// the stores.
pub proof fn growth_keeps_partial_objects(earlier: ObjectsView, later: ObjectsView)
    requires
        later.extends(earlier),
    ensures
        forall|curve: MaybePartialCurve| #[trigger]
            earlier.holds_maybe_curve(curve) ==> later.holds_maybe_curve(curve),
        forall|vertex: MaybePartialGlobalVertex| #[trigger]
            earlier.holds_maybe_global_vertex(vertex) ==> later.holds_maybe_global_vertex(vertex),
        forall|vertex: PartialSurfaceVertex| #[trigger]
            earlier.holds_partial_surface_vertex(vertex) ==> later.holds_partial_surface_vertex(
                vertex,
            ),
        forall|vertex: MaybePartialVertex| #[trigger]
            earlier.holds_maybe_vertex(vertex) ==> later.holds_maybe_vertex(vertex),
        forall|edge: MaybePartialGlobalEdge| #[trigger]
            earlier.holds_maybe_global_edge(edge) ==> later.holds_maybe_global_edge(edge),
{
    growth_keeps_objects(earlier, later);
}

/// A curve that is built from objects of the stores lies in the stores.
pub proof fn built_curve_is_held(curve: MaybePartialCurve, objects: ObjectsView)
    requires
        objects.holds_maybe_curve(curve),
        curve.into_full_spec(objects) is Ok,
        curve.into_full_spec(objects)->Ok_0.1.fits(),
    ensures
        curve.into_full_spec(objects)->Ok_0.1.extends(objects),
        curve.into_full_spec(objects)->Ok_0.1.holds_curve(curve.into_full_spec(objects)->Ok_0.0),
{
    let (built, after) = curve.into_full_spec(objects)->Ok_0;
    match curve {
        MaybePartial::Full(_) => {},
        MaybePartial::Partial(partial) => {
            let with_global = match partial.global_form {
                Some(_) => objects,
                None => objects.with_global_curve(),
            };
            insertion_extends(objects);
            insertion_extends(with_global);
            extends_is_transitive(objects, with_global, after);
            growth_keeps_objects(objects, after);
            growth_keeps_objects(with_global, after);
        },
    }
}

/// A global vertex that is built lies in the stores.
pub proof fn built_global_vertex_is_held(vertex: PartialGlobalVertex, objects: ObjectsView)
    requires
        vertex.build_spec(objects) is Ok,
        vertex.build_spec(objects)->Ok_0.1.fits(),
    ensures
        vertex.build_spec(objects)->Ok_0.1.extends(objects),
        holds(
            vertex.build_spec(objects)->Ok_0.1.global_vertices,
            vertex.build_spec(objects)->Ok_0.0,
        ),
{
    insertion_extends(objects);
}

/// Building a curve only grows the stores.
pub proof fn stores_only_grow_curve(curve: MaybePartialCurve, objects: ObjectsView)
    requires
        curve.into_full_spec(objects) is Ok,
    ensures
        curve.into_full_spec(objects)->Ok_0.1.extends(objects),
{
    match curve {
        MaybePartial::Full(_) => {},
        MaybePartial::Partial(partial) => {
            let with_global = match partial.global_form {
                Some(_) => objects,
                None => objects.with_global_curve(),
            };
            insertion_extends(objects);
            insertion_extends(with_global);
            extends_is_transitive(objects, with_global, curve.into_full_spec(objects)->Ok_0.1);
        },
    }
}

/// Building a surface vertex only grows the stores.
pub proof fn stores_only_grow_surface_vertex(
    vertex: PartialSurfaceVertex,
    objects: ObjectsView,
    on_path: fj_math::Point<3>,
)
    requires
        vertex.build_spec(objects, on_path) is Ok,
    ensures
        vertex.build_spec(objects, on_path)->Ok_0.1.extends(objects),
{
    insertion_extends(objects);
}

/// Building a vertex only grows the stores.
pub proof fn stores_only_grow_vertex(
    vertex: MaybePartialVertex,
    objects: ObjectsView,
    draw: VertexDraw,
)
    requires
        vertex.into_full_spec(objects, draw) is Ok,
    ensures
        vertex.into_full_spec(objects, draw)->Ok_0.1.extends(objects),
{
    match vertex {
        MaybePartial::Full(_) => {},
        MaybePartial::Partial(partial) => {
            let curve = partial.curve->Some_0;
            let (on, with_curve) = curve.into_full_spec(objects)->Ok_0;
            stores_only_grow_curve(curve, objects);
            match partial.surface_form {
                Some(MaybePartial::Full(_)) => {},
                _ => {
                    let to_build = partial.surface_form_to_build(
                        partial.position->Some_0,
                        on.object,
                        draw.on_curve,
                    )->Ok_0;
                    stores_only_grow_surface_vertex(to_build, with_curve, draw.on_path);
                    extends_is_transitive(
                        objects,
                        with_curve,
                        vertex.into_full_spec(objects, draw)->Ok_0.1,
                    );
                },
            }
        },
    }
}

/// A surface vertex that is built from objects of the stores lies in the
/// stores.
pub proof fn built_surface_vertex_is_held(
    vertex: PartialSurfaceVertex,
    objects: ObjectsView,
    on_path: fj_math::Point<3>,
)
    requires
        objects.holds_partial_surface_vertex(vertex),
        vertex.build_spec(objects, on_path) is Ok,
        vertex.build_spec(objects, on_path)->Ok_0.1.fits(),
    ensures
        vertex.build_spec(objects, on_path)->Ok_0.1.extends(objects),
        vertex.build_spec(objects, on_path)->Ok_0.1.holds_surface_vertex(
            vertex.build_spec(objects, on_path)->Ok_0.0,
        ),
{
    let (built, after) = vertex.build_spec(objects, on_path)->Ok_0;
    match vertex.global_form {
        Some(MaybePartial::Full(_)) => {},
        _ => {
            let placed = vertex.global_form_to_build(
                vertex.position->Some_0,
                vertex.surface->Some_0.object,
                on_path,
            )->Ok_0;
            built_global_vertex_is_held(placed, objects);
            growth_keeps_objects(objects, after);
        },
    }
}

/// A vertex that is built from objects of the stores lies in the stores.
pub proof fn built_vertex_is_held(
    vertex: MaybePartialVertex,
    objects: ObjectsView,
    draw: VertexDraw,
)
    requires
        objects.holds_maybe_vertex(vertex),
        vertex.into_full_spec(objects, draw) is Ok,
        vertex.into_full_spec(objects, draw)->Ok_0.1.fits(),
    ensures
        vertex.into_full_spec(objects, draw)->Ok_0.1.extends(objects),
        vertex.into_full_spec(objects, draw)->Ok_0.1.holds_vertex(vertex.into_full_spec(objects, draw)->Ok_0.0),
{
    let (built, after) = vertex.into_full_spec(objects, draw)->Ok_0;
    match vertex {
        MaybePartial::Full(_) => {},
        MaybePartial::Partial(partial) => {
            let curve = partial.curve->Some_0;
            let (on, with_curve) = curve.into_full_spec(objects)->Ok_0;
            match partial.surface_form {
                Some(MaybePartial::Full(_)) => {
                    built_curve_is_held(curve, objects);
                    growth_keeps_objects(objects, with_curve);
                    growth_keeps_partial_objects(objects, with_curve);
                },
                _ => {
                    let to_build = partial.surface_form_to_build(
                        partial.position->Some_0,
                        on.object,
                        draw.on_curve,
                    )->Ok_0;
                    stores_only_grow_surface_vertex(to_build, with_curve, draw.on_path);
                    earlier_stores_fit(with_curve, after);
                    built_curve_is_held(curve, objects);
                    growth_keeps_objects(objects, with_curve);
                    growth_keeps_partial_objects(objects, with_curve);
                    built_surface_vertex_is_held(to_build, with_curve, draw.on_path);
                    extends_is_transitive(objects, with_curve, after);
                    growth_keeps_objects(with_curve, after);
                },
            }
        },
    }
}

/// A global edge that is built from objects of the stores lies in the
/// stores.
pub proof fn built_global_edge_is_held(edge: MaybePartialGlobalEdge, objects: ObjectsView)
    requires
        objects.holds_maybe_global_edge(edge),
        edge.into_full_spec() is Ok,
    ensures
        objects.holds_global_edge(edge.into_full_spec()->Ok_0),
{
    match edge {
        MaybePartial::Full(_) => {},
        MaybePartial::Partial(partial) => {
            let vertices = partial.vertices->Some_0;
            let in_order = normalized(vertices);
            assert(in_order[0] == vertices[0] && in_order[1] == vertices[1] || in_order[0]
                == vertices[1] && in_order[1] == vertices[0]);
        },
    }
}

/// A half-edge that is built from objects of the stores lies in the stores:
/// its curve, its vertices and its global form, and all that they refer to.
pub proof fn built_half_edge_is_held(edge: PartialHalfEdge, objects: ObjectsView, draw: EdgeDraw)
    requires
        objects.holds_partial_half_edge(edge),
        edge.build_spec(objects, draw) is Ok,
        edge.build_spec(objects, draw)->Ok_0.1.fits(),
    ensures
        edge.build_spec(objects, draw)->Ok_0.1.extends(objects),
        edge.build_spec(objects, draw)->Ok_0.1.holds_half_edge(edge.build_spec(objects, draw)->Ok_0.0),
{
    reveal(PartialHalfEdge::build_spec);
    let (built, after) = edge.build_spec(objects, draw)->Ok_0;
    let vertices = edge.vertices->Some_0;
    let curve = edge.curve->Some_0.with_surface_spec(edge.surface);
    let (on, with_curve) = curve.into_full_spec(objects)->Ok_0;
    let back = vertices[0].on_curve_spec(None, Some(MaybePartial::Full(on)));
    let (from, with_back) = back.into_full_spec(with_curve, draw.back)->Ok_0;
    let front = vertices[1].on_curve_spec(None, Some(MaybePartial::Full(on)));
    let (to, with_front) = front.into_full_spec(with_back, draw.front)->Ok_0;
    stores_only_grow_vertex(front, with_back, draw.front);
    earlier_stores_fit(with_back, with_front);
    stores_only_grow_vertex(back, with_curve, draw.back);
    earlier_stores_fit(with_curve, with_back);
    built_curve_is_held(curve, objects);
    growth_keeps_objects(objects, with_curve);
    growth_keeps_partial_objects(objects, with_curve);
    built_vertex_is_held(back, with_curve, draw.back);
    growth_keeps_objects(with_curve, with_back);
    growth_keeps_partial_objects(with_curve, with_back);
    built_vertex_is_held(front, with_back, draw.front);
    growth_keeps_objects(with_back, with_front);
    growth_keeps_partial_objects(with_back, with_front);
    extends_is_transitive(objects, with_curve, with_back);
    extends_is_transitive(objects, with_back, with_front);
    growth_keeps_partial_objects(objects, with_front);
    match edge.global_form {
        Some(global_form) => {
            built_global_edge_is_held(global_form, with_front);
        },
        None => {
            let derived = MaybePartial::Partial(
                PartialGlobalEdge::empty().from_curve_and_vertices_spec(on.object, [from, to]),
            );
            built_global_edge_is_held(derived, with_front);
        },
    }
}

} // verus!
