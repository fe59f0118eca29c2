//! The objects of the kernel, and the stores that own the shared ones.

use vstd::prelude::*;

pub mod curve;
pub mod cycle;
pub mod edge;
pub mod face;
pub mod sketch;
pub mod surface;
pub mod vertex;

use crate::objects::curve::{Curve, GlobalCurve};
use crate::objects::edge::{GlobalEdge, HalfEdge};
use crate::objects::surface::Surface;
use crate::objects::vertex::{GlobalVertex, SurfaceVertex, Vertex};
use crate::storage::{holds, next_handle, Handle, Store};

verus! {

/// The stores of all objects that are shared by handle.
pub struct Objects {
    pub surfaces: Store<Surface>,
    pub curves: Store<Curve>,
    pub global_curves: Store<GlobalCurve>,
    pub global_vertices: Store<GlobalVertex>,
}

/// What the stores hold: the objects of each store in the order in which they
/// were inserted.
pub struct ObjectsView {
    pub surfaces: Seq<Surface>,
    pub curves: Seq<Curve>,
    pub global_curves: Seq<GlobalCurve>,
    pub global_vertices: Seq<GlobalVertex>,
}

impl View for Objects {
    type V = ObjectsView;

    open spec fn view(&self) -> ObjectsView {
        ObjectsView {
            surfaces: self.surfaces@,
            curves: self.curves@,
            global_curves: self.global_curves@,
            global_vertices: self.global_vertices@,
        }
    }
}

impl ObjectsView {
    /// Whether these stores hold everything that `earlier` held, at the same
    /// places: no object was changed or removed.
    pub open spec fn extends(self, earlier: ObjectsView) -> bool {
        &&& earlier.surfaces.is_prefix_of(self.surfaces)
        &&& earlier.curves.is_prefix_of(self.curves)
        &&& earlier.global_curves.is_prefix_of(self.global_curves)
        &&& earlier.global_vertices.is_prefix_of(self.global_vertices)
    }

    /// The stores after the insertion of a surface.
    pub open spec fn with_surface(self, surface: Surface) -> ObjectsView {
        ObjectsView { surfaces: self.surfaces.push(surface), ..self }
    }

    /// The stores after the insertion of a curve.
    pub open spec fn with_curve(self, curve: Curve) -> ObjectsView {
        ObjectsView { curves: self.curves.push(curve), ..self }
    }

    /// The stores after the insertion of a global curve.
    pub open spec fn with_global_curve(self) -> ObjectsView {
        ObjectsView { global_curves: self.global_curves.push(GlobalCurve {  }), ..self }
    }

    /// The stores after the insertion of a global vertex.
    pub open spec fn with_global_vertex(self, vertex: GlobalVertex) -> ObjectsView {
        ObjectsView { global_vertices: self.global_vertices.push(vertex), ..self }
    }

    /// Whether every object has a place that a handle can name. The stores
    /// of every [`Objects`] do, see [`stores_fit`].
    pub open spec fn fits(self) -> bool {
        &&& self.surfaces.len() <= usize::MAX
        &&& self.curves.len() <= usize::MAX
        &&& self.global_curves.len() <= usize::MAX
        &&& self.global_vertices.len() <= usize::MAX
    }

    /// Whether the stores hold the curve and what it refers to.
    pub open spec fn holds_curve(self, curve: Handle<Curve>) -> bool {
        &&& holds(self.curves, curve)
        &&& holds(self.surfaces, curve.object.surface)
        &&& holds(self.global_curves, curve.object.global_form)
    }

    /// Whether the stores hold what the surface vertex refers to.
    pub open spec fn holds_surface_vertex(self, vertex: SurfaceVertex) -> bool {
        &&& holds(self.surfaces, vertex.surface)
        &&& holds(self.global_vertices, vertex.global_form)
    }

    /// Whether the stores hold what the vertex refers to.
    pub open spec fn holds_vertex(self, vertex: Vertex) -> bool {
        &&& self.holds_curve(vertex.curve)
        &&& self.holds_surface_vertex(vertex.surface_form)
    }

    /// Whether the stores hold what the global edge refers to.
    pub open spec fn holds_global_edge(self, edge: GlobalEdge) -> bool {
        &&& holds(self.global_curves, edge.curve)
        &&& holds(self.global_vertices, edge.vertices.0[0])
        &&& holds(self.global_vertices, edge.vertices.0[1])
    }

    /// Whether the stores hold what the half-edge refers to.
    pub open spec fn holds_half_edge(self, half_edge: HalfEdge) -> bool {
        &&& self.holds_vertex(half_edge.vertices[0])
        &&& self.holds_vertex(half_edge.vertices[1])
        &&& self.holds_global_edge(half_edge.global_form)
    }

    /// The handle that the next surface inserted will get.
    pub open spec fn next_surface(self, surface: Surface) -> Handle<Surface> {
        next_handle(self.surfaces, surface)
    }

    /// The handle that the next curve inserted will get.
    pub open spec fn next_curve(self, curve: Curve) -> Handle<Curve> {
        next_handle(self.curves, curve)
    }

    /// The handle that the next global curve inserted will get.
    pub open spec fn next_global_curve(self) -> Handle<GlobalCurve> {
        next_handle(self.global_curves, GlobalCurve {  })
    }

    /// The handle that the next global vertex inserted will get.
    pub open spec fn next_global_vertex(self, vertex: GlobalVertex) -> Handle<GlobalVertex> {
        next_handle(self.global_vertices, vertex)
    }
}

/// Growth of the stores is reflexive and transitive.
pub proof fn extends_is_transitive(a: ObjectsView, b: ObjectsView, c: ObjectsView)
    requires
        b.extends(a),
        c.extends(b),
    ensures
        c.extends(a),
        a.extends(a),
{
}

/// What the stores hold, they hold for good: an object that the stores held
/// is held by every later state of the stores.
pub proof fn growth_keeps_objects(earlier: ObjectsView, later: ObjectsView)
    requires
        later.extends(earlier),
    ensures
        forall|surface: Handle<Surface>| #[trigger]
            holds(earlier.surfaces, surface) ==> holds(later.surfaces, surface),
        forall|curve: Handle<GlobalCurve>| #[trigger]
            holds(earlier.global_curves, curve) ==> holds(later.global_curves, curve),
        forall|vertex: Handle<GlobalVertex>| #[trigger]
            holds(earlier.global_vertices, vertex) ==> holds(later.global_vertices, vertex),
        forall|curve: Handle<Curve>| #[trigger]
            earlier.holds_curve(curve) ==> later.holds_curve(curve),
        forall|vertex: SurfaceVertex| #[trigger]
            earlier.holds_surface_vertex(vertex) ==> later.holds_surface_vertex(vertex),
        forall|vertex: Vertex| #[trigger]
            earlier.holds_vertex(vertex) ==> later.holds_vertex(vertex),
        forall|edge: GlobalEdge| #[trigger]
            earlier.holds_global_edge(edge) ==> later.holds_global_edge(edge),
        forall|half_edge: HalfEdge| #[trigger]
            earlier.holds_half_edge(half_edge) ==> later.holds_half_edge(half_edge),
{
}

/// In the stores of the kernel every object has a place that a handle can
/// name.
pub proof fn stores_fit(objects: Objects)
    ensures
        objects@.fits(),
{
    assert(objects.surfaces.objects@.len() == objects.surfaces.objects.len());
    assert(objects.curves.objects@.len() == objects.curves.objects.len());
    assert(objects.global_curves.objects@.len() == objects.global_curves.objects.len());
    assert(objects.global_vertices.objects@.len() == objects.global_vertices.objects.len());
}

/// Stores that fit did so before they grew.
pub proof fn earlier_stores_fit(earlier: ObjectsView, later: ObjectsView)
    requires
        later.extends(earlier),
        later.fits(),
    ensures
        earlier.fits(),
{
}

/// Every insertion grows the stores.
pub proof fn insertion_extends(a: ObjectsView)
    ensures
        forall|surface: Surface| #[trigger] a.with_surface(surface).extends(a),
        forall|curve: Curve| #[trigger] a.with_curve(curve).extends(a),
        a.with_global_curve().extends(a),
        forall|vertex: GlobalVertex| #[trigger] a.with_global_vertex(vertex).extends(a),
{
}

impl Objects {
    /// Empty stores.
    pub fn new() -> (r: Self)
        ensures
            r@.surfaces.len() == 0,
            r@.curves.len() == 0,
            r@.global_curves.len() == 0,
            r@.global_vertices.len() == 0,
    {
        Objects {
            surfaces: Store::new(),
            curves: Store::new(),
            global_curves: Store::new(),
            global_vertices: Store::new(),
        }
    }
}

} // verus!
