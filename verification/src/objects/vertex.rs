//! Vertices: points in space, on a surface, and on a curve.

use fj_math::Point;
use vstd::prelude::*;

use crate::objects::curve::Curve;
use crate::objects::surface::Surface;
use crate::storage::Handle;
use crate::validate::ValidationError;

verus! {

/// A point in space.
#[derive(Clone, Copy, Debug, PartialEq, Eq, Hash)]
pub struct GlobalVertex {
    pub position: Point<3>,
}

/// A point on a surface, in the coordinates of the surface, and the point in
/// space that it is.
#[derive(Clone, Copy, Debug, PartialEq, Eq, Hash)]
pub struct SurfaceVertex {
    pub position: Point<2>,
    pub surface: Handle<Surface>,
    pub global_form: Handle<GlobalVertex>,
}

/// A point on a curve, in the coordinate of the curve, and the point on the
/// surface that it is.
#[derive(Clone, Copy, Debug, PartialEq, Eq, Hash)]
pub struct Vertex {
    pub position: Point<1>,
    pub curve: Handle<Curve>,
    pub surface_form: SurfaceVertex,
}

impl GlobalVertex {
    pub fn from_position(position: Point<3>) -> (r: Self)
        ensures
            r == (GlobalVertex { position }),
    {
        GlobalVertex { position }
    }
}

impl SurfaceVertex {
    pub fn new(position: Point<2>, surface: Handle<Surface>, global_form: Handle<GlobalVertex>) -> (r:
        Self)
        ensures
            r == (SurfaceVertex { position, surface, global_form }),
    {
        SurfaceVertex { position, surface, global_form }
    }
}

impl Vertex {
    /// A vertex is well-formed if its curve and its surface form lie on the
    /// same surface.
    pub open spec fn wf(self) -> bool {
        self.curve.object.surface.id == self.surface_form.surface.id
    }

    /// What [`Vertex::new`] returns.
    pub open spec fn new_spec(
        position: Point<1>,
        curve: Handle<Curve>,
        surface_form: SurfaceVertex,
    ) -> Result<Vertex, ValidationError> {
        if curve.object.surface.id != surface_form.surface.id {
            Err(ValidationError::Mismatch)
        } else {
            Ok(Vertex { position, curve, surface_form })
        }
    }

    /// The vertex at `position` on `curve`, if `surface_form` lies on the
    /// surface of the curve.
    pub fn new(position: Point<1>, curve: Handle<Curve>, surface_form: SurfaceVertex) -> (r: Result<
        Vertex,
        ValidationError,
    >)
        ensures
            r == Self::new_spec(position, curve, surface_form),
            r matches Ok(vertex) ==> vertex.wf(),
    {
        if curve.object.surface.id != surface_form.surface.id {
            Err(ValidationError::Mismatch)
        } else {
            Ok(Vertex { position, curve, surface_form })
        }
    }

    /// The point in space that the vertex is.
    pub open spec fn global_form_spec(self) -> Handle<GlobalVertex> {
        self.surface_form.global_form
    }

    /// The point in space that the vertex is.
    pub fn global_form(&self) -> (r: Handle<GlobalVertex>)
        ensures
            r == self.global_form_spec(),
    {
        self.surface_form.global_form
    }
}

} // verus!
