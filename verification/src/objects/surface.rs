//! Surfaces: a path swept along a vector.

use fj_math::{Point, Scalar, Transform, Vector};
use vstd::prelude::*;

use crate::math::line::{
    line3_from_origin_and_direction, line3_from_spec, line3_in_range, line3_vector, vector_on_line3,
};
use crate::math::scalar::{one, scalar_in_range, scalar_of_u64, zero};
use crate::math::transform::{transform_in_range, transform_vector, transformed_vector};
use crate::math::vector::{
    guarded, held_by, point1, point1_at, point3_in_range, translate3, translated3,
    vector3_in_range,
};
use crate::objects::{Objects, ObjectsView};
use crate::path::{vector3, vector3_of, GlobalPath};
use crate::storage::Handle;
use crate::validate::ValidationError;

verus! {

/// A surface in space: the path `u`, swept along the vector `v`. Its points
/// have two coordinates, the first along `u` and the second along `v`.
#[derive(Clone, Copy, Debug, PartialEq, Eq, Hash)]
pub struct Surface {
    pub u: GlobalPath,
    pub v: Vector<3>,
}

impl Surface {
    /// The surface that sweeps `u` along `v`.
    pub fn new(u: GlobalPath, v: Vector<3>) -> (r: Self)
        ensures
            r == (Surface { u, v }),
    {
        Surface { u, v }
    }

    /// The plane through the origin of space that the directions `u` and `v`
    /// span, if `u` is a direction.
    pub open spec fn plane_spec(u: Vector<3>, v: Vector<3>) -> Result<Self, ValidationError> {
        match GlobalPath::axis_spec(u) {
            Ok(path) => Ok(Surface { u: path, v }),
            Err(e) => Err(e),
        }
    }

    /// The plane through the origin of space that `u` and `v` span.
    pub fn plane(u: Vector<3>, v: Vector<3>) -> (r: Result<Self, ValidationError>)
        ensures
            r == Self::plane_spec(u, v),
    {
        match GlobalPath::axis(u) {
            Ok(path) => Ok(Surface { u: path, v }),
            Err(e) => Err(e),
        }
    }

    /// The plane of the first two axes of space.
    pub fn xy_plane() -> (r: Result<Self, ValidationError>)
        ensures
            r == Self::plane_spec(
                vector3_of(scalar_of_u64(1), scalar_of_u64(0), scalar_of_u64(0)),
                vector3_of(scalar_of_u64(0), scalar_of_u64(1), scalar_of_u64(0)),
            ),
    {
        Self::plane(vector3(one(), zero(), zero()), vector3(zero(), one(), zero()))
    }

    /// The plane of the first and the third axis of space.
    pub fn xz_plane() -> (r: Result<Self, ValidationError>)
        ensures
            r == Self::plane_spec(
                vector3_of(scalar_of_u64(1), scalar_of_u64(0), scalar_of_u64(0)),
                vector3_of(scalar_of_u64(0), scalar_of_u64(0), scalar_of_u64(1)),
            ),
    {
        Self::plane(vector3(one(), zero(), zero()), vector3(zero(), zero(), one()))
    }

    /// The plane of the second and the third axis of space.
    pub fn yz_plane() -> (r: Result<Self, ValidationError>)
        ensures
            r == Self::plane_spec(
                vector3_of(scalar_of_u64(0), scalar_of_u64(1), scalar_of_u64(0)),
                vector3_of(scalar_of_u64(0), scalar_of_u64(0), scalar_of_u64(1)),
            ),
    {
        Self::plane(vector3(zero(), one(), zero()), vector3(zero(), zero(), one()))
    }

    /// What [`Surface::swept_from`] returns: the point `on_u` moved along
    /// `v` by `along`.
    pub open spec fn swept_from_spec(self, on_u: Point<3>, along: Scalar) -> Result<
        Point<3>,
        ValidationError,
    > {
        match self.u.origin_spec() {
            Err(e) => Err(e),
            Ok(origin) => match line3_from_spec(origin, self.v) {
                Err(e) => Err(e),
                Ok(sweep) => match guarded(
                    line3_in_range(sweep) && scalar_in_range(along),
                    line3_vector(sweep, along),
                ) {
                    Err(e) => Err(e),
                    Ok(along_v) => guarded(
                        point3_in_range(on_u) && vector3_in_range(along_v),
                        translated3(on_u, along_v),
                    ),
                },
            },
        }
    }

    /// What [`Surface::point_from_surface_coords`] returns: the point of `u`
    /// at the first coordinate, moved along `v` by the second. Where `u` is
    /// a circle, the point of `u` is `drawn`, the point that `fj_math`
    /// places there.
    pub open spec fn point_from_surface_coords_spec(self, p: Point<2>, drawn: Point<3>) -> Result<
        Point<3>,
        ValidationError,
    > {
        match self.u.point_from_path_coords_spec(point1_at(p.coords.components[0]), drawn) {
            Err(e) => Err(e),
            Ok(on_u) => self.swept_from_spec(on_u, p.coords.components[1]),
        }
    }

    /// The point in space that has the surface coordinates `p`.
    ///
    /// On a plane that point is fixed. Where the surface sweeps a circle,
    /// `fj_math` places a point on the circle, and the result is what
    /// [`Surface::swept_from`] makes of that point.
    pub fn point_from_surface_coords(&self, p: Point<2>) -> (r: Result<Point<3>, ValidationError>)
        ensures
            exists|drawn: Point<3>| r == #[trigger] self.point_from_surface_coords_spec(p, drawn),
            self.u is Line ==> forall|drawn: Point<3>|
                r == #[trigger] self.point_from_surface_coords_spec(p, drawn),
    {
        let on_path = self.u.point_from_path_coords(point1(p.coords.components[0]));
        let on_u = match on_path {
            Ok(point) => point,
            Err(e) => {
                assert(Err::<Point<3>, _>(e) == self.point_from_surface_coords_spec(
                    p,
                    held_by(on_path),
                ));
                return Err(e);
            },
        };
        let r = self.swept_from(on_u, p.coords.components[1]);
        assert(r == self.point_from_surface_coords_spec(p, held_by(on_path)));
        r
    }

    /// The point `on_u` of the path `u`, moved along `v` by `along`.
    pub fn swept_from(&self, on_u: Point<3>, along: Scalar) -> (r: Result<
        Point<3>,
        ValidationError,
    >)
        ensures
            r == self.swept_from_spec(on_u, along),
    {
        let origin = match self.u.origin() {
            Ok(origin) => origin,
            Err(e) => { return Err(e); },
        };
        let sweep = match line3_from_origin_and_direction(origin, self.v) {
            Ok(line) => line,
            Err(e) => { return Err(e); },
        };
        let along_v = match vector_on_line3(&sweep, along) {
            Ok(vector) => vector,
            Err(e) => { return Err(e); },
        };
        translate3(on_u, along_v)
    }

    /// The image of the surface under a transform.
    pub open spec fn transformed_spec(self, transform: Transform) -> Result<
        Self,
        ValidationError,
    > {
        match self.u.transform_spec(transform) {
            Err(e) => Err(e),
            Ok(u) => match guarded(
                transform_in_range(transform) && vector3_in_range(self.v),
                transformed_vector(transform, self.v),
            ) {
                Err(e) => Err(e),
                Ok(v) => Ok(Surface { u, v }),
            },
        }
    }

    /// The image of the surface under `transform`.
    pub fn transformed(&self, transform: &Transform) -> (r: Result<Self, ValidationError>)
        ensures
            r == self.transformed_spec(*transform),
    {
        let u = match self.u.transform(transform) {
            Ok(u) => u,
            Err(e) => { return Err(e); },
        };
        match transform_vector(transform, self.v) {
            Ok(v) => Ok(Surface { u, v }),
            Err(e) => Err(e),
        }
    }
}

impl Handle<Surface> {
    /// What [`Handle::<Surface>::transform`] returns, and the stores after
    /// it.
    pub open spec fn transform_spec(self, transform: Transform, objects: ObjectsView) -> Result<
        (Handle<Surface>, ObjectsView),
        ValidationError,
    > {
        match self.object.transformed_spec(transform) {
            Err(e) => Err(e),
            Ok(surface) => Ok((objects.next_surface(surface), objects.with_surface(surface))),
        }
    }

    /// Transforms the surface and inserts its image into the store. On
    /// failure nothing is inserted.
    pub fn transform(self, transform: &Transform, objects: &mut Objects) -> (r: Result<
        Handle<Surface>,
        ValidationError,
    >)
        ensures
            match self.transform_spec(*transform, old(objects)@) {
                Ok((handle, after)) => r == Ok::<_, ValidationError>(handle) && final(objects)@
                    == after,
                Err(e) => r == Err::<Handle<Surface>, _>(e) && final(objects)@ == old(objects)@,
            },
            final(objects)@.extends(old(objects)@),
            r matches Ok(image) ==> image.id == old(objects)@.surfaces.len(),
    {
        match self.object.transformed(transform) {
            Err(e) => Err(e),
            Ok(surface) => Ok(objects.surfaces.insert(surface)),
        }
    }
}

} // verus!
