//! Transforms of vertices.

use fj_math::Transform;
use vstd::prelude::*;

use crate::algorithms::transform::curve::{transform_surface, transform_surface_spec};
use crate::math::transform::{transform_in_range, transform_point, transformed_point};
use crate::math::vector::{guarded, point3_in_range};
use crate::objects::surface::Surface;
use crate::objects::vertex::GlobalVertex;
use crate::objects::{extends_is_transitive, Objects, ObjectsView};
use crate::partial::curve::MaybePartialCurve;
use crate::partial::vertex::{
    MaybePartialGlobalVertex, MaybePartialSurfaceVertex, PartialGlobalVertex, PartialSurfaceVertex,
    PartialVertex,
};
use crate::partial::{outcome, MaybePartial};
use crate::storage::Handle;
use crate::validate::ValidationError;

verus! {

impl Handle<GlobalVertex> {
    /// What [`Handle::<GlobalVertex>::transform`] returns, and the stores
    /// after it.
    pub open spec fn transform_spec(self, transform: Transform, objects: ObjectsView) -> Result<
        (Handle<GlobalVertex>, ObjectsView),
        ValidationError,
    > {
        match guarded(
            transform_in_range(transform) && point3_in_range(self.object.position),
            transformed_point(transform, self.object.position),
        ) {
            Err(e) => Err(e),
            Ok(position) => {
                let vertex = GlobalVertex { position };
                Ok((objects.next_global_vertex(vertex), objects.with_global_vertex(vertex)))
            },
        }
    }

    /// Transforms the vertex and inserts its image into the store. On
    /// failure nothing is inserted.
    pub fn transform(self, transform: &Transform, objects: &mut Objects) -> (r: Result<
        Handle<GlobalVertex>,
        ValidationError,
    >)
        ensures
            outcome(
                self.transform_spec(*transform, old(objects)@),
                r,
                old(objects)@,
                final(objects)@,
            ),
            r is Err ==> final(objects)@ == old(objects)@,
            final(objects)@.surfaces == old(objects)@.surfaces,
    {
        match transform_point(transform, self.object.position) {
            Err(e) => Err(e),
            Ok(position) => Ok(
                objects.global_vertices.insert(GlobalVertex::from_position(position)),
            ),
        }
    }
}

impl PartialGlobalVertex {
    /// What [`PartialGlobalVertex::transform`] returns.
    pub open spec fn transform_spec(self, transform: Transform) -> Result<Self, ValidationError> {
        match self.position {
            None => Ok(self),
            Some(position) => match guarded(
                transform_in_range(transform) && point3_in_range(position),
                transformed_point(transform, position),
            ) {
                Err(e) => Err(e),
                Ok(image) => Ok(PartialGlobalVertex { position: Some(image) }),
            },
        }
    }

    /// The image of the partial vertex under `transform`.
    pub fn transform(self, transform: &Transform) -> (r: Result<Self, ValidationError>)
        ensures
            r == self.transform_spec(*transform),
    {
        match self.position {
            None => Ok(self),
            Some(position) => match transform_point(transform, position) {
                Err(e) => Err(e),
                Ok(image) => Ok(PartialGlobalVertex { position: Some(image) }),
            },
        }
    }
}

/// The image of a global vertex that may be absent, finished or partial, and
/// the stores after it was inserted: a finished vertex has a finished image,
/// a partial one a partial image.
pub open spec fn transform_global_vertex_spec(
    vertex: Option<MaybePartialGlobalVertex>,
    transform: Transform,
    objects: ObjectsView,
) -> Result<(Option<MaybePartialGlobalVertex>, ObjectsView), ValidationError> {
    match vertex {
        None => Ok((None, objects)),
        Some(MaybePartial::Full(full)) => match full.transform_spec(transform, objects) {
            Err(e) => Err(e),
            Ok((image, stores)) => Ok((Some(MaybePartial::Full(image)), stores)),
        },
        Some(MaybePartial::Partial(partial)) => match partial.transform_spec(transform) {
            Err(e) => Err(e),
            Ok(image) => Ok((Some(MaybePartial::Partial(image)), objects)),
        },
    }
}

/// Transforms a global vertex that may be absent, finished or partial.
pub fn transform_global_vertex(
    vertex: Option<MaybePartialGlobalVertex>,
    transform: &Transform,
    objects: &mut Objects,
) -> (r: Result<Option<MaybePartialGlobalVertex>, ValidationError>)
    ensures
        outcome(
            transform_global_vertex_spec(vertex, *transform, old(objects)@),
            r,
            old(objects)@,
            final(objects)@,
        ),
        r is Err ==> final(objects)@ == old(objects)@,
        final(objects)@.surfaces == old(objects)@.surfaces,
{
    match vertex {
        None => Ok(None),
        Some(MaybePartial::Full(full)) => match full.transform(transform, objects) {
            Err(e) => Err(e),
            Ok(image) => Ok(Some(MaybePartial::Full(image))),
        },
        Some(MaybePartial::Partial(partial)) => match partial.transform(transform) {
            Err(e) => Err(e),
            Ok(image) => Ok(Some(MaybePartial::Partial(image))),
        },
    }
}

impl PartialSurfaceVertex {
    /// What [`PartialSurfaceVertex::transform_onto`] returns, and the stores
    /// after it. The position stays as it is, since it is in the
    /// coordinates of the surface.
    pub open spec fn transform_onto_spec(
        self,
        transform: Transform,
        surface: Option<Handle<Surface>>,
        objects: ObjectsView,
    ) -> Result<(PartialSurfaceVertex, ObjectsView), ValidationError> {
        match transform_surface_spec(self.surface, surface, transform, objects) {
            Err(e) => Err(e),
            Ok((surface, with_surface)) => match transform_global_vertex_spec(
                self.global_form,
                transform,
                with_surface,
            ) {
                Err(e) => Err(e),
                Ok((global_form, stores)) => Ok(
                    (PartialSurfaceVertex { position: self.position, surface, global_form }, stores),
                ),
            },
        }
    }

    /// The image of the partial surface vertex under `transform`, on
    /// `surface` where that is given: the image of the surface of the
    /// vertex, which is then not transformed again.
    pub fn transform_onto(
        self,
        transform: &Transform,
        surface: Option<Handle<Surface>>,
        objects: &mut Objects,
    ) -> (r: Result<PartialSurfaceVertex, ValidationError>)
        ensures
            outcome(
                self.transform_onto_spec(*transform, surface, old(objects)@),
                r,
                old(objects)@,
                final(objects)@,
            ),
            surface is Some ==> final(objects)@.surfaces == old(objects)@.surfaces,
            r matches Ok(image) ==> image.position == self.position && (surface is Some
                ==> image.surface == surface),
    {
        let surface = match transform_surface(self.surface, surface, transform, objects) {
            Ok(surface) => surface,
            Err(e) => { return Err(e); },
        };
        let ghost with_surface = objects@;
        let global_form = match transform_global_vertex(self.global_form, transform, objects) {
            Ok(global_form) => global_form,
            Err(e) => { return Err(e); },
        };
        proof {
            extends_is_transitive(old(objects)@, with_surface, objects@);
        }
        Ok(PartialSurfaceVertex { position: self.position, surface, global_form })
    }
}

/// The image of a surface vertex that may be absent, and the stores after
/// it: always partial, so that a later build can put it on the image of its
/// surface.
pub open spec fn transform_surface_vertex_spec(
    vertex: Option<MaybePartialSurfaceVertex>,
    transform: Transform,
    surface: Option<Handle<Surface>>,
    objects: ObjectsView,
) -> Result<(Option<MaybePartialSurfaceVertex>, ObjectsView), ValidationError> {
    match vertex {
        None => Ok((None, objects)),
        Some(vertex) => match vertex.into_partial_spec().transform_onto_spec(
            transform,
            surface,
            objects,
        ) {
            Err(e) => Err(e),
            Ok((image, stores)) => Ok((Some(MaybePartial::Partial(image)), stores)),
        },
    }
}

/// Transforms a surface vertex that may be absent.
pub fn transform_surface_vertex(
    vertex: Option<MaybePartialSurfaceVertex>,
    transform: &Transform,
    surface: Option<Handle<Surface>>,
    objects: &mut Objects,
) -> (r: Result<Option<MaybePartialSurfaceVertex>, ValidationError>)
    ensures
        outcome(
            transform_surface_vertex_spec(vertex, *transform, surface, old(objects)@),
            r,
            old(objects)@,
            final(objects)@,
        ),
        surface is Some ==> final(objects)@.surfaces == old(objects)@.surfaces,
{
    match vertex {
        None => Ok(None),
        Some(vertex) => match vertex.into_partial().transform_onto(transform, surface, objects) {
            Err(e) => Err(e),
            Ok(image) => Ok(Some(MaybePartial::Partial(image))),
        },
    }
}

impl PartialVertex {
    /// What [`PartialVertex::transform_onto`] returns, and the stores after
    /// it. The position stays as it is, since it is in the coordinate of the
    /// curve.
    pub open spec fn transform_onto_spec(
        self,
        transform: Transform,
        curve: MaybePartialCurve,
        surface: Option<Handle<Surface>>,
        objects: ObjectsView,
    ) -> Result<(PartialVertex, ObjectsView), ValidationError> {
        match transform_surface_vertex_spec(self.surface_form, transform, surface, objects) {
            Err(e) => Err(e),
            Ok((surface_form, with_surface_form)) => match transform_global_vertex_spec(
                self.global_form,
                transform,
                with_surface_form,
            ) {
                Err(e) => Err(e),
                Ok((global_form, stores)) => Ok(
                    (
                        PartialVertex {
                            position: self.position,
                            curve: Some(curve),
                            surface_form,
                            global_form,
                        },
                        stores,
                    ),
                ),
            },
        }
    }

    /// The image of the partial vertex under `transform`, on `curve`, which
    /// is the image of its curve, and on `surface` where that is given,
    /// which is the image of its surface. Neither the curve nor, where its
    /// image is given, the surface of the vertex itself is transformed: all
    /// vertices of an edge are put on the one image of their curve.
    pub fn transform_onto(
        self,
        transform: &Transform,
        curve: MaybePartialCurve,
        surface: Option<Handle<Surface>>,
        objects: &mut Objects,
    ) -> (r: Result<PartialVertex, ValidationError>)
        ensures
            outcome(
                self.transform_onto_spec(*transform, curve, surface, old(objects)@),
                r,
                old(objects)@,
                final(objects)@,
            ),
            surface is Some ==> final(objects)@.surfaces == old(objects)@.surfaces,
            r matches Ok(image) ==> image.curve == Some(curve) && image.position == self.position,
    {
        let surface_form = match transform_surface_vertex(
            self.surface_form,
            transform,
            surface,
            objects,
        ) {
            Ok(surface_form) => surface_form,
            Err(e) => { return Err(e); },
        };
        let ghost with_surface_form = objects@;
        let global_form = match transform_global_vertex(self.global_form, transform, objects) {
            Ok(global_form) => global_form,
            Err(e) => { return Err(e); },
        };
        proof {
            extends_is_transitive(old(objects)@, with_surface_form, objects@);
        }
        Ok(PartialVertex { position: self.position, curve: Some(curve), surface_form, global_form })
    }
}

} // verus!
