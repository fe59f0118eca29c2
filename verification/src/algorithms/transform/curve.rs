//! Transforms of curves.

use fj_math::Transform;
use vstd::prelude::*;

use crate::objects::curve::GlobalCurve;
use crate::objects::surface::Surface;
use crate::objects::{extends_is_transitive, Objects, ObjectsView};
use crate::partial::curve::PartialCurve;
use crate::partial::outcome;
use crate::storage::Handle;
use crate::validate::ValidationError;

verus! {

/// The image of the surface `own`, which may be absent, and the stores
/// after it was inserted. Where the image is `known` already, it is that
/// image, and nothing is inserted.
pub open spec fn transform_surface_spec(
    own: Option<Handle<Surface>>,
    known: Option<Handle<Surface>>,
    transform: Transform,
    objects: ObjectsView,
) -> Result<(Option<Handle<Surface>>, ObjectsView), ValidationError> {
    match (known, own) {
        (Some(_), _) => Ok((known, objects)),
        (None, None) => Ok((None, objects)),
        (None, Some(surface)) => match surface.transform_spec(transform, objects) {
            Err(e) => Err(e),
            Ok((image, stores)) => Ok((Some(image), stores)),
        },
    }
}

/// Transforms the surface `own`, which may be absent, unless its image is
/// `known` already.
pub fn transform_surface(
    own: Option<Handle<Surface>>,
    known: Option<Handle<Surface>>,
    transform: &Transform,
    objects: &mut Objects,
) -> (r: Result<Option<Handle<Surface>>, ValidationError>)
    ensures
        outcome(
            transform_surface_spec(own, known, *transform, old(objects)@),
            r,
            old(objects)@,
            final(objects)@,
        ),
        r is Err ==> final(objects)@ == old(objects)@,
        known is Some ==> r == Ok::<_, ValidationError>(known) && final(objects)@ == old(
            objects,
        )@,
        r matches Ok(image) ==> (image is Some <==> known is Some || own is Some),
{
    match known {
        Some(_) => Ok(known),
        None => match own {
            None => Ok(None),
            Some(surface) => match surface.transform(transform, objects) {
                Err(e) => Err(e),
                Ok(image) => Ok(Some(image)),
            },
        },
    }
}

/// The image of a global curve that may be absent, and the stores after it
/// was inserted.
pub open spec fn transform_global_curve_spec(
    curve: Option<Handle<GlobalCurve>>,
    objects: ObjectsView,
) -> (Option<Handle<GlobalCurve>>, ObjectsView) {
    match curve {
        None => (None, objects),
        Some(_) => (Some(objects.next_global_curve()), objects.with_global_curve()),
    }
}

/// Transforms a global curve that may be absent.
pub fn transform_global_curve(
    curve: Option<Handle<GlobalCurve>>,
    transform: &Transform,
    objects: &mut Objects,
) -> (r: Option<Handle<GlobalCurve>>)
    ensures
        (r, final(objects)@) == transform_global_curve_spec(curve, old(objects)@),
        final(objects)@.extends(old(objects)@),
        final(objects)@.surfaces == old(objects)@.surfaces,
{
    match curve {
        None => None,
        Some(curve) => Some(curve.transform(transform, objects)),
    }
}

impl Handle<GlobalCurve> {
    /// The image of the global curve under `transform`: a new global curve.
    /// A global curve has no geometry, so every image of it is a new
    /// identity and nothing else.
    pub fn transform(self, transform: &Transform, objects: &mut Objects) -> (r: Handle<GlobalCurve>)
        ensures
            r == old(objects)@.next_global_curve(),
            final(objects)@ == old(objects)@.with_global_curve(),
            final(objects)@.extends(old(objects)@),
    {
        objects.global_curves.insert(GlobalCurve {  })
    }
}

impl PartialCurve {
    /// What [`PartialCurve::transform_onto`] returns, and the stores after
    /// it. The path stays as it is, since it is in the coordinates of the
    /// surface.
    pub open spec fn transform_onto_spec(
        self,
        transform: Transform,
        surface: Option<Handle<Surface>>,
        objects: ObjectsView,
    ) -> Result<(PartialCurve, ObjectsView), ValidationError> {
        match transform_surface_spec(self.surface, surface, transform, objects) {
            Err(e) => Err(e),
            Ok((surface, with_surface)) => {
                let (global_form, stores) = transform_global_curve_spec(
                    self.global_form,
                    with_surface,
                );
                Ok((PartialCurve { path: self.path, surface, global_form }, stores))
            },
        }
    }

    /// What [`PartialCurve::transform`] returns, and the stores after it.
    pub open spec fn transform_spec(self, transform: Transform, objects: ObjectsView) -> Result<
        (PartialCurve, ObjectsView),
        ValidationError,
    > {
        self.transform_onto_spec(transform, None, objects)
    }

    /// The image of the partial curve under `transform`, on `surface` where
    /// that is given: the image of the surface of the curve, which is then
    /// not transformed again. Where the curve had a global curve, its image
    /// has a new one.
    pub fn transform_onto(
        self,
        transform: &Transform,
        surface: Option<Handle<Surface>>,
        objects: &mut Objects,
    ) -> (r: Result<PartialCurve, ValidationError>)
        ensures
            outcome(
                self.transform_onto_spec(*transform, surface, old(objects)@),
                r,
                old(objects)@,
                final(objects)@,
            ),
            surface is Some ==> final(objects)@.surfaces == old(objects)@.surfaces,
            r matches Ok(image) ==> {
                &&& image.path == self.path
                &&& image.global_form is Some <==> self.global_form is Some
                &&& surface is Some ==> image.surface == surface
                &&& image.surface is Some <==> surface is Some || self.surface is Some
            },
    {
        let surface = match transform_surface(self.surface, surface, transform, objects) {
            Ok(surface) => surface,
            Err(e) => { return Err(e); },
        };
        let ghost with_surface = objects@;
        let global_form = transform_global_curve(self.global_form, transform, objects);
        proof {
            extends_is_transitive(old(objects)@, with_surface, objects@);
        }
        Ok(PartialCurve { path: self.path, surface, global_form })
    }

    /// The image of the partial curve under `transform`: on the image of its
    /// surface, with a new global curve where it had one.
    pub fn transform(self, transform: &Transform, objects: &mut Objects) -> (r: Result<
        PartialCurve,
        ValidationError,
    >)
        ensures
            outcome(
                self.transform_spec(*transform, old(objects)@),
                r,
                old(objects)@,
                final(objects)@,
            ),
            r matches Ok(image) ==> image.path == self.path && (image.global_form is Some
                <==> self.global_form is Some),
    {
        self.transform_onto(transform, None, objects)
    }
}

} // verus!
