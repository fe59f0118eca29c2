//! Partial curves.

use fj_math::{Point, Scalar};
use vstd::prelude::*;

use crate::objects::curve::{Curve, GlobalCurve};
use crate::objects::surface::Surface;
use crate::objects::{Objects, ObjectsView};
use crate::partial::{outcome, overlay, MaybePartial};
use crate::path::SurfacePath;
use crate::storage::Handle;
use crate::validate::ValidationError;

verus! {

/// A curve under construction.
#[derive(Clone, Copy, Debug, PartialEq, Eq, Hash)]
pub struct PartialCurve {
    /// The path of the curve, in the coordinates of its surface.
    pub path: Option<SurfacePath>,
    /// The surface on which the curve lies.
    pub surface: Option<Handle<Surface>>,
    /// The global curve of which the curve is the image. Where it is absent,
    /// [`PartialCurve::build`] makes a new one.
    pub global_form: Option<Handle<GlobalCurve>>,
}

/// A curve, finished or under construction.
pub type MaybePartialCurve = MaybePartial<Handle<Curve>, PartialCurve>;

impl Default for PartialCurve {
    fn default() -> (r: Self)
        ensures
            r == PartialCurve::empty(),
    {
        PartialCurve { path: None, surface: None, global_form: None }
    }
}

impl PartialCurve {
    /// The partial curve of which nothing is known.
    pub open spec fn empty() -> Self {
        PartialCurve { path: None, surface: None, global_form: None }
    }

    /// Updates the path, where one is given.
    pub fn with_path(self, path: Option<SurfacePath>) -> (r: Self)
        ensures
            r == (PartialCurve { path: overlay(self.path, path), ..self }),
    {
        match path {
            Some(_) => PartialCurve { path, surface: self.surface, global_form: self.global_form },
            None => self,
        }
    }

    /// Updates the surface, where one is given.
    pub fn with_surface(self, surface: Option<Handle<Surface>>) -> (r: Self)
        ensures
            r == (PartialCurve { surface: overlay(self.surface, surface), ..self }),
    {
        match surface {
            Some(_) => PartialCurve { path: self.path, surface, global_form: self.global_form },
            None => self,
        }
    }

    /// Updates the global form, where one is given.
    pub fn with_global_form(self, global_form: Option<Handle<GlobalCurve>>) -> (r: Self)
        ensures
            r == (PartialCurve { global_form: overlay(self.global_form, global_form), ..self }),
    {
        match global_form {
            Some(_) => PartialCurve { path: self.path, surface: self.surface, global_form },
            None => self,
        }
    }

    /// What [`PartialCurve::as_circle_from_radius`] returns.
    pub open spec fn as_circle_from_radius_spec(self, radius: Scalar) -> Result<
        Self,
        ValidationError,
    > {
        match SurfacePath::circle_from_radius_spec(radius) {
            Ok(path) => Ok(PartialCurve { path: Some(path), ..self }),
            Err(e) => Err(e),
        }
    }

    /// Makes the curve the circle around the origin of its surface with the
    /// given radius.
    pub fn as_circle_from_radius(self, radius: Scalar) -> (r: Result<Self, ValidationError>)
        ensures
            r == self.as_circle_from_radius_spec(radius),
    {
        match SurfacePath::circle_from_radius(radius) {
            Ok(path) => Ok(self.with_path(Some(path))),
            Err(e) => Err(e),
        }
    }

    /// What [`PartialCurve::as_line_from_points`] returns.
    pub open spec fn as_line_from_points_spec(self, points: [Point<2>; 2]) -> Result<
        Self,
        ValidationError,
    > {
        match SurfacePath::line_from_points_spec(points[0], points[1]) {
            Ok(path) => Ok(PartialCurve { path: Some(path), ..self }),
            Err(e) => Err(e),
        }
    }

    /// Makes the curve the line through the two points, which has the
    /// coordinate zero at the first and one at the second.
    pub fn as_line_from_points(self, points: [Point<2>; 2]) -> (r: Result<Self, ValidationError>)
        ensures
            r == self.as_line_from_points_spec(points),
    {
        match SurfacePath::line_from_points(points[0], points[1]) {
            Ok(path) => Ok(self.with_path(Some(path))),
            Err(e) => Err(e),
        }
    }

    /// What [`PartialCurve::build`] returns, and the stores after it. A
    /// curve without a global form gets a new global curve of its own.
    pub open spec fn build_spec(self, objects: ObjectsView) -> Result<
        (Handle<Curve>, ObjectsView),
        ValidationError,
    > {
        if self.path is None || self.surface is None {
            Err(ValidationError::IncompleteObject)
        } else {
            let (global_form, stores) = match self.global_form {
                Some(global_form) => (global_form, objects),
                None => (objects.next_global_curve(), objects.with_global_curve()),
            };
            let curve = Curve {
                path: self.path->Some_0,
                surface: self.surface->Some_0,
                global_form,
            };
            Ok((stores.next_curve(curve), stores.with_curve(curve)))
        }
    }

    /// Finishes the curve and inserts it into the store. This needs the path
    /// and the surface; without either it fails with
    /// [`ValidationError::IncompleteObject`] and inserts nothing.
    pub fn build(self, objects: &mut Objects) -> (r: Result<Handle<Curve>, ValidationError>)
        ensures
            outcome(self.build_spec(old(objects)@), r, old(objects)@, final(objects)@),
            r is Err ==> final(objects)@ == old(objects)@,
            final(objects)@.surfaces == old(objects)@.surfaces,
            r is Ok <==> self.path is Some && self.surface is Some,
            r matches Ok(curve) ==> {
                &&& Some(curve.object.path) == self.path
                &&& Some(curve.object.surface) == self.surface
                &&& self.global_form is Some ==> Some(curve.object.global_form) == self.global_form
                &&& self.global_form is None ==> curve.object.global_form.id
                    == old(objects)@.global_curves.len()
                &&& curve.id == old(objects)@.curves.len()
                &&& crate::storage::holds(final(objects)@.curves, curve)
            },
    {
        let path = match self.path {
            Some(path) => path,
            None => { return Err(ValidationError::IncompleteObject); },
        };
        let surface = match self.surface {
            Some(surface) => surface,
            None => { return Err(ValidationError::IncompleteObject); },
        };
        let global_form = match self.global_form {
            Some(global_form) => global_form,
            None => objects.global_curves.insert(GlobalCurve {  }),
        };
        Ok(objects.curves.insert(Curve::new(surface, path, global_form)))
    }

    /// The partial curve that has every field of `curve`.
    pub fn from(curve: &Curve) -> (r: Self)
        ensures
            r == Self::from_spec(*curve),
    {
        PartialCurve {
            path: Some(curve.path),
            surface: Some(curve.surface),
            global_form: Some(curve.global_form),
        }
    }

    /// The partial curve that has every field of `curve`.
    pub open spec fn from_spec(curve: Curve) -> Self {
        PartialCurve {
            path: Some(curve.path),
            surface: Some(curve.surface),
            global_form: Some(curve.global_form),
        }
    }
}

impl MaybePartial<Handle<Curve>, PartialCurve> {
    /// The curve as a partial curve.
    pub open spec fn into_partial_spec(self) -> PartialCurve {
        match self {
            MaybePartial::Full(full) => PartialCurve::from_spec(full.object),
            MaybePartial::Partial(partial) => partial,
        }
    }

    /// The curve as a partial curve: a finished curve gives up its place in
    /// the store and keeps its fields.
    pub fn into_partial(self) -> (r: PartialCurve)
        ensures
            r == self.into_partial_spec(),
    {
        match self {
            MaybePartial::Full(full) => PartialCurve::from(&full.object),
            MaybePartial::Partial(partial) => partial,
        }
    }

    /// What [`MaybePartial::into_full`] returns, and the stores after it.
    pub open spec fn into_full_spec(self, objects: ObjectsView) -> Result<
        (Handle<Curve>, ObjectsView),
        ValidationError,
    > {
        match self {
            MaybePartial::Full(full) => Ok((full, objects)),
            MaybePartial::Partial(partial) => partial.build_spec(objects),
        }
    }

    /// The finished curve: a finished curve as it is, a partial one built.
    pub fn into_full(self, objects: &mut Objects) -> (r: Result<Handle<Curve>, ValidationError>)
        ensures
            outcome(self.into_full_spec(old(objects)@), r, old(objects)@, final(objects)@),
            r is Err ==> final(objects)@ == old(objects)@,
            final(objects)@.surfaces == old(objects)@.surfaces,
    {
        match self {
            MaybePartial::Full(full) => Ok(full),
            MaybePartial::Partial(partial) => partial.build(objects),
        }
    }

    /// The global form of the curve, as far as it is known. Nothing is
    /// built to find it.
    pub open spec fn global_form_spec(self) -> Option<Handle<GlobalCurve>> {
        match self {
            MaybePartial::Full(full) => Some(full.object.global_form),
            MaybePartial::Partial(partial) => partial.global_form,
        }
    }

    /// The global form of the curve, as far as it is known.
    pub fn global_form(&self) -> (r: Option<Handle<GlobalCurve>>)
        ensures
            r == self.global_form_spec(),
    {
        match self {
            MaybePartial::Full(full) => Some(full.object.global_form),
            MaybePartial::Partial(partial) => partial.global_form,
        }
    }

    /// Whether the curve is no circle and lies on no surface that sweeps a
    /// circle, as far as path and surface are known.
    pub open spec fn is_off_circles(self) -> bool {
        &&& !(self.into_partial_spec().path matches Some(SurfacePath::Circle(_)))
        &&& !(self.into_partial_spec().surface matches Some(surface) && surface.object.u is Circle)
    }

    /// The curve with its surface updated, where the curve is partial and a
    /// surface is given.
    pub open spec fn with_surface_spec(self, surface: Option<Handle<Surface>>) -> Self {
        match self {
            MaybePartial::Full(full) => self,
            MaybePartial::Partial(partial) => MaybePartial::Partial(
                PartialCurve { surface: overlay(partial.surface, surface), ..partial },
            ),
        }
    }

    /// Updates the surface of a partial curve; a finished curve stays as it
    /// is.
    pub fn with_surface(self, surface: Option<Handle<Surface>>) -> (r: Self)
        ensures
            r == self.with_surface_spec(surface),
    {
        match self {
            MaybePartial::Full(_) => self,
            MaybePartial::Partial(partial) => MaybePartial::Partial(partial.with_surface(surface)),
        }
    }
}

} // verus!
