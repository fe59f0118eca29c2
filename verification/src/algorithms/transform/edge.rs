//! Transforms of half-edges and global edges.

use fj_math::Transform;
use vstd::prelude::*;

use crate::algorithms::transform::curve::{transform_global_curve, transform_global_curve_spec};
use crate::objects::surface::Surface;
use crate::objects::vertex::GlobalVertex;
use crate::objects::{extends_is_transitive, Objects, ObjectsView};
use crate::partial::edge::{PartialGlobalEdge, PartialHalfEdge};
use crate::partial::{outcome, overlay, MaybePartial};
use crate::storage::Handle;
use crate::validate::ValidationError;

verus! {

/// The images of the two vertices of a global edge, where they are known,
/// and the stores after they were inserted.
pub open spec fn transform_vertices_spec(
    vertices: Option<[Handle<GlobalVertex>; 2]>,
    transform: Transform,
    objects: ObjectsView,
) -> Result<(Option<[Handle<GlobalVertex>; 2]>, ObjectsView), ValidationError> {
    match vertices {
        None => Ok((None, objects)),
        Some(vertices) => match vertices[0].transform_spec(transform, objects) {
            Err(e) => Err(e),
            Ok((a, with_a)) => match vertices[1].transform_spec(transform, with_a) {
                Err(e) => Err(e),
                Ok((b, stores)) => Ok((Some([a, b]), stores)),
            },
        },
    }
}

impl PartialGlobalEdge {
    /// What [`PartialGlobalEdge::transform`] returns, and the stores after
    /// it.
    pub open spec fn transform_spec(self, transform: Transform, objects: ObjectsView) -> Result<
        (PartialGlobalEdge, ObjectsView),
        ValidationError,
    > {
        let (curve, with_curve) = transform_global_curve_spec(self.curve, objects);
        match transform_vertices_spec(self.vertices, transform, with_curve) {
            Err(e) => Err(e),
            Ok((vertices, stores)) => Ok((PartialGlobalEdge { curve, vertices }, stores)),
        }
    }

    /// The image of the partial global edge under `transform`: on a new
    /// global curve where it had one, between the images of its vertices
    /// where it had them.
    pub fn transform(self, transform: &Transform, objects: &mut Objects) -> (r: Result<
        PartialGlobalEdge,
        ValidationError,
    >)
        ensures
            outcome(
                self.transform_spec(*transform, old(objects)@),
                r,
                old(objects)@,
                final(objects)@,
            ),
            final(objects)@.surfaces == old(objects)@.surfaces,
    {
        let curve = transform_global_curve(self.curve, transform, objects);
        let ghost with_curve = objects@;
        let vertices = match self.vertices {
            None => None,
            Some(vertices) => {
                let a = match vertices[0].transform(transform, objects) {
                    Ok(a) => a,
                    Err(e) => { return Err(e); },
                };
                let ghost with_a = objects@;
                proof {
                    extends_is_transitive(old(objects)@, with_curve, with_a);
                }
                let b = match vertices[1].transform(transform, objects) {
                    Ok(b) => b,
                    Err(e) => { return Err(e); },
                };
                proof {
                    extends_is_transitive(old(objects)@, with_a, objects@);
                }
                Some([a, b])
            },
        };
        Ok(PartialGlobalEdge { curve, vertices })
    }
}

impl PartialHalfEdge {
    /// What [`PartialHalfEdge::transform_onto`] returns, and the stores
    /// after it.
    ///
    /// The curve is transformed first. Each vertex is transformed and put
    /// on the image of the curve and of its surface. The global form is
    /// transformed, and where the image of the curve has a global curve, the
    /// image of the global form gets that global curve.
    #[verifier::opaque]
    pub open spec fn transform_onto_spec(
        self,
        transform: Transform,
        surface: Option<Handle<Surface>>,
        objects: ObjectsView,
    ) -> Result<(PartialHalfEdge, ObjectsView), ValidationError> {
        match self.curve_spec().into_partial_spec().transform_onto_spec(
            transform,
            surface,
            objects,
        ) {
            Err(e) => Err(e),
            Ok((curve, with_curve)) => match self.vertices_spec()[0].into_partial_spec().transform_onto_spec(
                transform,
                MaybePartial::Partial(curve),
                curve.surface,
                with_curve,
            ) {
                Err(e) => Err(e),
                Ok((back, with_back)) => match self.vertices_spec()[1].into_partial_spec().transform_onto_spec(
                    transform,
                    MaybePartial::Partial(curve),
                    curve.surface,
                    with_back,
                ) {
                    Err(e) => Err(e),
                    Ok((front, with_front)) => match self.global_form_spec().into_partial_spec().transform_spec(
                        transform,
                        with_front,
                    ) {
                        Err(e) => Err(e),
                        Ok((global_form, stores)) => Ok(
                            (
                                PartialHalfEdge {
                                    surface,
                                    curve: Some(MaybePartial::Partial(curve)),
                                    vertices: Some(
                                        [MaybePartial::Partial(back), MaybePartial::Partial(front)],
                                    ),
                                    global_form: Some(
                                        MaybePartial::Partial(
                                            PartialGlobalEdge {
                                                curve: overlay(global_form.curve, curve.global_form),
                                                ..global_form
                                            },
                                        ),
                                    ),
                                },
                                stores,
                            ),
                        ),
                    },
                },
            },
        }
    }

    /// What [`PartialHalfEdge::transform`] returns, and the stores after it.
    pub open spec fn transform_spec(self, transform: Transform, objects: ObjectsView) -> Result<
        (PartialHalfEdge, ObjectsView),
        ValidationError,
    > {
        self.transform_onto_spec(transform, None, objects)
    }

    /// The image of the partial half-edge under `transform`, on `surface`
    /// where that is given: the image of the surface of the half-edge, which
    /// is then not transformed again.
    ///
    /// Both vertices of the image lie on the one image of the curve, and the
    /// global form of the image runs on the global curve of that image where
    /// it has one: what the half-edge shared, its image shares.
    #[verifier::rlimit(50)]
    pub fn transform_onto(
        self,
        transform: &Transform,
        surface: Option<Handle<Surface>>,
        objects: &mut Objects,
    ) -> (r: Result<PartialHalfEdge, ValidationError>)
        ensures
            outcome(
                self.transform_onto_spec(*transform, surface, old(objects)@),
                r,
                old(objects)@,
                final(objects)@,
            ),
            surface is Some ==> final(objects)@.surfaces == old(objects)@.surfaces,
            r matches Ok(image) ==> {
                &&& image.surface == surface
                &&& image.curve matches Some(MaybePartial::Partial(curve))
                &&& image.vertices matches Some(vertices)
                &&& vertices[0] matches MaybePartial::Partial(back)
                &&& vertices[1] matches MaybePartial::Partial(front)
                &&& back.curve == image.curve
                &&& front.curve == image.curve
                &&& image.global_form matches Some(MaybePartial::Partial(global_form))
                &&& curve.global_form is Some ==> global_form.curve == curve.global_form
                &&& surface is Some ==> curve.surface == surface
            },
    {
        reveal(PartialHalfEdge::transform_onto_spec);
        let curve = match self.curve().into_partial().transform_onto(transform, surface, objects) {
            Ok(curve) => curve,
            Err(e) => { return Err(e); },
        };
        let ghost with_curve = objects@;
        let vertices = self.vertices();
        let back = match vertices[0].into_partial().transform_onto(
            transform,
            MaybePartial::Partial(curve),
            curve.surface,
            objects,
        ) {
            Ok(vertex) => vertex,
            Err(e) => {
                proof {
                    extends_is_transitive(old(objects)@, with_curve, objects@);
                }
                return Err(e);
            },
        };
        let ghost with_back = objects@;
        proof {
            extends_is_transitive(old(objects)@, with_curve, with_back);
        }
        let front = match vertices[1].into_partial().transform_onto(
            transform,
            MaybePartial::Partial(curve),
            curve.surface,
            objects,
        ) {
            Ok(vertex) => vertex,
            Err(e) => {
                proof {
                    extends_is_transitive(old(objects)@, with_back, objects@);
                }
                return Err(e);
            },
        };
        let ghost with_front = objects@;
        proof {
            extends_is_transitive(old(objects)@, with_back, with_front);
        }
        let global_form = match self.global_form().into_partial().transform(transform, objects) {
            Ok(global_form) => global_form,
            Err(e) => {
                proof {
                    extends_is_transitive(old(objects)@, with_front, objects@);
                }
                return Err(e);
            },
        };
        proof {
            extends_is_transitive(old(objects)@, with_front, objects@);
        }
        let global_form = global_form.with_curve(curve.global_form);
        Ok(
            PartialHalfEdge::default().with_surface(surface).with_curve(
                Some(MaybePartial::Partial(curve)),
            ).with_vertices(
                Some([MaybePartial::Partial(back), MaybePartial::Partial(front)]),
            ).with_global_form(Some(MaybePartial::Partial(global_form))),
        )
    }

    /// The image of the partial half-edge under `transform`.
    ///
    /// The curve is transformed, and with it its surface. Both vertices of
    /// the image lie on the one image of the curve, and the global form of
    /// the image runs on the global curve of that image where it has one.
    /// The image has no surface of its own.
    pub fn transform(self, transform: &Transform, objects: &mut Objects) -> (r: Result<
        PartialHalfEdge,
        ValidationError,
    >)
        ensures
            outcome(
                self.transform_spec(*transform, old(objects)@),
                r,
                old(objects)@,
                final(objects)@,
            ),
            r matches Ok(image) ==> {
                &&& image.surface is None
                &&& image.curve matches Some(MaybePartial::Partial(curve))
                &&& image.vertices matches Some(vertices)
                &&& vertices[0] matches MaybePartial::Partial(back)
                &&& vertices[1] matches MaybePartial::Partial(front)
                &&& back.curve == image.curve
                &&& front.curve == image.curve
                &&& image.global_form matches Some(MaybePartial::Partial(global_form))
                &&& curve.global_form is Some ==> global_form.curve == curve.global_form
            },
    {
        self.transform_onto(transform, None, objects)
    }
}

} // verus!
