//! Transforms of faces.

use fj_math::Transform;
use vstd::prelude::*;

use crate::objects::cycle::{Cycle, CycleView};
use crate::objects::face::{cycle_views, Face, FaceView};
use crate::objects::surface::Surface;
use crate::objects::{extends_is_transitive, Objects, ObjectsView};
use crate::algorithms::transform::cycle::images_of_finished_half_edges_are_placed;
use crate::partial::cycle::{PartialCycle, PartialCycleView};
use crate::partial::EdgeDraw;
use crate::storage::Handle;
use crate::validate::ValidationError;

verus! {

/// Draws that hold nothing that matters: for the build of half-edges that
/// leave nothing for `fj_math` to place.
pub open spec fn undrawn(count: nat) -> Seq<EdgeDraw> {
    Seq::new(count, |k: int| arbitrary())
}

/// The image of a cycle on `surface`, which is the image of the surface of
/// the cycle; and the stores after it was built. The surface is not
/// transformed again. The half-edges of the image keep the positions of
/// their vertices on the surface and get the images of their global
/// vertices, so that nothing is drawn when the image is built.
#[verifier::opaque]
pub open spec fn transform_cycle_spec(
    cycle: CycleView,
    transform: Transform,
    surface: Handle<Surface>,
    objects: ObjectsView,
) -> Result<(CycleView, ObjectsView), ValidationError> {
    match PartialCycleView::from_spec(cycle).transform_onto_spec(
        transform,
        Some(surface),
        objects,
    ) {
        Err(e) => Err(e),
        Ok((image, stores)) => image.build_spec(stores, undrawn(image.half_edges.len())),
    }
}

/// Transforms a cycle and builds its image on `surface`.
#[verifier::rlimit(50)]
pub fn transform_cycle(
    cycle: &Cycle,
    transform: &Transform,
    surface: Handle<Surface>,
    objects: &mut Objects,
) -> (r: Result<Cycle, ValidationError>)
    ensures
        final(objects)@.extends(old(objects)@),
        match transform_cycle_spec(cycle@, *transform, surface, old(objects)@) {
            Ok((view, stores)) => r is Ok && r->Ok_0@ == view && final(objects)@ == stores,
            Err(e) => r is Err && r->Err_0 == e,
        },
        r matches Ok(image) ==> image@.wf() && image.surface == surface,
        final(objects)@.surfaces == old(objects)@.surfaces,
{
    reveal(transform_cycle_spec);
    let image = match PartialCycle::from(cycle).transform_onto(transform, Some(surface), objects) {
        Ok(image) => image,
        Err(e) => { return Err(e); },
    };
    let ghost transformed = objects@;
    proof {
        let finished = PartialCycleView::from_spec(cycle@).half_edges;
        images_of_finished_half_edges_are_placed(
            *transform,
            Some(surface),
            finished,
            Seq::empty(),
            old(objects)@,
        );
    }
    let r = image.build(objects);
    proof {
        extends_is_transitive(old(objects)@, transformed, objects@);
    }
    r
}

/// The cycles `done`, followed by the images of `cycles` on `surface`; and
/// the stores after they were built.
pub open spec fn transform_cycles_spec(
    cycles: Seq<CycleView>,
    transform: Transform,
    surface: Handle<Surface>,
    done: Seq<CycleView>,
    objects: ObjectsView,
) -> Result<(Seq<CycleView>, ObjectsView), ValidationError>
    decreases cycles.len(),
{
    if cycles.len() == 0 {
        Ok((done, objects))
    } else {
        match transform_cycle_spec(cycles[0], transform, surface, objects) {
            Err(e) => Err(e),
            Ok((image, stores)) => transform_cycles_spec(
                cycles.drop_first(),
                transform,
                surface,
                done.push(image),
                stores,
            ),
        }
    }
}

impl FaceView {
    /// What [`Face::transform`] returns, and the stores after it.
    ///
    /// The surface is transformed once. The exterior cycle and then each
    /// interior cycle are transformed and built on that one image.
    #[verifier::opaque]
    pub open spec fn transform_spec(self, transform: Transform, objects: ObjectsView) -> Result<
        (FaceView, ObjectsView),
        ValidationError,
    > {
        match self.surface.transform_spec(transform, objects) {
            Err(e) => Err(e),
            Ok((surface, with_surface)) => match transform_cycle_spec(
                self.exterior,
                transform,
                surface,
                with_surface,
            ) {
                Err(e) => Err(e),
                Ok((exterior, with_exterior)) => match transform_cycles_spec(
                    self.interiors,
                    transform,
                    surface,
                    Seq::empty(),
                    with_exterior,
                ) {
                    Err(e) => Err(e),
                    Ok((interiors, stores)) => match Face::new_spec(exterior, interiors, self.color) {
                        Err(e) => Err(e),
                        Ok(face) => Ok((face, stores)),
                    },
                },
            },
        }
    }
}

impl Face {
    /// The image of the face under `transform`.
    ///
    /// Exactly one surface is inserted: the image of the face's surface. The
    /// exterior cycle of the image and every one of its interior cycles lie
    /// on that very surface. The image has as many interior cycles as the
    /// face, and its color.
    #[verifier::loop_isolation(false)]
    #[verifier::rlimit(50)]
    pub fn transform(&self, transform: &Transform, objects: &mut Objects) -> (r: Result<
        Face,
        ValidationError,
    >)
        ensures
            final(objects)@.extends(old(objects)@),
            match self@.transform_spec(*transform, old(objects)@) {
                Ok((view, stores)) => r is Ok && r->Ok_0@ == view && final(objects)@ == stores,
                Err(e) => r is Err && r->Err_0 == e,
            },
            r matches Ok(image) ==> {
                &&& image@.wf()
                &&& final(objects)@.surfaces == old(objects)@.surfaces.push(image@.surface.object)
                &&& image@.surface.id == old(objects)@.surfaces.len()
                &&& self.surface.object.transformed_spec(*transform) == Ok::<_, ValidationError>(
                    image@.surface.object,
                )
                &&& image@.exterior.surface == image@.surface
                &&& image@.interiors.len() == self@.interiors.len()
                &&& forall|i: int|
                    0 <= i < image@.interiors.len() ==> (#[trigger] image@.interiors[i]).surface
                        == image@.surface
                &&& image@.color == self@.color
            },
    {
        reveal(FaceView::transform_spec);
        let surface = match self.surface.transform(transform, objects) {
            Ok(surface) => surface,
            Err(e) => { return Err(e); },
        };
        let ghost with_surface = objects@;
        let exterior = match transform_cycle(&self.exterior, transform, surface, objects) {
            Ok(exterior) => exterior,
            Err(e) => {
                proof {
                    extends_is_transitive(old(objects)@, with_surface, objects@);
                }
                return Err(e);
            },
        };
        let ghost with_exterior = objects@;
        proof {
            extends_is_transitive(old(objects)@, with_surface, with_exterior);
        }
        let ghost whole = transform_cycles_spec(
            self@.interiors,
            *transform,
            surface,
            Seq::empty(),
            with_exterior,
        );
        assert(self@.interiors.skip(0) =~= self@.interiors);
        assert(cycle_views(Seq::<Cycle>::empty()) =~= Seq::<CycleView>::empty());
        let mut interiors: Vec<Cycle> = Vec::new();
        let mut i: usize = 0;
        while i < self.interiors.len()
            invariant
                i <= self.interiors.len(),
                interiors@.len() == i,
                objects@.extends(old(objects)@),
                objects@.surfaces == with_surface.surfaces,
                forall|k: int| 0 <= k < i ==> (#[trigger] interiors@[k]).surface == surface,
                transform_cycles_spec(
                    self@.interiors.skip(i as int),
                    *transform,
                    surface,
                    cycle_views(interiors@),
                    objects@,
                ) == whole,
            decreases self.interiors.len() - i,
        {
            assert(self@.interiors.skip(i as int).drop_first() =~= self@.interiors.skip(i + 1));
            assert(self@.interiors.skip(i as int)[0] == self.interiors@[i as int]@);
            let ghost before = objects@;
            let ghost done = interiors@;
            match transform_cycle(&self.interiors[i], transform, surface, objects) {
                Err(e) => {
                    proof {
                        extends_is_transitive(old(objects)@, before, objects@);
                    }
                    return Err(e);
                },
                Ok(image) => {
                    interiors.push(image);
                    assert(cycle_views(interiors@) =~= cycle_views(done).push(image@));
                },
            }
            proof {
                extends_is_transitive(old(objects)@, before, objects@);
            }
            i += 1;
        }
        assert forall|k: int| 0 <= k < interiors@.len() implies (#[trigger] cycle_views(
            interiors@,
        )[k]).surface == surface by {
            assert(interiors@[k].surface == surface);
        }
        match Face::from_exterior(exterior).with_interiors(interiors) {
            Err(e) => Err(e),
            Ok(face) => Ok(face.with_color(self.color)),
        }
    }
}

} // verus!
