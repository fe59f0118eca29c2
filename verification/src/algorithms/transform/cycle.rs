//! Transforms of cycles.

use fj_math::Transform;
use vstd::prelude::*;

use crate::algorithms::transform::curve::{transform_surface, transform_surface_spec};
use crate::objects::surface::Surface;
use crate::objects::{extends_is_transitive, Objects, ObjectsView};
use crate::partial::cycle::{all_placed, PartialCycle, PartialCycleView};
use crate::partial::edge::{MaybePartialHalfEdge, PartialHalfEdge};
use crate::partial::MaybePartial;
use crate::storage::Handle;
use crate::validate::ValidationError;

verus! {

/// The half-edges `done`, followed by the images of those of `edges`, each
/// on `surface` where one is given; and the stores after that.
pub open spec fn transform_edges(
    transform: Transform,
    surface: Option<Handle<Surface>>,
    edges: Seq<MaybePartialHalfEdge>,
    done: Seq<MaybePartialHalfEdge>,
    objects: ObjectsView,
) -> Result<(Seq<MaybePartialHalfEdge>, ObjectsView), ValidationError>
    decreases edges.len(),
{
    if edges.len() == 0 {
        Ok((done, objects))
    } else {
        match edges[0].into_partial_spec().transform_onto_spec(transform, surface, objects) {
            Err(e) => Err(e),
            Ok((image, stores)) => transform_edges(
                transform,
                surface,
                edges.drop_first(),
                done.push(MaybePartial::Partial(image)),
                stores,
            ),
        }
    }
}

impl PartialCycleView {
    /// What [`PartialCycle::transform`] returns, and the stores after it.
    pub open spec fn transform_spec(self, transform: Transform, objects: ObjectsView) -> Result<
        (PartialCycleView, ObjectsView),
        ValidationError,
    > {
        self.transform_onto_spec(transform, None, objects)
    }

    /// What [`PartialCycle::transform_onto`] returns, and the stores after
    /// it.
    pub open spec fn transform_onto_spec(
        self,
        transform: Transform,
        surface: Option<Handle<Surface>>,
        objects: ObjectsView,
    ) -> Result<(PartialCycleView, ObjectsView), ValidationError> {
        match transform_surface_spec(self.surface, surface, transform, objects) {
            Err(e) => Err(e),
            Ok((surface, with_surface)) => match transform_edges(
                transform,
                surface,
                self.half_edges,
                Seq::empty(),
                with_surface,
            ) {
                Err(e) => Err(e),
                Ok((half_edges, stores)) => Ok((PartialCycleView { surface, half_edges }, stores)),
            },
        }
    }
}

impl PartialCycle {
    /// The image of the partial cycle under `transform`: on the image of
    /// its surface, with the images of its half-edges, which are all
    /// partial and all on that one image of the surface.
    pub fn transform(self, transform: &Transform, objects: &mut Objects) -> (r: Result<
        PartialCycle,
        ValidationError,
    >)
        ensures
            final(objects)@.extends(old(objects)@),
            match self@.transform_spec(*transform, old(objects)@) {
                Ok((view, stores)) => r is Ok && r->Ok_0@ == view && final(objects)@ == stores,
                Err(e) => r is Err && r->Err_0 == e,
            },
            r matches Ok(image) ==> image@.half_edges.len() == self@.half_edges.len() && (
            image.surface is Some <==> self.surface is Some),
    {
        self.transform_onto(transform, None, objects)
    }

    /// The image of the partial cycle under `transform`, on `surface` where
    /// that is given: the image of the surface of the cycle, which is then
    /// not transformed again, neither for the cycle nor for any of its
    /// half-edges.
    #[verifier::loop_isolation(false)]
    #[verifier::rlimit(50)]
    pub fn transform_onto(
        self,
        transform: &Transform,
        surface: Option<Handle<Surface>>,
        objects: &mut Objects,
    ) -> (r: Result<PartialCycle, ValidationError>)
        ensures
            final(objects)@.extends(old(objects)@),
            match self@.transform_onto_spec(*transform, surface, old(objects)@) {
                Ok((view, stores)) => r is Ok && r->Ok_0@ == view && final(objects)@ == stores,
                Err(e) => r is Err && r->Err_0 == e,
            },
            surface is Some ==> final(objects)@.surfaces == old(objects)@.surfaces,
            r matches Ok(image) ==> {
                &&& image@.half_edges.len() == self@.half_edges.len()
                &&& image.surface is Some <==> surface is Some || self.surface is Some
                &&& surface is Some ==> image.surface == surface
            },
    {
        let ghost given = surface;
        let surface = match transform_surface(self.surface, surface, transform, objects) {
            Ok(surface) => surface,
            Err(e) => { return Err(e); },
        };
        let ghost with_surface = objects@;
        let ghost whole = transform_edges(
            *transform,
            surface,
            self.half_edges@,
            Seq::empty(),
            with_surface,
        );
        assert(self.half_edges@.skip(0) =~= self.half_edges@);
        let mut done: Vec<MaybePartialHalfEdge> = Vec::new();
        let mut i: usize = 0;
        while i < self.half_edges.len()
            invariant
                i <= self.half_edges.len(),
                done@.len() == i,
                objects@.extends(old(objects)@),
                given is Some ==> objects@.surfaces == old(objects)@.surfaces,
                transform_edges(
                    *transform,
                    surface,
                    self.half_edges@.skip(i as int),
                    done@,
                    objects@,
                ) == whole,
            decreases self.half_edges.len() - i,
        {
            assert(self.half_edges@.skip(i as int).drop_first() =~= self.half_edges@.skip(i + 1));
            let ghost before = objects@;
            match self.half_edges[i].into_partial().transform_onto(transform, surface, objects) {
                Err(e) => {
                    proof {
                        extends_is_transitive(old(objects)@, before, objects@);
                    }
                    return Err(e);
                },
                Ok(image) => {
                    done.push(MaybePartial::Partial(image));
                },
            }
            proof {
                extends_is_transitive(old(objects)@, before, objects@);
            }
            i += 1;
        }
        Ok(PartialCycle { surface, half_edges: done })
    }
}

/// The image of a finished half-edge leaves nothing for `fj_math` to place
/// when it is built: its vertices keep their positions on the surface, and
/// their global vertices are the finished images of what they were.
pub proof fn image_of_finished_half_edge_is_placed(
    edge: MaybePartialHalfEdge,
    transform: Transform,
    surface: Option<Handle<Surface>>,
    objects: ObjectsView,
)
    requires
        edge is Full,
    ensures
        edge.into_partial_spec().transform_onto_spec(transform, surface, objects) matches Ok(
            (image, _),
        ) ==> MaybePartialHalfEdge::Partial(image).is_placed(),
{
    reveal(PartialHalfEdge::transform_onto_spec);
}

/// The images of finished half-edges leave nothing for `fj_math` to place
/// when they are built.
pub proof fn images_of_finished_half_edges_are_placed(
    transform: Transform,
    surface: Option<Handle<Surface>>,
    edges: Seq<MaybePartialHalfEdge>,
    done: Seq<MaybePartialHalfEdge>,
    objects: ObjectsView,
)
    requires
        forall|i: int| 0 <= i < edges.len() ==> (#[trigger] edges[i]) is Full,
        all_placed(done),
    ensures
        transform_edges(transform, surface, edges, done, objects) matches Ok((images, _))
            ==> all_placed(images),
    decreases edges.len(),
{
    if edges.len() > 0 {
        image_of_finished_half_edge_is_placed(edges[0], transform, surface, objects);
        if let Ok((image, stores)) = edges[0].into_partial_spec().transform_onto_spec(
            transform,
            surface,
            objects,
        ) {
            let next = done.push(MaybePartial::Partial(image));
            assert forall|i: int| 0 <= i < next.len() implies (#[trigger] next[i]).is_placed() by {
                if i < done.len() {
                    assert(next[i] == done[i]);
                }
            }
            assert forall|i: int| 0 <= i < edges.drop_first().len() implies (
            #[trigger] edges.drop_first()[i]) is Full by {
                assert(edges.drop_first()[i] == edges[i + 1]);
            }
            images_of_finished_half_edges_are_placed(
                transform,
                surface,
                edges.drop_first(),
                next,
                stores,
            );
        }
    }
}

} // verus!
