//! A builder for faces.

use fj_interop::mesh::Color;
use fj_math::Point;
use vstd::prelude::*;

use crate::objects::cycle::{Cycle, CycleView};
use crate::objects::face::{cycle_views, default_color, default_color_spec, Face};
use crate::objects::surface::Surface;
use crate::objects::{Objects, ObjectsView};
use crate::partial::cycle::{
    cycle_outcome, edges_on_lines_are_built_without_draw, polygon_runs_on_lines, PartialCycle,
    PartialCycleView,
};
use crate::partial::EdgeDraw;
use crate::storage::Handle;
use crate::validate::ValidationError;

verus! {

/// A face under construction.
pub struct FaceBuilder {
    /// The surface on which polygons are built.
    pub surface: Option<Handle<Surface>>,
    /// The exterior cycle.
    pub exterior: Option<Cycle>,
    /// The interior cycles.
    pub interiors: Vec<Cycle>,
    /// The color. A face without one gets the default color.
    pub color: Option<Color>,
}

/// The closed polygon on `surface` through `points`, finished, and the
/// stores after that, where `fj_math` places the points of `draws[i]` on the
/// circles that the build of the half-edge `i` meets.
pub open spec fn polygon_spec(
    surface: Option<Handle<Surface>>,
    points: Seq<Point<2>>,
    objects: ObjectsView,
    draws: Seq<EdgeDraw>,
) -> Result<(CycleView, ObjectsView), ValidationError> {
    match (PartialCycleView { surface, ..PartialCycleView::empty() }).with_poly_chain_from_points_spec(
        points,
    ) {
        Err(e) => Err(e),
        Ok(chain) => match chain.close_with_line_segment_spec() {
            Err(e) => Err(e),
            Ok(closed) => closed.build_spec(objects, draws),
        },
    }
}

/// Whether the surface is there and is a plane.
pub open spec fn on_plane(surface: Option<Handle<Surface>>) -> bool {
    surface matches Some(plane) && plane.object.u is Line
}

/// Builds the closed polygon on `surface` through `points`. On a plane the
/// polygon is fixed; where the surface sweeps a circle, `fj_math` places
/// the corners in space.
pub fn polygon(surface: Option<Handle<Surface>>, points: &Vec<Point<2>>, objects: &mut Objects) -> (r:
    Result<Cycle, ValidationError>)
    ensures
        final(objects)@.extends(old(objects)@),
        exists|draws: Seq<EdgeDraw>|
            cycle_outcome(
                #[trigger] polygon_spec(surface, points@, old(objects)@, draws),
                r,
                final(objects)@,
            ),
        on_plane(surface) ==> forall|draws: Seq<EdgeDraw>|
            cycle_outcome(
                #[trigger] polygon_spec(surface, points@, old(objects)@, draws),
                r,
                final(objects)@,
            ),
        r matches Ok(cycle) ==> cycle@.wf() && surface == Some(cycle.surface),
        final(objects)@.surfaces == old(objects)@.surfaces,
{
    let built = polygon_drawn(surface, points, objects);
    assert(cycle_outcome(polygon_spec(surface, points@, old(objects)@, built.1@), built.0, objects@));
    built.0
}

/// Builds the polygon as [`polygon`] does, and tells which points were
/// drawn.
pub(crate) fn polygon_drawn(
    surface: Option<Handle<Surface>>,
    points: &Vec<Point<2>>,
    objects: &mut Objects,
) -> (r: (Result<Cycle, ValidationError>, Ghost<Seq<EdgeDraw>>))
    ensures
        final(objects)@.extends(old(objects)@),
        cycle_outcome(polygon_spec(surface, points@, old(objects)@, r.1@), r.0, final(objects)@),
        on_plane(surface) ==> forall|draws: Seq<EdgeDraw>|
            cycle_outcome(
                #[trigger] polygon_spec(surface, points@, old(objects)@, draws),
                r.0,
                final(objects)@,
            ),
        r.0 matches Ok(cycle) ==> cycle@.wf() && surface == Some(cycle.surface),
        final(objects)@.surfaces == old(objects)@.surfaces,
{
    proof {
        polygon_runs_on_lines(surface, points@);
    }
    let chain = match PartialCycle::default().with_surface(surface).with_poly_chain_from_points(
        points,
    ) {
        Ok(chain) => chain,
        Err(e) => { return (Err(e), Ghost(Seq::empty())); },
    };
    let closed = match chain.close_with_line_segment() {
        Ok(closed) => closed,
        Err(e) => { return (Err(e), Ghost(Seq::empty())); },
    };
    let ghost view = closed@;
    let built = closed.build_drawn(objects);
    proof {
        if on_plane(surface) {
            assert forall|draws: Seq<EdgeDraw>|
                cycle_outcome(
                    #[trigger] polygon_spec(surface, points@, old(objects)@, draws),
                    built.0,
                    objects@,
                ) by {
                edges_on_lines_are_built_without_draw(
                    surface->Some_0,
                    view.half_edges,
                    draws,
                    built.1@,
                    old(objects)@,
                );
            }
        }
    }
    built
}

/// The exterior cycle of the builder that `r` holds.
pub open spec fn exterior_of(r: Result<FaceBuilder, ValidationError>) -> Result<
    Cycle,
    ValidationError,
> {
    match r {
        Ok(builder) => Ok(builder.exterior->Some_0),
        Err(e) => Err(e),
    }
}

/// The last interior cycle of the builder that `r` holds.
pub open spec fn last_interior_of(r: Result<FaceBuilder, ValidationError>) -> Result<
    Cycle,
    ValidationError,
> {
    match r {
        Ok(builder) => Ok(builder.interiors@.last()),
        Err(e) => Err(e),
    }
}

impl FaceBuilder {
    /// Sets the surface on which polygons are built.
    pub fn with_surface(self, surface: Handle<Surface>) -> (r: Self)
        ensures
            r.surface == Some(surface),
            r.exterior == self.exterior,
            r.interiors == self.interiors,
            r.color == self.color,
    {
        FaceBuilder {
            surface: Some(surface),
            exterior: self.exterior,
            interiors: self.interiors,
            color: self.color,
        }
    }

    /// Sets the exterior cycle.
    pub fn with_exterior(self, exterior: Cycle) -> (r: Self)
        ensures
            r.surface == self.surface,
            r.exterior == Some(exterior),
            r.interiors == self.interiors,
            r.color == self.color,
    {
        FaceBuilder {
            surface: self.surface,
            exterior: Some(exterior),
            interiors: self.interiors,
            color: self.color,
        }
    }

    /// Makes the closed polygon through `points` the exterior cycle. The
    /// points are in the coordinates of the builder's surface.
    pub fn with_exterior_polygon_from_points(
        self,
        points: &Vec<Point<2>>,
        objects: &mut Objects,
    ) -> (r: Result<Self, ValidationError>)
        ensures
            final(objects)@.extends(old(objects)@),
            exists|draws: Seq<EdgeDraw>|
                cycle_outcome(
                    #[trigger] polygon_spec(self.surface, points@, old(objects)@, draws),
                    exterior_of(r),
                    final(objects)@,
                ),
            on_plane(self.surface) ==> forall|draws: Seq<EdgeDraw>|
                cycle_outcome(
                    #[trigger] polygon_spec(self.surface, points@, old(objects)@, draws),
                    exterior_of(r),
                    final(objects)@,
                ),
            r matches Ok(builder) ==> {
                &&& builder.exterior is Some
                &&& builder.surface == self.surface
                &&& builder.interiors == self.interiors
                &&& builder.color == self.color
            },
    {
        let built = polygon_drawn(self.surface, points, objects);
        let r = match built.0 {
            Err(e) => Err(e),
            Ok(exterior) => Ok(
                FaceBuilder {
                    surface: self.surface,
                    exterior: Some(exterior),
                    interiors: self.interiors,
                    color: self.color,
                },
            ),
        };
        assert(cycle_outcome(
            polygon_spec(self.surface, points@, old(objects)@, built.1@),
            exterior_of(r),
            objects@,
        ));
        r
    }

    /// Adds the closed polygon through `points` to the interior cycles. The
    /// points are in the coordinates of the builder's surface.
    pub fn with_interior_polygon_from_points(
        self,
        points: &Vec<Point<2>>,
        objects: &mut Objects,
    ) -> (r: Result<Self, ValidationError>)
        ensures
            final(objects)@.extends(old(objects)@),
            exists|draws: Seq<EdgeDraw>|
                cycle_outcome(
                    #[trigger] polygon_spec(self.surface, points@, old(objects)@, draws),
                    last_interior_of(r),
                    final(objects)@,
                ),
            on_plane(self.surface) ==> forall|draws: Seq<EdgeDraw>|
                cycle_outcome(
                    #[trigger] polygon_spec(self.surface, points@, old(objects)@, draws),
                    last_interior_of(r),
                    final(objects)@,
                ),
            r matches Ok(builder) ==> {
                &&& builder.interiors@.len() == self.interiors@.len() + 1
                &&& cycle_views(builder.interiors@) == cycle_views(self.interiors@).push(
                    builder.interiors@.last()@,
                )
                &&& builder.surface == self.surface
                &&& builder.exterior == self.exterior
                &&& builder.color == self.color
            },
    {
        let built = polygon_drawn(self.surface, points, objects);
        let ghost before = self.interiors@;
        let r = match built.0 {
            Err(e) => Err(e),
            Ok(interior) => {
                let ghost view = interior@;
                let mut interiors = self.interiors;
                interiors.push(interior);
                assert(cycle_views(interiors@) =~= cycle_views(before).push(view));
                Ok(
                    FaceBuilder {
                        surface: self.surface,
                        exterior: self.exterior,
                        interiors,
                        color: self.color,
                    },
                )
            },
        };
        assert(cycle_outcome(
            polygon_spec(self.surface, points@, old(objects)@, built.1@),
            last_interior_of(r),
            objects@,
        ));
        r
    }

    /// Sets the color.
    pub fn with_color(self, color: Color) -> (r: Self)
        ensures
            r.surface == self.surface,
            r.exterior == self.exterior,
            r.interiors == self.interiors,
            r.color == Some(color),
    {
        FaceBuilder {
            surface: self.surface,
            exterior: self.exterior,
            interiors: self.interiors,
            color: Some(color),
        }
    }

    /// Finishes the face. This needs the exterior cycle; without it the
    /// build fails with [`ValidationError::IncompleteObject`]. It fails with
    /// [`ValidationError::Mismatch`] where an interior cycle lies on another
    /// surface than the exterior cycle.
    pub fn build(self) -> (r: Result<Face, ValidationError>)
        ensures
            match self.exterior {
                None => r is Err && r->Err_0 == ValidationError::IncompleteObject,
                Some(exterior) => match Face::new_spec(
                    exterior@,
                    cycle_views(self.interiors@),
                    match self.color {
                        Some(color) => color,
                        None => default_color_spec(),
                    },
                ) {
                    Ok(view) => r is Ok && r->Ok_0@ == view,
                    Err(e) => r is Err && r->Err_0 == e,
                },
            },
            r matches Ok(face) ==> face@.wf(),
    {
        let exterior = match self.exterior {
            Some(exterior) => exterior,
            None => { return Err(ValidationError::IncompleteObject); },
        };
        let color = match self.color {
            Some(color) => color,
            None => default_color(),
        };
        Face::new(exterior, self.interiors, color)
    }
}

} // verus!
