//! Partial cycles.

use fj_math::Point;
use vstd::prelude::*;

use crate::objects::cycle::{Cycle, CycleView};
use crate::objects::edge::HalfEdge;
use crate::objects::surface::Surface;
use crate::objects::{extends_is_transitive, Objects, ObjectsView};
use crate::partial::edge::{
    half_edge_off_circles_is_built_without_draw, placed_half_edge_is_built_without_draw,
    MaybePartialHalfEdge, PartialHalfEdge,
};
use crate::path::SurfacePath;
use crate::partial::vertex::MaybePartialVertex;
use crate::partial::{overlay, EdgeDraw, MaybePartial, VertexDraw};
use crate::storage::Handle;
use crate::validate::ValidationError;

verus! {

/// A cycle under construction.
#[derive(Debug, PartialEq, Eq, Hash)]
pub struct PartialCycle {
    /// The surface on which the cycle lies.
    pub surface: Option<Handle<Surface>>,
    /// The half-edges of the cycle, in their order.
    pub half_edges: Vec<MaybePartialHalfEdge>,
}

/// What a partial cycle holds.
pub struct PartialCycleView {
    pub surface: Option<Handle<Surface>>,
    pub half_edges: Seq<MaybePartialHalfEdge>,
}

impl View for PartialCycle {
    type V = PartialCycleView;

    open spec fn view(&self) -> PartialCycleView {
        PartialCycleView { surface: self.surface, half_edges: self.half_edges@ }
    }
}

impl Default for PartialCycle {
    fn default() -> (r: Self)
        ensures
            r@ == PartialCycleView::empty(),
    {
        PartialCycle { surface: None, half_edges: Vec::new() }
    }
}

impl MaybePartial<HalfEdge, PartialHalfEdge> {
    /// The vertices of the half-edge, as far as they are known.
    pub open spec fn vertices_spec(self) -> [MaybePartialVertex; 2] {
        match self {
            MaybePartial::Full(full) => [
                MaybePartial::Full(full.vertices[0]),
                MaybePartial::Full(full.vertices[1]),
            ],
            MaybePartial::Partial(partial) => partial.vertices_spec(),
        }
    }

    /// The vertices of the half-edge, as far as they are known.
    pub fn vertices(&self) -> (r: [MaybePartialVertex; 2])
        ensures
            r == self.vertices_spec(),
    {
        match self {
            MaybePartial::Full(full) => [
                MaybePartial::Full(full.vertices[0]),
                MaybePartial::Full(full.vertices[1]),
            ],
            MaybePartial::Partial(partial) => partial.vertices(),
        }
    }

    /// The surface position of one of the vertices, as far as it is known.
    pub open spec fn corner_spec(self, end: int) -> Option<Point<2>> {
        match self.vertices_spec()[end].surface_form_spec() {
            Some(surface_form) => surface_form.position_spec(),
            None => None,
        }
    }

    /// The surface position at which the half-edge starts, as far as it is
    /// known.
    pub fn start(&self) -> (r: Option<Point<2>>)
        ensures
            r == self.corner_spec(0),
    {
        match self.vertices()[0].surface_form() {
            Some(surface_form) => surface_form.position(),
            None => None,
        }
    }

    /// The surface position at which the half-edge ends, as far as it is
    /// known.
    pub fn end(&self) -> (r: Option<Point<2>>)
        ensures
            r == self.corner_spec(1),
    {
        match self.vertices()[1].surface_form() {
            Some(surface_form) => surface_form.position(),
            None => None,
        }
    }
}

/// The half-edges `edges`, followed by a line segment from `previous`, where
/// there is one, to the first of `points`, and by one from each of `points`
/// to the next.
pub open spec fn extend_chain(
    surface: Option<Handle<Surface>>,
    edges: Seq<MaybePartialHalfEdge>,
    previous: Option<Point<2>>,
    points: Seq<Point<2>>,
) -> Result<Seq<MaybePartialHalfEdge>, ValidationError>
    decreases points.len(),
{
    if points.len() == 0 {
        Ok(edges)
    } else {
        match previous {
            None => extend_chain(surface, edges, Some(points[0]), points.drop_first()),
            Some(from) => match (PartialHalfEdge {
                surface,
                ..PartialHalfEdge::empty()
            }).as_line_segment_from_points_spec([from, points[0]]) {
                Err(e) => Err(e),
                Ok(edge) => extend_chain(
                    surface,
                    edges.push(MaybePartial::Partial(edge)),
                    Some(points[0]),
                    points.drop_first(),
                ),
            },
        }
    }
}

/// The half-edges `edges`, each put on `surface` and finished in its turn,
/// and the stores after that, where `fj_math` places the points of
/// `draws[i]` on the circles that the build of the half-edge `i` meets.
pub open spec fn build_edges(
    surface: Handle<Surface>,
    edges: Seq<MaybePartialHalfEdge>,
    draws: Seq<EdgeDraw>,
    objects: ObjectsView,
) -> Result<(Seq<HalfEdge>, ObjectsView), ValidationError>
    decreases edges.len(),
{
    if edges.len() == 0 {
        Ok((Seq::empty(), objects))
    } else {
        match build_edges(surface, edges.drop_last(), draws.drop_last(), objects) {
            Err(e) => Err(e),
            Ok((built, stores)) => match edges.last().with_surface_spec(
                Some(surface),
            ).into_full_spec(stores, draws.last()) {
                Err(e) => Err(e),
                Ok((half_edge, after)) => Ok((built.push(half_edge), after)),
            },
        }
    }
}

/// Where the build of the first `k` half-edges fails, the build of all of
/// them fails in the same way.
pub proof fn failed_build_stays_failed(
    surface: Handle<Surface>,
    edges: Seq<MaybePartialHalfEdge>,
    draws: Seq<EdgeDraw>,
    objects: ObjectsView,
    k: int,
)
    requires
        0 <= k <= edges.len(),
        draws.len() == edges.len(),
        build_edges(surface, edges.take(k), draws.take(k), objects) is Err,
    ensures
        build_edges(surface, edges, draws, objects) == build_edges(
            surface,
            edges.take(k),
            draws.take(k),
            objects,
        ),
    decreases edges.len() - k,
{
    if k == edges.len() {
        assert(edges.take(k) =~= edges);
        assert(draws.take(k) =~= draws);
    } else {
        assert(edges.drop_last().take(k) =~= edges.take(k));
        assert(draws.drop_last().take(k) =~= draws.take(k));
        failed_build_stays_failed(surface, edges.drop_last(), draws.drop_last(), objects, k);
    }
}

/// Whether finishing any of the half-edges leaves nothing for `fj_math` to
/// place.
pub open spec fn all_placed(edges: Seq<MaybePartialHalfEdge>) -> bool {
    forall|i: int| 0 <= i < edges.len() ==> (#[trigger] edges[i]).is_placed()
}

/// Half-edges that leave nothing for `fj_math` to place are finished in one
/// way only: no drawn point is read.
pub proof fn placed_edges_are_built_without_draw(
    surface: Handle<Surface>,
    edges: Seq<MaybePartialHalfEdge>,
    a: Seq<EdgeDraw>,
    b: Seq<EdgeDraw>,
    objects: ObjectsView,
)
    requires
        all_placed(edges),
    ensures
        build_edges(surface, edges, a, objects) == build_edges(surface, edges, b, objects),
    decreases edges.len(),
{
    if edges.len() > 0 {
        assert forall|i: int| 0 <= i < edges.drop_last().len() implies (
        #[trigger] edges.drop_last()[i]).is_placed() by {
            assert(edges.drop_last()[i] == edges[i]);
        }
        placed_edges_are_built_without_draw(
            surface,
            edges.drop_last(),
            a.drop_last(),
            b.drop_last(),
            objects,
        );
        if let Ok((_, stores)) = build_edges(surface, edges.drop_last(), a.drop_last(), objects) {
            assert(edges.last().is_placed());
            placed_half_edge_is_built_without_draw(
                edges.last().with_surface_spec(Some(surface)),
                stores,
                a.last(),
                b.last(),
            );
        }
    }
}

/// Whether each of the half-edges is finished or runs on a partial curve
/// that is a line.
pub open spec fn all_on_lines(edges: Seq<MaybePartialHalfEdge>) -> bool {
    forall|i: int|
        0 <= i < edges.len() ==> match #[trigger] edges[i] {
            MaybePartial::Full(_) => true,
            MaybePartial::Partial(partial) => partial.curve matches Some(
                MaybePartial::Partial(curve),
            ) && curve.path matches Some(SurfacePath::Line(_)),
        }
}

/// Half-edges on lines are finished on a plane in one way only: `fj_math`
/// places no point on a circle, and no drawn point is read.
pub proof fn edges_on_lines_are_built_without_draw(
    surface: Handle<Surface>,
    edges: Seq<MaybePartialHalfEdge>,
    a: Seq<EdgeDraw>,
    b: Seq<EdgeDraw>,
    objects: ObjectsView,
)
    requires
        surface.object.u is Line,
        all_on_lines(edges),
    ensures
        build_edges(surface, edges, a, objects) == build_edges(surface, edges, b, objects),
    decreases edges.len(),
{
    if edges.len() > 0 {
        assert forall|i: int| 0 <= i < edges.drop_last().len() implies match #[trigger] edges.drop_last()[i] {
            MaybePartial::Full(_) => true,
            MaybePartial::Partial(partial) => partial.curve matches Some(
                MaybePartial::Partial(curve),
            ) && curve.path matches Some(SurfacePath::Line(_)),
        } by {
            assert(edges.drop_last()[i] == edges[i]);
        }
        edges_on_lines_are_built_without_draw(
            surface,
            edges.drop_last(),
            a.drop_last(),
            b.drop_last(),
            objects,
        );
        if let Ok((_, stores)) = build_edges(surface, edges.drop_last(), a.drop_last(), objects) {
            let last = edges[edges.len() - 1];
            assert(edges.last() == last);
            half_edge_off_circles_is_built_without_draw(
                last.with_surface_spec(Some(surface)),
                stores,
                a.last(),
                b.last(),
            );
        }
    }
}

/// A chain of line segments that is appended to half-edges on lines runs on
/// lines.
pub proof fn chain_runs_on_lines(
    surface: Option<Handle<Surface>>,
    edges: Seq<MaybePartialHalfEdge>,
    previous: Option<Point<2>>,
    points: Seq<Point<2>>,
)
    requires
        all_on_lines(edges),
    ensures
        extend_chain(surface, edges, previous, points) matches Ok(chain) ==> all_on_lines(chain),
    decreases points.len(),
{
    reveal(PartialHalfEdge::as_line_segment_from_points_spec);
    if points.len() > 0 {
        match previous {
            None => {
                chain_runs_on_lines(surface, edges, Some(points[0]), points.drop_first());
            },
            Some(from) => {
                let segment = (PartialHalfEdge {
                    surface,
                    ..PartialHalfEdge::empty()
                }).as_line_segment_from_points_spec([from, points[0]]);
                if let Ok(edge) = segment {
                    let next = edges.push(MaybePartial::Partial(edge));
                    assert forall|i: int| 0 <= i < next.len() implies match #[trigger] next[i] {
                        MaybePartial::Full(_) => true,
                        MaybePartial::Partial(partial) => partial.curve matches Some(
                            MaybePartial::Partial(curve),
                        ) && curve.path matches Some(SurfacePath::Line(_)),
                    } by {
                        if i < edges.len() {
                            assert(next[i] == edges[i]);
                        }
                    }
                    chain_runs_on_lines(surface, next, Some(points[0]), points.drop_first());
                }
            },
        }
    }
}

/// A polygon runs on lines.
pub proof fn polygon_runs_on_lines(surface: Option<Handle<Surface>>, points: Seq<Point<2>>)
    ensures
        (PartialCycleView { surface, ..PartialCycleView::empty() }).with_poly_chain_from_points_spec(
            points,
        ) matches Ok(chain) ==> (chain.close_with_line_segment_spec() matches Ok(closed)
            ==> closed.surface == surface && all_on_lines(closed.half_edges)),
{
    reveal(PartialHalfEdge::as_line_segment_from_points_spec);
    let start = PartialCycleView { surface, ..PartialCycleView::empty() };
    chain_runs_on_lines(surface, start.half_edges, start.end_of_chain(), points);
    if let Ok(chain) = start.with_poly_chain_from_points_spec(points) {
        if let Ok(closed) = chain.close_with_line_segment_spec() {
            assert forall|i: int| 0 <= i < closed.half_edges.len() implies match #[trigger] closed.half_edges[i] {
                MaybePartial::Full(_) => true,
                MaybePartial::Partial(partial) => partial.curve matches Some(
                    MaybePartial::Partial(curve),
                ) && curve.path matches Some(SurfacePath::Line(_)),
            } by {
                if i < chain.half_edges.len() {
                    assert(closed.half_edges[i] == chain.half_edges[i]);
                }
            }
        }
    }
}

/// Whether the build of a cycle came out as `model` says: with a cycle that
/// holds what `model` gives and with its stores on success, with its error
/// on failure.
pub open spec fn cycle_outcome(
    model: Result<(CycleView, ObjectsView), ValidationError>,
    r: Result<Cycle, ValidationError>,
    after: ObjectsView,
) -> bool {
    match model {
        Ok((view, stores)) => r is Ok && r->Ok_0@ == view && after == stores,
        Err(e) => r is Err && r->Err_0 == e,
    }
}

impl PartialCycleView {
    /// The partial cycle of which nothing is known.
    pub open spec fn empty() -> Self {
        PartialCycleView { surface: None, half_edges: Seq::empty() }
    }

    /// The surface position at which the chain of half-edges ends, if there
    /// are any.
    pub open spec fn end_of_chain(self) -> Option<Point<2>> {
        if self.half_edges.len() == 0 {
            None
        } else {
            self.half_edges.last().corner_spec(1)
        }
    }

    /// What [`PartialCycle::with_poly_chain_from_points`] returns.
    pub open spec fn with_poly_chain_from_points_spec(self, points: Seq<Point<2>>) -> Result<
        PartialCycleView,
        ValidationError,
    > {
        if points.len() > 0 && self.half_edges.len() > 0 && self.end_of_chain() is None {
            Err(ValidationError::IncompleteObject)
        } else {
            match extend_chain(self.surface, self.half_edges, self.end_of_chain(), points) {
                Err(e) => Err(e),
                Ok(half_edges) => Ok(PartialCycleView { half_edges, ..self }),
            }
        }
    }

    /// What [`PartialCycle::close_with_line_segment`] returns.
    pub open spec fn close_with_line_segment_spec(self) -> Result<
        PartialCycleView,
        ValidationError,
    > {
        if self.half_edges.len() == 0 {
            Ok(self)
        } else if self.end_of_chain() is None || self.half_edges.first().corner_spec(0) is None {
            Err(ValidationError::IncompleteObject)
        } else {
            match (PartialHalfEdge {
                surface: self.surface,
                ..PartialHalfEdge::empty()
            }).as_line_segment_from_points_spec(
                [self.end_of_chain()->Some_0, self.half_edges.first().corner_spec(0)->Some_0],
            ) {
                Err(e) => Err(e),
                Ok(edge) => Ok(
                    PartialCycleView {
                        half_edges: self.half_edges.push(MaybePartial::Partial(edge)),
                        ..self
                    },
                ),
            }
        }
    }

    /// What [`PartialCycle::build`] returns, and the stores after it, where
    /// `fj_math` places the points of `draws[i]` on the circles that the
    /// build of the half-edge `i` meets.
    pub open spec fn build_spec(self, objects: ObjectsView, draws: Seq<EdgeDraw>) -> Result<
        (CycleView, ObjectsView),
        ValidationError,
    > {
        match self.surface {
            None => Err(ValidationError::IncompleteObject),
            Some(surface) => match build_edges(surface, self.half_edges, draws, objects) {
                Err(e) => Err(e),
                Ok((half_edges, stores)) => match Cycle::new_spec(surface, half_edges) {
                    Err(e) => Err(e),
                    Ok(cycle) => Ok((cycle, stores)),
                },
            },
        }
    }

    /// The partial cycle that has every field of `cycle`.
    pub open spec fn from_spec(cycle: CycleView) -> Self {
        PartialCycleView {
            surface: Some(cycle.surface),
            half_edges: Seq::new(
                cycle.half_edges.len(),
                |i: int| MaybePartial::Full(cycle.half_edges[i]),
            ),
        }
    }
}

impl PartialCycle {
    /// Updates the surface, where one is given.
    pub fn with_surface(self, surface: Option<Handle<Surface>>) -> (r: Self)
        ensures
            r@ == (PartialCycleView { surface: overlay(self@.surface, surface), ..self@ }),
    {
        match surface {
            Some(_) => PartialCycle { surface, half_edges: self.half_edges },
            None => self,
        }
    }

    /// Appends half-edges to the cycle.
    pub fn with_half_edges(self, half_edges: Vec<MaybePartialHalfEdge>) -> (r: Self)
        ensures
            r@ == (PartialCycleView { half_edges: self@.half_edges + half_edges@, ..self@ }),
    {
        let mut all = self.half_edges;
        let mut more = half_edges;
        all.append(&mut more);
        PartialCycle { surface: self.surface, half_edges: all }
    }

    /// Appends a chain of line segments that leads from the end of the
    /// half-edges that are there, if any, through the given points, which
    /// are in surface coordinates. The cycle must have a surface as soon as
    /// a segment is to be made, and consecutive points must differ.
    #[verifier::loop_isolation(false)]
    #[verifier::rlimit(50)]
    pub fn with_poly_chain_from_points(self, points: &Vec<Point<2>>) -> (r: Result<
        Self,
        ValidationError,
    >)
        ensures
            match self@.with_poly_chain_from_points_spec(points@) {
                Ok(view) => r is Ok && r->Ok_0@ == view,
                Err(e) => r is Err && r->Err_0 == e,
            },
    {
        let surface = self.surface;
        let mut half_edges = self.half_edges;
        let mut previous: Option<Point<2>> = if half_edges.len() == 0 {
            None
        } else {
            half_edges[half_edges.len() - 1].end()
        };
        if points.len() > 0 && half_edges.len() > 0 && previous.is_none() {
            return Err(ValidationError::IncompleteObject);
        }
        let ghost whole = extend_chain(surface, half_edges@, previous, points@);
        assert(points@.skip(0) =~= points@);
        let mut i: usize = 0;
        while i < points.len()
            invariant
                i <= points.len(),
                extend_chain(surface, half_edges@, previous, points@.skip(i as int)) == whole,
            decreases points.len() - i,
        {
            assert(points@.skip(i as int).drop_first() =~= points@.skip(i + 1));
            match previous {
                None => {},
                Some(from) => {
                    match PartialHalfEdge::default().with_surface(
                        surface,
                    ).as_line_segment_from_points([from, points[i]]) {
                        Err(e) => { return Err(e); },
                        Ok(edge) => {
                            half_edges.push(MaybePartial::Partial(edge));
                        },
                    }
                },
            }
            previous = Some(points[i]);
            i += 1;
        }
        Ok(PartialCycle { surface, half_edges })
    }

    /// Closes the chain of half-edges with a line segment from its end to
    /// its start. A cycle without half-edges stays as it is.
    pub fn close_with_line_segment(self) -> (r: Result<Self, ValidationError>)
        ensures
            match self@.close_with_line_segment_spec() {
                Ok(view) => r is Ok && r->Ok_0@ == view,
                Err(e) => r is Err && r->Err_0 == e,
            },
    {
        if self.half_edges.len() == 0 {
            return Ok(self);
        }
        let first = self.half_edges[0].start();
        let last = self.half_edges[self.half_edges.len() - 1].end();
        let (from, to) = match (last, first) {
            (Some(from), Some(to)) => (from, to),
            _ => { return Err(ValidationError::IncompleteObject); },
        };
        match PartialHalfEdge::default().with_surface(self.surface).as_line_segment_from_points(
            [from, to],
        ) {
            Err(e) => Err(e),
            Ok(edge) => {
                let mut half_edges = self.half_edges;
                half_edges.push(MaybePartial::Partial(edge));
                Ok(PartialCycle { surface: self.surface, half_edges })
            },
        }
    }

    /// Finishes the cycle. This needs the surface. Each partial half-edge is
    /// put on that surface and finished, in the order of the cycle. A
    /// finished half-edge on another surface makes the build fail with
    /// [`ValidationError::Mismatch`].
    ///
    /// Where the position of a vertex is to be derived on a circle,
    /// `fj_math` places the point; the result is what
    /// [`PartialCycleView::build_spec`] makes of the points that were drawn.
    pub fn build(self, objects: &mut Objects) -> (r: Result<Cycle, ValidationError>)
        ensures
            final(objects)@.extends(old(objects)@),
            exists|draws: Seq<EdgeDraw>|
                draws.len() == self@.half_edges.len() && cycle_outcome(
                    #[trigger] self@.build_spec(old(objects)@, draws),
                    r,
                    final(objects)@,
                ),
            all_placed(self@.half_edges) || (all_on_lines(self@.half_edges) && self.surface is Some
                && self.surface->Some_0.object.u is Line) ==> forall|draws: Seq<EdgeDraw>|
                cycle_outcome(
                    #[trigger] self@.build_spec(old(objects)@, draws),
                    r,
                    final(objects)@,
                ),
            r matches Ok(cycle) ==> cycle@.wf() && self.surface == Some(cycle.surface),
            self.surface is None ==> r is Err && r->Err_0 == ValidationError::IncompleteObject
                && final(objects)@ == old(objects)@,
            final(objects)@.surfaces == old(objects)@.surfaces,
    {
        let ghost view = self@;
        let built = self.build_drawn(objects);
        assert(cycle_outcome(view.build_spec(old(objects)@, built.1@), built.0, objects@));
        proof {
            if all_placed(view.half_edges) && view.surface is Some {
                assert forall|draws: Seq<EdgeDraw>|
                    cycle_outcome(
                        #[trigger] view.build_spec(old(objects)@, draws),
                        built.0,
                        objects@,
                    ) by {
                    placed_edges_are_built_without_draw(
                        view.surface->Some_0,
                        view.half_edges,
                        draws,
                        built.1@,
                        old(objects)@,
                    );
                }
            } else if all_on_lines(view.half_edges) && view.surface is Some
                && view.surface->Some_0.object.u is Line {
                assert forall|draws: Seq<EdgeDraw>|
                    cycle_outcome(
                        #[trigger] view.build_spec(old(objects)@, draws),
                        built.0,
                        objects@,
                    ) by {
                    edges_on_lines_are_built_without_draw(
                        view.surface->Some_0,
                        view.half_edges,
                        draws,
                        built.1@,
                        old(objects)@,
                    );
                }
            }
        }
        built.0
    }

    /// Finishes the cycle as [`PartialCycle::build`] does, and tells which
    /// points were drawn.
    #[verifier::loop_isolation(false)]
    #[verifier::rlimit(50)]
    pub(crate) fn build_drawn(self, objects: &mut Objects) -> (r: (
        Result<Cycle, ValidationError>,
        Ghost<Seq<EdgeDraw>>,
    ))
        ensures
            final(objects)@.extends(old(objects)@),
            r.1@.len() == self@.half_edges.len(),
            cycle_outcome(self@.build_spec(old(objects)@, r.1@), r.0, final(objects)@),
            r.0 matches Ok(cycle) ==> cycle@.wf() && self.surface == Some(cycle.surface),
            self.surface is None ==> r.0 is Err && r.0->Err_0 == ValidationError::IncompleteObject
                && final(objects)@ == old(objects)@,
            final(objects)@.surfaces == old(objects)@.surfaces,
    {
        let ghost nothing = VertexDraw { on_curve: arbitrary(), on_path: arbitrary() };
        let ghost edges = self.half_edges@;
        let surface = match self.surface {
            Some(surface) => surface,
            None => {
                return (
                    Err(ValidationError::IncompleteObject),
                    Ghost(
                        Seq::new(edges.len(), |k: int| EdgeDraw { back: nothing, front: nothing }),
                    ),
                );
            },
        };
        let ghost mut draws: Seq<EdgeDraw> = Seq::empty();
        assert(edges.take(0) =~= Seq::<MaybePartialHalfEdge>::empty());
        let mut built: Vec<HalfEdge> = Vec::new();
        let mut i: usize = 0;
        while i < self.half_edges.len()
            invariant
                i <= self.half_edges.len(),
                draws.len() == i,
                objects@.extends(old(objects)@),
                objects@.surfaces == old(objects)@.surfaces,
                build_edges(surface, edges.take(i as int), draws, old(objects)@) == Ok::<
                    _,
                    ValidationError,
                >((built@, objects@)),
            decreases self.half_edges.len() - i,
        {
            let ghost before = objects@;
            let ghost done = built@;
            let next = self.half_edges[i].with_surface(Some(surface)).into_full_drawn(objects);
            proof {
                extends_is_transitive(old(objects)@, before, objects@);
                assert(edges.take(i + 1).drop_last() =~= edges.take(i as int));
                assert(draws.push(next.1@).drop_last() =~= draws);
                assert(edges.take(i + 1).last() == edges[i as int]);
            }
            match next.0 {
                Err(e) => {
                    let ghost failing = draws.push(next.1@) + Seq::new(
                        (edges.len() - i - 1) as nat,
                        |k: int| next.1@,
                    );
                    proof {
                        assert(failing.take(i + 1) =~= draws.push(next.1@));
                        failed_build_stays_failed(surface, edges, failing, old(objects)@, i + 1);
                    }
                    return (Err(e), Ghost(failing));
                },
                Ok(half_edge) => {
                    built.push(half_edge);
                    proof {
                        draws = draws.push(next.1@);
                    }
                },
            }
            i += 1;
        }
        assert(edges.take(i as int) =~= edges);
        (Cycle::new(surface, built), Ghost(draws))
    }

    /// The partial cycle that has every field of `cycle`.
    pub fn from(cycle: &Cycle) -> (r: Self)
        ensures
            r@ == PartialCycleView::from_spec(cycle@),
    {
        let mut half_edges: Vec<MaybePartialHalfEdge> = Vec::new();
        let mut i: usize = 0;
        while i < cycle.half_edges.len()
            invariant
                i <= cycle.half_edges.len(),
                half_edges@.len() == i,
                forall|k: int|
                    0 <= k < i ==> half_edges@[k] == MaybePartialHalfEdge::Full(
                        cycle.half_edges@[k],
                    ),
            decreases cycle.half_edges.len() - i,
        {
            half_edges.push(MaybePartial::Full(cycle.half_edges[i]));
            i += 1;
        }
        assert(half_edges@ =~= PartialCycleView::from_spec(cycle@).half_edges);
        PartialCycle { surface: Some(cycle.surface), half_edges }
    }
}

} // verus!
