//! Partial half-edges and partial global edges.

use fj_math::{Point, Scalar};
use vstd::prelude::*;

use crate::math::scalar::{
    is_zero, one, same_rank, scalar_bits, scalar_of_u64, scalar_rank, tau, zero, TAU_BITS,
};
use crate::math::vector::{point1, point1_at};
use crate::objects::curve::{Curve, GlobalCurve};
use crate::objects::edge::{GlobalEdge, HalfEdge};
use crate::objects::surface::Surface;
use crate::objects::vertex::{GlobalVertex, Vertex};
use crate::objects::{extends_is_transitive, Objects, ObjectsView};
use crate::partial::curve::{MaybePartialCurve, PartialCurve};
use crate::partial::vertex::{
    placed_vertex_is_built_without_draw, vertex_off_circles_is_built_without_draw,
    MaybePartialVertex, PartialGlobalVertex, PartialSurfaceVertex, PartialVertex,
};
use crate::partial::{outcome, overlay, EdgeDraw, MaybePartial, VertexDraw};
use crate::storage::Handle;
use crate::validate::ValidationError;

verus! {

/// A half-edge under construction.
#[derive(Clone, Copy, Debug, PartialEq, Eq, Hash)]
pub struct PartialHalfEdge {
    /// The surface on which the curve of the half-edge lies.
    pub surface: Option<Handle<Surface>>,
    /// The curve on which the half-edge runs.
    pub curve: Option<MaybePartialCurve>,
    /// The vertices that bound the half-edge on its curve.
    pub vertices: Option<[MaybePartialVertex; 2]>,
    /// The global form of the half-edge. Where it is absent,
    /// [`PartialHalfEdge::build`] derives it from curve and vertices.
    pub global_form: Option<MaybePartialGlobalEdge>,
}

/// A global edge under construction.
#[derive(Clone, Copy, Debug, PartialEq, Eq, Hash)]
pub struct PartialGlobalEdge {
    /// The global curve on which the edge runs.
    pub curve: Option<Handle<GlobalCurve>>,
    /// The global vertices that bound the edge.
    pub vertices: Option<[Handle<GlobalVertex>; 2]>,
}

/// A half-edge, finished or under construction.
pub type MaybePartialHalfEdge = MaybePartial<HalfEdge, PartialHalfEdge>;

/// A global edge, finished or under construction.
pub type MaybePartialGlobalEdge = MaybePartial<GlobalEdge, PartialGlobalEdge>;

/// The first of the two that is known.
pub open spec fn first_known<T>(first: Option<T>, second: Option<T>) -> Option<T> {
    if first is Some {
        first
    } else {
        second
    }
}

impl Default for PartialHalfEdge {
    fn default() -> (r: Self)
        ensures
            r == PartialHalfEdge::empty(),
    {
        PartialHalfEdge { surface: None, curve: None, vertices: None, global_form: None }
    }
}

impl Default for PartialGlobalEdge {
    fn default() -> (r: Self)
        ensures
            r == PartialGlobalEdge::empty(),
    {
        PartialGlobalEdge { curve: None, vertices: None }
    }
}

impl PartialHalfEdge {
    /// The partial half-edge of which nothing is known.
    pub open spec fn empty() -> Self {
        PartialHalfEdge { surface: None, curve: None, vertices: None, global_form: None }
    }

    /// Updates the surface, where one is given.
    pub fn with_surface(self, surface: Option<Handle<Surface>>) -> (r: Self)
        ensures
            r == (PartialHalfEdge { surface: overlay(self.surface, surface), ..self }),
    {
        match surface {
            Some(_) => PartialHalfEdge {
                surface,
                curve: self.curve,
                vertices: self.vertices,
                global_form: self.global_form,
            },
            None => self,
        }
    }

    /// Updates the curve, where one is given.
    pub fn with_curve(self, curve: Option<MaybePartialCurve>) -> (r: Self)
        ensures
            r == (PartialHalfEdge { curve: overlay(self.curve, curve), ..self }),
    {
        match curve {
            Some(_) => PartialHalfEdge {
                surface: self.surface,
                curve,
                vertices: self.vertices,
                global_form: self.global_form,
            },
            None => self,
        }
    }

    /// Updates the vertices, where they are given.
    pub fn with_vertices(self, vertices: Option<[MaybePartialVertex; 2]>) -> (r: Self)
        ensures
            r == (PartialHalfEdge { vertices: overlay(self.vertices, vertices), ..self }),
    {
        match vertices {
            Some(_) => PartialHalfEdge {
                surface: self.surface,
                curve: self.curve,
                vertices,
                global_form: self.global_form,
            },
            None => self,
        }
    }

    /// Updates the global form, where one is given.
    pub fn with_global_form(self, global_form: Option<MaybePartialGlobalEdge>) -> (r: Self)
        ensures
            r == (PartialHalfEdge { global_form: overlay(self.global_form, global_form), ..self }),
    {
        match global_form {
            Some(_) => PartialHalfEdge {
                surface: self.surface,
                curve: self.curve,
                vertices: self.vertices,
                global_form,
            },
            None => self,
        }
    }

    /// The curve, or an empty partial curve where none is known.
    pub fn curve(&self) -> (r: MaybePartialCurve)
        ensures
            r == self.curve_spec(),
    {
        match self.curve {
            Some(curve) => curve,
            None => MaybePartial::Partial(PartialCurve::default()),
        }
    }

    /// The curve, or an empty partial curve where none is known.
    pub open spec fn curve_spec(self) -> MaybePartialCurve {
        match self.curve {
            Some(curve) => curve,
            None => MaybePartial::Partial(PartialCurve::empty()),
        }
    }

    /// The vertices, or empty partial vertices where none are known.
    pub fn vertices(&self) -> (r: [MaybePartialVertex; 2])
        ensures
            r == self.vertices_spec(),
    {
        match self.vertices {
            Some(vertices) => vertices,
            None => [
                MaybePartial::Partial(PartialVertex::default()),
                MaybePartial::Partial(PartialVertex::default()),
            ],
        }
    }

    /// The vertices, or empty partial vertices where none are known.
    pub open spec fn vertices_spec(self) -> [MaybePartialVertex; 2] {
        match self.vertices {
            Some(vertices) => vertices,
            None => [
                MaybePartial::Partial(PartialVertex::empty()),
                MaybePartial::Partial(PartialVertex::empty()),
            ],
        }
    }

    /// The global form, or an empty partial global edge where none is known.
    pub fn global_form(&self) -> (r: MaybePartialGlobalEdge)
        ensures
            r == self.global_form_spec(),
    {
        match self.global_form {
            Some(global_form) => global_form,
            None => MaybePartial::Partial(PartialGlobalEdge::default()),
        }
    }

    /// The global form, or an empty partial global edge where none is known.
    pub open spec fn global_form_spec(self) -> MaybePartialGlobalEdge {
        match self.global_form {
            Some(global_form) => global_form,
            None => MaybePartial::Partial(PartialGlobalEdge::empty()),
        }
    }

    /// A vertex of the circular half-edge: at `position` on `curve`, at the
    /// global vertex `global_vertex`.
    pub open spec fn circle_vertex(
        position: Scalar,
        curve: PartialCurve,
        global_vertex: PartialGlobalVertex,
    ) -> MaybePartialVertex {
        MaybePartial::Partial(
            PartialVertex {
                position: Some(point1_at(position)),
                curve: Some(MaybePartial::Partial(curve)),
                surface_form: None,
                global_form: Some(MaybePartial::Partial(global_vertex)),
            },
        )
    }

    /// What [`PartialHalfEdge::as_circle_from_radius`] returns, where `turn`
    /// is the curve coordinate of one full turn and `fj_math` places the
    /// points of `draw` on the circles that it meets: on the circle itself
    /// and, where the surface sweeps one, on that.
    pub open spec fn as_circle_from_radius_spec(
        self,
        radius: Scalar,
        turn: Scalar,
        draw: VertexDraw,
    ) -> Result<Self, ValidationError> {
        match (PartialCurve { surface: self.surface, ..PartialCurve::empty() }).as_circle_from_radius_spec(
            radius,
        ) {
            Err(e) => Err(e),
            Ok(curve) => match PartialGlobalVertex::empty().from_curve_and_position_spec(
                MaybePartial::Partial(curve),
                point1_at(scalar_of_u64(0)),
                draw,
            ) {
                Err(e) => Err(e),
                Ok(global_vertex) => Ok(
                    PartialHalfEdge {
                        curve: Some(MaybePartial::Partial(curve)),
                        vertices: Some(
                            [
                                Self::circle_vertex(scalar_of_u64(0), curve, global_vertex),
                                Self::circle_vertex(turn, curve, global_vertex),
                            ],
                        ),
                        ..self
                    },
                ),
            },
        }
    }

    /// Makes the half-edge a full circle around the origin of its surface
    /// with the given radius. Its curve is that circle. Its two vertices
    /// have the curve coordinates zero and one full turn, and share one
    /// global vertex: the circle comes back to where it started.
    ///
    /// The half-edge must have a surface, on which the global vertex is
    /// placed: at the point that `fj_math` places on the circle at the
    /// coordinate zero. The result is what
    /// [`PartialHalfEdge::as_circle_from_radius_spec`] makes of that point.
    /// It fails where the circle cannot be made, where the surface is
    /// missing, and where placing the global vertex fails.
    pub fn as_circle_from_radius(self, radius: Scalar) -> (r: Result<Self, ValidationError>)
        ensures
            exists|turn: Scalar, draw: VertexDraw|
                scalar_bits(turn) == TAU_BITS && r == #[trigger] self.as_circle_from_radius_spec(
                    radius,
                    turn,
                    draw,
                ),
            r matches Ok(edge) ==> {
                &&& edge.surface == self.surface
                &&& edge.global_form == self.global_form
                &&& edge.vertices matches Some(vertices)
                &&& vertices[0] matches MaybePartial::Partial(back)
                &&& vertices[1] matches MaybePartial::Partial(front)
                &&& back.position == Some(point1_at(scalar_of_u64(0)))
                &&& front.position matches Some(at)
                &&& scalar_bits(at.coords.components[0]) == TAU_BITS
                &&& back.global_form is Some
                &&& back.global_form == front.global_form
                &&& back.curve == edge.curve
                &&& front.curve == edge.curve
                &&& !same_rank(
                    back.position->Some_0.coords.components[0],
                    front.position->Some_0.coords.components[0],
                )
            },
            self.surface is None ==> r is Err,
            (PartialCurve { surface: self.surface, ..PartialCurve::empty() }).as_circle_from_radius_spec(
                radius,
            ) matches Err(e) ==> r == Err::<Self, _>(e),
    {
        let turn = tau();
        let curve = match PartialCurve::default().with_surface(self.surface).as_circle_from_radius(
            radius,
        ) {
            Ok(curve) => curve,
            Err(e) => {
                assert(Err::<Self, _>(e) == self.as_circle_from_radius_spec(
                    radius,
                    turn,
                    VertexDraw { on_curve: arbitrary(), on_path: arbitrary() },
                ));
                return Err(e);
            },
        };
        let a_curve = point1(zero());
        let b_curve = point1(turn);
        let placed = PartialGlobalVertex::default().from_curve_and_position_drawn(
            MaybePartial::Partial(curve),
            a_curve,
        );
        let global_vertex = match placed.0 {
            Ok(global_vertex) => global_vertex,
            Err(e) => {
                assert(Err::<Self, _>(e) == self.as_circle_from_radius_spec(
                    radius,
                    turn,
                    placed.1@,
                ));
                return Err(e);
            },
        };
        let back = PartialVertex::default().with_position(Some(a_curve)).with_curve(
            Some(MaybePartial::Partial(curve)),
        ).with_global_form(Some(MaybePartial::Partial(global_vertex)));
        let front = PartialVertex::default().with_position(Some(b_curve)).with_curve(
            Some(MaybePartial::Partial(curve)),
        ).with_global_form(Some(MaybePartial::Partial(global_vertex)));
        let r = Ok(
            PartialHalfEdge {
                surface: self.surface,
                curve: Some(MaybePartial::Partial(curve)),
                vertices: Some([MaybePartial::Partial(back), MaybePartial::Partial(front)]),
                global_form: self.global_form,
            },
        );
        assert(r == self.as_circle_from_radius_spec(radius, turn, placed.1@));
        r
    }

    /// A vertex of a line segment that is given by its position on the
    /// surface alone.
    pub open spec fn vertex_at(
        surface: Option<Handle<Surface>>,
        point: Point<2>,
    ) -> MaybePartialVertex {
        MaybePartial::Partial(
            PartialVertex {
                surface_form: Some(
                    MaybePartial::Partial(
                        PartialSurfaceVertex { position: Some(point), surface, global_form: None },
                    ),
                ),
                ..PartialVertex::empty()
            },
        )
    }

    /// What [`PartialHalfEdge::as_line_segment_from_points`] returns.
    #[verifier::opaque]
    pub open spec fn as_line_segment_from_points_spec(self, points: [Point<2>; 2]) -> Result<
        Self,
        ValidationError,
    > {
        (PartialHalfEdge {
            vertices: Some(
                [
                    Self::vertex_at(self.surface, points[0]),
                    Self::vertex_at(self.surface, points[1]),
                ],
            ),
            ..self
        }).as_line_segment_spec()
    }

    /// Makes the half-edge the line segment from the first point to the
    /// second, both in surface coordinates: it replaces the vertices by two
    /// that are known by these positions alone, and goes on as
    /// [`PartialHalfEdge::as_line_segment`] does.
    pub fn as_line_segment_from_points(self, points: [Point<2>; 2]) -> (r: Result<
        Self,
        ValidationError,
    >)
        ensures
            r == self.as_line_segment_from_points_spec(points),
    {
        reveal(PartialHalfEdge::as_line_segment_from_points_spec);
        let surface = self.surface;
        let from = PartialVertex::default().with_surface_form(
            Some(
                MaybePartial::Partial(
                    PartialSurfaceVertex::default().with_surface(surface).with_position(
                        Some(points[0]),
                    ),
                ),
            ),
        );
        let to = PartialVertex::default().with_surface_form(
            Some(
                MaybePartial::Partial(
                    PartialSurfaceVertex::default().with_surface(surface).with_position(
                        Some(points[1]),
                    ),
                ),
            ),
        );
        self.with_vertices(
            Some([MaybePartial::Partial(from), MaybePartial::Partial(to)]),
        ).as_line_segment()
    }

    /// The global curve of the half-edge, as far as it is known: that of its
    /// curve, or else that of its global form. Whichever of them has an
    /// identity already keeps it.
    pub open spec fn known_global_curve(self) -> Option<Handle<GlobalCurve>> {
        first_known(
            match self.curve {
                Some(curve) => curve.global_form_spec(),
                None => None,
            },
            match self.global_form {
                Some(global_form) => global_form.curve_spec(),
                None => None,
            },
        )
    }

    /// The global curve of the half-edge, as far as it is known.
    fn extract_global_curve(&self) -> (r: Option<Handle<GlobalCurve>>)
        ensures
            r == self.known_global_curve(),
    {
        let from_curve = match &self.curve {
            Some(curve) => curve.global_form(),
            None => None,
        };
        match from_curve {
            Some(_) => from_curve,
            None => match &self.global_form {
                Some(global_form) => global_form.curve(),
                None => None,
            },
        }
    }

    /// What [`PartialHalfEdge::as_line_segment`] returns.
    ///
    /// Both vertices must be there and have a surface form with a position.
    /// The surface is the half-edge's own, or else that of the first or of
    /// the second vertex. The curve becomes the line through the two
    /// positions on that surface, with the global curve that was known
    /// before. Partial vertices get the curve coordinates zero and one on
    /// that line; finished vertices stay as they are.
    pub open spec fn as_line_segment_spec(self) -> Result<Self, ValidationError> {
        if self.vertices is None {
            Err(ValidationError::IncompleteObject)
        } else {
            let from = self.vertices->Some_0[0];
            let to = self.vertices->Some_0[1];
            if from.surface_form_spec() is None || to.surface_form_spec() is None {
                Err(ValidationError::IncompleteObject)
            } else {
                let from_surface = from.surface_form_spec()->Some_0;
                let to_surface = to.surface_form_spec()->Some_0;
                let surface = first_known(
                    self.surface,
                    first_known(from_surface.surface_spec(), to_surface.surface_spec()),
                );
                if surface is None || from_surface.position_spec() is None
                    || to_surface.position_spec() is None {
                    Err(ValidationError::IncompleteObject)
                } else {
                    match (PartialCurve {
                        path: None,
                        surface,
                        global_form: self.known_global_curve(),
                    }).as_line_from_points_spec(
                        [from_surface.position_spec()->Some_0, to_surface.position_spec()->Some_0],
                    ) {
                        Err(e) => Err(e),
                        Ok(curve) => Ok(
                            PartialHalfEdge {
                                curve: Some(MaybePartial::Partial(curve)),
                                vertices: Some(
                                    [
                                        from.on_curve_spec(
                                            Some(point1_at(scalar_of_u64(0))),
                                            Some(MaybePartial::Partial(curve)),
                                        ),
                                        to.on_curve_spec(
                                            Some(point1_at(scalar_of_u64(1))),
                                            Some(MaybePartial::Partial(curve)),
                                        ),
                                    ],
                                ),
                                ..self
                            },
                        ),
                    }
                }
            }
        }
    }

    /// Makes the half-edge the line segment between its vertices.
    ///
    /// It fails with [`ValidationError::IncompleteObject`] where a vertex, a
    /// surface form, a surface position or the surface is missing, and with
    /// [`ValidationError::Degenerate`] where the two positions coincide.
    #[verifier::rlimit(50)]
    pub fn as_line_segment(self) -> (r: Result<Self, ValidationError>)
        ensures
            r == self.as_line_segment_spec(),
            r matches Ok(edge) ==> {
                &&& edge.surface == self.surface
                &&& edge.global_form == self.global_form
                &&& edge.curve matches Some(MaybePartial::Partial(curve))
                &&& curve.global_form == self.known_global_curve()
                &&& curve.surface is Some
                &&& curve.path matches Some(crate::path::SurfacePath::Line(_))
                &&& edge.vertices matches Some(vertices)
                &&& vertices[0] matches MaybePartial::Partial(from) ==> from.position matches Some(
                    at,
                ) && is_zero(at.coords.components[0]) && from.curve == edge.curve
                &&& vertices[1] matches MaybePartial::Partial(to) ==> to.position matches Some(at)
                    && scalar_rank(at.coords.components[0]) > 0 && to.curve == edge.curve
            },
            self.vertices is None ==> r == Err::<Self, _>(ValidationError::IncompleteObject),
    {
        let vertices = match self.vertices {
            Some(vertices) => vertices,
            None => { return Err(ValidationError::IncompleteObject); },
        };
        let from = vertices[0];
        let to = vertices[1];
        let from_surface = match from.surface_form() {
            Some(surface_form) => surface_form,
            None => { return Err(ValidationError::IncompleteObject); },
        };
        let to_surface = match to.surface_form() {
            Some(surface_form) => surface_form,
            None => { return Err(ValidationError::IncompleteObject); },
        };
        let surface = match self.surface {
            Some(surface) => surface,
            None => match from_surface.surface() {
                Some(surface) => surface,
                None => match to_surface.surface() {
                    Some(surface) => surface,
                    None => { return Err(ValidationError::IncompleteObject); },
                },
            },
        };
        let from_position = match from_surface.position() {
            Some(position) => position,
            None => { return Err(ValidationError::IncompleteObject); },
        };
        let to_position = match to_surface.position() {
            Some(position) => position,
            None => { return Err(ValidationError::IncompleteObject); },
        };
        let curve = match PartialCurve::default().with_global_form(
            self.extract_global_curve(),
        ).with_surface(Some(surface)).as_line_from_points([from_position, to_position]) {
            Ok(curve) => curve,
            Err(e) => { return Err(e); },
        };
        let from = from.on_curve(Some(point1(zero())), Some(MaybePartial::Partial(curve)));
        let to = to.on_curve(Some(point1(one())), Some(MaybePartial::Partial(curve)));
        Ok(
            PartialHalfEdge {
                surface: self.surface,
                curve: Some(MaybePartial::Partial(curve)),
                vertices: Some([from, to]),
                global_form: self.global_form,
            },
        )
    }

    /// What [`PartialHalfEdge::build`] returns, and the stores after it,
    /// where `fj_math` places the points of `draw` on the circles that the
    /// build of the two vertices meets.
    ///
    /// The curve is finished first, on the half-edge's surface where it has
    /// one. Each partial vertex is put on the finished curve and finished.
    /// The global form is the given one, finished, or else the global edge
    /// of the finished curve and vertices.
    #[verifier::opaque]
    pub open spec fn build_spec(self, objects: ObjectsView, draw: EdgeDraw) -> Result<
        (HalfEdge, ObjectsView),
        ValidationError,
    > {
        if self.curve is None || self.vertices is None {
            Err(ValidationError::IncompleteObject)
        } else {
            let vertices = self.vertices->Some_0;
            match self.curve->Some_0.with_surface_spec(self.surface).into_full_spec(objects) {
                Err(e) => Err(e),
                Ok((curve, with_curve)) => match vertices[0].on_curve_spec(
                    None,
                    Some(MaybePartial::Full(curve)),
                ).into_full_spec(with_curve, draw.back) {
                    Err(e) => Err(e),
                    Ok((back, with_back)) => match vertices[1].on_curve_spec(
                        None,
                        Some(MaybePartial::Full(curve)),
                    ).into_full_spec(with_back, draw.front) {
                        Err(e) => Err(e),
                        Ok((front, stores)) => {
                            let global_form = match self.global_form {
                                Some(global_form) => global_form.into_full_spec(),
                                None => PartialGlobalEdge::empty().from_curve_and_vertices_spec(
                                    curve.object,
                                    [back, front],
                                ).build_spec(),
                            };
                            match global_form {
                                Err(e) => Err(e),
                                Ok(global_form) => match HalfEdge::new_spec(
                                    [back, front],
                                    global_form,
                                ) {
                                    Err(e) => Err(e),
                                    Ok(half_edge) => Ok((half_edge, stores)),
                                },
                            }
                        },
                    },
                },
            }
        }
    }

    /// Finishes the half-edge.
    ///
    /// This needs the curve and the vertices; without either it fails with
    /// [`ValidationError::IncompleteObject`] and inserts nothing. Where no
    /// global form is given, two half-edges that are built on the same
    /// finished curve and global vertices get equal global edges. A
    /// half-edge that is built from objects of the stores lies in the
    /// stores.
    ///
    /// Where the position of a vertex is to be derived on a circle,
    /// `fj_math` places the point; the result is what
    /// [`PartialHalfEdge::build_spec`] makes of the points that were drawn.
    pub fn build(self, objects: &mut Objects) -> (r: Result<HalfEdge, ValidationError>)
        ensures
            exists|draw: EdgeDraw|
                outcome(
                    #[trigger] self.build_spec(old(objects)@, draw),
                    r,
                    old(objects)@,
                    final(objects)@,
                ),
            MaybePartialHalfEdge::Partial(self).is_off_circles() || MaybePartialHalfEdge::Partial(
                self,
            ).is_placed() ==> forall|draw: EdgeDraw|
                outcome(
                    #[trigger] self.build_spec(old(objects)@, draw),
                    r,
                    old(objects)@,
                    final(objects)@,
                ),
            final(objects)@.surfaces == old(objects)@.surfaces,
            r matches Ok(half_edge) ==> {
                &&& half_edge.wf()
                &&& self.curve matches Some(MaybePartial::Full(curve)) ==> (forall|i: int|
                    0 <= i < 2 && (#[trigger] self.vertices->Some_0[i]) is Partial
                        ==> half_edge.vertices[i].curve == curve)
                &&& self.global_form matches Some(MaybePartial::Full(global_form))
                    ==> half_edge.global_form == global_form
                &&& self.global_form is None ==> half_edge.global_form == GlobalEdge::new_spec(
                    half_edge.vertices[0].curve.object.global_form,
                    [
                        half_edge.vertices[0].surface_form.global_form,
                        half_edge.vertices[1].surface_form.global_form,
                    ],
                )
            },
            self.curve is None || self.vertices is None ==> r == Err::<HalfEdge, _>(
                ValidationError::IncompleteObject,
            ) && final(objects)@ == old(objects)@,
            old(objects)@.holds_partial_half_edge(self) ==> (r matches Ok(half_edge)
                ==> final(objects)@.holds_half_edge(half_edge)),
    {
        let built = self.build_drawn(objects);
        assert(outcome(self.build_spec(old(objects)@, built.1@), built.0, old(objects)@, objects@));
        proof {
            let edge = MaybePartialHalfEdge::Partial(self);
            if edge.is_off_circles() {
                assert forall|draw: EdgeDraw|
                    outcome(
                        #[trigger] self.build_spec(old(objects)@, draw),
                        built.0,
                        old(objects)@,
                        objects@,
                    ) by {
                    half_edge_off_circles_is_built_without_draw(
                        edge,
                        old(objects)@,
                        draw,
                        built.1@,
                    );
                }
            } else if edge.is_placed() {
                assert forall|draw: EdgeDraw|
                    outcome(
                        #[trigger] self.build_spec(old(objects)@, draw),
                        built.0,
                        old(objects)@,
                        objects@,
                    ) by {
                    placed_half_edge_is_built_without_draw(edge, old(objects)@, draw, built.1@);
                }
            }
        }
        built.0
    }

    /// Finishes the half-edge as [`PartialHalfEdge::build`] does, and tells
    /// which points were drawn.
    #[verifier::rlimit(50)]
    pub(crate) fn build_drawn(self, objects: &mut Objects) -> (r: (
        Result<HalfEdge, ValidationError>,
        Ghost<EdgeDraw>,
    ))
        ensures
            outcome(self.build_spec(old(objects)@, r.1@), r.0, old(objects)@, final(objects)@),
            final(objects)@.surfaces == old(objects)@.surfaces,
            r.0 matches Ok(half_edge) ==> {
                &&& half_edge.wf()
                &&& self.curve matches Some(MaybePartial::Full(curve)) ==> (forall|i: int|
                    0 <= i < 2 && (#[trigger] self.vertices->Some_0[i]) is Partial
                        ==> half_edge.vertices[i].curve == curve)
                &&& self.global_form matches Some(MaybePartial::Full(global_form))
                    ==> half_edge.global_form == global_form
                &&& self.global_form is None ==> half_edge.global_form == GlobalEdge::new_spec(
                    half_edge.vertices[0].curve.object.global_form,
                    [
                        half_edge.vertices[0].surface_form.global_form,
                        half_edge.vertices[1].surface_form.global_form,
                    ],
                )
            },
            self.curve is None || self.vertices is None ==> r.0 == Err::<HalfEdge, _>(
                ValidationError::IncompleteObject,
            ) && final(objects)@ == old(objects)@,
            old(objects)@.holds_partial_half_edge(self) ==> (r.0 matches Ok(half_edge)
                ==> final(objects)@.holds_half_edge(half_edge)),
    {
        reveal(PartialHalfEdge::build_spec);
        let ghost nothing = VertexDraw { on_curve: arbitrary(), on_path: arbitrary() };
        let curve = match self.curve {
            Some(curve) => curve,
            None => {
                return (
                    Err(ValidationError::IncompleteObject),
                    Ghost(EdgeDraw { back: nothing, front: nothing }),
                );
            },
        };
        let vertices = match self.vertices {
            Some(vertices) => vertices,
            None => {
                return (
                    Err(ValidationError::IncompleteObject),
                    Ghost(EdgeDraw { back: nothing, front: nothing }),
                );
            },
        };
        let curve = match curve.with_surface(self.surface).into_full(objects) {
            Ok(curve) => curve,
            Err(e) => { return (Err(e), Ghost(EdgeDraw { back: nothing, front: nothing })); },
        };
        let ghost with_curve = objects@;
        let built_back = vertices[0].on_curve(None, Some(MaybePartial::Full(curve))).into_full_drawn(
            objects,
        );
        let back = match built_back.0 {
            Ok(vertex) => vertex,
            Err(e) => {
                proof {
                    extends_is_transitive(old(objects)@, with_curve, objects@);
                }
                return (Err(e), Ghost(EdgeDraw { back: built_back.1@, front: nothing }));
            },
        };
        let ghost with_back = objects@;
        proof {
            extends_is_transitive(old(objects)@, with_curve, with_back);
        }
        let built_front = vertices[1].on_curve(
            None,
            Some(MaybePartial::Full(curve)),
        ).into_full_drawn(objects);
        let ghost draw = EdgeDraw { back: built_back.1@, front: built_front.1@ };
        let front = match built_front.0 {
            Ok(vertex) => vertex,
            Err(e) => {
                proof {
                    extends_is_transitive(old(objects)@, with_back, objects@);
                }
                return (Err(e), Ghost(draw));
            },
        };
        proof {
            extends_is_transitive(old(objects)@, with_back, objects@);
        }
        let global_form = match self.global_form {
            Some(global_form) => global_form.into_full(objects),
            None => PartialGlobalEdge::default().from_curve_and_vertices(
                &curve.object,
                &[back, front],
            ).build(objects),
        };
        match global_form {
            Err(e) => (Err(e), Ghost(draw)),
            Ok(global_form) => {
                let r = HalfEdge::new([back, front], global_form);
                proof {
                    if r is Ok && old(objects)@.holds_partial_half_edge(self) {
                        crate::objects::stores_fit(*objects);
                        crate::partial::held::built_half_edge_is_held(self, old(objects)@, draw);
                    }
                    if let Ok(half_edge) = r {
                        assert(half_edge.vertices[0] == back);
                        assert(half_edge.vertices[1] == front);
                        crate::objects::curve::global_curves_differ_by_identity_alone(
                            half_edge.vertices[0].curve.object.global_form,
                            global_form.curve,
                        );
                    }
                }
                (r, Ghost(draw))
            },
        }
    }

    /// The partial half-edge that has every field of `half_edge`.
    pub open spec fn from_spec(half_edge: HalfEdge) -> Self {
        PartialHalfEdge {
            surface: Some(half_edge.vertices[0].curve.object.surface),
            curve: Some(MaybePartial::Full(half_edge.vertices[0].curve)),
            vertices: Some(
                [
                    MaybePartial::Full(half_edge.vertices[0]),
                    MaybePartial::Full(half_edge.vertices[1]),
                ],
            ),
            global_form: Some(MaybePartial::Full(half_edge.global_form)),
        }
    }

    /// The partial half-edge that has every field of `half_edge`.
    pub fn from(half_edge: &HalfEdge) -> (r: Self)
        ensures
            r == Self::from_spec(*half_edge),
    {
        PartialHalfEdge {
            surface: Some(half_edge.curve().object.surface),
            curve: Some(MaybePartial::Full(half_edge.curve())),
            vertices: Some(
                [
                    MaybePartial::Full(half_edge.vertices[0]),
                    MaybePartial::Full(half_edge.vertices[1]),
                ],
            ),
            global_form: Some(MaybePartial::Full(half_edge.global_form)),
        }
    }
}

impl PartialGlobalEdge {
    /// The partial global edge of which nothing is known.
    pub open spec fn empty() -> Self {
        PartialGlobalEdge { curve: None, vertices: None }
    }

    /// Updates the curve, where one is given.
    pub fn with_curve(self, curve: Option<Handle<GlobalCurve>>) -> (r: Self)
        ensures
            r == (PartialGlobalEdge { curve: overlay(self.curve, curve), ..self }),
    {
        match curve {
            Some(_) => PartialGlobalEdge { curve, vertices: self.vertices },
            None => self,
        }
    }

    /// Updates the vertices, where they are given.
    pub fn with_vertices(self, vertices: Option<[Handle<GlobalVertex>; 2]>) -> (r: Self)
        ensures
            r == (PartialGlobalEdge { vertices: overlay(self.vertices, vertices), ..self }),
    {
        match vertices {
            Some(_) => PartialGlobalEdge { curve: self.curve, vertices },
            None => self,
        }
    }

    /// What [`PartialGlobalEdge::from_curve_and_vertices`] returns.
    pub open spec fn from_curve_and_vertices_spec(self, curve: Curve, vertices: [Vertex; 2]) -> Self {
        PartialGlobalEdge {
            curve: Some(curve.global_form),
            vertices: Some(
                [vertices[0].surface_form.global_form, vertices[1].surface_form.global_form],
            ),
        }
    }

    /// Makes the edge the global form of a half-edge on `curve` between
    /// `vertices`: on the global form of the curve, between the global forms
    /// of the vertices.
    pub fn from_curve_and_vertices(self, curve: &Curve, vertices: &[Vertex; 2]) -> (r: Self)
        ensures
            r == self.from_curve_and_vertices_spec(*curve, *vertices),
    {
        self.with_curve(Some(curve.global_form)).with_vertices(
            Some([vertices[0].global_form(), vertices[1].global_form()]),
        )
    }

    /// What [`PartialGlobalEdge::build`] returns.
    pub open spec fn build_spec(self) -> Result<GlobalEdge, ValidationError> {
        if self.curve is None || self.vertices is None {
            Err(ValidationError::IncompleteObject)
        } else {
            Ok(GlobalEdge::new_spec(self.curve->Some_0, self.vertices->Some_0))
        }
    }

    /// Finishes the edge. This needs the curve and the vertices, and derives
    /// nothing. The stores are only read.
    pub fn build(self, objects: &Objects) -> (r: Result<GlobalEdge, ValidationError>)
        ensures
            r == self.build_spec(),
            r matches Ok(edge) ==> edge.wf(),
    {
        let curve = match self.curve {
            Some(curve) => curve,
            None => { return Err(ValidationError::IncompleteObject); },
        };
        let vertices = match self.vertices {
            Some(vertices) => vertices,
            None => { return Err(ValidationError::IncompleteObject); },
        };
        Ok(GlobalEdge::new(curve, vertices))
    }

    /// The partial global edge that has every field of `global_edge`.
    pub open spec fn from_spec(global_edge: GlobalEdge) -> Self {
        PartialGlobalEdge {
            curve: Some(global_edge.curve),
            vertices: Some(global_edge.vertices.0),
        }
    }

    /// The partial global edge that has every field of `global_edge`.
    pub fn from(global_edge: &GlobalEdge) -> (r: Self)
        ensures
            r == Self::from_spec(*global_edge),
    {
        PartialGlobalEdge {
            curve: Some(global_edge.curve),
            vertices: Some(global_edge.vertices.access_in_normalized_order()),
        }
    }
}

impl MaybePartial<GlobalEdge, PartialGlobalEdge> {
    /// The global curve of the edge, as far as it is known.
    pub open spec fn curve_spec(self) -> Option<Handle<GlobalCurve>> {
        match self {
            MaybePartial::Full(full) => Some(full.curve),
            MaybePartial::Partial(partial) => partial.curve,
        }
    }

    /// The global curve of the edge, as far as it is known.
    pub fn curve(&self) -> (r: Option<Handle<GlobalCurve>>)
        ensures
            r == self.curve_spec(),
    {
        match self {
            MaybePartial::Full(full) => Some(full.curve),
            MaybePartial::Partial(partial) => partial.curve,
        }
    }

    /// The global vertices of the edge, as far as they are known.
    pub open spec fn vertices_spec(self) -> Option<[Handle<GlobalVertex>; 2]> {
        match self {
            MaybePartial::Full(full) => Some(full.vertices.0),
            MaybePartial::Partial(partial) => partial.vertices,
        }
    }

    /// The global vertices of the edge, as far as they are known.
    pub fn vertices(&self) -> (r: Option<[Handle<GlobalVertex>; 2]>)
        ensures
            r == self.vertices_spec(),
    {
        match self {
            MaybePartial::Full(full) => Some(full.vertices.access_in_normalized_order()),
            MaybePartial::Partial(partial) => partial.vertices,
        }
    }

    /// The edge as a partial edge.
    pub open spec fn into_partial_spec(self) -> PartialGlobalEdge {
        match self {
            MaybePartial::Full(full) => PartialGlobalEdge::from_spec(full),
            MaybePartial::Partial(partial) => partial,
        }
    }

    /// The edge as a partial edge.
    pub fn into_partial(self) -> (r: PartialGlobalEdge)
        ensures
            r == self.into_partial_spec(),
    {
        match self {
            MaybePartial::Full(full) => PartialGlobalEdge::from(&full),
            MaybePartial::Partial(partial) => partial,
        }
    }

    /// What [`MaybePartial::into_full`] returns.
    pub open spec fn into_full_spec(self) -> Result<GlobalEdge, ValidationError> {
        match self {
            MaybePartial::Full(full) => Ok(full),
            MaybePartial::Partial(partial) => partial.build_spec(),
        }
    }

    /// The finished edge: a finished edge as it is, a partial one built.
    pub fn into_full(self, objects: &Objects) -> (r: Result<GlobalEdge, ValidationError>)
        ensures
            r == self.into_full_spec(),
    {
        match self {
            MaybePartial::Full(full) => Ok(full),
            MaybePartial::Partial(partial) => partial.build(objects),
        }
    }
}

impl MaybePartial<HalfEdge, PartialHalfEdge> {
    /// The half-edge as a partial half-edge.
    pub open spec fn into_partial_spec(self) -> PartialHalfEdge {
        match self {
            MaybePartial::Full(full) => PartialHalfEdge::from_spec(full),
            MaybePartial::Partial(partial) => partial,
        }
    }

    /// The half-edge as a partial half-edge.
    pub fn into_partial(self) -> (r: PartialHalfEdge)
        ensures
            r == self.into_partial_spec(),
    {
        match self {
            MaybePartial::Full(full) => PartialHalfEdge::from(&full),
            MaybePartial::Partial(partial) => partial,
        }
    }

    /// What [`MaybePartial::into_full`] returns, and the stores after it,
    /// where `fj_math` places the points of `draw` on the circles that a
    /// build meets.
    pub open spec fn into_full_spec(self, objects: ObjectsView, draw: EdgeDraw) -> Result<
        (HalfEdge, ObjectsView),
        ValidationError,
    > {
        match self {
            MaybePartial::Full(full) => Ok((full, objects)),
            MaybePartial::Partial(partial) => partial.build_spec(objects, draw),
        }
    }

    /// The finished half-edge: a finished one as it is, a partial one built.
    pub fn into_full(self, objects: &mut Objects) -> (r: Result<HalfEdge, ValidationError>)
        ensures
            exists|draw: EdgeDraw|
                outcome(
                    #[trigger] self.into_full_spec(old(objects)@, draw),
                    r,
                    old(objects)@,
                    final(objects)@,
                ),
            final(objects)@.surfaces == old(objects)@.surfaces,
    {
        let built = self.into_full_drawn(objects);
        assert(outcome(
            self.into_full_spec(old(objects)@, built.1@),
            built.0,
            old(objects)@,
            objects@,
        ));
        built.0
    }

    /// The finished half-edge as [`MaybePartial::into_full`] gives it, and
    /// the points that were drawn.
    pub(crate) fn into_full_drawn(self, objects: &mut Objects) -> (r: (
        Result<HalfEdge, ValidationError>,
        Ghost<EdgeDraw>,
    ))
        ensures
            outcome(self.into_full_spec(old(objects)@, r.1@), r.0, old(objects)@, final(objects)@),
            final(objects)@.surfaces == old(objects)@.surfaces,
    {
        match self {
            MaybePartial::Full(full) => {
                let ghost nothing = VertexDraw { on_curve: arbitrary(), on_path: arbitrary() };
                (Ok(full), Ghost(EdgeDraw { back: nothing, front: nothing }))
            },
            MaybePartial::Partial(partial) => partial.build_drawn(objects),
        }
    }

    /// Whether finishing the half-edge leaves nothing for `fj_math` to
    /// place: it is finished, or both its vertices are placed.
    pub open spec fn is_placed(self) -> bool {
        match self {
            MaybePartial::Full(_) => true,
            MaybePartial::Partial(partial) => partial.vertices matches Some(vertices)
                && vertices[0].is_placed() && vertices[1].is_placed(),
        }
    }

    /// Whether the half-edge is finished, or runs on a curve that is off
    /// circles once it is put on the surface of the half-edge.
    pub open spec fn is_off_circles(self) -> bool {
        match self {
            MaybePartial::Full(_) => true,
            MaybePartial::Partial(partial) => partial.curve matches Some(curve)
                ==> curve.with_surface_spec(partial.surface).is_off_circles(),
        }
    }

    /// The half-edge on the given surface, where it is partial and a surface
    /// is given.
    pub open spec fn with_surface_spec(self, surface: Option<Handle<Surface>>) -> Self {
        match self {
            MaybePartial::Full(full) => self,
            MaybePartial::Partial(partial) => MaybePartial::Partial(
                PartialHalfEdge { surface: overlay(partial.surface, surface), ..partial },
            ),
        }
    }

    /// Updates the surface of a partial half-edge; a finished one stays as
    /// it is.
    pub fn with_surface(self, surface: Option<Handle<Surface>>) -> (r: Self)
        ensures
            r == self.with_surface_spec(surface),
    {
        match self {
            MaybePartial::Full(_) => self,
            MaybePartial::Partial(partial) => MaybePartial::Partial(partial.with_surface(surface)),
        }
    }
}

/// A half-edge on a line on a plane is finished in one way only: `fj_math`
/// places no point on a circle, and no drawn point is read.
pub proof fn half_edge_off_circles_is_built_without_draw(
    edge: MaybePartialHalfEdge,
    objects: ObjectsView,
    a: EdgeDraw,
    b: EdgeDraw,
)
    requires
        edge.is_off_circles(),
    ensures
        edge.into_full_spec(objects, a) == edge.into_full_spec(objects, b),
{
    reveal(PartialHalfEdge::build_spec);
    if let MaybePartial::Partial(partial) = edge {
        if partial.curve is Some && partial.vertices is Some {
            let vertices = partial.vertices->Some_0;
            let curve = partial.curve->Some_0.with_surface_spec(partial.surface).into_full_spec(
                objects,
            );
            if let Ok((on, with_curve)) = curve {
                let back = vertices[0].on_curve_spec(None, Some(MaybePartial::Full(on)));
                vertex_off_circles_is_built_without_draw(back, with_curve, a.back, b.back);
                if let Ok((_, with_back)) = back.into_full_spec(with_curve, a.back) {
                    let front = vertices[1].on_curve_spec(None, Some(MaybePartial::Full(on)));
                    vertex_off_circles_is_built_without_draw(front, with_back, a.front, b.front);
                }
            }
        }
    }
}

/// A half-edge that leaves nothing for `fj_math` to place is finished in one
/// way only: no drawn point is read.
pub proof fn placed_half_edge_is_built_without_draw(
    edge: MaybePartialHalfEdge,
    objects: ObjectsView,
    a: EdgeDraw,
    b: EdgeDraw,
)
    requires
        edge.is_placed(),
    ensures
        edge.into_full_spec(objects, a) == edge.into_full_spec(objects, b),
{
    reveal(PartialHalfEdge::build_spec);
    if let MaybePartial::Partial(partial) = edge {
        if partial.curve is Some && partial.vertices is Some {
            let vertices = partial.vertices->Some_0;
            let curve = partial.curve->Some_0.with_surface_spec(partial.surface).into_full_spec(
                objects,
            );
            if let Ok((on, with_curve)) = curve {
                let back = vertices[0].on_curve_spec(None, Some(MaybePartial::Full(on)));
                placed_vertex_is_built_without_draw(back, with_curve, a.back, b.back);
                if let Ok((_, with_back)) = back.into_full_spec(with_curve, a.back) {
                    let front = vertices[1].on_curve_spec(None, Some(MaybePartial::Full(on)));
                    placed_vertex_is_built_without_draw(front, with_back, a.front, b.front);
                }
            }
        }
    }
}

/// A half-edge that is taken apart into a partial half-edge and built again
/// is the half-edge that it was, and nothing is inserted on the way. No
/// point is drawn on the way either: the result is the same whatever `draw`
/// holds.
pub proof fn half_edge_survives_round_trip(
    half_edge: HalfEdge,
    objects: ObjectsView,
    draw: EdgeDraw,
)
    requires
        half_edge.wf(),
    ensures
        PartialHalfEdge::from_spec(half_edge).build_spec(objects, draw) == Ok::<
            _,
            ValidationError,
        >((half_edge, objects)),
{
    reveal(PartialHalfEdge::build_spec);
    let vertices = [half_edge.vertices[0], half_edge.vertices[1]];
    assert(vertices =~= half_edge.vertices);
}

/// The partial half-edge on the finished curve `curve` from the finished
/// vertex `from` to the finished vertex `to`, without a global form.
pub open spec fn between(curve: Handle<Curve>, from: Vertex, to: Vertex) -> PartialHalfEdge {
    PartialHalfEdge {
        curve: Some(MaybePartial::Full(curve)),
        vertices: Some([MaybePartial::Full(from), MaybePartial::Full(to)]),
        ..PartialHalfEdge::empty()
    }
}

/// Two half-edges that run on one curve between the same two vertices of
/// that curve in opposite directions, and are built without a global form,
/// get the same global edge; and where one of them can be built, so can the
/// other.
pub proof fn opposite_half_edges_share_their_global_edge(
    curve: Handle<Curve>,
    a: Vertex,
    b: Vertex,
    objects: ObjectsView,
    draw: EdgeDraw,
)
    requires
        a.curve == curve,
        b.curve == curve,
        crate::storage::holds(objects.global_vertices, a.surface_form.global_form),
        crate::storage::holds(objects.global_vertices, b.surface_form.global_form),
    ensures
        between(curve, a, b).build_spec(objects, draw) is Ok <==> between(
            curve,
            b,
            a,
        ).build_spec(objects, draw) is Ok,
        between(curve, a, b).build_spec(objects, draw) is Ok ==> between(curve, a, b).build_spec(
            objects,
            draw,
        )->Ok_0.0.global_form == between(curve, b, a).build_spec(
            objects,
            draw,
        )->Ok_0.0.global_form,
{
    reveal(PartialHalfEdge::build_spec);
    crate::objects::edge::global_edge_ignores_orientation(
        objects.global_vertices,
        curve.object.global_form,
        a.surface_form.global_form,
        b.surface_form.global_form,
    );
}

/// A global edge that is taken apart into a partial global edge and built
/// again is the global edge that it was.
pub proof fn global_edge_survives_round_trip(global_edge: GlobalEdge)
    requires
        global_edge.wf(),
    ensures
        PartialGlobalEdge::from_spec(global_edge).build_spec() == Ok::<_, ValidationError>(
            global_edge,
        ),
{
    let vertices = global_edge.vertices.0;
    assert(crate::objects::edge::normalized(vertices) =~= vertices);
}

} // verus!
