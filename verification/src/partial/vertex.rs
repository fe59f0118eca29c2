//! Partial vertices.

use fj_math::Point;
use vstd::prelude::*;

use crate::objects::curve::Curve;
use crate::objects::surface::Surface;
use crate::objects::vertex::{GlobalVertex, SurfaceVertex, Vertex};
use crate::objects::{extends_is_transitive, Objects, ObjectsView};
use crate::partial::curve::MaybePartialCurve;
use crate::math::vector::held_by;
use crate::partial::{outcome, overlay, MaybePartial, VertexDraw};
use crate::storage::Handle;
use crate::validate::ValidationError;

verus! {

/// A global vertex under construction.
#[derive(Clone, Copy, Debug, PartialEq, Eq, Hash)]
pub struct PartialGlobalVertex {
    /// The position of the vertex in space.
    pub position: Option<Point<3>>,
}

/// A surface vertex under construction.
#[derive(Clone, Copy, Debug, PartialEq, Eq, Hash)]
pub struct PartialSurfaceVertex {
    /// The position of the vertex, in the coordinates of its surface.
    pub position: Option<Point<2>>,
    /// The surface on which the vertex lies.
    pub surface: Option<Handle<Surface>>,
    /// The point in space that the vertex is. Where no finished one is given,
    /// [`PartialSurfaceVertex::build`] derives it from surface and position.
    pub global_form: Option<MaybePartialGlobalVertex>,
}

/// A vertex under construction.
#[derive(Clone, Copy, Debug, PartialEq, Eq, Hash)]
pub struct PartialVertex {
    /// The position of the vertex, in the coordinate of its curve.
    pub position: Option<Point<1>>,
    /// The curve on which the vertex lies.
    pub curve: Option<MaybePartialCurve>,
    /// The point on the surface that the vertex is. Where no finished one is
    /// given, [`PartialVertex::build`] derives it from curve and position.
    pub surface_form: Option<MaybePartialSurfaceVertex>,
    /// The point in space that the vertex is, to be handed on to a partial
    /// surface form.
    pub global_form: Option<MaybePartialGlobalVertex>,
}

/// A global vertex, finished or under construction.
pub type MaybePartialGlobalVertex = MaybePartial<Handle<GlobalVertex>, PartialGlobalVertex>;

/// A surface vertex, finished or under construction.
pub type MaybePartialSurfaceVertex = MaybePartial<SurfaceVertex, PartialSurfaceVertex>;

/// A vertex, finished or under construction.
pub type MaybePartialVertex = MaybePartial<Vertex, PartialVertex>;

impl Default for PartialGlobalVertex {
    fn default() -> (r: Self)
        ensures
            r == PartialGlobalVertex::empty(),
    {
        PartialGlobalVertex { position: None }
    }
}

impl Default for PartialSurfaceVertex {
    fn default() -> (r: Self)
        ensures
            r == PartialSurfaceVertex::empty(),
    {
        PartialSurfaceVertex { position: None, surface: None, global_form: None }
    }
}

impl Default for PartialVertex {
    fn default() -> (r: Self)
        ensures
            r == PartialVertex::empty(),
    {
        PartialVertex { position: None, curve: None, surface_form: None, global_form: None }
    }
}

impl PartialGlobalVertex {
    /// The partial global vertex of which nothing is known.
    pub open spec fn empty() -> Self {
        PartialGlobalVertex { position: None }
    }

    /// Updates the position, where one is given.
    pub fn with_position(self, position: Option<Point<3>>) -> (r: Self)
        ensures
            r == (PartialGlobalVertex { position: overlay(self.position, position) }),
    {
        match position {
            Some(_) => PartialGlobalVertex { position },
            None => self,
        }
    }

    /// What [`PartialGlobalVertex::from_surface_and_position`] returns.
    /// Where the surface sweeps a circle, `on_path` is the point that
    /// `fj_math` places on that circle.
    pub open spec fn from_surface_and_position_spec(
        self,
        surface: Surface,
        position: Point<2>,
        on_path: Point<3>,
    ) -> Result<Self, ValidationError> {
        match surface.point_from_surface_coords_spec(position, on_path) {
            Ok(point) => Ok(PartialGlobalVertex { position: Some(point) }),
            Err(e) => Err(e),
        }
    }

    /// Places the vertex at the point of `surface` with the surface
    /// coordinates `position`. On a plane that point is fixed.
    pub fn from_surface_and_position(self, surface: &Surface, position: Point<2>) -> (r: Result<
        Self,
        ValidationError,
    >)
        ensures
            exists|on_path: Point<3>|
                r == #[trigger] self.from_surface_and_position_spec(*surface, position, on_path),
            surface.u is Line ==> forall|on_path: Point<3>|
                r == #[trigger] self.from_surface_and_position_spec(*surface, position, on_path),
    {
        let placed = self.from_surface_and_position_drawn(surface, position);
        assert(placed.0 == self.from_surface_and_position_spec(*surface, position, placed.1@));
        placed.0
    }

    /// Places the vertex as [`PartialGlobalVertex::from_surface_and_position`]
    /// does, and tells which point was drawn.
    pub(crate) fn from_surface_and_position_drawn(
        self,
        surface: &Surface,
        position: Point<2>,
    ) -> (r: (Result<Self, ValidationError>, Ghost<Point<3>>))
        ensures
            r.0 == self.from_surface_and_position_spec(*surface, position, r.1@),
            surface.u is Line ==> forall|on_path: Point<3>|
                r.0 == #[trigger] self.from_surface_and_position_spec(*surface, position, on_path),
    {
        let point = surface.point_from_surface_coords(position);
        let ghost on_path = choose|on_path: Point<3>|
            point == surface.point_from_surface_coords_spec(position, on_path);
        match point {
            Ok(point) => (Ok(PartialGlobalVertex { position: Some(point) }), Ghost(on_path)),
            Err(e) => (Err(e), Ghost(on_path)),
        }
    }

    /// What [`PartialGlobalVertex::from_curve_and_position`] returns. Where
    /// the curve is a circle, `draw.on_curve` is the point that `fj_math`
    /// places on it, and where the surface sweeps a circle, `draw.on_path`
    /// is the point that `fj_math` places on that.
    pub open spec fn from_curve_and_position_spec(
        self,
        curve: MaybePartialCurve,
        position: Point<1>,
        draw: VertexDraw,
    ) -> Result<Self, ValidationError> {
        let curve = curve.into_partial_spec();
        if curve.path is None || curve.surface is None {
            Err(ValidationError::IncompleteObject)
        } else {
            match curve.path->Some_0.point_from_path_coords_spec(position, draw.on_curve) {
                Err(e) => Err(e),
                Ok(on_surface) => self.from_surface_and_position_spec(
                    curve.surface->Some_0.object,
                    on_surface,
                    draw.on_path,
                ),
            }
        }
    }

    /// Places the vertex at the point of `curve` with the curve coordinate
    /// `position`. The curve must have a path and a surface; without either
    /// the result is [`ValidationError::IncompleteObject`]. The point on
    /// the curve is found exactly where curve and coordinate are in range,
    /// and is then handed to
    /// [`PartialGlobalVertex::from_surface_and_position`].
    pub fn from_curve_and_position(self, curve: MaybePartialCurve, position: Point<1>) -> (r: Result<
        Self,
        ValidationError,
    >)
        ensures
            exists|draw: VertexDraw|
                r == #[trigger] self.from_curve_and_position_spec(curve, position, draw),
            curve.into_partial_spec().path is None || curve.into_partial_spec().surface is None
                ==> r == Err::<Self, _>(ValidationError::IncompleteObject),
    {
        let placed = self.from_curve_and_position_drawn(curve, position);
        assert(placed.0 == self.from_curve_and_position_spec(curve, position, placed.1@));
        placed.0
    }

    /// Places the vertex as [`PartialGlobalVertex::from_curve_and_position`]
    /// does, and tells which points were drawn.
    pub(crate) fn from_curve_and_position_drawn(
        self,
        curve: MaybePartialCurve,
        position: Point<1>,
    ) -> (r: (Result<Self, ValidationError>, Ghost<VertexDraw>))
        ensures
            r.0 == self.from_curve_and_position_spec(curve, position, r.1@),
    {
        let ghost nothing = VertexDraw { on_curve: arbitrary(), on_path: arbitrary() };
        let curve = curve.into_partial();
        let path = match curve.path {
            Some(path) => path,
            None => { return (Err(ValidationError::IncompleteObject), Ghost(nothing)); },
        };
        let surface = match curve.surface {
            Some(surface) => surface,
            None => { return (Err(ValidationError::IncompleteObject), Ghost(nothing)); },
        };
        let on_curve = path.point_from_path_coords(position);
        match on_curve {
            Err(e) => (
                Err(e),
                Ghost(VertexDraw { on_curve: held_by(on_curve), on_path: arbitrary() }),
            ),
            Ok(on_surface) => {
                let placed = self.from_surface_and_position_drawn(&surface.object, on_surface);
                (placed.0, Ghost(VertexDraw { on_curve: on_surface, on_path: placed.1@ }))
            },
        }
    }

    /// What [`PartialGlobalVertex::build`] returns, and the stores after it.
    pub open spec fn build_spec(self, objects: ObjectsView) -> Result<
        (Handle<GlobalVertex>, ObjectsView),
        ValidationError,
    > {
        match self.position {
            None => Err(ValidationError::IncompleteObject),
            Some(position) => {
                let vertex = GlobalVertex { position };
                Ok((objects.next_global_vertex(vertex), objects.with_global_vertex(vertex)))
            },
        }
    }

    /// Finishes the vertex and inserts it into the store. This needs the
    /// position.
    pub fn build(self, objects: &mut Objects) -> (r: Result<Handle<GlobalVertex>, ValidationError>)
        ensures
            outcome(self.build_spec(old(objects)@), r, old(objects)@, final(objects)@),
            r is Err ==> final(objects)@ == old(objects)@,
            final(objects)@.surfaces == old(objects)@.surfaces,
    {
        match self.position {
            None => Err(ValidationError::IncompleteObject),
            Some(position) => Ok(
                objects.global_vertices.insert(GlobalVertex::from_position(position)),
            ),
        }
    }

    /// The partial global vertex that has every field of `vertex`.
    pub open spec fn from_spec(vertex: GlobalVertex) -> Self {
        PartialGlobalVertex { position: Some(vertex.position) }
    }

    /// The partial global vertex that has every field of `vertex`.
    pub fn from(vertex: &GlobalVertex) -> (r: Self)
        ensures
            r == Self::from_spec(*vertex),
    {
        PartialGlobalVertex { position: Some(vertex.position) }
    }
}

impl MaybePartial<Handle<GlobalVertex>, PartialGlobalVertex> {
    /// The vertex as a partial vertex.
    pub open spec fn into_partial_spec(self) -> PartialGlobalVertex {
        match self {
            MaybePartial::Full(full) => PartialGlobalVertex::from_spec(full.object),
            MaybePartial::Partial(partial) => partial,
        }
    }

    /// The vertex as a partial vertex.
    pub fn into_partial(self) -> (r: PartialGlobalVertex)
        ensures
            r == self.into_partial_spec(),
    {
        match self {
            MaybePartial::Full(full) => PartialGlobalVertex::from(&full.object),
            MaybePartial::Partial(partial) => partial,
        }
    }

    /// What [`MaybePartial::into_full`] returns, and the stores after it.
    pub open spec fn into_full_spec(self, objects: ObjectsView) -> Result<
        (Handle<GlobalVertex>, ObjectsView),
        ValidationError,
    > {
        match self {
            MaybePartial::Full(full) => Ok((full, objects)),
            MaybePartial::Partial(partial) => partial.build_spec(objects),
        }
    }

    /// The finished vertex: a finished vertex as it is, a partial one built.
    pub fn into_full(self, objects: &mut Objects) -> (r: Result<
        Handle<GlobalVertex>,
        ValidationError,
    >)
        ensures
            outcome(self.into_full_spec(old(objects)@), r, old(objects)@, final(objects)@),
            r is Err ==> final(objects)@ == old(objects)@,
            final(objects)@.surfaces == old(objects)@.surfaces,
    {
        match self {
            MaybePartial::Full(full) => Ok(full),
            MaybePartial::Partial(partial) => partial.build(objects),
        }
    }
}

impl PartialSurfaceVertex {
    /// The partial surface vertex of which nothing is known.
    pub open spec fn empty() -> Self {
        PartialSurfaceVertex { position: None, surface: None, global_form: None }
    }

    /// Updates the position, where one is given.
    pub fn with_position(self, position: Option<Point<2>>) -> (r: Self)
        ensures
            r == (PartialSurfaceVertex { position: overlay(self.position, position), ..self }),
    {
        match position {
            Some(_) => PartialSurfaceVertex {
                position,
                surface: self.surface,
                global_form: self.global_form,
            },
            None => self,
        }
    }

    /// Updates the surface, where one is given.
    pub fn with_surface(self, surface: Option<Handle<Surface>>) -> (r: Self)
        ensures
            r == (PartialSurfaceVertex { surface: overlay(self.surface, surface), ..self }),
    {
        match surface {
            Some(_) => PartialSurfaceVertex {
                position: self.position,
                surface,
                global_form: self.global_form,
            },
            None => self,
        }
    }

    /// Updates the global form, where one is given.
    pub fn with_global_form(self, global_form: Option<MaybePartialGlobalVertex>) -> (r: Self)
        ensures
            r == (PartialSurfaceVertex {
                global_form: overlay(self.global_form, global_form),
                ..self
            }),
    {
        match global_form {
            Some(_) => PartialSurfaceVertex {
                position: self.position,
                surface: self.surface,
                global_form,
            },
            None => self,
        }
    }

    /// The partial global vertex that [`PartialSurfaceVertex::build`] builds
    /// where no finished global form is given: the given partial one where
    /// it has a position, else one at the point of the surface with the
    /// surface position. Where the surface sweeps a circle, `on_path` is the
    /// point that `fj_math` places on that circle.
    pub open spec fn global_form_to_build(
        self,
        position: Point<2>,
        surface: Surface,
        on_path: Point<3>,
    ) -> Result<PartialGlobalVertex, ValidationError> {
        let given = match self.global_form {
            Some(MaybePartial::Partial(partial)) => partial,
            _ => PartialGlobalVertex::empty(),
        };
        if given.position is Some {
            Ok(given)
        } else {
            given.from_surface_and_position_spec(surface, position, on_path)
        }
    }

    /// What [`PartialSurfaceVertex::build`] returns, and the stores after
    /// it. A finished global form is kept, and so is the position of a
    /// partial one. Only where that is absent, the global vertex is placed
    /// where the surface has the surface position; `on_path` is read as in
    /// [`PartialSurfaceVertex::global_form_to_build`].
    pub open spec fn build_spec(self, objects: ObjectsView, on_path: Point<3>) -> Result<
        (SurfaceVertex, ObjectsView),
        ValidationError,
    > {
        if self.position is None || self.surface is None {
            Err(ValidationError::IncompleteObject)
        } else {
            let position = self.position->Some_0;
            let surface = self.surface->Some_0;
            let global_form = match self.global_form {
                Some(MaybePartial::Full(full)) => Ok((full, objects)),
                _ => match self.global_form_to_build(position, surface.object, on_path) {
                    Err(e) => Err(e),
                    Ok(placed) => placed.build_spec(objects),
                },
            };
            match global_form {
                Err(e) => Err(e),
                Ok((global_form, stores)) => Ok(
                    (SurfaceVertex { position, surface, global_form }, stores),
                ),
            }
        }
    }

    /// Whether building the vertex has `fj_math` place a point on a circle:
    /// it has no global form with a position, and its surface sweeps a
    /// circle.
    pub open spec fn draws(self) -> bool {
        &&& !(self.global_form matches Some(MaybePartial::Full(_)))
        &&& !(self.global_form matches Some(MaybePartial::Partial(given))
            && given.position is Some)
        &&& self.surface matches Some(surface) && surface.object.u is Circle
    }

    /// Finishes the vertex. This needs the position and the surface;
    /// without either the build fails with
    /// [`ValidationError::IncompleteObject`]. Where the build draws no
    /// point, its result is fixed.
    pub fn build(self, objects: &mut Objects) -> (r: Result<SurfaceVertex, ValidationError>)
        ensures
            exists|on_path: Point<3>|
                outcome(
                    #[trigger] self.build_spec(old(objects)@, on_path),
                    r,
                    old(objects)@,
                    final(objects)@,
                ),
            !self.draws() ==> forall|on_path: Point<3>|
                outcome(
                    #[trigger] self.build_spec(old(objects)@, on_path),
                    r,
                    old(objects)@,
                    final(objects)@,
                ),
            r is Err ==> final(objects)@ == old(objects)@,
            final(objects)@.surfaces == old(objects)@.surfaces,
            self.position is None || self.surface is None ==> r == Err::<SurfaceVertex, _>(
                ValidationError::IncompleteObject,
            ),
            r matches Ok(vertex) ==> Some(vertex.position) == self.position && Some(vertex.surface)
                == self.surface,
    {
        let built = self.build_drawn(objects);
        assert(outcome(self.build_spec(old(objects)@, built.1@), built.0, old(objects)@, objects@));
        built.0
    }

    /// Finishes the vertex as [`PartialSurfaceVertex::build`] does, and
    /// tells which point was drawn.
    pub(crate) fn build_drawn(self, objects: &mut Objects) -> (r: (
        Result<SurfaceVertex, ValidationError>,
        Ghost<Point<3>>,
    ))
        ensures
            outcome(self.build_spec(old(objects)@, r.1@), r.0, old(objects)@, final(objects)@),
            !self.draws() ==> forall|on_path: Point<3>|
                outcome(
                    #[trigger] self.build_spec(old(objects)@, on_path),
                    r.0,
                    old(objects)@,
                    final(objects)@,
                ),
            r.0 is Err ==> final(objects)@ == old(objects)@,
            final(objects)@.surfaces == old(objects)@.surfaces,
            self.position is None || self.surface is None ==> r.0 == Err::<SurfaceVertex, _>(
                ValidationError::IncompleteObject,
            ),
            r.0 matches Ok(vertex) ==> Some(vertex.position) == self.position && Some(
                vertex.surface,
            ) == self.surface,
    {
        let ghost nothing: Point<3> = arbitrary();
        let position = match self.position {
            Some(position) => position,
            None => { return (Err(ValidationError::IncompleteObject), Ghost(nothing)); },
        };
        let surface = match self.surface {
            Some(surface) => surface,
            None => { return (Err(ValidationError::IncompleteObject), Ghost(nothing)); },
        };
        match self.global_form {
            Some(MaybePartial::Full(full)) => (
                Ok(SurfaceVertex::new(position, surface, full)),
                Ghost(nothing),
            ),
            _ => {
                let given = match self.global_form {
                    Some(MaybePartial::Partial(partial)) => partial,
                    _ => PartialGlobalVertex::default(),
                };
                let (placed, Ghost(on_path)) = match given.position {
                    Some(_) => (given, Ghost(nothing)),
                    None => {
                        let placed = given.from_surface_and_position_drawn(
                            &surface.object,
                            position,
                        );
                        match placed.0 {
                            Ok(vertex) => (vertex, placed.1),
                            Err(e) => { return (Err(e), placed.1); },
                        }
                    },
                };
                match placed.build(objects) {
                    Ok(full) => (Ok(SurfaceVertex::new(position, surface, full)), Ghost(on_path)),
                    Err(e) => (Err(e), Ghost(on_path)),
                }
            },
        }
    }

    /// The partial surface vertex that has every field of `vertex`.
    pub open spec fn from_spec(vertex: SurfaceVertex) -> Self {
        PartialSurfaceVertex {
            position: Some(vertex.position),
            surface: Some(vertex.surface),
            global_form: Some(MaybePartial::Full(vertex.global_form)),
        }
    }

    /// The partial surface vertex that has every field of `vertex`.
    pub fn from(vertex: &SurfaceVertex) -> (r: Self)
        ensures
            r == Self::from_spec(*vertex),
    {
        PartialSurfaceVertex {
            position: Some(vertex.position),
            surface: Some(vertex.surface),
            global_form: Some(MaybePartial::Full(vertex.global_form)),
        }
    }
}

impl MaybePartial<SurfaceVertex, PartialSurfaceVertex> {
    /// The position of the vertex, as far as it is known.
    pub open spec fn position_spec(self) -> Option<Point<2>> {
        match self {
            MaybePartial::Full(full) => Some(full.position),
            MaybePartial::Partial(partial) => partial.position,
        }
    }

    /// The position of the vertex, as far as it is known.
    pub fn position(&self) -> (r: Option<Point<2>>)
        ensures
            r == self.position_spec(),
    {
        match self {
            MaybePartial::Full(full) => Some(full.position),
            MaybePartial::Partial(partial) => partial.position,
        }
    }

    /// The surface of the vertex, as far as it is known.
    pub open spec fn surface_spec(self) -> Option<Handle<Surface>> {
        match self {
            MaybePartial::Full(full) => Some(full.surface),
            MaybePartial::Partial(partial) => partial.surface,
        }
    }

    /// The surface of the vertex, as far as it is known.
    pub fn surface(&self) -> (r: Option<Handle<Surface>>)
        ensures
            r == self.surface_spec(),
    {
        match self {
            MaybePartial::Full(full) => Some(full.surface),
            MaybePartial::Partial(partial) => partial.surface,
        }
    }

    /// The vertex as a partial vertex.
    pub open spec fn into_partial_spec(self) -> PartialSurfaceVertex {
        match self {
            MaybePartial::Full(full) => PartialSurfaceVertex::from_spec(full),
            MaybePartial::Partial(partial) => partial,
        }
    }

    /// The vertex as a partial vertex.
    pub fn into_partial(self) -> (r: PartialSurfaceVertex)
        ensures
            r == self.into_partial_spec(),
    {
        match self {
            MaybePartial::Full(full) => PartialSurfaceVertex::from(&full),
            MaybePartial::Partial(partial) => partial,
        }
    }
}

impl PartialVertex {
    /// The partial vertex of which nothing is known.
    pub open spec fn empty() -> Self {
        PartialVertex { position: None, curve: None, surface_form: None, global_form: None }
    }

    /// Updates the position, where one is given.
    pub fn with_position(self, position: Option<Point<1>>) -> (r: Self)
        ensures
            r == (PartialVertex { position: overlay(self.position, position), ..self }),
    {
        match position {
            Some(_) => PartialVertex {
                position,
                curve: self.curve,
                surface_form: self.surface_form,
                global_form: self.global_form,
            },
            None => self,
        }
    }

    /// Updates the curve, where one is given.
    pub fn with_curve(self, curve: Option<MaybePartialCurve>) -> (r: Self)
        ensures
            r == (PartialVertex { curve: overlay(self.curve, curve), ..self }),
    {
        match curve {
            Some(_) => PartialVertex {
                position: self.position,
                curve,
                surface_form: self.surface_form,
                global_form: self.global_form,
            },
            None => self,
        }
    }

    /// Updates the surface form, where one is given.
    pub fn with_surface_form(self, surface_form: Option<MaybePartialSurfaceVertex>) -> (r: Self)
        ensures
            r == (PartialVertex { surface_form: overlay(self.surface_form, surface_form), ..self }),
    {
        match surface_form {
            Some(_) => PartialVertex {
                position: self.position,
                curve: self.curve,
                surface_form,
                global_form: self.global_form,
            },
            None => self,
        }
    }

    /// Updates the global form, where one is given.
    pub fn with_global_form(self, global_form: Option<MaybePartialGlobalVertex>) -> (r: Self)
        ensures
            r == (PartialVertex { global_form: overlay(self.global_form, global_form), ..self }),
    {
        match global_form {
            Some(_) => PartialVertex {
                position: self.position,
                curve: self.curve,
                surface_form: self.surface_form,
                global_form,
            },
            None => self,
        }
    }

    /// The partial surface vertex that [`PartialVertex::build`] builds where
    /// no finished surface form is given: on the surface of the finished
    /// curve, at the given surface position or else where the curve has the
    /// vertex's position, with the vertex's global form where it has one.
    /// Where the curve is a circle, `on_curve` is the point that `fj_math`
    /// places on it.
    pub open spec fn surface_form_to_build(
        self,
        position: Point<1>,
        curve: Curve,
        on_curve: Point<2>,
    ) -> Result<PartialSurfaceVertex, ValidationError> {
        let given = match self.surface_form {
            Some(MaybePartial::Partial(partial)) => partial,
            _ => PartialSurfaceVertex::empty(),
        };
        let on_surface = match given.position {
            Some(on_surface) => Ok(on_surface),
            None => curve.path.point_from_path_coords_spec(position, on_curve),
        };
        match on_surface {
            Err(e) => Err(e),
            Ok(on_surface) => Ok(
                PartialSurfaceVertex {
                    position: Some(on_surface),
                    surface: Some(curve.surface),
                    global_form: overlay(given.global_form, self.global_form),
                },
            ),
        }
    }

    /// What [`PartialVertex::build`] returns, and the stores after it, where
    /// `fj_math` places the points of `draw` on the circles that the build
    /// meets.
    pub open spec fn build_spec(self, objects: ObjectsView, draw: VertexDraw) -> Result<
        (Vertex, ObjectsView),
        ValidationError,
    > {
        if self.position is None || self.curve is None {
            Err(ValidationError::IncompleteObject)
        } else {
            let position = self.position->Some_0;
            match self.curve->Some_0.into_full_spec(objects) {
                Err(e) => Err(e),
                Ok((curve, with_curve)) => {
                    let surface_form = match self.surface_form {
                        Some(MaybePartial::Full(full)) => Ok((full, with_curve)),
                        _ => match self.surface_form_to_build(
                            position,
                            curve.object,
                            draw.on_curve,
                        ) {
                            Err(e) => Err(e),
                            Ok(partial) => partial.build_spec(with_curve, draw.on_path),
                        },
                    };
                    match surface_form {
                        Err(e) => Err(e),
                        Ok((surface_form, stores)) => match Vertex::new_spec(
                            position,
                            curve,
                            surface_form,
                        ) {
                            Err(e) => Err(e),
                            Ok(vertex) => Ok((vertex, stores)),
                        },
                    }
                },
            }
        }
    }

    /// Finishes the vertex. This needs the position and the curve. The
    /// curve is finished first, then the surface form, which is put on the
    /// surface of the curve. A finished surface form on another surface
    /// makes the build fail with [`ValidationError::Mismatch`].
    ///
    /// Where a position is to be derived on a circle, `fj_math` places the
    /// point; the result is what [`PartialVertex::build_spec`] makes of the
    /// points that were drawn.
    pub fn build(self, objects: &mut Objects) -> (r: Result<Vertex, ValidationError>)
        ensures
            exists|draw: VertexDraw|
                outcome(
                    #[trigger] self.build_spec(old(objects)@, draw),
                    r,
                    old(objects)@,
                    final(objects)@,
                ),
            MaybePartialVertex::Partial(self).is_off_circles() || MaybePartialVertex::Partial(
                self,
            ).is_placed() ==> forall|draw: VertexDraw|
                outcome(
                    #[trigger] self.build_spec(old(objects)@, draw),
                    r,
                    old(objects)@,
                    final(objects)@,
                ),
            final(objects)@.surfaces == old(objects)@.surfaces,
            r matches Ok(vertex) ==> {
                &&& vertex.wf()
                &&& Some(vertex.position) == self.position
                &&& self.curve matches Some(MaybePartial::Full(curve)) ==> vertex.curve == curve
                &&& self.surface_form matches Some(MaybePartial::Full(surface_form))
                    ==> vertex.surface_form == surface_form
            },
            self.position is None || self.curve is None ==> r == Err::<Vertex, _>(
                ValidationError::IncompleteObject,
            ) && final(objects)@ == old(objects)@,
    {
        let built = self.build_drawn(objects);
        assert(outcome(self.build_spec(old(objects)@, built.1@), built.0, old(objects)@, objects@));
        proof {
            let vertex = MaybePartialVertex::Partial(self);
            if vertex.is_off_circles() || vertex.is_placed() {
                assert forall|draw: VertexDraw|
                    outcome(
                        #[trigger] self.build_spec(old(objects)@, draw),
                        built.0,
                        old(objects)@,
                        objects@,
                    ) by {
                    assert(vertex.into_full_spec(old(objects)@, draw) == vertex.into_full_spec(
                        old(objects)@,
                        built.1@,
                    ));
                }
            }
        }
        built.0
    }

    /// Finishes the vertex as [`PartialVertex::build`] does, and tells which
    /// points were drawn.
    #[verifier::rlimit(50)]
    pub(crate) fn build_drawn(self, objects: &mut Objects) -> (r: (
        Result<Vertex, ValidationError>,
        Ghost<VertexDraw>,
    ))
        ensures
            outcome(self.build_spec(old(objects)@, r.1@), r.0, old(objects)@, final(objects)@),
            final(objects)@.surfaces == old(objects)@.surfaces,
            r.0 matches Ok(vertex) ==> {
                &&& vertex.wf()
                &&& Some(vertex.position) == self.position
                &&& self.curve matches Some(MaybePartial::Full(curve)) ==> vertex.curve == curve
                &&& self.surface_form matches Some(MaybePartial::Full(surface_form))
                    ==> vertex.surface_form == surface_form
            },
            self.position is None || self.curve is None ==> r.0 == Err::<Vertex, _>(
                ValidationError::IncompleteObject,
            ) && final(objects)@ == old(objects)@,
    {
        let ghost nothing = VertexDraw { on_curve: arbitrary(), on_path: arbitrary() };
        let position = match self.position {
            Some(position) => position,
            None => { return (Err(ValidationError::IncompleteObject), Ghost(nothing)); },
        };
        let curve = match self.curve {
            Some(curve) => curve,
            None => { return (Err(ValidationError::IncompleteObject), Ghost(nothing)); },
        };
        let curve = match curve.into_full(objects) {
            Ok(curve) => curve,
            Err(e) => { return (Err(e), Ghost(nothing)); },
        };
        let ghost with_curve = objects@;
        match self.surface_form {
            Some(MaybePartial::Full(full)) => (Vertex::new(position, curve, full), Ghost(nothing)),
            _ => {
                let given = match self.surface_form {
                    Some(MaybePartial::Partial(partial)) => partial,
                    _ => PartialSurfaceVertex::default(),
                };
                let (on_surface, Ghost(on_curve)) = match given.position {
                    Some(on_surface) => (on_surface, Ghost(nothing.on_curve)),
                    None => {
                        let placed = curve.object.path.point_from_path_coords(position);
                        match placed {
                            Ok(on_surface) => (on_surface, Ghost(on_surface)),
                            Err(e) => {
                                return (
                                    Err(e),
                                    Ghost(
                                        VertexDraw {
                                            on_curve: held_by(placed),
                                            on_path: arbitrary(),
                                        },
                                    ),
                                );
                            },
                        }
                    },
                };
                let partial = given.with_position(Some(on_surface)).with_surface(
                    Some(curve.object.surface),
                ).with_global_form(self.global_form);
                let built = partial.build_drawn(objects);
                let ghost draw = VertexDraw { on_curve, on_path: built.1@ };
                proof {
                    extends_is_transitive(old(objects)@, with_curve, objects@);
                }
                match built.0 {
                    Ok(full) => (Vertex::new(position, curve, full), Ghost(draw)),
                    Err(e) => (Err(e), Ghost(draw)),
                }
            },
        }
    }

    /// The partial vertex that has every field of `vertex`.
    pub open spec fn from_spec(vertex: Vertex) -> Self {
        PartialVertex {
            position: Some(vertex.position),
            curve: Some(MaybePartial::Full(vertex.curve)),
            surface_form: Some(MaybePartial::Full(vertex.surface_form)),
            global_form: Some(MaybePartial::Full(vertex.surface_form.global_form)),
        }
    }

    /// The partial vertex that has every field of `vertex`.
    pub fn from(vertex: &Vertex) -> (r: Self)
        ensures
            r == Self::from_spec(*vertex),
    {
        PartialVertex {
            position: Some(vertex.position),
            curve: Some(MaybePartial::Full(vertex.curve)),
            surface_form: Some(MaybePartial::Full(vertex.surface_form)),
            global_form: Some(MaybePartial::Full(vertex.surface_form.global_form)),
        }
    }
}

impl MaybePartial<Vertex, PartialVertex> {
    /// The surface form of the vertex, as far as it is known.
    pub open spec fn surface_form_spec(self) -> Option<MaybePartialSurfaceVertex> {
        match self {
            MaybePartial::Full(full) => Some(MaybePartial::Full(full.surface_form)),
            MaybePartial::Partial(partial) => partial.surface_form,
        }
    }

    /// The surface form of the vertex, as far as it is known.
    pub fn surface_form(&self) -> (r: Option<MaybePartialSurfaceVertex>)
        ensures
            r == self.surface_form_spec(),
    {
        match self {
            MaybePartial::Full(full) => Some(MaybePartial::Full(full.surface_form)),
            MaybePartial::Partial(partial) => partial.surface_form,
        }
    }

    /// The vertex as a partial vertex.
    pub open spec fn into_partial_spec(self) -> PartialVertex {
        match self {
            MaybePartial::Full(full) => PartialVertex::from_spec(full),
            MaybePartial::Partial(partial) => partial,
        }
    }

    /// The vertex as a partial vertex.
    pub fn into_partial(self) -> (r: PartialVertex)
        ensures
            r == self.into_partial_spec(),
    {
        match self {
            MaybePartial::Full(full) => PartialVertex::from(&full),
            MaybePartial::Partial(partial) => partial,
        }
    }

    /// What [`MaybePartial::into_full`] returns, and the stores after it,
    /// where `fj_math` places the points of `draw` on the circles that a
    /// build meets.
    pub open spec fn into_full_spec(self, objects: ObjectsView, draw: VertexDraw) -> Result<
        (Vertex, ObjectsView),
        ValidationError,
    > {
        match self {
            MaybePartial::Full(full) => Ok((full, objects)),
            MaybePartial::Partial(partial) => partial.build_spec(objects, draw),
        }
    }

    /// The finished vertex: a finished vertex as it is, a partial one built.
    pub fn into_full(self, objects: &mut Objects) -> (r: Result<Vertex, ValidationError>)
        ensures
            exists|draw: VertexDraw|
                outcome(
                    #[trigger] self.into_full_spec(old(objects)@, draw),
                    r,
                    old(objects)@,
                    final(objects)@,
                ),
            final(objects)@.surfaces == old(objects)@.surfaces,
            r matches Ok(vertex) ==> {
                &&& self matches MaybePartial::Full(full) ==> vertex == full
                &&& self matches MaybePartial::Partial(partial) ==> (partial.curve matches Some(
                    MaybePartial::Full(curve),
                ) ==> vertex.curve == curve)
            },
    {
        let built = self.into_full_drawn(objects);
        assert(outcome(
            self.into_full_spec(old(objects)@, built.1@),
            built.0,
            old(objects)@,
            objects@,
        ));
        built.0
    }

    /// The finished vertex as [`MaybePartial::into_full`] gives it, and the
    /// points that were drawn.
    pub(crate) fn into_full_drawn(self, objects: &mut Objects) -> (r: (
        Result<Vertex, ValidationError>,
        Ghost<VertexDraw>,
    ))
        ensures
            outcome(self.into_full_spec(old(objects)@, r.1@), r.0, old(objects)@, final(objects)@),
            final(objects)@.surfaces == old(objects)@.surfaces,
            r.0 matches Ok(vertex) ==> {
                &&& self matches MaybePartial::Full(full) ==> vertex == full
                &&& self matches MaybePartial::Partial(partial) ==> (partial.curve matches Some(
                    MaybePartial::Full(curve),
                ) ==> vertex.curve == curve)
            },
    {
        match self {
            MaybePartial::Full(full) => (
                Ok(full),
                Ghost(VertexDraw { on_curve: arbitrary(), on_path: arbitrary() }),
            ),
            MaybePartial::Partial(partial) => partial.build_drawn(objects),
        }
    }

    /// Whether finishing the vertex leaves nothing for `fj_math` to place:
    /// the vertex is finished, or its surface form is, or its surface form
    /// has a position and a global form that is finished or has a position.
    pub open spec fn is_placed(self) -> bool {
        match self {
            MaybePartial::Full(_) => true,
            MaybePartial::Partial(partial) => match partial.surface_form {
                Some(MaybePartial::Full(_)) => true,
                Some(MaybePartial::Partial(given)) => given.position is Some && match overlay(
                    given.global_form,
                    partial.global_form,
                ) {
                    Some(MaybePartial::Full(_)) => true,
                    Some(MaybePartial::Partial(global_form)) => global_form.position is Some,
                    None => false,
                },
                None => false,
            },
        }
    }

    /// Whether the vertex is finished, or lies on a curve that is off
    /// circles.
    pub open spec fn is_off_circles(self) -> bool {
        match self {
            MaybePartial::Full(_) => true,
            MaybePartial::Partial(partial) => partial.curve matches Some(curve)
                ==> curve.is_off_circles(),
        }
    }

    /// The vertex with position and curve updated, where the vertex is
    /// partial and they are given.
    pub open spec fn on_curve_spec(
        self,
        position: Option<Point<1>>,
        curve: Option<MaybePartialCurve>,
    ) -> Self {
        match self {
            MaybePartial::Full(full) => self,
            MaybePartial::Partial(partial) => MaybePartial::Partial(
                PartialVertex {
                    position: overlay(partial.position, position),
                    curve: overlay(partial.curve, curve),
                    ..partial
                },
            ),
        }
    }

    /// Updates position and curve of a partial vertex; a finished vertex
    /// stays as it is.
    pub fn on_curve(self, position: Option<Point<1>>, curve: Option<MaybePartialCurve>) -> (r: Self)
        ensures
            r == self.on_curve_spec(position, curve),
    {
        match self {
            MaybePartial::Full(_) => self,
            MaybePartial::Partial(partial) => MaybePartial::Partial(
                partial.with_position(position).with_curve(curve),
            ),
        }
    }
}

/// A vertex on a line on a plane is finished in one way only: `fj_math`
/// places no point on a circle, and no drawn point is read.
pub proof fn vertex_off_circles_is_built_without_draw(
    vertex: MaybePartialVertex,
    objects: ObjectsView,
    a: VertexDraw,
    b: VertexDraw,
)
    requires
        vertex.is_off_circles(),
    ensures
        vertex.into_full_spec(objects, a) == vertex.into_full_spec(objects, b),
{
}

/// A vertex that leaves nothing for `fj_math` to place is finished in one
/// way only: no drawn point is read.
pub proof fn placed_vertex_is_built_without_draw(
    vertex: MaybePartialVertex,
    objects: ObjectsView,
    a: VertexDraw,
    b: VertexDraw,
)
    requires
        vertex.is_placed(),
    ensures
        vertex.into_full_spec(objects, a) == vertex.into_full_spec(objects, b),
{
}

} // verus!
