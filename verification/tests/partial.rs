use brep_kernel::objects::curve::{Curve, GlobalCurve};
use brep_kernel::objects::edge::{GlobalEdge, HalfEdge, VerticesInNormalizedOrder};
use brep_kernel::objects::surface::Surface;
use brep_kernel::objects::vertex::{GlobalVertex, SurfaceVertex, Vertex};
use brep_kernel::objects::Objects;
use brep_kernel::partial::curve::PartialCurve;
use brep_kernel::partial::edge::{PartialGlobalEdge, PartialHalfEdge};
use brep_kernel::partial::vertex::{PartialGlobalVertex, PartialSurfaceVertex, PartialVertex};
use brep_kernel::partial::MaybePartial;
use brep_kernel::path::SurfacePath;
use brep_kernel::storage::Handle;
use brep_kernel::validate::ValidationError;
use fj_math::{Circle, Line, Point, Scalar};

fn xy(objects: &mut Objects) -> Handle<Surface> {
    objects.surfaces.insert(Surface::xy_plane().unwrap())
}

fn xz(objects: &mut Objects) -> Handle<Surface> {
    objects.surfaces.insert(Surface::xz_plane().unwrap())
}

fn segment(surface: Handle<Surface>, from: [f64; 2], to: [f64; 2]) -> PartialHalfEdge {
    PartialHalfEdge::default()
        .with_surface(Some(surface))
        .as_line_segment_from_points([Point::from(from), Point::from(to)])
        .unwrap()
}

fn partial_vertex(vertex: &MaybePartial<Vertex, PartialVertex>) -> PartialVertex {
    match vertex {
        MaybePartial::Partial(partial) => *partial,
        MaybePartial::Full(_) => panic!("the vertex is finished"),
    }
}

#[test]
fn surface_places_points_along_both_directions() {
    let plane = Surface::xz_plane().unwrap();
    assert_eq!(
        plane.point_from_surface_coords(Point::from([2., 3.])),
        Ok(Point::from([2., 0., 3.]))
    );
    assert_eq!(
        Surface::yz_plane().unwrap().point_from_surface_coords(Point::from([2., 3.])),
        Ok(Point::from([0., 2., 3.]))
    );
    assert_eq!(
        plane.point_from_surface_coords(Point::from([1e30, 3.])),
        Err(ValidationError::OutOfRange)
    );
}

#[test]
fn with_methods_keep_a_field_when_handed_none() {
    let mut objects = Objects::new();
    let surface = xy(&mut objects);
    let other = xz(&mut objects);
    let edge = PartialHalfEdge::default().with_surface(Some(surface));
    assert_eq!(edge.with_surface(None).surface, Some(surface));
    assert_eq!(edge.with_surface(Some(other)).surface, Some(other));
    let curve = MaybePartial::Partial(PartialCurve::default().with_surface(Some(surface)));
    let edge = edge.with_curve(Some(curve));
    assert_eq!(edge.with_curve(None).curve, Some(curve));
    let vertices = [
        MaybePartial::Partial(PartialVertex::default().with_position(Some(Point::from([0.])))),
        MaybePartial::Partial(PartialVertex::default().with_position(Some(Point::from([1.])))),
    ];
    let edge = edge.with_vertices(Some(vertices));
    assert_eq!(edge.with_vertices(None).vertices, Some(vertices));
    let global_form = MaybePartial::Partial(PartialGlobalEdge::default());
    let edge = edge.with_global_form(Some(global_form));
    assert_eq!(edge.with_global_form(None).global_form, Some(global_form));
    assert_eq!(edge.surface, Some(surface));
}

#[test]
fn partial_global_edge_with_methods_keep_a_field_when_handed_none() {
    let mut objects = Objects::new();
    let curve = objects.global_curves.insert(GlobalCurve {});
    let a = objects.global_vertices.insert(GlobalVertex::from_position(Point::from([0., 0., 0.])));
    let b = objects.global_vertices.insert(GlobalVertex::from_position(Point::from([1., 0., 0.])));
    let edge = PartialGlobalEdge::default().with_curve(Some(curve)).with_vertices(Some([a, b]));
    assert_eq!(edge.with_curve(None).curve, Some(curve));
    assert_eq!(edge.with_vertices(None).vertices, Some([a, b]));
    assert_eq!(edge.with_vertices(Some([b, a])).vertices, Some([b, a]));
}

#[test]
fn global_edge_does_not_depend_on_orientation() {
    let mut objects = Objects::new();
    let curve = objects.global_curves.insert(GlobalCurve {});
    let a = objects.global_vertices.insert(GlobalVertex::from_position(Point::from([5., 0., 0.])));
    let b = objects.global_vertices.insert(GlobalVertex::from_position(Point::from([1., 0., 0.])));
    let forward = GlobalEdge::new(curve, [a, b]);
    let backward = GlobalEdge::new(curve, [b, a]);
    assert_eq!(forward, backward);
    assert_eq!(forward.vertices.access_in_normalized_order(), [a, b]);
    assert_eq!(VerticesInNormalizedOrder::new([a, b]).1, false);
    assert_eq!(VerticesInNormalizedOrder::new([b, a]).1, true);
    let built = PartialGlobalEdge::default()
        .with_curve(Some(curve))
        .with_vertices(Some([b, a]))
        .build(&objects);
    assert_eq!(built, Ok(forward));
}

#[test]
fn partial_global_edge_needs_curve_and_vertices() {
    let mut objects = Objects::new();
    let curve = objects.global_curves.insert(GlobalCurve {});
    assert_eq!(
        PartialGlobalEdge::default().with_curve(Some(curve)).build(&objects),
        Err(ValidationError::IncompleteObject)
    );
    assert_eq!(
        PartialGlobalEdge::default().build(&objects),
        Err(ValidationError::IncompleteObject)
    );
}

#[test]
fn global_edge_survives_round_trip() {
    let mut objects = Objects::new();
    let curve = objects.global_curves.insert(GlobalCurve {});
    let a = objects.global_vertices.insert(GlobalVertex::from_position(Point::from([5., 0., 0.])));
    let b = objects.global_vertices.insert(GlobalVertex::from_position(Point::from([1., 0., 0.])));
    let edge = GlobalEdge::new(curve, [b, a]);
    assert_eq!(PartialGlobalEdge::from(&edge).build(&objects), Ok(edge));
}

#[test]
fn line_segment_from_points_infers_curve_and_coordinates() {
    let mut objects = Objects::new();
    let surface = xy(&mut objects);
    let edge = segment(surface, [1., 1.], [3., 2.]);
    let curve = match edge.curve {
        Some(MaybePartial::Partial(curve)) => curve,
        _ => panic!("the curve is partial"),
    };
    assert_eq!(
        curve.path,
        Some(SurfacePath::Line(Line::from_points([[1., 1.], [3., 2.]])))
    );
    assert_eq!(curve.surface, Some(surface));
    assert_eq!(curve.global_form, None);
    let vertices = edge.vertices.unwrap();
    let from = partial_vertex(&vertices[0]);
    let to = partial_vertex(&vertices[1]);
    assert_eq!(from.position, Some(Point::from([0.])));
    assert_eq!(to.position, Some(Point::from([1.])));
    assert_eq!(from.curve, edge.curve);
    assert_eq!(to.curve, edge.curve);
}

#[test]
fn line_segment_keeps_the_global_curve_that_is_known() {
    let mut objects = Objects::new();
    let surface = xy(&mut objects);
    let known = objects.global_curves.insert(GlobalCurve {});
    let other = objects.global_curves.insert(GlobalCurve {});
    let vertices = segment(surface, [0., 0.], [1., 0.]).vertices;
    let from_curve = PartialHalfEdge::default()
        .with_surface(Some(surface))
        .with_curve(Some(MaybePartial::Partial(
            PartialCurve::default().with_global_form(Some(known)),
        )))
        .with_global_form(Some(MaybePartial::Partial(
            PartialGlobalEdge::default().with_curve(Some(other)),
        )))
        .with_vertices(vertices)
        .as_line_segment()
        .unwrap();
    assert_eq!(from_curve.curve().global_form(), Some(known));
    let from_global_form = PartialHalfEdge::default()
        .with_surface(Some(surface))
        .with_global_form(Some(MaybePartial::Partial(
            PartialGlobalEdge::default().with_curve(Some(other)),
        )))
        .with_vertices(vertices)
        .as_line_segment()
        .unwrap();
    assert_eq!(from_global_form.curve().global_form(), Some(other));
}

#[test]
fn line_segment_takes_the_surface_of_a_vertex() {
    let mut objects = Objects::new();
    let surface = xy(&mut objects);
    let vertices = segment(surface, [0., 0.], [1., 0.]).vertices;
    let edge = PartialHalfEdge::default().with_vertices(vertices).as_line_segment().unwrap();
    match edge.curve {
        Some(MaybePartial::Partial(curve)) => assert_eq!(curve.surface, Some(surface)),
        _ => panic!("the curve is partial"),
    }
}

#[test]
fn line_segment_says_what_is_missing() {
    let mut objects = Objects::new();
    let surface = xy(&mut objects);
    assert_eq!(
        PartialHalfEdge::default().with_surface(Some(surface)).as_line_segment(),
        Err(ValidationError::IncompleteObject)
    );
    let bare = [
        MaybePartial::Partial(PartialVertex::default()),
        MaybePartial::Partial(PartialVertex::default()),
    ];
    assert_eq!(
        PartialHalfEdge::default()
            .with_surface(Some(surface))
            .with_vertices(Some(bare))
            .as_line_segment(),
        Err(ValidationError::IncompleteObject)
    );
    let unplaced = [
        MaybePartial::Partial(PartialVertex::default().with_surface_form(Some(
            MaybePartial::Partial(PartialSurfaceVertex::default()),
        ))),
        MaybePartial::Partial(PartialVertex::default().with_surface_form(Some(
            MaybePartial::Partial(PartialSurfaceVertex::default()),
        ))),
    ];
    assert_eq!(
        PartialHalfEdge::default()
            .with_surface(Some(surface))
            .with_vertices(Some(unplaced))
            .as_line_segment(),
        Err(ValidationError::IncompleteObject)
    );
    assert_eq!(
        PartialHalfEdge::default()
            .as_line_segment_from_points([Point::from([0., 0.]), Point::from([1., 0.])]),
        Err(ValidationError::IncompleteObject)
    );
}

#[test]
fn line_segment_needs_two_different_points_in_range() {
    let mut objects = Objects::new();
    let surface = xy(&mut objects);
    assert_eq!(
        PartialHalfEdge::default()
            .with_surface(Some(surface))
            .as_line_segment_from_points([Point::from([1., 1.]), Point::from([1., 1.])]),
        Err(ValidationError::Degenerate)
    );
    assert_eq!(
        PartialHalfEdge::default()
            .with_surface(Some(surface))
            .as_line_segment_from_points([Point::from([1e30, 1.]), Point::from([1., 1.])]),
        Err(ValidationError::OutOfRange)
    );
}

#[test]
fn build_finishes_a_line_segment() {
    let mut objects = Objects::new();
    let surface = xz(&mut objects);
    let half_edge = segment(surface, [1., 1.], [3., 2.]).build(&mut objects).unwrap();
    let [from, to] = half_edge.vertices;
    assert_eq!(from.position, Point::from([0.]));
    assert_eq!(to.position, Point::from([1.]));
    assert_eq!(from.curve, to.curve);
    assert_eq!(half_edge.curve().object.surface, surface);
    assert_eq!(from.surface_form.position, Point::from([1., 1.]));
    assert_eq!(to.surface_form.position, Point::from([3., 2.]));
    assert_eq!(from.surface_form.surface, surface);
    assert_eq!(from.global_form().object.position, Point::from([1., 0., 1.]));
    assert_eq!(to.global_form().object.position, Point::from([3., 0., 2.]));
    assert_eq!(half_edge.global_form.curve, half_edge.curve().object.global_form);
    assert_eq!(
        half_edge.global_form,
        GlobalEdge::new(half_edge.curve().object.global_form, [to.global_form(), from.global_form()])
    );
    assert_eq!(half_edge.front(), to);
    assert_eq!(half_edge.back(), from);
    assert_eq!(objects.curves.get(half_edge.curve().id), Some(half_edge.curve()));
}

#[test]
fn build_needs_curve_and_vertices() {
    let mut objects = Objects::new();
    let surface = xy(&mut objects);
    let edge = segment(surface, [0., 0.], [1., 0.]);
    let without_curve = PartialHalfEdge { curve: None, ..edge };
    assert_eq!(without_curve.build(&mut objects), Err(ValidationError::IncompleteObject));
    let without_vertices = PartialHalfEdge { vertices: None, ..edge };
    assert_eq!(without_vertices.build(&mut objects), Err(ValidationError::IncompleteObject));
    assert_eq!(objects.curves.len(), 0);
    assert_eq!(objects.global_vertices.len(), 0);
    assert_eq!(
        PartialCurve::default().with_surface(Some(surface)).build(&mut objects),
        Err(ValidationError::IncompleteObject)
    );
    assert_eq!(
        PartialGlobalVertex::default().build(&mut objects),
        Err(ValidationError::IncompleteObject)
    );
    assert_eq!(
        PartialSurfaceVertex::default().with_surface(Some(surface)).build(&mut objects),
        Err(ValidationError::IncompleteObject)
    );
    assert_eq!(
        PartialVertex::default().with_position(Some(Point::from([0.]))).build(&mut objects),
        Err(ValidationError::IncompleteObject)
    );
}

#[test]
fn build_refuses_a_global_form_on_another_curve() {
    let mut objects = Objects::new();
    let surface = xy(&mut objects);
    let other = objects.global_curves.insert(GlobalCurve {});
    let a = objects.global_vertices.insert(GlobalVertex::from_position(Point::from([0., 0., 0.])));
    let b = objects.global_vertices.insert(GlobalVertex::from_position(Point::from([1., 0., 0.])));
    let edge = segment(surface, [0., 0.], [1., 0.])
        .with_global_form(Some(MaybePartial::Full(GlobalEdge::new(other, [a, b]))));
    assert_eq!(edge.build(&mut objects), Err(ValidationError::Mismatch));
}

#[test]
fn half_edge_needs_vertices_on_one_curve_at_different_places() {
    let mut objects = Objects::new();
    let surface = xy(&mut objects);
    let first = segment(surface, [0., 0.], [1., 0.]).build(&mut objects).unwrap();
    let second = segment(surface, [0., 0.], [1., 0.]).build(&mut objects).unwrap();
    assert_eq!(
        HalfEdge::new([first.vertices[0], second.vertices[1]], first.global_form),
        Err(ValidationError::Mismatch)
    );
    assert_eq!(
        HalfEdge::new([first.vertices[0], first.vertices[0]], first.global_form),
        Err(ValidationError::Degenerate)
    );
    assert_eq!(HalfEdge::new(first.vertices, second.global_form), Err(ValidationError::Mismatch));
    assert_eq!(HalfEdge::new(first.vertices, first.global_form), Ok(first));
}

#[test]
fn vertex_needs_its_surface_form_on_the_surface_of_its_curve() {
    let mut objects = Objects::new();
    let surface = xy(&mut objects);
    let other = xz(&mut objects);
    let half_edge = segment(surface, [0., 0.], [1., 0.]).build(&mut objects).unwrap();
    let vertex = half_edge.vertices[0];
    let elsewhere = SurfaceVertex::new(
        vertex.surface_form.position,
        other,
        vertex.surface_form.global_form,
    );
    assert_eq!(
        Vertex::new(vertex.position, vertex.curve, elsewhere),
        Err(ValidationError::Mismatch)
    );
    assert_eq!(Vertex::new(vertex.position, vertex.curve, vertex.surface_form), Ok(vertex));
}

#[test]
fn half_edge_survives_round_trip() {
    let mut objects = Objects::new();
    let surface = xy(&mut objects);
    let half_edge = segment(surface, [1., 1.], [3., 2.]).build(&mut objects).unwrap();
    let curves = objects.curves.len();
    let vertices = objects.global_vertices.len();
    let partial = PartialHalfEdge::from(&half_edge);
    assert_eq!(partial.surface, Some(surface));
    assert_eq!(partial.build(&mut objects), Ok(half_edge));
    assert_eq!(objects.curves.len(), curves);
    assert_eq!(objects.global_vertices.len(), vertices);
}

#[test]
fn circle_half_edge_runs_once_around() {
    let mut objects = Objects::new();
    let surface = xy(&mut objects);
    let edge = PartialHalfEdge::default()
        .with_surface(Some(surface))
        .as_circle_from_radius(Scalar::from_f64(2.))
        .unwrap();
    let curve = match edge.curve {
        Some(MaybePartial::Partial(curve)) => curve,
        _ => panic!("the curve is partial"),
    };
    assert_eq!(
        curve.path,
        Some(SurfacePath::Circle(Circle::from_center_and_radius(Point::origin(), Scalar::from_f64(2.))))
    );
    let vertices = edge.vertices.unwrap();
    let back = partial_vertex(&vertices[0]);
    let front = partial_vertex(&vertices[1]);
    assert_eq!(back.position, Some(Point::from([0.])));
    assert_eq!(front.position, Some(Point::from([std::f64::consts::TAU])));
    assert_eq!(back.global_form, front.global_form);
    let placed = match back.global_form {
        Some(MaybePartial::Partial(PartialGlobalVertex { position: Some(placed) })) => placed,
        _ => panic!("the global vertex is partial and has a position"),
    };
    assert!(placed.distance_to(&Point::from([2., 0., 0.])) < Scalar::from_f64(1e-12));
    let half_edge = edge.build(&mut objects).unwrap();
    assert_eq!(
        half_edge.vertices[0].global_form().object,
        half_edge.vertices[1].global_form().object
    );
    assert_eq!(half_edge.vertices[0].curve, half_edge.vertices[1].curve);
}

#[test]
fn circle_half_edge_needs_a_surface_and_a_radius() {
    let mut objects = Objects::new();
    let surface = xy(&mut objects);
    assert_eq!(
        PartialHalfEdge::default().as_circle_from_radius(Scalar::from_f64(2.)),
        Err(ValidationError::IncompleteObject)
    );
    assert_eq!(
        PartialHalfEdge::default()
            .with_surface(Some(surface))
            .as_circle_from_radius(Scalar::from_f64(0.)),
        Err(ValidationError::Degenerate)
    );
    assert_eq!(
        PartialHalfEdge::default()
            .with_surface(Some(surface))
            .as_circle_from_radius(Scalar::from_f64(1e30)),
        Err(ValidationError::OutOfRange)
    );
}

#[test]
fn from_curve_and_vertices_takes_the_global_forms() {
    let mut objects = Objects::new();
    let surface = xy(&mut objects);
    let half_edge = segment(surface, [0., 0.], [1., 0.]).build(&mut objects).unwrap();
    let curve: Curve = half_edge.curve().object;
    let edge = PartialGlobalEdge::default().from_curve_and_vertices(&curve, &half_edge.vertices);
    assert_eq!(edge.curve, Some(curve.global_form));
    assert_eq!(
        edge.vertices,
        Some([half_edge.vertices[0].global_form(), half_edge.vertices[1].global_form()])
    );
    assert_eq!(edge.build(&objects), Ok(half_edge.global_form));
}

#[test]
fn curve_without_global_form_gets_a_new_global_curve() {
    let mut objects = Objects::new();
    let surface = xy(&mut objects);
    let partial = PartialCurve::default()
        .with_surface(Some(surface))
        .as_line_from_points([Point::from([0., 0.]), Point::from([1., 0.])])
        .unwrap();
    let first = partial.build(&mut objects).unwrap();
    let second = partial.build(&mut objects).unwrap();
    assert_ne!(first.object.global_form, second.object.global_form);
    assert_eq!(first.object.path, second.object.path);
    let third = partial.with_global_form(Some(first.object.global_form)).build(&mut objects).unwrap();
    assert_eq!(third.object.global_form, first.object.global_form);
    assert_eq!(objects.global_curves.len(), 2);
}

#[test]
fn opposite_half_edges_share_their_global_edge() {
    let mut objects = Objects::new();
    let surface = xy(&mut objects);
    let there = segment(surface, [0., 0.], [1., 0.]).build(&mut objects).unwrap();
    let [a, b] = there.vertices;
    let back = PartialHalfEdge::default()
        .with_curve(Some(MaybePartial::Full(there.curve())))
        .with_vertices(Some([MaybePartial::Full(b), MaybePartial::Full(a)]))
        .build(&mut objects)
        .unwrap();
    assert_eq!(back.vertices, [b, a]);
    assert_eq!(back.global_form, there.global_form);
}

#[test]
fn built_half_edge_lies_in_the_stores() {
    let mut objects = Objects::new();
    let surface = xy(&mut objects);
    let half_edge = segment(surface, [1., 1.], [3., 2.]).build(&mut objects).unwrap();
    for vertex in half_edge.vertices {
        assert_eq!(objects.curves.get(vertex.curve.id), Some(vertex.curve));
        assert_eq!(
            objects.surfaces.get(vertex.curve.object.surface.id),
            Some(vertex.curve.object.surface)
        );
        assert_eq!(
            objects.global_curves.get(vertex.curve.object.global_form.id),
            Some(vertex.curve.object.global_form)
        );
        assert_eq!(
            objects.surfaces.get(vertex.surface_form.surface.id),
            Some(vertex.surface_form.surface)
        );
        assert_eq!(
            objects.global_vertices.get(vertex.global_form().id),
            Some(vertex.global_form())
        );
    }
    assert_eq!(
        objects.global_curves.get(half_edge.global_form.curve.id),
        Some(half_edge.global_form.curve)
    );
    for vertex in half_edge.global_form.vertices.access_in_normalized_order() {
        assert_eq!(objects.global_vertices.get(vertex.id), Some(vertex));
    }
}

#[test]
fn swept_from_moves_a_point_of_the_path_along_the_sweep() {
    let plane = Surface::xz_plane().unwrap();
    assert_eq!(
        plane.swept_from(Point::from([2., 0., 0.]), Scalar::from_f64(3.)),
        Ok(Point::from([2., 0., 3.]))
    );
    assert_eq!(
        plane.swept_from(Point::from([1e30, 0., 0.]), Scalar::from_f64(3.)),
        Err(ValidationError::OutOfRange)
    );
    let collapsed = Surface::new(
        brep_kernel::path::GlobalPath::x_axis().unwrap(),
        fj_math::Vector::from([0., 0., 0.]),
    );
    assert_eq!(
        collapsed.swept_from(Point::from([2., 0., 0.]), Scalar::from_f64(3.)),
        Err(ValidationError::Degenerate)
    );
}

#[test]
fn global_vertex_is_placed_on_curve_and_surface() {
    let mut objects = Objects::new();
    let surface = xz(&mut objects);
    let line = MaybePartial::Partial(
        PartialCurve::default()
            .with_surface(Some(surface))
            .as_line_from_points([Point::from([1., 1.]), Point::from([3., 2.])])
            .unwrap(),
    );
    assert_eq!(
        PartialGlobalVertex::default().from_curve_and_position(line, Point::from([2.])),
        Ok(PartialGlobalVertex { position: Some(Point::from([5., 0., 3.])) })
    );
    assert_eq!(
        PartialGlobalVertex::default().from_surface_and_position(&surface.object, Point::from([5., 3.])),
        Ok(PartialGlobalVertex { position: Some(Point::from([5., 0., 3.])) })
    );
    assert_eq!(
        PartialGlobalVertex::default()
            .from_curve_and_position(MaybePartial::Partial(PartialCurve::default()), Point::from([2.])),
        Err(ValidationError::IncompleteObject)
    );
    let circle = MaybePartial::Partial(
        PartialCurve::default()
            .with_surface(Some(surface))
            .as_circle_from_radius(Scalar::from_f64(2.))
            .unwrap(),
    );
    assert_eq!(
        PartialGlobalVertex::default().from_curve_and_position(circle, Point::from([1e30])),
        Err(ValidationError::OutOfRange)
    );
    let placed = PartialGlobalVertex::default()
        .from_curve_and_position(circle, Point::from([0.]))
        .unwrap()
        .position
        .unwrap();
    assert!(placed.distance_to(&Point::from([2., 0., 0.])) < Scalar::from_f64(1e-12));
}
