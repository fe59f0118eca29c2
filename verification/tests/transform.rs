use brep_kernel::builder::FaceBuilder;
use brep_kernel::objects::curve::GlobalCurve;
use brep_kernel::objects::face::{default_color, Face};
use brep_kernel::objects::sketch::{Faces, Sketch};
use brep_kernel::objects::surface::Surface;
use brep_kernel::objects::vertex::GlobalVertex;
use brep_kernel::objects::Objects;
use brep_kernel::partial::curve::PartialCurve;
use brep_kernel::partial::cycle::PartialCycle;
use brep_kernel::partial::edge::{PartialGlobalEdge, PartialHalfEdge};
use brep_kernel::partial::MaybePartial;
use brep_kernel::path::{GlobalPath, SurfacePath};
use brep_kernel::storage::Handle;
use brep_kernel::validate::ValidationError;
use fj_interop::mesh::Color;
use fj_math::{Circle, Line, Point, Scalar, Transform, Vector};

fn square(half: f64) -> Vec<Point<2>> {
    vec![
        Point::from([-half, -half]),
        Point::from([half, -half]),
        Point::from([half, half]),
        Point::from([-half, half]),
    ]
}

fn face_with_hole(objects: &mut Objects) -> Face {
    let surface = objects.surfaces.insert(Surface::xy_plane().unwrap());
    Face::builder(surface)
        .with_exterior_polygon_from_points(&square(2.), objects)
        .unwrap()
        .with_interior_polygon_from_points(&square(1.), objects)
        .unwrap()
        .with_color(Color([0, 255, 0, 255]))
        .build()
        .unwrap()
}

#[test]
fn path_transform_keeps_the_kind_of_path() {
    let shift = Transform::translation([1., 2., 3.]);
    let line = GlobalPath::x_axis().unwrap();
    assert_eq!(
        line.transform(&shift),
        Ok(GlobalPath::Line(Line::from_origin_and_direction(
            Point::from([1., 2., 3.]),
            Vector::from([1., 0., 0.])
        )))
    );
    let circle =
        GlobalPath::Circle(Circle::from_center_and_radius(Point::origin(), Scalar::from_f64(2.)));
    assert_eq!(
        circle.transform(&shift),
        Ok(GlobalPath::Circle(Circle::from_center_and_radius(
            Point::from([1., 2., 3.]),
            Scalar::from_f64(2.)
        )))
    );
    assert_eq!(
        GlobalPath::y_axis().unwrap().origin(),
        Ok(Point::from([0., 0., 0.]))
    );
    assert_eq!(circle.origin(), Ok(Point::from([2., 0., 0.])));
    assert_eq!(
        GlobalPath::z_axis().unwrap().point_from_path_coords(Point::from([2.])),
        Ok(Point::from([0., 0., 2.]))
    );
    let start = circle.point_from_path_coords(Point::from([0.])).unwrap();
    assert!(start.distance_to(&Point::from([2., 0., 0.])) < Scalar::from_f64(1e-12));
    assert_eq!(
        circle.point_from_path_coords(Point::from([1e30])),
        Err(ValidationError::OutOfRange)
    );
}

#[test]
fn path_transform_out_of_range_is_refused() {
    let far = Transform::translation([1e30, 0., 0.]);
    assert_eq!(GlobalPath::x_axis().unwrap().transform(&far), Err(ValidationError::OutOfRange));
}

#[test]
fn surface_transform_inserts_the_image() {
    let mut objects = Objects::new();
    let surface = objects.surfaces.insert(Surface::xy_plane().unwrap());
    let shift = Transform::translation([0., 0., 3.]);
    let image = surface.transform(&shift, &mut objects).unwrap();
    assert_eq!(image.id, 1);
    assert_eq!(image.object.point_from_surface_coords(Point::from([1., 2.])), Ok(Point::from([1., 2., 3.])));
    assert_eq!(objects.surfaces.len(), 2);
    assert_eq!(objects.surfaces.get(0), Some(surface));
    let far = Transform::translation([1e30, 0., 0.]);
    assert_eq!(surface.transform(&far, &mut objects), Err(ValidationError::OutOfRange));
    assert_eq!(objects.surfaces.len(), 2);
}

#[test]
fn global_edge_transform_moves_the_vertices_to_a_new_curve() {
    let mut objects = Objects::new();
    let curve = objects.global_curves.insert(GlobalCurve {});
    let a = objects.global_vertices.insert(GlobalVertex::from_position(Point::from([0., 0., 0.])));
    let b = objects.global_vertices.insert(GlobalVertex::from_position(Point::from([1., 0., 0.])));
    let shift = Transform::translation([1., 2., 3.]);
    let image = PartialGlobalEdge::default()
        .with_curve(Some(curve))
        .with_vertices(Some([a, b]))
        .transform(&shift, &mut objects)
        .unwrap();
    assert_eq!(image.curve, Some(Handle { id: 1, object: GlobalCurve {} }));
    let [a_image, b_image] = image.vertices.unwrap();
    assert_eq!(a_image.object.position, Point::from([1., 2., 3.]));
    assert_eq!(b_image.object.position, Point::from([2., 2., 3.]));
    assert_eq!((a_image.id, b_image.id), (2, 3));
    assert_eq!(a.object.position, Point::from([0., 0., 0.]));
    let empty = PartialGlobalEdge::default().transform(&shift, &mut objects).unwrap();
    assert_eq!(empty, PartialGlobalEdge::default());
}

#[test]
fn half_edge_transform_keeps_what_the_half_edge_shares() {
    let mut objects = Objects::new();
    let surface = objects.surfaces.insert(Surface::xy_plane().unwrap());
    let half_edge = PartialHalfEdge::default()
        .with_surface(Some(surface))
        .as_line_segment_from_points([Point::from([0., 0.]), Point::from([1., 0.])])
        .unwrap()
        .build(&mut objects)
        .unwrap();
    let shift = Transform::translation([0., 0., 3.]);
    let image = PartialHalfEdge::from(&half_edge).transform(&shift, &mut objects).unwrap();
    assert_eq!(image.surface, None);
    let curve = match image.curve {
        Some(MaybePartial::Partial(curve)) => curve,
        _ => panic!("the image of the curve is partial"),
    };
    assert_eq!(curve.path, Some(half_edge.curve().object.path));
    assert_ne!(curve.global_form, Some(half_edge.curve().object.global_form));
    for vertex in image.vertices.unwrap() {
        match vertex {
            MaybePartial::Partial(vertex) => assert_eq!(vertex.curve, image.curve),
            MaybePartial::Full(_) => panic!("the image of a vertex is partial"),
        }
    }
    match image.global_form {
        Some(MaybePartial::Partial(global_form)) => {
            assert_eq!(global_form.curve, curve.global_form);
            let [a, b] = global_form.vertices.unwrap();
            assert_eq!(a.object.position, Point::from([0., 0., 3.]));
            assert_eq!(b.object.position, Point::from([1., 0., 3.]));
        }
        _ => panic!("the image of the global form is partial"),
    }
    let target = surface.transform(&shift, &mut objects).unwrap();
    let built = image.with_surface(Some(target)).build(&mut objects).unwrap();
    assert_eq!(built.curve().object.surface, target);
    assert_eq!(built.vertices[0].position, half_edge.vertices[0].position);
    assert_eq!(built.vertices[0].surface_form.surface, target);
    assert_eq!(built.vertices[0].global_form().object.position, Point::from([0., 0., 3.]));
    assert_eq!(built.vertices[1].global_form().object.position, Point::from([1., 0., 3.]));
    assert_eq!(built.global_form.curve, built.curve().object.global_form);
}

#[test]
fn half_edge_transform_onto_a_surface_does_not_transform_the_surface_again() {
    let mut objects = Objects::new();
    let surface = objects.surfaces.insert(Surface::xy_plane().unwrap());
    let half_edge = PartialHalfEdge::default()
        .with_surface(Some(surface))
        .as_line_segment_from_points([Point::from([0., 0.]), Point::from([1., 0.])])
        .unwrap()
        .build(&mut objects)
        .unwrap();
    let shift = Transform::translation([0., 0., 3.]);
    let target = surface.transform(&shift, &mut objects).unwrap();
    let surfaces = objects.surfaces.len();
    let image = PartialHalfEdge::from(&half_edge)
        .transform_onto(&shift, Some(target), &mut objects)
        .unwrap();
    assert_eq!(objects.surfaces.len(), surfaces);
    assert_eq!(image.surface, Some(target));
    match image.curve {
        Some(MaybePartial::Partial(curve)) => assert_eq!(curve.surface, Some(target)),
        _ => panic!("the image of the curve is partial"),
    }
    let built = image.build(&mut objects).unwrap();
    assert_eq!(objects.surfaces.len(), surfaces);
    assert_eq!(built.curve().object.surface, target);
    assert_eq!(built.vertices[1].surface_form.surface, target);
    assert_eq!(built.vertices[1].global_form().object.position, Point::from([1., 0., 3.]));
    let alone = PartialHalfEdge::from(&half_edge).transform(&shift, &mut objects).unwrap();
    assert_eq!(alone.surface, None);
    assert_eq!(objects.surfaces.len(), surfaces + 1);
}

#[test]
fn half_edge_transform_out_of_range_is_refused() {
    let mut objects = Objects::new();
    let surface = objects.surfaces.insert(Surface::xy_plane().unwrap());
    let edge = PartialHalfEdge::default()
        .with_surface(Some(surface))
        .as_line_segment_from_points([Point::from([0., 0.]), Point::from([1., 0.])])
        .unwrap();
    let far = Transform::translation([1e30, 0., 0.]);
    assert_eq!(edge.transform(&far, &mut objects), Err(ValidationError::OutOfRange));
}

#[test]
fn half_edge_transform_of_nothing_is_nearly_nothing() {
    let mut objects = Objects::new();
    let shift = Transform::translation([0., 0., 3.]);
    let image = PartialHalfEdge::default().transform(&shift, &mut objects).unwrap();
    assert_eq!(image.surface, None);
    assert_eq!(image.curve, Some(MaybePartial::Partial(PartialCurve::default())));
    assert_eq!(
        image.global_form,
        Some(MaybePartial::Partial(PartialGlobalEdge::default()))
    );
    assert_eq!(objects.surfaces.len(), 0);
    assert_eq!(objects.global_curves.len(), 0);
}

#[test]
fn face_transform_shares_one_surface() {
    let mut objects = Objects::new();
    let face = face_with_hole(&mut objects);
    let surfaces = objects.surfaces.len();
    let shift = Transform::translation([0., 0., 3.]);
    let image = face.transform(&shift, &mut objects).unwrap();
    assert_eq!(image.surface.id, surfaces);
    assert_eq!(objects.surfaces.len(), surfaces + 1);
    assert_eq!(objects.surfaces.get(surfaces), Some(image.surface));
    assert_ne!(image.surface, face.surface);
    assert_eq!(image.exterior.surface, image.surface);
    assert_eq!(image.interiors.len(), 1);
    for cycle in image.interiors.iter().chain([&image.exterior]) {
        assert_eq!(cycle.surface, image.surface);
        assert_eq!(cycle.half_edges.len(), 4);
        for half_edge in cycle.half_edges.iter() {
            assert_eq!(half_edge.curve().object.surface, image.surface);
            for vertex in half_edge.vertices.iter() {
                assert_eq!(vertex.surface_form.surface, image.surface);
                assert_eq!(vertex.global_form().object.position.coords.components[2], Scalar::from_f64(3.));
            }
        }
    }
    assert_eq!(image.color, Color([0, 255, 0, 255]));
    assert_eq!(
        image.exterior.half_edges[0].vertices[0].global_form().object.position,
        Point::from([-2., -2., 3.])
    );
    assert_eq!(face.exterior.half_edges[0].vertices[0].global_form().object.position, Point::from([-2., -2., 0.]));
}

#[test]
fn face_transform_out_of_range_is_refused() {
    let mut objects = Objects::new();
    let face = face_with_hole(&mut objects);
    let far = Transform::translation([1e30, 0., 0.]);
    assert_eq!(face.transform(&far, &mut objects), Err(ValidationError::OutOfRange));
}

#[test]
fn sketch_transform_transforms_each_face() {
    let mut objects = Objects::new();
    let mut faces = Faces::new();
    faces.push(face_with_hole(&mut objects));
    faces.push(face_with_hole(&mut objects));
    assert_eq!(faces.len(), 2);
    let sketch = Sketch::new().with_faces(faces);
    let shift = Transform::translation([0., 0., 3.]);
    let image = sketch.transform(&shift, &mut objects).unwrap();
    let images = image.into_faces();
    assert_eq!(images.len(), 2);
    for face in images.inner.iter() {
        assert_eq!(face.exterior.surface, face.surface);
        assert_eq!(face.interiors[0].surface, face.surface);
        assert_eq!(
            face.exterior.half_edges[1].vertices[0].global_form().object.position,
            Point::from([2., -2., 3.])
        );
    }
    assert_ne!(images.inner[0].surface, images.inner[1].surface);
    let shifted = sketch.faces.transform(&shift, &mut objects).unwrap();
    assert_eq!(shifted.len(), 2);
    assert_eq!(Sketch::new().transform(&shift, &mut objects).unwrap().into_faces().len(), 0);
}

#[test]
fn face_builder_builds_polygons_on_its_surface() {
    let mut objects = Objects::new();
    let surface = objects.surfaces.insert(Surface::xz_plane().unwrap());
    let face = Face::builder(surface)
        .with_exterior_polygon_from_points(&square(1.), &mut objects)
        .unwrap()
        .build()
        .unwrap();
    assert_eq!(face.surface, surface);
    assert_eq!(face.color, Color::default());
    assert_eq!(face.color, default_color());
    assert_eq!(face.exterior.half_edges.len(), 4);
    let corners: Vec<Point<3>> = face
        .exterior
        .half_edges
        .iter()
        .map(|half_edge| half_edge.vertices[0].global_form().object.position)
        .collect();
    assert_eq!(
        corners,
        vec![
            Point::from([-1., 0., -1.]),
            Point::from([1., 0., -1.]),
            Point::from([1., 0., 1.]),
            Point::from([-1., 0., 1.]),
        ]
    );
    for (i, half_edge) in face.exterior.half_edges.iter().enumerate() {
        let next = &face.exterior.half_edges[(i + 1) % 4];
        assert_eq!(half_edge.vertices[1].surface_form.position, next.vertices[0].surface_form.position);
        assert_eq!(
            half_edge.curve().object.path,
            SurfacePath::Line(Line::from_points([
                half_edge.vertices[0].surface_form.position,
                half_edge.vertices[1].surface_form.position
            ]))
        );
    }
}

#[test]
fn face_builder_says_what_is_missing() {
    let mut objects = Objects::new();
    let surface = objects.surfaces.insert(Surface::xy_plane().unwrap());
    let other = objects.surfaces.insert(Surface::xz_plane().unwrap());
    assert_eq!(Face::builder(surface).build(), Err(ValidationError::IncompleteObject));
    let without_surface =
        FaceBuilder { surface: None, exterior: None, interiors: Vec::new(), color: None };
    assert!(matches!(
        without_surface.with_exterior_polygon_from_points(&square(1.), &mut objects),
        Err(ValidationError::IncompleteObject)
    ));
    let doubled = vec![Point::from([0., 0.]), Point::from([0., 0.]), Point::from([1., 0.])];
    assert!(matches!(
        Face::builder(surface).with_exterior_polygon_from_points(&doubled, &mut objects),
        Err(ValidationError::Degenerate)
    ));
    let elsewhere = Face::builder(surface)
        .with_exterior_polygon_from_points(&square(2.), &mut objects)
        .unwrap()
        .with_surface(other)
        .with_interior_polygon_from_points(&square(1.), &mut objects)
        .unwrap()
        .build();
    assert_eq!(elsewhere, Err(ValidationError::Mismatch));
}

#[test]
fn partial_cycle_builds_on_its_surface() {
    let mut objects = Objects::new();
    let surface = objects.surfaces.insert(Surface::xy_plane().unwrap());
    let other = objects.surfaces.insert(Surface::xz_plane().unwrap());
    let chain = PartialCycle::default()
        .with_surface(Some(surface))
        .with_poly_chain_from_points(&square(1.))
        .unwrap();
    assert_eq!(chain.half_edges.len(), 3);
    let closed = chain.close_with_line_segment().unwrap();
    assert_eq!(closed.half_edges.len(), 4);
    let cycle = closed.build(&mut objects).unwrap();
    assert_eq!(cycle.surface, surface);
    assert_eq!(cycle.duplicate(), cycle);
    let again = PartialCycle::from(&cycle);
    assert_eq!(again.surface, Some(surface));
    assert_eq!(again.build(&mut objects), Ok(cycle.duplicate()));
    assert_eq!(
        PartialCycle::from(&cycle).with_surface(Some(other)).build(&mut objects),
        Err(ValidationError::Mismatch)
    );
    assert_eq!(
        PartialCycle::default().with_half_edges(vec![]).build(&mut objects),
        Err(ValidationError::IncompleteObject)
    );
    let empty = PartialCycle::default().close_with_line_segment().unwrap();
    assert_eq!(empty.half_edges.len(), 0);
}
