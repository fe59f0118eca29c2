use brep_kernel::algorithms::intersect::curve_edge::CurveEdgeIntersection;
use brep_kernel::algorithms::intersect::curve_face::{sort_points, CurveFaceIntersection};
use brep_kernel::algorithms::intersect::face_face::FaceFaceIntersection;
use brep_kernel::algorithms::intersect::line_segment::{
    is_between, is_in_box, LineSegmentIntersection,
};
use brep_kernel::algorithms::intersect::surface_surface::{
    forward, meeting_lines, plane_of, SurfaceSurfaceIntersection,
};
use brep_kernel::objects::face::Face;
use brep_kernel::objects::surface::Surface;
use brep_kernel::objects::Objects;
use brep_kernel::partial::curve::PartialCurve;
use brep_kernel::partial::edge::PartialHalfEdge;
use brep_kernel::path::{GlobalPath, SurfacePath};
use brep_kernel::storage::Handle;
use brep_kernel::validate::ValidationError;
use fj_math::{Circle, Line, Point, Scalar, Vector};

fn intervals(list: &[[f64; 2]]) -> CurveFaceIntersection {
    CurveFaceIntersection::from_intervals(
        list.iter().map(|[start, end]| [Point::from([*start]), Point::from([*end])]).collect(),
    )
}

fn square(low: f64, high: f64) -> Vec<Point<2>> {
    vec![
        Point::from([low, low]),
        Point::from([high, low]),
        Point::from([high, high]),
        Point::from([low, high]),
    ]
}

fn face(surface: Handle<Surface>, points: &Vec<Point<2>>, objects: &mut Objects) -> Face {
    Face::builder(surface)
        .with_exterior_polygon_from_points(points, objects)
        .unwrap()
        .build()
        .unwrap()
}

#[test]
fn merge_keeps_what_both_cover() {
    let a = intervals(&[
        [0., 1.],
        [2., 5.],
        [7., 8.],
        [10., 12.],
        [14., 16.],
        [18., 21.],
        [23., 25.],
        [26., 28.],
        [31., 35.],
    ]);
    let b = intervals(&[
        [0., 1.],
        [3., 4.],
        [6., 9.],
        [9.5, 11.],
        [13., 15.],
        [17., 19.],
        [20., 22.],
        [24., 27.],
        [30., 32.],
        [33., 34.],
    ]);
    let expected = intervals(&[
        [0., 1.],
        [3., 4.],
        [7., 8.],
        [10., 11.],
        [14., 15.],
        [18., 19.],
        [20., 21.],
        [24., 25.],
        [26., 27.],
        [31., 32.],
        [33., 34.],
    ]);
    assert_eq!(a.merge(&b), expected);
    assert_eq!(b.merge(&a), expected);
}

#[test]
fn merge_keeps_stretches_that_only_touch() {
    let a = intervals(&[[0., 1.], [3., 4.]]);
    let b = intervals(&[[1., 3.]]);
    let expected = intervals(&[[1., 1.], [3., 3.]]);
    assert_eq!(a.merge(&b), expected);
    assert_eq!(b.merge(&a), expected);
    assert!(!a.merge(&b).is_empty());
}

#[test]
fn merge_with_nothing_is_nothing() {
    let a = intervals(&[[0., 1.]]);
    let nothing = intervals(&[]);
    assert!(a.merge(&nothing).is_empty());
    assert!(nothing.merge(&a).is_empty());
    assert!(a.merge(&intervals(&[[2., 3.]])).is_empty());
    assert!(!a.is_empty());
}

#[test]
fn sort_puts_points_in_ascending_order() {
    let points: Vec<Point<1>> =
        [3., -1., 2., -1., 0.].iter().map(|t| Point::from([*t])).collect();
    let sorted: Vec<Point<1>> =
        [-1., -1., 0., 2., 3.].iter().map(|t| Point::from([*t])).collect();
    assert_eq!(sort_points(&points), sorted);
    assert_eq!(sort_points(&Vec::new()), Vec::new());
}

#[test]
fn box_holds_what_lies_between_its_corners() {
    let s = Scalar::from_f64;
    assert!(is_between(s(1.), s(3.), s(2.)));
    assert!(is_between(s(3.), s(1.), s(2.)));
    assert!(is_between(s(1.), s(3.), s(3.)));
    assert!(!is_between(s(1.), s(3.), s(4.)));
    assert!(is_in_box(&Point::from([0., 2.]), &Point::from([2., 0.]), &Point::from([1., 1.])));
    assert!(!is_in_box(&Point::from([0., 2.]), &Point::from([2., 0.]), &Point::from([1., 3.])));
}

#[test]
fn line_meets_segment_in_a_point() {
    let line = Line::from_points([[0., 0.], [1., 0.]]);
    assert_eq!(
        LineSegmentIntersection::compute(&line, [Point::from([1., -1.]), Point::from([1., 1.])]),
        Ok(Some(LineSegmentIntersection::Point { point_on_line: Point::from([1.]) }))
    );
    assert_eq!(
        LineSegmentIntersection::compute(&line, [Point::from([0., -1.]), Point::from([2., 1.])]),
        Ok(Some(LineSegmentIntersection::Point { point_on_line: Point::from([1.]) }))
    );
    assert_eq!(
        LineSegmentIntersection::compute(&line, [Point::from([-3., 3.]), Point::from([-2., -2.])]),
        Ok(Some(LineSegmentIntersection::Point { point_on_line: Point::from([-2.4]) }))
    );
}

#[test]
fn line_misses_segment() {
    let line = Line::from_points([[0., 0.], [1., 0.]]);
    assert_eq!(
        LineSegmentIntersection::compute(&line, [Point::from([1., 1.]), Point::from([1., 2.])]),
        Ok(None)
    );
    assert_eq!(
        LineSegmentIntersection::compute(&line, [Point::from([0., 1.]), Point::from([2., 1.])]),
        Ok(None)
    );
}

#[test]
fn line_holds_segment() {
    let line = Line::from_points([[0., 0.], [2., 0.]]);
    assert_eq!(
        LineSegmentIntersection::compute(&line, [Point::from([2., 0.]), Point::from([6., 0.])]),
        Ok(Some(LineSegmentIntersection::Coincident {
            points_on_line: [Point::from([1.]), Point::from([3.])]
        }))
    );
}

#[test]
fn line_and_segment_out_of_range_are_refused() {
    let line = Line::from_points([[0., 0.], [1., 0.]]);
    assert_eq!(
        LineSegmentIntersection::compute(&line, [Point::from([1e30, -1.]), Point::from([1., 1.])]),
        Err(ValidationError::OutOfRange)
    );
}

#[test]
fn curve_meets_half_edge() {
    let mut objects = Objects::new();
    let surface = objects.surfaces.insert(Surface::xy_plane().unwrap());
    let curve = PartialCurve::default()
        .with_surface(Some(surface))
        .as_line_from_points([Point::from([0., 0.]), Point::from([1., 0.])])
        .unwrap()
        .build(&mut objects)
        .unwrap();
    let crossing = PartialHalfEdge::default()
        .with_surface(Some(surface))
        .as_line_segment_from_points([Point::from([1., -1.]), Point::from([1., 1.])])
        .unwrap()
        .build(&mut objects)
        .unwrap();
    assert_eq!(
        CurveEdgeIntersection::compute(&curve.object, &crossing),
        Ok(Some(CurveEdgeIntersection::Point { point_on_curve: Point::from([1.]) }))
    );
    let along = PartialHalfEdge::default()
        .with_surface(Some(surface))
        .as_line_segment_from_points([Point::from([-1., 0.]), Point::from([1., 0.])])
        .unwrap()
        .build(&mut objects)
        .unwrap();
    assert_eq!(
        CurveEdgeIntersection::compute(&curve.object, &along),
        Ok(Some(CurveEdgeIntersection::Coincident {
            points_on_curve: [Point::from([-1.]), Point::from([1.])]
        }))
    );
    let apart = PartialHalfEdge::default()
        .with_surface(Some(surface))
        .as_line_segment_from_points([Point::from([-1., 1.]), Point::from([1., 1.])])
        .unwrap()
        .build(&mut objects)
        .unwrap();
    assert_eq!(CurveEdgeIntersection::compute(&curve.object, &apart), Ok(None));
    let round = PartialHalfEdge::default()
        .with_surface(Some(surface))
        .as_circle_from_radius(Scalar::from_f64(1.))
        .unwrap()
        .build(&mut objects)
        .unwrap();
    assert_eq!(
        CurveEdgeIntersection::compute(&curve.object, &round),
        Err(ValidationError::Unsupported)
    );
    assert_eq!(
        CurveEdgeIntersection::compute(&round.curve().object, &crossing),
        Err(ValidationError::Unsupported)
    );
}

#[test]
fn curve_runs_through_face_with_hole() {
    let mut objects = Objects::new();
    let surface = objects.surfaces.insert(Surface::xy_plane().unwrap());
    let curve = PartialCurve::default()
        .with_surface(Some(surface))
        .as_line_from_points([Point::from([-3., 0.]), Point::from([-2., 0.])])
        .unwrap()
        .build(&mut objects)
        .unwrap();
    let interior = vec![
        Point::from([-1., -1.]),
        Point::from([-1., 1.]),
        Point::from([1., 1.]),
        Point::from([1., -1.]),
    ];
    let face = Face::builder(surface)
        .with_exterior_polygon_from_points(&square(-2., 2.), &mut objects)
        .unwrap()
        .with_interior_polygon_from_points(&interior, &mut objects)
        .unwrap()
        .build()
        .unwrap();
    assert_eq!(
        CurveFaceIntersection::compute(&curve.object, &face),
        Ok(intervals(&[[1., 2.], [4., 5.]]))
    );
}

#[test]
fn curve_through_a_corner_crosses_two_half_edges_at_once() {
    let mut objects = Objects::new();
    let surface = objects.surfaces.insert(Surface::xy_plane().unwrap());
    let curve = PartialCurve::default()
        .with_surface(Some(surface))
        .as_line_from_points([Point::from([0., 2.]), Point::from([1., 1.])])
        .unwrap()
        .build(&mut objects)
        .unwrap();
    let face = face(surface, &square(0., 1.), &mut objects);
    assert_eq!(
        CurveFaceIntersection::compute(&curve.object, &face),
        Ok(intervals(&[[1., 1.]]))
    );
}

#[test]
fn curve_with_an_odd_number_of_crossings_bounds_nothing() {
    let mut objects = Objects::new();
    let surface = objects.surfaces.insert(Surface::xy_plane().unwrap());
    let curve = PartialCurve::default()
        .with_surface(Some(surface))
        .as_line_from_points([Point::from([0., 0.5]), Point::from([1., 0.5])])
        .unwrap()
        .build(&mut objects)
        .unwrap();
    let open = brep_kernel::partial::cycle::PartialCycle::default()
        .with_surface(Some(surface))
        .with_poly_chain_from_points(&vec![Point::from([0., 0.]), Point::from([0., 1.])])
        .unwrap()
        .build(&mut objects)
        .unwrap();
    let face = Face::from_exterior(open);
    assert_eq!(
        CurveFaceIntersection::compute(&curve.object, &face),
        Err(ValidationError::Degenerate)
    );
}

#[test]
fn planes_meet_in_a_line() {
    let mut objects = Objects::new();
    let xy = objects.surfaces.insert(Surface::xy_plane().unwrap());
    let xz = objects.surfaces.insert(Surface::xz_plane().unwrap());
    let found = SurfaceSurfaceIntersection::compute([xy, xz], &mut objects)
        .unwrap()
        .expect("the planes meet");
    let expected = SurfacePath::Line(Line::from_points([[0., 0.], [1., 0.]]));
    assert_eq!(found.intersection_curves[0].object.path, expected);
    assert_eq!(found.intersection_curves[1].object.path, expected);
    assert_eq!(found.intersection_curves[0].object.surface, xy);
    assert_eq!(found.intersection_curves[1].object.surface, xz);
    assert_eq!(
        found.intersection_curves[0].object.global_form,
        found.intersection_curves[1].object.global_form
    );
    assert_eq!(objects.global_curves.len(), 1);
    assert_eq!(objects.curves.len(), 2);
    assert_eq!(objects.curves.get(1), Some(found.intersection_curves[1]));
}

#[test]
fn parallel_planes_do_not_meet() {
    let mut objects = Objects::new();
    let xy = objects.surfaces.insert(Surface::xy_plane().unwrap());
    let above = xy
        .transform(&fj_math::Transform::translation([0., 0., 1.]), &mut objects)
        .unwrap();
    assert_eq!(SurfaceSurfaceIntersection::compute([xy, above], &mut objects), Ok(None));
    assert_eq!(SurfaceSurfaceIntersection::compute([xy, xy], &mut objects), Ok(None));
    assert_eq!(objects.curves.len(), 0);
    assert_eq!(objects.global_curves.len(), 0);
    assert_eq!(
        meeting_lines(&plane_of(&xy.object).unwrap(), &plane_of(&above.object).unwrap()),
        Ok(None)
    );
}

#[test]
fn only_planes_are_intersected() {
    let mut objects = Objects::new();
    let xy = objects.surfaces.insert(Surface::xy_plane().unwrap());
    let cylinder = objects.surfaces.insert(Surface::new(
        GlobalPath::Circle(Circle::from_center_and_radius(Point::origin(), Scalar::from_f64(1.))),
        Vector::from([0., 0., 1.]),
    ));
    assert_eq!(
        SurfaceSurfaceIntersection::compute([xy, cylinder], &mut objects),
        Err(ValidationError::Unsupported)
    );
    assert_eq!(
        SurfaceSurfaceIntersection::compute([cylinder, xy], &mut objects),
        Err(ValidationError::Unsupported)
    );
    let collapsed = objects.surfaces.insert(Surface::new(
        GlobalPath::x_axis().unwrap(),
        Vector::from([2., 0., 0.]),
    ));
    assert_eq!(
        SurfaceSurfaceIntersection::compute([xy, collapsed], &mut objects),
        Err(ValidationError::Degenerate)
    );
    assert_eq!(plane_of(&cylinder.object), Err(ValidationError::Unsupported));
}

#[test]
fn face_intersection_does_not_depend_on_the_order_of_the_faces() {
    let mut objects = Objects::new();
    let xy = objects.surfaces.insert(Surface::xy_plane().unwrap());
    let xz = objects.surfaces.insert(Surface::xz_plane().unwrap());
    let a = face(xy, &square(-1., 1.), &mut objects);
    let b = face(xz, &square(-2., 2.), &mut objects);
    let ahead = FaceFaceIntersection::compute([&a, &b], &mut objects).unwrap().unwrap();
    let behind = FaceFaceIntersection::compute([&b, &a], &mut objects).unwrap().unwrap();
    assert_eq!(ahead.intersection_intervals, intervals(&[[-1., 1.]]));
    assert_eq!(ahead.intersection_intervals, behind.intersection_intervals);
    assert_eq!(
        behind.intersection_curves[0].object.global_form,
        behind.intersection_curves[1].object.global_form
    );
    assert_eq!(behind.intersection_curves[0].object.surface, xz);
    assert_eq!(behind.intersection_curves[1].object.surface, xy);
}

#[test]
fn faces_on_parallel_planes_do_not_meet() {
    let mut objects = Objects::new();
    let xy = objects.surfaces.insert(Surface::xy_plane().unwrap());
    let a = face(xy, &square(-1., 1.), &mut objects);
    let b = a.transform(&fj_math::Transform::translation([0., 0., 1.]), &mut objects).unwrap();
    let curves = objects.curves.len();
    assert!(matches!(FaceFaceIntersection::compute([&a, &b], &mut objects), Ok(None)));
    assert_eq!(objects.curves.len(), curves);
}

#[test]
fn faces_on_curved_surfaces_are_not_intersected() {
    let mut objects = Objects::new();
    let xy = objects.surfaces.insert(Surface::xy_plane().unwrap());
    let cylinder = objects.surfaces.insert(Surface::new(
        GlobalPath::Circle(Circle::from_center_and_radius(Point::origin(), Scalar::from_f64(1.))),
        Vector::from([0., 0., 1.]),
    ));
    let a = face(xy, &square(-1., 1.), &mut objects);
    let b = face(cylinder, &square(1., 2.), &mut objects);
    assert!(matches!(
        FaceFaceIntersection::compute([&a, &b], &mut objects),
        Err(ValidationError::Unsupported)
    ));
}

#[test]
fn face_intersection_of_faces_off_center_does_not_depend_on_their_order() {
    let mut objects = Objects::new();
    let xy = objects.surfaces.insert(Surface::xy_plane().unwrap());
    let xz = objects.surfaces.insert(Surface::xz_plane().unwrap());
    let points = vec![
        Point::from([1., -1.]),
        Point::from([2., -1.]),
        Point::from([2., 1.]),
        Point::from([1., 1.]),
    ];
    let wide = vec![
        Point::from([-3., -1.]),
        Point::from([1.5, -1.]),
        Point::from([1.5, 1.]),
        Point::from([-3., 1.]),
    ];
    let a = face(xy, &points, &mut objects);
    let b = face(xz, &wide, &mut objects);
    let ahead = FaceFaceIntersection::compute([&a, &b], &mut objects).unwrap().unwrap();
    let behind = FaceFaceIntersection::compute([&b, &a], &mut objects).unwrap().unwrap();
    assert_eq!(ahead.intersection_intervals, intervals(&[[1., 1.5]]));
    assert_eq!(behind.intersection_intervals, intervals(&[[1., 1.5]]));
    let line = SurfacePath::Line(Line::from_points([[0., 0.], [1., 0.]]));
    for found in [&ahead, &behind] {
        assert_eq!(found.intersection_curves[0].object.path, line);
        assert_eq!(found.intersection_curves[1].object.path, line);
        assert_eq!(
            found.intersection_curves[0].object.global_form,
            found.intersection_curves[1].object.global_form
        );
    }
    assert_eq!(ahead.intersection_curves[0].object.surface, xy);
    assert_eq!(behind.intersection_curves[0].object.surface, xz);
    assert_ne!(
        ahead.intersection_curves[0].object.global_form,
        behind.intersection_curves[0].object.global_form
    );
}

#[test]
fn meeting_line_points_forward() {
    assert_eq!(forward(Vector::from([-1., 2., 3.])), Ok(Vector::from([1., -2., -3.])));
    assert_eq!(forward(Vector::from([0., -2., 3.])), Ok(Vector::from([0., 2., -3.])));
    assert_eq!(forward(Vector::from([0., 0., -3.])), Ok(Vector::from([0., 0., 3.])));
    assert_eq!(forward(Vector::from([1., -2., -3.])), Ok(Vector::from([1., -2., -3.])));
    assert_eq!(forward(Vector::from([0., 0., 0.])), Ok(Vector::from([0., 0., 0.])));
    assert_eq!(forward(Vector::from([-1e30, 0., 0.])), Err(ValidationError::OutOfRange));
}
