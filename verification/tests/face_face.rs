use brep_kernel::algorithms::intersect::curve_face::CurveFaceIntersection;
use brep_kernel::algorithms::intersect::face_face::FaceFaceIntersection;
use brep_kernel::objects::face::Face;
use brep_kernel::objects::surface::Surface;
use brep_kernel::objects::Objects;
use brep_kernel::partial::curve::PartialCurve;
use brep_kernel::storage::Handle;
use fj_math::Point;

fn polygon(points: [[f64; 2]; 4]) -> Vec<Point<2>> {
    points.iter().map(|point| Point::from(*point)).collect()
}

fn planes(objects: &mut Objects) -> [Handle<Surface>; 2] {
    [
        objects.surfaces.insert(Surface::xy_plane().unwrap()),
        objects.surfaces.insert(Surface::xz_plane().unwrap()),
    ]
}

fn face(surface: Handle<Surface>, points: &Vec<Point<2>>, objects: &mut Objects) -> Face {
    Face::builder(surface)
        .with_exterior_polygon_from_points(points, objects)
        .unwrap()
        .build()
        .unwrap()
}

#[test]
fn compute_no_intersection() {
    let mut objects = Objects::new();

    let points = polygon([
        [1., 1.],
        [2., 1.],
        [2., 2.],
        [1., 2.],
    ]);
    let [xy, xz] = planes(&mut objects);
    let a = face(xy, &points, &mut objects);
    let b = face(xz, &points, &mut objects);

    let intersection = FaceFaceIntersection::compute([&a, &b], &mut objects).unwrap();

    assert!(intersection.is_none());
}

#[test]
fn compute_one_intersection() {
    let mut objects = Objects::new();

    let points = polygon([
        [-1., -1.],
        [ 1., -1.],
        [ 1.,  1.],
        [-1.,  1.],
    ]);
    let surfaces = planes(&mut objects);
    let a = face(surfaces[0], &points, &mut objects);
    let b = face(surfaces[1], &points, &mut objects);

    let intersection = FaceFaceIntersection::compute([&a, &b], &mut objects)
        .unwrap()
        .expect("the faces meet");

    let expected_curves = surfaces.map(|surface| {
        PartialCurve::default()
            .with_surface(Some(surface))
            .as_line_from_points([Point::from([0., 0.]), Point::from([1., 0.])])
            .unwrap()
            .build(&mut objects)
            .unwrap()
    });
    let expected_intervals =
        CurveFaceIntersection::from_intervals(vec![[Point::from([-1.]), Point::from([1.])]]);
    for i in 0..2 {
        assert_eq!(
            intersection.intersection_curves[i].object.path,
            expected_curves[i].object.path
        );
        assert_eq!(
            intersection.intersection_curves[i].object.surface,
            expected_curves[i].object.surface
        );
    }
    assert_eq!(intersection.intersection_intervals, expected_intervals);
    assert_eq!(
        intersection.intersection_curves[0].object.global_form,
        intersection.intersection_curves[1].object.global_form
    );
}
