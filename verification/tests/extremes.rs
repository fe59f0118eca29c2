use brep_kernel::algorithms::intersect::line_segment::LineSegmentIntersection;
use brep_kernel::algorithms::intersect::surface_surface::{forward, meeting_lines};
use brep_kernel::math::circle::{circle2_from_radius, point_on_circle2, point_on_circle3};
use brep_kernel::math::line::{
    coords_on_line2, line2_from_points, line3_from_origin_and_direction, point_on_line2,
    point_on_line3, vector_on_line3,
};
use brep_kernel::math::plane::Plane;
use brep_kernel::math::scalar::{divide, equal, in_range, less, negate, LIMIT_BITS};
use brep_kernel::math::transform::{
    transform_circle, transform_is_in_range, transform_line, transform_point, transform_vector,
};
use brep_kernel::math::vector::{
    cross3, divide3, dot2, dot3, length2, length3, offset_between2, scale3, subtract3, translate3,
};
use brep_kernel::objects::surface::Surface;
use brep_kernel::path::GlobalPath;
use fj_math::{Circle, Line, Point, Scalar, Transform, Vector};

fn limit() -> f64 {
    f64::from_bits(LIMIT_BITS)
}

fn numbers() -> Vec<f64> {
    vec![
        0.,
        -0.,
        5e-324,
        -5e-324,
        1e-200,
        -1e-160,
        1.,
        -3.75,
        limit(),
        -limit(),
        f64::from_bits(LIMIT_BITS + 1),
        -1e300,
        f64::INFINITY,
        f64::NEG_INFINITY,
    ]
}

fn few() -> Vec<f64> {
    vec![0., -5e-324, 1e-200, 1., -limit(), f64::INFINITY]
}

fn vectors2(of: &[f64]) -> Vec<Vector<2>> {
    let mut all = Vec::new();
    for a in of {
        for b in of {
            all.push(Vector::from([*a, *b]));
        }
    }
    all
}

fn vectors3(of: &[f64]) -> Vec<Vector<3>> {
    let mut all = Vec::new();
    for a in of {
        for b in of {
            for c in of {
                all.push(Vector::from([*a, *b, *c]));
            }
        }
    }
    all
}

fn s(value: f64) -> Scalar {
    Scalar::from_f64(value)
}

#[test]
fn scalar_operations_return_for_every_number() {
    for a in numbers() {
        assert_eq!(in_range(s(a)), a.abs() <= limit());
        assert_eq!(negate(s(a)), s(-a));
        for b in numbers() {
            assert_eq!(less(s(a), s(b)), a < b);
            assert_eq!(equal(s(a), s(b)), a == b);
            let quotient = divide(s(a), s(b));
            assert_eq!(quotient.is_ok(), a.abs() <= limit() && b.abs() <= limit() && b != 0.);
            if let Ok(quotient) = quotient {
                assert_eq!(quotient, s(a / b));
            }
        }
    }
}

#[test]
fn plane_vector_operations_return_for_every_vector() {
    let all = vectors2(&numbers());
    for a in &all {
        let _ = length2(*a);
        for b in &all {
            let _ = dot2(*a, *b);
            let _ = offset_between2(Point { coords: *a }, Point { coords: *b });
        }
    }
}

#[test]
fn space_vector_operations_return_for_every_vector() {
    let all = vectors3(&few());
    for a in &all {
        let _ = length3(*a);
        for n in numbers() {
            let _ = scale3(*a, s(n));
            let _ = divide3(*a, s(n));
        }
        for b in &all {
            let _ = dot3(*a, *b);
            let _ = cross3(*a, *b);
            let _ = subtract3(*a, *b);
            let _ = translate3(Point { coords: *a }, *b);
        }
    }
}

#[test]
fn lines_in_the_plane_return_for_every_point() {
    let all = vectors2(&few());
    for a in &all {
        for b in &all {
            let line = line2_from_points(Point { coords: *a }, Point { coords: *b });
            if let Ok(line) = line {
                for t in numbers() {
                    let _ = point_on_line2(&line, Point::from([t]));
                }
                for p in &all {
                    let _ = coords_on_line2(&line, Point { coords: *p });
                }
            }
        }
    }
    let resting = Line::<2>::default();
    for p in &all {
        let _ = coords_on_line2(&resting, Point { coords: *p });
        let _ = point_on_line2(&resting, Point::from([1.]));
    }
}

#[test]
fn lines_in_space_return_for_every_point() {
    let all = vectors3(&few());
    for a in &all {
        for b in &all {
            let line = line3_from_origin_and_direction(Point { coords: *a }, *b);
            if let Ok(line) = line {
                for t in numbers() {
                    let _ = point_on_line3(&line, Point::from([t]));
                    let _ = vector_on_line3(&line, s(t));
                }
            }
        }
    }
}

#[test]
fn circles_return_for_every_radius() {
    for r in numbers() {
        if let Ok(circle) = circle2_from_radius(s(r)) {
            for t in numbers() {
                let _ = point_on_circle2(&circle, Point::from([t]));
            }
        }
    }
    let resting = Circle::<2>::default();
    let _ = point_on_circle2(&resting, Point::from([1.]));
    let in_space = Circle::<3>::from_center_and_radius(Point::from([1., 1., 1.]), s(limit()));
    for t in numbers() {
        let _ = point_on_circle3(&in_space, Point::from([t]));
    }
}

#[test]
fn transforms_return_for_every_point() {
    let mut transforms = vec![Transform::identity()];
    for offset in vectors3(&[0., 1e-200, -limit(), 1e300]) {
        transforms.push(Transform::translation(offset));
    }
    for axis in vectors3(&[0., 1., -3.75]) {
        transforms.push(Transform::rotation(axis));
        transforms.push(Transform::translation([limit(), -limit(), 1.]) * Transform::rotation(axis));
    }
    let points = vectors3(&few());
    let line = Line::from_origin_and_direction(Point::from([limit(), 0., 0.]), Vector::from([0., 1e-150, 0.]));
    let circle = Circle::<3>::from_center_and_radius(Point::from([limit(), 0., 0.]), s(limit()));
    let small = Circle::<3>::from_center_and_radius(Point::from([0., 0., 0.]), s(1e-150));
    for transform in &transforms {
        let _ = transform_is_in_range(transform);
        for p in &points {
            let _ = transform_point(transform, Point { coords: *p });
            let _ = transform_vector(transform, *p);
        }
        let _ = transform_line(transform, &line);
        let _ = transform_circle(transform, &circle);
        let _ = transform_circle(transform, &small);
        let _ = GlobalPath::Line(line).transform(transform);
    }
}

#[test]
fn planes_return_for_every_plane() {
    let all = vectors3(&[0., 1e-200, 1., -limit()]);
    let lines = [
        Line::from_origin_and_direction(Point::from([0., 0., 0.]), Vector::from([1., 0., 0.])),
        Line::from_origin_and_direction(Point::from([limit(), -limit(), 1.]), Vector::from([0., 5e-324, -limit()])),
        Line::from_origin_and_direction(Point::from([1e300, 0., 0.]), Vector::from([0., 0., 1e-150])),
        Line::<3>::default(),
    ];
    let other = Plane {
        origin: Point::from([1., 2., 3.]),
        u: Vector::from([1., 0., 0.]),
        v: Vector::from([0., 0., 1.]),
    };
    for origin in &all {
        for u in &all {
            for v in &all {
                let plane = Plane { origin: Point { coords: *origin }, u: *u, v: *v };
                let _ = plane.constant_normal_form();
                for line in &lines {
                    let _ = plane.project_line(line);
                }
                let _ = meeting_lines(&plane, &other);
                let _ = meeting_lines(&other, &plane);
            }
        }
    }
}

#[test]
fn surfaces_return_for_every_point() {
    let points = vectors2(&numbers());
    let directions = vectors3(&[0., 1e-200, 1., -limit()]);
    for u in &directions {
        for v in &directions {
            if let Ok(surface) = Surface::plane(*u, *v) {
                for p in &points {
                    let _ = surface.point_from_surface_coords(Point { coords: *p });
                }
            }
        }
    }
    let round = Surface::new(
        GlobalPath::Circle(Circle::from_center_and_radius(Point::origin(), s(limit()))),
        Vector::from([0., 0., limit()]),
    );
    for p in &points {
        let _ = round.point_from_surface_coords(Point { coords: *p });
    }
}

#[test]
fn line_and_segment_return_for_every_segment() {
    let all = vectors2(&few());
    let lines = [
        Line::from_points([[0., 0.], [1., 0.]]),
        Line::from_points([[limit(), -limit()], [-limit(), limit()]]),
        Line::from_points([[0., 0.], [1e-150, 0.]]),
        Line::<2>::default(),
    ];
    for line in &lines {
        for a in &all {
            for b in &all {
                let _ = LineSegmentIntersection::compute(
                    line,
                    [Point { coords: *a }, Point { coords: *b }],
                );
            }
        }
    }
}

#[test]
fn forward_returns_for_every_direction() {
    for v in vectors3(&numbers()) {
        let _ = forward(v);
    }
}
