use brep_kernel::math::circle::{circle2_from_radius, point_on_circle2, point_on_circle3};
use brep_kernel::math::line::{
    coords_on_line2, direction_of_line2, direction_of_line3, line2_from_points,
    line3_from_origin_and_direction, origin_of_line2, origin_of_line3, point_on_line2,
    point_on_line3, vector_on_line3,
};
use brep_kernel::math::plane::Plane;
use brep_kernel::math::scalar::{
    bits, divide, epsilon, equal, equals_zero, in_range, less, negate, one, rank_less, tau, whole,
    zero, LIMIT_BITS,
};
use brep_kernel::math::transform::{
    transform_circle, transform_is_in_range, transform_line, transform_point, transform_vector,
};
use brep_kernel::math::vector::{
    cross3, divide3, dot2, dot3, length2, length3, offset_between2, origin2, point1, point2,
    scale3, subtract3, translate3, vector2,
};
use brep_kernel::path::{point3, vector3};
use brep_kernel::validate::ValidationError;
use fj_math::{Circle, Point, Scalar, Transform, Vector};

fn s(value: f64) -> Scalar {
    Scalar::from_f64(value)
}

#[test]
fn scalar_constants_are_those_of_the_math_crate() {
    assert_eq!(zero(), s(0.));
    assert_eq!(one(), s(1.));
    assert_eq!(whole(7), s(7.));
    assert_eq!(tau(), s(std::f64::consts::TAU));
    assert_eq!(epsilon(), s(f64::EPSILON));
}

#[test]
fn scalar_order_ranks_equal_numbers_alike() {
    assert!(less(s(1.), s(2.)));
    assert!(!less(s(2.), s(1.)));
    assert!(!less(s(2.), s(2.)));
    assert!(equal(s(0.), s(-0.)));
    assert!(!equal(s(1.), s(2.)));
    assert!(equals_zero(s(-0.)));
    assert!(!equals_zero(s(1e-300)));
}

#[test]
fn bits_are_those_of_the_encoding() {
    assert_eq!(bits(zero()), 0);
    assert_eq!(bits(one()), 0x3ff0_0000_0000_0000);
    assert_eq!(bits(tau()), 0x4019_21fb_5444_2d18);
    assert_eq!(bits(epsilon()), 0x3cb0_0000_0000_0000);
    assert_eq!(bits(s(-2.5)), (-2.5f64).to_bits());
}

#[test]
fn rank_orders_bits_as_numbers() {
    let numbers = [
        f64::NEG_INFINITY,
        -1e300,
        -2.5,
        -1.,
        -1e-300,
        -5e-324,
        0.,
        5e-324,
        1e-300,
        1.,
        2.5,
        1e300,
        f64::INFINITY,
    ];
    for a in numbers {
        for b in numbers {
            assert_eq!(rank_less(a.to_bits(), b.to_bits()), a < b);
            assert_eq!(less(s(a), s(b)), a < b);
        }
    }
    assert!(!rank_less((-0f64).to_bits(), 0f64.to_bits()));
    assert!(!rank_less(0f64.to_bits(), (-0f64).to_bits()));
    assert!(rank_less((-0f64).to_bits(), 1f64.to_bits()));
    assert!(rank_less((-1f64).to_bits(), 0f64.to_bits()));
}

#[test]
fn negate_changes_the_sign() {
    assert_eq!(negate(s(1.5)), s(-1.5));
}

#[test]
fn range_ends_at_the_coordinate_limit() {
    let limit = f64::from_bits(LIMIT_BITS);
    assert_eq!(limit, 4611686018427387904.);
    assert!(in_range(s(limit)));
    assert!(!in_range(s(f64::from_bits(LIMIT_BITS + 1))));
    assert!(!in_range(s(f64::NEG_INFINITY)));
    assert!(in_range(s(limit)));
    assert!(in_range(s(-limit)));
    assert!(in_range(s(0.)));
    assert!(!in_range(s(2. * limit)));
    assert!(!in_range(s(-2. * limit)));
    assert!(!in_range(s(f64::INFINITY)));
}

#[test]
fn divide_gives_the_quotient_or_says_why_not() {
    assert_eq!(divide(s(1.), s(4.)), Ok(s(0.25)));
    assert_eq!(divide(s(1.), s(0.)), Err(ValidationError::Degenerate));
    assert_eq!(divide(s(1e30), s(1.)), Err(ValidationError::OutOfRange));
    assert_eq!(divide(s(1.), s(1e30)), Err(ValidationError::OutOfRange));
}

#[test]
fn points_and_vectors_are_made_of_their_coordinates() {
    assert_eq!(point1(s(3.)), Point::from([3.]));
    assert_eq!(point2(s(3.), s(4.)), Point::from([3., 4.]));
    assert_eq!(vector2(s(3.), s(4.)), Vector::from([3., 4.]));
    assert_eq!(point3(s(1.), s(2.), s(3.)), Point::from([1., 2., 3.]));
    assert_eq!(vector3(s(1.), s(2.), s(3.)), Vector::from([1., 2., 3.]));
    assert_eq!(origin2(), Point::from([0., 0.]));
}

#[test]
fn vector_arithmetic_is_that_of_the_math_crate() {
    assert_eq!(
        translate3(Point::from([1., 2., 3.]), Vector::from([10., 20., 30.])),
        Ok(Point::from([11., 22., 33.]))
    );
    assert_eq!(
        offset_between2(Point::from([3., 5.]), Point::from([1., 1.])),
        Ok(Vector::from([2., 4.]))
    );
    assert_eq!(dot2(Vector::from([1., 2.]), Vector::from([3., 4.])), Ok(s(11.)));
    assert_eq!(dot3(Vector::from([1., 2., 3.]), Vector::from([4., 5., 6.])), Ok(s(32.)));
    assert_eq!(
        cross3(Vector::from([1., 0., 0.]), Vector::from([0., 1., 0.])),
        Ok(Vector::from([0., 0., 1.]))
    );
    assert_eq!(length2(Vector::from([3., 4.])), s(5.));
    assert_eq!(length3(Vector::from([2., 3., 6.])), s(7.));
    assert_eq!(scale3(Vector::from([1., 2., 3.]), s(2.)), Ok(Vector::from([2., 4., 6.])));
    assert_eq!(
        subtract3(Vector::from([5., 7., 9.]), Vector::from([1., 2., 3.])),
        Ok(Vector::from([4., 5., 6.]))
    );
    assert_eq!(divide3(Vector::from([2., 4., 6.]), s(2.)), Ok(Vector::from([1., 2., 3.])));
}

#[test]
fn vector_arithmetic_refuses_what_is_out_of_range() {
    let far = Vector::from([1e30, 0., 0.]);
    let near = Vector::from([1., 0., 0.]);
    assert_eq!(translate3(Point::from([1e30, 0., 0.]), near), Err(ValidationError::OutOfRange));
    assert_eq!(
        offset_between2(Point::from([1e30, 0.]), Point::from([0., 0.])),
        Err(ValidationError::OutOfRange)
    );
    assert_eq!(dot2(Vector::from([1e30, 0.]), Vector::from([1., 0.])), Err(ValidationError::OutOfRange));
    assert_eq!(dot3(far, near), Err(ValidationError::OutOfRange));
    assert_eq!(cross3(near, far), Err(ValidationError::OutOfRange));
    assert_eq!(scale3(near, s(1e30)), Err(ValidationError::OutOfRange));
    assert_eq!(subtract3(far, near), Err(ValidationError::OutOfRange));
    assert_eq!(divide3(far, s(1.)), Err(ValidationError::OutOfRange));
    assert_eq!(divide3(near, s(0.)), Err(ValidationError::Degenerate));
}

#[test]
fn line_through_two_points_starts_at_the_first() {
    let line = line2_from_points(Point::from([1., 1.]), Point::from([3., 2.])).unwrap();
    assert_eq!(origin_of_line2(&line), Point::from([1., 1.]));
    assert_eq!(direction_of_line2(&line), Vector::from([2., 1.]));
    assert_eq!(point_on_line2(&line, Point::from([2.])), Ok(Point::from([5., 3.])));
    assert_eq!(coords_on_line2(&line, Point::from([5., 3.])), Ok(Point::from([2.])));
}

#[test]
fn line_needs_two_different_points_in_range() {
    assert_eq!(
        line2_from_points(Point::from([1., 1.]), Point::from([1., 1.])),
        Err(ValidationError::Degenerate)
    );
    assert_eq!(
        line2_from_points(Point::from([1e30, 1.]), Point::from([1., 1.])),
        Err(ValidationError::OutOfRange)
    );
    assert_eq!(
        line3_from_origin_and_direction(Point::from([1., 1., 1.]), Vector::from([0., 0., 0.])),
        Err(ValidationError::Degenerate)
    );
    let line = line2_from_points(Point::from([0., 0.]), Point::from([1., 0.])).unwrap();
    assert_eq!(point_on_line2(&line, Point::from([1e30])), Err(ValidationError::OutOfRange));
    assert_eq!(coords_on_line2(&line, Point::from([1e30, 0.])), Err(ValidationError::OutOfRange));
}

#[test]
fn line_in_space_is_read_and_walked() {
    let line =
        line3_from_origin_and_direction(Point::from([1., 2., 3.]), Vector::from([0., 0., 2.]))
            .unwrap();
    assert_eq!(origin_of_line3(&line), Point::from([1., 2., 3.]));
    assert_eq!(direction_of_line3(&line), Vector::from([0., 0., 2.]));
    assert_eq!(point_on_line3(&line, Point::from([3.])), Ok(Point::from([1., 2., 9.])));
    assert_eq!(vector_on_line3(&line, s(3.)), Ok(Vector::from([0., 0., 6.])));
    assert_eq!(vector_on_line3(&line, s(1e30)), Err(ValidationError::OutOfRange));
    assert_eq!(point_on_line3(&line, Point::from([1e30])), Err(ValidationError::OutOfRange));
}

#[test]
fn circle_starts_on_its_first_axis() {
    let circle = circle2_from_radius(s(2.)).unwrap();
    assert_eq!(circle, Circle::from_center_and_radius(Point::origin(), s(2.)));
    let start = point_on_circle2(&circle, Point::from([0.])).unwrap();
    assert!(start.distance_to(&Point::from([2., 0.])) < s(1e-12));
    let quarter = point_on_circle2(&circle, Point::from([std::f64::consts::FRAC_PI_2])).unwrap();
    assert!(quarter.distance_to(&Point::from([0., 2.])) < s(1e-12));
    assert_eq!(point_on_circle2(&circle, Point::from([1e30])), Err(ValidationError::OutOfRange));
    assert_eq!(circle2_from_radius(s(0.)), Err(ValidationError::Degenerate));
    assert_eq!(circle2_from_radius(s(1e30)), Err(ValidationError::OutOfRange));
    let in_space = Circle::<3>::from_center_and_radius(Point::from([1., 1., 1.]), s(2.));
    let start = point_on_circle3(&in_space, Point::from([0.])).unwrap();
    assert!(start.distance_to(&Point::from([3., 1., 1.])) < s(1e-12));
    assert_eq!(point_on_circle3(&in_space, Point::from([1e30])), Err(ValidationError::OutOfRange));
}

#[test]
fn transform_moves_points_and_keeps_vectors() {
    let shift = Transform::translation([1., 2., 3.]);
    assert!(transform_is_in_range(&shift));
    assert_eq!(transform_point(&shift, Point::from([1., 1., 1.])), Ok(Point::from([2., 3., 4.])));
    assert_eq!(transform_vector(&shift, Vector::from([1., 1., 1.])), Ok(Vector::from([1., 1., 1.])));
    let quarter = Transform::rotation([0., 0., std::f64::consts::FRAC_PI_2]);
    let turned = transform_vector(&quarter, Vector::from([1., 0., 0.])).unwrap();
    assert!((turned.components[1] - s(1.)).abs() < s(1e-12));
    assert!(turned.components[0].abs() < s(1e-12));
}

#[test]
fn transform_moves_lines_and_circles() {
    let shift = Transform::translation([1., 2., 3.]);
    let line =
        line3_from_origin_and_direction(Point::from([0., 0., 0.]), Vector::from([1., 0., 0.]))
            .unwrap();
    let image = transform_line(&shift, &line).unwrap();
    assert_eq!(origin_of_line3(&image), Point::from([1., 2., 3.]));
    assert_eq!(direction_of_line3(&image), Vector::from([1., 0., 0.]));
    let circle = Circle::<3>::from_center_and_radius(Point::from([0., 0., 0.]), s(2.));
    let image = transform_circle(&shift, &circle).unwrap();
    assert_eq!(image, Circle::from_center_and_radius(Point::from([1., 2., 3.]), s(2.)));
}

#[test]
fn transform_out_of_range_is_refused() {
    let far = Transform::translation([1e30, 0., 0.]);
    assert!(!transform_is_in_range(&far));
    assert_eq!(transform_point(&far, Point::from([0., 0., 0.])), Err(ValidationError::OutOfRange));
    assert_eq!(transform_vector(&far, Vector::from([1., 0., 0.])), Err(ValidationError::OutOfRange));
    let line =
        line3_from_origin_and_direction(Point::from([0., 0., 0.]), Vector::from([1., 0., 0.]))
            .unwrap();
    assert_eq!(transform_line(&far, &line), Err(ValidationError::OutOfRange));
    let circle = Circle::<3>::from_center_and_radius(Point::from([0., 0., 0.]), s(2.));
    assert_eq!(transform_circle(&far, &circle), Err(ValidationError::OutOfRange));
}

#[test]
fn plane_has_a_normal_form_and_projects_lines() {
    let plane = Plane {
        origin: Point::from([0., 0., 5.]),
        u: Vector::from([1., 0., 0.]),
        v: Vector::from([0., 1., 0.]),
    };
    assert_eq!(plane.constant_normal_form(), Ok((s(5.), Vector::from([0., 0., 1.]))));
    let line =
        line3_from_origin_and_direction(Point::from([2., 3., 5.]), Vector::from([1., 0., 0.]))
            .unwrap();
    let projected = plane.project_line(&line).unwrap();
    assert_eq!(direction_of_line2(&projected), Vector::from([1., 0.]));
    let upright =
        line3_from_origin_and_direction(Point::from([0., 0., 0.]), Vector::from([0., 0., 1.]))
            .unwrap();
    assert_eq!(plane.project_line(&upright), Err(ValidationError::Degenerate));
    let flat = Plane {
        origin: Point::from([0., 0., 0.]),
        u: Vector::from([1., 0., 0.]),
        v: Vector::from([2., 0., 0.]),
    };
    assert_eq!(flat.constant_normal_form(), Err(ValidationError::Degenerate));
    let far = Plane {
        origin: Point::from([1e30, 0., 0.]),
        u: Vector::from([1., 0., 0.]),
        v: Vector::from([0., 1., 0.]),
    };
    assert_eq!(far.constant_normal_form(), Err(ValidationError::OutOfRange));
    assert_eq!(far.project_line(&line), Err(ValidationError::OutOfRange));
}
