//! Paths: the lines and circles along which curves and surfaces run.

use fj_math::{Circle, Line, Point, Scalar, Vector};
use vstd::prelude::*;

use crate::math::circle::{
    a_of_circle3, center_of_circle3, circle2_from_radius, circle2_from_radius_spec, circle2_in_range,
    circle3_a, circle3_center, circle3_in_range, point_on_circle2,
    point_on_circle3,
};
use crate::math::line::{
    line2_from_points, line2_from_points_spec, line2_in_range, line2_point, line3_from_origin_and_direction,
    line3_from_spec, line3_in_range, line3_origin, line3_point, origin_of_line3, point_on_line2,
    point_on_line3,
};
use crate::math::scalar::{one, scalar_of_u64, zero};
use crate::math::transform::{
    transform_circle, transform_circle_spec, transform_line, transform_line_spec,
};
use crate::math::vector::{
    guarded, held_by, point1_in_range, point3_in_range, translate3, translated3, vector3_in_range,
};
use crate::validate::ValidationError;

verus! {

/// A path in the coordinates of a surface.
#[derive(Clone, Copy, Debug, PartialEq, Eq, Hash)]
pub enum SurfacePath {
    Circle(Circle<2>),
    Line(Line<2>),
}

/// A path in space.
#[derive(Clone, Copy, Debug, PartialEq, Eq, Hash)]
pub enum GlobalPath {
    Circle(Circle<3>),
    Line(Line<3>),
}

/// The point with the coordinates `x`, `y` and `z`.
pub open spec fn point3_at(x: Scalar, y: Scalar, z: Scalar) -> Point<3> {
    Point { coords: vector3_of(x, y, z) }
}

/// The vector with the components `x`, `y` and `z`.
pub open spec fn vector3_of(x: Scalar, y: Scalar, z: Scalar) -> Vector<3> {
    Vector { components: [x, y, z] }
}

/// The vector with the components `x`, `y` and `z`.
pub fn vector3(x: Scalar, y: Scalar, z: Scalar) -> (r: Vector<3>)
    ensures
        r == vector3_of(x, y, z),
{
    Vector { components: [x, y, z] }
}

/// The point with the coordinates `x`, `y` and `z`.
pub fn point3(x: Scalar, y: Scalar, z: Scalar) -> (r: Point<3>)
    ensures
        r == point3_at(x, y, z),
{
    Point { coords: vector3(x, y, z) }
}

impl SurfacePath {
    /// What [`SurfacePath::circle_from_radius`] returns.
    pub open spec fn circle_from_radius_spec(radius: Scalar) -> Result<Self, ValidationError> {
        match circle2_from_radius_spec(radius) {
            Ok(circle) => Ok(SurfacePath::Circle(circle)),
            Err(e) => Err(e),
        }
    }

    /// The circle around the origin of the surface with the given radius.
    pub fn circle_from_radius(radius: Scalar) -> (r: Result<Self, ValidationError>)
        ensures
            r == Self::circle_from_radius_spec(radius),
    {
        match circle2_from_radius(radius) {
            Ok(circle) => Ok(SurfacePath::Circle(circle)),
            Err(e) => Err(e),
        }
    }

    /// What [`SurfacePath::line_from_points`] returns.
    pub open spec fn line_from_points_spec(a: Point<2>, b: Point<2>) -> Result<
        Self,
        ValidationError,
    > {
        match line2_from_points_spec(a, b) {
            Ok(line) => Ok(SurfacePath::Line(line)),
            Err(e) => Err(e),
        }
    }

    /// The line on which `a` has the coordinate zero and `b` the coordinate
    /// one.
    pub fn line_from_points(a: Point<2>, b: Point<2>) -> (r: Result<Self, ValidationError>)
        ensures
            r == Self::line_from_points_spec(a, b),
    {
        match line2_from_points(a, b) {
            Ok(line) => Ok(SurfacePath::Line(line)),
            Err(e) => Err(e),
        }
    }

    /// What [`SurfacePath::point_from_path_coords`] returns. On a line the
    /// point is fixed. On a circle it is `drawn`, the point that `fj_math`
    /// places there.
    pub open spec fn point_from_path_coords_spec(self, t: Point<1>, drawn: Point<2>) -> Result<
        Point<2>,
        ValidationError,
    > {
        match self {
            SurfacePath::Circle(circle) => guarded(
                circle2_in_range(circle) && point1_in_range(t),
                drawn,
            ),
            SurfacePath::Line(line) => guarded(
                line2_in_range(line) && point1_in_range(t),
                line2_point(line, t),
            ),
        }
    }

    /// The point of the path at the path coordinate `t`, in surface
    /// coordinates. It is found exactly where path and coordinate are in
    /// range. On a line it is a fixed point; on a circle it is the point
    /// that `fj_math` places there.
    pub fn point_from_path_coords(&self, t: Point<1>) -> (r: Result<Point<2>, ValidationError>)
        ensures
            r == self.point_from_path_coords_spec(t, held_by(r)),
            r is Err ==> r == Err::<Point<2>, _>(ValidationError::OutOfRange),
            match *self {
                SurfacePath::Circle(circle) => r is Ok <==> circle2_in_range(circle)
                    && point1_in_range(t),
                SurfacePath::Line(line) => r is Ok <==> line2_in_range(line) && point1_in_range(t),
            },
    {
        match self {
            SurfacePath::Circle(circle) => point_on_circle2(circle, t),
            SurfacePath::Line(line) => point_on_line2(line, t),
        }
    }
}

impl GlobalPath {
    /// What [`GlobalPath::axis`] returns.
    pub open spec fn axis_spec(direction: Vector<3>) -> Result<Self, ValidationError> {
        match line3_from_spec(
            point3_at(scalar_of_u64(0), scalar_of_u64(0), scalar_of_u64(0)),
            direction,
        ) {
            Ok(line) => Ok(GlobalPath::Line(line)),
            Err(e) => Err(e),
        }
    }

    /// The line through the origin of space with the given direction.
    pub fn axis(direction: Vector<3>) -> (r: Result<Self, ValidationError>)
        ensures
            r == Self::axis_spec(direction),
            r matches Ok(GlobalPath::Line(line)) ==> {
                &&& line3_origin(line) == point3_at(
                    scalar_of_u64(0),
                    scalar_of_u64(0),
                    scalar_of_u64(0),
                )
                &&& crate::math::line::line3_direction(line) == direction
            },
    {
        match line3_from_origin_and_direction(point3(zero(), zero(), zero()), direction) {
            Ok(line) => Ok(GlobalPath::Line(line)),
            Err(e) => Err(e),
        }
    }

    /// The x-axis of space.
    pub fn x_axis() -> (r: Result<Self, ValidationError>)
        ensures
            r == Self::axis_spec(vector3_of(scalar_of_u64(1), scalar_of_u64(0), scalar_of_u64(0))),
    {
        Self::axis(vector3(one(), zero(), zero()))
    }

    /// The y-axis of space.
    pub fn y_axis() -> (r: Result<Self, ValidationError>)
        ensures
            r == Self::axis_spec(vector3_of(scalar_of_u64(0), scalar_of_u64(1), scalar_of_u64(0))),
    {
        Self::axis(vector3(zero(), one(), zero()))
    }

    /// The z-axis of space.
    pub fn z_axis() -> (r: Result<Self, ValidationError>)
        ensures
            r == Self::axis_spec(vector3_of(scalar_of_u64(0), scalar_of_u64(0), scalar_of_u64(1))),
    {
        Self::axis(vector3(zero(), zero(), one()))
    }

    /// What [`GlobalPath::origin`] returns.
    pub open spec fn origin_spec(self) -> Result<Point<3>, ValidationError> {
        match self {
            GlobalPath::Circle(circle) => guarded(
                point3_in_range(circle3_center(circle)) && vector3_in_range(circle3_a(circle)),
                translated3(circle3_center(circle), circle3_a(circle)),
            ),
            GlobalPath::Line(line) => Ok(line3_origin(line)),
        }
    }

    /// The point of the path at the path coordinate zero.
    pub fn origin(&self) -> (r: Result<Point<3>, ValidationError>)
        ensures
            r == self.origin_spec(),
    {
        match self {
            GlobalPath::Circle(circle) => translate3(
                center_of_circle3(circle),
                a_of_circle3(circle),
            ),
            GlobalPath::Line(line) => Ok(origin_of_line3(line)),
        }
    }

    /// What [`GlobalPath::point_from_path_coords`] returns. On a line the
    /// point is fixed. On a circle it is `drawn`, the point that `fj_math`
    /// places there.
    pub open spec fn point_from_path_coords_spec(self, t: Point<1>, drawn: Point<3>) -> Result<
        Point<3>,
        ValidationError,
    > {
        match self {
            GlobalPath::Circle(circle) => guarded(
                circle3_in_range(circle) && point1_in_range(t),
                drawn,
            ),
            GlobalPath::Line(line) => guarded(
                line3_in_range(line) && point1_in_range(t),
                line3_point(line, t),
            ),
        }
    }

    /// The point of the path at the path coordinate `t`. It is found
    /// exactly where path and coordinate are in range. On a line it is a
    /// fixed point; on a circle it is the point that `fj_math` places there.
    pub fn point_from_path_coords(&self, t: Point<1>) -> (r: Result<Point<3>, ValidationError>)
        ensures
            r == self.point_from_path_coords_spec(t, held_by(r)),
            r is Err ==> r == Err::<Point<3>, _>(ValidationError::OutOfRange),
            match *self {
                GlobalPath::Circle(circle) => r is Ok <==> circle3_in_range(circle)
                    && point1_in_range(t),
                GlobalPath::Line(line) => r is Ok <==> line3_in_range(line) && point1_in_range(t),
            },
    {
        match self {
            GlobalPath::Circle(circle) => point_on_circle3(circle, t),
            GlobalPath::Line(line) => point_on_line3(line, t),
        }
    }

    /// What [`GlobalPath::transform`] returns.
    pub open spec fn transform_spec(self, transform: fj_math::Transform) -> Result<
        Self,
        ValidationError,
    > {
        match self {
            GlobalPath::Circle(circle) => match transform_circle_spec(transform, circle) {
                Ok(image) => Ok(GlobalPath::Circle(image)),
                Err(e) => Err(e),
            },
            GlobalPath::Line(line) => match transform_line_spec(transform, line) {
                Ok(image) => Ok(GlobalPath::Line(image)),
                Err(e) => Err(e),
            },
        }
    }

    /// The image of the path under `transform`: a circle stays a circle and a
    /// line a line.
    pub fn transform(self, transform: &fj_math::Transform) -> (r: Result<Self, ValidationError>)
        ensures
            r == self.transform_spec(*transform),
    {
        match self {
            GlobalPath::Circle(circle) => match transform_circle(transform, &circle) {
                Ok(image) => Ok(GlobalPath::Circle(image)),
                Err(e) => Err(e),
            },
            GlobalPath::Line(line) => match transform_line(transform, &line) {
                Ok(image) => Ok(GlobalPath::Line(image)),
                Err(e) => Err(e),
            },
        }
    }
}

} // verus!
