//! Planes in space, given by an origin and two spanning vectors.

use fj_math::{Line, Point, Scalar, Vector};
use vstd::prelude::*;

use crate::math::line::{direction_of_line3, line3_direction, line3_in_range, line3_is_in_range};
use crate::math::scalar::{equals_zero, is_zero};
use crate::math::vector::{
    cross_product, length2, length3, magnitude2, magnitude3, point3_in_range,
    point3_is_in_range, vector3_in_range, vector3_is_in_range,
};
use crate::validate::ValidationError;

verus! {

/// A plane: the points `origin + s * u + t * v`.
#[derive(Clone, Copy, Debug, PartialEq, Eq, Hash)]
pub struct Plane {
    pub origin: Point<3>,
    pub u: Vector<3>,
    pub v: Vector<3>,
}

/// The distance of a plane from the origin of space along its unit normal,
/// and that normal.
pub uninterp spec fn plane_normal_form(origin: Point<3>, u: Vector<3>, v: Vector<3>) -> (
    Scalar,
    Vector<3>,
);

/// The vector `w` in the coordinates of a plane.
pub uninterp spec fn plane_projected_vector(
    origin: Point<3>,
    u: Vector<3>,
    v: Vector<3>,
    w: Vector<3>,
) -> Vector<2>;

/// A line of space in the coordinates of a plane.
pub uninterp spec fn plane_projected_line(
    origin: Point<3>,
    u: Vector<3>,
    v: Vector<3>,
    line: Line<3>,
) -> Line<2>;

/// `fj_math::Plane::constant_normal_form` of the plane that
/// `fj_math::Plane::from_parametric` makes of the three operands. It
/// normalizes the cross product of `u` and `v`, whose length must therefore
/// not be zero; with the operands in range every step yields a number.
#[verifier::external_body]
fn raw_normal_form(origin: Point<3>, u: Vector<3>, v: Vector<3>) -> (r: (Scalar, Vector<3>))
    requires
        point3_in_range(origin),
        vector3_in_range(u),
        vector3_in_range(v),
        !is_zero(magnitude3(cross_product(u, v))),
    ensures
        r == plane_normal_form(origin, u, v),
{
    fj_math::Plane::from_parametric(origin, u, v).constant_normal_form()
}

/// `fj_math::Plane::project_vector` of the plane that
/// `fj_math::Plane::from_parametric` makes of the first three operands. It
/// projects onto a direction only where that direction's length is not zero;
/// with the operands in range every step yields a number.
#[verifier::external_body]
fn raw_project_vector(origin: Point<3>, u: Vector<3>, v: Vector<3>, w: Vector<3>) -> (r: Vector<2>)
    requires
        point3_in_range(origin),
        vector3_in_range(u),
        vector3_in_range(v),
        vector3_in_range(w),
    ensures
        r == plane_projected_vector(origin, u, v, w),
{
    fj_math::Plane::from_parametric(origin, u, v).project_vector(&w)
}

/// `fj_math::Plane::project_line` of the plane that
/// `fj_math::Plane::from_parametric` makes of the first three operands. It
/// makes a line of the projected origin and the projected direction, and
/// panics only where the length of the latter is zero.
#[verifier::external_body]
fn raw_project_line(origin: Point<3>, u: Vector<3>, v: Vector<3>, line: &Line<3>) -> (r: Line<2>)
    requires
        point3_in_range(origin),
        vector3_in_range(u),
        vector3_in_range(v),
        line3_in_range(*line),
        !is_zero(magnitude2(plane_projected_vector(origin, u, v, line3_direction(*line)))),
    ensures
        r == plane_projected_line(origin, u, v, *line),
{
    fj_math::Plane::from_parametric(origin, u, v).project_line(line)
}

impl Plane {
    pub open spec fn in_range(self) -> bool {
        point3_in_range(self.origin) && vector3_in_range(self.u) && vector3_in_range(self.v)
    }

    pub fn is_in_range(&self) -> (r: bool)
        ensures
            r == self.in_range(),
    {
        point3_is_in_range(&self.origin) && vector3_is_in_range(&self.u) && vector3_is_in_range(
            &self.v,
        )
    }

    /// What [`Plane::constant_normal_form`] returns.
    pub open spec fn constant_normal_form_spec(self) -> Result<
        (Scalar, Vector<3>),
        ValidationError,
    > {
        if !self.in_range() {
            Err(ValidationError::OutOfRange)
        } else if is_zero(magnitude3(cross_product(self.u, self.v))) {
            Err(ValidationError::Degenerate)
        } else {
            Ok(plane_normal_form(self.origin, self.u, self.v))
        }
    }

    /// The distance of the plane from the origin of space along its unit
    /// normal, and that normal. The spanning vectors must not be parallel.
    pub fn constant_normal_form(&self) -> (r: Result<(Scalar, Vector<3>), ValidationError>)
        ensures
            r == self.constant_normal_form_spec(),
    {
        if !self.is_in_range() {
            return Err(ValidationError::OutOfRange);
        }
        match crate::math::vector::cross3(self.u, self.v) {
            Err(e) => Err(e),
            Ok(normal) => {
                if equals_zero(length3(normal)) {
                    Err(ValidationError::Degenerate)
                } else {
                    Ok(raw_normal_form(self.origin, self.u, self.v))
                }
            },
        }
    }

    /// What [`Plane::project_line`] returns.
    pub open spec fn project_line_spec(self, line: Line<3>) -> Result<Line<2>, ValidationError> {
        if !(self.in_range() && line3_in_range(line)) {
            Err(ValidationError::OutOfRange)
        } else if is_zero(
            magnitude2(plane_projected_vector(self.origin, self.u, self.v, line3_direction(line))),
        ) {
            Err(ValidationError::Degenerate)
        } else {
            Ok(plane_projected_line(self.origin, self.u, self.v, line))
        }
    }

    /// The line of space `line` in the coordinates of the plane. The line
    /// must not be perpendicular to the plane.
    pub fn project_line(&self, line: &Line<3>) -> (r: Result<Line<2>, ValidationError>)
        ensures
            r == self.project_line_spec(*line),
    {
        if !(self.is_in_range() && line3_is_in_range(line)) {
            return Err(ValidationError::OutOfRange);
        }
        let direction = raw_project_vector(self.origin, self.u, self.v, direction_of_line3(line));
        if equals_zero(length2(direction)) {
            Err(ValidationError::Degenerate)
        } else {
            Ok(raw_project_line(self.origin, self.u, self.v, line))
        }
    }
}

} // verus!
