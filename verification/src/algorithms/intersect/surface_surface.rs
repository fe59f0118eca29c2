//! The intersection of two surfaces.

use fj_math::{Line, Point, Scalar, Vector};
use vstd::prelude::*;

use crate::math::line::{
    direction_of_line3, line3_direction, line3_from_origin_and_direction, line3_from_spec,
    line3_origin, origin_of_line3,
};
use crate::math::plane::Plane;
use crate::math::scalar::{
    equals_zero, is_zero, less, negate, one, scalar_in_range, scalar_negated, scalar_of_u64,
    scalar_rank,
};
use crate::math::vector::{
    cross3, cross_product, difference3, divide3, divide3_spec, dot3, dot_product3, guarded, scale3,
    scaled3, subtract3, vector3_in_range,
};
use crate::objects::curve::{Curve, GlobalCurve};
use crate::objects::surface::Surface;
use crate::objects::{Objects, ObjectsView};
use crate::partial::outcome;
use crate::path::{GlobalPath, SurfacePath};
use crate::storage::Handle;
use crate::validate::ValidationError;

verus! {

/// The intersection of two surfaces: one curve on each of them. The two
/// curves are images of one global curve.
#[derive(Clone, Copy, Debug, PartialEq, Eq, Hash)]
pub struct SurfaceSurfaceIntersection {
    pub intersection_curves: [Handle<Curve>; 2],
}

/// The plane that a surface is, where it sweeps a line.
pub open spec fn plane_of_spec(surface: Surface) -> Result<Plane, ValidationError> {
    match surface.u {
        GlobalPath::Line(line) => Ok(
            Plane { origin: line3_origin(line), u: line3_direction(line), v: surface.v },
        ),
        GlobalPath::Circle(_) => Err(ValidationError::Unsupported),
    }
}

/// The plane that `surface` is. A surface that sweeps a circle is no plane.
pub fn plane_of(surface: &Surface) -> (r: Result<Plane, ValidationError>)
    ensures
        r == plane_of_spec(*surface),
{
    match &surface.u {
        GlobalPath::Line(line) => Ok(
            Plane { origin: origin_of_line3(line), u: direction_of_line3(line), v: surface.v },
        ),
        GlobalPath::Circle(_) => Err(ValidationError::Unsupported),
    }
}

/// The direction of the line in which two planes with the unit normals `a`
/// and `b` meet, and its dot product with itself, which is zero where the
/// planes are parallel.
pub open spec fn meeting_direction_spec(a: Vector<3>, b: Vector<3>) -> Result<
    (Vector<3>, Scalar),
    ValidationError,
> {
    match guarded(vector3_in_range(a) && vector3_in_range(b), cross_product(a, b)) {
        Err(e) => Err(e),
        Ok(direction) => match guarded(
            vector3_in_range(direction),
            dot_product3(direction, direction),
        ) {
            Err(e) => Err(e),
            Ok(denominator) => Ok((direction, denominator)),
        },
    }
}

/// The direction of the line in which two planes meet, and its dot product
/// with itself.
pub fn meeting_direction(a: Vector<3>, b: Vector<3>) -> (r: Result<
    (Vector<3>, Scalar),
    ValidationError,
>)
    ensures
        r == meeting_direction_spec(a, b),
{
    let direction = match cross3(a, b) {
        Ok(direction) => direction,
        Err(e) => { return Err(e); },
    };
    match dot3(direction, direction) {
        Ok(denominator) => Ok((direction, denominator)),
        Err(e) => Err(e),
    }
}

/// A point on the line in which two planes meet. The planes are given in
/// constant-normal form, and `direction` and `denominator` are what
/// [`meeting_direction`] gives for their normals.
pub open spec fn meeting_point_spec(
    a: (Scalar, Vector<3>),
    b: (Scalar, Vector<3>),
    direction: Vector<3>,
    denominator: Scalar,
) -> Result<Point<3>, ValidationError> {
    match guarded(vector3_in_range(b.1) && scalar_in_range(a.0), scaled3(b.1, a.0)) {
        Err(e) => Err(e),
        Ok(first) => match guarded(
            vector3_in_range(a.1) && scalar_in_range(b.0),
            scaled3(a.1, b.0),
        ) {
            Err(e) => Err(e),
            Ok(second) => match guarded(
                vector3_in_range(first) && vector3_in_range(second),
                difference3(first, second),
            ) {
                Err(e) => Err(e),
                Ok(weighted) => match guarded(
                    vector3_in_range(weighted) && vector3_in_range(direction),
                    cross_product(weighted, direction),
                ) {
                    Err(e) => Err(e),
                    Ok(numerator) => match divide3_spec(numerator, denominator) {
                        Err(e) => Err(e),
                        Ok(coords) => Ok(Point { coords }),
                    },
                },
            },
        },
    }
}

/// A point on the line in which two planes meet.
pub fn meeting_point(
    a: (Scalar, Vector<3>),
    b: (Scalar, Vector<3>),
    direction: Vector<3>,
    denominator: Scalar,
) -> (r: Result<Point<3>, ValidationError>)
    ensures
        r == meeting_point_spec(a, b, direction, denominator),
{
    let first = match scale3(b.1, a.0) {
        Ok(v) => v,
        Err(e) => { return Err(e); },
    };
    let second = match scale3(a.1, b.0) {
        Ok(v) => v,
        Err(e) => { return Err(e); },
    };
    let weighted = match subtract3(first, second) {
        Ok(v) => v,
        Err(e) => { return Err(e); },
    };
    let numerator = match cross3(weighted, direction) {
        Ok(v) => v,
        Err(e) => { return Err(e); },
    };
    match divide3(numerator, denominator) {
        Ok(coords) => Ok(Point { coords }),
        Err(e) => Err(e),
    }
}

/// Whether the first component of `v` that is not zero is negative.
pub open spec fn points_backward(v: Vector<3>) -> bool {
    ||| scalar_rank(v.components[0]) < 0
    ||| is_zero(v.components[0]) && scalar_rank(v.components[1]) < 0
    ||| is_zero(v.components[0]) && is_zero(v.components[1]) && scalar_rank(v.components[2]) < 0
}

/// The direction `v` or its opposite, whichever does not point backward. A
/// line has the same direction whichever of two planes that meet in it is
/// named first.
pub open spec fn forward_spec(v: Vector<3>) -> Result<Vector<3>, ValidationError> {
    if points_backward(v) {
        guarded(
            vector3_in_range(v) && scalar_in_range(scalar_negated(scalar_of_u64(1))),
            scaled3(v, scalar_negated(scalar_of_u64(1))),
        )
    } else {
        Ok(v)
    }
}

/// The direction `v` or its opposite, whichever does not point backward.
pub fn forward(v: Vector<3>) -> (r: Result<Vector<3>, ValidationError>)
    ensures
        r == forward_spec(v),
{
    let zero = crate::math::scalar::zero();
    let backward = less(v.components[0], zero) || (equals_zero(v.components[0]) && less(
        v.components[1],
        zero,
    )) || (equals_zero(v.components[0]) && equals_zero(v.components[1]) && less(
        v.components[2],
        zero,
    ));
    if backward {
        scale3(v, negate(one()))
    } else {
        Ok(v)
    }
}

/// The line in which two planes meet, in the coordinates of each of them;
/// `None` where they are parallel.
pub open spec fn meeting_lines_spec(a: Plane, b: Plane) -> Result<
    Option<(Line<2>, Line<2>)>,
    ValidationError,
> {
    match a.constant_normal_form_spec() {
        Err(e) => Err(e),
        Ok(form_a) => match b.constant_normal_form_spec() {
            Err(e) => Err(e),
            Ok(form_b) => match meeting_direction_spec(form_a.1, form_b.1) {
                Err(e) => Err(e),
                Ok((direction, denominator)) => if is_zero(denominator) {
                    Ok(None)
                } else {
                    match meeting_point_spec(form_a, form_b, direction, denominator) {
                        Err(e) => Err(e),
                        Ok(origin) => match forward_spec(direction) {
                            Err(e) => Err(e),
                            Ok(along) => match line3_from_spec(origin, along) {
                                Err(e) => Err(e),
                                Ok(line) => match a.project_line_spec(line) {
                                    Err(e) => Err(e),
                                    Ok(on_a) => match b.project_line_spec(line) {
                                        Err(e) => Err(e),
                                        Ok(on_b) => Ok(Some((on_a, on_b))),
                                    },
                                },
                            },
                        },
                    }
                },
            },
        },
    }
}

/// The line in which two planes meet, in the coordinates of each of them.
#[verifier::rlimit(50)]
pub fn meeting_lines(a: &Plane, b: &Plane) -> (r: Result<
    Option<(Line<2>, Line<2>)>,
    ValidationError,
>)
    ensures
        r == meeting_lines_spec(*a, *b),
{
    let form_a = match a.constant_normal_form() {
        Ok(form) => form,
        Err(e) => { return Err(e); },
    };
    let form_b = match b.constant_normal_form() {
        Ok(form) => form,
        Err(e) => { return Err(e); },
    };
    let (direction, denominator) = match meeting_direction(form_a.1, form_b.1) {
        Ok(pair) => pair,
        Err(e) => { return Err(e); },
    };
    if equals_zero(denominator) {
        return Ok(None);
    }
    let origin = match meeting_point(form_a, form_b, direction, denominator) {
        Ok(origin) => origin,
        Err(e) => { return Err(e); },
    };
    let along = match forward(direction) {
        Ok(along) => along,
        Err(e) => { return Err(e); },
    };
    let line = match line3_from_origin_and_direction(origin, along) {
        Ok(line) => line,
        Err(e) => { return Err(e); },
    };
    let on_a = match a.project_line(&line) {
        Ok(line) => line,
        Err(e) => { return Err(e); },
    };
    match b.project_line(&line) {
        Ok(on_b) => Ok(Some((on_a, on_b))),
        Err(e) => Err(e),
    }
}

impl SurfaceSurfaceIntersection {
    /// What [`SurfaceSurfaceIntersection::compute`] returns, and the stores
    /// after it. Where the surfaces meet, one global curve is inserted, and
    /// then a curve on the first and a curve on the second surface, both
    /// with that global curve.
    pub open spec fn compute_spec(surfaces: [Handle<Surface>; 2], objects: ObjectsView) -> Result<
        (Option<SurfaceSurfaceIntersection>, ObjectsView),
        ValidationError,
    > {
        match plane_of_spec(surfaces[0].object) {
            Err(e) => Err(e),
            Ok(a) => match plane_of_spec(surfaces[1].object) {
                Err(e) => Err(e),
                Ok(b) => match meeting_lines_spec(a, b) {
                    Err(e) => Err(e),
                    Ok(None) => Ok((None, objects)),
                    Ok(Some((on_a, on_b))) => {
                        let global_form = objects.next_global_curve();
                        let with_global = objects.with_global_curve();
                        let first = Curve {
                            path: SurfacePath::Line(on_a),
                            surface: surfaces[0],
                            global_form,
                        };
                        let with_first = with_global.with_curve(first);
                        let second = Curve {
                            path: SurfacePath::Line(on_b),
                            surface: surfaces[1],
                            global_form,
                        };
                        Ok(
                            (
                                Some(
                                    SurfaceSurfaceIntersection {
                                        intersection_curves: [
                                            with_global.next_curve(first),
                                            with_first.next_curve(second),
                                        ],
                                    },
                                ),
                                with_first.with_curve(second),
                            ),
                        )
                    },
                },
            },
        }
    }

    /// Intersects two surfaces.
    ///
    /// Both must be planes, else the result is
    /// [`ValidationError::Unsupported`]. Parallel planes do not meet, and
    /// the result is `None`. Else the planes meet in a line, and the result
    /// holds that line as a curve on each surface, the two being images of
    /// one new global curve. The line runs in the same direction whichever
    /// surface is named first. Nothing is inserted unless the surfaces meet.
    pub fn compute(surfaces: [Handle<Surface>; 2], objects: &mut Objects) -> (r: Result<
        Option<SurfaceSurfaceIntersection>,
        ValidationError,
    >)
        ensures
            outcome(
                Self::compute_spec(surfaces, old(objects)@),
                r,
                old(objects)@,
                final(objects)@,
            ),
            !(r matches Ok(Some(_))) ==> final(objects)@ == old(objects)@,
            r matches Ok(Some(found)) ==> {
                &&& found.intersection_curves[0].object.surface == surfaces[0]
                &&& found.intersection_curves[1].object.surface == surfaces[1]
                &&& found.intersection_curves[0].object.global_form
                    == found.intersection_curves[1].object.global_form
                &&& found.intersection_curves[0].object.path is Line
                &&& found.intersection_curves[1].object.path is Line
            },
    {
        let a = match plane_of(&surfaces[0].object) {
            Ok(plane) => plane,
            Err(e) => { return Err(e); },
        };
        let b = match plane_of(&surfaces[1].object) {
            Ok(plane) => plane,
            Err(e) => { return Err(e); },
        };
        let (on_a, on_b) = match meeting_lines(&a, &b) {
            Err(e) => { return Err(e); },
            Ok(None) => { return Ok(None); },
            Ok(Some(lines)) => lines,
        };
        let global_form = objects.global_curves.insert(GlobalCurve {  });
        let first = objects.curves.insert(
            Curve::new(surfaces[0], SurfacePath::Line(on_a), global_form),
        );
        let second = objects.curves.insert(
            Curve::new(surfaces[1], SurfacePath::Line(on_b), global_form),
        );
        Ok(Some(SurfaceSurfaceIntersection { intersection_curves: [first, second] }))
    }
}

} // verus!
