//! The kernel's view of the `fj_math` crate.
//!
//! Points and vectors are records of scalars and are read and built directly.
//! Scalars, lines, circles and transforms are opaque: the kernel passes them
//! to `fj_math` and names what comes back. Of a scalar it reads the bits of
//! its encoding, by which it orders scalars and tests their range.
//!
//! Each function of `fj_math` is called in one place, a private function
//! whose contract is taken on trust. Its documentation says which function
//! it calls and why that function does not panic on what the contract
//! admits.

use vstd::prelude::*;

pub mod scalar;
pub mod vector;
pub mod line;
pub mod circle;
pub mod plane;
pub mod transform;

verus! {

/// `fj_math::Scalar`: a floating-point number that is not NaN.
#[verifier::external_type_specification]
#[verifier::external_body]
pub struct ExScalar(fj_math::Scalar);

/// `fj_math::Vector`: its components, a public field.
#[verifier::external_type_specification]
pub struct ExVector<const D: usize>(fj_math::Vector<D>);

/// `fj_math::Point`: its coordinates, a public field.
#[verifier::external_type_specification]
pub struct ExPoint<const D: usize>(fj_math::Point<D>);

/// `fj_math::Line`: an origin and a direction.
#[verifier::external_type_specification]
#[verifier::external_body]
pub struct ExLine<const D: usize>(fj_math::Line<D>);

/// `fj_math::Circle`: a center and two perpendicular axes of equal length.
#[verifier::external_type_specification]
#[verifier::external_body]
pub struct ExCircle<const D: usize>(fj_math::Circle<D>);

/// `fj_math::Transform`: an affine transform of space, a matrix.
#[verifier::external_type_specification]
#[verifier::external_body]
pub struct ExTransform(fj_math::Transform);

} // verus!
