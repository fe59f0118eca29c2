//! The ways in which building, transforming or intersecting objects can fail.

use vstd::prelude::*;

verus! {

/// Why an operation of the kernel could not produce its result.
///
/// No operation that fails with one of these puts an invalid object into the
/// object store.
#[derive(Clone, Copy, Debug, PartialEq, Eq, Hash, Structural)]
pub enum ValidationError {
    /// A partial object lacks a field that is needed and cannot be derived
    /// from its other fields.
    IncompleteObject,
    /// A coordinate lies outside the range in which the kernel computes: its
    /// magnitude is greater than 2^62, it is infinite, or it came out so of
    /// a step of a computation. Within that range no operation of `fj_math`
    /// that the kernel calls can yield what is no number, on which `fj_math`
    /// panics. See [`crate::math::scalar`].
    OutOfRange,
    /// Geometry has collapsed: two points that must differ coincide, or a
    /// direction or radius has zero length.
    Degenerate,
    /// Two references that must denote the same object denote different ones.
    Mismatch,
    /// The operation is not defined for this kind of geometry.
    Unsupported,
}

} // verus!
