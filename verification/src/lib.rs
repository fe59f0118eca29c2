//! A boundary-representation geometry kernel.
//!
//! Solids are modelled as graphs of surfaces, curves, vertices and oriented
//! edges and faces. The kernel builds such graphs from partially specified
//! objects, applies affine transforms to them, and intersects faces.
//!
//! - [`storage`] and [`objects`] hold the finished objects and the stores
//!   that own those which are shared by handle.
//! - [`partial`] and [`builder`] build finished objects from partial ones.
//! - [`algorithms`] transforms and intersects them.
//! - [`path`] and [`math`] hold the geometry. All arithmetic on coordinates
//!   is done by the `fj_math` crate, which the kernel only calls on
//!   coordinates within a fixed range, see [`math::scalar`].
//! - [`validate`] names the ways in which an operation can fail. No
//!   operation of the kernel panics.
//!
//! # The range of coordinates
//!
//! The kernel computes with coordinates of a magnitude of at most 2^62,
//! about 4.6e18. An operation that meets a greater coordinate, in what it is
//! given or in what a step of it yields, returns
//! [`validate::ValidationError::OutOfRange`]. The limit keeps `fj_math` from
//! ever forming infinity minus infinity or zero times infinity, on which it
//! panics.
//!
//! # Points on circles
//!
//! Where a point on a circle is to be found, `fj_math` takes the sine and
//! the cosine of the machine, whose last digits nothing fixes. The kernel
//! says when such a point is found and what it does with it, and leaves
//! open which point it is.

pub mod algorithms;
pub mod builder;
pub mod math;
pub mod objects;
pub mod partial;
pub mod path;
pub mod storage;
pub mod validate;
