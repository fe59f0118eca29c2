//! Affine transforms of objects.
//!
//! A transform never changes an object in the stores: it inserts the images.
//! Where objects share a part, their images must share the image of that
//! part, so the parts of a half-edge, a cycle or a face are not transformed
//! each for itself: the image of what they share is made once and handed to
//! them.
//!
//! Paths and surfaces are transformed in their own modules, [`crate::path`]
//! and [`crate::objects::surface`].

pub mod curve;
pub mod cycle;
pub mod edge;
pub mod face;
pub mod sketch;
pub mod vertex;
