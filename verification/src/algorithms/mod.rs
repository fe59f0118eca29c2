//! Algorithms on the objects of the kernel.

pub mod intersect;
pub mod transform;
