//! Intersections between objects.
//!
//! Where two objects do not meet, that is no error: the algorithms return
//! `None`, or an empty set of intervals. They fail only where coordinates
//! leave the range in which the kernel computes, or where the geometry is of
//! a kind that they do not handle: they intersect planes and lines.

pub mod curve_edge;
pub mod curve_face;
pub mod face_face;
pub mod intervals;
pub mod line_segment;
pub mod surface_surface;
pub mod symmetry;
