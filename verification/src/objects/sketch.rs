//! Sketches: collections of faces.

use vstd::prelude::*;

use crate::objects::face::{Face, FaceView};

verus! {

/// A collection of faces.
///
/// The faces are held as a list, in the order in which they were added. The
/// kernel reads nothing from that order and never looks a face up: all it
/// does with a collection is to walk it, and a walk over a list visits every
/// face once. Whether two faces are the same face is a comparison of
/// coordinates, which only `fj_math` can make; so the collection does not
/// promise that a face occurs once, and offers no equality of its own, which
/// would depend on the order.
#[derive(Debug)]
pub struct Faces {
    pub inner: Vec<Face>,
}

/// A flat shape: faces that need not touch each other. It offers no
/// equality, for the reason given at [`Faces`].
#[derive(Debug)]
pub struct Sketch {
    pub faces: Faces,
}

/// What each of the faces holds.
pub open spec fn face_views(faces: Seq<Face>) -> Seq<FaceView> {
    Seq::new(faces.len(), |i: int| faces[i]@)
}

impl View for Faces {
    type V = Seq<FaceView>;

    open spec fn view(&self) -> Seq<FaceView> {
        face_views(self.inner@)
    }
}

impl View for Sketch {
    type V = Seq<FaceView>;

    open spec fn view(&self) -> Seq<FaceView> {
        self.faces@
    }
}

impl Faces {
    /// No faces.
    pub fn new() -> (r: Self)
        ensures
            r@.len() == 0,
    {
        Faces { inner: Vec::new() }
    }

    /// The number of faces.
    pub fn len(&self) -> (r: usize)
        ensures
            r == self@.len(),
    {
        self.inner.len()
    }

    /// Adds a face.
    pub fn push(&mut self, face: Face)
        ensures
            final(self)@ == old(self)@.push(face@),
    {
        self.inner.push(face);
        assert(self@ =~= old(self)@.push(face@));
    }
}

impl Sketch {
    /// The sketch without faces.
    pub fn new() -> (r: Self)
        ensures
            r@.len() == 0,
    {
        Sketch { faces: Faces::new() }
    }

    /// The sketch of the given faces.
    pub fn with_faces(self, faces: Faces) -> (r: Self)
        ensures
            r@ == faces@,
    {
        Sketch { faces }
    }

    /// The faces of the sketch.
    pub fn into_faces(self) -> (r: Faces)
        ensures
            r@ == self@,
    {
        self.faces
    }
}

} // verus!
