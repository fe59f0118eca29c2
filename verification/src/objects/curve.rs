//! Curves on a surface and their identity in space.

use vstd::prelude::*;

use crate::objects::surface::Surface;
use crate::path::SurfacePath;
use crate::storage::Handle;

verus! {

/// The identity of a curve in space. It has no geometry of its own: two local
/// curves are images of the same curve in space exactly if they refer to the
/// same global curve, whatever their paths are.
#[derive(Clone, Copy, Debug, PartialEq, Eq, Hash)]
pub struct GlobalCurve {}

/// A curve on a surface: a path in the coordinates of that surface, and the
/// global curve of which it is the image.
#[derive(Clone, Copy, Debug, PartialEq, Eq, Hash)]
pub struct Curve {
    pub path: SurfacePath,
    pub surface: Handle<Surface>,
    pub global_form: Handle<GlobalCurve>,
}

/// Global curves differ in nothing but their place in the store: handles to
/// global curves are equal exactly if their ids are.
pub proof fn global_curves_differ_by_identity_alone(a: Handle<GlobalCurve>, b: Handle<GlobalCurve>)
    ensures
        a == b <==> a.id == b.id,
{
    assert(a.object == GlobalCurve {  });
    assert(b.object == GlobalCurve {  });
    if a.id == b.id {
        assert(a =~~= b);
    }
}

impl Curve {
    pub fn new(surface: Handle<Surface>, path: SurfacePath, global_form: Handle<GlobalCurve>) -> (r:
        Self)
        ensures
            r == (Curve { path, surface, global_form }),
    {
        Curve { path, surface, global_form }
    }
}

} // verus!
