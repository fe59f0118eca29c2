//! Transforms of collections of faces.

use fj_math::Transform;
use vstd::prelude::*;

use crate::objects::face::FaceView;
use crate::objects::sketch::{Faces, Sketch};
use crate::objects::{extends_is_transitive, Objects, ObjectsView};
use crate::validate::ValidationError;

verus! {

/// The faces `done`, followed by the images of `faces`, each transformed in
/// its turn; and the stores after that. No face's image depends on another
/// face.
pub open spec fn transform_faces_spec(
    faces: Seq<FaceView>,
    transform: Transform,
    done: Seq<FaceView>,
    objects: ObjectsView,
) -> Result<(Seq<FaceView>, ObjectsView), ValidationError>
    decreases faces.len(),
{
    if faces.len() == 0 {
        Ok((done, objects))
    } else {
        match faces[0].transform_spec(transform, objects) {
            Err(e) => Err(e),
            Ok((image, stores)) => transform_faces_spec(
                faces.drop_first(),
                transform,
                done.push(image),
                stores,
            ),
        }
    }
}

impl Faces {
    /// The images of the faces under `transform`.
    #[verifier::rlimit(50)]
    pub fn transform(&self, transform: &Transform, objects: &mut Objects) -> (r: Result<
        Faces,
        ValidationError,
    >)
        ensures
            final(objects)@.extends(old(objects)@),
            match transform_faces_spec(self@, *transform, Seq::empty(), old(objects)@) {
                Ok((views, stores)) => r is Ok && r->Ok_0@ == views && final(objects)@ == stores,
                Err(e) => r is Err && r->Err_0 == e,
            },
            r matches Ok(images) ==> images@.len() == self@.len(),
    {
        let ghost whole = transform_faces_spec(self@, *transform, Seq::empty(), objects@);
        assert(self@.skip(0) =~= self@);
        let mut faces = Faces::new();
        assert(faces@ =~= Seq::<FaceView>::empty());
        let mut i: usize = 0;
        while i < self.inner.len()
            invariant
                i <= self.inner.len(),
                self@.len() == self.inner.len(),
                faces@.len() == i,
                objects@.extends(old(objects)@),
                whole == transform_faces_spec(self@, *transform, Seq::empty(), old(objects)@),
                transform_faces_spec(self@.skip(i as int), *transform, faces@, objects@) == whole,
            decreases self.inner.len() - i,
        {
            let ghost rest = self@.skip(i as int);
            let ghost done = faces@;
            let ghost before = objects@;
            assert(rest.len() > 0);
            assert(rest.drop_first() =~= self@.skip(i + 1));
            assert(rest[0] == self.inner@[i as int]@);
            match self.inner[i].transform(transform, objects) {
                Err(e) => {
                    assert(transform_faces_spec(rest, *transform, done, before) == Err::<
                        (Seq<FaceView>, ObjectsView),
                        ValidationError,
                    >(e));
                    proof {
                        extends_is_transitive(old(objects)@, before, objects@);
                    }
                    return Err(e);
                },
                Ok(image) => {
                    faces.push(image);
                    assert(transform_faces_spec(rest, *transform, done, before)
                        == transform_faces_spec(
                        rest.drop_first(),
                        *transform,
                        done.push(image@),
                        objects@,
                    ));
                },
            }
            proof {
                extends_is_transitive(old(objects)@, before, objects@);
            }
            i += 1;
        }
        Ok(faces)
    }
}

impl Sketch {
    /// The image of the sketch under `transform`: the sketch of the images
    /// of its faces.
    pub fn transform(&self, transform: &Transform, objects: &mut Objects) -> (r: Result<
        Sketch,
        ValidationError,
    >)
        ensures
            final(objects)@.extends(old(objects)@),
            match transform_faces_spec(self@, *transform, Seq::empty(), old(objects)@) {
                Ok((views, stores)) => r is Ok && r->Ok_0@ == views && final(objects)@ == stores,
                Err(e) => r is Err && r->Err_0 == e,
            },
            r matches Ok(image) ==> image@.len() == self@.len(),
    {
        match self.faces.transform(transform, objects) {
            Err(e) => Err(e),
            Ok(faces) => Ok(Sketch::new().with_faces(faces)),
        }
    }
}

} // verus!
