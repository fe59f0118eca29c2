//! Faces: regions of a surface, bounded by cycles.

use fj_interop::mesh::Color;
use vstd::prelude::*;

use crate::builder::FaceBuilder;
use crate::objects::cycle::{Cycle, CycleView};
use crate::objects::surface::Surface;
use crate::storage::Handle;
use crate::validate::ValidationError;

verus! {

/// `fj_interop::mesh::Color`: red, green, blue and alpha, a public field.
#[verifier::external_type_specification]
pub struct ExColor(Color);

/// A region of a surface: what lies within the exterior cycle and outside
/// every interior cycle.
#[derive(Debug, PartialEq, Eq, Hash)]
pub struct Face {
    pub surface: Handle<Surface>,
    pub exterior: Cycle,
    pub interiors: Vec<Cycle>,
    pub color: Color,
}

/// What a face holds.
pub struct FaceView {
    pub surface: Handle<Surface>,
    pub exterior: CycleView,
    pub interiors: Seq<CycleView>,
    pub color: Color,
}

/// What each of the cycles holds.
pub open spec fn cycle_views(cycles: Seq<Cycle>) -> Seq<CycleView> {
    Seq::new(cycles.len(), |i: int| cycles[i]@)
}

/// Whether every one of the cycles lies on `surface`.
pub open spec fn all_cycles_on_surface(surface: Handle<Surface>, cycles: Seq<CycleView>) -> bool {
    forall|i: int| 0 <= i < cycles.len() ==> (#[trigger] cycles[i]).surface.id == surface.id
}

impl View for Face {
    type V = FaceView;

    open spec fn view(&self) -> FaceView {
        FaceView {
            surface: self.surface,
            exterior: self.exterior@,
            interiors: cycle_views(self.interiors@),
            color: self.color,
        }
    }
}

impl FaceView {
    /// A face is well-formed if its surface is that of its exterior cycle and
    /// all its interior cycles lie on it too.
    pub open spec fn wf(self) -> bool {
        &&& self.surface == self.exterior.surface
        &&& all_cycles_on_surface(self.surface, self.interiors)
    }
}

/// The color of a face for which none was chosen: opaque red.
pub open spec fn default_color_spec() -> Color {
    Color([255u8, 0u8, 0u8, 255u8])
}

/// `fj_interop::mesh::Color::default`, which is opaque red.
#[verifier::external_body]
fn raw_default_color() -> (r: Color)
    ensures
        r == default_color_spec(),
{
    Color::default()
}

/// The color of a face for which none was chosen: opaque red.
pub fn default_color() -> (r: Color)
    ensures
        r == default_color_spec(),
{
    raw_default_color()
}

impl Face {
    /// A builder for a face on `surface`.
    pub fn builder(surface: Handle<Surface>) -> (r: FaceBuilder)
        ensures
            r.surface == Some(surface),
            r.exterior is None,
            r.interiors@.len() == 0,
            r.color is None,
    {
        FaceBuilder { surface: Some(surface), exterior: None, interiors: Vec::new(), color: None }
    }

    /// What [`Face::new`] returns.
    pub open spec fn new_spec(exterior: CycleView, interiors: Seq<CycleView>, color: Color) -> Result<
        FaceView,
        ValidationError,
    > {
        if all_cycles_on_surface(exterior.surface, interiors) {
            Ok(FaceView { surface: exterior.surface, exterior, interiors, color })
        } else {
            Err(ValidationError::Mismatch)
        }
    }

    /// The face on the surface of `exterior` that the cycles bound. It fails
    /// with [`ValidationError::Mismatch`] where an interior cycle lies on
    /// another surface.
    pub fn new(exterior: Cycle, interiors: Vec<Cycle>, color: Color) -> (r: Result<
        Face,
        ValidationError,
    >)
        ensures
            match Self::new_spec(exterior@, cycle_views(interiors@), color) {
                Ok(view) => r is Ok && r->Ok_0@ == view,
                Err(e) => r is Err && r->Err_0 == e,
            },
            r matches Ok(face) ==> face@.wf(),
    {
        let surface = exterior.surface;
        let mut i: usize = 0;
        while i < interiors.len()
            invariant
                i <= interiors.len(),
                surface == exterior.surface,
                all_cycles_on_surface(surface, cycle_views(interiors@).take(i as int)),
            decreases interiors.len() - i,
        {
            if interiors[i].surface.id != surface.id {
                assert(cycle_views(interiors@)[i as int].surface.id != surface.id);
                return Err(ValidationError::Mismatch);
            }
            assert forall|k: int| 0 <= k < i + 1 implies (#[trigger] cycle_views(interiors@).take(
                i + 1,
            )[k]).surface.id == surface.id by {
                if k < i {
                    assert(cycle_views(interiors@).take(i as int)[k].surface.id == surface.id);
                }
            }
            i += 1;
        }
        assert(cycle_views(interiors@).take(i as int) =~= cycle_views(interiors@));
        Ok(Face { surface, exterior, interiors, color })
    }

    /// The face that `exterior` bounds, without holes and in the color that
    /// faces have by default.
    pub fn from_exterior(exterior: Cycle) -> (r: Face)
        ensures
            r@.surface == exterior@.surface,
            r@.exterior == exterior@,
            r@.interiors.len() == 0,
            r@.color == default_color_spec(),
            r@.wf(),
    {
        let surface = exterior.surface;
        Face { surface, exterior, interiors: Vec::new(), color: default_color() }
    }

    /// The face with `color` in place of its color.
    pub fn with_color(self, color: Color) -> (r: Face)
        ensures
            r@ == (FaceView { color, ..self@ }),
    {
        Face { surface: self.surface, exterior: self.exterior, interiors: self.interiors, color }
    }

    /// The face with `interiors` in place of its interior cycles. It fails
    /// with [`ValidationError::Mismatch`] where one of them lies on another
    /// surface than the exterior cycle.
    pub fn with_interiors(self, interiors: Vec<Cycle>) -> (r: Result<Face, ValidationError>)
        ensures
            match Self::new_spec(self@.exterior, cycle_views(interiors@), self@.color) {
                Ok(view) => r is Ok && r->Ok_0@ == view,
                Err(e) => r is Err && r->Err_0 == e,
            },
            r matches Ok(face) ==> face@.wf(),
    {
        Face::new(self.exterior, interiors, self.color)
    }
}

} // verus!
