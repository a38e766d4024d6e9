//! Intersection record: where a ray hit a surface, and the surface
//! normal there.

use vstd::prelude::*;

use crate::vector::{Vector3, V3};

verus! {

/// Mathematical model of an intersection record.
pub ghost struct IntV {
    pub surface_normal: V3,
    pub point: V3,
}

/// The point a ray hit and the surface normal at that point. Created
/// fresh per hit test; the nearest-hit search seeds its running best
/// with a sentinel whose point is maximally far away.
#[derive(Clone, Copy, PartialEq, Eq, Structural, Debug)]
pub struct Intersection {
    pub surface_normal: Vector3,
    pub point: Vector3,
}

impl View for Intersection {
    type V = IntV;

    open spec fn view(&self) -> IntV {
        IntV { surface_normal: self.surface_normal@, point: self.point@ }
    }
}

impl Intersection {
    /// Build an intersection record.
    pub fn new(surface_normal: Vector3, point: Vector3) -> (r: Intersection)
        ensures
            r@ == (IntV { surface_normal: surface_normal@, point: point@ }),
    {
        Intersection { surface_normal, point }
    }
}

} // verus!
