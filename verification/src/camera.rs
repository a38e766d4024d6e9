//! A virtual camera: eye position, orthonormal view basis, and the
//! tangent of the vertical half field-of-view.

use vstd::prelude::*;

use crate::fixed::{Fx, FX_ONE};
use crate::vector::{v3_cross, v3_dot, v3_normalized, Vector3, V3};

verus! {

/// Mathematical model of a camera.
pub ghost struct CamV {
    pub position: V3,
    pub direction: V3,
    pub up: V3,
    pub right: V3,
    pub vert_half_tan: int,
}

/// A virtual camera. `vert_half_tan` is the tangent of the vertical
/// half field-of-view angle, which fixes the image plane height.
#[derive(Clone, Copy, PartialEq, Eq, Structural, Debug)]
pub struct Camera {
    pub position: Vector3,
    pub direction: Vector3,
    pub up: Vector3,
    pub right: Vector3,
    pub vert_half_tan: Fx,
}

impl View for Camera {
    type V = CamV;

    open spec fn view(&self) -> CamV {
        CamV {
            position: self.position@,
            direction: self.direction@,
            up: self.up@,
            right: self.right@,
            vert_half_tan: self.vert_half_tan@,
        }
    }
}

/// The camera derived from ten scalars: position, view direction, up
/// hint, and the tangent of the vertical half angle. The direction and
/// up hint are normalized, the right vector completes the basis, and
/// the up vector is re-derived whenever the hint is not orthogonal to
/// the view direction.
pub open spec fn spec_camera_from_parameters(p: Seq<Fx>) -> CamV {
    let direction = v3_normalized(V3 { x: p[3]@, y: p[4]@, z: p[5]@ });
    let up0 = v3_normalized(V3 { x: p[6]@, y: p[7]@, z: p[8]@ });
    let right = v3_normalized(v3_cross(up0, direction));
    let up = if v3_dot(direction, up0) != 0 {
        v3_cross(direction, right)
    } else {
        up0
    };
    CamV {
        position: V3 { x: p[0]@, y: p[1]@, z: p[2]@ },
        direction: direction,
        up: up,
        right: right,
        vert_half_tan: p[9]@,
    }
}

impl Camera {
    /// Build a camera from ten scalars; see
    /// [`spec_camera_from_parameters`].
    pub fn from_parameters(parameters: &[Fx]) -> (r: Camera)
        requires
            parameters@.len() == 10,
        ensures
            r@ == spec_camera_from_parameters(parameters@),
    {
        let direction = Vector3::new(parameters[3], parameters[4], parameters[5]).normalized();
        let up0 = Vector3::new(parameters[6], parameters[7], parameters[8]).normalized();
        let right = up0.cross(&direction).normalized();
        let up = if !(direction.dot(&up0) == Fx::zero()) {
            direction.cross(&right)
        } else {
            up0
        };
        Camera {
            position: Vector3::new(parameters[0], parameters[1], parameters[2]),
            direction,
            up,
            right,
            vert_half_tan: parameters[9],
        }
    }
}

/// The canonical camera: at the origin, looking along +z with +y up
/// and +x right, with a 45-degree vertical half angle (tangent 1.0).
pub open spec fn spec_camera_default() -> CamV {
    CamV {
        position: V3 { x: 0, y: 0, z: 0 },
        direction: V3 { x: 0, y: 0, z: FX_ONE as int },
        up: V3 { x: 0, y: FX_ONE as int, z: 0 },
        right: V3 { x: FX_ONE as int, y: 0, z: 0 },
        vert_half_tan: FX_ONE as int,
    }
}

impl Default for Camera {
    /// The canonical camera; see [`spec_camera_default`].
    fn default() -> (r: Camera)
        ensures
            r@ == spec_camera_default(),
    {
        Camera {
            position: Vector3::zero(),
            direction: Vector3::new(Fx::zero(), Fx::zero(), Fx::one()),
            up: Vector3::new(Fx::zero(), Fx::one(), Fx::zero()),
            right: Vector3::new(Fx::one(), Fx::zero(), Fx::zero()),
            vert_half_tan: Fx::one(),
        }
    }
}

} // verus!
