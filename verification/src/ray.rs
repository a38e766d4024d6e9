//! A ray: a starting point, a normalized direction, and a valid
//! parametric interval.

use vstd::prelude::*;

use crate::fixed::{fx_from_int, Fx};
use crate::vector::{v3_add, v3_normalized, v3_reflect, v3_refract, v3_scale, Vector3, V3};

verus! {

/// Mathematical model of a ray.
pub ghost struct RayV {
    pub start: V3,
    pub direction: V3,
    pub t_min: int,
    pub t_max: int,
}

/// Evaluation of a ray at parameter `t`: the point `start + direction * t`
/// when `t` lies within the valid interval, nothing otherwise.
pub open spec fn spec_ray_eval(r: RayV, t: int) -> Option<V3> {
    if t > r.t_max || t < r.t_min {
        None
    } else {
        Some(v3_add(r.start, v3_scale(r.direction, t)))
    }
}

/// A half-line. The direction is normalized at construction and never
/// mutated afterward.
#[derive(Clone, Copy, PartialEq, Eq, Structural, Debug)]
pub struct Ray {
    pub start: Vector3,
    pub direction: Vector3,
    pub t_min: Fx,
    pub t_max: Fx,
}

impl View for Ray {
    type V = RayV;

    open spec fn view(&self) -> RayV {
        RayV { start: self.start@, direction: self.direction@, t_min: self.t_min@, t_max: self.t_max@ }
    }
}

impl Ray {
    /// A ray with the default parametric bound of 1000.
    pub fn new(start: Vector3, direction: Vector3) -> (r: Ray)
        ensures
            r@ == (RayV {
                start: start@,
                direction: v3_normalized(direction@),
                t_min: 0int,
                t_max: fx_from_int(1000),
            }),
    {
        Ray::with_t_max(start, direction, Fx::from_int(1000))
    }

    /// A ray with an explicit upper parametric bound; the direction is
    /// normalized here.
    pub fn with_t_max(start: Vector3, direction: Vector3, t_max: Fx) -> (r: Ray)
        ensures
            r@ == (RayV {
                start: start@,
                direction: v3_normalized(direction@),
                t_min: 0int,
                t_max: t_max@,
            }),
    {
        Ray { start, direction: direction.normalized(), t_min: Fx::zero(), t_max }
    }

    /// Evaluate the ray, if the given `t` is within bounds.
    pub fn eval(&self, t: Fx) -> (r: Option<Vector3>)
        ensures
            match r {
                Some(p) => spec_ray_eval(self@, t@) == Some(p@),
                None => spec_ray_eval(self@, t@) is None,
            },
    {
        if t.gt(self.t_max) || t.lt(self.t_min) {
            None
        } else {
            Some(self.start.add(self.direction.scale(t)))
        }
    }

    /// The ray bouncing off a surface: starts at the hit point, headed
    /// along this ray's direction reflected about the normal.
    pub fn reflect(&self, new_start: Vector3, normal: Vector3) -> (r: Ray)
        ensures
            r@ == (RayV {
                start: new_start@,
                direction: v3_normalized(v3_normalized(v3_reflect(self@.direction, normal@))),
                t_min: 0int,
                t_max: fx_from_int(1000),
            }),
    {
        Ray::new(new_start, self.direction.reflect(&normal).normalized())
    }

    /// The ray transmitted through a surface: starts at the hit point,
    /// headed along this ray's direction refracted at the normal with
    /// refraction ratio `ior`.
    pub fn refract(&self, new_start: Vector3, normal: Vector3, ior: Fx) -> (r: Ray)
        ensures
            r@ == (RayV {
                start: new_start@,
                direction: v3_normalized(v3_normalized(v3_refract(self@.direction, normal@, ior@))),
                t_min: 0int,
                t_max: fx_from_int(1000),
            }),
    {
        Ray::new(new_start, self.direction.refract(normal, ior).normalized())
    }
}

} // verus!
