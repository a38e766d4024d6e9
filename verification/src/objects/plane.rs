//! An infinite plane to be ray traced.

use vstd::prelude::*;

use crate::fixed::{fx_div, fx_neg, fx_sub, Fx};
use crate::intersection::{IntV, Intersection};
use crate::material::{MatV, Material};
use crate::objects::EPSILON_RAW;
use crate::ray::{spec_ray_eval, Ray, RayV};
use crate::vector::{v3_dot, v3_normalized, Vector3, V3};

verus! {

/// Mathematical model of a plane.
pub ghost struct PlaneV {
    pub point: V3,
    pub normal: V3,
    pub material: MatV,
}

/// The hit of a ray on a plane: `t = -(start . n - point . n) / (dir . n)`.
/// A ray parallel to the plane has a zero denominator; division is
/// total and yields zero there, which falls below epsilon, so a
/// parallel ray misses. The normal is constant across the plane.
#[verifier::opaque]
pub open spec fn spec_plane_intersect(p: PlaneV, r: RayV) -> Option<IntV> {
    let d = v3_dot(p.point, p.normal);
    let t = fx_div(fx_neg(fx_sub(v3_dot(r.start, p.normal), d)), v3_dot(r.direction, p.normal));
    if t >= EPSILON_RAW as int {
        match spec_ray_eval(r, t) {
            Some(pt) => Some(IntV { surface_normal: p.normal, point: pt }),
            None => None,
        }
    } else {
        None
    }
}

/// A plane: a point on it, its unit normal, and a material.
#[derive(Clone, Copy, Debug)]
pub struct Plane {
    pub point: Vector3,
    pub normal: Vector3,
    pub material: Material,
}

impl View for Plane {
    type V = PlaneV;

    open spec fn view(&self) -> PlaneV {
        PlaneV { point: self.point@, normal: self.normal@, material: self.material@ }
    }
}

impl Plane {
    /// Build a plane; the normal is normalized here.
    pub fn new(material: Material, point: Vector3, normal: Vector3) -> (r: Plane)
        ensures
            r@ == (PlaneV {
                point: point@,
                normal: crate::vector::v3_normalized(normal@),
                material: material@,
            }),
    {
        Plane { point, normal: normal.normalized(), material }
    }

    /// The hit of a ray on this plane; see [`spec_plane_intersect`].
    pub fn intersects(&self, ray: &Ray) -> (r: Option<Intersection>)
        ensures
            match r {
                Some(i) => spec_plane_intersect(self@, ray@) == Some(i@),
                None => spec_plane_intersect(self@, ray@) is None,
            },
    {
        proof {
            reveal(spec_plane_intersect);
        }
        let d = self.point.dot(&self.normal);
        let t = ray.start.dot(&self.normal).sub(d).neg().div(ray.direction.dot(&self.normal));
        if t.ge(Fx::from_raw(EPSILON_RAW)) {
            let p = ray.eval(t);
            match p {
                Some(pt) => Some(Intersection::new(self.normal, pt)),
                None => None,
            }
        } else {
            None
        }
    }
}

} // verus!
