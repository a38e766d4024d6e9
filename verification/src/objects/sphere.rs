//! A sphere to be ray traced.

use vstd::prelude::*;

use crate::fixed::{fx_add, fx_div, fx_from_int, fx_mul, fx_neg, fx_sqrt, fx_sub, Fx};
use crate::intersection::{IntV, Intersection};
use crate::material::{MatV, Material};
use crate::objects::EPSILON_RAW;
use crate::ray::{spec_ray_eval, Ray, RayV};
use crate::vector::{v3_dot, v3_normalized, v3_sub, Vector3, V3};

verus! {

/// Mathematical model of a sphere.
pub ghost struct SphereV {
    pub radius: int,
    pub position: V3,
    pub material: MatV,
}

/// The discriminant of the quadratic `a t^2 + b t + c = 0` built from
/// the ray and the sphere: `a = d . d`, `b = 2 d . (o - c)`,
/// `c = (o - c) . (o - c) - radius^2`.
pub open spec fn spec_sphere_discriminant(s: SphereV, r: RayV) -> int {
    let stc = v3_sub(r.start, s.position);
    let a = v3_dot(r.direction, r.direction);
    let b = fx_mul(fx_from_int(2), v3_dot(r.direction, stc));
    let c = fx_sub(v3_dot(stc, stc), fx_mul(s.radius, s.radius));
    fx_sub(fx_mul(b, b), fx_mul(fx_mul(fx_from_int(4), a), c))
}

/// The two quadratic roots, ordered: the smaller first.
pub open spec fn spec_sphere_roots(s: SphereV, r: RayV) -> (int, int) {
    let stc = v3_sub(r.start, s.position);
    let a = v3_dot(r.direction, r.direction);
    let b = fx_mul(fx_from_int(2), v3_dot(r.direction, stc));
    let sq = fx_sqrt(spec_sphere_discriminant(s, r));
    let t1 = fx_div(fx_add(fx_neg(b), sq), fx_mul(fx_from_int(2), a));
    let t2 = fx_div(fx_sub(fx_neg(b), sq), fx_mul(fx_from_int(2), a));
    if t1 <= t2 {
        (t1, t2)
    } else {
        (t2, t1)
    }
}

/// The hit record at the ray point for parameter `t`: the point itself
/// and the surface normal from the sphere's center through it.
pub open spec fn spec_sphere_hit_at(s: SphereV, r: RayV, t: int) -> IntV {
    let p = spec_ray_eval(r, t)->Some_0;
    IntV { surface_normal: v3_normalized(v3_sub(p, s.position)), point: p }
}

/// Whether a root qualifies as a hit: past epsilon and within the
/// ray's valid interval.
pub open spec fn spec_sphere_root_qualifies(r: RayV, t: int) -> bool {
    t > EPSILON_RAW as int && spec_ray_eval(r, t) is Some
}

/// The nearest valid hit of a ray on a sphere. A negative discriminant
/// (no real root) means no hit. Otherwise each root qualifies on its
/// own: the smaller root wins when it exceeds epsilon and lies in the
/// ray's interval, else the larger root wins under the same test (so a
/// ray starting inside the sphere exits through it), else there is no
/// hit.
#[verifier::opaque]
pub open spec fn spec_sphere_intersect(s: SphereV, r: RayV) -> Option<IntV> {
    if spec_sphere_discriminant(s, r) >= 0 {
        let roots = spec_sphere_roots(s, r);
        if spec_sphere_root_qualifies(r, roots.0) {
            Some(spec_sphere_hit_at(s, r, roots.0))
        } else if spec_sphere_root_qualifies(r, roots.1) {
            Some(spec_sphere_hit_at(s, r, roots.1))
        } else {
            None
        }
    } else {
        None
    }
}

/// A sphere: radius, center, and material.
#[derive(Clone, Copy, Debug)]
pub struct Sphere {
    pub radius: Fx,
    pub position: Vector3,
    pub material: Material,
}

impl View for Sphere {
    type V = SphereV;

    open spec fn view(&self) -> SphereV {
        SphereV { radius: self.radius@, position: self.position@, material: self.material@ }
    }
}

impl Sphere {
    /// Build a sphere.
    pub fn new(radius: Fx, position: Vector3, material: Material) -> (r: Sphere)
        ensures
            r@ == (SphereV { radius: radius@, position: position@, material: material@ }),
    {
        Sphere { radius, position, material }
    }

    /// The nearest valid hit of a ray on this sphere; see
    /// [`spec_sphere_intersect`].
    pub fn intersects(&self, ray: &Ray) -> (r: Option<Intersection>)
        ensures
            match r {
                Some(i) => spec_sphere_intersect(self@, ray@) == Some(i@),
                None => spec_sphere_intersect(self@, ray@) is None,
            },
    {
        proof {
            reveal(spec_sphere_intersect);
        }
        let start_to_center = ray.start.sub(self.position);
        let a = ray.direction.dot(&ray.direction);
        let b = Fx::from_int(2).mul(ray.direction.dot(&start_to_center));
        let c = start_to_center.dot(&start_to_center).sub(self.radius.mul(self.radius));
        let discriminant = b.mul(b).sub(Fx::from_int(4).mul(a).mul(c));
        if discriminant.ge(Fx::zero()) {
            let sq = discriminant.sqrt();
            let t1 = b.neg().add(sq).div(Fx::from_int(2).mul(a));
            let t2 = b.neg().sub(sq).div(Fx::from_int(2).mul(a));
            let t_near = if t1.le(t2) {
                t1
            } else {
                t2
            };
            let t_far = if t1.le(t2) {
                t2
            } else {
                t1
            };
            let p_near = ray.eval(t_near);
            let p_far = ray.eval(t_far);
            let eps = Fx::from_raw(EPSILON_RAW);
            if t_near.gt(eps) && p_near.is_some() {
                let p = p_near.unwrap();
                Some(Intersection::new(p.sub(self.position).normalized(), p))
            } else if t_far.gt(eps) && p_far.is_some() {
                let p = p_far.unwrap();
                Some(Intersection::new(p.sub(self.position).normalized(), p))
            } else {
                None
            }
        } else {
            None
        }
    }
}

/// A sphere with no real quadratic root is missed outright: a negative
/// discriminant means the ray's line stays outside the sphere, and the
/// intersection is nothing for every such ray.
pub proof fn lemma_sphere_no_real_root_misses(s: SphereV, r: RayV)
    requires
        spec_sphere_discriminant(s, r) < 0,
    ensures
        spec_sphere_intersect(s, r) is None,
{
    reveal(spec_sphere_intersect);
}

/// The smaller positive root wins: when it exceeds epsilon and lies in
/// the ray's interval, the hit is at that root's point.
pub proof fn lemma_sphere_near_root_hits(s: SphereV, r: RayV)
    requires
        spec_sphere_discriminant(s, r) >= 0,
        spec_sphere_root_qualifies(r, spec_sphere_roots(s, r).0),
    ensures
        spec_sphere_intersect(s, r) == Some(spec_sphere_hit_at(s, r, spec_sphere_roots(s, r).0)),
{
    reveal(spec_sphere_intersect);
}

/// A ray starting inside the sphere exits through it: when the smaller
/// root fails its test but the larger root exceeds epsilon and lies in
/// the ray's interval, the hit is at the larger root's point.
pub proof fn lemma_sphere_far_root_exits(s: SphereV, r: RayV)
    requires
        spec_sphere_discriminant(s, r) >= 0,
        !spec_sphere_root_qualifies(r, spec_sphere_roots(s, r).0),
        spec_sphere_root_qualifies(r, spec_sphere_roots(s, r).1),
    ensures
        spec_sphere_intersect(s, r) == Some(spec_sphere_hit_at(s, r, spec_sphere_roots(s, r).1)),
{
    reveal(spec_sphere_intersect);
}

} // verus!
