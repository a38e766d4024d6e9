//! A single triangle to be ray traced.

use vstd::prelude::*;

use crate::camera::Camera;
use crate::fixed::{fx_add, fx_div, fx_mul, fx_neg, fx_sqrt, fx_sub, Fx, FX_ONE};
use crate::intersection::{IntV, Intersection};
use crate::material::{MatV, Material};
use crate::objects::EPSILON_RAW;
use crate::ray::{spec_ray_eval, Ray, RayV};
use crate::vector::{
    v3_add, v3_cross, v3_dot, v3_length, v3_neg, v3_normalized, v3_scale, v3_sub, Vector3, V3,
};

verus! {

/// Mathematical model of a triangle.
pub ghost struct TriangleV {
    pub v1: V3,
    pub v2: V3,
    pub v3: V3,
    pub n1: V3,
    pub n2: V3,
    pub n3: V3,
    pub material: MatV,
    pub plane_normal: V3,
}

/// Whether `p1` and `p2` lie on the same side of the edge from `a` to
/// `b`: the two cross products point the same way (a zero dot product,
/// a point exactly on the edge, counts as inside).
pub open spec fn spec_same_side(p1: V3, p2: V3, a: V3, b: V3) -> bool {
    let cp1 = v3_cross(v3_sub(b, a), v3_sub(p1, a));
    let cp2 = v3_cross(v3_sub(b, a), v3_sub(p2, a));
    v3_dot(cp1, cp2) >= 0
}

/// The surface normal at `point`: the three vertex normals blended by
/// inverse-distance weights and renormalized, so the nearest vertex's
/// normal dominates. A hit exactly on a vertex has a zero inverse by
/// total division and falls back to the other vertices' blend.
pub open spec fn spec_bary_interp(point: V3, p1: V3, p2: V3, p3: V3, n1: V3, n2: V3, n3: V3) -> V3 {
    let i1 = fx_div(FX_ONE as int, v3_length(v3_sub(point, p1)));
    let i2 = fx_div(FX_ONE as int, v3_length(v3_sub(point, p2)));
    let i3 = fx_div(FX_ONE as int, v3_length(v3_sub(point, p3)));
    let total = fx_sqrt(fx_add(fx_add(fx_mul(i1, i1), fx_mul(i2, i2)), fx_mul(i3, i3)));
    let w1 = fx_div(i1, total);
    let w2 = fx_div(i2, total);
    let w3 = fx_div(i3, total);
    v3_normalized(v3_add(v3_add(v3_scale(n1, w1), v3_scale(n2, w2)), v3_scale(n3, w3)))
}

/// The hit of a ray on a triangle: intersect the containing plane, then
/// keep the point only when it passes all three same-side edge tests.
/// The normal at the hit is the blended vertex normal.
#[verifier::opaque]
pub open spec fn spec_triangle_intersect(tr: TriangleV, r: RayV) -> Option<IntV> {
    let d = v3_dot(tr.v1, tr.plane_normal);
    let t = fx_div(
        fx_neg(fx_sub(v3_dot(r.start, tr.plane_normal), d)),
        v3_dot(r.direction, tr.plane_normal),
    );
    if t >= EPSILON_RAW as int {
        match spec_ray_eval(r, t) {
            Some(p) => if spec_same_side(p, tr.v1, tr.v2, tr.v3) && spec_same_side(
                p,
                tr.v2,
                tr.v1,
                tr.v3,
            ) && spec_same_side(p, tr.v3, tr.v1, tr.v2) {
                Some(
                    IntV {
                        surface_normal: spec_bary_interp(
                            p,
                            tr.v1,
                            tr.v2,
                            tr.v3,
                            tr.n1,
                            tr.n2,
                            tr.n3,
                        ),
                        point: p,
                    },
                )
            } else {
                None
            },
            None => None,
        }
    } else {
        None
    }
}

/// The plane parameter at which a ray meets a triangle's supporting
/// plane.
pub open spec fn spec_triangle_plane_t(tr: TriangleV, r: RayV) -> int {
    fx_div(
        fx_neg(fx_sub(v3_dot(r.start, tr.plane_normal), v3_dot(tr.v1, tr.plane_normal))),
        v3_dot(r.direction, tr.plane_normal),
    )
}

/// A point inside the triangle must intersect: when the ray meets the
/// supporting plane at a valid parameter and the point passes all three
/// same-side edge tests (a point exactly on an edge counts as inside),
/// the hit is exactly that point, with the blended vertex normal.
pub proof fn lemma_triangle_inside_point_hits(tr: TriangleV, r: RayV)
    requires
        spec_triangle_plane_t(tr, r) >= EPSILON_RAW as int,
        spec_ray_eval(r, spec_triangle_plane_t(tr, r)) is Some,
        ({
            let p = spec_ray_eval(r, spec_triangle_plane_t(tr, r))->Some_0;
            spec_same_side(p, tr.v1, tr.v2, tr.v3) && spec_same_side(p, tr.v2, tr.v1, tr.v3)
                && spec_same_side(p, tr.v3, tr.v1, tr.v2)
        }),
    ensures
        ({
            let p = spec_ray_eval(r, spec_triangle_plane_t(tr, r))->Some_0;
            spec_triangle_intersect(tr, r) == Some(
                IntV {
                    surface_normal: spec_bary_interp(p, tr.v1, tr.v2, tr.v3, tr.n1, tr.n2, tr.n3),
                    point: p,
                },
            )
        }),
{
    reveal(spec_triangle_intersect);
}

/// A point outside the triangle must not intersect: when the ray meets
/// the supporting plane at a valid parameter but the point fails one of
/// the three same-side edge tests, there is no hit.
pub proof fn lemma_triangle_outside_point_misses(tr: TriangleV, r: RayV)
    requires
        spec_ray_eval(r, spec_triangle_plane_t(tr, r)) is Some,
        ({
            let p = spec_ray_eval(r, spec_triangle_plane_t(tr, r))->Some_0;
            !(spec_same_side(p, tr.v1, tr.v2, tr.v3) && spec_same_side(p, tr.v2, tr.v1, tr.v3)
                && spec_same_side(p, tr.v3, tr.v1, tr.v2))
        }),
    ensures
        spec_triangle_intersect(tr, r) is None,
{
    reveal(spec_triangle_intersect);
}

/// A triangle: three vertices, a normal per vertex, a material, and
/// the precomputed unit normal of its containing plane.
#[derive(Clone, Copy, Debug)]
pub struct Triangle {
    pub v1: Vector3,
    pub v2: Vector3,
    pub v3: Vector3,
    pub n1: Vector3,
    pub n2: Vector3,
    pub n3: Vector3,
    pub material: Material,
    pub plane_normal: Vector3,
}

impl View for Triangle {
    type V = TriangleV;

    open spec fn view(&self) -> TriangleV {
        TriangleV {
            v1: self.v1@,
            v2: self.v2@,
            v3: self.v3@,
            n1: self.n1@,
            n2: self.n2@,
            n3: self.n3@,
            material: self.material@,
            plane_normal: self.plane_normal@,
        }
    }
}

/// Whether two points lie on the same side of an edge; see
/// [`spec_same_side`].
fn same_side(p1: Vector3, p2: Vector3, a: Vector3, b: Vector3) -> (r: bool)
    ensures
        r == spec_same_side(p1@, p2@, a@, b@),
{
    let cp1 = b.sub(a).cross(&p1.sub(a));
    let cp2 = b.sub(a).cross(&p2.sub(a));
    cp1.dot(&cp2).ge(Fx::zero())
}

/// The blended vertex normal at a point; see [`spec_bary_interp`].
fn bary_interp(
    point: Vector3,
    p1: Vector3,
    p2: Vector3,
    p3: Vector3,
    n1: Vector3,
    n2: Vector3,
    n3: Vector3,
) -> (r: Vector3)
    ensures
        r@ == spec_bary_interp(point@, p1@, p2@, p3@, n1@, n2@, n3@),
{
    let i1 = Fx::one().div(point.sub(p1).length());
    let i2 = Fx::one().div(point.sub(p2).length());
    let i3 = Fx::one().div(point.sub(p3).length());
    let total = i1.mul(i1).add(i2.mul(i2)).add(i3.mul(i3)).sqrt();
    let w1 = i1.div(total);
    let w2 = i2.div(total);
    let w3 = i3.div(total);
    n1.scale(w1).add(n2.scale(w2)).add(n3.scale(w3)).normalized()
}

impl Triangle {
    /// Build a triangle from vertices and per-vertex normals; the plane
    /// normal is the normalized cross product of two edges.
    pub fn new(
        material: Material,
        v1: Vector3,
        v2: Vector3,
        v3: Vector3,
        n1: Vector3,
        n2: Vector3,
        n3: Vector3,
    ) -> (r: Triangle)
        ensures
            r@ == (TriangleV {
                v1: v1@,
                v2: v2@,
                v3: v3@,
                n1: n1@,
                n2: n2@,
                n3: n3@,
                material: material@,
                plane_normal: v3_normalized(v3_cross(v3_sub(v1@, v2@), v3_sub(v3@, v2@))),
            }),
    {
        let plane_normal = v1.sub(v2).cross(&v3.sub(v2)).normalized();
        Triangle { v1, v2, v3, n1, n2, n3, material, plane_normal }
    }

    /// Build a triangle whose flat face normal is guessed from the
    /// vertices: the edge cross product, flipped if needed to face the
    /// camera, used for all three vertex normals.
    pub fn guess_normal(
        material: Material,
        v1: Vector3,
        v2: Vector3,
        v3: Vector3,
        camera: &Camera,
    ) -> (r: Triangle)
        ensures
            ({
                let g0 = v3_normalized(v3_cross(v3_sub(v1@, v2@), v3_sub(v3@, v2@)));
                let g = if v3_dot(g0, camera@.direction) < 0 {
                    g0
                } else {
                    v3_neg(g0)
                };
                r@ == (TriangleV {
                    v1: v1@,
                    v2: v2@,
                    v3: v3@,
                    n1: g,
                    n2: g,
                    n3: g,
                    material: material@,
                    plane_normal: g0,
                })
            }),
    {
        let guessed0 = v1.sub(v2).cross(&v3.sub(v2)).normalized();
        let guessed = if guessed0.dot(&camera.direction).lt(Fx::zero()) {
            guessed0
        } else {
            guessed0.neg()
        };
        let plane_normal = v1.sub(v2).cross(&v3.sub(v2)).normalized();
        Triangle { v1, v2, v3, n1: guessed, n2: guessed, n3: guessed, material, plane_normal }
    }

    /// The hit of a ray on this triangle; see
    /// [`spec_triangle_intersect`].
    pub fn intersects(&self, ray: &Ray) -> (r: Option<Intersection>)
        ensures
            match r {
                Some(i) => spec_triangle_intersect(self@, ray@) == Some(i@),
                None => spec_triangle_intersect(self@, ray@) is None,
            },
    {
        proof {
            reveal(spec_triangle_intersect);
        }
        let d = self.v1.dot(&self.plane_normal);
        let t = ray.start.dot(&self.plane_normal).sub(d).neg().div(
            ray.direction.dot(&self.plane_normal),
        );
        if t.ge(Fx::from_raw(EPSILON_RAW)) {
            let p = ray.eval(t);
            match p {
                Some(p) => {
                    if same_side(p, self.v1, self.v2, self.v3) && same_side(
                        p,
                        self.v2,
                        self.v1,
                        self.v3,
                    ) && same_side(p, self.v3, self.v1, self.v2) {
                        Some(
                            Intersection::new(
                                bary_interp(p, self.v1, self.v2, self.v3, self.n1, self.n2, self.n3),
                                p,
                            ),
                        )
                    } else {
                        None
                    }
                },
                None => None,
            }
        } else {
            None
        }
    }
}

} // verus!
