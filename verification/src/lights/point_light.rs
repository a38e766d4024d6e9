//! Point light: radiates equally in all directions, with inverse-square
//! falloff.

use vstd::prelude::*;

use crate::camera::{CamV, Camera};
use crate::fixed::{fx_div, fx_mul, fx_powi, Fx, FX_ONE};
use crate::intersection::{IntV, Intersection};
use crate::material::{MatV, Material};
use crate::pixel::{pix_clamp, pix_mul, pix_scale, Pixel, PixV};
use crate::vector::{v3_dot, v3_length, v3_normalized, v3_reflect, v3_sub, Vector3, V3};

verus! {

/// Mathematical model of a point light.
pub ghost struct PointLightV {
    pub color: PixV,
    pub position: V3,
}

/// Direction from the intersection to the light.
pub open spec fn spec_point_direction(l: PointLightV, i: IntV) -> V3 {
    v3_sub(l.position, i.point)
}

/// Distance from the intersection to the light.
pub open spec fn spec_point_distance(l: PointLightV, i: IntV) -> int {
    v3_length(v3_sub(l.position, i.point))
}

/// Diffuse contribution: `color * diffuse * max(0, n . to_light) / d^2`
/// (the inverse-square law; a zero distance yields zero by total
/// division).
#[verifier::opaque]
pub open spec fn spec_point_diffuse(l: PointLightV, i: IntV, m: MatV) -> PixV {
    let dist = spec_point_distance(l, i);
    let source = fx_div(FX_ONE as int, fx_mul(dist, dist));
    let angle = vstd::math::max(v3_dot(i.surface_normal, v3_normalized(spec_point_direction(l, i))), 0);
    pix_scale(pix_scale(pix_mul(l.color, m.diffuse), angle), source)
}

/// Specular contribution (Phong): the to-light direction reflected
/// about the normal, dotted with the view vector, clamped to its
/// non-positive branch and raised to the Phong power.
#[verifier::opaque]
pub open spec fn spec_point_specular(l: PointLightV, cam: CamV, i: IntV, m: MatV) -> PixV {
    let view = v3_normalized(v3_sub(cam.position, i.point));
    let reflection = v3_reflect(v3_normalized(spec_point_direction(l, i)), i.surface_normal);
    let phong = fx_powi(vstd::math::min(v3_dot(view, reflection), 0), m.phong_power);
    pix_scale(pix_mul(pix_clamp(l.color), m.specular), phong)
}

/// A point light: a color and a position.
#[derive(Clone, Copy, Debug)]
pub struct PointLight {
    pub color: Pixel,
    pub position: Vector3,
}

impl View for PointLight {
    type V = PointLightV;

    open spec fn view(&self) -> PointLightV {
        PointLightV { color: self.color@, position: self.position@ }
    }
}

impl PointLight {
    /// Build a point light.
    pub fn new(color: Pixel, position: Vector3) -> (r: PointLight)
        ensures
            r@ == (PointLightV { color: color@, position: position@ }),
    {
        PointLight { color, position }
    }

    /// Direction from the intersection to the light.
    pub fn direction_to_light(&self, intersection: &Intersection) -> (r: Vector3)
        ensures
            r@ == spec_point_direction(self@, intersection@),
    {
        self.position.sub(intersection.point)
    }

    /// Distance from the intersection to the light.
    pub fn distance_to_light(&self, intersection: &Intersection) -> (r: Fx)
        ensures
            r@ == spec_point_distance(self@, intersection@),
    {
        self.position.sub(intersection.point).length()
    }

    /// Diffuse contribution; see [`spec_point_diffuse`].
    pub fn diffuse(&self, intersection: &Intersection, material: &Material) -> (r: Pixel)
        ensures
            r@ == spec_point_diffuse(self@, intersection@, material@),
    {
        proof {
            reveal(spec_point_diffuse);
        }
        let dist = self.distance_to_light(intersection);
        let source_illumination = Fx::one().div(dist.mul(dist));
        let angle = intersection.surface_normal.dot(
            &self.direction_to_light(intersection).normalized(),
        ).max(Fx::zero());
        self.color.mul(material.diffuse).mul_scalar(angle).mul_scalar(source_illumination)
    }

    /// Specular contribution; see [`spec_point_specular`].
    pub fn specular(&self, camera: &Camera, intersection: &Intersection, material: &Material) -> (r:
        Pixel)
        ensures
            r@ == spec_point_specular(self@, camera@, intersection@, material@),
    {
        proof {
            reveal(spec_point_specular);
        }
        let view = camera.position.sub(intersection.point).normalized();
        let reflection = self.direction_to_light(intersection).normalized().reflect(
            &intersection.surface_normal,
        );
        let phong_dot = view.dot(&reflection).min(Fx::zero()).powi(material.phong_power);
        self.color.clamp().mul(material.specular).mul_scalar(phong_dot)
    }
}

} // verus!
