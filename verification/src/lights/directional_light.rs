//! Directional light: a star-like light with a direction but no
//! position, no falloff, and an effectively unbounded distance.

use vstd::prelude::*;

use crate::camera::{CamV, Camera};
use crate::fixed::{fx_powi, Fx, FX_MAX_RAW};
use crate::intersection::{IntV, Intersection};
use crate::material::{MatV, Material};
use crate::pixel::{pix_clamp, pix_mul, pix_scale, Pixel, PixV};
use crate::vector::{v3_dot, v3_neg, v3_normalized, v3_reflect, v3_sub, Vector3, V3};

verus! {

/// Mathematical model of a directional light.
pub ghost struct DirectionalLightV {
    pub color: PixV,
    pub direction: V3,
}

/// Direction to the light: opposite the light's own direction,
/// normalized.
pub open spec fn spec_directional_direction(l: DirectionalLightV) -> V3 {
    v3_neg(v3_normalized(l.direction))
}

/// Diffuse contribution: `color * diffuse * max(0, n . to_light)`, with
/// no positional falloff.
#[verifier::opaque]
pub open spec fn spec_directional_diffuse(l: DirectionalLightV, i: IntV, m: MatV) -> PixV {
    let angle = vstd::math::max(v3_dot(i.surface_normal, spec_directional_direction(l)), 0);
    pix_scale(pix_mul(l.color, m.diffuse), angle)
}

/// Specular contribution (Phong), on the non-positive branch of the
/// view-reflection dot product.
#[verifier::opaque]
pub open spec fn spec_directional_specular(l: DirectionalLightV, cam: CamV, i: IntV, m: MatV) -> PixV {
    let view = v3_normalized(v3_sub(cam.position, i.point));
    let reflection = v3_reflect(spec_directional_direction(l), i.surface_normal);
    let phong = fx_powi(vstd::math::min(v3_dot(view, reflection), 0), m.phong_power);
    pix_scale(pix_mul(pix_clamp(l.color), m.specular), phong)
}

/// A directional light: a color and a direction.
#[derive(Clone, Copy, Debug)]
pub struct DirectionalLight {
    pub color: Pixel,
    pub direction: Vector3,
}

impl View for DirectionalLight {
    type V = DirectionalLightV;

    open spec fn view(&self) -> DirectionalLightV {
        DirectionalLightV { color: self.color@, direction: self.direction@ }
    }
}

impl DirectionalLight {
    /// Build a directional light.
    pub fn new(color: Pixel, direction: Vector3) -> (r: DirectionalLight)
        ensures
            r@ == (DirectionalLightV { color: color@, direction: direction@ }),
    {
        DirectionalLight { color, direction }
    }

    /// Direction from any intersection to the light.
    pub fn direction_to_light(&self, _intersection: &Intersection) -> (r: Vector3)
        ensures
            r@ == spec_directional_direction(self@),
    {
        self.direction.normalized().neg()
    }

    /// Distance to the light: the largest representable scalar, so
    /// shadow rays are not range-limited.
    pub fn distance_to_light(&self, _intersection: &Intersection) -> (r: Fx)
        ensures
            r@ == FX_MAX_RAW as int,
    {
        Fx::from_raw(FX_MAX_RAW)
    }

    /// Diffuse contribution; see [`spec_directional_diffuse`].
    pub fn diffuse(&self, intersection: &Intersection, material: &Material) -> (r: Pixel)
        ensures
            r@ == spec_directional_diffuse(self@, intersection@, material@),
    {
        proof {
            reveal(spec_directional_diffuse);
        }
        let angle = intersection.surface_normal.dot(&self.direction_to_light(intersection)).max(
            Fx::zero(),
        );
        self.color.mul(material.diffuse).mul_scalar(angle)
    }

    /// Specular contribution; see [`spec_directional_specular`].
    pub fn specular(&self, camera: &Camera, intersection: &Intersection, material: &Material) -> (r:
        Pixel)
        ensures
            r@ == spec_directional_specular(self@, camera@, intersection@, material@),
    {
        proof {
            reveal(spec_directional_specular);
        }
        let view = camera.position.sub(intersection.point).normalized();
        let reflection = self.direction_to_light(intersection).reflect(&intersection.surface_normal);
        let phong_dot = view.dot(&reflection).min(Fx::zero()).powi(material.phong_power);
        self.color.clamp().mul(material.specular).mul_scalar(phong_dot)
    }
}

} // verus!
