//! Spot light: a point light restricted to a cone. Inside the inner
//! cone it shines at full strength, beyond the outer cone it is black,
//! and between the two it fades linearly.
//!
//! The cone is stored by the cosines of its two half-angles (a cosine
//! compares opposite to its angle: a larger angle has a smaller
//! cosine), so the cone test is a dot product.

use vstd::prelude::*;

use crate::camera::{CamV, Camera};
use crate::fixed::{fx_div, fx_mul, fx_powi, fx_sub, Fx, FX_ONE};
use crate::intersection::{IntV, Intersection};
use crate::material::{MatV, Material};
use crate::pixel::{pix_black, pix_clamp, pix_lerp, pix_mul, pix_scale, Pixel, PixV};
use crate::vector::{v3_dot, v3_length, v3_neg, v3_normalized, v3_reflect, v3_sub, Vector3, V3};

verus! {

/// Mathematical model of a spot light.
pub ghost struct SpotLightV {
    pub color: PixV,
    pub position: V3,
    pub direction: V3,
    pub cos_inner: int,
    pub cos_outer: int,
}

/// Direction from the intersection to the light.
pub open spec fn spec_spot_direction(l: SpotLightV, i: IntV) -> V3 {
    v3_sub(l.position, i.point)
}

/// Distance from the intersection to the light.
pub open spec fn spec_spot_distance(l: SpotLightV, i: IntV) -> int {
    v3_length(v3_sub(l.position, i.point))
}

/// Cosine of the angle between the direction to the light and the
/// spot's aim direction.
pub open spec fn spec_spot_cos(l: SpotLightV, i: IntV) -> int {
    v3_dot(v3_normalized(spec_spot_direction(l, i)), v3_normalized(v3_neg(l.direction)))
}

/// The cone fade applied to a full-strength contribution: full inside
/// the inner cone, black beyond the outer cone, and linearly
/// interpolated toward black between the two.
#[verifier::opaque]
pub open spec fn spec_spot_fade(l: SpotLightV, i: IntV, output: PixV) -> PixV {
    let c = spec_spot_cos(l, i);
    if c < l.cos_outer {
        pix_black()
    } else if c > l.cos_outer && c < l.cos_inner {
        let percentage = fx_div(fx_sub(l.cos_inner, c), fx_sub(l.cos_inner, l.cos_outer));
        pix_lerp(output, pix_black(), percentage)
    } else {
        output
    }
}

/// Diffuse contribution: as a point light, then faded by the cone.
#[verifier::opaque]
pub open spec fn spec_spot_diffuse(l: SpotLightV, i: IntV, m: MatV) -> PixV {
    let dist = spec_spot_distance(l, i);
    let source = fx_div(FX_ONE as int, fx_mul(dist, dist));
    let angle = vstd::math::max(v3_dot(i.surface_normal, v3_normalized(spec_spot_direction(l, i))), 0);
    let output = pix_scale(pix_scale(pix_mul(l.color, m.diffuse), angle), source);
    spec_spot_fade(l, i, output)
}

/// Specular contribution (Phong, non-positive branch), faded by the
/// cone.
#[verifier::opaque]
pub open spec fn spec_spot_specular(l: SpotLightV, cam: CamV, i: IntV, m: MatV) -> PixV {
    let view = v3_normalized(v3_sub(cam.position, i.point));
    let reflection = v3_reflect(v3_normalized(spec_spot_direction(l, i)), i.surface_normal);
    let phong = fx_powi(vstd::math::min(v3_dot(view, reflection), 0), m.phong_power);
    let output = pix_scale(pix_mul(pix_clamp(l.color), m.specular), phong);
    spec_spot_fade(l, i, output)
}

/// A spot light: color, position, aim direction, and the cosines of the
/// inner (full-strength) and outer (black) cone half-angles.
#[derive(Clone, Copy, Debug)]
pub struct SpotLight {
    pub color: Pixel,
    pub position: Vector3,
    pub direction: Vector3,
    pub cos_inner: Fx,
    pub cos_outer: Fx,
}

impl View for SpotLight {
    type V = SpotLightV;

    open spec fn view(&self) -> SpotLightV {
        SpotLightV {
            color: self.color@,
            position: self.position@,
            direction: self.direction@,
            cos_inner: self.cos_inner@,
            cos_outer: self.cos_outer@,
        }
    }
}

impl SpotLight {
    /// Build a spot light from the cosines of its cone half-angles.
    pub fn new(color: Pixel, position: Vector3, direction: Vector3, cos_inner: Fx, cos_outer: Fx) -> (r:
        SpotLight)
        ensures
            r@ == (SpotLightV {
                color: color@,
                position: position@,
                direction: direction@,
                cos_inner: cos_inner@,
                cos_outer: cos_outer@,
            }),
    {
        SpotLight { color, position, direction, cos_inner, cos_outer }
    }

    /// Direction from the intersection to the light.
    pub fn direction_to_light(&self, intersection: &Intersection) -> (r: Vector3)
        ensures
            r@ == spec_spot_direction(self@, intersection@),
    {
        self.position.sub(intersection.point)
    }

    /// Distance from the intersection to the light.
    pub fn distance_to_light(&self, intersection: &Intersection) -> (r: Fx)
        ensures
            r@ == spec_spot_distance(self@, intersection@),
    {
        self.position.sub(intersection.point).length()
    }

    /// The cone fade applied to a full-strength contribution; see
    /// [`spec_spot_fade`].
    fn fade(&self, intersection: &Intersection, output: Pixel) -> (r: Pixel)
        ensures
            r@ == spec_spot_fade(self@, intersection@, output@),
    {
        proof {
            reveal(spec_spot_fade);
        }
        let black = Pixel::from_rgb(Fx::zero(), Fx::zero(), Fx::zero());
        let c = self.direction_to_light(intersection).normalized().dot(
            &self.direction.neg().normalized(),
        );
        if c.lt(self.cos_outer) {
            black
        } else if c.gt(self.cos_outer) && c.lt(self.cos_inner) {
            let percentage = self.cos_inner.sub(c).div(self.cos_inner.sub(self.cos_outer));
            output.lerp(&black, percentage)
        } else {
            output
        }
    }

    /// Diffuse contribution; see [`spec_spot_diffuse`].
    pub fn diffuse(&self, intersection: &Intersection, material: &Material) -> (r: Pixel)
        ensures
            r@ == spec_spot_diffuse(self@, intersection@, material@),
    {
        proof {
            reveal(spec_spot_diffuse);
        }
        let dist = self.distance_to_light(intersection);
        let source_illumination = Fx::one().div(dist.mul(dist));
        let angle = intersection.surface_normal.dot(
            &self.direction_to_light(intersection).normalized(),
        ).max(Fx::zero());
        let output = self.color.mul(material.diffuse).mul_scalar(angle).mul_scalar(
            source_illumination,
        );
        self.fade(intersection, output)
    }

    /// Specular contribution; see [`spec_spot_specular`].
    pub fn specular(&self, camera: &Camera, intersection: &Intersection, material: &Material) -> (r:
        Pixel)
        ensures
            r@ == spec_spot_specular(self@, camera@, intersection@, material@),
    {
        proof {
            reveal(spec_spot_specular);
        }
        let view = camera.position.sub(intersection.point).normalized();
        let reflection = self.direction_to_light(intersection).normalized().reflect(
            &intersection.surface_normal,
        );
        let phong_dot = view.dot(&reflection).min(Fx::zero()).powi(material.phong_power);
        let output = self.color.clamp().mul(material.specular).mul_scalar(phong_dot);
        self.fade(intersection, output)
    }
}

} // verus!
