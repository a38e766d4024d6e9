//! The lights of a scene: point, directional and spot lights, gathered
//! in one closed variant type. Each produces, for a surface
//! intersection, a direction and distance to the light and its diffuse
//! and specular contributions.
//!
//! Note that the Phong specular term is driven by the *non-positive*
//! branch of the view-reflection dot product (`min(dot, 0)` raised to
//! the Phong power) rather than the usual `max(dot, 0)`. The convention
//! is unusual but deliberate: downstream expectations are calibrated to
//! it, so it is preserved exactly rather than corrected.

use vstd::prelude::*;

pub mod directional_light;
pub mod point_light;
pub mod spot_light;

use crate::camera::{CamV, Camera};
use crate::fixed::{Fx, FX_MAX_RAW};
use crate::intersection::{IntV, Intersection};
use crate::material::{MatV, Material};
use crate::pixel::{Pixel, PixV};
use crate::vector::{Vector3, V3};
use directional_light::{
    spec_directional_diffuse, spec_directional_direction, spec_directional_specular,
    DirectionalLight, DirectionalLightV,
};
use point_light::{
    spec_point_diffuse, spec_point_direction, spec_point_distance, spec_point_specular, PointLight,
    PointLightV,
};
use spot_light::{
    spec_spot_diffuse, spec_spot_direction, spec_spot_distance, spec_spot_specular, SpotLight,
    SpotLightV,
};

verus! {

/// Mathematical model of a light.
pub ghost enum LightV {
    Point(PointLightV),
    Directional(DirectionalLightV),
    Spot(SpotLightV),
}

/// Direction from the intersection to the light.
pub open spec fn spec_light_direction(l: LightV, i: IntV) -> V3 {
    match l {
        LightV::Point(p) => spec_point_direction(p, i),
        LightV::Directional(d) => spec_directional_direction(d),
        LightV::Spot(s) => spec_spot_direction(s, i),
    }
}

/// Distance from the intersection to the light; unbounded (the largest
/// scalar) for a directional light.
pub open spec fn spec_light_distance(l: LightV, i: IntV) -> int {
    match l {
        LightV::Point(p) => spec_point_distance(p, i),
        LightV::Directional(d) => FX_MAX_RAW as int,
        LightV::Spot(s) => spec_spot_distance(s, i),
    }
}

/// The light's diffuse contribution at an intersection.
pub open spec fn spec_light_diffuse(l: LightV, i: IntV, m: MatV) -> PixV {
    match l {
        LightV::Point(p) => spec_point_diffuse(p, i, m),
        LightV::Directional(d) => spec_directional_diffuse(d, i, m),
        LightV::Spot(s) => spec_spot_diffuse(s, i, m),
    }
}

/// The light's specular contribution at an intersection.
pub open spec fn spec_light_specular(l: LightV, cam: CamV, i: IntV, m: MatV) -> PixV {
    match l {
        LightV::Point(p) => spec_point_specular(p, cam, i, m),
        LightV::Directional(d) => spec_directional_specular(d, cam, i, m),
        LightV::Spot(s) => spec_spot_specular(s, cam, i, m),
    }
}

/// A light of the scene: one of the three kinds.
#[derive(Clone, Copy, Debug)]
pub enum Light {
    Point(PointLight),
    Directional(DirectionalLight),
    Spot(SpotLight),
}

impl View for Light {
    type V = LightV;

    open spec fn view(&self) -> LightV {
        match self {
            Light::Point(p) => LightV::Point(p@),
            Light::Directional(d) => LightV::Directional(d@),
            Light::Spot(s) => LightV::Spot(s@),
        }
    }
}

impl Light {
    /// Direction from the intersection to the light.
    pub fn direction_to_light(&self, intersection: &Intersection) -> (r: Vector3)
        ensures
            r@ == spec_light_direction(self@, intersection@),
    {
        match self {
            Light::Point(p) => p.direction_to_light(intersection),
            Light::Directional(d) => d.direction_to_light(intersection),
            Light::Spot(s) => s.direction_to_light(intersection),
        }
    }

    /// Distance from the intersection to the light.
    pub fn distance_to_light(&self, intersection: &Intersection) -> (r: Fx)
        ensures
            r@ == spec_light_distance(self@, intersection@),
    {
        match self {
            Light::Point(p) => p.distance_to_light(intersection),
            Light::Directional(d) => d.distance_to_light(intersection),
            Light::Spot(s) => s.distance_to_light(intersection),
        }
    }

    /// The diffuse contribution at an intersection.
    pub fn diffuse(&self, intersection: &Intersection, material: &Material) -> (r: Pixel)
        ensures
            r@ == spec_light_diffuse(self@, intersection@, material@),
    {
        match self {
            Light::Point(p) => p.diffuse(intersection, material),
            Light::Directional(d) => d.diffuse(intersection, material),
            Light::Spot(s) => s.diffuse(intersection, material),
        }
    }

    /// The specular contribution at an intersection.
    pub fn specular(&self, camera: &Camera, intersection: &Intersection, material: &Material) -> (r:
        Pixel)
        ensures
            r@ == spec_light_specular(self@, camera@, intersection@, material@),
    {
        match self {
            Light::Point(p) => p.specular(camera, intersection, material),
            Light::Directional(d) => d.specular(camera, intersection, material),
            Light::Spot(s) => s.specular(camera, intersection, material),
        }
    }
}

} // verus!
