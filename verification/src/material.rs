//! A material to apply to a ray-traced object.

use vstd::prelude::*;

use crate::fixed::{Fx, FX_ONE};
use crate::pixel::{Pixel, PixV};

verus! {

/// Mathematical model of a material.
pub ghost struct MatV {
    pub ambient: PixV,
    pub diffuse: PixV,
    pub specular: PixV,
    pub phong_power: nat,
    pub transmissive: PixV,
    pub ior: int,
}

/// Ray tracing material: ambient, diffuse, specular, and transmissive
/// color coefficients, the Phong specular exponent, and the index of
/// refraction. A value type, cloned per referencing object.
#[derive(Clone, Copy, Debug)]
pub struct Material {
    pub ambient: Pixel,
    pub diffuse: Pixel,
    pub specular: Pixel,
    pub phong_power: u32,
    pub transmissive: Pixel,
    pub ior: Fx,
}

impl View for Material {
    type V = MatV;

    open spec fn view(&self) -> MatV {
        MatV {
            ambient: self.ambient@,
            diffuse: self.diffuse@,
            specular: self.specular@,
            phong_power: self.phong_power as nat,
            transmissive: self.transmissive@,
            ior: self.ior@,
        }
    }
}

impl Material {
    /// Build a material from its five coefficients.
    pub fn new(
        ambient: Pixel,
        diffuse: Pixel,
        specular: Pixel,
        phong_power: u32,
        transmissive: Pixel,
        ior: Fx,
    ) -> (r: Material)
        ensures
            r@ == (MatV {
                ambient: ambient@,
                diffuse: diffuse@,
                specular: specular@,
                phong_power: phong_power as nat,
                transmissive: transmissive@,
                ior: ior@,
            }),
    {
        Material { ambient, diffuse, specular, phong_power, transmissive, ior }
    }
}

impl Default for Material {
    /// A plain matte material: black ambient, specular and transmissive
    /// coefficients, full diffuse, Phong power 5, refraction index 1.
    fn default() -> (r: Material)
        ensures
            r@.ambient.r == 0 && r@.ambient.g == 0 && r@.ambient.b == 0,
            r@.ambient.a == FX_ONE as int && r@.ambient.clamping,
            r@.diffuse.r == FX_ONE as int && r@.diffuse.g == FX_ONE as int,
            r@.diffuse.b == FX_ONE as int && r@.diffuse.a == FX_ONE as int,
            r@.diffuse.clamping,
            r@.specular == r@.ambient,
            r@.transmissive == r@.ambient,
            r@.phong_power == 5,
            r@.ior == FX_ONE as int,
    {
        Material {
            ambient: Pixel::from_rgb(Fx::zero(), Fx::zero(), Fx::zero()),
            diffuse: Pixel::from_rgb(Fx::one(), Fx::one(), Fx::one()),
            specular: Pixel::from_rgb(Fx::zero(), Fx::zero(), Fx::zero()),
            phong_power: 5,
            transmissive: Pixel::from_rgb(Fx::zero(), Fx::zero(), Fx::zero()),
            ior: Fx::one(),
        }
    }
}

} // verus!
