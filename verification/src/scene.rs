//! A description of a scene to be ray traced: camera, resolution,
//! colors, objects, lights, and the recursion depth limit. A scene is
//! assembled by an external loader and consumed read-only by the
//! renderer.

use vstd::prelude::*;

use crate::camera::{spec_camera_default, CamV, Camera};
use crate::fixed::Fx;
use crate::lights::{Light, LightV};
use crate::objects::{Object, ObjectV};
use crate::pixel::{pix_black, Pixel, PixV};
use crate::vector::v3_length;

verus! {

/// Mathematical model of a scene.
pub ghost struct SceneV {
    pub camera: CamV,
    pub width: int,
    pub height: int,
    pub output_image: Seq<char>,
    pub background: PixV,
    pub objects: Seq<ObjectV>,
    pub ambient_light: PixV,
    pub lights: Seq<LightV>,
    pub max_depth: nat,
}

/// Why rendering refuses a scene outright.
#[derive(Clone, Copy, PartialEq, Eq, Structural, Debug)]
pub enum RenderError {
    /// The output resolution has a zero width or height.
    ZeroResolution,
    /// A camera basis vector has zero length.
    DegenerateCamera,
    /// The encoded image would overflow the text encoder's
    /// address-space bound.
    OutputTooLarge,
}

/// The machine limits a scene must respect so that rendering cannot
/// overflow: each dimension fits the encoder's range, the pixel count
/// fits the address space, and one more recursion level stays
/// countable.
pub open spec fn scene_fits(s: SceneV) -> bool {
    &&& s.width <= u32::MAX
    &&& s.height <= u32::MAX
    &&& s.width * s.height <= usize::MAX
    &&& s.max_depth < usize::MAX
}

/// The fatal conditions: a zero-sized image, or a camera with a
/// degenerate (zero-length) basis vector. Everything else is recovered
/// per ray.
pub open spec fn spec_render_error(s: SceneV) -> Option<RenderError> {
    if s.width <= 0 || s.height <= 0 {
        Some(RenderError::ZeroResolution)
    } else if v3_length(s.camera.direction) == 0 || v3_length(s.camera.up) == 0 || v3_length(
        s.camera.right,
    ) == 0 {
        Some(RenderError::DegenerateCamera)
    } else {
        None
    }
}

/// A scene free of fatal conditions.
pub open spec fn scene_wf(s: SceneV) -> bool {
    spec_render_error(s) is None
}

/// A scene: everything the renderer reads.
#[derive(Debug)]
pub struct Scene {
    /// The scene's camera.
    pub camera: Camera,
    /// The resolution of the output image: (width, height).
    pub resolution: (usize, usize),
    /// The file path for the output image, kept for the external
    /// writer.
    pub output_image: String,
    /// The background color.
    pub background: Pixel,
    /// All the objects in the scene.
    pub objects: Vec<Object>,
    /// Ambient lighting in the scene.
    pub ambient_light: Pixel,
    /// All other lights in the scene.
    pub lights: Vec<Light>,
    /// The max depth of a ray.
    pub max_depth: usize,
}

impl View for Scene {
    type V = SceneV;

    open spec fn view(&self) -> SceneV {
        SceneV {
            camera: self.camera@,
            width: self.resolution.0 as int,
            height: self.resolution.1 as int,
            output_image: self.output_image@,
            background: self.background@,
            objects: self.objects@.map_values(|o: Object| o@),
            ambient_light: self.ambient_light@,
            lights: self.lights@.map_values(|l: Light| l@),
            max_depth: self.max_depth as nat,
        }
    }
}

impl Scene {
    /// Whether the scene is free of fatal conditions, and which fatal
    /// condition applies otherwise.
    pub fn check(&self) -> (r: Option<RenderError>)
        ensures
            r == spec_render_error(self@),
    {
        if self.resolution.0 == 0 || self.resolution.1 == 0 {
            Some(RenderError::ZeroResolution)
        } else if self.camera.direction.length() == Fx::zero() || self.camera.up.length()
            == Fx::zero() || self.camera.right.length() == Fx::zero() {
            Some(RenderError::DegenerateCamera)
        } else {
            None
        }
    }
}

impl Default for Scene {
    /// An empty scene: canonical camera, 640 by 480 output, black
    /// background and ambient light, no objects or lights, recursion
    /// depth 5.
    fn default() -> (r: Scene)
        ensures
            r@.width == 640,
            r@.height == 480,
            r@.background == pix_black(),
            r@.ambient_light == pix_black(),
            r@.objects.len() == 0,
            r@.lights.len() == 0,
            r@.max_depth == 5,
            r@.camera == spec_camera_default(),
    {
        Scene {
            camera: Camera::default(),
            resolution: (640, 480),
            output_image: "./raytraced.bmp".to_string(),
            background: Pixel::from_rgb(Fx::zero(), Fx::zero(), Fx::zero()),
            objects: Vec::new(),
            ambient_light: Pixel::from_rgb(Fx::zero(), Fx::zero(), Fx::zero()),
            lights: Vec::new(),
            max_depth: 5,
        }
    }
}

} // verus!
