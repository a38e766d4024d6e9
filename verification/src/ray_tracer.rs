//! The recursive ray tracing engine.
//!
//! For every output pixel the renderer casts a primary ray, scans every
//! object for the nearest hit, shades it with ambient light, shadowed
//! direct lighting, and recursive reflection and refraction, and stores
//! the clamped color. Recursion is bounded solely by the scene's
//! maximum depth: past it a ray contributes pure black.

use vstd::prelude::*;

use base64::Engine;

use crate::fixed::{fx_div, fx_from_int, fx_mul, fx_sub, Fx, FX_HALF};
use crate::image::{png_bytes_of, raw_of_pixel, spec_image_bytes, Image};
use crate::intersection::{IntV, Intersection};
use crate::lights::{
    spec_light_diffuse, spec_light_direction, spec_light_distance, spec_light_specular, Light,
    LightV,
};
use crate::objects::{spec_object_intersect, spec_object_material, Object, ObjectV};
use crate::pixel::{pix_add, pix_black, pix_mul, Pixel, PixV, RawPixel};
use crate::ray::{Ray, RayV};
use crate::scene::{scene_fits, scene_wf, spec_render_error, RenderError, Scene, SceneV};
use crate::vector::{
    v3_add, v3_length, v3_max, v3_normalized, v3_reflect, v3_refract, v3_scale, v3_sub, Vector3, V3,
};

verus! {

use vstd::arithmetic::div_mod::{
    lemma_div_pos_is_pos,
    lemma_fundamental_div_mod,
    lemma_mod_division_less_than_divisor,
    lemma_multiply_divide_lt,
};
use vstd::arithmetic::mul::lemma_mul_is_commutative;

/// The sentinel "no hit yet": an intersection maximally far away.
pub open spec fn spec_sentinel() -> IntV {
    IntV { surface_normal: v3_max(), point: v3_max() }
}

/// Whether one object blocks a shadow ray before it reaches the light:
/// it intersects the ray at a point closer to the surface point than
/// the light is.
pub open spec fn spec_blocks(o: ObjectV, shadow_ray: RayV, point: V3, light_dist: int) -> bool {
    match spec_object_intersect(o, shadow_ray) {
        Some(hit) => v3_length(v3_sub(hit.point, point)) < light_dist,
        None => false,
    }
}

/// The shadow ray cast from an intersection toward a light.
pub open spec fn spec_shadow_ray(l: LightV, inter: IntV) -> RayV {
    RayV {
        start: inter.point,
        direction: v3_normalized(v3_normalized(spec_light_direction(l, inter))),
        t_min: 0,
        t_max: fx_from_int(1000),
    }
}

/// Whether any object shadows the light at this intersection.
pub open spec fn spec_in_shadow(s: SceneV, l: LightV, inter: IntV) -> bool {
    exists|j: int|
        0 <= j < s.objects.len() && #[trigger] spec_blocks(
            s.objects[j],
            spec_shadow_ray(l, inter),
            inter.point,
            spec_light_distance(l, inter),
        )
}

/// One light's contribution folded into the running sum: nothing when
/// the light is shadowed, else its diffuse then specular terms.
pub open spec fn spec_shade_light(s: SceneV, o: ObjectV, inter: IntV, l: LightV, acc: PixV) -> PixV {
    if spec_in_shadow(s, l, inter) {
        acc
    } else {
        let m = spec_object_material(o);
        pix_add(
            pix_add(acc, spec_light_diffuse(l, inter, m)),
            spec_light_specular(l, s.camera, inter, m),
        )
    }
}

/// The running sum after folding in every light from index `i` on.
pub open spec fn spec_shade_lights(s: SceneV, o: ObjectV, inter: IntV, i: int, acc: PixV) -> PixV
    decreases s.lights.len() - i,
{
    if i < 0 || i >= s.lights.len() {
        acc
    } else {
        spec_shade_lights(s, o, inter, i + 1, spec_shade_light(s, o, inter, s.lights[i], acc))
    }
}

/// The reflected secondary ray at an intersection.
pub open spec fn spec_reflected_ray(r: RayV, inter: IntV) -> RayV {
    RayV {
        start: inter.point,
        direction: v3_normalized(v3_normalized(v3_reflect(r.direction, inter.surface_normal))),
        t_min: 0,
        t_max: fx_from_int(1000),
    }
}

/// The refracted secondary ray at an intersection.
pub open spec fn spec_refracted_ray(r: RayV, inter: IntV, ior: int) -> RayV {
    RayV {
        start: inter.point,
        direction: v3_normalized(
            v3_normalized(v3_refract(r.direction, inter.surface_normal, ior)),
        ),
        t_min: 0,
        t_max: fx_from_int(1000),
    }
}

/// The color a ray contributes, recursion bounded by the scene's
/// maximum depth: pure black past it, else the nearest hit shaded by
/// [`spec_calculate_illumination`], or the background color when
/// nothing is hit.
pub open spec fn spec_trace_ray(s: SceneV, r: RayV, depth: nat) -> PixV
    decreases s.max_depth + 1 - depth, 2int, 0int,
{
    if depth > s.max_depth {
        pix_black()
    } else {
        spec_trace_loop(s, r, depth, 0, spec_sentinel(), s.background)
    }
}

/// The nearest-hit fold over the objects from index `i` on: a strictly
/// closer hit replaces the running best and its illumination replaces
/// the running color, so the final color belongs to the nearest hit
/// (ties keep the earlier object).
pub open spec fn spec_trace_loop(
    s: SceneV,
    r: RayV,
    depth: nat,
    i: int,
    closest: IntV,
    color: PixV,
) -> PixV
    decreases s.max_depth + 1 - depth, 1int, s.objects.len() - i,
{
    if i < 0 || i >= s.objects.len() {
        color
    } else {
        let step = match spec_object_intersect(s.objects[i], r) {
            Some(inter) => {
                let distance = v3_length(v3_sub(inter.point, r.start));
                let closest_distance = v3_length(v3_sub(closest.point, r.start));
                if distance < closest_distance {
                    (inter, spec_calculate_illumination(s, s.objects[i], inter, r, depth))
                } else {
                    (closest, color)
                }
            },
            None => (closest, color),
        };
        spec_trace_loop(s, r, depth, i + 1, step.0, step.1)
    }
}

/// The distance from the ray's start to an object's hit point, when
/// the object intersects the ray.
pub open spec fn spec_hit_distance(o: ObjectV, r: RayV) -> Option<int> {
    match spec_object_intersect(o, r) {
        Some(hit) => Some(v3_length(v3_sub(hit.point, r.start))),
        None => None,
    }
}

/// The shading at one hit: ambient light, every non-shadowed light's
/// diffuse and specular terms, then the reflected and refracted rays
/// traced one level deeper, scaled by the specular and transmissive
/// coefficients. All terms accumulate unclamped. (Defined as black
/// past the depth bound only so the recursion is well-founded; the
/// renderer never shades there.)
pub open spec fn spec_calculate_illumination(
    s: SceneV,
    o: ObjectV,
    inter: IntV,
    r: RayV,
    depth: nat,
) -> PixV
    decreases s.max_depth + 1 - depth, 0int, 0int,
{
    if depth > s.max_depth {
        pix_black()
    } else {
        let m = spec_object_material(o);
        let sum0 = PixV { r: 0, g: 0, b: 0, a: 0, clamping: false };
        let sum1 = pix_add(sum0, pix_mul(m.ambient, s.ambient_light));
        let sum2 = spec_shade_lights(s, o, inter, 0, sum1);
        let sum3 = pix_add(
            sum2,
            pix_mul(m.specular, spec_trace_ray(s, spec_reflected_ray(r, inter), depth + 1)),
        );
        pix_add(
            sum3,
            pix_mul(
                m.transmissive,
                spec_trace_ray(s, spec_refracted_ray(r, inter, m.ior), depth + 1),
            ),
        )
    }
}

/// The primary ray through the center of pixel (row, col): the image
/// plane sits one unit along the view direction, its height fixed by
/// the vertical half-angle tangent and its width by the aspect ratio,
/// and samples step down and right from the upper-left pixel center.
#[verifier::opaque]
pub open spec fn spec_primary_ray(s: SceneV, row: int, col: int) -> RayV {
    let two = fx_from_int(2);
    let viewport_height = fx_mul(two, s.camera.vert_half_tan);
    let viewport_width = fx_mul(
        viewport_height,
        fx_div(fx_from_int(s.width), fx_from_int(s.height)),
    );
    let pixel_width = fx_div(viewport_width, fx_from_int(s.width));
    let pixel_height = fx_div(viewport_height, fx_from_int(s.height));
    let upper_left = v3_sub(
        v3_add(
            v3_add(s.camera.position, s.camera.direction),
            v3_scale(
                v3_scale(s.camera.up, pixel_height),
                fx_sub(fx_div(fx_from_int(s.height), two), FX_HALF as int),
            ),
        ),
        v3_scale(
            v3_scale(s.camera.right, pixel_width),
            fx_sub(fx_div(fx_from_int(s.width), two), FX_HALF as int),
        ),
    );
    let location = v3_add(
        v3_sub(upper_left, v3_scale(v3_scale(s.camera.up, pixel_height), fx_from_int(row))),
        v3_scale(v3_scale(s.camera.right, pixel_width), fx_from_int(col)),
    );
    let direction = v3_sub(location, s.camera.position);
    RayV {
        start: s.camera.position,
        direction: v3_normalized(direction),
        t_min: 0,
        t_max: fx_from_int(1000),
    }
}

/// The raw pixel stored at (row, col): the primary ray traced from
/// depth zero, clamped and quantized at the point of storage.
pub open spec fn spec_pixel_at(s: SceneV, row: int, col: int) -> RawPixel {
    raw_of_pixel(spec_trace_ray(s, spec_primary_ray(s, row, col), 0))
}

/// Every pixel of the rendered image, row-major.
pub open spec fn spec_render_pixels(s: SceneV) -> Seq<RawPixel> {
    Seq::new((s.width * s.height) as nat, |k: int| spec_pixel_at(s, k / s.width, k % s.width))
}

/// Whether any object shadows the light at this intersection; see
/// [`spec_in_shadow`].
fn in_shadow(scene: &Scene, light: &Light, intersection: &Intersection) -> (r: bool)
    ensures
        r == spec_in_shadow(scene@, light@, intersection@),
{
    let to_light = light.direction_to_light(intersection);
    let shadow_ray = Ray::new(intersection.point, to_light.normalized());
    let light_distance = light.distance_to_light(intersection);
    let n = scene.objects.len();
    let mut j: usize = 0;
    while j < n
        invariant
            n == scene@.objects.len(),
            j <= n,
            shadow_ray@ == spec_shadow_ray(light@, intersection@),
            light_distance@ == spec_light_distance(light@, intersection@),
            forall|k: int|
                0 <= k < j ==> !spec_blocks(
                    #[trigger] scene@.objects[k],
                    spec_shadow_ray(light@, intersection@),
                    intersection@.point,
                    spec_light_distance(light@, intersection@),
                ),
        decreases n - j,
    {
        if let Some(hit) = scene.objects[j].intersects(&shadow_ray) {
            if hit.point.sub(intersection.point).length().lt(light_distance) {
                proof {
                    assert(spec_blocks(
                        scene@.objects[j as int],
                        spec_shadow_ray(light@, intersection@),
                        intersection@.point,
                        spec_light_distance(light@, intersection@),
                    ));
                }
                return true;
            }
        }
        j = j + 1;
    }
    false
}

/// A row-major index determines its coordinate: distinct in-range
/// coordinates give distinct indices.
proof fn lemma_rowmajor_distinct(r1: int, c1: int, r2: int, c2: int, w: int)
    requires
        0 <= c1 < w,
        0 <= c2 < w,
        0 <= r1,
        0 <= r2,
        r1 != r2 || c1 != c2,
    ensures
        r1 * w + c1 != r2 * w + c2,
{
    assert(r1 * w + c1 != r2 * w + c2) by (nonlinear_arith)
        requires
            0 <= c1 < w,
            0 <= c2 < w,
            0 <= r1,
            0 <= r2,
            r1 != r2 || c1 != c2,
    ;
}

/// The primary ray through the center of pixel (row, col); see
/// [`spec_primary_ray`].
fn primary_ray(scene: &Scene, row: usize, col: usize) -> (r: Ray)
    requires
        scene_fits(scene@),
        row < scene@.height,
        col < scene@.width,
    ensures
        r@ == spec_primary_ray(scene@, row as int, col as int),
{
    proof {
        reveal(spec_primary_ray);
    }
    let width = scene.resolution.0;
    let height = scene.resolution.1;
    let two = Fx::from_int(2);
    let viewport_height = two.mul(scene.camera.vert_half_tan);
    let viewport_width = viewport_height.mul(
        Fx::from_int(width as i64).div(Fx::from_int(height as i64)),
    );
    let pixel_width = viewport_width.div(Fx::from_int(width as i64));
    let pixel_height = viewport_height.div(Fx::from_int(height as i64));
    let upper_left = scene.camera.position.add(scene.camera.direction).add(
        scene.camera.up.scale(pixel_height).scale(
            Fx::from_int(height as i64).div(two).sub(Fx::from_raw(FX_HALF)),
        ),
    ).sub(
        scene.camera.right.scale(pixel_width).scale(
            Fx::from_int(width as i64).div(two).sub(Fx::from_raw(FX_HALF)),
        ),
    );
    let image_plane_location = upper_left.sub(
        scene.camera.up.scale(pixel_height).scale(Fx::from_int(row as i64)),
    ).add(scene.camera.right.scale(pixel_width).scale(Fx::from_int(col as i64)));
    let ray_direction = image_plane_location.sub(scene.camera.position);
    Ray::new(scene.camera.position, ray_direction)
}

/// The rendering engine.
pub struct RayTracer;

impl RayTracer {
    /// Render the scene to an image: for every pixel, the primary ray
    /// traced from depth zero, clamped and quantized at storage. Fails
    /// exactly on a zero-sized resolution or a degenerate camera basis.
    pub fn render(&self, scene: &Scene) -> (r: Result<Image, RenderError>)
        requires
            scene_fits(scene@),
        ensures
            match r {
                Ok(img) => scene_wf(scene@) && img.wf() && img.width == scene@.width && img.height
                    == scene@.height && img.spec_pixels() == spec_render_pixels(scene@),
                Err(e) => spec_render_error(scene@) == Some(e),
            },
    {
        if let Some(e) = scene.check() {
            return Err(e);
        }
        let width = scene.resolution.0;
        let height = scene.resolution.1;
        let mut img = Image::new(width, height).with_background(scene.background);
        let mut row: usize = 0;
        while row < height
            invariant
                scene_fits(scene@),
                width == scene@.width,
                height == scene@.height,
                img.wf(),
                img.width == width,
                img.height == height,
                row <= height,
                forall|r0: int, c0: int|
                    0 <= r0 < row && 0 <= c0 < width ==> img.spec_pixels()[r0 * width + c0]
                        == #[trigger] spec_pixel_at(scene@, r0, c0),
            decreases height - row,
        {
            let mut col: usize = 0;
            while col < width
                invariant
                    scene_fits(scene@),
                    width == scene@.width,
                    height == scene@.height,
                    img.wf(),
                    img.width == width,
                    img.height == height,
                    row < height,
                    col <= width,
                    forall|r0: int, c0: int|
                        0 <= r0 < row && 0 <= c0 < width ==> img.spec_pixels()[r0 * width + c0]
                            == #[trigger] spec_pixel_at(scene@, r0, c0),
                    forall|c0: int|
                        0 <= c0 < col ==> img.spec_pixels()[row as int * width + c0]
                            == #[trigger] spec_pixel_at(scene@, row as int, c0),
                decreases width - col,
            {
                let ray = primary_ray(scene, row, col);
                let color = self.trace_ray(scene, &ray, 0);
                img.set_pixel(row, col, color);
                proof {
                    lemma_index_bound(row as int, col as int, width as int, height as int);
                    assert forall|r0: int, c0: int|
                        0 <= r0 < row && 0 <= c0 < width implies img.spec_pixels()[r0 * width + c0]
                        == spec_pixel_at(scene@, r0, c0) by {
                        lemma_rowmajor_distinct(r0, c0, row as int, col as int, width as int);
                        lemma_index_bound(r0, c0, width as int, height as int);
                    }
                    assert forall|c0: int|
                        0 <= c0 < col + 1 implies img.spec_pixels()[row as int * width + c0]
                        == spec_pixel_at(scene@, row as int, c0) by {
                        if c0 < col {
                            lemma_rowmajor_distinct(row as int, c0, row as int, col as int, width as int);
                            lemma_index_bound(row as int, c0, width as int, height as int);
                        }
                    }
                }
                col = col + 1;
            }
            row = row + 1;
        }
        proof {
            assert forall|k: int| 0 <= k < img.spec_pixels().len() implies img.spec_pixels()[k]
                == spec_render_pixels(scene@)[k] by {
                let w = width as int;
                let r0 = k / w;
                let c0 = k % w;
                lemma_fundamental_div_mod(k, w);
                lemma_mod_division_less_than_divisor(k, w);
                lemma_div_pos_is_pos(k, w);
                lemma_mul_is_commutative(w, r0);
                lemma_multiply_divide_lt(k, w, height as int);
            }
            assert(img.spec_pixels() =~= spec_render_pixels(scene@));
        }
        Ok(img)
    }

    /// Trace one ray: black past the depth bound, else the nearest-hit
    /// scan of every object; see [`spec_trace_ray`].
    fn trace_ray(&self, scene: &Scene, ray: &Ray, depth: usize) -> (r: Pixel)
        requires
            scene_fits(scene@),
        ensures
            r@ == spec_trace_ray(scene@, ray@, depth as nat),
        decreases scene@.max_depth + 1 - depth, 2int, 0int,
    {
        if depth > scene.max_depth {
            return Pixel::from_rgb(Fx::zero(), Fx::zero(), Fx::zero());
        }
        let mut closest_intersection = Intersection::new(
            Vector3::max_vector(),
            Vector3::max_vector(),
        );
        let mut color = scene.background;
        let n = scene.objects.len();
        let mut i: usize = 0;
        while i < n
            invariant
                scene_fits(scene@),
                depth <= scene@.max_depth,
                n == scene@.objects.len(),
                i <= n,
                spec_trace_loop(
                    scene@,
                    ray@,
                    depth as nat,
                    i as int,
                    closest_intersection@,
                    color@,
                ) == spec_trace_loop(
                    scene@,
                    ray@,
                    depth as nat,
                    0,
                    spec_sentinel(),
                    scene@.background,
                ),
            decreases n - i,
        {
            let object = &scene.objects[i];
            if let Some(intersection) = object.intersects(ray) {
                let distance = intersection.point.sub(ray.start).length();
                let closest_distance = closest_intersection.point.sub(ray.start).length();
                if distance.lt(closest_distance) {
                    color = self.calculate_illumination(scene, object, &intersection, ray, depth);
                    closest_intersection = intersection;
                }
            }
            i = i + 1;
        }
        color
    }

    /// Shade one hit; see [`spec_calculate_illumination`].
    fn calculate_illumination(
        &self,
        scene: &Scene,
        object: &Object,
        intersection: &Intersection,
        ray: &Ray,
        depth: usize,
    ) -> (r: Pixel)
        requires
            scene_fits(scene@),
            depth <= scene@.max_depth,
        ensures
            r@ == spec_calculate_illumination(scene@, object@, intersection@, ray@, depth as nat),
        decreases scene@.max_depth + 1 - depth, 0int, 0int,
    {
        let mut sum = Pixel::from_rgba_unclamped(Fx::zero(), Fx::zero(), Fx::zero(), Fx::zero());
        sum = sum.add(object.material().ambient.mul(scene.ambient_light));
        let ghost target = spec_shade_lights(scene@, object@, intersection@, 0, sum@);
        let ln = scene.lights.len();
        let mut li: usize = 0;
        while li < ln
            invariant
                ln == scene@.lights.len(),
                li <= ln,
                spec_shade_lights(scene@, object@, intersection@, li as int, sum@) == target,
            decreases ln - li,
        {
            let light = &scene.lights[li];
            if !in_shadow(scene, light, intersection) {
                sum = sum.add(light.diffuse(intersection, object.material()));
                sum = sum.add(light.specular(&scene.camera, intersection, object.material()));
            }
            li = li + 1;
        }
        let reflected = ray.reflect(intersection.point, intersection.surface_normal);
        sum = sum.add(object.material().specular.mul(self.trace_ray(scene, &reflected, depth + 1)));
        let refracted = ray.refract(
            intersection.point,
            intersection.surface_normal,
            object.material().ior,
        );
        sum = sum.add(
            object.material().transmissive.mul(self.trace_ray(scene, &refracted, depth + 1)),
        );
        sum
    }
}

/// A shadowed light contributes nothing: when an opaque object stands
/// between the surface point and a light, folding that light into a
/// running illumination sum leaves the sum unchanged - its diffuse and
/// specular terms are skipped entirely.
pub proof fn lemma_shadowed_light_contributes_nothing(
    s: SceneV,
    o: ObjectV,
    inter: IntV,
    l: LightV,
    acc: PixV,
)
    requires
        spec_in_shadow(s, l, inter),
    ensures
        spec_shade_light(s, o, inter, l, acc) == acc,
{
}

/// With every light shadowed, direct lighting vanishes altogether: the
/// fold over the lights returns the ambient-only sum it started from,
/// so only the ambient term (and recursion) colors the hit.
pub proof fn lemma_all_lights_shadowed_leaves_ambient(
    s: SceneV,
    o: ObjectV,
    inter: IntV,
    i: int,
    acc: PixV,
)
    requires
        forall|j: int| 0 <= j < s.lights.len() ==> spec_in_shadow(s, #[trigger] s.lights[j], inter),
    ensures
        spec_shade_lights(s, o, inter, i, acc) == acc,
    decreases s.lights.len() - i,
{
    if 0 <= i < s.lights.len() {
        lemma_shadowed_light_contributes_nothing(s, o, inter, s.lights[i], acc);
        lemma_all_lights_shadowed_leaves_ambient(s, o, inter, i + 1, acc);
    }
}

/// The nearest-hit fold never changes the running color past the
/// objects that remain, when none of them intersects the ray.
proof fn lemma_trace_loop_misses(s: SceneV, r: RayV, depth: nat, i: int, closest: IntV, color: PixV)
    requires
        forall|j: int|
            i <= j < s.objects.len() ==> spec_object_intersect(#[trigger] s.objects[j], r) is None,
    ensures
        spec_trace_loop(s, r, depth, i, closest, color) == color,
    decreases s.objects.len() - i,
{
    if 0 <= i < s.objects.len() {
        lemma_trace_loop_misses(s, r, depth, i + 1, closest, color);
    }
}

/// A ray that misses every object takes exactly the scene's background
/// color (at any depth within the recursion bound).
pub proof fn lemma_miss_yields_background(s: SceneV, r: RayV, depth: nat)
    requires
        depth <= s.max_depth,
        forall|j: int|
            0 <= j < s.objects.len() ==> spec_object_intersect(#[trigger] s.objects[j], r) is None,
    ensures
        spec_trace_ray(s, r, depth) == s.background,
{
    lemma_trace_loop_misses(s, r, depth, 0, spec_sentinel(), s.background);
}

/// The nearest-hit fold keeps its running color when no remaining
/// object beats the running best distance.
proof fn lemma_trace_loop_no_improvement(
    s: SceneV,
    r: RayV,
    depth: nat,
    i: int,
    closest: IntV,
    color: PixV,
)
    requires
        forall|k: int|
            i <= k < s.objects.len() && #[trigger] spec_hit_distance(s.objects[k], r) is Some
                ==> spec_hit_distance(s.objects[k], r)->Some_0 >= v3_length(
                v3_sub(closest.point, r.start),
            ),
    ensures
        spec_trace_loop(s, r, depth, i, closest, color) == color,
    decreases s.objects.len() - i,
{
    if 0 <= i < s.objects.len() {
        match spec_object_intersect(s.objects[i], r) {
            Some(inter) => {
                assert(spec_hit_distance(s.objects[i], r) == Some(
                    v3_length(v3_sub(inter.point, r.start)),
                ));
            },
            None => {
            },
        }
        lemma_trace_loop_no_improvement(s, r, depth, i + 1, closest, color);
    }
}

/// From any running state the fold still beats, the first object
/// attaining the minimal hit distance ends up coloring the pixel.
proof fn lemma_trace_loop_winner(
    s: SceneV,
    r: RayV,
    depth: nat,
    i: int,
    closest: IntV,
    color: PixV,
    w: int,
)
    requires
        0 <= i <= w < s.objects.len(),
        spec_hit_distance(s.objects[w], r) is Some,
        ({
            let dw = spec_hit_distance(s.objects[w], r)->Some_0;
            &&& dw < v3_length(v3_sub(closest.point, r.start))
            &&& forall|k: int|
                w < k < s.objects.len() && #[trigger] spec_hit_distance(s.objects[k], r) is Some
                    ==> spec_hit_distance(s.objects[k], r)->Some_0 >= dw
            &&& forall|k: int|
                i <= k < w && #[trigger] spec_hit_distance(s.objects[k], r) is Some
                    ==> spec_hit_distance(s.objects[k], r)->Some_0 > dw
        }),
    ensures
        spec_trace_loop(s, r, depth, i, closest, color) == spec_calculate_illumination(
            s,
            s.objects[w],
            spec_object_intersect(s.objects[w], r)->Some_0,
            r,
            depth,
        ),
    decreases w - i,
{
    let dw = spec_hit_distance(s.objects[w], r)->Some_0;
    if i == w {
        let inter = spec_object_intersect(s.objects[w], r)->Some_0;
        let shaded = spec_calculate_illumination(s, s.objects[w], inter, r, depth);
        assert(v3_length(v3_sub(inter.point, r.start)) == dw);
        lemma_trace_loop_no_improvement(s, r, depth, w + 1, inter, shaded);
    } else {
        match spec_object_intersect(s.objects[i], r) {
            Some(inter) => {
                let di = v3_length(v3_sub(inter.point, r.start));
                assert(spec_hit_distance(s.objects[i], r) == Some(di));
                if di < v3_length(v3_sub(closest.point, r.start)) {
                    let shaded = spec_calculate_illumination(s, s.objects[i], inter, r, depth);
                    lemma_trace_loop_winner(s, r, depth, i + 1, inter, shaded, w);
                } else {
                    lemma_trace_loop_winner(s, r, depth, i + 1, closest, color, w);
                }
            },
            None => {
                lemma_trace_loop_winner(s, r, depth, i + 1, closest, color, w);
            },
        }
    }
}

/// The nearest hit shades the pixel: within the recursion bound, when
/// object `w` hits the ray closer to its start than the "no hit yet"
/// sentinel, no object hits strictly closer, and every earlier object
/// hits strictly farther (on an exact tie the earlier object wins and
/// `w` names that one), then the traced color is exactly the
/// illumination at `w`'s intersection.
pub proof fn lemma_nearest_hit_shades_the_pixel(s: SceneV, r: RayV, depth: nat, w: int)
    requires
        depth <= s.max_depth,
        0 <= w < s.objects.len(),
        spec_hit_distance(s.objects[w], r) is Some,
        ({
            let dw = spec_hit_distance(s.objects[w], r)->Some_0;
            &&& dw < v3_length(v3_sub(v3_max(), r.start))
            &&& forall|k: int|
                0 <= k < s.objects.len() && #[trigger] spec_hit_distance(s.objects[k], r) is Some
                    ==> spec_hit_distance(s.objects[k], r)->Some_0 >= dw
            &&& forall|k: int|
                0 <= k < w && #[trigger] spec_hit_distance(s.objects[k], r) is Some
                    ==> spec_hit_distance(s.objects[k], r)->Some_0 > dw
        }),
    ensures
        spec_trace_ray(s, r, depth) == spec_calculate_illumination(
            s,
            s.objects[w],
            spec_object_intersect(s.objects[w], r)->Some_0,
            r,
            depth,
        ),
{
    lemma_trace_loop_winner(s, r, depth, 0, spec_sentinel(), s.background, w);
}

/// A maximum depth of zero disables all reflection and refraction: both
/// secondary rays trace to pure black, so a hit's color is its direct
/// illumination plus two terms that scale black - the image depends
/// only on direct lighting and shadows.
pub proof fn lemma_max_depth_zero_disables_recursion(s: SceneV, o: ObjectV, inter: IntV, r: RayV)
    requires
        s.max_depth == 0,
    ensures
        spec_trace_ray(s, spec_reflected_ray(r, inter), 1) == pix_black(),
        spec_trace_ray(s, spec_refracted_ray(r, inter, spec_object_material(o).ior), 1)
            == pix_black(),
        spec_calculate_illumination(s, o, inter, r, 0) == ({
            let m = spec_object_material(o);
            let ambient_only = pix_add(
                PixV { r: 0, g: 0, b: 0, a: 0, clamping: false },
                pix_mul(m.ambient, s.ambient_light),
            );
            let direct = spec_shade_lights(s, o, inter, 0, ambient_only);
            pix_add(
                pix_add(direct, pix_mul(m.specular, pix_black())),
                pix_mul(m.transmissive, pix_black()),
            )
        }),
{
}

/// Rendering is deterministic: the pixels of a rendered image are a
/// function of the scene alone, so rendering the same scene twice
/// yields byte-identical output.
pub proof fn lemma_render_idempotent(s: SceneV, img1: Image, img2: Image)
    requires
        img1.spec_pixels() == spec_render_pixels(s),
        img2.spec_pixels() == spec_render_pixels(s),
    ensures
        spec_image_bytes(img1.spec_pixels()) == spec_image_bytes(img2.spec_pixels()),
{
}

/// What the base64 crate's standard engine produces for a byte
/// sequence: the encoding is a function of the bytes alone.
pub uninterp spec fn base64_of(bytes: Seq<u8>) -> Seq<char>;

/// Relies on base64's STANDARD engine: padded encoding, four output
/// characters for every started three-byte group; it refuses only an
/// input whose encoding would overflow a usize.
#[verifier::external_body]
fn base64_encode(bytes: &Vec<u8>) -> (r: String)
    requires
        bytes@.len() <= usize::MAX / 4,
    ensures
        r@ == base64_of(bytes@),
        r@.len() == 4 * ((bytes@.len() + 2) / 3),
{
    base64::engine::general_purpose::STANDARD.encode(bytes.as_slice())
}

/// Render a scene and encode the image as base64 PNG text. Fails
/// exactly on a zero-sized resolution, a degenerate camera basis, or a
/// PNG byte stream too large to encode.
pub fn render_scene(scene: &Scene) -> (r: Result<String, RenderError>)
    requires
        scene_fits(scene@),
    ensures
        ({
            let png = png_bytes_of(
                scene@.width,
                scene@.height,
                spec_image_bytes(spec_render_pixels(scene@)),
            );
            match r {
                Ok(s) => scene_wf(scene@) && png.len() <= usize::MAX / 4 && s@ == base64_of(png),
                Err(e) => match spec_render_error(scene@) {
                    Some(e2) => e == e2,
                    None => e == RenderError::OutputTooLarge && png.len() > usize::MAX / 4,
                },
            }
        }),
{
    let rt = RayTracer;
    let image = match rt.render(scene) {
        Ok(image) => image,
        Err(e) => {
            return Err(e);
        },
    };
    let bytes = image.to_png_bytes();
    if bytes.len() <= usize::MAX / 4 {
        Ok(base64_encode(&bytes))
    } else {
        Err(RenderError::OutputTooLarge)
    }
}

/// A row-major index from an in-range coordinate lies inside the
/// buffer.
proof fn lemma_index_bound(row: int, col: int, w: int, h: int)
    requires
        0 <= row < h,
        0 <= col < w,
    ensures
        0 <= row * w + col < w * h,
{
    assert(0 <= row * w && row * w + col < w * h) by (nonlinear_arith)
        requires
            0 <= row < h,
            0 <= col < w,
    ;
}

} // verus!
