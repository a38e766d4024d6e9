//! Cameras, materials, rays, lights and scene checks.

use raytracer::camera::Camera;
use raytracer::fixed::{Fx, FX_MAX_RAW};
use raytracer::intersection::Intersection;
use raytracer::lights::directional_light::DirectionalLight;
use raytracer::lights::point_light::PointLight;
use raytracer::lights::spot_light::SpotLight;
use raytracer::material::Material;
use raytracer::pixel::Pixel;
use raytracer::ray::Ray;
use raytracer::scene::{RenderError, Scene};
use raytracer::vector::Vector3;

fn fx(raw: i64) -> Fx {
    Fx::from_raw(raw)
}

fn fxi(n: i64) -> Fx {
    Fx::from_int(n)
}

fn v(x: i64, y: i64, z: i64) -> Vector3 {
    Vector3::new(fxi(x), fxi(y), fxi(z))
}

#[test]
fn camera_from_parameters_builds_a_basis() {
    let params = [
        fxi(0),
        fxi(0),
        fxi(5),
        fxi(0),
        fxi(0),
        fxi(-1),
        fxi(0),
        fxi(2),
        fxi(0),
        fx(500_000),
    ];
    let cam = Camera::from_parameters(&params);
    assert_eq!(cam.position, v(0, 0, 5));
    assert_eq!(cam.direction, v(0, 0, -1));
    // The up hint is normalized, and orthogonal to the view direction,
    // so it is kept.
    assert_eq!(cam.up, v(0, 1, 0));
    assert_eq!(cam.right, v(-1, 0, 0));
    assert_eq!(cam.vert_half_tan, fx(500_000));
}

#[test]
fn default_camera_and_scene() {
    let cam = Camera::default();
    assert_eq!(cam.position, v(0, 0, 0));
    assert_eq!(cam.direction, v(0, 0, 1));
    assert_eq!(cam.vert_half_tan, fxi(1));
    let scene = Scene::default();
    assert_eq!(scene.resolution, (640, 480));
    assert_eq!(scene.max_depth, 5);
    assert!(scene.objects.is_empty());
    assert!(scene.lights.is_empty());
    assert!(scene.check().is_none());
}

#[test]
fn default_material_is_plain_diffuse() {
    let m = Material::default();
    assert_eq!(m.diffuse.r, fxi(1));
    assert_eq!(m.ambient.r, fxi(0));
    assert_eq!(m.specular.g, fxi(0));
    assert_eq!(m.transmissive.b, fxi(0));
    assert_eq!(m.phong_power, 5);
    assert_eq!(m.ior, fxi(1));
}

#[test]
fn scene_check_reports_fatal_conditions_in_order() {
    let mut scene = Scene::default();
    scene.resolution = (0, 0);
    assert_eq!(scene.check(), Some(RenderError::ZeroResolution));
    scene.resolution = (4, 4);
    scene.camera.up = v(0, 0, 0);
    assert_eq!(scene.check(), Some(RenderError::DegenerateCamera));
}

#[test]
fn ray_eval_respects_bounds() {
    let ray = Ray::new(v(0, 0, 0), v(0, 0, 2));
    assert_eq!(ray.direction, v(0, 0, 1));
    assert_eq!(ray.t_min, fxi(0));
    assert_eq!(ray.t_max, fxi(1000));
    assert_eq!(ray.eval(fxi(3)), Some(v(0, 0, 3)));
    assert_eq!(ray.eval(fxi(-1)), None);
    assert_eq!(ray.eval(fxi(1001)), None);
    let short = Ray::with_t_max(v(0, 0, 0), v(0, 0, 1), fxi(2));
    assert_eq!(short.eval(fxi(3)), None);
}

#[test]
fn point_light_contributions() {
    let light = PointLight::new(Pixel::from_slice_unclamped(&[fxi(1), fxi(1), fxi(1)]), v(0, 0, 3));
    let inter = Intersection::new(v(0, 0, 1), v(0, 0, 1));
    assert_eq!(light.direction_to_light(&inter), v(0, 0, 2));
    assert_eq!(light.distance_to_light(&inter), fxi(2));
    let m = Material::default();
    let d = light.diffuse(&inter, &m);
    // Full white light and diffuse, head-on: 1 / 2^2 falloff.
    assert_eq!(d.r, fx(250_000));
    // Phong uses the non-positive branch of the view dot: head-on it
    // contributes nothing.
    let cam = Camera::default();
    let s = light.specular(&cam, &inter, &m);
    assert_eq!(s.r, fxi(0));
}

#[test]
fn directional_light_contributions() {
    let light = DirectionalLight::new(
        Pixel::from_slice_unclamped(&[fxi(1), fx(500_000), fxi(0)]),
        v(0, 0, -1),
    );
    let inter = Intersection::new(v(0, 0, 1), v(0, 0, 0));
    assert_eq!(light.direction_to_light(&inter), v(0, 0, 1));
    assert_eq!(light.distance_to_light(&inter), fx(FX_MAX_RAW));
    let m = Material::default();
    let d = light.diffuse(&inter, &m);
    // No falloff: the full light color, scaled by the head-on angle.
    assert_eq!(d.r, fxi(1));
    assert_eq!(d.g, fx(500_000));
    assert_eq!(d.b, fxi(0));
}

#[test]
fn spot_light_cone_fades_to_black() {
    let color = Pixel::from_slice_unclamped(&[fxi(1), fxi(1), fxi(1)]);
    // Aimed straight down -z from (0, 0, 3); inner cone cos 0.9, outer
    // cone cos 0.5.
    let light = SpotLight::new(color, v(0, 0, 3), v(0, 0, -1), fx(900_000), fx(500_000));
    let m = Material::default();
    // Head-on point: inside the inner cone, full strength 1/9 falloff.
    let head_on = Intersection::new(v(0, 0, 1), v(0, 0, 0));
    let d = light.diffuse(&head_on, &m);
    assert_eq!(d.r, fx(111_111));
    // A point far off the axis falls beyond the outer cone: black.
    let off_axis = Intersection::new(v(0, 0, 1), v(30, 0, 2));
    let d_off = light.diffuse(&off_axis, &m);
    assert_eq!(d_off.r, fxi(0));
    assert_eq!(d_off.g, fxi(0));
    assert_eq!(d_off.b, fxi(0));
}
