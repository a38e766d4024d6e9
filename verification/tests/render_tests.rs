//! End-to-end rendering: direct lighting, shadows, recursion bounds,
//! and deterministic output.

use base64::Engine;
use raytracer::camera::Camera;
use raytracer::fixed::Fx;
use raytracer::image::Image;
use raytracer::lights::point_light::PointLight;
use raytracer::lights::Light;
use raytracer::material::Material;
use raytracer::objects::sphere::Sphere;
use raytracer::objects::Object;
use raytracer::pixel::{Pixel, RawPixel};
use raytracer::ray_tracer::{render_scene, RayTracer};
use raytracer::scene::{RenderError, Scene};
use raytracer::vector::Vector3;

fn fx(raw: i64) -> Fx {
    Fx::from_raw(raw)
}

fn fxi(n: i64) -> Fx {
    Fx::from_int(n)
}

fn v(x: i64, y: i64, z: i64) -> Vector3 {
    Vector3::new(fxi(x), fxi(y), fxi(z))
}

/// Camera at (0, 0, 5) looking toward -z, up +y, half-angle 45 degrees.
fn test_camera() -> Camera {
    let params = [
        fxi(0),
        fxi(0),
        fxi(5),
        fxi(0),
        fxi(0),
        fxi(-1),
        fxi(0),
        fxi(1),
        fxi(0),
        fxi(1),
    ];
    Camera::from_parameters(&params)
}

fn grey_ambient_material() -> Material {
    let white = Pixel::from_rgb(fxi(1), fxi(1), fxi(1));
    let black = Pixel::from_rgb(fxi(0), fxi(0), fxi(0));
    let grey = Pixel::from_rgb(fx(200_000), fx(200_000), fx(200_000));
    Material::new(grey, white, black, 5, black, fxi(1))
}

/// One unit sphere at the origin, a point light, ambient light, and a
/// colored background, at depth zero.
fn unit_sphere_scene() -> Scene {
    let white = Pixel::from_rgb(fxi(1), fxi(1), fxi(1));
    let black = Pixel::from_rgb(fxi(0), fxi(0), fxi(0));
    let ambient_white = Material::new(white, white, black, 5, black, fxi(1));
    Scene {
        camera: test_camera(),
        resolution: (9, 9),
        output_image: String::new(),
        background: Pixel::from_rgb(fx(100_000), fx(200_000), fx(300_000)),
        objects: vec![Object::Sphere(Sphere::new(fxi(1), v(0, 0, 0), ambient_white))],
        ambient_light: white,
        lights: vec![Light::Point(PointLight::new(
            Pixel::from_slice_unclamped(&[fxi(1), fxi(1), fxi(1)]),
            v(0, 5, 0),
        ))],
        max_depth: 0,
    }
}

fn center_pixel(img: &Image) -> RawPixel {
    img.pixels[(img.height / 2) * img.width + img.width / 2]
}

#[test]
fn sphere_scene_center_brighter_than_background() {
    let scene = unit_sphere_scene();
    let img = RayTracer.render(&scene).unwrap();
    assert_eq!(img.width, 9);
    assert_eq!(img.height, 9);
    // The center ray hits the fully ambient-lit sphere: pure white.
    assert_eq!(center_pixel(&img), RawPixel { r: 255, g: 255, b: 255, a: 255 });
    // A corner ray misses and takes exactly the background color.
    let expected_background = raytracer::pixel::RawPixel {
        r: 25,
        g: 51,
        b: 76,
        a: 255,
    };
    assert_eq!(img.pixels[0], expected_background);
    assert!(center_pixel(&img).r > img.pixels[0].r);
}

#[test]
fn rendering_twice_is_byte_identical() {
    let scene = unit_sphere_scene();
    let img1 = RayTracer.render(&scene).unwrap();
    let img2 = RayTracer.render(&scene).unwrap();
    assert_eq!(img1.to_bytes(), img2.to_bytes());
}

#[test]
fn max_depth_zero_matches_deeper_render_without_reflective_materials() {
    // No material reflects or transmits, so recursion depth cannot
    // change the image.
    let mut shallow = unit_sphere_scene();
    shallow.max_depth = 0;
    let mut deep = unit_sphere_scene();
    deep.max_depth = 5;
    let img0 = RayTracer.render(&shallow).unwrap();
    let img5 = RayTracer.render(&deep).unwrap();
    assert_eq!(img0.to_bytes(), img5.to_bytes());
}

/// A scene whose center hit sees one off-axis light, with or without an
/// opaque occluder on the segment toward the light.
fn shadow_scene(with_occluder: bool) -> Scene {
    let white = Pixel::from_rgb(fxi(1), fxi(1), fxi(1));
    let mut objects = vec![Object::Sphere(Sphere::new(
        fxi(1),
        v(0, 0, 0),
        grey_ambient_material(),
    ))];
    if with_occluder {
        objects.push(Object::Sphere(Sphere::new(fxi(1), v(3, 0, 4), grey_ambient_material())));
    }
    Scene {
        camera: test_camera(),
        resolution: (9, 9),
        output_image: String::new(),
        background: Pixel::from_rgb(fxi(0), fxi(0), fxi(0)),
        objects,
        ambient_light: white,
        lights: vec![Light::Point(PointLight::new(
            Pixel::from_slice_unclamped(&[fxi(1), fxi(1), fxi(1)]),
            v(6, 0, 7),
        ))],
        max_depth: 0,
    }
}

#[test]
fn occluder_zeroes_direct_light_but_not_ambient() {
    let lit = RayTracer.render(&shadow_scene(false)).unwrap();
    let shadowed = RayTracer.render(&shadow_scene(true)).unwrap();
    // Shadowed: exactly the ambient term (0.2 of full white).
    assert_eq!(center_pixel(&shadowed), RawPixel { r: 51, g: 51, b: 51, a: 255 });
    // Lit: ambient plus a positive diffuse term.
    assert!(center_pixel(&lit).r > center_pixel(&shadowed).r);
    assert_eq!(center_pixel(&lit).a, 255);
}

#[test]
fn coincident_surfaces_keep_the_first_object() {
    // Two identical spheres at the same place: the nearest-hit scan
    // uses a strict comparison, so the first object in scene order
    // wins the tie and its material colors the pixel.
    let white = Pixel::from_rgb(fxi(1), fxi(1), fxi(1));
    let black = Pixel::from_rgb(fxi(0), fxi(0), fxi(0));
    let red_ambient = Material::new(
        Pixel::from_rgb(fxi(1), fxi(0), fxi(0)),
        white,
        black,
        5,
        black,
        fxi(1),
    );
    let green_ambient = Material::new(
        Pixel::from_rgb(fxi(0), fxi(1), fxi(0)),
        white,
        black,
        5,
        black,
        fxi(1),
    );
    let mut scene = unit_sphere_scene();
    scene.lights = vec![];
    scene.objects = vec![
        Object::Sphere(Sphere::new(fxi(1), v(0, 0, 0), red_ambient)),
        Object::Sphere(Sphere::new(fxi(1), v(0, 0, 0), green_ambient)),
    ];
    let img = RayTracer.render(&scene).unwrap();
    assert_eq!(center_pixel(&img), RawPixel { r: 255, g: 0, b: 0, a: 255 });
}

#[test]
fn zero_resolution_is_fatal() {
    let mut scene = unit_sphere_scene();
    scene.resolution = (0, 9);
    match RayTracer.render(&scene) {
        Err(RenderError::ZeroResolution) => (),
        _ => panic!("a zero-sized image must be refused"),
    }
}

#[test]
fn degenerate_camera_is_fatal() {
    let mut scene = unit_sphere_scene();
    scene.camera.direction = v(0, 0, 0);
    match RayTracer.render(&scene) {
        Err(RenderError::DegenerateCamera) => (),
        _ => panic!("a zero-length camera basis must be refused"),
    }
}

#[test]
fn render_scene_encodes_the_image_as_base64_png() {
    let scene = unit_sphere_scene();
    let encoded = render_scene(&scene).unwrap();
    let png_bytes = base64::engine::general_purpose::STANDARD
        .decode(encoded.as_bytes())
        .unwrap();
    let expected = RayTracer.render(&scene).unwrap().to_png_bytes();
    assert_eq!(png_bytes, expected);
}

#[test]
fn render_scene_reports_fatal_conditions() {
    let mut scene = unit_sphere_scene();
    scene.resolution = (9, 0);
    assert_eq!(render_scene(&scene), Err(RenderError::ZeroResolution));
}
