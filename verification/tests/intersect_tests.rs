//! Intersection geometry: spheres, planes and triangles.

use raytracer::fixed::Fx;
use raytracer::material::Material;
use raytracer::objects::plane::Plane;
use raytracer::objects::sphere::Sphere;
use raytracer::objects::triangle::Triangle;
use raytracer::objects::Object;
use raytracer::ray::Ray;
use raytracer::vector::Vector3;

fn fx(raw: i64) -> Fx {
    Fx::from_raw(raw)
}

fn fxi(n: i64) -> Fx {
    Fx::from_int(n)
}

fn v(x: i64, y: i64, z: i64) -> Vector3 {
    Vector3::new(fxi(x), fxi(y), fxi(z))
}

#[test]
fn ray_through_sphere_center_hits_at_center_minus_radius() {
    let sphere = Sphere::new(fxi(1), v(0, 0, 0), Material::default());
    let ray = Ray::new(v(0, 0, 5), v(0, 0, -1));
    let hit = sphere.intersects(&ray).unwrap();
    // The nearer root: one radius before the center along the ray.
    assert_eq!(hit.point, v(0, 0, 1));
    assert_eq!(hit.surface_normal, v(0, 0, 1));
}

#[test]
fn ray_from_inside_the_sphere_exits_through_it() {
    // From the center both roots are -radius and +radius: the smaller
    // fails epsilon, so the larger qualifies and the ray exits the
    // sphere, with the normal pointing on through the exit point.
    let sphere = Sphere::new(fxi(1), v(0, 0, 0), Material::default());
    let ray = Ray::new(v(0, 0, 0), v(0, 0, -1));
    let hit = sphere.intersects(&ray).unwrap();
    assert_eq!(hit.point, v(0, 0, -1));
    assert_eq!(hit.surface_normal, v(0, 0, -1));
}

#[test]
fn ray_missing_the_sphere_yields_no_hit() {
    let sphere = Sphere::new(fxi(1), v(0, 0, 0), Material::default());
    // Perpendicular to the center direction: negative discriminant.
    assert!(sphere.intersects(&Ray::new(v(0, 0, 5), v(0, 1, 0))).is_none());
    // Pointing away: both roots behind the ray start.
    assert!(sphere.intersects(&Ray::new(v(0, 0, 5), v(0, 0, 1))).is_none());
    // Too far for the default parametric bound.
    assert!(sphere.intersects(&Ray::new(v(0, 0, 2000), v(0, 0, -1))).is_none());
}

#[test]
fn sphere_through_object_variant() {
    let object = Object::Sphere(Sphere::new(fxi(1), v(0, 0, 0), Material::default()));
    let hit = object.intersects(&Ray::new(v(0, 0, 5), v(0, 0, -1))).unwrap();
    assert_eq!(hit.point, v(0, 0, 1));
    assert_eq!(object.material().phong_power, 5);
}

#[test]
fn plane_intersection_and_parallel_guard() {
    let plane = Plane::new(Material::default(), v(0, 0, 0), v(0, 0, 3));
    // The constructor normalizes the normal.
    assert_eq!(plane.normal, v(0, 0, 1));
    let hit = plane.intersects(&Ray::new(v(0, 0, 5), v(0, 0, -1))).unwrap();
    assert_eq!(hit.point, v(0, 0, 0));
    assert_eq!(hit.surface_normal, v(0, 0, 1));
    // A parallel ray divides by a zero denominator, guarded to a miss.
    let parallel = Ray::new(v(0, 0, 5), v(1, 0, 0));
    assert!(plane.intersects(&parallel).is_none());
    // A hit behind the epsilon threshold is rejected.
    let behind = Ray::new(v(0, 0, -5), v(0, 0, -1));
    assert!(plane.intersects(&behind).is_none());
}

#[test]
fn point_inside_triangle_intersects() {
    let tri = Triangle::new(
        Material::default(),
        v(0, 0, 0),
        v(4, 0, 0),
        v(0, 4, 0),
        v(0, 0, 1),
        v(0, 0, 1),
        v(0, 0, 1),
    );
    // Straight down onto a point strictly inside (near the centroid).
    let ray = Ray::new(Vector3::new(fx(1_333_333), fx(1_333_333), fxi(5)), v(0, 0, -1));
    let hit = tri.intersects(&ray).unwrap();
    assert_eq!(hit.point, Vector3::new(fx(1_333_333), fx(1_333_333), fxi(0)));
}

#[test]
fn point_outside_triangle_misses() {
    let tri = Triangle::new(
        Material::default(),
        v(0, 0, 0),
        v(4, 0, 0),
        v(0, 4, 0),
        v(0, 0, 1),
        v(0, 0, 1),
        v(0, 0, 1),
    );
    // Reflected through the edge between the two axis vertices.
    let outside = Ray::new(v(3, 3, 5), v(0, 0, -1));
    assert!(tri.intersects(&outside).is_none());
    // Clearly outside on the negative side.
    let negative = Ray::new(v(-2, -2, 5), v(0, 0, -1));
    assert!(tri.intersects(&negative).is_none());
}

#[test]
fn blended_normal_favors_the_nearest_vertex() {
    // Distinct vertex normals: near the first vertex, the blend is
    // weighted by inverse distance, so that vertex's normal dominates.
    let tri = Triangle::new(
        Material::default(),
        v(0, 0, 0),
        v(4, 0, 0),
        v(0, 4, 0),
        v(0, 0, 1),
        v(1, 0, 0),
        v(1, 0, 0),
    );
    let near_v1 = Ray::new(Vector3::new(fx(500_000), fx(500_000), fxi(5)), v(0, 0, -1));
    let hit = tri.intersects(&near_v1).unwrap();
    // The hit is much closer to the first vertex, so its +z normal
    // outweighs the other vertices' +x normals.
    assert!(hit.surface_normal.z.raw > hit.surface_normal.x.raw);
    assert!(hit.surface_normal.x.raw > 0);
}

#[test]
fn guess_normal_faces_the_camera() {
    let cam = raytracer::camera::Camera::default();
    let tri = Triangle::guess_normal(Material::default(), v(0, 0, 0), v(4, 0, 0), v(0, 4, 0), &cam);
    // The camera looks along +z; the guessed normal must oppose it.
    assert_eq!(tri.n1, v(0, 0, -1));
    assert_eq!(tri.n2, tri.n1);
    assert_eq!(tri.n3, tri.n1);
}
