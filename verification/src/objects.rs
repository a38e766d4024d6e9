//! The intersectable objects of a scene: spheres, planes and triangles,
//! gathered in one closed variant type.

use vstd::prelude::*;

pub mod plane;
pub mod sphere;
pub mod triangle;

use crate::intersection::{IntV, Intersection};
use crate::material::{MatV, Material};
use crate::ray::{Ray, RayV};
use plane::{spec_plane_intersect, Plane, PlaneV};
use sphere::{spec_sphere_intersect, Sphere, SphereV};
use triangle::{spec_triangle_intersect, Triangle, TriangleV};

verus! {

/// A hit is valid only past this small positive ray parameter, which
/// keeps a secondary ray from re-intersecting its own origin surface
/// (raw fixed-point units: 0.001).
pub const EPSILON_RAW: i64 = 1_000;

/// Mathematical model of an object.
pub ghost enum ObjectV {
    Sphere(SphereV),
    Plane(PlaneV),
    Triangle(TriangleV),
}

/// The nearest valid intersection of a ray with an object, or nothing.
pub open spec fn spec_object_intersect(o: ObjectV, r: RayV) -> Option<IntV> {
    match o {
        ObjectV::Sphere(s) => spec_sphere_intersect(s, r),
        ObjectV::Plane(p) => spec_plane_intersect(p, r),
        ObjectV::Triangle(t) => spec_triangle_intersect(t, r),
    }
}

/// The material an object carries.
pub open spec fn spec_object_material(o: ObjectV) -> MatV {
    match o {
        ObjectV::Sphere(s) => s.material,
        ObjectV::Plane(p) => p.material,
        ObjectV::Triangle(t) => t.material,
    }
}

/// An object of the scene: one of the three primitive kinds, owning its
/// geometry and its material.
#[derive(Clone, Copy, Debug)]
pub enum Object {
    Sphere(Sphere),
    Plane(Plane),
    Triangle(Triangle),
}

impl View for Object {
    type V = ObjectV;

    open spec fn view(&self) -> ObjectV {
        match self {
            Object::Sphere(s) => ObjectV::Sphere(s@),
            Object::Plane(p) => ObjectV::Plane(p@),
            Object::Triangle(t) => ObjectV::Triangle(t@),
        }
    }
}

impl Object {
    /// The nearest valid intersection of a ray with this object, or
    /// nothing.
    pub fn intersects(&self, ray: &Ray) -> (r: Option<Intersection>)
        ensures
            match r {
                Some(i) => spec_object_intersect(self@, ray@) == Some(i@),
                None => spec_object_intersect(self@, ray@) is None,
            },
    {
        match self {
            Object::Sphere(s) => s.intersects(ray),
            Object::Plane(p) => p.intersects(ray),
            Object::Triangle(t) => t.intersects(ray),
        }
    }

    /// The object's material.
    pub fn material(&self) -> (r: &Material)
        ensures
            r@ == spec_object_material(self@),
    {
        match self {
            Object::Sphere(s) => &s.material,
            Object::Plane(p) => &p.material,
            Object::Triangle(t) => &t.material,
        }
    }
}

} // verus!
