//! Scene primitives (spheres and planes), their materials, and the
//! ray-intersection tests, each pinned to a spec-level model of the
//! same computation.

use vstd::prelude::*;
use crate::fx::{Fx, fx_zero, fx_mul, fx_sub, fx_add, fx_div, fx_sqrt};
use crate::vec3::{
    Vec3f, v_zero, v_add, v_sub, v_scale, v_dot, v_unit_or_zero,
};

verus! {

/// Surface description: colors are vectors with components nominally in
/// `[0, 1]` but unclamped; the specular exponent is a whole number
/// controlling highlight tightness.
#[derive(Clone, Copy, PartialEq, Eq, Structural, Debug)]
pub struct Material {
    pub diffuse_color: Vec3f,
    pub specular_color: Vec3f,
    pub specular_exp: u32,
    pub reflective: bool,
}

/// A sphere: center and radius.
#[derive(Clone, Copy, PartialEq, Eq, Structural, Debug)]
pub struct Sphere {
    pub center: Vec3f,
    pub radius: Fx,
    pub material: Material,
}

/// A plane: a point on the plane and its unit normal, kept as given.
#[derive(Clone, Copy, PartialEq, Eq, Structural, Debug)]
pub struct Plane {
    pub center: Vec3f,
    pub normal: Vec3f,
    pub material: Material,
}

/// The closed set of primitive shapes the tracer knows.
#[derive(Clone, Copy, PartialEq, Eq, Structural, Debug)]
pub enum Object {
    Sphere(Sphere),
    Plane(Plane),
}

/// The transient result of one intersection test. `distance` is
/// meaningful only when `did_intersect` holds.
#[derive(Clone, Copy, PartialEq, Eq, Structural, Debug)]
pub struct RayIntersection {
    pub distance: Fx,
    pub normal: Vec3f,
    pub intersect_point: Vec3f,
    pub did_intersect: bool,
}

/// An intersection test that found nothing.
pub open spec fn miss() -> RayIntersection {
    RayIntersection {
        distance: fx_zero(),
        normal: v_zero(),
        intersect_point: v_zero(),
        did_intersect: false,
    }
}

/// Ray-plane test: a ray whose direction is perpendicular to the
/// plane's normal (zero dot product at fixed-point resolution) is
/// parallel and reports no hit; otherwise the hit parameter is
/// `dot(center - origin, normal) / dot(normal, direction)`, a hit only
/// when it is not behind the origin.
pub open spec fn plane_hit(p: Plane, origin: Vec3f, direction: Vec3f) -> RayIntersection {
    let denom = v_dot(p.normal, direction);
    let t = if denom.bits == 0 {
        fx_zero()
    } else {
        fx_div(v_dot(v_sub(p.center, origin), p.normal), denom)
    };
    RayIntersection {
        distance: t,
        normal: p.normal,
        did_intersect: denom.bits != 0 && t.bits >= 0,
        intersect_point: v_add(origin, v_scale(direction, t)),
    }
}

/// Ray-sphere test, the classic analytic form. When the near root is
/// behind the origin the far root is used, so a ray starting inside the
/// sphere reports the exit point; a hit is reported exactly when the
/// chosen root is nonnegative.
pub open spec fn sphere_hit(s: Sphere, origin: Vec3f, direction: Vec3f) -> RayIntersection {
    let l = v_sub(s.center, origin);
    let tca = v_dot(l, direction);
    let d2 = fx_sub(v_dot(l, l), fx_mul(tca, tca));
    let r2 = fx_mul(s.radius, s.radius);
    if d2.bits > r2.bits {
        miss()
    } else {
        let thc = fx_sqrt(fx_sub(r2, d2));
        let t0a = fx_sub(tca, thc);
        let t0 = if t0a.bits < 0 { fx_add(tca, thc) } else { t0a };
        let hit = v_add(origin, v_scale(direction, t0));
        RayIntersection {
            distance: t0,
            normal: v_unit_or_zero(v_sub(hit, s.center)),
            intersect_point: hit,
            did_intersect: !(t0.bits < 0),
        }
    }
}

pub open spec fn obj_hit(o: Object, origin: Vec3f, direction: Vec3f) -> RayIntersection {
    match o {
        Object::Sphere(s) => sphere_hit(s, origin, direction),
        Object::Plane(p) => plane_hit(p, origin, direction),
    }
}

pub open spec fn obj_material(o: Object) -> Material {
    match o {
        Object::Sphere(s) => s.material,
        Object::Plane(p) => p.material,
    }
}

pub open spec fn obj_center(o: Object) -> Vec3f {
    match o {
        Object::Sphere(s) => s.center,
        Object::Plane(p) => p.center,
    }
}

/// A ray perpendicular to a plane's normal never intersects the plane.
pub proof fn lemma_parallel_ray_misses_plane(p: Plane, origin: Vec3f, direction: Vec3f)
    requires
        v_dot(p.normal, direction).bits == 0,
    ensures
        !plane_hit(p, origin, direction).did_intersect,
{
}

impl Plane {
    pub fn ray_intersect(&self, origin: Vec3f, direction: Vec3f) -> (r: RayIntersection)
        ensures
            r == plane_hit(*self, origin, direction),
    {
        let denom = self.normal.dot(direction);
        let t = if denom.bits != 0 {
            self.center.sub(origin).dot(self.normal).div(denom)
        } else {
            Fx::zero()
        };
        RayIntersection {
            distance: t,
            normal: self.normal,
            did_intersect: denom.bits != 0 && t.bits >= 0,
            intersect_point: origin.add(direction.scale(t)),
        }
    }

    pub fn get_center(&self) -> (r: Vec3f)
        ensures
            r == self.center,
    {
        self.center
    }

    pub fn get_material(&self) -> (r: Material)
        ensures
            r == self.material,
    {
        self.material
    }
}

impl Sphere {
    pub fn ray_intersect(&self, origin: Vec3f, direction: Vec3f) -> (r: RayIntersection)
        ensures
            r == sphere_hit(*self, origin, direction),
    {
        let l = self.center.sub(origin);
        let tca = l.dot(direction);
        let d2 = l.dot(l).sub(tca.mul(tca));
        let r2 = self.radius.mul(self.radius);
        if d2.bits > r2.bits {
            return RayIntersection {
                did_intersect: false,
                intersect_point: Vec3f::zero(),
                normal: Vec3f::zero(),
                distance: Fx::zero(),
            };
        }
        let thc = r2.sub(d2).sqrt();
        let t0a = tca.sub(thc);
        let t0 = if t0a.bits < 0 { tca.add(thc) } else { t0a };
        let hit = origin.add(direction.scale(t0));
        RayIntersection {
            did_intersect: !(t0.bits < 0),
            intersect_point: hit,
            distance: t0,
            normal: hit.sub(self.center).unit_or_zero(),
        }
    }

    pub fn get_center(&self) -> (r: Vec3f)
        ensures
            r == self.center,
    {
        self.center
    }

    pub fn get_material(&self) -> (r: Material)
        ensures
            r == self.material,
    {
        self.material
    }
}

impl Object {
    pub fn ray_intersect(&self, origin: Vec3f, direction: Vec3f) -> (r: RayIntersection)
        ensures
            r == obj_hit(*self, origin, direction),
    {
        match self {
            Object::Sphere(s) => s.ray_intersect(origin, direction),
            Object::Plane(p) => p.ray_intersect(origin, direction),
        }
    }

    pub fn get_center(&self) -> (r: Vec3f)
        ensures
            r == obj_center(*self),
    {
        match self {
            Object::Sphere(s) => s.get_center(),
            Object::Plane(p) => p.get_center(),
        }
    }

    pub fn get_material(&self) -> (r: Material)
        ensures
            r == obj_material(*self),
    {
        match self {
            Object::Sphere(s) => s.get_material(),
            Object::Plane(p) => p.get_material(),
        }
    }
}

} // verus!
