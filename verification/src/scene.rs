//! The scene: primitives, lights, and a background color. The tracer
//! only reads it; construction and mutation belong to the caller.

use vstd::prelude::*;
use crate::light::Light;
use crate::object::Object;
use crate::vec3::Vec3f;

verus! {

pub struct Scene {
    pub objects: Vec<Object>,
    pub lights: Vec<Light>,
    pub bg_color: Vec3f,
}

} // verus!
