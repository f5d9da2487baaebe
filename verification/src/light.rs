//! A point light: a world-space position and an unitless intensity.

use vstd::prelude::*;
use crate::fx::Fx;
use crate::vec3::Vec3f;

verus! {

#[derive(Clone, Copy, PartialEq, Eq, Structural, Debug)]
pub struct Light {
    pub position: Vec3f,
    pub intensity: Fx,
}

} // verus!
