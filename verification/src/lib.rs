//! A recursive ray tracer over fixed-point arithmetic: sphere and plane
//! intersection, Phong shading with hard shadows, bounded mirror
//! reflection, and camera-ray generation, each with a contract that pins
//! its result to a mathematical model of the same computation.

pub mod fx;
pub mod vec3;
pub mod light;
pub mod object;
pub mod scene;
pub mod render;
pub mod frame;
