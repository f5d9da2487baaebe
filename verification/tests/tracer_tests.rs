use raytracer::fx::{Fx, SCALE};
use raytracer::frame::Frame;
use raytracer::light::Light;
use raytracer::object::{Material, Object, Plane, Sphere};
use raytracer::render::Render;
use raytracer::scene::Scene;
use raytracer::vec3::Vec3f;

fn fxv(v: f64) -> Fx {
    Fx { bits: (v * (SCALE as f64)).round() as i64 }
}

fn tof(a: Fx) -> f64 {
    a.bits as f64 / SCALE as f64
}

fn v3(x: f64, y: f64, z: f64) -> Vec3f {
    Vec3f { x: fxv(x), y: fxv(y), z: fxv(z) }
}

fn near(a: f64, b: f64, tol: f64) -> bool {
    (a - b).abs() <= tol
}

fn matte(r: f64, g: f64, b: f64) -> Material {
    Material {
        diffuse_color: v3(r, g, b),
        specular_color: v3(0.0, 0.0, 0.0),
        specular_exp: 1,
        reflective: false,
    }
}

fn mirror() -> Material {
    Material {
        diffuse_color: v3(1.0, 1.0, 1.0),
        specular_color: v3(1.0, 1.0, 1.0),
        specular_exp: 50,
        reflective: true,
    }
}

#[test]
fn fx_arithmetic_exact() {
    let a = fxv(1.5);
    let b = fxv(2.0);
    assert_eq!(a.add(b), fxv(3.5));
    assert_eq!(a.sub(b), fxv(-0.5));
    assert_eq!(a.mul(b), fxv(3.0));
    assert_eq!(a.div(b), fxv(0.75));
    assert_eq!(fxv(-3.0).div(b), fxv(-1.5));
    assert_eq!(b.neg(), fxv(-2.0));
}

#[test]
fn fx_mul_truncates_toward_zero() {
    // 3 and -3 raw bits are tiny values whose product rounds to zero,
    // from both sides.
    let tiny = Fx { bits: 3 };
    let neg_tiny = Fx { bits: -3 };
    assert_eq!(tiny.mul(tiny).bits, 0);
    assert_eq!(neg_tiny.mul(tiny).bits, 0);
}

#[test]
fn fx_saturates_at_the_range_edge() {
    let top = Fx { bits: i64::MAX };
    assert_eq!(top.add(Fx { bits: 1 }).bits, i64::MAX);
    assert_eq!(top.neg().bits, -i64::MAX);
}

#[test]
fn fx_sqrt_values() {
    assert_eq!(fxv(4.0).sqrt(), fxv(2.0));
    assert_eq!(fxv(0.0).sqrt().bits, 0);
    assert!(near(tof(fxv(2.0).sqrt()), 1.41421356, 1e-5));
}

#[test]
fn fx_pow_values() {
    assert_eq!(fxv(2.0).pow(10), fxv(1024.0));
    assert_eq!(fxv(123.25).pow(0), fxv(1.0));
    assert!(near(tof(fxv(0.5).pow(3)), 0.125, 1e-5));
}

#[test]
fn vector_operations() {
    let a = v3(1.0, 2.0, 3.0);
    let b = v3(4.0, -5.0, 6.0);
    assert_eq!(a.add(b), v3(5.0, -3.0, 9.0));
    assert_eq!(a.sub(b), v3(-3.0, 7.0, -3.0));
    assert_eq!(a.scale(fxv(2.0)), v3(2.0, 4.0, 6.0));
    assert_eq!(a.dot(b), fxv(12.0));
    assert_eq!(v3(3.0, 4.0, 0.0).norm(), fxv(5.0));
    // component-wise division rounds toward zero, so the unit vector is
    // exact to within one fixed-point unit
    let u = v3(3.0, 4.0, 0.0).normalize();
    assert!(near(tof(u.x), 0.6, 2e-6));
    assert!(near(tof(u.y), 0.8, 2e-6));
    assert_eq!(u.z.bits, 0);
}

#[test]
fn reflect_about_axis_is_exact() {
    let d = v3(1.0, 2.0, 3.0);
    let n = v3(0.0, 1.0, 0.0);
    let r = Vec3f::reflect(d, n);
    assert_eq!(r, v3(1.0, -2.0, 3.0));
    // reflecting twice returns the original direction exactly
    assert_eq!(Vec3f::reflect(r, n), d);
}

#[test]
fn reflect_twice_about_general_unit_normal_is_close() {
    let d = v3(0.3, -0.9, 0.2);
    let n = v3(1.0, 1.0, 0.0).normalize();
    let r2 = Vec3f::reflect(Vec3f::reflect(d, n), n);
    assert!(near(tof(r2.x), tof(d.x), 1e-4));
    assert!(near(tof(r2.y), tof(d.y), 1e-4));
    assert!(near(tof(r2.z), tof(d.z), 1e-4));
}

#[test]
fn parallel_ray_misses_plane() {
    let p = Plane { center: v3(0.0, -10.0, 0.0), normal: v3(0.0, 1.0, 0.0), material: matte(1.0, 0.0, 0.0) };
    let hit = p.ray_intersect(v3(0.0, 0.0, 0.0), v3(1.0, 0.0, 0.0));
    assert!(!hit.did_intersect);
    assert_eq!(hit.distance.bits, 0);
}

#[test]
fn plane_hit_straight_down() {
    let p = Plane { center: v3(0.0, -10.0, 0.0), normal: v3(0.0, 1.0, 0.0), material: matte(1.0, 0.0, 0.0) };
    let hit = p.ray_intersect(v3(0.0, 0.0, 0.0), v3(0.0, -1.0, 0.0));
    assert!(hit.did_intersect);
    assert_eq!(hit.distance, fxv(10.0));
    assert_eq!(hit.intersect_point, v3(0.0, -10.0, 0.0));
    assert_eq!(hit.normal, v3(0.0, 1.0, 0.0));
}

#[test]
fn plane_hit_behind_origin_is_a_miss() {
    let p = Plane { center: v3(0.0, 10.0, 0.0), normal: v3(0.0, 1.0, 0.0), material: matte(1.0, 0.0, 0.0) };
    let hit = p.ray_intersect(v3(0.0, 0.0, 0.0), v3(0.0, -1.0, 0.0));
    assert!(!hit.did_intersect);
}

#[test]
fn sphere_hit_straight_on() {
    let s = Sphere { center: v3(0.0, 0.0, -5.0), radius: fxv(1.0), material: matte(0.0, 0.0, 1.0) };
    let hit = s.ray_intersect(v3(0.0, 0.0, 0.0), v3(0.0, 0.0, -1.0));
    assert!(hit.did_intersect);
    assert_eq!(hit.distance, fxv(4.0));
    assert_eq!(hit.intersect_point, v3(0.0, 0.0, -4.0));
    assert_eq!(hit.normal, v3(0.0, 0.0, 1.0));
}

#[test]
fn sphere_hit_point_lies_on_the_surface() {
    // when the reported distance is positive the hit point is one
    // radius from the center, within fixed-point tolerance
    let s = Sphere { center: v3(0.0, 0.0, -5.0), radius: fxv(1.0), material: matte(0.0, 0.0, 1.0) };
    let dir = v3(0.1, 0.05, -1.0).normalize();
    let hit = s.ray_intersect(v3(0.0, 0.0, 0.0), dir);
    assert!(hit.did_intersect);
    assert!(tof(hit.distance) > 0.0);
    let off = hit.intersect_point.sub(s.center);
    assert!(near(tof(off.norm()), 1.0, 2e-3));
}

#[test]
fn sphere_behind_origin_is_a_miss() {
    let s = Sphere { center: v3(0.0, 0.0, 5.0), radius: fxv(1.0), material: matte(0.0, 0.0, 1.0) };
    let hit = s.ray_intersect(v3(0.0, 0.0, 0.0), v3(0.0, 0.0, -1.0));
    assert!(!hit.did_intersect);
}

#[test]
fn ray_from_inside_sphere_reports_exit_point() {
    let s = Sphere { center: v3(0.0, 0.0, -5.0), radius: fxv(1.0), material: matte(0.0, 0.0, 1.0) };
    let hit = s.ray_intersect(v3(0.0, 0.0, -5.0), v3(0.0, 0.0, -1.0));
    assert!(hit.did_intersect);
    assert_eq!(hit.distance, fxv(1.0));
    assert_eq!(hit.intersect_point, v3(0.0, 0.0, -6.0));
}

#[test]
fn nearest_hit_wins_and_cutoff_applies() {
    let near_sphere = Object::Sphere(Sphere { center: v3(0.0, 0.0, -5.0), radius: fxv(1.0), material: matte(1.0, 0.0, 0.0) });
    let far_sphere = Object::Sphere(Sphere { center: v3(0.0, 0.0, -9.0), radius: fxv(1.0), material: matte(0.0, 1.0, 0.0) });
    let scene = Scene {
        objects: vec![far_sphere, near_sphere],
        lights: vec![],
        bg_color: v3(0.6, 0.6, 0.8),
    };
    let (hit, material) = Render::check_intersections(&scene, v3(0.0, 0.0, 0.0), v3(0.0, 0.0, -1.0));
    assert!(hit.did_intersect);
    assert_eq!(hit.distance, fxv(4.0));
    assert_eq!(material, matte(1.0, 0.0, 0.0));

    let distant = Scene {
        objects: vec![Object::Sphere(Sphere { center: v3(0.0, 0.0, -2000.0), radius: fxv(1.0), material: matte(1.0, 0.0, 0.0) })],
        lights: vec![],
        bg_color: v3(0.6, 0.6, 0.8),
    };
    let (hit2, _) = Render::check_intersections(&distant, v3(0.0, 0.0, 0.0), v3(0.0, 0.0, -1.0));
    assert!(!hit2.did_intersect);
}

#[test]
fn center_pixel_distance_is_four() {
    // sphere at (0,0,-5), radius 1, camera at the origin, fov 90
    // degrees (half-fov tangent 1), 100x100 image: the center pixel's
    // ray meets the surface at distance 4
    let scene = Scene {
        objects: vec![Object::Sphere(Sphere { center: v3(0.0, 0.0, -5.0), radius: fxv(1.0), material: matte(0.0, 0.0, 1.0) })],
        lights: vec![],
        bg_color: v3(0.6, 0.6, 0.8),
    };
    let dir = Render::camera_direction(50, 50, 100, 100, fxv(1.0));
    assert!(near(tof(dir.z), -1.0, 1e-3));
    let (hit, _) = Render::check_intersections(&scene, v3(0.0, 0.0, 0.0), dir);
    assert!(hit.did_intersect);
    assert!(near(tof(hit.distance), 4.0, 0.01));
}

#[test]
fn no_lights_shade_to_exact_black() {
    let scene = Scene {
        objects: vec![Object::Sphere(Sphere { center: v3(0.0, 0.0, -5.0), radius: fxv(1.0), material: matte(0.0, 0.0, 1.0) })],
        lights: vec![],
        bg_color: v3(0.6, 0.6, 0.8),
    };
    let color = Render::calc_pixel(&scene, v3(0.0, 0.0, 0.0), v3(0.0, 0.0, -1.0), 0);
    assert_eq!(color, v3(0.0, 0.0, 0.0));
}

#[test]
fn empty_scene_returns_background_everywhere() {
    let scene = Scene { objects: vec![], lights: vec![Light { position: v3(0.0, 5.0, 0.0), intensity: fxv(1.0) }], bg_color: v3(0.6, 0.6, 0.8) };
    let bg = v3(0.6, 0.6, 0.8);
    assert_eq!(Render::calc_pixel(&scene, v3(0.0, 0.0, 0.0), v3(0.0, 0.0, -1.0), 0), bg);
    assert_eq!(Render::calc_pixel(&scene, v3(1.0, 2.0, 3.0), v3(0.0, -1.0, 0.0), 2), bg);
}

#[test]
fn depth_bound_returns_background() {
    let scene = Scene {
        objects: vec![Object::Sphere(Sphere { center: v3(0.0, 0.0, -5.0), radius: fxv(1.0), material: mirror() })],
        lights: vec![Light { position: v3(0.0, 5.0, 0.0), intensity: fxv(1.0) }],
        bg_color: v3(0.6, 0.6, 0.8),
    };
    let color = Render::calc_pixel(&scene, v3(0.0, 0.0, 0.0), v3(0.0, 0.0, -1.0), 4);
    assert_eq!(color, v3(0.6, 0.6, 0.8));
}

#[test]
fn diffuse_term_scales_with_light_cosine() {
    // plane at y=-10, one light with nothing in the way: the diffuse
    // term follows dot(light_direction, normal) as the light moves off
    // vertical
    let plane = Object::Plane(Plane { center: v3(0.0, -10.0, 0.0), normal: v3(0.0, 1.0, 0.0), material: matte(1.0, 0.0, 0.0) });
    let overhead = Scene {
        objects: vec![plane],
        lights: vec![Light { position: v3(0.0, 0.0, 0.0), intensity: fxv(1.0) }],
        bg_color: v3(0.0, 0.0, 0.0),
    };
    // ray straight down from the origin hits the plane at (0,-10,0),
    // the light sits straight above: cosine 1
    let c1 = Render::calc_pixel(&overhead, v3(0.0, 0.0, 0.0), v3(0.0, -1.0, 0.0), 0);
    assert!(near(tof(c1.x), 1.0, 1e-3));

    // same geometry with the light 45 degrees off vertical
    let tilted = Scene {
        objects: vec![plane],
        lights: vec![Light { position: v3(5.0, -5.0, 0.0), intensity: fxv(1.0) }],
        bg_color: v3(0.0, 0.0, 0.0),
    };
    let c2 = Render::calc_pixel(&tilted, v3(0.0, 0.0, 0.0), v3(0.0, -1.0, 0.0), 0);
    assert!(near(tof(c2.x), 0.70710678, 1e-3));

    // and 60 degrees off vertical: cosine one half
    let steep = Scene {
        objects: vec![plane],
        lights: vec![Light { position: v3(5.0 * 1.7320508, -5.0, 0.0), intensity: fxv(1.0) }],
        bg_color: v3(0.0, 0.0, 0.0),
    };
    let c3 = Render::calc_pixel(&steep, v3(0.0, 0.0, 0.0), v3(0.0, -1.0, 0.0), 0);
    assert!(near(tof(c3.x), 0.5, 1e-3));
}

#[test]
fn shadowed_light_contributes_nothing() {
    // a small sphere sits between the plane hit point and the light,
    // off the primary ray
    let plane = Object::Plane(Plane { center: v3(0.0, -10.0, 0.0), normal: v3(0.0, 1.0, 0.0), material: matte(1.0, 0.0, 0.0) });
    let blocker = Object::Sphere(Sphere { center: v3(2.0, -8.0, 0.0), radius: fxv(0.5), material: matte(0.0, 1.0, 0.0) });
    let scene = Scene {
        objects: vec![plane, blocker],
        lights: vec![Light { position: v3(4.0, -6.0, 0.0), intensity: fxv(1.0) }],
        bg_color: v3(0.0, 0.0, 0.0),
    };
    let color = Render::calc_pixel(&scene, v3(0.0, 0.0, 0.0), v3(0.0, -1.0, 0.0), 0);
    assert_eq!(color, v3(0.0, 0.0, 0.0));
}

#[test]
fn facing_mirror_spheres_terminate_with_a_bounded_color() {
    let a = Object::Sphere(Sphere { center: v3(0.0, 0.0, -3.0), radius: fxv(1.0), material: mirror() });
    let b = Object::Sphere(Sphere { center: v3(0.0, 0.0, 3.0), radius: fxv(1.0), material: mirror() });
    let scene = Scene {
        objects: vec![a, b],
        lights: vec![Light { position: v3(0.0, 10.0, 0.0), intensity: fxv(0.5) }],
        bg_color: v3(0.6, 0.6, 0.8),
    };
    let c1 = Render::calc_pixel(&scene, v3(0.0, 0.0, 0.0), v3(0.0, 0.0, -1.0), 0);
    let c2 = Render::calc_pixel(&scene, v3(0.0, 0.0, 0.0), v3(0.0, 0.0, -1.0), 0);
    assert_eq!(c1, c2);
    for c in [c1.x, c1.y, c1.z] {
        assert!(tof(c).abs() < 1000.0);
    }
}

#[test]
fn mirror_blends_local_color_with_reflection() {
    // an unlit mirror sphere: local shading is black, the reflected ray
    // escapes to the background, so the result is 0.3*black + 0.7*bg
    let scene = Scene {
        objects: vec![Object::Sphere(Sphere { center: v3(0.0, 0.0, -5.0), radius: fxv(1.0), material: mirror() })],
        lights: vec![],
        bg_color: v3(0.6, 0.6, 0.8),
    };
    let c = Render::calc_pixel(&scene, v3(0.0, 0.0, 0.0), v3(0.0, 0.0, -1.0), 0);
    assert!(near(tof(c.x), 0.42, 1e-3));
    assert!(near(tof(c.y), 0.42, 1e-3));
    assert!(near(tof(c.z), 0.56, 1e-3));
}

#[test]
fn render_scales_background_to_display_range() {
    let scene = Scene { objects: vec![], lights: vec![], bg_color: v3(0.6, 0.6, 0.8) };
    let c = Render::render(&scene, 10, 20, 64, 48, fxv(1.0), v3(0.0, 0.0, 0.0));
    assert!(near(tof(c.x), 153.0, 0.01));
    assert!(near(tof(c.y), 153.0, 0.01));
    assert!(near(tof(c.z), 204.0, 0.01));
}

#[test]
fn frame_buffer_roundtrip() {
    let frame = Frame::new(4, 3, fxv(65.0));
    assert_eq!(frame.width, 4);
    assert_eq!(frame.height, 3);
    let mut fb = frame.init_frame();
    assert_eq!(fb.len(), 3);
    assert_eq!(fb[0].len(), 4);
    assert_eq!(Frame::get_pixel(fb.clone(), 2, 1), v3(0.0, 0.0, 0.0));
    Frame::set_pixel(&mut fb, 2, 1, v3(0.25, 0.5, 0.75));
    assert_eq!(Frame::get_pixel(fb.clone(), 2, 1), v3(0.25, 0.5, 0.75));
    assert_eq!(Frame::get_pixel(fb, 3, 2), v3(0.0, 0.0, 0.0));
}
