//! The tracer core: nearest-hit search over the scene, the Phong
//! shading evaluator with hard shadows, the depth-bounded recursive
//! reflection integrator, and camera-ray generation.

use vstd::prelude::*;
use crate::fx::{
    Fx, SCALE, fx_zero, fx_from_int, fx_add, fx_sub, fx_mul, fx_div, fx_neg,
    fx_max0, fx_pow, sqrt_floor, lemma_sqrt_floor,
};
use crate::vec3::{
    Vec3f, v_zero, v_add, v_sub, v_scale, v_dot, v_norm, v_unit, lemma_v_scale_zero,
};
use crate::object::{Object, Material, RayIntersection, obj_hit, obj_material};
use crate::light::Light;
use crate::scene::Scene;

verus! {

/// Hits at or beyond this distance (1000 world units) are treated as
/// misses: the visibility cutoff for primary, shadow and reflection
/// rays.
pub const CUTOFF_BITS: i64 = 1000 * SCALE;

/// Offset used to push shadow and reflection origins off a surface,
/// the nearest fixed-point value to the nominal 1e-4. Scale-dependent:
/// it assumes scene units on the order of 1-20.
pub const BIAS_BITS: i64 = 105;

/// Maximum recursion depth of the reflection integrator.
pub const MAX_DEPTH: i32 = 4;

/// Weight of the local shading color on a reflective surface: the
/// nearest fixed-point value to 0.3. Together with `BLEND_REFLECT_BITS`
/// it sums to exactly one whole.
pub const BLEND_DIRECT_BITS: i64 = 314573;

/// Weight of the recursively traced reflection color, the nearest
/// fixed-point value to 0.7.
pub const BLEND_REFLECT_BITS: i64 = 734003;

/// The sentinel the nearest-hit search starts from: no hit, at the
/// farthest representable distance.
pub open spec fn no_hit() -> RayIntersection {
    RayIntersection {
        distance: Fx { bits: i64::MAX },
        normal: v_zero(),
        intersect_point: v_zero(),
        did_intersect: false,
    }
}

/// The material reported when no primitive is hit.
pub open spec fn default_material() -> Material {
    Material {
        diffuse_color: v_zero(),
        specular_color: v_zero(),
        specular_exp: 0,
        reflective: false,
    }
}

/// Nearest hit among the first `n` objects, with the owning material;
/// strictly closer hits win, so on an exact tie the earlier object is
/// kept.
pub open spec fn scan_objects(
    objects: Seq<Object>,
    origin: Vec3f,
    direction: Vec3f,
    n: int,
) -> (RayIntersection, Material)
    decreases n,
{
    if n <= 0 {
        (no_hit(), default_material())
    } else {
        let prev = scan_objects(objects, origin, direction, n - 1);
        let hit = obj_hit(objects[n - 1], origin, direction);
        if hit.did_intersect && hit.distance.bits < prev.0.distance.bits {
            (hit, obj_material(objects[n - 1]))
        } else {
            prev
        }
    }
}

/// Nearest-hit search over the whole scene: the closest valid hit, with
/// `did_intersect` overridden to false when even that hit lies at or
/// beyond the visibility cutoff.
pub open spec fn spec_check_intersections(
    scene: Scene,
    origin: Vec3f,
    direction: Vec3f,
) -> (RayIntersection, Material) {
    let p = scan_objects(scene.objects@, origin, direction, scene.objects@.len() as int);
    (
        RayIntersection { did_intersect: p.0.distance.bits < CUTOFF_BITS, ..p.0 },
        p.1,
    )
}

/// The surface offset applied before firing a shadow or reflection ray:
/// the origin is pushed to the side of the surface the ray leaves.
pub open spec fn biased_origin(point: Vec3f, normal: Vec3f, toward: Fx) -> Vec3f {
    if toward.bits < 0 {
        v_sub(point, v_scale(normal, Fx { bits: BIAS_BITS }))
    } else {
        v_add(point, v_scale(normal, Fx { bits: BIAS_BITS }))
    }
}

/// Unit direction from a surface point toward a light.
pub open spec fn light_dir(light: Light, point: Vec3f) -> Vec3f {
    v_unit(v_sub(light.position, point))
}

/// Distance from a surface point to a light.
pub open spec fn light_dist(light: Light, point: Vec3f) -> Fx {
    v_norm(v_sub(light.position, point))
}

/// Whether something blocks the path from the (biased) surface point to
/// the light: a hard shadow test with no falloff.
pub open spec fn occluded(scene: Scene, point: Vec3f, normal: Vec3f, light: Light) -> bool {
    let ld = light_dir(light, point);
    let so = biased_origin(point, normal, v_dot(ld, normal));
    let sh = spec_check_intersections(scene, so, ld).0;
    sh.did_intersect && v_norm(v_sub(sh.intersect_point, so)).bits < light_dist(light, point).bits
}

/// The Phong specular factor for one light:
/// `max(0, dot(reflect(light_dir, normal), view_direction)) ^ exponent`.
/// The reflected light direction is dotted with the incoming view ray
/// itself (not its negation); this sign convention places the
/// highlights.
pub open spec fn phong_factor(
    light: Light,
    point: Vec3f,
    normal: Vec3f,
    direction: Vec3f,
    exponent: u32,
) -> Fx {
    fx_pow(
        fx_max0(v_dot(crate::vec3::v_reflect(light_dir(light, point), normal), direction)),
        exponent as nat,
    )
}

/// Accumulated (diffuse, specular) intensities over the first `n`
/// lights. A light exactly at the surface point (zero-length direction)
/// contributes nothing; an occluded light is skipped entirely.
pub open spec fn light_terms(
    scene: Scene,
    intersection: RayIntersection,
    material: Material,
    direction: Vec3f,
    n: int,
) -> (Fx, Fx)
    decreases n,
{
    if n <= 0 {
        (fx_zero(), fx_zero())
    } else {
        let prev = light_terms(scene, intersection, material, direction, n - 1);
        let light = scene.lights@[n - 1];
        let point = intersection.intersect_point;
        if light_dist(light, point).bits == 0 {
            prev
        } else if occluded(scene, point, intersection.normal, light) {
            prev
        } else {
            let toward = v_dot(light_dir(light, point), intersection.normal);
            (
                fx_add(prev.0, fx_mul(light.intensity, fx_max0(toward))),
                fx_add(
                    prev.1,
                    fx_mul(
                        phong_factor(light, point, intersection.normal, direction,
                            material.specular_exp),
                        light.intensity,
                    ),
                ),
            )
        }
    }
}

/// The local shading color: diffuse and specular colors scaled by the
/// accumulated intensities of all visible lights, and nothing else (no
/// ambient term).
pub open spec fn spec_calc_lights(
    scene: Scene,
    intersection: RayIntersection,
    material: Material,
    direction: Vec3f,
) -> Vec3f {
    let t = light_terms(scene, intersection, material, direction, scene.lights@.len() as int);
    v_add(v_scale(material.diffuse_color, t.0), v_scale(material.specular_color, t.1))
}

/// The recursive reflection integrator: background color at the depth
/// bound or on a miss; otherwise the local shading color, blended with
/// the mirrored recursion (weights near 0.3/0.7) when the material is
/// reflective.
pub open spec fn spec_calc_pixel(
    scene: Scene,
    origin: Vec3f,
    direction: Vec3f,
    depth: int,
) -> Vec3f
    decreases MAX_DEPTH - depth,
{
    let p = spec_check_intersections(scene, origin, direction);
    if depth < MAX_DEPTH && p.0.did_intersect {
        let lighting = spec_calc_lights(scene, p.0, p.1, direction);
        if p.1.reflective {
            let rd = crate::vec3::v_reflect(direction, p.0.normal);
            let ro = biased_origin(p.0.intersect_point, p.0.normal, v_dot(rd, p.0.normal));
            v_add(
                v_scale(lighting, Fx { bits: BLEND_DIRECT_BITS }),
                v_scale(
                    spec_calc_pixel(scene, ro, rd, depth + 1),
                    Fx { bits: BLEND_REFLECT_BITS },
                ),
            )
        } else {
            lighting
        }
    } else {
        scene.bg_color
    }
}

/// The camera ray for pixel `(i, j)` of a `width x height` image:
/// normalized device coordinates scaled by the tangent of half the
/// field of view (and the aspect ratio horizontally), the vertical axis
/// inverted so row zero is up, looking down the negative z axis.
pub open spec fn camera_ray(i: int, j: int, width: int, height: int, half_fov_tan: Fx) -> Vec3f {
    let wf = fx_from_int(width);
    let hf = fx_from_int(height);
    let x = fx_div(
        fx_mul(fx_mul(fx_sub(fx_div(fx_from_int(2 * i + 1), wf), fx_from_int(1)), half_fov_tan), wf),
        hf,
    );
    let y = fx_neg(fx_mul(fx_sub(fx_div(fx_from_int(2 * j + 1), hf), fx_from_int(1)), half_fov_tan));
    v_unit(Vec3f { x, y, z: fx_from_int(-1) })
}

/// The full per-pixel result: the integrator's color for the camera
/// ray, scaled to the display range by 255.
pub open spec fn spec_render(
    scene: Scene,
    i: int,
    j: int,
    width: int,
    height: int,
    half_fov_tan: Fx,
    cam_pos: Vec3f,
) -> Vec3f {
    v_scale(
        spec_calc_pixel(scene, cam_pos, camera_ray(i, j, width, height, half_fov_tan), 0),
        fx_from_int(255),
    )
}

pub struct Render;

impl Render {
    /// Scan every primitive and keep the nearest valid hit, then treat
    /// hits at or beyond the visibility cutoff as misses.
    pub fn check_intersections(scene: &Scene, origin: Vec3f, direction: Vec3f) -> (r: (
        RayIntersection,
        Material,
    ))
        ensures
            r == spec_check_intersections(*scene, origin, direction),
    {
        let mut closest_intersection = RayIntersection {
            did_intersect: false,
            distance: Fx { bits: i64::MAX },
            normal: Vec3f::zero(),
            intersect_point: Vec3f::zero(),
        };
        let mut closest_material = Material {
            diffuse_color: Vec3f::zero(),
            specular_color: Vec3f::zero(),
            specular_exp: 0,
            reflective: false,
        };
        let n = scene.objects.len();
        let mut i: usize = 0;
        while i < n
            invariant
                n == scene.objects@.len(),
                i <= n,
                closest_intersection == scan_objects(scene.objects@, origin, direction,
                    i as int).0,
                closest_material == scan_objects(scene.objects@, origin, direction, i as int).1,
            decreases n - i,
        {
            let intersection = scene.objects[i].ray_intersect(origin, direction);
            if intersection.did_intersect
                && intersection.distance.bits < closest_intersection.distance.bits {
                closest_intersection = intersection;
                closest_material = scene.objects[i].get_material();
            }
            i = i + 1;
        }
        let did = closest_intersection.distance.bits < CUTOFF_BITS;
        (RayIntersection { did_intersect: did, ..closest_intersection }, closest_material)
    }

    /// Accumulate diffuse and specular intensity over every light, with
    /// a hard shadow test per light, then apply the material colors.
    pub fn calc_lights(
        scene: &Scene,
        intersection: &RayIntersection,
        material: &Material,
        direction: Vec3f,
    ) -> (r: Vec3f)
        ensures
            r == spec_calc_lights(*scene, *intersection, *material, direction),
    {
        let mut diffuse_intensity = Fx::zero();
        let mut specular_intensity = Fx::zero();
        let n = scene.lights.len();
        let mut i: usize = 0;
        while i < n
            invariant
                n == scene.lights@.len(),
                i <= n,
                diffuse_intensity == light_terms(*scene, *intersection, *material, direction,
                    i as int).0,
                specular_intensity == light_terms(*scene, *intersection, *material, direction,
                    i as int).1,
            decreases n - i,
        {
            let light = scene.lights[i];
            let lv = light.position.sub(intersection.intersect_point);
            let dist = lv.norm();
            if dist.bits != 0 {
                let direction_to_light = lv.normalize();
                let phong_factor = Vec3f::reflect(direction_to_light, intersection.normal)
                    .dot(direction)
                    .max0()
                    .pow(material.specular_exp);
                let toward = direction_to_light.dot(intersection.normal);
                let shadow_origin = if toward.bits < 0 {
                    intersection.intersect_point.sub(
                        intersection.normal.scale(Fx { bits: BIAS_BITS }),
                    )
                } else {
                    intersection.intersect_point.add(
                        intersection.normal.scale(Fx { bits: BIAS_BITS }),
                    )
                };
                let shadow_intersection =
                    Render::check_intersections(scene, shadow_origin, direction_to_light).0;
                let in_shadow = shadow_intersection.did_intersect
                    && shadow_intersection.intersect_point.sub(shadow_origin).norm().bits
                        < dist.bits;
                if !in_shadow {
                    diffuse_intensity = diffuse_intensity.add(
                        light.intensity.mul(toward.max0()),
                    );
                    specular_intensity = specular_intensity.add(
                        phong_factor.mul(light.intensity),
                    );
                }
            }
            i = i + 1;
        }
        material.diffuse_color.scale(diffuse_intensity).add(
            material.specular_color.scale(specular_intensity),
        )
    }

    /// One ray's color: nearest hit, local shading, and a mirrored
    /// recursive call (bounded at `MAX_DEPTH`) for reflective
    /// materials.
    pub fn calc_pixel(scene: &Scene, origin: Vec3f, direction: Vec3f, depth: i32) -> (r: Vec3f)
        ensures
            r == spec_calc_pixel(*scene, origin, direction, depth as int),
        decreases MAX_DEPTH - depth,
    {
        let (intersection, material) = Render::check_intersections(scene, origin, direction);
        if depth < MAX_DEPTH && intersection.did_intersect {
            let lighting_color = Render::calc_lights(scene, &intersection, &material, direction);
            if material.reflective {
                let reflect_direction = Vec3f::reflect(direction, intersection.normal);
                let toward = reflect_direction.dot(intersection.normal);
                let reflect_origin = if toward.bits < 0 {
                    intersection.intersect_point.sub(
                        intersection.normal.scale(Fx { bits: BIAS_BITS }),
                    )
                } else {
                    intersection.intersect_point.add(
                        intersection.normal.scale(Fx { bits: BIAS_BITS }),
                    )
                };
                let reflected = Render::calc_pixel(scene, reflect_origin, reflect_direction,
                    depth + 1);
                lighting_color.scale(Fx { bits: BLEND_DIRECT_BITS }).add(
                    reflected.scale(Fx { bits: BLEND_REFLECT_BITS }),
                )
            } else {
                lighting_color
            }
        } else {
            scene.bg_color
        }
    }

    /// The camera ray for one pixel. The caller supplies the tangent of
    /// half the field of view; trigonometry stays outside the core.
    pub fn camera_direction(i: i32, j: i32, width: usize, height: usize, half_fov_tan: Fx) -> (r:
        Vec3f)
        requires
            1 <= width <= 0x100000000,
            1 <= height <= 0x100000000,
        ensures
            r == camera_ray(i as int, j as int, width as int, height as int, half_fov_tan),
    {
        let wf = Fx::from_i64(width as i64);
        let hf = Fx::from_i64(height as i64);
        let xa = Fx::from_i64(2 * (i as i64) + 1).div(wf);
        let x = xa.sub(Fx::from_i64(1)).mul(half_fov_tan).mul(wf).div(hf);
        let ya = Fx::from_i64(2 * (j as i64) + 1).div(hf);
        let y = ya.sub(Fx::from_i64(1)).mul(half_fov_tan).neg();
        let v = Vec3f { x, y, z: Fx::from_i64(-1) };
        proof {
            lemma_unit_z_norm_positive(v);
        }
        v.normalize()
    }

    /// The display-range color of pixel `(i, j)`: the integrator run on
    /// the camera ray from `cam_pos`, scaled by 255.
    pub fn render(
        scene: &Scene,
        i: i32,
        j: i32,
        width: usize,
        height: usize,
        half_fov_tan: Fx,
        cam_pos: Vec3f,
    ) -> (r: Vec3f)
        requires
            1 <= width <= 0x100000000,
            1 <= height <= 0x100000000,
        ensures
            r == spec_render(*scene, i as int, j as int, width as int, height as int,
                half_fov_tan, cam_pos),
    {
        let camera_direction = Render::camera_direction(i, j, width, height, half_fov_tan);
        Render::calc_pixel(scene, cam_pos, camera_direction, 0).scale(Fx::from_i64(255))
    }
}

/// A direction built with a whole-unit z component has nonzero length,
/// whatever its other components: normalizing a camera ray is always
/// defined.
proof fn lemma_unit_z_norm_positive(v: Vec3f)
    requires
        v.z == fx_from_int(1) || v.z == fx_from_int(-1),
    ensures
        v_norm(v).bits > 0,
{
    crate::fx::lemma_fx_square_nonneg(v.x);
    crate::fx::lemma_fx_square_nonneg(v.y);
    assert(v.z.bits * v.z.bits == 0x10000000000) by (nonlinear_arith)
        requires v.z.bits == 0x100000 || v.z.bits == -0x100000;
    assert(fx_mul(v.z, v.z) == (Fx { bits: SCALE }));
    let d = v_dot(v, v);
    assert(d.bits >= SCALE);
    let arg = d.bits * (SCALE as int);
    assert(arg >= 0x10000000000);
    lemma_sqrt_floor(arg);
    let r = sqrt_floor(arg);
    assert(r + 1 > 0x100000) by (nonlinear_arith)
        requires
            (r + 1) * (r + 1) > 0x10000000000,
            r >= 0;
    assert(arg <= 0x7fffffffffffffff * 0x100000);
    assert(r < 0x40000000000) by (nonlinear_arith)
        requires
            r * r <= arg,
            arg < 0x1000000000000000000000,
            r >= 0;
}

/// The scan is sound and minimal: when it reports a hit, that hit and
/// material belong to one of the first `n` objects, and no object in
/// that prefix has a valid hit strictly closer than what is returned;
/// when it reports no hit it still holds the far sentinel.
pub proof fn lemma_scan_nearest(objects: Seq<Object>, origin: Vec3f, direction: Vec3f, n: int)
    requires
        0 <= n <= objects.len(),
    ensures
        ({
            let p = scan_objects(objects, origin, direction, n);
            &&& (p.0.did_intersect ==> exists|k: int|
                0 <= k < n && #[trigger] obj_hit(objects[k], origin, direction) == p.0
                    && obj_material(objects[k]) == p.1)
            &&& (!p.0.did_intersect ==> p.0 == no_hit() && p.1 == default_material())
            &&& forall|k: int|
                0 <= k < n && (#[trigger] obj_hit(objects[k], origin,
                    direction)).did_intersect ==> p.0.distance.bits <= obj_hit(objects[k],
                    origin, direction).distance.bits
        }),
    decreases n,
{
    if n > 0 {
        lemma_scan_nearest(objects, origin, direction, n - 1);
        let prev = scan_objects(objects, origin, direction, n - 1);
        let hit = obj_hit(objects[n - 1], origin, direction);
        let p = scan_objects(objects, origin, direction, n);
        if hit.did_intersect && hit.distance.bits < prev.0.distance.bits {
            assert(obj_hit(objects[n - 1], origin, direction) == p.0
                && obj_material(objects[n - 1]) == p.1);
        } else {
            if p.0.did_intersect {
                let k = choose|k: int|
                    0 <= k < n - 1 && #[trigger] obj_hit(objects[k], origin, direction) == p.0
                        && obj_material(objects[k]) == p.1;
                assert(obj_hit(objects[k], origin, direction) == p.0
                    && obj_material(objects[k]) == p.1);
            }
        }
    }
}

/// The nearest-hit search never invents a hit: when it reports one, the
/// intersection and material are those of some primitive of the scene,
/// and no primitive's valid hit is strictly closer.
pub proof fn lemma_check_intersections_nearest(scene: Scene, origin: Vec3f, direction: Vec3f)
    ensures
        ({
            let r = spec_check_intersections(scene, origin, direction);
            &&& (r.0.did_intersect ==> exists|k: int|
                0 <= k < scene.objects@.len() && #[trigger] obj_hit(scene.objects@[k], origin,
                    direction) == r.0 && obj_material(scene.objects@[k]) == r.1)
            &&& forall|k: int|
                0 <= k < scene.objects@.len() && (#[trigger] obj_hit(scene.objects@[k], origin,
                    direction)).did_intersect ==> r.0.distance.bits <= obj_hit(scene.objects@[k],
                    origin, direction).distance.bits
        }),
{
    lemma_scan_nearest(scene.objects@, origin, direction, scene.objects@.len() as int);
    let p = scan_objects(scene.objects@, origin, direction, scene.objects@.len() as int);
    let r = spec_check_intersections(scene, origin, direction);
    if r.0.did_intersect {
        assert(p.0.distance.bits < CUTOFF_BITS);
        assert(p.0.did_intersect) by {
            if !p.0.did_intersect {
                assert(p.0 == no_hit());
            }
        }
        assert(r.0 == p.0);
    }
}

/// At or past the depth bound the integrator stops recursing and
/// returns the background color: recursion never exceeds `MAX_DEPTH`.
pub proof fn lemma_depth_bound(scene: Scene, origin: Vec3f, direction: Vec3f, depth: int)
    requires
        depth >= MAX_DEPTH as int,
    ensures
        spec_calc_pixel(scene, origin, direction, depth) == scene.bg_color,
{
}

/// With no lights the shading color is exactly black: there is no
/// ambient term.
pub proof fn lemma_no_lights_black(
    scene: Scene,
    intersection: RayIntersection,
    material: Material,
    direction: Vec3f,
)
    requires
        scene.lights@.len() == 0,
    ensures
        spec_calc_lights(scene, intersection, material, direction) == v_zero(),
{
    lemma_v_scale_zero(material.diffuse_color);
    lemma_v_scale_zero(material.specular_color);
}

/// With no primitives every ray misses, and every pixel at every depth
/// is the background color.
pub proof fn lemma_empty_scene_background(
    scene: Scene,
    origin: Vec3f,
    direction: Vec3f,
    depth: int,
)
    requires
        scene.objects@.len() == 0,
    ensures
        spec_calc_pixel(scene, origin, direction, depth) == scene.bg_color,
{
    assert(!spec_check_intersections(scene, origin, direction).0.did_intersect);
}

/// With a single visible light the accumulated diffuse intensity is
/// exactly `intensity * max(0, dot(light_direction, normal))` - it
/// scales linearly with the cosine between the light direction and the
/// surface normal - and the specular intensity is exactly the Phong
/// factor times the intensity.
pub proof fn lemma_single_light_terms(
    scene: Scene,
    intersection: RayIntersection,
    material: Material,
    direction: Vec3f,
)
    requires
        scene.lights@.len() == 1,
        light_dist(scene.lights@[0], intersection.intersect_point).bits != 0,
        !occluded(scene, intersection.intersect_point, intersection.normal, scene.lights@[0]),
    ensures
        light_terms(scene, intersection, material, direction, 1).0 == fx_mul(
            scene.lights@[0].intensity,
            fx_max0(
                v_dot(light_dir(scene.lights@[0], intersection.intersect_point),
                    intersection.normal),
            ),
        ),
        light_terms(scene, intersection, material, direction, 1).1 == fx_mul(
            phong_factor(scene.lights@[0], intersection.intersect_point, intersection.normal,
                direction, material.specular_exp),
            scene.lights@[0].intensity,
        ),
{
    assert(light_terms(scene, intersection, material, direction, 0) == (fx_zero(), fx_zero()));
}

/// The shading color under a single visible light, in closed form: the
/// diffuse color scaled by `intensity * max(0, cosine)` plus the
/// specular color scaled by `phong * intensity`.
pub proof fn lemma_single_light_shading(
    scene: Scene,
    intersection: RayIntersection,
    material: Material,
    direction: Vec3f,
)
    requires
        scene.lights@.len() == 1,
        light_dist(scene.lights@[0], intersection.intersect_point).bits != 0,
        !occluded(scene, intersection.intersect_point, intersection.normal, scene.lights@[0]),
    ensures
        spec_calc_lights(scene, intersection, material, direction) == v_add(
            v_scale(
                material.diffuse_color,
                fx_mul(
                    scene.lights@[0].intensity,
                    fx_max0(
                        v_dot(light_dir(scene.lights@[0], intersection.intersect_point),
                            intersection.normal),
                    ),
                ),
            ),
            v_scale(
                material.specular_color,
                fx_mul(
                    phong_factor(scene.lights@[0], intersection.intersect_point,
                        intersection.normal, direction, material.specular_exp),
                    scene.lights@[0].intensity,
                ),
            ),
        ),
{
    lemma_single_light_terms(scene, intersection, material, direction);
}

} // verus!
