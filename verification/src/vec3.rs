//! Three-component vectors over fixed-point scalars, with the spec-level
//! model (`v_add`, `v_dot`, `v_reflect`, ...) that every geometric
//! contract in the tracer is stated against.

use vstd::prelude::*;
use crate::fx::{
    Fx, SCALE, fx_zero, fx_from_int, fx_add, fx_sub, fx_mul, fx_div, fx_sqrt,
    abs_int, lemma_fx_square_nonneg, lemma_fx_mul_zero, lemma_fx_mul_unit,
};
use vstd::arithmetic::div_mod::lemma_div_multiples_vanish;

verus! {

#[derive(Clone, Copy, PartialEq, Eq, Structural, Debug)]
pub struct Vec3f {
    pub x: Fx,
    pub y: Fx,
    pub z: Fx,
}

pub open spec fn v_zero() -> Vec3f {
    Vec3f { x: fx_zero(), y: fx_zero(), z: fx_zero() }
}

pub open spec fn v_add(a: Vec3f, b: Vec3f) -> Vec3f {
    Vec3f { x: fx_add(a.x, b.x), y: fx_add(a.y, b.y), z: fx_add(a.z, b.z) }
}

pub open spec fn v_sub(a: Vec3f, b: Vec3f) -> Vec3f {
    Vec3f { x: fx_sub(a.x, b.x), y: fx_sub(a.y, b.y), z: fx_sub(a.z, b.z) }
}

pub open spec fn v_scale(a: Vec3f, s: Fx) -> Vec3f {
    Vec3f { x: fx_mul(a.x, s), y: fx_mul(a.y, s), z: fx_mul(a.z, s) }
}

pub open spec fn v_dot(a: Vec3f, b: Vec3f) -> Fx {
    fx_add(fx_add(fx_mul(a.x, b.x), fx_mul(a.y, b.y)), fx_mul(a.z, b.z))
}

/// Euclidean length, rounded down to the fixed-point grid.
pub open spec fn v_norm(a: Vec3f) -> Fx {
    fx_sqrt(v_dot(a, a))
}

/// Direction of `a`: each component divided by the length. Meaningful
/// only when the length is nonzero.
pub open spec fn v_unit(a: Vec3f) -> Vec3f {
    let n = v_norm(a);
    Vec3f { x: fx_div(a.x, n), y: fx_div(a.y, n), z: fx_div(a.z, n) }
}

/// Total form of `v_unit`: the zero vector when the length rounds to
/// zero.
pub open spec fn v_unit_or_zero(a: Vec3f) -> Vec3f {
    if v_norm(a).bits == 0 { v_zero() } else { v_unit(a) }
}

/// The law-of-reflection formula `d - 2*dot(d, n)*n`, assuming `n` is
/// unit length.
pub open spec fn v_reflect(d: Vec3f, n: Vec3f) -> Vec3f {
    v_sub(d, v_scale(n, fx_mul(fx_from_int(2), v_dot(d, n))))
}

/// The dot product of a vector with itself never goes negative.
pub proof fn lemma_v_dot_self_nonneg(a: Vec3f)
    ensures
        v_dot(a, a).bits >= 0,
{
    lemma_fx_square_nonneg(a.x);
    lemma_fx_square_nonneg(a.y);
    lemma_fx_square_nonneg(a.z);
}

/// Scaling by the zero scalar gives the zero vector.
pub proof fn lemma_v_scale_zero(a: Vec3f)
    ensures
        v_scale(a, fx_zero()) == v_zero(),
{
    lemma_fx_mul_zero(a.x);
    lemma_fx_mul_zero(a.y);
    lemma_fx_mul_zero(a.z);
}

/// Fixed-point products commute.
pub proof fn lemma_fx_mul_comm(a: Fx, b: Fx)
    ensures
        fx_mul(a, b) == fx_mul(b, a),
{
    assert(a.bits * b.bits == b.bits * a.bits) by (nonlinear_arith);
}

/// Doubling a scalar through a fixed-point product is exact while the
/// doubled value stays in range.
pub proof fn lemma_fx_mul_two(t: Fx)
    requires
        -0x4000000000000000 <= t.bits,
        t.bits <= 0x3fffffffffffffff,
    ensures
        fx_mul(fx_from_int(2), t) == (Fx { bits: (2 * t.bits) as i64 }),
{
    let s = SCALE as int;
    assert(fx_from_int(2).bits == 2 * s);
    let p = (2 * s) * t.bits;
    assert(abs_int(p) == s * (2 * abs_int(t.bits as int))) by (nonlinear_arith)
        requires s > 0, p == (2 * s) * t.bits;
    lemma_div_multiples_vanish(2 * abs_int(t.bits as int), s);
    if t.bits < 0 {
        assert(p < 0) by (nonlinear_arith)
            requires t.bits < 0, s > 0, p == (2 * s) * t.bits;
    } else if t.bits > 0 {
        assert(p > 0) by (nonlinear_arith)
            requires t.bits > 0, s > 0, p == (2 * s) * t.bits;
    } else {
        assert(p == 0) by (nonlinear_arith)
            requires t.bits == 0, p == (2 * s) * t.bits;
    }
}

/// The six exactly representable unit normals: one axis component of
/// magnitude one, the others zero.
pub open spec fn is_axis_unit(n: Vec3f) -> bool {
    ||| n == (Vec3f { x: fx_from_int(1), y: fx_zero(), z: fx_zero() })
    ||| n == (Vec3f { x: fx_from_int(-1), y: fx_zero(), z: fx_zero() })
    ||| n == (Vec3f { x: fx_zero(), y: fx_from_int(1), z: fx_zero() })
    ||| n == (Vec3f { x: fx_zero(), y: fx_from_int(-1), z: fx_zero() })
    ||| n == (Vec3f { x: fx_zero(), y: fx_zero(), z: fx_from_int(1) })
    ||| n == (Vec3f { x: fx_zero(), y: fx_zero(), z: fx_from_int(-1) })
}

/// Reflection is its own inverse: reflecting a direction twice about the
/// same unit normal returns the original direction. Stated for the
/// exactly representable unit normals and for directions far from the
/// clamping range; for other unit-length normals the fixed-point
/// rounding inside `v_dot` and `v_scale` can perturb the result by a
/// few units in the last place.
pub proof fn lemma_reflect_involution(d: Vec3f, n: Vec3f)
    requires
        is_axis_unit(n),
        -0x2000000000000000 <= d.x.bits <= 0x2000000000000000,
        -0x2000000000000000 <= d.y.bits <= 0x2000000000000000,
        -0x2000000000000000 <= d.z.bits <= 0x2000000000000000,
    ensures
        v_reflect(v_reflect(d, n), n) == d,
{
    lemma_axis_reflect(d, n);
    let r1 = v_reflect(d, n);
    lemma_axis_reflect(r1, n);
}

/// The single fixed-point product an axis mirror needs: multiplying by
/// a unit scalar keeps or negates the value exactly.
proof fn lemma_axis_mirror_component(a: Fx, u: Fx)
    requires
        u == fx_from_int(1) || u == fx_from_int(-1),
        -0x7fffffffffffffff <= a.bits,
    ensures
        u == fx_from_int(1) ==> fx_mul(a, u) == a,
        u == fx_from_int(-1) ==> fx_mul(a, u) == (Fx { bits: (-a.bits) as i64 }),
{
    lemma_fx_mul_unit(a);
}

/// For an axis unit normal, reflection negates the matching component
/// and leaves the others untouched.
proof fn lemma_axis_reflect(d: Vec3f, n: Vec3f)
    requires
        is_axis_unit(n),
        -0x2000000000000000 <= d.x.bits <= 0x2000000000000000,
        -0x2000000000000000 <= d.y.bits <= 0x2000000000000000,
        -0x2000000000000000 <= d.z.bits <= 0x2000000000000000,
    ensures
        n.x.bits != 0 ==> v_reflect(d, n) == (Vec3f { x: Fx { bits: (-d.x.bits) as i64 }, y: d.y, z: d.z }),
        n.y.bits != 0 ==> v_reflect(d, n) == (Vec3f { x: d.x, y: Fx { bits: (-d.y.bits) as i64 }, z: d.z }),
        n.z.bits != 0 ==> v_reflect(d, n) == (Vec3f { x: d.x, y: d.y, z: Fx { bits: (-d.z.bits) as i64 } }),
        -0x2000000000000000 <= v_reflect(d, n).x.bits <= 0x2000000000000000,
        -0x2000000000000000 <= v_reflect(d, n).y.bits <= 0x2000000000000000,
        -0x2000000000000000 <= v_reflect(d, n).z.bits <= 0x2000000000000000,
{
    lemma_fx_mul_zero(d.x);
    lemma_fx_mul_zero(d.y);
    lemma_fx_mul_zero(d.z);
    if n.x.bits != 0 {
        lemma_axis_mirror_component(d.x, n.x);
        let t = v_dot(d, n);
        assert(t == fx_mul(d.x, n.x));
        lemma_fx_mul_two(t);
        let k = fx_mul(fx_from_int(2), t);
        lemma_fx_mul_comm(n.x, k);
        lemma_axis_mirror_component(k, n.x);
        lemma_fx_mul_zero(k);
        assert(fx_mul(n.x, k) == (Fx { bits: (2 * d.x.bits) as i64 }));
        assert(v_reflect(d, n).x == fx_sub(d.x, Fx { bits: (2 * d.x.bits) as i64 }));
    } else if n.y.bits != 0 {
        lemma_axis_mirror_component(d.y, n.y);
        let t = v_dot(d, n);
        assert(t == fx_mul(d.y, n.y));
        lemma_fx_mul_two(t);
        let k = fx_mul(fx_from_int(2), t);
        lemma_fx_mul_comm(n.y, k);
        lemma_axis_mirror_component(k, n.y);
        lemma_fx_mul_zero(k);
        assert(fx_mul(n.y, k) == (Fx { bits: (2 * d.y.bits) as i64 }));
        assert(v_reflect(d, n).y == fx_sub(d.y, Fx { bits: (2 * d.y.bits) as i64 }));
    } else {
        lemma_axis_mirror_component(d.z, n.z);
        let t = v_dot(d, n);
        assert(t == fx_mul(d.z, n.z));
        lemma_fx_mul_two(t);
        let k = fx_mul(fx_from_int(2), t);
        lemma_fx_mul_comm(n.z, k);
        lemma_axis_mirror_component(k, n.z);
        lemma_fx_mul_zero(k);
        assert(fx_mul(n.z, k) == (Fx { bits: (2 * d.z.bits) as i64 }));
        assert(v_reflect(d, n).z == fx_sub(d.z, Fx { bits: (2 * d.z.bits) as i64 }));
    }
}

impl Vec3f {
    pub fn new(x: Fx, y: Fx, z: Fx) -> (r: Vec3f)
        ensures
            r == (Vec3f { x, y, z }),
    {
        Vec3f { x, y, z }
    }

    pub fn zero() -> (r: Vec3f)
        ensures
            r == v_zero(),
    {
        Vec3f { x: Fx::zero(), y: Fx::zero(), z: Fx::zero() }
    }

    pub fn add(self, o: Vec3f) -> (r: Vec3f)
        ensures
            r == v_add(self, o),
    {
        Vec3f { x: self.x.add(o.x), y: self.y.add(o.y), z: self.z.add(o.z) }
    }

    pub fn sub(self, o: Vec3f) -> (r: Vec3f)
        ensures
            r == v_sub(self, o),
    {
        Vec3f { x: self.x.sub(o.x), y: self.y.sub(o.y), z: self.z.sub(o.z) }
    }

    pub fn scale(self, s: Fx) -> (r: Vec3f)
        ensures
            r == v_scale(self, s),
    {
        Vec3f { x: self.x.mul(s), y: self.y.mul(s), z: self.z.mul(s) }
    }

    pub fn dot(self, o: Vec3f) -> (r: Fx)
        ensures
            r == v_dot(self, o),
    {
        self.x.mul(o.x).add(self.y.mul(o.y)).add(self.z.mul(o.z))
    }

    /// Euclidean length; always nonnegative.
    pub fn norm(self) -> (r: Fx)
        ensures
            r == v_norm(self),
            r.bits >= 0,
    {
        let d = self.dot(self);
        proof {
            lemma_v_dot_self_nonneg(self);
            crate::fx::lemma_sqrt_floor(d.bits * (SCALE as int));
        }
        d.sqrt()
    }

    /// Unit vector in the direction of `self`. Callers must not
    /// normalize a vector whose length rounds to zero.
    pub fn normalize(self) -> (r: Vec3f)
        requires
            v_norm(self).bits != 0,
        ensures
            r == v_unit(self),
    {
        let n = self.norm();
        Vec3f { x: self.x.div(n), y: self.y.div(n), z: self.z.div(n) }
    }

    /// Direction of `self`, or the zero vector when the length rounds
    /// to zero.
    pub fn unit_or_zero(self) -> (r: Vec3f)
        ensures
            r == v_unit_or_zero(self),
    {
        let n = self.norm();
        if n.bits == 0 {
            Vec3f::zero()
        } else {
            Vec3f { x: self.x.div(n), y: self.y.div(n), z: self.z.div(n) }
        }
    }

    /// Reflect `incident` about `normal`: `incident - 2*dot*normal`,
    /// the standard law of reflection for a unit normal.
    pub fn reflect(incident: Vec3f, normal: Vec3f) -> (r: Vec3f)
        ensures
            r == v_reflect(incident, normal),
    {
        let k = Fx::from_i64(2).mul(incident.dot(normal));
        incident.sub(normal.scale(k))
    }
}

} // verus!
