//! Fixed-point scalar arithmetic.
//!
//! Every scalar in the tracer is a signed fixed-point number: an `i64`
//! holding `SCALE` units per whole. All operations are total; results
//! that would leave the `i64` range are clamped, and the contracts say
//! so exactly through the `clip` spec function.

use vstd::prelude::*;
use vstd::arithmetic::div_mod::lemma_div_multiples_vanish;

verus! {

/// Fixed-point units per whole: a scalar of value `v` is stored as
/// `v * SCALE`, rounded toward zero.
pub const SCALE: i64 = 1048576;

/// Clamp an unbounded integer into the `i64` range.
pub open spec fn clip(x: int) -> int {
    if x > i64::MAX {
        i64::MAX as int
    } else if x < i64::MIN {
        i64::MIN as int
    } else {
        x
    }
}

pub open spec fn abs_int(x: int) -> int {
    if x < 0 {
        -x
    } else {
        x
    }
}

/// A signed fixed-point scalar; the represented value is `bits / SCALE`.
#[derive(Clone, Copy, PartialEq, Eq, Structural, Debug)]
pub struct Fx {
    pub bits: i64,
}

/// Build a scalar from raw bits, clamped into range.
pub open spec fn fx(v: int) -> Fx {
    Fx { bits: clip(v) as i64 }
}

pub open spec fn fx_zero() -> Fx {
    Fx { bits: 0 }
}

pub open spec fn fx_from_int(v: int) -> Fx {
    fx(v * SCALE)
}

pub open spec fn fx_add(a: Fx, b: Fx) -> Fx {
    fx(a.bits + b.bits)
}

pub open spec fn fx_sub(a: Fx, b: Fx) -> Fx {
    fx(a.bits - b.bits)
}

pub open spec fn fx_neg(a: Fx) -> Fx {
    fx(-a.bits)
}

/// Product of two scalars: the exact product of the represented values,
/// rounded toward zero, then clamped.
pub open spec fn fx_mul(a: Fx, b: Fx) -> Fx {
    let p = a.bits * b.bits;
    let m = abs_int(p) / (SCALE as int);
    fx(if p < 0 { -m } else { m })
}

/// Quotient of two scalars, rounded toward zero, then clamped.
/// The degenerate zero divisor yields zero; the executable division
/// excludes it by precondition.
pub open spec fn fx_div(a: Fx, b: Fx) -> Fx {
    let p = a.bits * (SCALE as int);
    let m = if b.bits == 0 { 0 } else { abs_int(p) / abs_int(b.bits as int) };
    fx(if (p < 0) != (b.bits < 0) { -m } else { m })
}

/// Integer square root: the greatest `r >= 0` with `r * r <= n`
/// (and 0 for `n <= 0`).
pub open spec fn sqrt_floor(n: int) -> int
    decreases n,
{
    if n <= 0 {
        0
    } else {
        let r = sqrt_floor(n - 1);
        if (r + 1) * (r + 1) <= n { r + 1 } else { r }
    }
}

/// Square root of a nonnegative scalar, rounded down to the fixed-point
/// grid.
pub open spec fn fx_sqrt(a: Fx) -> Fx {
    fx(sqrt_floor(a.bits * (SCALE as int)))
}

/// The nonnegative part of a scalar.
pub open spec fn fx_max0(a: Fx) -> Fx {
    if a.bits < 0 { fx_zero() } else { a }
}

/// Integer power of a scalar, by repeated fixed-point multiplication.
pub open spec fn fx_pow(b: Fx, e: nat) -> Fx
    decreases e,
{
    if e == 0 {
        fx_from_int(1)
    } else {
        fx_mul(fx_pow(b, (e - 1) as nat), b)
    }
}

pub proof fn lemma_sqrt_floor(n: int)
    requires
        n >= 0,
    ensures
        sqrt_floor(n) >= 0,
        sqrt_floor(n) * sqrt_floor(n) <= n,
        n < (sqrt_floor(n) + 1) * (sqrt_floor(n) + 1),
    decreases n,
{
    if n == 0 {
    } else {
        lemma_sqrt_floor(n - 1);
        let r = sqrt_floor(n - 1);
        if (r + 1) * (r + 1) <= n {
            assert(n <= (r + 1) * (r + 1)) by {
                assert(n - 1 < (r + 1) * (r + 1));
            }
            assert((r + 1) * (r + 1) < (r + 2) * (r + 2)) by (nonlinear_arith)
                requires r >= 0;
        }
    }
}

/// `sqrt_floor(n)` is the only nonnegative root bracketed by `n`.
pub proof fn lemma_sqrt_floor_unique(n: int, r: int)
    requires
        n >= 0,
        r >= 0,
        r * r <= n,
        n < (r + 1) * (r + 1),
    ensures
        r == sqrt_floor(n),
{
    lemma_sqrt_floor(n);
    let s = sqrt_floor(n);
    if r < s {
        assert((r + 1) * (r + 1) <= s * s) by (nonlinear_arith)
            requires 0 <= r, r < s;
    } else if s < r {
        assert((s + 1) * (s + 1) <= r * r) by (nonlinear_arith)
            requires 0 <= s, s < r;
    }
}

/// The square of any scalar is nonnegative.
pub proof fn lemma_fx_square_nonneg(a: Fx)
    ensures
        fx_mul(a, a).bits >= 0,
{
    assert(a.bits * a.bits >= 0) by (nonlinear_arith);
}

/// Multiplying by the zero scalar yields zero.
pub proof fn lemma_fx_mul_zero(a: Fx)
    ensures
        fx_mul(a, fx_zero()) == fx_zero(),
        fx_mul(fx_zero(), a) == fx_zero(),
{
    assert(a.bits * 0 == 0) by (nonlinear_arith);
    assert(0 * a.bits == 0) by (nonlinear_arith);
}

/// Multiplying by the unit scalar (`SCALE` bits) is exact.
pub proof fn lemma_fx_mul_unit(a: Fx)
    ensures
        fx_mul(a, fx_from_int(1)) == a,
        fx_mul(a, fx_from_int(-1)) == fx(-a.bits),
{
    let s = SCALE as int;
    assert(fx_from_int(1).bits == s);
    assert(fx_from_int(-1).bits == -s);
    assert(abs_int(a.bits * s) == abs_int(a.bits as int) * s) by (nonlinear_arith)
        requires s > 0;
    assert(abs_int(a.bits * -s) == abs_int(a.bits as int) * s) by (nonlinear_arith)
        requires s > 0;
    lemma_div_multiples_vanish(abs_int(a.bits as int), s);
    assert(abs_int(a.bits as int) * s == s * abs_int(a.bits as int)) by (nonlinear_arith);
    assert((abs_int(a.bits as int) * s) / s == abs_int(a.bits as int));
    if a.bits < 0 {
        assert(a.bits * s < 0) by (nonlinear_arith)
            requires a.bits < 0, s > 0;
        assert(a.bits * -s > 0) by (nonlinear_arith)
            requires a.bits < 0, s > 0;
    } else if a.bits > 0 {
        assert(a.bits * s > 0) by (nonlinear_arith)
            requires a.bits > 0, s > 0;
        assert(a.bits * -s < 0) by (nonlinear_arith)
            requires a.bits > 0, s > 0;
    } else {
        assert(a.bits * s == 0) by (nonlinear_arith)
            requires a.bits == 0;
        assert(a.bits * -s == 0) by (nonlinear_arith)
            requires a.bits == 0;
    }
}

fn clip_i128(x: i128) -> (r: i64)
    ensures
        r as int == clip(x as int),
{
    if x > i64::MAX as i128 {
        i64::MAX
    } else if x < i64::MIN as i128 {
        i64::MIN
    } else {
        x as i64
    }
}

impl Fx {
    /// The zero scalar.
    pub fn zero() -> (r: Fx)
        ensures
            r == fx_zero(),
    {
        Fx { bits: 0 }
    }

    /// A whole-number scalar, clamped into range.
    pub fn from_i64(v: i64) -> (r: Fx)
        ensures
            r == fx_from_int(v as int),
    {
        proof {
            assert(-0x80000000000000000000000int <= (v as int) * (SCALE as int)
                <= 0x80000000000000000000000int) by (nonlinear_arith)
                requires -0x8000000000000000 <= v as int <= 0x7fffffffffffffff;
        }
        let p: i128 = (v as i128) * (SCALE as i128);
        Fx { bits: clip_i128(p) }
    }

    pub fn add(self, o: Fx) -> (r: Fx)
        ensures
            r == fx_add(self, o),
    {
        Fx { bits: clip_i128((self.bits as i128) + (o.bits as i128)) }
    }

    pub fn sub(self, o: Fx) -> (r: Fx)
        ensures
            r == fx_sub(self, o),
    {
        Fx { bits: clip_i128((self.bits as i128) - (o.bits as i128)) }
    }

    pub fn neg(self) -> (r: Fx)
        ensures
            r == fx_neg(self),
    {
        Fx { bits: clip_i128(-(self.bits as i128)) }
    }

    pub fn mul(self, o: Fx) -> (r: Fx)
        ensures
            r == fx_mul(self, o),
    {
        proof {
            assert(-0x40000000000000000000000000000000int
                <= (self.bits as int) * (o.bits as int)
                <= 0x40000000000000000000000000000000int) by (nonlinear_arith)
                requires
                    -0x8000000000000000 <= self.bits as int <= 0x7fffffffffffffff,
                    -0x8000000000000000 <= o.bits as int <= 0x7fffffffffffffff;
        }
        let p: i128 = (self.bits as i128) * (o.bits as i128);
        let neg: bool = p < 0;
        let ap: u128 = if neg { (-p) as u128 } else { p as u128 };
        let m: u128 = ap / (SCALE as u128);
        proof {
            assert(ap as int == abs_int(p as int));
            assert(m as int == abs_int(p as int) / (SCALE as int));
            assert(m <= ap);
        }
        let ms: i128 = m as i128;
        Fx { bits: clip_i128(if neg { -ms } else { ms }) }
    }

    pub fn div(self, o: Fx) -> (r: Fx)
        requires
            o.bits != 0,
        ensures
            r == fx_div(self, o),
    {
        proof {
            assert(-0x80000000000000000000000int <= (self.bits as int) * (SCALE as int)
                <= 0x80000000000000000000000int) by (nonlinear_arith)
                requires -0x8000000000000000 <= self.bits as int <= 0x7fffffffffffffff;
        }
        let p: i128 = (self.bits as i128) * (SCALE as i128);
        let neg: bool = (p < 0) != (o.bits < 0);
        let ap: u128 = if p < 0 { (-p) as u128 } else { p as u128 };
        let ob: u128 = if o.bits < 0 { (-(o.bits as i128)) as u128 } else { o.bits as u128 };
        let m: u128 = ap / ob;
        proof {
            assert(ap as int == abs_int(p as int));
            assert(ob as int == abs_int(o.bits as int));
            assert(m as int == abs_int(p as int) / abs_int(o.bits as int));
            assert(m <= ap) by (nonlinear_arith)
                requires ob >= 1, m == ap / ob;
        }
        let ms: i128 = m as i128;
        Fx { bits: clip_i128(if neg { -ms } else { ms }) }
    }

    /// Square root of a nonnegative scalar, rounded down.
    pub fn sqrt(self) -> (r: Fx)
        requires
            self.bits >= 0,
        ensures
            r == fx_sqrt(self),
    {
        let n: u128 = (self.bits as u128) * (SCALE as u128);
        let root: u128 = isqrt_u128(n);
        proof {
            assert(n as int == (self.bits as int) * 0x100000);
            assert((self.bits as int) * 0x100000 <= 0x7fffffffffffffff * 0x100000);
            assert((n as int) < 0x1000000000000000000000);
            lemma_sqrt_floor_unique(n as int, root as int);
            assert((root as int) < 0x40000000000) by (nonlinear_arith)
                requires
                    (root as int) * (root as int) <= n as int,
                    (n as int) < 0x1000000000000000000000,
                    root as int >= 0;
        }
        Fx { bits: root as i64 }
    }

    /// The nonnegative part of a scalar.
    pub fn max0(self) -> (r: Fx)
        ensures
            r == fx_max0(self),
    {
        if self.bits < 0 { Fx { bits: 0 } } else { self }
    }

    /// Integer power, by repeated fixed-point multiplication.
    pub fn pow(self, e: u32) -> (r: Fx)
        ensures
            r == fx_pow(self, e as nat),
    {
        let mut acc: Fx = Fx::from_i64(1);
        let mut k: u32 = 0;
        while k < e
            invariant
                k <= e,
                acc == fx_pow(self, k as nat),
            decreases e - k,
    {
            acc = acc.mul(self);
            k = k + 1;
        }
        acc
    }
}

fn isqrt_u128(n: u128) -> (r: u128)
    ensures
        r as int >= 0,
        (r as int) * (r as int) <= n as int,
        (n as int) < ((r as int) + 1) * ((r as int) + 1),
{
    let mut lo: u128 = 0;
    let mut hi: u128 = 0xffffffffffffffff;
    proof {
        assert((n as int) < (0xffffffffffffffffint + 1) * (0xffffffffffffffffint + 1));
    }
    while lo < hi
        invariant
            lo <= hi,
            hi <= 0xffffffffffffffff,
            (lo as int) * (lo as int) <= n as int,
            (n as int) < ((hi as int) + 1) * ((hi as int) + 1),
        decreases hi - lo,
    {
        let mid: u128 = lo + (hi - lo + 1) / 2;
        proof {
            assert((mid as int) * (mid as int) < 0x100000000000000000000000000000000int)
                by (nonlinear_arith)
                requires 0 <= mid as int <= 0xffffffffffffffff;
        }
        let sq: u128 = mid * mid;
        if sq <= n {
            lo = mid;
        } else {
            hi = mid - 1;
        }
    }
    lo
}

} // verus!
