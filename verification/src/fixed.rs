//! Saturating fixed-point scalars.
//!
//! An `Fx` holds a signed 48.16 fixed-point number: the mathematical value is
//! `raw / SCALE` with `SCALE = 2^16`. Every arithmetic operation is total:
//! instead of overflowing it saturates at `FX_MAX` (about `2^30` in
//! mathematical value), and a division by zero yields zero. The spec
//! functions `fx_add`, `fx_sub`, `fx_mul`, `fx_div` and `fx_sqrt` define the
//! arithmetic exactly, over the raw representation as an `int`.

use vstd::prelude::*;

verus! {

/// Number of raw units per mathematical unit.
pub const SCALE: i64 = 65536;

/// Largest raw value an operation returns; `2^46`, i.e. about `2^30` as a
/// mathematical value.
pub const FX_MAX: i64 = 70368744177664;

/// Raw representation of the mathematical value one.
pub const FX_ONE: i64 = 65536;

/// Saturation applied by every operation.
pub open spec fn fx_clamp(x: int) -> int {
    if x > FX_MAX as int {
        FX_MAX as int
    } else if x < -(FX_MAX as int) {
        -(FX_MAX as int)
    } else {
        x
    }
}

/// Quotient rounded toward zero, as Rust's integer division computes it.
pub open spec fn div_trunc(a: int, b: int) -> int
    recommends
        b != 0,
{
    if a >= 0 && b > 0 {
        a / b
    } else if a < 0 && b > 0 {
        -((-a) / b)
    } else if a >= 0 && b < 0 {
        -(a / (-b))
    } else {
        (-a) / (-b)
    }
}

pub open spec fn fx_add(a: int, b: int) -> int {
    fx_clamp(a + b)
}

pub open spec fn fx_sub(a: int, b: int) -> int {
    fx_clamp(a - b)
}

pub open spec fn fx_neg(a: int) -> int {
    fx_clamp(-a)
}

pub open spec fn fx_mul(a: int, b: int) -> int {
    fx_clamp(div_trunc(a * b, SCALE as int))
}

pub open spec fn fx_div(a: int, b: int) -> int {
    if b == 0 {
        0
    } else {
        fx_clamp(div_trunc(a * (SCALE as int), b))
    }
}

/// Floor of the square root of a natural number.
pub open spec fn isqrt_spec(n: nat) -> nat
    decreases n,
{
    if n == 0 {
        0
    } else {
        let r = isqrt_spec((n - 1) as nat);
        if (r + 1) * (r + 1) <= n {
            r + 1
        } else {
            r
        }
    }
}

/// Square root in fixed point: non-positive inputs map to zero, inputs above
/// the saturation bound are first clamped to it.
pub open spec fn fx_sqrt(x: int) -> int {
    if x <= 0 {
        0
    } else {
        isqrt_spec((fx_clamp(x) * (SCALE as int)) as nat) as int
    }
}

pub proof fn lemma_isqrt_bounds(n: nat)
    ensures
        isqrt_spec(n) * isqrt_spec(n) <= n,
        n < (isqrt_spec(n) + 1) * (isqrt_spec(n) + 1),
    decreases n,
{
    if n > 0 {
        lemma_isqrt_bounds((n - 1) as nat);
        let r = isqrt_spec((n - 1) as nat);
        if (r + 1) * (r + 1) <= n {
            assert(isqrt_spec(n) == r + 1);
            assert(n < (r + 1 + 1) * (r + 1 + 1)) by (nonlinear_arith)
                requires
                    n <= (r + 1) * (r + 1),
            ;
            assert(isqrt_spec(n) * isqrt_spec(n) <= n);
            assert(n < (isqrt_spec(n) + 1) * (isqrt_spec(n) + 1));
        } else {
            assert(isqrt_spec(n) == r);
            assert(r * r <= n - 1);
            assert(isqrt_spec(n) * isqrt_spec(n) <= n);
            assert(n < (isqrt_spec(n) + 1) * (isqrt_spec(n) + 1));
        }
    } else {
        assert(isqrt_spec(n) == 0);
        assert(n < (isqrt_spec(n) + 1) * (isqrt_spec(n) + 1)) by (nonlinear_arith)
            requires
                n == 0 && isqrt_spec(n) == 0,
        ;
    }
}

pub proof fn lemma_isqrt_unique(n: nat, q: nat)
    requires
        q * q <= n,
        n < (q + 1) * (q + 1),
    ensures
        q == isqrt_spec(n),
{
    lemma_isqrt_bounds(n);
    let r = isqrt_spec(n);
    if q < r {
        assert((q + 1) * (q + 1) <= r * r) by (nonlinear_arith)
            requires
                q + 1 <= r,
        ;
    }
    if r < q {
        assert((r + 1) * (r + 1) <= q * q) by (nonlinear_arith)
            requires
                r + 1 <= q,
        ;
    }
}

/// Raw values the arithmetic can produce: every operation saturates into
/// this interval.
pub open spec fn fx_ok(x: int) -> bool {
    -(FX_MAX as int) <= x <= FX_MAX as int
}

pub proof fn lemma_fx_clamp_ok(x: int)
    ensures
        fx_ok(fx_clamp(x)),
        fx_ok(x) ==> fx_clamp(x) == x,
{
}

/// Truncating division is odd in its numerator.
pub proof fn lemma_div_trunc_neg(a: int, b: int)
    requires
        b > 0,
    ensures
        div_trunc(-a, b) == -div_trunc(a, b),
{
}

/// Saturation is odd.
pub proof fn lemma_fx_clamp_neg(x: int)
    ensures
        fx_clamp(-x) == -fx_clamp(x),
{
}

/// Scaling by the raw constant for minus one is exact negation.
pub proof fn lemma_fx_mul_negone(a: int)
    ensures
        fx_mul(a, -(FX_ONE as int)) == fx_neg(a),
{
    assert(a * (-(FX_ONE as int)) == -(a * (SCALE as int))) by (nonlinear_arith)
        requires
            FX_ONE == 65536 && SCALE == 65536,
    ;
    lemma_div_trunc_neg(a * (SCALE as int), SCALE as int);
    lemma_mul_div_exact(a);
    lemma_fx_clamp_neg(div_trunc(a * (SCALE as int), SCALE as int));
}

/// Multiplying a raw value by `SCALE` and dividing it out again is exact.
pub proof fn lemma_mul_div_exact(a: int)
    ensures
        div_trunc(a * (SCALE as int), SCALE as int) == a,
{
    if a >= 0 {
        assert(a * (SCALE as int) >= 0) by (nonlinear_arith)
            requires
                a >= 0 && SCALE == 65536,
        ;
        assert((a * (SCALE as int)) / (SCALE as int) == a) by (nonlinear_arith)
            requires
                SCALE == 65536,
        ;
    } else {
        assert(a * (SCALE as int) < 0) by (nonlinear_arith)
            requires
                a < 0 && SCALE == 65536,
        ;
        assert(-(a * (SCALE as int)) == (-a) * (SCALE as int)) by (nonlinear_arith);
        assert(((-a) * (SCALE as int)) / (SCALE as int) == -a) by (nonlinear_arith)
            requires
                SCALE == 65536,
        ;
    }
}

/// Negating one factor negates a product, as long as the factor is itself
/// inside the saturation range.
pub proof fn lemma_fx_mul_neg(a: int, b: int)
    requires
        fx_ok(a),
    ensures
        fx_mul(fx_neg(a), b) == fx_neg(fx_mul(a, b)),
{
    assert(fx_neg(a) == -a);
    assert((-a) * b == -(a * b)) by (nonlinear_arith);
    lemma_div_trunc_neg(a * b, SCALE as int);
    lemma_fx_clamp_neg(div_trunc(a * b, SCALE as int));
    lemma_fx_clamp_ok(div_trunc(a * b, SCALE as int));
}

/// A saturating 48.16 fixed-point number; `self.0` is the raw value.
#[derive(Clone, Copy, Debug, PartialEq, Eq, Structural)]
pub struct Fx(pub i64);

impl View for Fx {
    type V = int;

    open spec fn view(&self) -> int {
        self.0 as int
    }
}

/// Saturate an extended intermediate result back into the raw range.
fn clamp_i128(x: i128) -> (r: i64)
    ensures
        r as int == fx_clamp(x as int),
{
    if x > FX_MAX as i128 {
        FX_MAX
    } else if x < -(FX_MAX as i128) {
        -FX_MAX
    } else {
        x as i64
    }
}

/// Division rounding toward zero on extended intermediates.
fn div_trunc_i128(n: i128, d: i128) -> (r: i128)
    requires
        d != 0,
        n > i128::MIN,
        d > i128::MIN,
    ensures
        r as int == div_trunc(n as int, d as int),
{
    if d > 0 {
        if n >= 0 {
            n / d
        } else {
            -((-n) / d)
        }
    } else {
        if n >= 0 {
            -(n / (-d))
        } else {
            (-n) / (-d)
        }
    }
}

fn isqrt_u64(n: u64) -> (r: u64)
    requires
        n < 0x8000000000000000,
    ensures
        r as nat == isqrt_spec(n as nat),
        r * r <= n,
        n < (r + 1) * (r + 1),
{
    let mut lo: u64 = 0;
    let mut hi: u64 = 0x100000000;
    assert((hi as nat) * (hi as nat) > n as nat) by (nonlinear_arith)
        requires
            n < 0x8000000000000000 && hi == 0x100000000,
    ;
    while lo + 1 < hi
        invariant
            lo < hi,
            hi <= 0x100000000,
            (lo as nat) * (lo as nat) <= n as nat,
            (n as nat) < (hi as nat) * (hi as nat),
        decreases hi - lo,
    {
        let mid: u64 = lo + (hi - lo) / 2;
        assert((mid as nat) * (mid as nat) <= 0x100000000 * 0x100000000) by (nonlinear_arith)
            requires
                mid <= 0x100000000u64,
        ;
        let sq: u128 = (mid as u128) * (mid as u128);
        if sq <= n as u128 {
            lo = mid;
        } else {
            hi = mid;
        }
    }
    proof {
        lemma_isqrt_unique(n as nat, lo as nat);
    }
    lo
}

impl Fx {
    /// The raw fixed-point value.
    pub fn raw(self) -> (r: i64)
        ensures
            r as int == self@,
    {
        self.0
    }

    pub fn zero() -> (r: Fx)
        ensures
            r@ == 0,
    {
        Fx(0)
    }

    pub fn one() -> (r: Fx)
        ensures
            r@ == FX_ONE as int,
    {
        Fx(FX_ONE)
    }

    /// Embed an integer, saturating.
    pub fn from_int(i: i64) -> (r: Fx)
        ensures
            r@ == fx_clamp(i * (SCALE as int)),
    {
        assert(-0x80000000000000000000 <= (i as int) * (SCALE as int) <= 0x80000000000000000000)
            by (nonlinear_arith)
            requires
                -0x8000000000000000 <= i as int <= 0x8000000000000000 && SCALE == 65536,
        ;
        let wide: i128 = (i as i128) * (SCALE as i128);
        Fx(clamp_i128(wide))
    }

    pub fn add(self, o: Fx) -> (r: Fx)
        ensures
            r@ == fx_add(self@, o@),
    {
        let s: i128 = self.0 as i128 + o.0 as i128;
        Fx(clamp_i128(s))
    }

    pub fn sub(self, o: Fx) -> (r: Fx)
        ensures
            r@ == fx_sub(self@, o@),
    {
        let s: i128 = self.0 as i128 - o.0 as i128;
        Fx(clamp_i128(s))
    }

    pub fn neg(self) -> (r: Fx)
        ensures
            r@ == fx_neg(self@),
    {
        let s: i128 = -(self.0 as i128);
        Fx(clamp_i128(s))
    }

    pub fn mul(self, o: Fx) -> (r: Fx)
        ensures
            r@ == fx_mul(self@, o@),
    {
        assert(-0x40000000000000000000000000000000 <= (self.0 as int) * (o.0 as int)
            <= 0x40000000000000000000000000000000) by (nonlinear_arith)
            requires
                -0x8000000000000000 <= self.0 as int <= 0x8000000000000000,
                -0x8000000000000000 <= o.0 as int <= 0x8000000000000000,
        ;
        let p: i128 = (self.0 as i128) * (o.0 as i128);
        let q: i128 = div_trunc_i128(p, SCALE as i128);
        Fx(clamp_i128(q))
    }

    /// Saturating division; by convention a zero divisor yields zero.
    pub fn div(self, o: Fx) -> (r: Fx)
        ensures
            r@ == fx_div(self@, o@),
    {
        if o.0 == 0 {
            return Fx(0);
        }
        assert(-0x80000000000000000000 <= (self.0 as int) * (SCALE as int)
            <= 0x80000000000000000000) by (nonlinear_arith)
            requires
                -0x8000000000000000 <= self.0 as int <= 0x8000000000000000 && SCALE == 65536,
        ;
        let n: i128 = (self.0 as i128) * (SCALE as i128);
        let q: i128 = div_trunc_i128(n, o.0 as i128);
        Fx(clamp_i128(q))
    }

    /// Fixed-point square root; zero on non-positive inputs.
    pub fn sqrt(self) -> (r: Fx)
        ensures
            r@ == fx_sqrt(self@),
    {
        if self.0 <= 0 {
            return Fx(0);
        }
        let x: i64 = if self.0 > FX_MAX {
            FX_MAX
        } else {
            self.0
        };
        assert((x as nat) * (SCALE as nat) <= 0x4000000000000000) by (nonlinear_arith)
            requires
                0 < x as nat <= 0x400000000000 && SCALE == 65536,
        ;
        let n: u64 = (x as u64) * (SCALE as u64);
        let r: u64 = isqrt_u64(n);
        proof {
            lemma_isqrt_bounds(n as nat);
            assert(isqrt_spec(n as nat) < 0x100000000) by (nonlinear_arith)
                requires
                    isqrt_spec(n as nat) * isqrt_spec(n as nat) <= n as nat,
                    n < 0x8000000000000000,
            ;
        }
        Fx(r as i64)
    }

    pub fn abs(self) -> (r: Fx)
        ensures
            r@ == fx_clamp(if self@ < 0 { -self@ } else { self@ }),
            r@ >= 0,
    {
        if self.0 < 0 {
            self.neg()
        } else {
            let s: i128 = self.0 as i128;
            Fx(clamp_i128(s))
        }
    }
}

} // verus!
