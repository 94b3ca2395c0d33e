//! Saturating fixed-point scalars.

use vstd::prelude::*;

verus! {

/// Raw units per whole: a scalar with raw value `SCALE` stands for 1.
pub const SCALE: i64 = 1_000_000;

/// `x` clamped into the range of raw values.
pub open spec fn sat(x: int) -> i64 {
    if x < i64::MIN {
        i64::MIN
    } else if x > i64::MAX {
        i64::MAX
    } else {
        x as i64
    }
}

/// Absolute value of an integer.
pub open spec fn magnitude(x: int) -> int {
    if x < 0 {
        -x
    } else {
        x
    }
}

/// Quotient of `n` by `d`, rounded toward zero.
pub open spec fn trunc_quot(n: int, d: int) -> int
    recommends
        d != 0,
{
    let q = magnitude(n) / magnitude(d);
    if (n < 0) != (d < 0) {
        -q
    } else {
        q
    }
}

/// `r` is the integer part of the square root of `n`.
pub open spec fn is_floor_sqrt(n: int, r: int) -> bool {
    r >= 0 && r * r <= n && n < (r + 1) * (r + 1)
}

/// The integer part of the square root of `n` (for `n >= 0`).
pub open spec fn floor_sqrt(n: int) -> int {
    choose|r: int| is_floor_sqrt(n, r)
}

/// At most one integer is the floor of a square root.
pub proof fn lemma_floor_sqrt_unique(n: int, a: int, b: int)
    requires
        is_floor_sqrt(n, a),
        is_floor_sqrt(n, b),
    ensures
        a == b,
{
    if a < b {
        assert((a + 1) * (a + 1) <= b * b) by (nonlinear_arith)
            requires
                0 <= a,
                a + 1 <= b,
        ;
    } else if b < a {
        assert((b + 1) * (b + 1) <= a * a) by (nonlinear_arith)
            requires
                0 <= b,
                b + 1 <= a,
        ;
    }
}

/// Integer square root by bisection.
pub fn isqrt(n: u128) -> (r: u64)
    ensures
        is_floor_sqrt(n as int, r as int),
        r as int == floor_sqrt(n as int),
{
    let mut lo: u128 = 0;
    let mut hi: u128 = 0x1_0000_0000_0000_0000;
    assert(hi * hi > n) by (nonlinear_arith)
        requires
            hi == 0x1_0000_0000_0000_0000,
            n <= u128::MAX,
    ;
    while hi - lo > 1
        invariant
            lo < hi <= 0x1_0000_0000_0000_0000,
            lo * lo <= n,
            n < hi * hi,
        decreases hi - lo,
    {
        let mid: u128 = lo + (hi - lo) / 2;
        assert(mid * mid <= 0xffff_ffff_ffff_ffff * 0xffff_ffff_ffff_ffff) by (nonlinear_arith)
            requires
                0 <= mid <= 0xffff_ffff_ffff_ffff,
        ;
        if mid * mid <= n {
            lo = mid;
        } else {
            hi = mid;
        }
    }
    proof {
        lemma_floor_sqrt_unique(n as int, lo as int, floor_sqrt(n as int));
    }
    lo as u64
}

/// `x` clamped into the range of raw values.
fn clamp(x: i128) -> (r: i64)
    ensures
        r == sat(x as int),
{
    if x < i64::MIN as i128 {
        i64::MIN
    } else if x > i64::MAX as i128 {
        i64::MAX
    } else {
        x as i64
    }
}

/// Quotient rounded toward zero, on machine integers.
fn quot(n: i128, d: i128) -> (q: i128)
    requires
        d != 0,
        -0x4000_0000_0000_0000_0000_0000_0000_0000 <= n <= 0x4000_0000_0000_0000_0000_0000_0000_0000,
        -0x4000_0000_0000_0000_0000_0000_0000_0000 <= d <= 0x4000_0000_0000_0000_0000_0000_0000_0000,
    ensures
        q == trunc_quot(n as int, d as int),
{
    let na: u128 = if n < 0 {
        (-n) as u128
    } else {
        n as u128
    };
    let da: u128 = if d < 0 {
        (-d) as u128
    } else {
        d as u128
    };
    let qa: u128 = na / da;
    assert(qa <= na) by (nonlinear_arith)
        requires
            qa == na / da,
            da >= 1,
    ;
    if (n < 0) != (d < 0) {
        -(qa as i128)
    } else {
        qa as i128
    }
}

/// `a * SCALE`, widened so that it cannot overflow.
fn scaled_up(a: i64) -> (p: i128)
    ensures
        p == a * SCALE,
        -0x8000_0000_0000_0000 * 1_000_000 <= p <= 0x8000_0000_0000_0000 * 1_000_000,
{
    let k: i128 = SCALE as i128;
    assert(-0x8000_0000_0000_0000 * 1_000_000 <= a * k <= 0x8000_0000_0000_0000 * 1_000_000)
        by (nonlinear_arith)
        requires
            -0x8000_0000_0000_0000 <= a <= 0x8000_0000_0000_0000,
            k == 1_000_000,
    ;
    a as i128 * k
}

/// A fixed-point number: `raw` millionths.
#[derive(Clone, Copy, Debug, PartialEq, Eq, Structural)]
pub struct Scalar {
    pub raw: i64,
}

impl View for Scalar {
    type V = int;

    open spec fn view(&self) -> int {
        self.raw as int
    }
}

impl Scalar {
    /// The scalar with the given raw value.
    pub fn new(raw: i64) -> (r: Scalar)
        ensures
            r.raw == raw,
    {
        Scalar { raw }
    }

    pub open spec fn spec_zero() -> Scalar {
        Scalar { raw: 0 }
    }

    /// The number 0.
    #[verifier::when_used_as_spec(spec_zero)]
    pub fn zero() -> (r: Scalar)
        ensures
            r == Self::spec_zero(),
    {
        Scalar { raw: 0 }
    }

    pub open spec fn spec_one() -> Scalar {
        Scalar { raw: SCALE }
    }

    /// The number 1.
    #[verifier::when_used_as_spec(spec_one)]
    pub fn one() -> (r: Scalar)
        ensures
            r == Self::spec_one(),
    {
        Scalar { raw: SCALE }
    }

    pub open spec fn spec_infinity() -> Scalar {
        Scalar { raw: i64::MAX }
    }

    /// The largest scalar, at which sums and products saturate.
    #[verifier::when_used_as_spec(spec_infinity)]
    pub fn infinity() -> (r: Scalar)
        ensures
            r == Self::spec_infinity(),
    {
        Scalar { raw: i64::MAX }
    }

    pub open spec fn spec_from_int(i: i64) -> Scalar {
        Scalar { raw: sat(i * SCALE) }
    }

    /// The whole number `i`, saturated.
    #[verifier::when_used_as_spec(spec_from_int)]
    pub fn from_int(i: i64) -> (r: Scalar)
        ensures
            r == Self::spec_from_int(i),
    {
        Scalar { raw: clamp(scaled_up(i)) }
    }

    pub open spec fn spec_plus(self, o: Scalar) -> Scalar {
        Scalar { raw: sat(self.raw + o.raw) }
    }

    /// Saturating sum.
    #[verifier::when_used_as_spec(spec_plus)]
    pub fn plus(self, o: Scalar) -> (r: Scalar)
        ensures
            r == self.spec_plus(o),
    {
        Scalar { raw: clamp(self.raw as i128 + o.raw as i128) }
    }

    pub open spec fn spec_minus(self, o: Scalar) -> Scalar {
        Scalar { raw: sat(self.raw - o.raw) }
    }

    /// Saturating difference.
    #[verifier::when_used_as_spec(spec_minus)]
    pub fn minus(self, o: Scalar) -> (r: Scalar)
        ensures
            r == self.spec_minus(o),
    {
        Scalar { raw: clamp(self.raw as i128 - o.raw as i128) }
    }

    pub open spec fn spec_negated(self) -> Scalar {
        Scalar { raw: sat(-self.raw) }
    }

    /// Saturating negation.
    #[verifier::when_used_as_spec(spec_negated)]
    pub fn negated(self) -> (r: Scalar)
        ensures
            r == self.spec_negated(),
    {
        Scalar { raw: clamp(-(self.raw as i128)) }
    }

    pub open spec fn spec_times(self, o: Scalar) -> Scalar {
        Scalar { raw: sat(trunc_quot(self.raw * o.raw, SCALE as int)) }
    }

    /// Saturating product, rounded toward zero.
    #[verifier::when_used_as_spec(spec_times)]
    pub fn times(self, o: Scalar) -> (r: Scalar)
        ensures
            r == self.spec_times(o),
    {
        let a: i128 = self.raw as i128;
        let b: i128 = o.raw as i128;
        assert(-0x4000_0000_0000_0000_0000_0000_0000_0000 <= a * b
            <= 0x4000_0000_0000_0000_0000_0000_0000_0000) by (nonlinear_arith)
            requires
                -0x8000_0000_0000_0000 <= a <= 0x8000_0000_0000_0000,
                -0x8000_0000_0000_0000 <= b <= 0x8000_0000_0000_0000,
        ;
        let q: i128 = quot(a * b, SCALE as i128);
        Scalar { raw: clamp(q) }
    }

    pub open spec fn spec_over(self, o: Scalar) -> Scalar {
        if o.raw == 0 {
            if self.raw > 0 {
                Scalar { raw: i64::MAX }
            } else if self.raw < 0 {
                Scalar { raw: i64::MIN }
            } else {
                Scalar { raw: 0 }
            }
        } else {
            Scalar { raw: sat(trunc_quot(self.raw * SCALE, o.raw as int)) }
        }
    }

    /// Saturating quotient, rounded toward zero. Division by zero gives the
    /// end of the range on the side of the dividend, and 0 for 0 / 0.
    #[verifier::when_used_as_spec(spec_over)]
    pub fn over(self, o: Scalar) -> (r: Scalar)
        ensures
            r == self.spec_over(o),
    {
        if o.raw == 0 {
            if self.raw > 0 {
                Scalar { raw: i64::MAX }
            } else if self.raw < 0 {
                Scalar { raw: i64::MIN }
            } else {
                Scalar { raw: 0 }
            }
        } else {
            Scalar { raw: clamp(quot(scaled_up(self.raw), o.raw as i128)) }
        }
    }

    pub open spec fn spec_sqrt(self) -> Scalar {
        if self.raw <= 0 {
            Scalar { raw: 0 }
        } else {
            Scalar { raw: floor_sqrt(self.raw * SCALE) as i64 }
        }
    }

    /// Square root, rounded down; 0 for a negative number.
    #[verifier::when_used_as_spec(spec_sqrt)]
    pub fn sqrt(self) -> (r: Scalar)
        ensures
            r == self.spec_sqrt(),
            self.raw > 0 ==> is_floor_sqrt(self.raw * SCALE, r.raw as int),
    {
        if self.raw <= 0 {
            Scalar { raw: 0 }
        } else {
            let n: u128 = self.raw as u128 * SCALE as u128;
            let s: u64 = isqrt(n);
            assert(s < 0x8000_0000_0000_0000) by (nonlinear_arith)
                requires
                    s * s <= n,
                    n < 0x8000_0000_0000_0000 * 1_000_000,
            ;
            Scalar { raw: s as i64 }
        }
    }

    pub open spec fn spec_min(self, o: Scalar) -> Scalar {
        if self.raw <= o.raw {
            self
        } else {
            o
        }
    }

    /// The smaller of two scalars.
    #[verifier::when_used_as_spec(spec_min)]
    pub fn min(self, o: Scalar) -> (r: Scalar)
        ensures
            r == self.spec_min(o),
    {
        if self.raw <= o.raw {
            self
        } else {
            o
        }
    }

    pub open spec fn spec_max(self, o: Scalar) -> Scalar {
        if self.raw >= o.raw {
            self
        } else {
            o
        }
    }

    /// The larger of two scalars.
    #[verifier::when_used_as_spec(spec_max)]
    pub fn max(self, o: Scalar) -> (r: Scalar)
        ensures
            r == self.spec_max(o),
    {
        if self.raw >= o.raw {
            self
        } else {
            o
        }
    }
}

/// Rounding toward zero keeps the order of the dividends.
pub proof fn lemma_trunc_quot_monotone(n1: int, n2: int, d: int)
    requires
        n1 <= n2,
        d > 0,
    ensures
        trunc_quot(n1, d) <= trunc_quot(n2, d),
{
    if n1 >= 0 {
        vstd::arithmetic::div_mod::lemma_div_is_ordered(n1, n2, d);
    } else if n2 >= 0 {
        vstd::arithmetic::div_mod::lemma_div_pos_is_pos(-n1, d);
        vstd::arithmetic::div_mod::lemma_div_pos_is_pos(n2, d);
    } else {
        vstd::arithmetic::div_mod::lemma_div_is_ordered(-n2, -n1, d);
    }
}

/// Every number from 0 up has an integer square root.
pub proof fn lemma_floor_sqrt_exists(n: int)
    requires
        n >= 0,
    ensures
        is_floor_sqrt(n, floor_sqrt(n)),
    decreases n,
{
    if n == 0 {
        assert(is_floor_sqrt(0, 0));
    } else {
        lemma_floor_sqrt_exists(n - 1);
        let r = floor_sqrt(n - 1);
        if (r + 1) * (r + 1) <= n {
            assert(n < (r + 2) * (r + 2)) by (nonlinear_arith)
                requires
                    n - 1 < (r + 1) * (r + 1),
                    r >= 0,
            ;
            assert(is_floor_sqrt(n, r + 1));
        } else {
            assert(is_floor_sqrt(n, r));
        }
    }
}

impl Scalar {
    /// Dividing by a positive number keeps the order.
    pub proof fn lemma_over_monotone(a: Scalar, b: Scalar, d: Scalar)
        requires
            a.raw <= b.raw,
            d.raw > 0,
        ensures
            a.spec_over(d).raw <= b.spec_over(d).raw,
    {
        assert(a.raw * SCALE <= b.raw * SCALE) by (nonlinear_arith)
            requires
                a.raw <= b.raw,
                SCALE == 1_000_000,
        ;
        lemma_trunc_quot_monotone(a.raw * SCALE, b.raw * SCALE, d.raw as int);
    }

    /// Multiplying by 1 changes nothing.
    pub proof fn lemma_times_one(x: Scalar)
        ensures
            x.spec_times(Scalar::spec_one()) == x,
            Scalar::spec_one().spec_times(x) == x,
    {
        let s = SCALE as int;
        assert(x.raw * s == s * x.raw) by (nonlinear_arith);
        assert(-(x.raw * s) == s * (-x.raw)) by (nonlinear_arith);
        vstd::arithmetic::div_mod::lemma_div_multiples_vanish(x.raw as int, s);
        vstd::arithmetic::div_mod::lemma_div_multiples_vanish(-x.raw, s);
        if x.raw < 0 {
            assert(x.raw * s < 0) by (nonlinear_arith)
                requires
                    x.raw < 0,
                    s == 1_000_000,
            ;
        } else {
            assert(x.raw * s >= 0) by (nonlinear_arith)
                requires
                    x.raw >= 0,
                    s == 1_000_000,
            ;
        }
    }

    /// Multiplying by 0 gives 0.
    pub proof fn lemma_times_zero(x: Scalar)
        ensures
            x.spec_times(Scalar::spec_zero()) == Scalar::spec_zero(),
            Scalar::spec_zero().spec_times(x) == Scalar::spec_zero(),
    {
        assert(x.raw * 0 == 0 && 0 * x.raw == 0) by (nonlinear_arith);
    }

    /// A square is not negative.
    pub proof fn lemma_square_nonnegative(x: Scalar)
        ensures
            x.spec_times(x).raw >= 0,
    {
        assert(x.raw * x.raw >= 0) by (nonlinear_arith);
        vstd::arithmetic::div_mod::lemma_div_pos_is_pos(x.raw * x.raw, SCALE as int);
    }

    /// A square root is not negative, and the root of a number up to 1 is at
    /// most 1.
    pub proof fn lemma_sqrt_bounds(x: Scalar)
        ensures
            x.spec_sqrt().raw >= 0,
            x.raw > 0 ==> is_floor_sqrt(x.raw * SCALE, x.spec_sqrt().raw as int),
            x.raw <= SCALE ==> x.spec_sqrt().raw <= SCALE,
    {
        if x.raw > 0 {
            let n = x.raw * SCALE;
            assert(0 <= n < 0x8000_0000_0000_0000 * 1_000_000) by (nonlinear_arith)
                requires
                    n == x.raw * SCALE,
                    0 < x.raw < 0x8000_0000_0000_0000,
                    SCALE == 1_000_000,
            ;
            lemma_floor_sqrt_exists(n);
            let r = floor_sqrt(n);
            assert(r < 0x8000_0000_0000_0000) by (nonlinear_arith)
                requires
                    r >= 0,
                    r * r <= n,
                    n < 0x8000_0000_0000_0000 * 1_000_000,
            ;
            if x.raw <= SCALE {
                assert(r <= 1_000_000) by (nonlinear_arith)
                    requires
                        r >= 0,
                        r * r <= n,
                        n == x.raw * SCALE,
                        x.raw <= 1_000_000,
                        SCALE == 1_000_000,
                ;
            }
        }
    }
}

impl Scalar {
    /// A blend of two numbers from 0 up lies between them, up to one raw
    /// unit lost to rounding: for `t` in `[0, 1]`, `a (1 - t) + b t` is at
    /// most the larger and at least the smaller less one raw unit.
    pub proof fn lemma_blend_between(a: Scalar, b: Scalar, t: Scalar)
        requires
            0 <= a.raw,
            0 <= b.raw,
            0 <= t.raw <= SCALE,
        ensures
            ({
                let c = a.spec_times(Scalar::spec_one().spec_minus(t)).spec_plus(b.spec_times(t));
                a.spec_min(b).raw - 1 <= c.raw <= a.spec_max(b).raw
            }),
    {
        let s = SCALE as int;
        let x = a.raw as int;
        let y = b.raw as int;
        let k = t.raw as int;
        let lo = a.spec_min(b).raw as int;
        let hi = a.spec_max(b).raw as int;
        assert(x * (s - k) >= 0 && y * k >= 0) by (nonlinear_arith)
            requires
                x >= 0,
                y >= 0,
                0 <= k <= s,
        ;
        assert(lo * (s - k) <= x * (s - k) <= hi * (s - k)) by (nonlinear_arith)
            requires
                lo <= x <= hi,
                s - k >= 0,
        ;
        assert(lo * k <= y * k <= hi * k) by (nonlinear_arith)
            requires
                lo <= y <= hi,
                k >= 0,
        ;
        assert(lo * (s - k) + lo * k == lo * s && hi * (s - k) + hi * k == hi * s)
            by (nonlinear_arith);
        vstd::arithmetic::div_mod::lemma_fundamental_div_mod(x * (s - k), s);
        vstd::arithmetic::div_mod::lemma_mod_bound(x * (s - k), s);
        vstd::arithmetic::div_mod::lemma_fundamental_div_mod(y * k, s);
        vstd::arithmetic::div_mod::lemma_mod_bound(y * k, s);
        let p = (x * (s - k)) / s;
        let q = (y * k) / s;
        assert(s * (p + q) == s * p + s * q) by (nonlinear_arith);
        assert(p + q <= hi) by (nonlinear_arith)
            requires
                s * (p + q) <= hi * s,
                s > 0,
        ;
        assert(p + q >= lo - 1) by (nonlinear_arith)
            requires
                s * (p + q) + 2 * s > lo * s,
                s > 0,
        ;
        vstd::arithmetic::div_mod::lemma_div_pos_is_pos(x * (s - k), s);
        vstd::arithmetic::div_mod::lemma_div_pos_is_pos(y * k, s);
    }
}

} // verus!
