//! How close to unit length a normalized vector comes.

use crate::utils::scalar::{is_floor_sqrt, magnitude, trunc_quot, Scalar, SCALE};
use crate::utils::vec3::Vec3;
use vstd::prelude::*;

verus! {

/// A quotient of numbers from 0 up, between the bounds that define it.
pub proof fn lemma_floor_quotient(n: int, d: int)
    requires
        n >= 0,
        d > 0,
    ensures
        n / d >= 0,
        d * (n / d) <= n,
        n < d * (n / d) + d,
{
    vstd::arithmetic::div_mod::lemma_fundamental_div_mod(n, d);
    vstd::arithmetic::div_mod::lemma_mod_bound(n, d);
    vstd::arithmetic::div_mod::lemma_div_pos_is_pos(n, d);
}

/// Squaring keeps the order of numbers from 0 up.
pub proof fn lemma_square_order(p: int, t: int)
    requires
        0 <= p <= t,
    ensures
        p * p <= t * t,
        p < t ==> p * p < t * t,
{
    assert(p * p <= t * t) by (nonlinear_arith)
        requires
            0 <= p <= t,
    ;
    if p < t {
        assert(p * p < t * t) by (nonlinear_arith)
            requires
                0 <= p < t,
        ;
    }
}

/// For `v = floor(a s / l)`: `v^2 l^2 <= a^2 s^2 < (v + 1)^2 l^2`.
pub proof fn lemma_component_bounds(a: int, s: int, l: int)
    requires
        a >= 0,
        s > 0,
        l > 0,
    ensures
        (a * s) / l >= 0,
        (((a * s) / l) * ((a * s) / l)) * (l * l) <= (a * a) * (s * s),
        (a * a) * (s * s) < (((a * s) / l + 1) * ((a * s) / l + 1)) * (l * l),
{
    let t = a * s;
    assert(t >= 0) by (nonlinear_arith)
        requires
            t == a * s,
            a >= 0,
            s > 0,
    ;
    lemma_floor_quotient(t, l);
    let v = t / l;
    let p = l * v;
    let w = l * v + l;
    assert(p >= 0) by (nonlinear_arith)
        requires
            p == l * v,
            l > 0,
            v >= 0,
    ;
    lemma_square_order(p, t);
    lemma_square_order(t, w);
    assert(p * p == (v * v) * (l * l)) by (nonlinear_arith)
        requires
            p == l * v,
    ;
    assert(t * t == (a * a) * (s * s)) by (nonlinear_arith)
        requires
            t == a * s,
    ;
    assert(w * w == ((v + 1) * (v + 1)) * (l * l)) by (nonlinear_arith)
        requires
            w == l * v + l,
    ;
}

/// The sums of squares that normalizing works with, on plain integers.
///
/// `a`, `b`, `c` are the sizes of the components, `l` the length as it is
/// computed (the root of the sum of the rounded squares), and `va`, `vb`,
/// `vc` the sizes of the components of the result.
pub proof fn lemma_normalized_squares(a: int, b: int, c: int, l: int, va: int, vb: int, vc: int)
    requires
        a >= 0,
        b >= 0,
        c >= 0,
        l >= 100_000,
        is_floor_sqrt(((a * a) / 1_000_000 + (b * b) / 1_000_000 + (c * c) / 1_000_000) * 1_000_000, l),
        va == (a * 1_000_000) / l,
        vb == (b * 1_000_000) / l,
        vc == (c * 1_000_000) / l,
    ensures
        0 <= va < 2_000_000,
        0 <= vb < 2_000_000,
        0 <= vc < 2_000_000,
        va * va + vb * vb + vc * vc < 1_000_000 * 1_000_000 + 321 * 1_000_000,
        va * va + vb * vb + vc * vc > 1_000_000 * 1_000_000 - 12 * 1_000_000 - 3,
{
    let s: int = 1_000_000;
    let ss = s * s;
    let ll = l * l;
    assert(ll > 0) by (nonlinear_arith)
        requires
            ll == l * l,
            l >= 100_000,
    ;
    assert(a * a >= 0 && b * b >= 0 && c * c >= 0) by (nonlinear_arith);
    lemma_floor_quotient(a * a, s);
    lemma_floor_quotient(b * b, s);
    lemma_floor_quotient(c * c, s);
    let dd = (a * a) / s + (b * b) / s + (c * c) / s;
    let n = a * a + b * b + c * c;
    // the exact sum of squares lies just above the rounded one
    assert(s * dd <= n && n <= s * dd + 3 * s - 3) by (nonlinear_arith)
        requires
            dd == (a * a) / s + (b * b) / s + (c * c) / s,
            n == a * a + b * b + c * c,
            s * ((a * a) / s) <= a * a,
            a * a < s * ((a * a) / s) + s,
            s * ((b * b) / s) <= b * b,
            b * b < s * ((b * b) / s) + s,
            s * ((c * c) / s) <= c * c,
            c * c < s * ((c * c) / s) + s,
    ;
    assert(dd * s == s * dd) by (nonlinear_arith);
    assert(ll <= n && n < (l + 1) * (l + 1) + 3 * s);
    lemma_component_bounds(a, s, l);
    lemma_component_bounds(b, s, l);
    lemma_component_bounds(c, s, l);
    let u = va * va + vb * vb + vc * vc;
    let w = (va + 1) * (va + 1) + (vb + 1) * (vb + 1) + (vc + 1) * (vc + 1);
    assert(u * ll == (va * va) * ll + (vb * vb) * ll + (vc * vc) * ll) by (nonlinear_arith)
        requires
            u == va * va + vb * vb + vc * vc,
    ;
    assert(w * ll == ((va + 1) * (va + 1)) * ll + ((vb + 1) * (vb + 1)) * ll + ((vc + 1) * (vc
        + 1)) * ll) by (nonlinear_arith)
        requires
            w == (va + 1) * (va + 1) + (vb + 1) * (vb + 1) + (vc + 1) * (vc + 1),
    ;
    assert(n * ss == (a * a) * ss + (b * b) * ss + (c * c) * ss) by (nonlinear_arith)
        requires
            n == a * a + b * b + c * c,
    ;
    assert(u * ll <= n * ss && n * ss < w * ll);
    // from above
    assert(n * ss < ((l + 1) * (l + 1) + 3 * s) * ss) by (nonlinear_arith)
        requires
            n < (l + 1) * (l + 1) + 3 * s,
            ss > 0,
    ;
    assert(((l + 1) * (l + 1) + 3 * s) * ss <= (ss + 321 * s) * ll) by (nonlinear_arith)
        requires
            l >= 100_000,
            s == 1_000_000,
            ss == s * s,
            ll == l * l,
    ;
    assert(u < ss + 321 * s) by (nonlinear_arith)
        requires
            u * ll < (ss + 321 * s) * ll,
            ll > 0,
    ;
    assert(va * va >= 0 && vb * vb >= 0 && vc * vc >= 0) by (nonlinear_arith);
    assert(va < 2 * s) by (nonlinear_arith)
        requires
            va >= 0,
            va * va < 4 * s * s,
            s > 0,
    ;
    assert(vb < 2 * s) by (nonlinear_arith)
        requires
            vb >= 0,
            vb * vb < 4 * s * s,
            s > 0,
    ;
    assert(vc < 2 * s) by (nonlinear_arith)
        requires
            vc >= 0,
            vc * vc < 4 * s * s,
            s > 0,
    ;
    // from below
    assert(ll * ss <= n * ss) by (nonlinear_arith)
        requires
            ll <= n,
            ss > 0,
    ;
    assert(w > ss) by (nonlinear_arith)
        requires
            ll * ss < w * ll,
            ll > 0,
    ;
    assert(w == u + 2 * (va + vb + vc) + 3) by (nonlinear_arith)
        requires
            u == va * va + vb * vb + vc * vc,
            w == (va + 1) * (va + 1) + (vb + 1) * (vb + 1) + (vc + 1) * (vc + 1),
    ;
}

impl Vec3 {
    /// No component is larger than a million, either way.
    pub open spec fn is_moderate(self) -> bool {
        &&& -1_000_000_000_000 <= self.0.raw <= 1_000_000_000_000
        &&& -1_000_000_000_000 <= self.1.raw <= 1_000_000_000_000
        &&& -1_000_000_000_000 <= self.2.raw <= 1_000_000_000_000
    }

    /// The sum of the squares of the raw components, taken exactly.
    pub open spec fn raw_square_sum(self) -> int {
        self.0.raw * self.0.raw + self.1.raw * self.1.raw + self.2.raw * self.2.raw
    }

    /// Rescaling brings every vector but zero into the range in which
    /// squares lose little: no component above a million, and a computed
    /// length of at least 0.1.
    pub proof fn lemma_rescaled_is_moderate(d: Vec3)
        requires
            d.spec_largest() > 0,
        ensures
            d.spec_rescaled().is_moderate(),
            d.spec_rescaled().spec_length().raw >= 100_000,
    {
        let s: int = 1_000_000;
        let m = d.spec_largest();
        let r = d.spec_rescaled();
        if m < 1_000_000 {
            let k = Scalar::spec_from_int(1_000_000);
            assert(k.raw == 1_000_000_000_000);
            Self::lemma_magnified(d.0);
            Self::lemma_magnified(d.1);
            Self::lemma_magnified(d.2);
        } else if m > 1_000_000_000_000 {
            Self::lemma_reduced(d.0);
            Self::lemma_reduced(d.1);
            Self::lemma_reduced(d.2);
        }
        assert(r.is_moderate());
        assert(r.spec_largest() >= 100_000);
        // the square of the largest component alone gives the length
        let (x, y, z) = (r.0.raw as int, r.1.raw as int, r.2.raw as int);
        let (a, b, c) = (magnitude(x), magnitude(y), magnitude(z));
        assert(x * x == a * a && y * y == b * b && z * z == c * c) by (nonlinear_arith)
            requires
                a == magnitude(x),
                b == magnitude(y),
                c == magnitude(z),
        ;
        assert(a * a <= 1_000_000_000_000 * 1_000_000_000_000 && b * b <= 1_000_000_000_000
            * 1_000_000_000_000 && c * c <= 1_000_000_000_000 * 1_000_000_000_000)
            by (nonlinear_arith)
            requires
                0 <= a <= 1_000_000_000_000,
                0 <= b <= 1_000_000_000_000,
                0 <= c <= 1_000_000_000_000,
        ;
        assert(a * a >= 0 && b * b >= 0 && c * c >= 0) by (nonlinear_arith);
        lemma_floor_quotient(a * a, s);
        lemma_floor_quotient(b * b, s);
        lemma_floor_quotient(c * c, s);
        let dd = (a * a) / s + (b * b) / s + (c * c) / s;
        assert(r.spec_length_square().raw == dd);
        let big = r.spec_largest();
        assert(big * big >= 100_000 * 100_000) by (nonlinear_arith)
            requires
                big >= 100_000,
        ;
        assert(big * big == a * a || big * big == b * b || big * big == c * c);
        assert(dd >= 10_000) by {
            vstd::arithmetic::div_mod::lemma_div_is_ordered(10_000_000_000, big * big, s);
        }
        Scalar::lemma_sqrt_bounds(r.spec_length_square());
        let l = r.spec_length().raw as int;
        assert(dd * s >= 10_000_000_000) by (nonlinear_arith)
            requires
                dd >= 10_000,
                s == 1_000_000,
        ;
        assert(l >= 100_000) by (nonlinear_arith)
            requires
                l >= 0,
                (l + 1) * (l + 1) > 10_000_000_000,
        ;
    }

    /// A number below 1, magnified a million times, is that many times as
    /// large.
    pub proof fn lemma_magnified(x: Scalar)
        requires
            -1_000_000 < x.raw < 1_000_000,
        ensures
            x.spec_times(Scalar::spec_from_int(1_000_000)).raw == x.raw * 1_000_000,
    {
        let k: int = 1_000_000_000_000;
        let s: int = 1_000_000;
        assert(x.raw * k == s * (x.raw * 1_000_000)) by (nonlinear_arith)
            requires
                k == 1_000_000_000_000,
                s == 1_000_000,
        ;
        assert(-(x.raw * k) == s * (-(x.raw * 1_000_000))) by (nonlinear_arith)
            requires
                k == 1_000_000_000_000,
                s == 1_000_000,
        ;
        vstd::arithmetic::div_mod::lemma_div_multiples_vanish(x.raw * 1_000_000, s);
        vstd::arithmetic::div_mod::lemma_div_multiples_vanish(-(x.raw * 1_000_000), s);
    }

    /// A number reduced ten million times is at most a million in size, and
    /// at least 0.1 if it was above a million.
    pub proof fn lemma_reduced(x: Scalar)
        ensures
            magnitude(x.spec_over(Scalar::spec_from_int(10_000_000)).raw as int) <= 1_000_000_000_000,
            magnitude(x.raw as int) > 1_000_000_000_000 ==> magnitude(
                x.spec_over(Scalar::spec_from_int(10_000_000)).raw as int,
            ) >= 100_000,
    {
        let a = magnitude(x.raw as int);
        let s: int = 1_000_000;
        let k: int = 10_000_000_000_000;
        assert(magnitude(x.raw * s) == a * s) by (nonlinear_arith)
            requires
                a == magnitude(x.raw as int),
                s == 1_000_000,
        ;
        let top: int = 9_223_372_036_854_775_808_000_000;
        assert(0 <= a * s <= top) by (nonlinear_arith)
            requires
                0 <= a <= 0x8000_0000_0000_0000,
                s == 1_000_000,
                top == 9_223_372_036_854_775_808_000_000,
        ;
        lemma_floor_quotient(a * s, k);
        vstd::arithmetic::div_mod::lemma_div_is_ordered(a * s, top, k);
        if a > 1_000_000_000_000 {
            let low: int = 1_000_000_000_000_000_000;
            assert(a * s >= low) by (nonlinear_arith)
                requires
                    a > 1_000_000_000_000,
                    s == 1_000_000,
                    low == 1_000_000_000_000_000_000,
            ;
            vstd::arithmetic::div_mod::lemma_div_is_ordered(low, a * s, k);
        }
    }

    /// Dividing a moderate vector by its computed length, if that is at
    /// least 0.1, gives components below 2 whose squares add up to 1 within
    /// the stated bounds.
    pub proof fn lemma_quotient_by_length(d: Vec3)
        requires
            d.is_moderate(),
            d.spec_length().raw >= 100_000,
        ensures
            ({
                let q = d.spec_shrunk(d.spec_length());
                &&& -2_000_000 < q.0.raw < 2_000_000
                &&& -2_000_000 < q.1.raw < 2_000_000
                &&& -2_000_000 < q.2.raw < 2_000_000
                &&& 1_000_000 * 1_000_000 - 12 * 1_000_000 - 3 < q.raw_square_sum()
                &&& q.raw_square_sum() < 1_000_000 * 1_000_000 + 321 * 1_000_000
            }),
    {
        let s: int = 1_000_000;
        let (x, y, z) = (d.0.raw as int, d.1.raw as int, d.2.raw as int);
        let (a, b, c) = (magnitude(x), magnitude(y), magnitude(z));
        assert(x * x == a * a && y * y == b * b && z * z == c * c) by (nonlinear_arith)
            requires
                a == magnitude(x),
                b == magnitude(y),
                c == magnitude(z),
        ;
        assert(a * a <= 1_000_000_000_000 * 1_000_000_000_000 && b * b <= 1_000_000_000_000
            * 1_000_000_000_000 && c * c <= 1_000_000_000_000 * 1_000_000_000_000)
            by (nonlinear_arith)
            requires
                0 <= a <= 1_000_000_000_000,
                0 <= b <= 1_000_000_000_000,
                0 <= c <= 1_000_000_000_000,
        ;
        assert(a * a >= 0 && b * b >= 0 && c * c >= 0) by (nonlinear_arith);
        lemma_floor_quotient(a * a, s);
        lemma_floor_quotient(b * b, s);
        lemma_floor_quotient(c * c, s);
        let dd = (a * a) / s + (b * b) / s + (c * c) / s;
        assert(d.spec_length_square().raw == dd);
        let len = d.spec_length();
        let l = len.raw as int;
        Scalar::lemma_sqrt_bounds(d.spec_length_square());
        assert(is_floor_sqrt(dd * s, l));
        let va = (a * s) / l;
        let vb = (b * s) / l;
        let vc = (c * s) / l;
        lemma_normalized_squares(a, b, c, l, va, vb, vc);
        assert(magnitude(x * s) == a * s && magnitude(y * s) == b * s && magnitude(z * s) == c * s)
            by (nonlinear_arith)
            requires
                a == magnitude(x),
                b == magnitude(y),
                c == magnitude(z),
                s == 1_000_000,
        ;
        assert((x * s < 0) == (x < 0) && (y * s < 0) == (y < 0) && (z * s < 0) == (z < 0))
            by (nonlinear_arith)
            requires
                s == 1_000_000,
        ;
        let q = d.spec_shrunk(len);
        assert(magnitude(q.0.raw as int) == va);
        assert(magnitude(q.1.raw as int) == vb);
        assert(magnitude(q.2.raw as int) == vc);
        assert(q.0.raw * q.0.raw == va * va && q.1.raw * q.1.raw == vb * vb && q.2.raw * q.2.raw
            == vc * vc) by (nonlinear_arith)
            requires
                va == magnitude(q.0.raw as int),
                vb == magnitude(q.1.raw as int),
                vc == magnitude(q.2.raw as int),
        ;
    }

    /// The square of a capped component: that of the component, or 1 if the
    /// component was beyond.
    pub proof fn lemma_capped_square(v: int, w: int)
        requires
            w == (if v > 1_000_000 {
                1_000_000
            } else if v < -1_000_000 {
                -1_000_000
            } else {
                v
            }),
        ensures
            0 <= w * w <= v * v,
            w * w <= 1_000_000 * 1_000_000,
            w != v ==> w * w == 1_000_000 * 1_000_000,
    {
        assert(0 <= w * w <= v * v && w * w <= 1_000_000 * 1_000_000) by (nonlinear_arith)
            requires
                -1_000_000 <= w <= 1_000_000,
                (0 <= w <= v) || (v <= w <= 0),
        ;
    }

    /// A vector divided by its length has unit length within tolerance: for
    /// every vector but zero, no component of the unit vector lies beyond 1,
    /// and the square of its length lies between 0.999984 and 1.000321.
    pub proof fn lemma_unit_vector_has_unit_length(d: Vec3)
        requires
            d != Vec3::spec_zero(),
        ensures
            -SCALE <= d.spec_unit_vector().0.raw <= SCALE,
            -SCALE <= d.spec_unit_vector().1.raw <= SCALE,
            -SCALE <= d.spec_unit_vector().2.raw <= SCALE,
            SCALE - 16 <= d.spec_unit_vector().spec_length_square().raw <= SCALE + 321,
    {
        let s: int = 1_000_000;
        assert(d.spec_largest() > 0);
        Self::lemma_rescaled_is_moderate(d);
        let r = d.spec_rescaled();
        Self::lemma_quotient_by_length(r);
        let q = r.spec_shrunk(r.spec_length());
        let u = d.spec_unit_vector();
        assert(u == q.spec_capped());
        let (wa, wb, wc) = (u.0.raw as int, u.1.raw as int, u.2.raw as int);
        Self::lemma_capped_square(q.0.raw as int, wa);
        Self::lemma_capped_square(q.1.raw as int, wb);
        Self::lemma_capped_square(q.2.raw as int, wc);
        let total = wa * wa + wb * wb + wc * wc;
        assert(s * s - 12 * s - 3 < total && total < s * s + 321 * s);
        lemma_floor_quotient(wa * wa, s);
        lemma_floor_quotient(wb * wb, s);
        lemma_floor_quotient(wc * wc, s);
        assert(u.spec_length_square().raw == (wa * wa) / s + (wb * wb) / s + (wc * wc) / s);
    }
}

} // verus!
