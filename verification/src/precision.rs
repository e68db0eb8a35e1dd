//! What rounding costs.
//!
//! In exact arithmetic a reflection about a unit normal keeps the length of
//! what it reflects, and a normalized vector has length one. The scalars of
//! this library round, so `Tuple::reflect` and `Tuple::normalize` achieve
//! this only nearly; how nearly is proved here.

use crate::scalar::{isqrt, lemma_isqrt_exists, trunc_div, Scalar, RAW_MAX, SCALE};
use crate::tuple::{within, Tuple};
use vstd::arithmetic::div_mod::{
    lemma_div_by_multiple, lemma_div_pos_is_pos, lemma_fundamental_div_mod, lemma_mod_bound,
};
use vstd::prelude::*;

verus! {

/// Whether `n` has length exactly one.
pub open spec fn is_unit(n: Tuple) -> bool {
    n.raw_dot(n) == SCALE * SCALE
}

/// Rounding toward zero loses less than the divisor and never overshoots.
pub proof fn lemma_trunc_div_remainder(x: int, d: int)
    requires
        0 < d,
    ensures
        -d < x - d * trunc_div(x, d) < d,
        x >= 0 ==> 0 <= d * trunc_div(x, d) <= x,
        x <= 0 ==> x <= d * trunc_div(x, d) <= 0,
{
    if x >= 0 {
        lemma_fundamental_div_mod(x, d);
        lemma_mod_bound(x, d);
        lemma_div_pos_is_pos(x, d);
        assert(0 <= d * (x / d)) by (nonlinear_arith)
            requires
                0 < d,
                0 <= x / d,
        ;
    } else {
        lemma_fundamental_div_mod(-x, d);
        lemma_mod_bound(-x, d);
        lemma_div_pos_is_pos(-x, d);
        assert(0 <= d * ((-x) / d)) by (nonlinear_arith)
            requires
                0 < d,
                0 <= (-x) / d,
        ;
        assert(d * (-((-x) / d)) == -(d * ((-x) / d))) by (nonlinear_arith);
    }
}

/// A multiple of the divisor is divided without loss.
pub proof fn lemma_trunc_div_multiple(c: int, d: int)
    requires
        0 < d,
    ensures
        trunc_div(c * d, d) == c,
{
    if c >= 0 {
        assert(c * d >= 0) by (nonlinear_arith)
            requires
                c >= 0,
                d > 0,
        ;
        lemma_div_by_multiple(c, d);
    } else {
        assert(c * d < 0) by (nonlinear_arith)
            requires
                c < 0,
                d > 0,
        ;
        assert(-(c * d) == (-c) * d) by (nonlinear_arith);
        lemma_div_by_multiple(-c, d);
    }
}

/// A product is bounded by the product of the bounds of its factors.
pub proof fn lemma_product_bound(x: int, y: int, bx: int, by: int)
    requires
        -bx <= x <= bx,
        -by <= y <= by,
    ensures
        -(bx * by) <= x * y <= bx * by,
{
    assert(-(bx * by) <= x * y <= bx * by) by (nonlinear_arith)
        requires
            -bx <= x <= bx,
            -by <= y <= by,
    ;
}

/// The rounded quotient of a bounded product: `x * y / d` lies within
/// `bx` where `x` lies within `bx` and `y` within `d`.
pub proof fn lemma_rounded_product(x: int, y: int, bx: int, d: int)
    requires
        0 < d,
        -bx <= x <= bx,
        -d <= y <= d,
    ensures
        -bx <= trunc_div(x * y, d) <= bx,
        -d < x * y - d * trunc_div(x * y, d) < d,
{
    lemma_product_bound(x, y, bx, d);
    lemma_trunc_div_remainder(x * y, d);
    let q = trunc_div(x * y, d);
    assert(-bx <= q <= bx) by (nonlinear_arith)
        requires
            0 < d,
            -(bx * d) <= d * q <= bx * d,
    ;
}

/// A component of a unit tuple is at most one.
pub proof fn lemma_unit_components(n: Tuple)
    requires
        is_unit(n),
    ensures
        within(n, SCALE as int),
{
    let s = SCALE as int;
    assert(-s <= n.x@ <= s && -s <= n.y@ <= s && -s <= n.z@ <= s && -s <= n.w@ <= s)
        by (nonlinear_arith)
        requires
            n.x@ * n.x@ + n.y@ * n.y@ + n.z@ * n.z@ + n.w@ * n.w@ == s * s,
            s > 0,
    ;
}

/// One component of the exact reflection, `s2 * v - 2 * dd * n`, squared
/// and written out.
proof fn lemma_exact_component(s2: int, v: int, n: int, dd: int)
    ensures
        (s2 * v - 2 * (dd * n)) * (s2 * v - 2 * (dd * n)) == (s2 * s2) * (v * v) - (4 * s2 * dd)
            * (v * n) + (4 * (dd * dd)) * (n * n),
{
    let p = s2 * v;
    let t = dd * n;
    assert((p - 2 * t) * (p - 2 * t) == p * p - 4 * (p * t) + 4 * (t * t)) by (nonlinear_arith);
    assert(p * p == (s2 * s2) * (v * v)) by (nonlinear_arith)
        requires
            p == s2 * v,
    ;
    assert(p * t == (s2 * dd) * (v * n)) by (nonlinear_arith)
        requires
            p == s2 * v,
            t == dd * n,
    ;
    assert(t * t == (dd * dd) * (n * n)) by (nonlinear_arith)
        requires
            t == dd * n,
    ;
    assert(4 * ((s2 * dd) * (v * n)) == (4 * s2 * dd) * (v * n)) by (nonlinear_arith);
    assert(4 * ((dd * dd) * (n * n)) == (4 * (dd * dd)) * (n * n)) by (nonlinear_arith);
}

/// In exact arithmetic, reflection about a unit normal keeps the squared
/// length: where `s2` is the squared length of `n` and `dd` the dot product
/// of `v` and `n`, the tuple of components `s2 * v - 2 * dd * n` is `s2`
/// times as long as `v`.
proof fn lemma_exact_reflection(
    s2: int,
    vx: int,
    vy: int,
    vz: int,
    vw: int,
    nx: int,
    ny: int,
    nz: int,
    nw: int,
    dd: int,
)
    requires
        nx * nx + ny * ny + nz * nz + nw * nw == s2,
        dd == vx * nx + vy * ny + vz * nz + vw * nw,
    ensures
        (s2 * vx - 2 * (dd * nx)) * (s2 * vx - 2 * (dd * nx)) + (s2 * vy - 2 * (dd * ny)) * (s2
            * vy - 2 * (dd * ny)) + (s2 * vz - 2 * (dd * nz)) * (s2 * vz - 2 * (dd * nz)) + (s2
            * vw - 2 * (dd * nw)) * (s2 * vw - 2 * (dd * nw)) == (s2 * s2) * (vx * vx + vy * vy
            + vz * vz + vw * vw),
{
    lemma_exact_component(s2, vx, nx, dd);
    lemma_exact_component(s2, vy, ny, dd);
    lemma_exact_component(s2, vz, nz, dd);
    lemma_exact_component(s2, vw, nw, dd);
    let a = 4 * s2 * dd;
    let b = 4 * (dd * dd);
    let c = s2 * s2;
    assert(a * (vx * nx) + a * (vy * ny) + a * (vz * nz) + a * (vw * nw) == a * dd)
        by (nonlinear_arith)
        requires
            dd == vx * nx + vy * ny + vz * nz + vw * nw,
    ;
    assert(b * (nx * nx) + b * (ny * ny) + b * (nz * nz) + b * (nw * nw) == b * s2)
        by (nonlinear_arith)
        requires
            nx * nx + ny * ny + nz * nz + nw * nw == s2,
    ;
    assert(a * dd == b * s2) by (nonlinear_arith)
        requires
            a == 4 * s2 * dd,
            b == 4 * (dd * dd),
    ;
    assert(c * (vx * vx) + c * (vy * vy) + c * (vz * vz) + c * (vw * vw) == c * (vx * vx + vy
        * vy + vz * vz + vw * vw)) by (nonlinear_arith);
}

/// What rounding adds to one component of a reflection. With `d` the
/// rounded and `dd` the exact dot product, `aa` what the rounding of `d`
/// lost, `m` the rounded and `b` the lost part of `2 * d * n / s`, the
/// component `v - m`, scaled, is the exact component plus an error whose
/// effect `e` on the square is bounded.
proof fn lemma_component_error(
    s: int,
    v: int,
    n: int,
    d: int,
    dd: int,
    aa: int,
    m: int,
    b: int,
    bound: int,
) -> (e: int)
    requires
        0 < s,
        0 <= bound,
        -bound <= v <= bound,
        -s <= n <= s,
        s * d == dd - aa,
        -(4 * s) <= aa <= 4 * s,
        -(4 * (bound * s)) <= dd <= 4 * (bound * s),
        n * (2 * d) == s * m + b,
        -s <= b <= s,
    ensures
        ((s * s) * (s * s)) * ((v - m) * (v - m)) == ((s * s) * v - 2 * (dd * n)) * ((s * s) * v
            - 2 * (dd * n)) + e,
        -(((s * s) * (s * s)) * (162 * bound + 81)) <= e <= ((s * s) * (s * s)) * (162 * bound
            + 81),
{
    let s2 = s * s;
    let r = v - m;
    let exact = s2 * v - 2 * (dd * n);
    let extra = 2 * (aa * n) + s * b;
    assert(s2 * r == exact + extra) by (nonlinear_arith)
        requires
            s2 == s * s,
            r == v - m,
            exact == s2 * v - 2 * (dd * n),
            extra == 2 * (aa * n) + s * b,
            s * d == dd - aa,
            n * (2 * d) == s * m + b,
    ;
    lemma_product_bound(aa, n, 4 * s, s);
    lemma_product_bound(b, s, s, s);
    assert(s * b == b * s) by (nonlinear_arith);
    assert((4 * s) * s == 4 * s2) by (nonlinear_arith)
        requires
            s2 == s * s,
    ;
    assert(-(9 * s2) <= extra <= 9 * s2);
    lemma_product_bound(dd, n, 4 * (bound * s), s);
    lemma_product_bound(v, s2, bound, s2);
    assert(s2 * v == v * s2) by (nonlinear_arith);
    assert((4 * (bound * s)) * s == 4 * (bound * s2)) by (nonlinear_arith)
        requires
            s2 == s * s,
    ;
    assert(0 <= s2) by (nonlinear_arith)
        requires
            s2 == s * s,
    ;
    assert(-(9 * (bound * s2)) <= exact <= 9 * (bound * s2));
    let e = 2 * (exact * extra) + extra * extra;
    assert((s2 * s2) * (r * r) == exact * exact + e) by (nonlinear_arith)
        requires
            s2 * r == exact + extra,
            e == 2 * (exact * extra) + extra * extra,
    ;
    lemma_product_bound(exact, extra, 9 * (bound * s2), 9 * s2);
    lemma_product_bound(extra, extra, 9 * s2, 9 * s2);
    assert((9 * (bound * s2)) * (9 * s2) == (s2 * s2) * (81 * bound)) by (nonlinear_arith);
    assert((9 * s2) * (9 * s2) == (s2 * s2) * 81) by (nonlinear_arith);
    assert((s2 * s2) * (162 * bound + 81) == 2 * ((s2 * s2) * (81 * bound)) + (s2 * s2) * 81)
        by (nonlinear_arith);
    e
}

/// Reflection about a unit normal nearly keeps the length of a vector: the
/// squared length of what `reflect` gives differs from that of `v`, both
/// taken over the raw components, by at most `648 * bound + 324`, where
/// `bound` limits the raw components of `v`. For a `v` of components up to
/// one in magnitude that is less than a millionth of its squared length.
pub proof fn lemma_reflect_keeps_length(v: Tuple, n: Tuple, bound: int)
    requires
        is_unit(n),
        within(v, bound),
        9 * bound <= RAW_MAX,
    ensures
        -(648 * bound + 324) <= v.reflect_spec(n).raw_dot(v.reflect_spec(n)) - v.raw_dot(v)
            <= 648 * bound + 324,
{
    let s = SCALE as int;
    let r = v.reflect_spec(n);
    lemma_unit_components(n);
    lemma_rounded_product(v.x@, n.x@, bound, s);
    lemma_rounded_product(v.y@, n.y@, bound, s);
    lemma_rounded_product(v.z@, n.z@, bound, s);
    lemma_rounded_product(v.w@, n.w@, bound, s);
    let px = trunc_div(v.x@ * n.x@, s);
    let py = trunc_div(v.y@ * n.y@, s);
    let pz = trunc_div(v.z@ * n.z@, s);
    let pw = trunc_div(v.w@ * n.w@, s);
    let d = px + py + pz + pw;
    assert(v.dot_spec(n)@ == d);
    let dd = v.raw_dot(n);
    let aa = dd - s * d;
    lemma_product_bound(v.x@, n.x@, bound, s);
    lemma_product_bound(v.y@, n.y@, bound, s);
    lemma_product_bound(v.z@, n.z@, bound, s);
    lemma_product_bound(v.w@, n.w@, bound, s);
    lemma_trunc_div_multiple(2 * d, s);
    let k = Scalar::two_spec().mul_spec(v.dot_spec(n));
    assert(Scalar::two_spec()@ * d == (2 * d) * s);
    assert(k@ == 2 * d);
    lemma_rounded_product(2 * d, n.x@, 8 * bound, s);
    lemma_rounded_product(2 * d, n.y@, 8 * bound, s);
    lemma_rounded_product(2 * d, n.z@, 8 * bound, s);
    lemma_rounded_product(2 * d, n.w@, 8 * bound, s);
    assert(n.x@ * (2 * d) == (2 * d) * n.x@) by (nonlinear_arith);
    assert(n.y@ * (2 * d) == (2 * d) * n.y@) by (nonlinear_arith);
    assert(n.z@ * (2 * d) == (2 * d) * n.z@) by (nonlinear_arith);
    assert(n.w@ * (2 * d) == (2 * d) * n.w@) by (nonlinear_arith);
    let mx = trunc_div(n.x@ * (2 * d), s);
    let my = trunc_div(n.y@ * (2 * d), s);
    let mz = trunc_div(n.z@ * (2 * d), s);
    let mw = trunc_div(n.w@ * (2 * d), s);
    assert(r.x@ == v.x@ - mx);
    assert(r.y@ == v.y@ - my);
    assert(r.z@ == v.z@ - mz);
    assert(r.w@ == v.w@ - mw);
    let ex = lemma_component_error(
        s, v.x@, n.x@, d, dd, aa, mx, n.x@ * (2 * d) - s * mx, bound);
    let ey = lemma_component_error(
        s, v.y@, n.y@, d, dd, aa, my, n.y@ * (2 * d) - s * my, bound);
    let ez = lemma_component_error(
        s, v.z@, n.z@, d, dd, aa, mz, n.z@ * (2 * d) - s * mz, bound);
    let ew = lemma_component_error(
        s, v.w@, n.w@, d, dd, aa, mw, n.w@ * (2 * d) - s * mw, bound);
    lemma_exact_reflection(s * s, v.x@, v.y@, v.z@, v.w@, n.x@, n.y@, n.z@, n.w@, dd);
    let s4 = (s * s) * (s * s);
    let after = r.raw_dot(r);
    let before = v.raw_dot(v);
    assert(s4 * after == s4 * (r.x@ * r.x@) + s4 * (r.y@ * r.y@) + s4 * (r.z@ * r.z@) + s4 * (r.w@
        * r.w@)) by (nonlinear_arith)
        requires
            after == r.x@ * r.x@ + r.y@ * r.y@ + r.z@ * r.z@ + r.w@ * r.w@,
    ;
    assert(s4 * after == s4 * before + (ex + ey + ez + ew));
    let limit = 648 * bound + 324;
    assert(s4 * limit == 4 * (s4 * (162 * bound + 81))) by (nonlinear_arith)
        requires
            limit == 648 * bound + 324,
    ;
    assert(-limit <= after - before <= limit) by (nonlinear_arith)
        requires
            s4 * after == s4 * before + (ex + ey + ez + ew),
            -(s4 * limit) <= ex + ey + ez + ew <= s4 * limit,
            s4 > 0,
    ;
}

/// The magnitude of a tuple is its exact length rounded down, where that
/// fits a scalar.
pub proof fn lemma_magnitude_brackets(t: Tuple, bound: int)
    requires
        within(t, bound),
        bound <= 4_000_000_000_000_000_000,
    ensures
        0 <= t.magnitude_spec()@,
        t.magnitude_spec()@ * t.magnitude_spec()@ <= t.raw_dot(t),
        t.raw_dot(t) < (t.magnitude_spec()@ + 1) * (t.magnitude_spec()@ + 1),
{
    let limit: int = 4_000_000_000_000_000_000;
    lemma_product_bound(t.x@, t.x@, limit, limit);
    lemma_product_bound(t.y@, t.y@, limit, limit);
    lemma_product_bound(t.z@, t.z@, limit, limit);
    lemma_product_bound(t.w@, t.w@, limit, limit);
    assert(t.x@ * t.x@ >= 0 && t.y@ * t.y@ >= 0 && t.z@ * t.z@ >= 0 && t.w@ * t.w@ >= 0)
        by (nonlinear_arith);
    let e = t.raw_dot(t);
    lemma_isqrt_exists(e);
    let r = isqrt(e);
    assert(r <= RAW_MAX) by (nonlinear_arith)
        requires
            0 <= r,
            r * r <= e,
            e <= 4 * (4_000_000_000_000_000_000 * 4_000_000_000_000_000_000),
            RAW_MAX == 9_223_372_036_854_775_807,
    ;
}

/// Reflection about a unit normal keeps the magnitude of a vector up to
/// rounding: the squared magnitude of each of `v` and its reflection is
/// less than that of the other taken one raw unit larger, plus
/// `648 * bound + 324`, where `bound` limits the raw components of `v`.
pub proof fn lemma_reflect_keeps_magnitude(v: Tuple, n: Tuple, bound: int)
    requires
        is_unit(n),
        within(v, bound),
        bound <= 400_000_000_000_000_000,
    ensures
        ({
            let before = v.magnitude_spec()@;
            let after = v.reflect_spec(n).magnitude_spec()@;
            let slack = 648 * bound + 324;
            &&& after * after < (before + 1) * (before + 1) + slack
            &&& before * before < (after + 1) * (after + 1) + slack
        }),
{
    let r = v.reflect_spec(n);
    lemma_reflect_keeps_length(v, n, bound);
    lemma_reflected_within(v, n, bound);
    lemma_magnitude_brackets(v, bound);
    lemma_magnitude_brackets(r, 9 * bound);
}

/// The reflection of a vector about a unit normal has components of at
/// most nine times the magnitude of the vector's.
pub proof fn lemma_reflected_within(v: Tuple, n: Tuple, bound: int)
    requires
        is_unit(n),
        within(v, bound),
        9 * bound <= RAW_MAX,
    ensures
        within(v.reflect_spec(n), 9 * bound),
{
    let s = SCALE as int;
    lemma_unit_components(n);
    lemma_rounded_product(v.x@, n.x@, bound, s);
    lemma_rounded_product(v.y@, n.y@, bound, s);
    lemma_rounded_product(v.z@, n.z@, bound, s);
    lemma_rounded_product(v.w@, n.w@, bound, s);
    let d = v.dot_spec(n)@;
    lemma_trunc_div_multiple(2 * d, s);
    assert(Scalar::two_spec()@ * d == (2 * d) * s);
    lemma_rounded_product(2 * d, n.x@, 8 * bound, s);
    lemma_rounded_product(2 * d, n.y@, 8 * bound, s);
    lemma_rounded_product(2 * d, n.z@, 8 * bound, s);
    lemma_rounded_product(2 * d, n.w@, 8 * bound, s);
    assert(n.x@ * (2 * d) == (2 * d) * n.x@) by (nonlinear_arith);
    assert(n.y@ * (2 * d) == (2 * d) * n.y@) by (nonlinear_arith);
    assert(n.z@ * (2 * d) == (2 * d) * n.z@) by (nonlinear_arith);
    assert(n.w@ * (2 * d) == (2 * d) * n.w@) by (nonlinear_arith);
}

/// One component of a normalized tuple: `v * s / m` rounded toward zero
/// is at most `s` in magnitude, and its square, scaled by `m * m`, falls
/// short of the exact `s * s * v * v` by at most `2 * s * m * m` and
/// exceeds it by at most `m * m`.
proof fn lemma_normalized_component(s: int, m: int, v: int) -> (n: int)
    requires
        0 < s,
        0 < m,
        -m <= v <= m,
    ensures
        n == trunc_div(v * s, m),
        -s <= n <= s,
        (s * s) * (v * v) - (2 * s) * (m * m) <= (m * m) * (n * n) <= (s * s) * (v * v) + m * m,
{
    let n = trunc_div(v * s, m);
    assert(v * s == s * v) by (nonlinear_arith);
    lemma_rounded_product(s, v, s, m);
    lemma_trunc_div_remainder(v * s, m);
    let lost = v * s - m * n;
    assert(v * s >= 0 <==> v >= 0) by (nonlinear_arith)
        requires
            s > 0,
    ;
    assert(0 <= v * lost <= m * m) by (nonlinear_arith)
        requires
            -m <= v <= m,
            -m < lost < m,
            (v >= 0 ==> lost >= 0),
            (v <= 0 ==> lost <= 0),
    ;
    assert(0 <= lost * lost <= m * m) by (nonlinear_arith)
        requires
            -m < lost < m,
    ;
    let p = m * n;
    let x = v * s;
    assert(p * p == x * x - 2 * (x * lost) + lost * lost) by (nonlinear_arith)
        requires
            p == x - lost,
    ;
    assert(p * p == (m * m) * (n * n)) by (nonlinear_arith)
        requires
            p == m * n,
    ;
    assert(x * x == (s * s) * (v * v)) by (nonlinear_arith)
        requires
            x == v * s,
    ;
    assert(2 * (x * lost) == (2 * s) * (v * lost)) by (nonlinear_arith)
        requires
            x == v * s,
    ;
    assert((2 * s) * (v * lost) <= (2 * s) * (m * m)) by (nonlinear_arith)
        requires
            v * lost <= m * m,
            s > 0,
    ;
    assert(0 <= (2 * s) * (v * lost)) by (nonlinear_arith)
        requires
            0 <= v * lost,
            s > 0,
    ;
    n
}

/// Normalizing gives a tuple of length nearly one. Where the magnitude
/// `m` of `v` is at least the `k`-th part of one, the squared length of
/// the normalized tuple, taken over the raw components, falls short of the
/// square of `SCALE` by at most `8 * SCALE` and exceeds it by at most
/// `2 * SCALE * k + 4`. For a `v` at least as long as one, `k` is one, and
/// the squared length is within a hundred-millionth of one.
pub proof fn lemma_normalize_is_nearly_unit(v: Tuple, bound: int, k: int)
    requires
        within(v, bound),
        bound <= 4_000_000_000_000_000_000,
        1 <= k,
        SCALE <= v.magnitude_spec()@ * k,
    ensures
        SCALE * SCALE - 8 * SCALE <= v.normalize_spec().raw_dot(v.normalize_spec()) <= SCALE
            * SCALE + 2 * SCALE * k + 4,
{
    let s = SCALE as int;
    let m = v.magnitude_spec()@;
    let e = v.raw_dot(v);
    let n = v.normalize_spec();
    lemma_magnitude_brackets(v, bound);
    assert(m >= 1) by (nonlinear_arith)
        requires
            m >= 0,
            k >= 1,
            1_000_000_000 <= m * k,
    ;
    assert(-m <= v.x@ <= m && -m <= v.y@ <= m && -m <= v.z@ <= m && -m <= v.w@ <= m)
        by (nonlinear_arith)
        requires
            m >= 0,
            v.x@ * v.x@ + v.y@ * v.y@ + v.z@ * v.z@ + v.w@ * v.w@ < (m + 1) * (m + 1),
    ;
    let nx = lemma_normalized_component(s, m, v.x@);
    let ny = lemma_normalized_component(s, m, v.y@);
    let nz = lemma_normalized_component(s, m, v.z@);
    let nw = lemma_normalized_component(s, m, v.w@);
    assert(n.x@ == nx && n.y@ == ny && n.z@ == nz && n.w@ == nw);
    let total = n.raw_dot(n);
    let mm = m * m;
    let ss = s * s;
    assert(mm > 0) by (nonlinear_arith)
        requires
            mm == m * m,
            m >= 1,
    ;
    assert(mm * total == mm * (nx * nx) + mm * (ny * ny) + mm * (nz * nz) + mm * (nw * nw))
        by (nonlinear_arith)
        requires
            total == nx * nx + ny * ny + nz * nz + nw * nw,
    ;
    assert(ss * e == ss * (v.x@ * v.x@) + ss * (v.y@ * v.y@) + ss * (v.z@ * v.z@) + ss * (v.w@
        * v.w@)) by (nonlinear_arith)
        requires
            e == v.x@ * v.x@ + v.y@ * v.y@ + v.z@ * v.z@ + v.w@ * v.w@,
    ;
    let low = ss - 8 * s;
    let high = ss + 2 * s * k + 4;
    assert(ss * e - 4 * ((2 * s) * mm) <= mm * total <= ss * e + 4 * mm);
    assert(ss * mm <= ss * e) by (nonlinear_arith)
        requires
            mm <= e,
            ss >= 0,
    ;
    assert(low * mm == ss * mm - 4 * ((2 * s) * mm)) by (nonlinear_arith)
        requires
            low == ss - 8 * s,
    ;
    assert(low <= total) by (nonlinear_arith)
        requires
            low * mm <= mm * total,
            mm > 0,
    ;
    assert(e <= mm + 2 * m) by (nonlinear_arith)
        requires
            e < (m + 1) * (m + 1),
            mm == m * m,
    ;
    assert(ss * e <= ss * mm + ss * (2 * m)) by (nonlinear_arith)
        requires
            e <= mm + 2 * m,
            ss >= 0,
    ;
    let sk = s * k;
    assert(ss * (2 * m) <= (2 * sk) * mm) by (nonlinear_arith)
        requires
            s <= m * k,
            ss == s * s,
            mm == m * m,
            sk == s * k,
            s > 0,
            m > 0,
            k > 0,
    ;
    assert(high * mm == ss * mm + (2 * sk) * mm + 4 * mm) by (nonlinear_arith)
        requires
            high == ss + 2 * sk + 4,
    ;
    assert(total <= high) by (nonlinear_arith)
        requires
            mm * total <= high * mm,
            mm > 0,
    ;
}

} // verus!
