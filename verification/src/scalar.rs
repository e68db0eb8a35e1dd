//! Fixed-point real numbers.
//!
//! A [`Scalar`] stores a real number as a signed count of billionths. Every
//! operation is total: results that do not fit are clamped to the symmetric
//! range `[-RAW_MAX, RAW_MAX]`, and quotients and products are rounded toward
//! zero, so that negation commutes with every operation.

use vstd::arithmetic::div_mod::{lemma_div_is_ordered, lemma_div_pos_is_pos};
use vstd::prelude::*;

verus! {

/// Raw units per whole unit.
pub const SCALE: i64 = 1_000_000_000;

/// Largest raw magnitude that an operation produces.
pub const RAW_MAX: i64 = 9_223_372_036_854_775_807;

/// Two scalars closer than this many raw units are approximately equal.
pub const EPSILON_RAW: i64 = 10_000;

/// `v` limited to the symmetric range `[-RAW_MAX, RAW_MAX]`.
pub open spec fn clamp(v: int) -> int {
    if v > RAW_MAX {
        RAW_MAX as int
    } else if v < -RAW_MAX {
        -RAW_MAX
    } else {
        v
    }
}

/// Absolute value of an integer.
pub open spec fn magnitude_of(v: int) -> int {
    if v < 0 {
        -v
    } else {
        v
    }
}

/// The quotient of `a` by `b` rounded toward zero; `0` when `b` is `0`.
pub open spec fn trunc_div(a: int, b: int) -> int {
    if b == 0 {
        0
    } else if (a >= 0) == (b > 0) {
        magnitude_of(a) / magnitude_of(b)
    } else {
        -(magnitude_of(a) / magnitude_of(b))
    }
}

/// `r` is the integer square root of `n`: the largest integer whose square
/// does not exceed `n`.
pub open spec fn is_isqrt(n: int, r: int) -> bool {
    0 <= r && r * r <= n < (r + 1) * (r + 1)
}

/// The integer square root of a non-negative `n`.
pub open spec fn isqrt(n: int) -> int {
    choose|r: int| is_isqrt(n, r)
}

/// A number has at most one integer square root.
pub proof fn lemma_isqrt_unique(n: int, r: int, s: int)
    requires
        is_isqrt(n, r),
        is_isqrt(n, s),
    ensures
        r == s,
{
    if r < s {
        assert((r + 1) * (r + 1) <= s * s) by (nonlinear_arith)
            requires
                0 <= r + 1 <= s,
        ;
    }
    if s < r {
        assert((s + 1) * (s + 1) <= r * r) by (nonlinear_arith)
            requires
                0 <= s + 1 <= r,
        ;
    }
}

/// Every non-negative number has an integer square root.
pub proof fn lemma_isqrt_exists(n: int)
    requires
        0 <= n,
    ensures
        is_isqrt(n, isqrt(n)),
    decreases n,
{
    if n == 0 {
        assert(is_isqrt(0, 0));
    } else {
        lemma_isqrt_exists(n - 1);
        let r = isqrt(n - 1);
        if (r + 1) * (r + 1) <= n {
            assert((r + 1) * (r + 1) < (r + 2) * (r + 2)) by (nonlinear_arith)
                requires
                    0 <= r,
            ;
            assert(is_isqrt(n, r + 1));
        } else {
            assert(is_isqrt(n, r));
        }
    }
}

/// Rounding toward zero keeps the order of the dividends, for a positive
/// divisor.
pub proof fn lemma_trunc_div_monotone(a: int, b: int, d: int)
    requires
        a <= b,
        0 < d,
    ensures
        trunc_div(a, d) <= trunc_div(b, d),
{
    if a >= 0 {
        lemma_div_is_ordered(a, b, d);
    } else if b >= 0 {
        lemma_div_pos_is_pos(-a, d);
        lemma_div_pos_is_pos(b, d);
    } else {
        lemma_div_is_ordered(-b, -a, d);
    }
}

/// Rounding toward zero commutes with negation of the dividend.
pub proof fn lemma_trunc_div_negate(a: int, d: int)
    requires
        0 < d,
    ensures
        trunc_div(-a, d) == -trunc_div(a, d),
{
    if a == 0 {
        assert(0int / d == 0) by (nonlinear_arith)
            requires
                0 < d,
        ;
    }
}

/// Negating one factor, where its negation is exact, negates the rounded
/// product.
pub proof fn lemma_mul_negate(a: Scalar, b: Scalar)
    requires
        -RAW_MAX <= a@ <= RAW_MAX,
    ensures
        a.neg_spec().mul_spec(b)@ == -a.mul_spec(b)@,
{
    assert((-a@) * b@ == -(a@ * b@)) by (nonlinear_arith);
    lemma_trunc_div_negate(a@ * b@, SCALE as int);
}

/// A product of two scalars of the same sign is not negative.
pub proof fn lemma_mul_non_negative(a: Scalar, b: Scalar)
    requires
        (a@ >= 0 && b@ >= 0) || (a@ <= 0 && b@ <= 0),
    ensures
        a.mul_spec(b)@ >= 0,
{
    assert(a@ * b@ >= 0) by (nonlinear_arith)
        requires
            (a@ >= 0 && b@ >= 0) || (a@ <= 0 && b@ <= 0),
    ;
    lemma_div_pos_is_pos(a@ * b@, SCALE as int);
}

/// A square root is not negative.
pub proof fn lemma_sqrt_non_negative(a: Scalar)
    ensures
        a.sqrt_spec()@ >= 0,
{
    if a@ > 0 {
        assert(a@ * SCALE >= 0) by (nonlinear_arith)
            requires
                a@ > 0,
                SCALE > 0,
        ;
        lemma_isqrt_exists(a@ * SCALE);
    }
}

/// Taking a non-negative scalar away gives no more than adding it.
pub proof fn lemma_sub_add_ordered(a: Scalar, b: Scalar)
    requires
        b@ >= 0,
    ensures
        a.sub_spec(b)@ <= a.add_spec(b)@,
{
}

/// Division by a non-negative scalar keeps the order of the dividends.
pub proof fn lemma_div_monotone(a: Scalar, b: Scalar, d: Scalar)
    requires
        a@ <= b@,
        d@ >= 0,
    ensures
        a.div_spec(d)@ <= b.div_spec(d)@,
{
    if d@ > 0 {
        assert(a@ * SCALE <= b@ * SCALE) by (nonlinear_arith)
            requires
                a@ <= b@,
                SCALE > 0,
        ;
        lemma_trunc_div_monotone(a@ * SCALE, b@ * SCALE, d@);
    }
}

/// Number of binary digits of a fractional exponent that `powf` honours.
pub const FRACTION_BITS: u32 = 32;

/// A fixed-point number: `raw` billionths.
#[derive(Clone, Copy, Debug, PartialEq, Eq, Structural)]
pub struct Scalar {
    pub raw: i64,
}

impl View for Scalar {
    type V = int;

    open spec fn view(&self) -> int {
        self.raw as int
    }
}

/// The scalar whose raw value is `v` clamped.
pub open spec fn scalar_of(v: int) -> Scalar {
    Scalar { raw: clamp(v) as i64 }
}

fn saturate(v: i128) -> (r: Scalar)
    ensures
        r == scalar_of(v as int),
{
    if v > RAW_MAX as i128 {
        Scalar { raw: RAW_MAX }
    } else if v < -(RAW_MAX as i128) {
        Scalar { raw: -RAW_MAX }
    } else {
        Scalar { raw: v as i64 }
    }
}

fn quotient(a: i128, b: i128) -> (q: i128)
    requires
        b != 0,
        a > i128::MIN,
        b > i128::MIN,
    ensures
        q == trunc_div(a as int, b as int),
{
    if b > 0 {
        a / b
    } else {
        -(a / (-b))
    }
}

/// `raw` times `SCALE`, which always fits in 128 bits.
fn scaled(raw: i64) -> (r: i128)
    ensures
        r == raw * SCALE,
        -0x4000_0000_0000_0000_0000_0000 < r < 0x4000_0000_0000_0000_0000_0000,
{
    let wide: i128 = raw as i128;
    assert(-0x8000_0000_0000_0000 * 1_000_000_000 <= wide * 1_000_000_000
        <= 0x8000_0000_0000_0000 * 1_000_000_000);
    wide * 1_000_000_000
}

/// The integer square root of `n`: the largest integer whose square does
/// not exceed `n`.
pub fn integer_sqrt(n: u128) -> (r: u128)
    ensures
        is_isqrt(n as int, r as int),
        r == isqrt(n as int),
        r <= 0xffff_ffff_ffff_ffff,
{
    let mut lo: u128 = 0;
    let mut hi: u128 = 0x1_0000_0000_0000_0000;
    assert(0x1_0000_0000_0000_0000int * 0x1_0000_0000_0000_0000int
        == 0x1_0000_0000_0000_0000_0000_0000_0000_0000int);
    while hi - lo > 1
        invariant
            lo < hi <= 0x1_0000_0000_0000_0000,
            lo * lo <= n < hi * hi,
        decreases hi - lo,
    {
        let mid: u128 = lo + (hi - lo) / 2;
        assert(mid * mid <= 0xffff_ffff_ffff_ffff * 0xffff_ffff_ffff_ffff) by (nonlinear_arith)
            requires
                0 <= mid <= 0xffff_ffff_ffff_ffff,
        ;
        if mid * mid <= n {
            lo = mid;
        } else {
            hi = mid;
        }
    }
    proof {
        assert(hi == lo + 1);
        assert(is_isqrt(n as int, lo as int));
        lemma_isqrt_unique(n as int, lo as int, isqrt(n as int));
    }
    lo
}

impl Scalar {
    pub open spec fn zero_spec() -> Scalar {
        Scalar { raw: 0 }
    }

    pub open spec fn one_spec() -> Scalar {
        Scalar { raw: SCALE }
    }

    pub open spec fn two_spec() -> Scalar {
        Scalar { raw: 2_000_000_000 }
    }

    pub open spec fn four_spec() -> Scalar {
        Scalar { raw: 4_000_000_000 }
    }

    pub open spec fn abs_spec(self) -> Scalar {
        scalar_of(magnitude_of(self@))
    }

    /// Whether the two differ by less than the tolerance.
    pub open spec fn approx_eq_spec(self, rhs: Scalar) -> bool {
        magnitude_of(self@ - rhs@) < EPSILON_RAW
    }

    /// The square root, rounded down; `0` for a negative number.
    pub open spec fn sqrt_spec(self) -> Scalar {
        if self@ <= 0 {
            Scalar { raw: 0 }
        } else {
            scalar_of(isqrt(self@ * SCALE))
        }
    }

    /// `acc` times `base` to the power `n`, by repeated squaring from the
    /// lowest binary digit of `n` up, each product rounded.
    pub open spec fn pow_whole(acc: Scalar, base: Scalar, n: nat) -> Scalar
        decreases n,
    {
        if n == 0 {
            acc
        } else {
            Self::pow_whole(
                if n % 2 == 1 {
                    acc.mul_spec(base)
                } else {
                    acc
                },
                base.mul_spec(base),
                n / 2,
            )
        }
    }

    /// `acc` times `root` to the power `f / SCALE`, for `0 <= f < SCALE`, over
    /// the first `bits` binary digits of that fraction: digit `i` contributes
    /// the `i`-th iterated square root of `root`.
    pub open spec fn pow_fraction(acc: Scalar, root: Scalar, f: int, bits: nat) -> Scalar
        decreases bits,
    {
        if bits == 0 || f <= 0 {
            acc
        } else {
            let r = root.sqrt_spec();
            if 2 * f >= SCALE {
                Self::pow_fraction(acc.mul_spec(r), r, 2 * f - SCALE, (bits - 1) as nat)
            } else {
                Self::pow_fraction(acc, r, 2 * f, (bits - 1) as nat)
            }
        }
    }

    /// `self` to the power `e / SCALE`, for `e >= 0`.
    pub open spec fn pow_magnitude(self, e: int) -> Scalar {
        Self::pow_fraction(
            Self::pow_whole(Self::one_spec(), self, (e / (SCALE as int)) as nat),
            self,
            e % (SCALE as int),
            FRACTION_BITS as nat,
        )
    }

    /// `self` to the power `exp`; a negative exponent gives the reciprocal.
    pub open spec fn powf_spec(self, exp: Scalar) -> Scalar {
        if exp@ >= 0 {
            self.pow_magnitude(exp@)
        } else {
            Self::one_spec().div_spec(self.pow_magnitude(-exp@))
        }
    }

    pub open spec fn add_spec(self, rhs: Scalar) -> Scalar {
        scalar_of(self@ + rhs@)
    }

    pub open spec fn sub_spec(self, rhs: Scalar) -> Scalar {
        scalar_of(self@ - rhs@)
    }

    pub open spec fn neg_spec(self) -> Scalar {
        scalar_of(-self@)
    }

    pub open spec fn mul_spec(self, rhs: Scalar) -> Scalar {
        scalar_of(trunc_div(self@ * rhs@, SCALE as int))
    }

    /// Division by zero gives the extreme of the dividend's sign.
    pub open spec fn div_spec(self, rhs: Scalar) -> Scalar {
        if rhs@ == 0 {
            if self@ > 0 {
                scalar_of(RAW_MAX as int)
            } else if self@ < 0 {
                scalar_of(-RAW_MAX)
            } else {
                scalar_of(0)
            }
        } else {
            scalar_of(trunc_div(self@ * SCALE, rhs@))
        }
    }

    pub fn add(self, rhs: Scalar) -> (r: Scalar)
        ensures
            r == self.add_spec(rhs),
    {
        saturate(self.raw as i128 + rhs.raw as i128)
    }

    pub fn sub(self, rhs: Scalar) -> (r: Scalar)
        ensures
            r == self.sub_spec(rhs),
    {
        saturate(self.raw as i128 - rhs.raw as i128)
    }

    pub fn neg(self) -> (r: Scalar)
        ensures
            r == self.neg_spec(),
    {
        saturate(-(self.raw as i128))
    }

    pub fn mul(self, rhs: Scalar) -> (r: Scalar)
        ensures
            r == self.mul_spec(rhs),
    {
        let a: i128 = self.raw as i128;
        let b: i128 = rhs.raw as i128;
        assert(-0x4000_0000_0000_0000_0000_0000_0000_0000 <= a * b
            <= 0x4000_0000_0000_0000_0000_0000_0000_0000) by (nonlinear_arith)
            requires
                -0x8000_0000_0000_0000 <= a <= 0x8000_0000_0000_0000,
                -0x8000_0000_0000_0000 <= b <= 0x8000_0000_0000_0000,
        ;
        saturate(quotient(a * b, SCALE as i128))
    }

    pub fn div(self, rhs: Scalar) -> (r: Scalar)
        ensures
            r == self.div_spec(rhs),
    {
        if rhs.raw == 0 {
            if self.raw > 0 {
                Scalar { raw: RAW_MAX }
            } else if self.raw < 0 {
                Scalar { raw: -RAW_MAX }
            } else {
                Scalar { raw: 0 }
            }
        } else {
            saturate(quotient(scaled(self.raw), rhs.raw as i128))
        }
    }

    pub fn zero() -> (r: Scalar)
        ensures
            r == Self::zero_spec(),
    {
        Scalar { raw: 0 }
    }

    pub fn one() -> (r: Scalar)
        ensures
            r == Self::one_spec(),
    {
        Scalar { raw: SCALE }
    }

    pub fn two() -> (r: Scalar)
        ensures
            r == Self::two_spec(),
    {
        Scalar { raw: 2_000_000_000 }
    }

    pub fn four() -> (r: Scalar)
        ensures
            r == Self::four_spec(),
    {
        Scalar { raw: 4_000_000_000 }
    }

    /// The scalar of `raw` billionths.
    pub fn from_raw(raw: i64) -> (r: Scalar)
        ensures
            r.raw == raw,
    {
        Scalar { raw }
    }

    /// The whole number `n`.
    pub fn from_int(n: i64) -> (r: Scalar)
        ensures
            r == scalar_of(n * SCALE),
    {
        saturate(scaled(n))
    }

    /// The fraction `num / den`, rounded toward zero.
    pub fn from_ratio(num: i64, den: i64) -> (r: Scalar)
        ensures
            r == (Scalar { raw: num }).div_spec(Scalar { raw: den }),
    {
        (Scalar { raw: num }).div(Scalar { raw: den })
    }

    pub fn raw(self) -> (r: i64)
        ensures
            r == self.raw,
    {
        self.raw
    }

    pub fn abs(self) -> (r: Scalar)
        ensures
            r == self.abs_spec(),
    {
        if self.raw < 0 {
            self.neg()
        } else {
            self
        }
    }

    pub fn approx_eq(self, rhs: Scalar) -> (r: bool)
        ensures
            r == self.approx_eq_spec(rhs),
    {
        let d: i128 = self.raw as i128 - rhs.raw as i128;
        if d < 0 {
            -d < EPSILON_RAW as i128
        } else {
            d < EPSILON_RAW as i128
        }
    }

    pub fn sqrt(self) -> (r: Scalar)
        ensures
            r == self.sqrt_spec(),
    {
        if self.raw <= 0 {
            Scalar { raw: 0 }
        } else {
            let root: u128 = integer_sqrt(scaled(self.raw) as u128);
            proof {
                let n = self.raw * SCALE;
                assert(root < 0x8000_0000_0000) by (nonlinear_arith)
                    requires
                        0 <= root,
                        root * root <= n,
                        n < 0x4000_0000_0000_0000_0000_0000,
                ;
            }
            Scalar { raw: root as i64 }
        }
    }

    fn pow_unsigned(self, e: u64) -> (r: Scalar)
        ensures
            r == self.pow_magnitude(e as int),
    {
        let mut n: u64 = e / (SCALE as u64);
        let mut acc: Scalar = Scalar { raw: SCALE };
        let mut base: Scalar = self;
        while n > 0
            invariant
                Self::pow_whole(acc, base, n as nat) == Self::pow_whole(
                    Self::one_spec(),
                    self,
                    (e as int / (SCALE as int)) as nat,
                ),
            decreases n,
        {
            if n % 2 == 1 {
                acc = acc.mul(base);
            }
            base = base.mul(base);
            n = n / 2;
        }
        let mut f: u64 = e % (SCALE as u64);
        let mut bits: u32 = FRACTION_BITS;
        let mut root: Scalar = self;
        while bits > 0 && f > 0
            invariant
                f < SCALE,
                Self::pow_fraction(acc, root, f as int, bits as nat) == self.pow_magnitude(
                    e as int,
                ),
            decreases bits,
        {
            root = root.sqrt();
            f = 2 * f;
            if f >= SCALE as u64 {
                acc = acc.mul(root);
                f = f - SCALE as u64;
            }
            bits = bits - 1;
        }
        acc
    }

    pub fn powf(self, exp: Scalar) -> (r: Scalar)
        ensures
            r == self.powf_spec(exp),
    {
        if exp.raw >= 0 {
            self.pow_unsigned(exp.raw as u64)
        } else {
            let e: i128 = -(exp.raw as i128);
            Self::one().div(self.pow_unsigned(e as u64))
        }
    }
}

} // verus!
