//! Points and vectors in homogeneous coordinates.

use crate::scalar::{
    integer_sqrt, is_isqrt, isqrt, lemma_isqrt_unique, lemma_mul_negate, lemma_mul_non_negative,
    scalar_of, Scalar, RAW_MAX,
};
use vstd::prelude::*;
use vstd::std_specs::cmp::PartialEqSpecImpl;

verus! {

/// A point (`w` is one) or a vector (`w` is zero).
#[derive(Clone, Copy, Debug)]
pub struct Tuple {
    pub x: Scalar,
    pub y: Scalar,
    pub z: Scalar,
    pub w: Scalar,
}

impl Tuple {
    pub open spec fn point_spec(x: Scalar, y: Scalar, z: Scalar) -> Tuple {
        Tuple { x, y, z, w: Scalar::one_spec() }
    }

    pub open spec fn vector_spec(x: Scalar, y: Scalar, z: Scalar) -> Tuple {
        Tuple { x, y, z, w: Scalar::zero_spec() }
    }

    pub open spec fn origin_spec() -> Tuple {
        Self::point_spec(Scalar::zero_spec(), Scalar::zero_spec(), Scalar::zero_spec())
    }

    /// Whether every component is exactly zero.
    pub open spec fn is_zero_spec(self) -> bool {
        self.x@ == 0 && self.y@ == 0 && self.z@ == 0 && self.w@ == 0
    }

    pub open spec fn approx_eq_spec(self, rhs: Tuple) -> bool {
        &&& self.x.approx_eq_spec(rhs.x)
        &&& self.y.approx_eq_spec(rhs.y)
        &&& self.z.approx_eq_spec(rhs.z)
        &&& self.w.approx_eq_spec(rhs.w)
    }

    pub open spec fn add_spec(self, rhs: Tuple) -> Tuple {
        Tuple {
            x: self.x.add_spec(rhs.x),
            y: self.y.add_spec(rhs.y),
            z: self.z.add_spec(rhs.z),
            w: self.w.add_spec(rhs.w),
        }
    }

    pub open spec fn sub_spec(self, rhs: Tuple) -> Tuple {
        Tuple {
            x: self.x.sub_spec(rhs.x),
            y: self.y.sub_spec(rhs.y),
            z: self.z.sub_spec(rhs.z),
            w: self.w.sub_spec(rhs.w),
        }
    }

    pub open spec fn neg_spec(self) -> Tuple {
        Tuple {
            x: self.x.neg_spec(),
            y: self.y.neg_spec(),
            z: self.z.neg_spec(),
            w: self.w.neg_spec(),
        }
    }

    /// Every component multiplied by `k`.
    pub open spec fn scale_spec(self, k: Scalar) -> Tuple {
        Tuple {
            x: self.x.mul_spec(k),
            y: self.y.mul_spec(k),
            z: self.z.mul_spec(k),
            w: self.w.mul_spec(k),
        }
    }

    /// Every component divided by `k`.
    pub open spec fn shrink_spec(self, k: Scalar) -> Tuple {
        Tuple {
            x: self.x.div_spec(k),
            y: self.y.div_spec(k),
            z: self.z.div_spec(k),
            w: self.w.div_spec(k),
        }
    }

    /// The dot product: the four componentwise products, summed left to
    /// right.
    pub open spec fn dot_spec(self, rhs: Tuple) -> Scalar {
        self.x.mul_spec(rhs.x).add_spec(self.y.mul_spec(rhs.y)).add_spec(
            self.z.mul_spec(rhs.z),
        ).add_spec(self.w.mul_spec(rhs.w))
    }

    /// The dot product of the raw components, before any rounding: the
    /// true dot product times the square of `SCALE`.
    pub open spec fn raw_dot(self, rhs: Tuple) -> int {
        self.x@ * rhs.x@ + self.y@ * rhs.y@ + self.z@ * rhs.z@ + self.w@ * rhs.w@
    }

    /// The length: the integer square root of the sum of the squares of
    /// the raw components, so rounded down once and no more.
    pub open spec fn magnitude_spec(self) -> Scalar {
        scalar_of(isqrt(self.raw_dot(self)))
    }

    /// The tuple divided by its magnitude.
    pub open spec fn normalize_spec(self) -> Tuple {
        self.shrink_spec(self.magnitude_spec())
    }

    /// The reflection of `self` about `normal`: `self - normal * 2 (self . normal)`.
    pub open spec fn reflect_spec(self, normal: Tuple) -> Tuple {
        self.sub_spec(
            normal.scale_spec(Scalar::two_spec().mul_spec(self.dot_spec(normal))),
        )
    }

    pub fn new(x: Scalar, y: Scalar, z: Scalar, w: Scalar) -> (r: Tuple)
        ensures
            r == (Tuple { x, y, z, w }),
    {
        Tuple { x, y, z, w }
    }

    pub fn point(x: Scalar, y: Scalar, z: Scalar) -> (r: Tuple)
        ensures
            r == Self::point_spec(x, y, z),
    {
        Tuple { x, y, z, w: Scalar::one() }
    }

    pub fn vector(x: Scalar, y: Scalar, z: Scalar) -> (r: Tuple)
        ensures
            r == Self::vector_spec(x, y, z),
    {
        Tuple { x, y, z, w: Scalar::zero() }
    }

    pub fn origin() -> (r: Tuple)
        ensures
            r == Self::origin_spec(),
    {
        Self::point(Scalar::zero(), Scalar::zero(), Scalar::zero())
    }

    pub fn is_zero(&self) -> (r: bool)
        ensures
            r == self.is_zero_spec(),
    {
        self.x.raw == 0 && self.y.raw == 0 && self.z.raw == 0 && self.w.raw == 0
    }

    pub fn approx_eq(&self, rhs: &Tuple) -> (r: bool)
        ensures
            r == self.approx_eq_spec(*rhs),
    {
        self.x.approx_eq(rhs.x) && self.y.approx_eq(rhs.y) && self.z.approx_eq(rhs.z)
            && self.w.approx_eq(rhs.w)
    }

    pub fn add(self, rhs: Tuple) -> (r: Tuple)
        ensures
            r == self.add_spec(rhs),
    {
        Tuple {
            x: self.x.add(rhs.x),
            y: self.y.add(rhs.y),
            z: self.z.add(rhs.z),
            w: self.w.add(rhs.w),
        }
    }

    pub fn sub(self, rhs: Tuple) -> (r: Tuple)
        ensures
            r == self.sub_spec(rhs),
    {
        Tuple {
            x: self.x.sub(rhs.x),
            y: self.y.sub(rhs.y),
            z: self.z.sub(rhs.z),
            w: self.w.sub(rhs.w),
        }
    }

    pub fn neg(self) -> (r: Tuple)
        ensures
            r == self.neg_spec(),
    {
        Tuple { x: self.x.neg(), y: self.y.neg(), z: self.z.neg(), w: self.w.neg() }
    }

    pub fn scale(self, k: Scalar) -> (r: Tuple)
        ensures
            r == self.scale_spec(k),
    {
        Tuple { x: self.x.mul(k), y: self.y.mul(k), z: self.z.mul(k), w: self.w.mul(k) }
    }

    pub fn shrink(self, k: Scalar) -> (r: Tuple)
        ensures
            r == self.shrink_spec(k),
    {
        Tuple { x: self.x.div(k), y: self.y.div(k), z: self.z.div(k), w: self.w.div(k) }
    }

    pub fn dot(self, rhs: Tuple) -> (r: Scalar)
        ensures
            r == self.dot_spec(rhs),
    {
        self.x.mul(rhs.x).add(self.y.mul(rhs.y)).add(self.z.mul(rhs.z)).add(self.w.mul(rhs.w))
    }

    pub fn magnitude(self) -> (r: Scalar)
        ensures
            r == self.magnitude_spec(),
    {
        let front: u128 = square_wide(self.x.raw) + square_wide(self.y.raw);
        let back: u128 = square_wide(self.z.raw) + square_wide(self.w.raw);
        let half: u128 = 0x8000_0000_0000_0000_0000_0000_0000_0000;
        if front == half && back == half {
            proof {
                let top: int = 0x1_0000_0000_0000_0000;
                assert(top * top == 0x1_0000_0000_0000_0000_0000_0000_0000_0000int);
                assert((top + 1) * (top + 1) > top * top) by (nonlinear_arith)
                    requires
                        top > 0,
                ;
                assert(is_isqrt(self.raw_dot(self), top));
                lemma_isqrt_unique(self.raw_dot(self), top, isqrt(self.raw_dot(self)));
            }
            Scalar { raw: RAW_MAX }
        } else {
            let root: u128 = integer_sqrt(front + back);
            if root > RAW_MAX as u128 {
                Scalar { raw: RAW_MAX }
            } else {
                Scalar { raw: root as i64 }
            }
        }
    }

    pub fn normalize(self) -> (r: Tuple)
        ensures
            r == self.normalize_spec(),
    {
        self.shrink(self.magnitude())
    }

    pub fn reflect(self, normal: Tuple) -> (r: Tuple)
        ensures
            r == self.reflect_spec(normal),
    {
        let twice: Scalar = Scalar::two().mul(self.dot(normal));
        self.sub(normal.scale(twice))
    }
}

/// The square of a raw value, which always fits in 128 bits.
fn square_wide(raw: i64) -> (r: u128)
    ensures
        r == raw * raw,
        r <= 0x4000_0000_0000_0000_0000_0000_0000_0000,
{
    let wide: i128 = raw as i128;
    let size: u128 = if wide < 0 {
        (-wide) as u128
    } else {
        wide as u128
    };
    assert(size * size == raw * raw && size * size <= 0x4000_0000_0000_0000_0000_0000_0000_0000)
        by (nonlinear_arith)
        requires
            size == raw || size == -raw,
            0 <= size <= 0x8000_0000_0000_0000,
    ;
    size * size
}

/// Whether no raw component of `v` exceeds `bound` in magnitude.
pub open spec fn within(v: Tuple, bound: int) -> bool {
    &&& -bound <= v.x@ <= bound
    &&& -bound <= v.y@ <= bound
    &&& -bound <= v.z@ <= bound
    &&& -bound <= v.w@ <= bound
}

/// Reversing a tuple whose components lie in the symmetric range reverses
/// the sign of its dot product with any other.
pub proof fn lemma_dot_negate(n: Tuple, e: Tuple)
    requires
        within(n, RAW_MAX as int),
    ensures
        n.neg_spec().dot_spec(e)@ == -n.dot_spec(e)@,
{
    lemma_mul_negate(n.x, e.x);
    lemma_mul_negate(n.y, e.y);
    lemma_mul_negate(n.z, e.z);
    lemma_mul_negate(n.w, e.w);
}

/// A tuple dotted with itself is not negative.
pub proof fn lemma_dot_self_non_negative(t: Tuple)
    ensures
        t.dot_spec(t)@ >= 0,
{
    lemma_mul_non_negative(t.x, t.x);
    lemma_mul_non_negative(t.y, t.y);
    lemma_mul_non_negative(t.z, t.z);
    lemma_mul_non_negative(t.w, t.w);
}

impl PartialEq for Tuple {
    /// Equality up to the tolerance of `Scalar::approx_eq`, per component.
    fn eq(&self, other: &Tuple) -> (r: bool) {
        self.approx_eq(other)
    }
}

impl PartialEqSpecImpl for Tuple {
    open spec fn obeys_eq_spec() -> bool {
        true
    }

    open spec fn eq_spec(&self, other: &Tuple) -> bool {
        self.approx_eq_spec(*other)
    }
}

} // verus!
