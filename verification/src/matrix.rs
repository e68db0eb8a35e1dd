//! Four-by-four matrices, stored by rows.

use crate::scalar::Scalar;
use crate::tuple::Tuple;
use vstd::prelude::*;
use vstd::std_specs::cmp::PartialEqSpecImpl;

verus! {

/// A matrix of four rows of four entries.
#[derive(Clone, Copy, Debug)]
pub struct Matrix {
    pub r0: Tuple,
    pub r1: Tuple,
    pub r2: Tuple,
    pub r3: Tuple,
}

impl Matrix {
    pub open spec fn identity_spec() -> Matrix {
        let o = Scalar::zero_spec();
        let i = Scalar::one_spec();
        Matrix {
            r0: Tuple { x: i, y: o, z: o, w: o },
            r1: Tuple { x: o, y: i, z: o, w: o },
            r2: Tuple { x: o, y: o, z: i, w: o },
            r3: Tuple { x: o, y: o, z: o, w: i },
        }
    }

    /// Rows and columns exchanged.
    pub open spec fn transpose_spec(self) -> Matrix {
        Matrix {
            r0: Tuple { x: self.r0.x, y: self.r1.x, z: self.r2.x, w: self.r3.x },
            r1: Tuple { x: self.r0.y, y: self.r1.y, z: self.r2.y, w: self.r3.y },
            r2: Tuple { x: self.r0.z, y: self.r1.z, z: self.r2.z, w: self.r3.z },
            r3: Tuple { x: self.r0.w, y: self.r1.w, z: self.r2.w, w: self.r3.w },
        }
    }

    /// The matrix applied to a column: each row's dot product with `t`.
    pub open spec fn apply_spec(self, t: Tuple) -> Tuple {
        Tuple {
            x: self.r0.dot_spec(t),
            y: self.r1.dot_spec(t),
            z: self.r2.dot_spec(t),
            w: self.r3.dot_spec(t),
        }
    }

    /// The matrix product `self * rhs`: entry `(i, j)` is row `i` of `self`
    /// dotted with column `j` of `rhs`.
    pub open spec fn mul_spec(self, rhs: Matrix) -> Matrix {
        let c = rhs.transpose_spec();
        Matrix {
            r0: c.apply_spec(self.r0),
            r1: c.apply_spec(self.r1),
            r2: c.apply_spec(self.r2),
            r3: c.apply_spec(self.r3),
        }
    }

    pub open spec fn approx_eq_spec(self, rhs: Matrix) -> bool {
        &&& self.r0.approx_eq_spec(rhs.r0)
        &&& self.r1.approx_eq_spec(rhs.r1)
        &&& self.r2.approx_eq_spec(rhs.r2)
        &&& self.r3.approx_eq_spec(rhs.r3)
    }

    pub fn new(r0: Tuple, r1: Tuple, r2: Tuple, r3: Tuple) -> (r: Matrix)
        ensures
            r == (Matrix { r0, r1, r2, r3 }),
    {
        Matrix { r0, r1, r2, r3 }
    }

    pub fn identity() -> (r: Matrix)
        ensures
            r == Self::identity_spec(),
    {
        let o: Scalar = Scalar::zero();
        let i: Scalar = Scalar::one();
        Matrix {
            r0: Tuple { x: i, y: o, z: o, w: o },
            r1: Tuple { x: o, y: i, z: o, w: o },
            r2: Tuple { x: o, y: o, z: i, w: o },
            r3: Tuple { x: o, y: o, z: o, w: i },
        }
    }

    pub fn transpose(&self) -> (r: Matrix)
        ensures
            r == self.transpose_spec(),
    {
        Matrix {
            r0: Tuple { x: self.r0.x, y: self.r1.x, z: self.r2.x, w: self.r3.x },
            r1: Tuple { x: self.r0.y, y: self.r1.y, z: self.r2.y, w: self.r3.y },
            r2: Tuple { x: self.r0.z, y: self.r1.z, z: self.r2.z, w: self.r3.z },
            r3: Tuple { x: self.r0.w, y: self.r1.w, z: self.r2.w, w: self.r3.w },
        }
    }

    pub fn apply(&self, t: Tuple) -> (r: Tuple)
        ensures
            r == self.apply_spec(t),
    {
        Tuple { x: self.r0.dot(t), y: self.r1.dot(t), z: self.r2.dot(t), w: self.r3.dot(t) }
    }

    pub fn mul(&self, rhs: &Matrix) -> (r: Matrix)
        ensures
            r == self.mul_spec(*rhs),
    {
        let c: Matrix = rhs.transpose();
        Matrix {
            r0: c.apply(self.r0),
            r1: c.apply(self.r1),
            r2: c.apply(self.r2),
            r3: c.apply(self.r3),
        }
    }

    pub fn approx_eq(&self, rhs: &Matrix) -> (r: bool)
        ensures
            r == self.approx_eq_spec(*rhs),
    {
        self.r0.approx_eq(&rhs.r0) && self.r1.approx_eq(&rhs.r1) && self.r2.approx_eq(&rhs.r2)
            && self.r3.approx_eq(&rhs.r3)
    }
}

impl PartialEq for Matrix {
    /// Equality up to the tolerance of `Scalar::approx_eq`, per entry.
    fn eq(&self, other: &Matrix) -> (r: bool) {
        self.approx_eq(other)
    }
}

impl PartialEqSpecImpl for Matrix {
    open spec fn obeys_eq_spec() -> bool {
        true
    }

    open spec fn eq_spec(&self, other: &Matrix) -> bool {
        self.approx_eq_spec(*other)
    }
}

} // verus!
