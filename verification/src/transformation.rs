//! Affine transformations that carry their own inverse.

use crate::matrix::Matrix;
use crate::scalar::Scalar;
use crate::tuple::Tuple;
use vstd::prelude::*;
use vstd::std_specs::cmp::PartialEqSpecImpl;

verus! {

/// A transformation from object space to world space, together with the
/// matrix that undoes it. It is built from the identity by translations and
/// scalings, each of which extends both matrices, so that no matrix is ever
/// inverted numerically.
#[derive(Clone, Copy, Debug)]
pub struct Transformation {
    matrix: Matrix,
    inverse: Matrix,
}

impl Transformation {
    /// The matrix from object space to world space.
    pub closed spec fn matrix_spec(self) -> Matrix {
        self.matrix
    }

    /// The matrix from world space to object space.
    pub closed spec fn inverse_spec(self) -> Matrix {
        self.inverse
    }

    /// The transformation that changes nothing.
    pub closed spec fn identity_spec() -> Transformation {
        Transformation { matrix: Matrix::identity_spec(), inverse: Matrix::identity_spec() }
    }

    /// `self` followed by a move by `(x, y, z)`.
    pub closed spec fn translation_spec(self, x: Scalar, y: Scalar, z: Scalar) -> Transformation {
        Transformation {
            matrix: Self::translation_matrix(x, y, z).mul_spec(self.matrix),
            inverse: self.inverse.mul_spec(
                Self::translation_matrix(x.neg_spec(), y.neg_spec(), z.neg_spec()),
            ),
        }
    }

    /// `self` followed by a stretch of the axes by `x`, `y` and `z`.
    pub closed spec fn scale_spec(self, x: Scalar, y: Scalar, z: Scalar) -> Transformation {
        Transformation {
            matrix: Self::scaling_matrix(x, y, z).mul_spec(self.matrix),
            inverse: self.inverse.mul_spec(
                Self::scaling_matrix(
                    Self::reciprocal(x),
                    Self::reciprocal(y),
                    Self::reciprocal(z),
                ),
            ),
        }
    }

    /// The matrix that moves a point by `(x, y, z)`.
    pub open spec fn translation_matrix(x: Scalar, y: Scalar, z: Scalar) -> Matrix {
        let o = Scalar::zero_spec();
        let i = Scalar::one_spec();
        Matrix {
            r0: Tuple { x: i, y: o, z: o, w: x },
            r1: Tuple { x: o, y: i, z: o, w: y },
            r2: Tuple { x: o, y: o, z: i, w: z },
            r3: Tuple { x: o, y: o, z: o, w: i },
        }
    }

    /// The matrix that stretches the three axes by `x`, `y` and `z`.
    pub open spec fn scaling_matrix(x: Scalar, y: Scalar, z: Scalar) -> Matrix {
        let o = Scalar::zero_spec();
        let i = Scalar::one_spec();
        Matrix {
            r0: Tuple { x: x, y: o, z: o, w: o },
            r1: Tuple { x: o, y: y, z: o, w: o },
            r2: Tuple { x: o, y: o, z: z, w: o },
            r3: Tuple { x: o, y: o, z: o, w: i },
        }
    }

    /// The reciprocal of `k`.
    pub open spec fn reciprocal(k: Scalar) -> Scalar {
        Scalar::one_spec().div_spec(k)
    }

    fn build_translation(x: Scalar, y: Scalar, z: Scalar) -> (r: Matrix)
        ensures
            r == Self::translation_matrix(x, y, z),
    {
        let o: Scalar = Scalar::zero();
        let i: Scalar = Scalar::one();
        Matrix {
            r0: Tuple { x: i, y: o, z: o, w: x },
            r1: Tuple { x: o, y: i, z: o, w: y },
            r2: Tuple { x: o, y: o, z: i, w: z },
            r3: Tuple { x: o, y: o, z: o, w: i },
        }
    }

    fn build_scaling(x: Scalar, y: Scalar, z: Scalar) -> (r: Matrix)
        ensures
            r == Self::scaling_matrix(x, y, z),
    {
        let o: Scalar = Scalar::zero();
        let i: Scalar = Scalar::one();
        Matrix {
            r0: Tuple { x: x, y: o, z: o, w: o },
            r1: Tuple { x: o, y: y, z: o, w: o },
            r2: Tuple { x: o, y: o, z: z, w: o },
            r3: Tuple { x: o, y: o, z: o, w: i },
        }
    }

    /// The transformation that changes nothing.
    pub fn identity() -> (r: Transformation)
        ensures
            r == Self::identity_spec(),
            r.matrix_spec() == Matrix::identity_spec(),
            r.inverse_spec() == Matrix::identity_spec(),
    {
        Transformation { matrix: Matrix::identity(), inverse: Matrix::identity() }
    }

    /// `self` followed by a move by `(x, y, z)`.
    pub fn translation(self, x: Scalar, y: Scalar, z: Scalar) -> (r: Transformation)
        ensures
            r == self.translation_spec(x, y, z),
            r.matrix_spec() == Self::translation_matrix(x, y, z).mul_spec(self.matrix_spec()),
            r.inverse_spec() == self.inverse_spec().mul_spec(
                Self::translation_matrix(x.neg_spec(), y.neg_spec(), z.neg_spec()),
            ),
    {
        let forward: Matrix = Self::build_translation(x, y, z);
        let back: Matrix = Self::build_translation(x.neg(), y.neg(), z.neg());
        Transformation { matrix: forward.mul(&self.matrix), inverse: self.inverse.mul(&back) }
    }

    /// `self` followed by a stretch of the axes by `x`, `y` and `z`. A factor
    /// of zero has no reciprocal: the largest scalar stands for it.
    pub fn scale(self, x: Scalar, y: Scalar, z: Scalar) -> (r: Transformation)
        ensures
            r == self.scale_spec(x, y, z),
            r.matrix_spec() == Self::scaling_matrix(x, y, z).mul_spec(self.matrix_spec()),
            r.inverse_spec() == self.inverse_spec().mul_spec(
                Self::scaling_matrix(
                    Self::reciprocal(x),
                    Self::reciprocal(y),
                    Self::reciprocal(z),
                ),
            ),
    {
        let forward: Matrix = Self::build_scaling(x, y, z);
        let i: Scalar = Scalar::one();
        let back: Matrix = Self::build_scaling(i.div(x), i.div(y), i.div(z));
        Transformation { matrix: forward.mul(&self.matrix), inverse: self.inverse.mul(&back) }
    }

    pub fn matrix(&self) -> (r: Matrix)
        ensures
            r == self.matrix_spec(),
    {
        self.matrix
    }

    pub fn inverse(&self) -> (r: Matrix)
        ensures
            r == self.inverse_spec(),
    {
        self.inverse
    }

    /// The transpose of the inverse, which carries surface normals from
    /// object space to world space.
    pub fn inverse_transpose(&self) -> (r: Matrix)
        ensures
            r == self.inverse_spec().transpose_spec(),
    {
        self.inverse.transpose()
    }
}

impl PartialEq for Transformation {
    /// Equality of the forward matrices up to the scalar tolerance.
    fn eq(&self, other: &Transformation) -> (r: bool) {
        self.matrix.approx_eq(&other.matrix)
    }
}

impl PartialEqSpecImpl for Transformation {
    open spec fn obeys_eq_spec() -> bool {
        true
    }

    open spec fn eq_spec(&self, other: &Transformation) -> bool {
        self.matrix_spec().approx_eq_spec(other.matrix_spec())
    }
}

} // verus!
