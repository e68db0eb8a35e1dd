//! Colors as red, green and blue intensities.

use crate::scalar::Scalar;
use vstd::prelude::*;
use vstd::std_specs::cmp::PartialEqSpecImpl;

verus! {

/// A color; components are not limited to a displayable range.
#[derive(Clone, Copy, Debug)]
pub struct Color {
    pub red: Scalar,
    pub green: Scalar,
    pub blue: Scalar,
}

impl Color {
    pub open spec fn black_spec() -> Color {
        Color { red: Scalar::zero_spec(), green: Scalar::zero_spec(), blue: Scalar::zero_spec() }
    }

    pub open spec fn white_spec() -> Color {
        Color { red: Scalar::one_spec(), green: Scalar::one_spec(), blue: Scalar::one_spec() }
    }

    pub open spec fn approx_eq_spec(self, rhs: Color) -> bool {
        &&& self.red.approx_eq_spec(rhs.red)
        &&& self.green.approx_eq_spec(rhs.green)
        &&& self.blue.approx_eq_spec(rhs.blue)
    }

    pub open spec fn add_spec(self, rhs: Color) -> Color {
        Color {
            red: self.red.add_spec(rhs.red),
            green: self.green.add_spec(rhs.green),
            blue: self.blue.add_spec(rhs.blue),
        }
    }

    /// The componentwise product.
    pub open spec fn mul_spec(self, rhs: Color) -> Color {
        Color {
            red: self.red.mul_spec(rhs.red),
            green: self.green.mul_spec(rhs.green),
            blue: self.blue.mul_spec(rhs.blue),
        }
    }

    /// Every component multiplied by `k`.
    pub open spec fn scale_spec(self, k: Scalar) -> Color {
        Color {
            red: self.red.mul_spec(k),
            green: self.green.mul_spec(k),
            blue: self.blue.mul_spec(k),
        }
    }

    pub fn new(red: Scalar, green: Scalar, blue: Scalar) -> (r: Color)
        ensures
            r == (Color { red, green, blue }),
    {
        Color { red, green, blue }
    }

    pub fn black() -> (r: Color)
        ensures
            r == Self::black_spec(),
    {
        Color { red: Scalar::zero(), green: Scalar::zero(), blue: Scalar::zero() }
    }

    pub fn white() -> (r: Color)
        ensures
            r == Self::white_spec(),
    {
        Color { red: Scalar::one(), green: Scalar::one(), blue: Scalar::one() }
    }

    pub fn approx_eq(&self, rhs: &Color) -> (r: bool)
        ensures
            r == self.approx_eq_spec(*rhs),
    {
        self.red.approx_eq(rhs.red) && self.green.approx_eq(rhs.green) && self.blue.approx_eq(
            rhs.blue,
        )
    }

    pub fn add(self, rhs: Color) -> (r: Color)
        ensures
            r == self.add_spec(rhs),
    {
        Color {
            red: self.red.add(rhs.red),
            green: self.green.add(rhs.green),
            blue: self.blue.add(rhs.blue),
        }
    }

    pub fn mul(self, rhs: Color) -> (r: Color)
        ensures
            r == self.mul_spec(rhs),
    {
        Color {
            red: self.red.mul(rhs.red),
            green: self.green.mul(rhs.green),
            blue: self.blue.mul(rhs.blue),
        }
    }

    pub fn scale(self, k: Scalar) -> (r: Color)
        ensures
            r == self.scale_spec(k),
    {
        Color { red: self.red.mul(k), green: self.green.mul(k), blue: self.blue.mul(k) }
    }
}

impl PartialEq for Color {
    /// Equality up to the tolerance of `Scalar::approx_eq`, per component.
    fn eq(&self, other: &Color) -> (r: bool) {
        self.approx_eq(other)
    }
}

impl PartialEqSpecImpl for Color {
    open spec fn obeys_eq_spec() -> bool {
        true
    }

    open spec fn eq_spec(&self, other: &Color) -> bool {
        self.approx_eq_spec(*other)
    }
}

} // verus!
