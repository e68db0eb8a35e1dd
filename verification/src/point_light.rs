//! A light source without size.

use crate::color::Color;
use crate::tuple::Tuple;
use vstd::prelude::*;
use vstd::std_specs::cmp::PartialEqSpecImpl;

verus! {

/// A light at `position` that shines with `intensity` in every direction.
#[derive(Clone, Copy, Debug)]
pub struct PointLight {
    pub position: Tuple,
    pub intensity: Color,
}

impl PointLight {
    pub open spec fn approx_eq_spec(self, rhs: PointLight) -> bool {
        self.position.approx_eq_spec(rhs.position) && self.intensity.approx_eq_spec(rhs.intensity)
    }

    pub fn new(position: Tuple, intensity: Color) -> (r: PointLight)
        ensures
            r == (PointLight { position, intensity }),
    {
        PointLight { position, intensity }
    }

    pub fn position(&self) -> (r: Tuple)
        ensures
            r == self.position,
    {
        self.position
    }

    pub fn intensity(&self) -> (r: Color)
        ensures
            r == self.intensity,
    {
        self.intensity
    }
}

impl PartialEq for PointLight {
    /// Equality of position and intensity up to the scalar tolerance.
    fn eq(&self, other: &PointLight) -> (r: bool) {
        self.position.approx_eq(&other.position) && self.intensity.approx_eq(&other.intensity)
    }
}

impl PartialEqSpecImpl for PointLight {
    open spec fn obeys_eq_spec() -> bool {
        true
    }

    open spec fn eq_spec(&self, other: &PointLight) -> bool {
        self.approx_eq_spec(*other)
    }
}

} // verus!
