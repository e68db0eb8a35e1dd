//! The geometry of shading at a hit.

use crate::intersection::ray::Ray;
use crate::intersection::shape::Shape;
use crate::intersection::Intersection;
use crate::scalar::{Scalar, EPSILON_RAW, RAW_MAX};
use crate::tuple::{lemma_dot_negate, within, Tuple};
use vstd::prelude::*;

verus! {

/// What shading needs to know of a hit: where it is, from where it is seen,
/// and which way the surface faces there.
#[derive(Clone, Copy, Debug)]
pub struct PreComputations<'a> {
    /// The ray's parameter at the hit.
    pub t: Scalar,
    /// The shape that was hit.
    pub object: &'a Shape,
    /// The point of the hit.
    pub point: Tuple,
    /// The direction from the point to the eye: the ray's direction
    /// reversed.
    pub eye_v: Tuple,
    /// The surface normal at the point, turned toward the eye.
    pub normal_v: Tuple,
    /// Whether the ray started inside the shape.
    pub inside: bool,
    /// The point lifted off the surface along the normal, from which
    /// shadows are tested so that the surface does not shadow itself.
    pub over_point: Tuple,
}

impl<'a> PreComputations<'a> {
    /// The bias that lifts `over_point` off the surface.
    pub open spec fn bias() -> Scalar {
        Scalar { raw: EPSILON_RAW }
    }

    pub open spec fn new_spec(hit: Intersection<'a>, ray: Ray) -> PreComputations<'a> {
        let point = ray.position_spec(hit.t);
        let eye_v = ray.direction.neg_spec();
        let normal = hit.object.normal_at_spec(point);
        let inside = normal.dot_spec(eye_v)@ < 0;
        let normal_v = if inside {
            normal.neg_spec()
        } else {
            normal
        };
        PreComputations {
            t: hit.t,
            object: hit.object,
            point,
            eye_v,
            normal_v,
            inside,
            over_point: point.add_spec(normal_v.scale_spec(Self::bias())),
        }
    }

    /// The shading geometry of `hit`, which `ray` produced. The normal
    /// never faces away from the eye.
    pub fn new(hit: Intersection<'a>, ray: Ray) -> (r: PreComputations<'a>)
        ensures
            r == Self::new_spec(hit, ray),
            r.normal_v.dot_spec(r.eye_v)@ >= 0,
    {
        let point: Tuple = ray.position(hit.t);
        let eye_v: Tuple = ray.direction.neg();
        let normal: Tuple = hit.object.normal_at(point);
        let inside: bool = normal.dot(eye_v).raw < 0;
        let normal_v: Tuple = if inside {
            normal.neg()
        } else {
            normal
        };
        proof {
            assert(within(normal, RAW_MAX as int));
            lemma_dot_negate(normal, eye_v);
        }
        let bias: Scalar = Scalar::from_raw(EPSILON_RAW);
        PreComputations {
            t: hit.t,
            object: hit.object,
            point,
            eye_v,
            normal_v,
            inside,
            over_point: point.add(normal_v.scale(bias)),
        }
    }

    pub fn t(&self) -> (r: Scalar)
        ensures
            r == self.t,
    {
        self.t
    }

    pub fn object(&self) -> (r: &'a Shape)
        ensures
            r == self.object,
    {
        self.object
    }

    pub fn point(&self) -> (r: Tuple)
        ensures
            r == self.point,
    {
        self.point
    }

    pub fn eye_v(&self) -> (r: Tuple)
        ensures
            r == self.eye_v,
    {
        self.eye_v
    }

    pub fn normal_v(&self) -> (r: Tuple)
        ensures
            r == self.normal_v,
    {
        self.normal_v
    }

    pub fn inside(&self) -> (r: bool)
        ensures
            r == self.inside,
    {
        self.inside
    }

    pub fn over_point(&self) -> (r: Tuple)
        ensures
            r == self.over_point,
    {
        self.over_point
    }
}

} // verus!
