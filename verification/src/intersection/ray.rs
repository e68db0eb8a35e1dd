//! Rays: half-lines cast into the scene.

use crate::error::RayTraceError;
use crate::intersection::shape::Shape;
use crate::intersection::{
    ascending, bind, insert_all, lemma_insert_all_ascending, Intersection, IntersectionHeap,
};
use crate::matrix::Matrix;
use crate::scalar::Scalar;
use crate::tuple::Tuple;
use vstd::prelude::*;

verus! {

/// A ray that starts at `origin` and runs along `direction`. The
/// constructors give no ray the zero vector for its direction; the length of
/// the direction is left as given, and shading takes it to be one.
#[derive(Clone, Copy, Debug)]
pub struct Ray {
    pub origin: Tuple,
    pub direction: Tuple,
}

impl Ray {
    /// The point at parameter `t`: `origin + direction * t`.
    pub open spec fn position_spec(self, t: Scalar) -> Tuple {
        self.origin.add_spec(self.direction.scale_spec(t))
    }

    /// The ray as `m` maps it: origin and direction are both transformed,
    /// and the direction is not normalized.
    pub open spec fn transform_spec(self, m: Matrix) -> Ray {
        Ray { origin: m.apply_spec(self.origin), direction: m.apply_spec(self.direction) }
    }

    /// The meetings of the ray with `shape`, in ascending order of
    /// parameter.
    pub open spec fn intersections_spec<'a>(self, shape: &'a Shape) -> Seq<Intersection<'a>> {
        insert_all(Seq::empty(), bind(shape.intersects_spec(self), shape), 0)
    }

    /// The ray from `origin` along a direction known not to be zero.
    pub fn new(origin: Tuple, direction: Tuple) -> (r: Ray)
        requires
            !direction.is_zero_spec(),
        ensures
            r == (Ray { origin, direction }),
    {
        Ray { origin, direction }
    }

    /// The ray from `origin` along `direction`, unless that is the zero
    /// vector.
    pub fn try_new(origin: Tuple, direction: Tuple) -> (r: Result<Ray, RayTraceError>)
        ensures
            direction.is_zero_spec() ==> r == Err::<Ray, RayTraceError>(RayTraceError::InvalidRay),
            !direction.is_zero_spec() ==> r == Ok::<Ray, RayTraceError>(Ray { origin, direction }),
    {
        if direction.is_zero() {
            Err(RayTraceError::InvalidRay)
        } else {
            Ok(Ray { origin, direction })
        }
    }

    pub fn origin(&self) -> (r: Tuple)
        ensures
            r == self.origin,
    {
        self.origin
    }

    pub fn direction(&self) -> (r: Tuple)
        ensures
            r == self.direction,
    {
        self.direction
    }

    pub fn position(&self, t: Scalar) -> (r: Tuple)
        ensures
            r == self.position_spec(t),
    {
        self.origin.add(self.direction.scale(t))
    }

    pub fn transform(&self, m: &Matrix) -> (r: Ray)
        ensures
            r == self.transform_spec(*m),
    {
        Ray { origin: m.apply(self.origin), direction: m.apply(self.direction) }
    }

    /// Every meeting of the ray with `shape`, each bound to the shape, those
    /// behind the ray's origin too.
    pub fn intersections<'a>(&self, shape: &'a Shape) -> (r: IntersectionHeap<'a>)
        ensures
            r@ == self.intersections_spec(shape),
            r@.len() == shape.intersects_spec(*self).len(),
            ascending(r@),
    {
        let ts: Vec<Scalar> = shape.intersects(*self);
        let mut heap: IntersectionHeap<'a> = IntersectionHeap::new();
        let ghost items = bind(ts@, shape);
        let mut i: usize = 0;
        while i < ts.len()
            invariant
                i <= ts.len(),
                items == bind(ts@, shape),
                insert_all(heap@, items, i as int) == insert_all(Seq::empty(), items, 0),
            decreases ts.len() - i,
        {
            heap.push(Intersection::new(ts[i], shape));
            i = i + 1;
        }
        proof {
            lemma_insert_all_ascending(Seq::empty(), items, 0);
        }
        heap
    }
}

} // verus!
