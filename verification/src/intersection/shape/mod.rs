//! Shapes that rays can strike.

pub mod material;
pub mod sphere;

use crate::intersection::ray::Ray;
use crate::intersection::shape::material::Material;
use crate::intersection::shape::sphere::Sphere;
use crate::scalar::Scalar;
use crate::transformation::Transformation;
use crate::tuple::Tuple;
use vstd::prelude::*;

verus! {

/// Whether `ts` is what a ray's meeting with a shape looks like: no
/// parameter at all, or two in ascending order, equal where the ray only
/// touches the surface.
pub open spec fn well_formed_hits(ts: Seq<Scalar>) -> bool {
    ts.len() == 0 || (ts.len() == 2 && ts[0]@ <= ts[1]@)
}

/// A shape of the scene. Each kind knows where a ray meets it and which way
/// its surface faces, both in its own object space; the shape places it in
/// the world by its transformation.
#[derive(Clone, Copy, Debug)]
pub enum Shape {
    Sphere(Sphere),
}

impl Shape {
    pub open spec fn transformation_spec(self) -> Transformation {
        match self {
            Shape::Sphere(s) => s.transformation,
        }
    }

    pub open spec fn material_spec(self) -> Material {
        match self {
            Shape::Sphere(s) => s.material,
        }
    }

    /// The parameters at which a ray given in object space meets the shape.
    pub open spec fn local_intersect_spec(self, ray: Ray) -> Seq<Scalar> {
        match self {
            Shape::Sphere(s) => Sphere::local_intersect_spec(ray),
        }
    }

    /// The surface normal at a point given in object space.
    pub open spec fn local_normal_at_spec(self, point: Tuple) -> Tuple {
        match self {
            Shape::Sphere(s) => Sphere::local_normal_at_spec(point),
        }
    }

    /// The parameters at which a ray given in world space meets the shape:
    /// those of the ray carried into object space.
    pub open spec fn intersects_spec(self, ray: Ray) -> Seq<Scalar> {
        self.local_intersect_spec(ray.transform_spec(self.transformation_spec().inverse_spec()))
    }

    /// The unit surface normal at a point given in world space: the normal
    /// in object space, carried back by the transpose of the inverse, its
    /// `w` cleared, and normalized.
    pub open spec fn normal_at_spec(self, point: Tuple) -> Tuple {
        let inverse = self.transformation_spec().inverse_spec();
        let object_normal = self.local_normal_at_spec(inverse.apply_spec(point));
        let world_normal = inverse.transpose_spec().apply_spec(object_normal);
        (Tuple { w: Scalar::zero_spec(), ..world_normal }).normalize_spec()
    }

    pub fn transformation(&self) -> (r: Transformation)
        ensures
            r == self.transformation_spec(),
    {
        match self {
            Shape::Sphere(s) => s.transformation,
        }
    }

    pub fn material(&self) -> (r: Material)
        ensures
            r == self.material_spec(),
    {
        match self {
            Shape::Sphere(s) => s.material,
        }
    }

    pub fn set_transformation(&mut self, transformation: Transformation)
        ensures
            final(self).transformation_spec() == transformation,
            final(self).material_spec() == old(self).material_spec(),
    {
        match self {
            Shape::Sphere(s) => {
                s.transformation = transformation;
            },
        }
    }

    pub fn set_material(&mut self, material: Material)
        ensures
            final(self).material_spec() == material,
            final(self).transformation_spec() == old(self).transformation_spec(),
    {
        match self {
            Shape::Sphere(s) => {
                s.material = material;
            },
        }
    }

    pub fn local_intersect(&self, ray: Ray) -> (r: Vec<Scalar>)
        ensures
            r@ == self.local_intersect_spec(ray),
            well_formed_hits(r@),
    {
        match self {
            Shape::Sphere(s) => s.local_intersect(ray),
        }
    }

    pub fn local_normal_at(&self, point: Tuple) -> (r: Tuple)
        ensures
            r == self.local_normal_at_spec(point),
    {
        match self {
            Shape::Sphere(s) => s.local_normal_at(point),
        }
    }

    /// Where `ray` meets the shape. Parameters behind the ray's origin are
    /// kept.
    pub fn intersects(&self, ray: Ray) -> (r: Vec<Scalar>)
        ensures
            r@ == self.intersects_spec(ray),
            well_formed_hits(r@),
    {
        let inverse = self.transformation().inverse();
        self.local_intersect(ray.transform(&inverse))
    }

    pub fn normal_at(&self, point: Tuple) -> (r: Tuple)
        ensures
            r == self.normal_at_spec(point),
    {
        let inverse = self.transformation().inverse();
        let object_normal: Tuple = self.local_normal_at(inverse.apply(point));
        let world_normal: Tuple = inverse.transpose().apply(object_normal);
        (Tuple { w: Scalar::zero(), ..world_normal }).normalize()
    }
}

} // verus!
