//! The unit sphere.

use crate::intersection::ray::Ray;
use crate::intersection::shape::material::Material;
use crate::intersection::shape::well_formed_hits;
use crate::scalar::{
    lemma_div_monotone, lemma_mul_non_negative, lemma_sqrt_non_negative, lemma_sub_add_ordered,
    Scalar,
};
use crate::transformation::Transformation;
use crate::tuple::{lemma_dot_self_non_negative, Tuple};
use vstd::prelude::*;

verus! {

/// A sphere of radius one about the origin of its object space.
#[derive(Clone, Copy, Debug)]
pub struct Sphere {
    pub transformation: Transformation,
    pub material: Material,
}

impl Sphere {
    pub open spec fn new_spec() -> Sphere {
        Sphere { transformation: Transformation::identity_spec(), material: Material::default_spec() }
    }

    /// The vector from the sphere's centre to the origin of `ray`.
    pub open spec fn sphere_to_ray(ray: Ray) -> Tuple {
        ray.origin.sub_spec(Tuple::origin_spec())
    }

    /// The coefficient of `t * t` in the equation of the ray's meeting with
    /// the sphere: the direction dotted with itself.
    pub open spec fn quadratic_a(ray: Ray) -> Scalar {
        ray.direction.dot_spec(ray.direction)
    }

    /// The coefficient of `t`: twice the direction dotted with the vector
    /// from the centre to the ray's origin.
    pub open spec fn quadratic_b(ray: Ray) -> Scalar {
        Scalar::two_spec().mul_spec(ray.direction.dot_spec(Self::sphere_to_ray(ray)))
    }

    /// The constant coefficient: the squared distance of the ray's origin
    /// from the centre, less the squared radius.
    pub open spec fn quadratic_c(ray: Ray) -> Scalar {
        Self::sphere_to_ray(ray).dot_spec(Self::sphere_to_ray(ray)).sub_spec(Scalar::one_spec())
    }

    /// `b * b - 4 a c`.
    pub open spec fn discriminant(ray: Ray) -> Scalar {
        let a = Self::quadratic_a(ray);
        let b = Self::quadratic_b(ray);
        let c = Self::quadratic_c(ray);
        b.mul_spec(b).sub_spec(Scalar::four_spec().mul_spec(a).mul_spec(c))
    }

    /// The roots of the quadratic, smaller first; none where the
    /// discriminant is negative.
    pub open spec fn local_intersect_spec(ray: Ray) -> Seq<Scalar> {
        let discriminant = Self::discriminant(ray);
        if discriminant@ < 0 {
            Seq::empty()
        } else {
            let root = discriminant.sqrt_spec();
            let minus_b = Self::quadratic_b(ray).neg_spec();
            let twice_a = Scalar::two_spec().mul_spec(Self::quadratic_a(ray));
            seq![
                minus_b.sub_spec(root).div_spec(twice_a),
                minus_b.add_spec(root).div_spec(twice_a),
            ]
        }
    }

    /// The vector from the centre to `point`.
    pub open spec fn local_normal_at_spec(point: Tuple) -> Tuple {
        point.sub_spec(Tuple::origin_spec())
    }

    /// The unit sphere at the origin of the world, of the default material.
    pub fn new() -> (r: Sphere)
        ensures
            r == Self::new_spec(),
    {
        Sphere { transformation: Transformation::identity(), material: Material::new() }
    }

    pub fn set_transformation(&mut self, transformation: Transformation)
        ensures
            *final(self) == (Sphere { transformation, ..*old(self) }),
    {
        self.transformation = transformation;
    }

    pub fn set_material(&mut self, material: Material)
        ensures
            *final(self) == (Sphere { material, ..*old(self) }),
    {
        self.material = material;
    }

    /// Where a ray given in object space meets the sphere.
    pub fn local_intersect(&self, ray: Ray) -> (r: Vec<Scalar>)
        ensures
            r@ == Self::local_intersect_spec(ray),
            well_formed_hits(r@),
    {
        let sphere_to_ray: Tuple = ray.origin.sub(Tuple::origin());
        let a: Scalar = ray.direction.dot(ray.direction);
        let b: Scalar = Scalar::two().mul(ray.direction.dot(sphere_to_ray));
        let c: Scalar = sphere_to_ray.dot(sphere_to_ray).sub(Scalar::one());
        let discriminant: Scalar = b.mul(b).sub(Scalar::four().mul(a).mul(c));
        let mut hits: Vec<Scalar> = Vec::new();
        if discriminant.raw >= 0 {
            let root: Scalar = discriminant.sqrt();
            let minus_b: Scalar = b.neg();
            let twice_a: Scalar = Scalar::two().mul(a);
            hits.push(minus_b.sub(root).div(twice_a));
            hits.push(minus_b.add(root).div(twice_a));
            proof {
                lemma_dot_self_non_negative(ray.direction);
                lemma_mul_non_negative(Scalar::two_spec(), a);
                lemma_sqrt_non_negative(discriminant);
                lemma_sub_add_ordered(minus_b, root);
                lemma_div_monotone(
                    minus_b.sub_spec(root),
                    minus_b.add_spec(root),
                    twice_a,
                );
            }
        }
        assert(hits@ =~= Self::local_intersect_spec(ray));
        hits
    }

    pub fn local_normal_at(&self, point: Tuple) -> (r: Tuple)
        ensures
            r == Self::local_normal_at_spec(point),
    {
        point.sub(Tuple::origin())
    }
}

} // verus!
