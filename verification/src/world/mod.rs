//! The scene: shapes and a light, and the color that a ray sees in it.

use crate::color::Color;
use crate::intersection::precomputation::PreComputations;
use crate::intersection::ray::Ray;
use crate::intersection::shape::material::Material;
use crate::intersection::shape::sphere::Sphere;
use crate::intersection::shape::Shape;
use crate::intersection::{
    ascending, hit_spec, insert_all, Intersection, IntersectionHeap,
};
use crate::point_light::PointLight;
use crate::scalar::Scalar;
use crate::transformation::Transformation;
use crate::tuple::Tuple;
use vstd::prelude::*;

verus! {

/// A scene: its shapes, in the order in which they were added, and at most
/// one light.
#[derive(Debug)]
pub struct World {
    pub shapes: Vec<Shape>,
    pub light: Option<PointLight>,
}

impl World {
    /// The intersections of `ray` with the shapes from index `from` on, put
    /// into `acc` shape by shape.
    pub open spec fn collect<'a>(
        shapes: Seq<Shape>,
        ray: Ray,
        from: int,
        acc: Seq<Intersection<'a>>,
    ) -> Seq<Intersection<'a>>
        decreases shapes.len() - from,
    {
        if from < 0 || from >= shapes.len() {
            acc
        } else {
            Self::collect(
                shapes,
                ray,
                from + 1,
                insert_all(acc, ray.intersections_spec(&shapes[from]), 0),
            )
        }
    }

    /// Every intersection of `ray` with every shape of the scene, in
    /// ascending order of parameter over the whole scene.
    pub open spec fn intersects_spec<'a>(&'a self, ray: Ray) -> Seq<Intersection<'a>> {
        Self::collect(self.shapes@, ray, 0, Seq::empty())
    }

    /// Whether a shape stands between `point` and the light: whether the
    /// ray from the point toward the light has a hit nearer than the light.
    /// Nothing is shadowed in a scene without light, nor a point from which
    /// no direction leads to the light.
    pub open spec fn is_shadowed_spec(&self, point: Tuple) -> bool {
        match self.light {
            None => false,
            Some(light) => {
                let v = light.position.sub_spec(point);
                let distance = v.magnitude_spec();
                let direction = v.normalize_spec();
                if direction.is_zero_spec() {
                    false
                } else {
                    match hit_spec(self.intersects_spec(Ray { origin: point, direction })) {
                        Some(h) => h.t@ < distance@,
                        None => false,
                    }
                }
            },
        }
    }

    /// The color at a hit: black without light, else what the material of
    /// the shape gives at the lifted point, in shadow or not as the scene
    /// decides.
    pub open spec fn shade_hit_spec(&self, comps: PreComputations) -> Color {
        match self.light {
            None => Color::black_spec(),
            Some(light) => comps.object.material_spec().lighting_spec(
                light,
                comps.over_point,
                comps.eye_v,
                comps.normal_v,
                self.is_shadowed_spec(comps.over_point),
            ),
        }
    }

    /// The color that `ray` sees: black where it hits nothing, else the
    /// color at its hit.
    pub open spec fn color_at_spec(&self, ray: Ray) -> Color {
        match hit_spec(self.intersects_spec(ray)) {
            None => Color::black_spec(),
            Some(h) => self.shade_hit_spec(PreComputations::new_spec(h, ray)),
        }
    }

    /// The larger sphere of the default scene.
    pub open spec fn default_outer() -> Shape {
        Shape::Sphere(
            Sphere {
                transformation: Transformation::identity_spec(),
                material: Material {
                    color: Color {
                        red: Scalar { raw: 800_000_000 },
                        green: Scalar { raw: 1_000_000_000 },
                        blue: Scalar { raw: 600_000_000 },
                    },
                    diffuse: Scalar { raw: 700_000_000 },
                    specular: Scalar { raw: 200_000_000 },
                    ..Material::default_spec()
                },
            },
        )
    }

    /// The smaller sphere of the default scene, half the size.
    pub open spec fn default_inner() -> Shape {
        let half = Scalar { raw: 500_000_000 };
        Shape::Sphere(
            Sphere {
                transformation: Transformation::identity_spec().scale_spec(half, half, half),
                material: Material::default_spec(),
            },
        )
    }

    /// The light of the default scene: white, at `(-10, 10, -10)`.
    pub open spec fn default_light() -> PointLight {
        PointLight {
            position: Tuple::point_spec(
                Scalar { raw: -10_000_000_000i64 },
                Scalar { raw: 10_000_000_000 },
                Scalar { raw: -10_000_000_000i64 },
            ),
            intensity: Color::white_spec(),
        }
    }

    /// The empty scene, without light.
    pub fn new() -> (r: World)
        ensures
            r.shapes@ == Seq::<Shape>::empty(),
            r.light == None::<PointLight>,
    {
        World { shapes: Vec::new(), light: None }
    }

    pub fn shapes(&self) -> (r: &Vec<Shape>)
        ensures
            *r == self.shapes,
    {
        &self.shapes
    }

    /// Adds `shape` behind the shapes that the scene has.
    pub fn add_shape(&mut self, shape: Shape)
        ensures
            final(self).shapes@ == old(self).shapes@.push(shape),
            final(self).light == old(self).light,
    {
        self.shapes.push(shape);
    }

    pub fn shapes_mut(&mut self) -> (r: &mut Vec<Shape>)
        ensures
            *r == old(self).shapes,
            final(self).shapes == *final(r),
            final(self).light == old(self).light,
    {
        &mut self.shapes
    }

    pub fn light(&self) -> (r: &Option<PointLight>)
        ensures
            *r == self.light,
    {
        &self.light
    }

    /// Gives the scene `point_light` as its one light, in place of any
    /// that it had.
    pub fn set_light(&mut self, point_light: PointLight) -> (r: &World)
        ensures
            final(self).light == Some(point_light),
            final(self).shapes == old(self).shapes,
            *r == *final(self),
    {
        self.light = Some(point_light);
        self
    }

    pub fn intersects<'a>(&'a self, r: Ray) -> (heap: IntersectionHeap<'a>)
        ensures
            heap@ == self.intersects_spec(r),
            ascending(heap@),
    {
        let mut heap: IntersectionHeap<'a> = IntersectionHeap::new();
        let mut i: usize = 0;
        while i < self.shapes.len()
            invariant
                i <= self.shapes.len(),
                ascending(heap@),
                Self::collect(self.shapes@, r, i as int, heap@) == self.intersects_spec(r),
            decreases self.shapes.len() - i,
        {
            let found: IntersectionHeap<'a> = r.intersections(&self.shapes[i]);
            let ghost before = heap@;
            let mut j: usize = 0;
            while j < found.len()
                invariant
                    j <= found@.len(),
                    ascending(heap@),
                    insert_all(heap@, found@, j as int) == insert_all(before, found@, 0),
                decreases found@.len() - j,
            {
                heap.push(found.get(j));
                j = j + 1;
            }
            i = i + 1;
        }
        heap
    }

    pub fn is_shadowed(&self, point: Tuple) -> (r: bool)
        ensures
            r == self.is_shadowed_spec(point),
            self.light is None ==> !r,
    {
        match self.light {
            None => false,
            Some(light) => {
                let v: Tuple = light.position.sub(point);
                let distance: Scalar = v.magnitude();
                let direction: Tuple = v.normalize();
                match Ray::try_new(point, direction) {
                    Err(_) => false,
                    Ok(ray) => {
                        match self.intersects(ray).hit() {
                            Some(h) => h.t.raw < distance.raw,
                            None => false,
                        }
                    },
                }
            },
        }
    }

    pub fn shade_hit(&self, comps: &PreComputations) -> (r: Color)
        ensures
            r == self.shade_hit_spec(*comps),
            self.light is None ==> r == Color::black_spec(),
    {
        match self.light {
            None => Color::black(),
            Some(light) => {
                let shadowed: bool = self.is_shadowed(comps.over_point);
                comps.object.material().lighting(
                    light,
                    comps.over_point,
                    comps.eye_v,
                    comps.normal_v,
                    shadowed,
                )
            },
        }
    }

    /// The color that `ray` sees in the scene.
    pub fn color_at(&self, ray: Ray) -> (r: Color)
        ensures
            r == self.color_at_spec(ray),
            hit_spec(self.intersects_spec(ray)) is None ==> r == Color::black_spec(),
            self.light is None ==> r == Color::black_spec(),
    {
        match self.intersects(ray).hit() {
            None => Color::black(),
            Some(hit) => {
                let comps = PreComputations::new(hit, ray);
                self.shade_hit(&comps)
            },
        }
    }
}

/// The color that a ray sees depends on the scene and the ray alone: two
/// answers of `color_at` for one ray in one scene are the same color.
pub proof fn lemma_color_at_is_repeatable(world: World, ray: Ray, first: Color, second: Color)
    requires
        first == world.color_at_spec(ray),
        second == world.color_at_spec(ray),
    ensures
        first == second,
{
}

impl World {
    fn make_default_outer() -> (r: Shape)
        ensures
            r == World::default_outer(),
    {
        let color = Color::new(
            Scalar::from_raw(800_000_000),
            Scalar::from_raw(1_000_000_000),
            Scalar::from_raw(600_000_000),
        );
        let material = Material::new().with_color(color).with_diffuse(
            Scalar::from_raw(700_000_000),
        ).with_specular(Scalar::from_raw(200_000_000));
        let mut outer = Sphere::new();
        outer.set_material(material);
        Shape::Sphere(outer)
    }

    fn make_default_inner() -> (r: Shape)
        ensures
            r == World::default_inner(),
    {
        let half: Scalar = Scalar::from_raw(500_000_000);
        let mut inner = Sphere::new();
        inner.set_transformation(Transformation::identity().scale(half, half, half));
        Shape::Sphere(inner)
    }

    fn make_default_light() -> (r: PointLight)
        ensures
            r == World::default_light(),
    {
        PointLight::new(
            Tuple::point(
                Scalar::from_raw(-10_000_000_000),
                Scalar::from_raw(10_000_000_000),
                Scalar::from_raw(-10_000_000_000),
            ),
            Color::white(),
        )
    }
}

impl Default for World {
    /// The default scene: a unit sphere, a sphere of half its size inside
    /// it, and one white light.
    fn default() -> (r: World)
        ensures
            r.shapes@ == seq![World::default_outer(), World::default_inner()],
            r.light == Some(World::default_light()),
    {
        let mut shapes: Vec<Shape> = Vec::new();
        shapes.push(World::make_default_outer());
        shapes.push(World::make_default_inner());
        proof {
            assert(shapes@ =~= seq![World::default_outer(), World::default_inner()]);
        }
        World { shapes, light: Some(World::make_default_light()) }
    }
}

} // verus!
