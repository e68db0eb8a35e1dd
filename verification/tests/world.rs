use ray_tracer_challenge::color::Color;
use ray_tracer_challenge::intersection::precomputation::PreComputations;
use ray_tracer_challenge::intersection::ray::Ray;
use ray_tracer_challenge::intersection::shape::material::Material;
use ray_tracer_challenge::intersection::shape::sphere::Sphere;
use ray_tracer_challenge::intersection::shape::Shape;
use ray_tracer_challenge::intersection::Intersection;
use ray_tracer_challenge::point_light::PointLight;
use ray_tracer_challenge::scalar::Scalar;
use ray_tracer_challenge::transformation::Transformation;
use ray_tracer_challenge::tuple::Tuple;
use ray_tracer_challenge::world::World;

fn sc(x: f64) -> Scalar {
    Scalar::from_raw((x * 1e9).round() as i64)
}

fn point(x: f64, y: f64, z: f64) -> Tuple {
    Tuple::point(sc(x), sc(y), sc(z))
}

fn vector(x: f64, y: f64, z: f64) -> Tuple {
    Tuple::vector(sc(x), sc(y), sc(z))
}

fn color(r: f64, g: f64, b: f64) -> Color {
    Color::new(sc(r), sc(g), sc(b))
}

#[test]
fn creating_a_world() {
    let w = World::new();

    assert_eq!(0, w.shapes().len());
    assert_eq!(&None, w.light());
}

#[test]
fn the_default_world() {
    let s1_transformation = Transformation::identity().scale(sc(0.5), sc(0.5), sc(0.5));

    let s2_material = Material::new()
        .with_color(color(0.8, 1.0, 0.6))
        .with_diffuse(sc(0.7))
        .with_specular(sc(0.2));

    let light = PointLight::new(point(-10.0, 10.0, -10.0), Color::white());

    let world = World::default();

    assert!(world.light.is_some());

    assert_eq!(light, world.light().unwrap());
    assert!(world
        .shapes()
        .iter()
        .any(|i| i.transformation() == s1_transformation));
    assert!(world.shapes().iter().any(|i| i.material() == s2_material));
}

#[test]
fn intersect_a_world_with_a_ray() {
    let w = World::default();
    let r = Ray::new(point(0.0, 0.0, -5.0), vector(0.0, 0.0, 1.0));

    let xs = w.intersects(r);

    assert_eq!(4, xs.len());
    assert_eq!(sc(4.0), xs.get(0).t());
    assert_eq!(sc(4.5), xs.get(1).t());
    assert_eq!(sc(5.5), xs.get(2).t());
    assert_eq!(sc(6.0), xs.get(3).t());
}

#[test]
fn shading_an_intersection() {
    let w = World::default();
    let r = Ray::new(point(0.0, 0.0, -5.0), vector(0.0, 0.0, 1.0));
    let shape = &w.shapes()[0];
    let i = Intersection::new(sc(4.0), shape);

    let comps = PreComputations::new(i, r);

    let c = w.shade_hit(&comps);

    assert_eq!(color(0.38066, 0.47583, 0.2855), c);
}

#[test]
fn shading_an_intersection_from_the_inside() {
    let mut w = World::default();
    w.light = Some(PointLight::new(point(0.0, 0.25, 0.0), Color::white()));
    let r = Ray::new(point(0.0, 0.0, 0.0), vector(0.0, 0.0, 1.0));
    let shape = &w.shapes()[1];
    let i = Intersection::new(sc(0.5), shape);

    let comps = PreComputations::new(i, r);

    let c = w.shade_hit(&comps);

    assert_eq!(color(0.90498, 0.90498, 0.90498), c);
}

#[test]
fn the_color_when_a_ray_misses() {
    let w = World::default();
    let r = Ray::new(point(0.0, 0.0, -5.0), vector(0.0, 1.0, 0.0));
    let c = w.color_at(r);

    assert_eq!(Color::black(), c);
}

#[test]
fn the_color_when_a_ray_hits() {
    let w = World::default();
    let r = Ray::new(point(0.0, 0.0, -5.0), vector(0.0, 0.0, 1.0));
    let c = w.color_at(r);

    assert_eq!(color(0.38066, 0.47583, 0.2855), c);
}

#[test]
fn the_color_with_an_intersection_behind_the_ray() {
    let mut w = World::default();
    w.shapes_mut()
        .get_mut(0)
        .unwrap()
        .set_material(Material::default().with_ambient(sc(1.0)));
    w.shapes_mut()
        .get_mut(1)
        .unwrap()
        .set_material(Material::default().with_ambient(sc(1.0)));
    let r = Ray::new(point(0.0, 0.0, 0.75), vector(0.0, 0.0, -1.0));

    let c = w.color_at(r);
    assert_eq!(c, w.shapes()[1].material().color())
}

#[test]
fn there_is_no_shadow_when_nothing_is_collinear_with_point_and_light() {
    let w = World::default();
    let p = point(0.0, 10.0, 0.0);

    assert!(!w.is_shadowed(p));
}

#[test]
fn the_shadow_when_an_object_is_between_the_point_and_the_light() {
    let w = World::default();
    let p = point(10.0, -10.0, 10.0);

    assert!(w.is_shadowed(p));
}

#[test]
fn there_is_no_shadow_when_an_object_is_behind_the_light() {
    let w = World::default();
    let p = point(-20.0, 20.0, -20.0);

    assert!(!w.is_shadowed(p));
}

#[test]
fn there_is_no_shadow_when_an_object_is_behind_the_point() {
    let w = World::default();
    let p = point(-2.0, 2.0, -2.0);

    assert!(!w.is_shadowed(p));
}

#[test]
fn shade_hit_is_given_an_intersection_in_shadow() {
    let mut w = World::new();
    w.light = Some(PointLight::new(point(0.0, 0.0, -10.0), Color::white()));

    let s1 = Sphere::new();
    w.add_shape(Shape::Sphere(s1));

    let mut s2 = Sphere::new();
    s2.set_transformation(Transformation::identity().translation(sc(0.0), sc(0.0), sc(10.0)));
    w.add_shape(Shape::Sphere(s2));

    let r = Ray::new(point(0.0, 0.0, 5.0), vector(0.0, 0.0, 1.0));

    let i = Intersection::new(sc(4.0), &w.shapes()[1]);

    let comps = PreComputations::new(i, r);
    let c = w.shade_hit(&comps);

    assert_eq!(color(0.1, 0.1, 0.1), c);
}

#[test]
fn color_at_twice_gives_the_same_color() {
    let w = World::default();
    let r = Ray::new(point(0.0, 0.0, -5.0), vector(0.0, 0.0, 1.0));
    let first = w.color_at(r);
    let second = w.color_at(r);

    assert_eq!(first.red.raw(), second.red.raw());
    assert_eq!(first.green.raw(), second.green.raw());
    assert_eq!(first.blue.raw(), second.blue.raw());
}

#[test]
fn a_world_without_light_is_black_and_casts_no_shadow() {
    let mut w = World::new();
    w.add_shape(Shape::Sphere(Sphere::new()));
    let r = Ray::new(point(0.0, 0.0, -5.0), vector(0.0, 0.0, 1.0));

    assert_eq!(2, w.intersects(r).len());
    assert!(!w.is_shadowed(point(0.0, 0.0, 5.0)));
    let c = w.color_at(r);
    assert_eq!(0, c.red.raw());
    assert_eq!(0, c.green.raw());
    assert_eq!(0, c.blue.raw());
}

#[test]
fn a_world_without_shapes_is_black() {
    let mut w = World::new();
    w.set_light(PointLight::new(point(-10.0, 10.0, -10.0), Color::white()));
    let r = Ray::new(point(0.0, 0.0, -5.0), vector(0.0, 0.0, 1.0));

    assert_eq!(0, w.intersects(r).len());
    assert_eq!(Color::black(), w.color_at(r));
}

#[test]
fn a_point_at_the_light_is_not_shadowed() {
    let w = World::default();
    assert!(!w.is_shadowed(point(-10.0, 10.0, -10.0)));
}

#[test]
fn set_light_replaces_the_light() {
    let mut w = World::default();
    let light = PointLight::new(point(1.0, 2.0, 3.0), color(0.5, 0.5, 0.5));
    let after = w.set_light(light);
    assert_eq!(Some(light), *after.light());
    assert_eq!(2, after.shapes().len());
    assert_eq!(&Some(light), w.light());
}

#[test]
fn shapes_are_kept_in_the_order_added() {
    let mut w = World::new();
    let mut first = Sphere::new();
    first.set_material(Material::new().with_ambient(sc(0.3)));
    let mut second = Sphere::new();
    second.set_material(Material::new().with_ambient(sc(0.6)));
    w.add_shape(Shape::Sphere(first));
    w.add_shape(Shape::Sphere(second));

    assert_eq!(2, w.shapes().len());
    assert_eq!(sc(0.3), w.shapes()[0].material().ambient());
    assert_eq!(sc(0.6), w.shapes()[1].material().ambient());
}

#[test]
fn equal_parameters_keep_the_order_of_the_shapes() {
    let mut w = World::new();
    let mut first = Sphere::new();
    first.set_material(Material::new().with_ambient(sc(0.3)));
    let mut second = Sphere::new();
    second.set_material(Material::new().with_ambient(sc(0.6)));
    w.add_shape(Shape::Sphere(first));
    w.add_shape(Shape::Sphere(second));
    let r = Ray::new(point(0.0, 0.0, -5.0), vector(0.0, 0.0, 1.0));

    let xs = w.intersects(r);
    assert_eq!(4, xs.len());
    assert_eq!(sc(4.0), xs.get(0).t());
    assert_eq!(sc(4.0), xs.get(1).t());
    assert_eq!(sc(6.0), xs.get(2).t());
    assert_eq!(sc(6.0), xs.get(3).t());
    assert!(std::ptr::eq(xs.get(0).object(), &w.shapes()[0]));
    assert!(std::ptr::eq(xs.get(1).object(), &w.shapes()[1]));
    assert!(std::ptr::eq(xs.hit().unwrap().object(), &w.shapes()[0]));
}
