use ray_tracer_challenge::error::RayTraceError;
use ray_tracer_challenge::intersection::ray::Ray;
use ray_tracer_challenge::intersection::shape::sphere::Sphere;
use ray_tracer_challenge::intersection::shape::Shape;
use ray_tracer_challenge::matrix::Matrix;
use ray_tracer_challenge::scalar::Scalar;
use ray_tracer_challenge::transformation::Transformation;
use ray_tracer_challenge::tuple::Tuple;

fn sc(x: f64) -> Scalar {
    Scalar::from_raw((x * 1e9).round() as i64)
}

fn point(x: f64, y: f64, z: f64) -> Tuple {
    Tuple::point(sc(x), sc(y), sc(z))
}

fn vector(x: f64, y: f64, z: f64) -> Tuple {
    Tuple::vector(sc(x), sc(y), sc(z))
}

#[test]
fn creating_and_querying_a_ray() {
    let origin = point(1.0, 2.0, 3.0);
    let direction = vector(4.0, 5.0, 6.0);
    let r = Ray::new(origin, direction);

    assert_eq!(origin, r.origin());
    assert_eq!(direction, r.direction());
}

#[test]
fn computing_a_point_from_a_distance() {
    let r = Ray::new(point(2.0, 3.0, 4.0), vector(1.0, 0.0, 0.0));
    assert_eq!(point(2.0, 3.0, 4.0), r.position(sc(0.0)));
    assert_eq!(point(3.0, 3.0, 4.0), r.position(sc(1.0)));
    assert_eq!(point(1.0, 3.0, 4.0), r.position(sc(-1.0)));
    assert_eq!(point(4.5, 3.0, 4.0), r.position(sc(2.5)));
}

#[test]
fn a_ray_needs_a_direction() {
    let origin = point(1.0, 2.0, 3.0);
    let zero = Tuple::vector(Scalar::zero(), Scalar::zero(), Scalar::zero());
    assert!(matches!(Ray::try_new(origin, zero), Err(RayTraceError::InvalidRay)));
    assert_eq!(RayTraceError::InvalidRay, Ray::try_new(origin, zero).unwrap_err());
}

#[test]
fn a_ray_with_a_direction_is_accepted() {
    let origin = point(1.0, 2.0, 3.0);
    let tiny = Tuple::vector(Scalar::zero(), Scalar::from_raw(1), Scalar::zero());
    let r = Ray::try_new(origin, tiny).unwrap();
    assert_eq!(origin.x.raw(), r.origin().x.raw());
    assert_eq!(1, r.direction().y.raw());
    assert_eq!(0, r.direction().w.raw());
}

#[test]
fn translating_a_ray() {
    let r = Ray::new(point(1.0, 2.0, 3.0), vector(0.0, 1.0, 0.0));
    let m: Matrix = Transformation::identity().translation(sc(3.0), sc(4.0), sc(5.0)).matrix();
    let moved = r.transform(&m);
    assert_eq!(point(4.0, 6.0, 8.0), moved.origin());
    assert_eq!(vector(0.0, 1.0, 0.0), moved.direction());
}

#[test]
fn scaling_a_ray() {
    let r = Ray::new(point(1.0, 2.0, 3.0), vector(0.0, 1.0, 0.0));
    let m: Matrix = Transformation::identity().scale(sc(2.0), sc(3.0), sc(4.0)).matrix();
    let scaled = r.transform(&m);
    assert_eq!(point(2.0, 6.0, 12.0), scaled.origin());
    assert_eq!(vector(0.0, 3.0, 0.0), scaled.direction());
}

#[test]
fn intersections_of_a_ray_bind_the_shape() {
    let r = Ray::new(point(0.0, 0.0, -5.0), vector(0.0, 0.0, 1.0));
    let shape = Shape::Sphere(Sphere::new());
    let xs = r.intersections(&shape);
    assert_eq!(2, xs.len());
    assert_eq!(sc(4.0), xs.get(0).t());
    assert_eq!(sc(6.0), xs.get(1).t());
    assert!(std::ptr::eq(xs.get(0).object(), &shape));
    assert!(std::ptr::eq(xs.get(1).object(), &shape));
}

#[test]
fn a_ray_that_misses_has_no_intersections() {
    let r = Ray::new(point(0.0, 2.0, -5.0), vector(0.0, 0.0, 1.0));
    let shape = Shape::Sphere(Sphere::new());
    assert_eq!(0, r.intersections(&shape).len());
}
