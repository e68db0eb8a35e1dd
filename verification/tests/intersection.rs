use ray_tracer_challenge::intersection::precomputation::PreComputations;
use ray_tracer_challenge::intersection::ray::Ray;
use ray_tracer_challenge::intersection::shape::sphere::Sphere;
use ray_tracer_challenge::intersection::shape::Shape;
use ray_tracer_challenge::intersection::{Intersection, IntersectionHeap};
use ray_tracer_challenge::scalar::Scalar;
use ray_tracer_challenge::transformation::Transformation;
use ray_tracer_challenge::tuple::Tuple;

fn sc(x: f64) -> Scalar {
    Scalar::from_raw((x * 1e9).round() as i64)
}

fn point(x: f64, y: f64, z: f64) -> Tuple {
    Tuple::point(sc(x), sc(y), sc(z))
}

fn vector(x: f64, y: f64, z: f64) -> Tuple {
    Tuple::vector(sc(x), sc(y), sc(z))
}

fn heap_of<'a>(ts: &[f64], shape: &'a Shape) -> IntersectionHeap<'a> {
    let mut heap = IntersectionHeap::new();
    for t in ts {
        heap.push(Intersection::new(sc(*t), shape));
    }
    heap
}

fn parameters(heap: &IntersectionHeap) -> Vec<f64> {
    (0..heap.len()).map(|i| heap.get(i).t().raw() as f64 / 1e9).collect()
}

#[test]
fn an_intersection_encapsulates_t_and_object() {
    let s = Shape::Sphere(Sphere::new());
    let i = Intersection::new(sc(3.5), &s);
    assert_eq!(sc(3.5), i.t());
    assert!(std::ptr::eq(i.object(), &s));
}

#[test]
fn pushing_keeps_the_parameters_ascending() {
    let s = Shape::Sphere(Sphere::new());
    let heap = heap_of(&[5.0, 7.0, -3.0, 2.0, 2.0, -3.5, 9.0], &s);
    assert_eq!(7, heap.len());
    assert_eq!(vec![-3.5, -3.0, 2.0, 2.0, 5.0, 7.0, 9.0], parameters(&heap));
}

#[test]
fn equal_parameters_stay_in_the_order_pushed() {
    let first = Shape::Sphere(Sphere::new());
    let second = Shape::Sphere(Sphere::new());
    let third = Shape::Sphere(Sphere::new());
    let mut heap = IntersectionHeap::new();
    heap.push(Intersection::new(sc(1.0), &first));
    heap.push(Intersection::new(sc(1.0), &second));
    heap.push(Intersection::new(sc(0.5), &third));
    heap.push(Intersection::new(sc(1.0), &third));
    assert!(std::ptr::eq(heap.get(0).object(), &third));
    assert!(std::ptr::eq(heap.get(1).object(), &first));
    assert!(std::ptr::eq(heap.get(2).object(), &second));
    assert!(std::ptr::eq(heap.get(3).object(), &third));
}

#[test]
fn the_hit_when_all_intersections_have_positive_t() {
    let s = Shape::Sphere(Sphere::new());
    let heap = heap_of(&[1.0, 2.0], &s);
    assert_eq!(sc(1.0), heap.hit().unwrap().t());
}

#[test]
fn the_hit_when_some_intersections_have_negative_t() {
    let s = Shape::Sphere(Sphere::new());
    let heap = heap_of(&[-1.0, 1.0], &s);
    assert_eq!(sc(1.0), heap.hit().unwrap().t());
}

#[test]
fn the_hit_when_all_intersections_have_negative_t() {
    let s = Shape::Sphere(Sphere::new());
    let heap = heap_of(&[-2.0, -1.0], &s);
    assert!(heap.hit().is_none());
}

#[test]
fn the_hit_is_always_the_lowest_nonnegative_intersection() {
    let s = Shape::Sphere(Sphere::new());
    let heap = heap_of(&[5.0, 7.0, -3.0, 2.0], &s);
    assert_eq!(sc(2.0), heap.hit().unwrap().t());
}

#[test]
fn the_hit_of_an_empty_heap_is_none() {
    let heap = IntersectionHeap::new();
    assert_eq!(0, heap.len());
    assert!(heap.hit().is_none());
}

#[test]
fn a_parameter_of_zero_is_a_hit() {
    let s = Shape::Sphere(Sphere::new());
    let heap = heap_of(&[3.0, 0.0, -1.0], &s);
    assert_eq!(sc(0.0), heap.hit().unwrap().t());
}

#[test]
fn the_hit_among_equal_parameters_is_the_first_pushed() {
    let first = Shape::Sphere(Sphere::new());
    let second = Shape::Sphere(Sphere::new());
    let mut heap = IntersectionHeap::new();
    heap.push(Intersection::new(sc(-1.0), &second));
    heap.push(Intersection::new(sc(2.0), &first));
    heap.push(Intersection::new(sc(2.0), &second));
    assert!(std::ptr::eq(heap.hit().unwrap().object(), &first));
}

#[test]
fn precomputing_the_state_of_an_intersection() {
    let r = Ray::new(point(0.0, 0.0, -5.0), vector(0.0, 0.0, 1.0));
    let shape = Shape::Sphere(Sphere::new());
    let i = Intersection::new(sc(4.0), &shape);
    let comps = PreComputations::new(i, r);
    assert_eq!(i.t(), comps.t());
    assert!(std::ptr::eq(comps.object(), &shape));
    assert_eq!(point(0.0, 0.0, -1.0), comps.point());
    assert_eq!(vector(0.0, 0.0, -1.0), comps.eye_v());
    assert_eq!(vector(0.0, 0.0, -1.0), comps.normal_v());
}

#[test]
fn the_hit_when_an_intersection_occurs_on_the_outside() {
    let r = Ray::new(point(0.0, 0.0, -5.0), vector(0.0, 0.0, 1.0));
    let shape = Shape::Sphere(Sphere::new());
    let comps = PreComputations::new(Intersection::new(sc(4.0), &shape), r);
    assert!(!comps.inside());
}

#[test]
fn the_hit_when_an_intersection_occurs_on_the_inside() {
    let r = Ray::new(point(0.0, 0.0, 0.0), vector(0.0, 0.0, 1.0));
    let shape = Shape::Sphere(Sphere::new());
    let comps = PreComputations::new(Intersection::new(sc(1.0), &shape), r);
    assert_eq!(point(0.0, 0.0, 1.0), comps.point());
    assert_eq!(vector(0.0, 0.0, -1.0), comps.eye_v());
    assert!(comps.inside());
    assert_eq!(sc(-1.0), comps.normal_v().z);
    assert!(comps.normal_v().dot(comps.eye_v()).raw() >= 0);
}

#[test]
fn the_hit_should_offset_the_point() {
    let r = Ray::new(point(0.0, 0.0, -5.0), vector(0.0, 0.0, 1.0));
    let mut s = Sphere::new();
    s.set_transformation(Transformation::identity().translation(sc(0.0), sc(0.0), sc(1.0)));
    let shape = Shape::Sphere(s);
    let comps = PreComputations::new(Intersection::new(sc(5.0), &shape), r);
    assert!(comps.over_point().z.raw() < -5_000);
    assert!(comps.point().z.raw() > comps.over_point().z.raw());
    assert_eq!(sc(-0.00001), comps.over_point().z);
    assert_eq!(sc(0.0), comps.point().z);
}

#[test]
fn the_normal_faces_the_eye_from_every_side() {
    let shape = Shape::Sphere(Sphere::new());
    let origins = [-2.5, -0.4, 0.0, 0.3, 1.9];
    for ox in origins {
        for oy in origins {
            let r = Ray::new(point(ox, oy, -0.2), vector(0.3, -0.2, 1.0));
            let xs = r.intersections(&shape);
            for k in 0..xs.len() {
                let comps = PreComputations::new(xs.get(k), r);
                assert!(comps.normal_v().dot(comps.eye_v()).raw() >= 0);
            }
        }
    }
}
