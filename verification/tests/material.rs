use ray_tracer_challenge::color::Color;
use ray_tracer_challenge::intersection::shape::material::Material;
use ray_tracer_challenge::point_light::PointLight;
use ray_tracer_challenge::scalar::Scalar;
use ray_tracer_challenge::tuple::Tuple;

fn sc(x: f64) -> Scalar {
    Scalar::from_raw((x * 1e9).round() as i64)
}

fn point(x: f64, y: f64, z: f64) -> Tuple {
    Tuple::point(sc(x), sc(y), sc(z))
}

fn vector(x: f64, y: f64, z: f64) -> Tuple {
    Tuple::vector(sc(x), sc(y), sc(z))
}

fn color(r: f64, g: f64, b: f64) -> Color {
    Color::new(sc(r), sc(g), sc(b))
}

#[test]
fn the_default_material() {
    let m = Material::new();

    assert_eq!(Color::white(), m.color());
    assert_eq!(sc(0.1), m.ambient());
    assert_eq!(sc(0.9), m.diffuse());
    assert_eq!(sc(0.9), m.specular());
    assert_eq!(sc(200.0), m.shininess());
}

#[test]
fn lighting_with_the_eye_between_the_light_and_the_surface() {
    let m = Material::new();
    let position = Tuple::origin();

    let eye_v = vector(0.0, 0.0, -1.0);
    let normal_v = vector(0.0, 0.0, -1.0);
    let light = PointLight::new(point(0.0, 0.0, -10.0), Color::white());

    let result = m.lighting(light, position, eye_v, normal_v, false);

    assert_eq!(color(1.9, 1.9, 1.9), result);
}

#[test]
fn lighting_with_the_eye_between_light_and_surface_eye_offset_45() {
    let m = Material::new();
    let position = Tuple::origin();

    let eye_v = vector(0.0, 2f64.sqrt() / 2.0, -2f64.sqrt() / 2.0);
    let normal_v = vector(0.0, 0.0, -1.0);
    let light = PointLight::new(point(0.0, 0.0, -10.0), Color::white());

    let result = m.lighting(light, position, eye_v, normal_v, false);

    assert_eq!(color(1.0, 1.0, 1.0), result);
}

#[test]
fn lighting_with_eye_opposite_surface_light_offset_45() {
    let m = Material::new();
    let position = Tuple::origin();

    let eye_v = vector(0.0, 0.0, -1.0);
    let normal_v = vector(0.0, 0.0, -1.0);
    let light = PointLight::new(point(0.0, 10.0, -10.0), Color::white());

    let result = m.lighting(light, position, eye_v, normal_v, false);

    assert_eq!(color(0.7364, 0.7364, 0.7364), result);
}

#[test]
fn lighting_with_eye_in_the_path_of_the_reflection_vector() {
    let m = Material::new();
    let position = Tuple::origin();

    let eye_v = vector(0.0, 0.0, -1.0);
    let normal_v = vector(0.0, 0.0, -1.0);
    let light = PointLight::new(point(0.0, 0.0, 10.0), Color::white());

    let result = m.lighting(light, position, eye_v, normal_v, false);

    assert_eq!(color(0.1, 0.1, 0.1), result);
}

#[test]
fn lighting_with_the_eye_where_the_light_is_reflected() {
    let m = Material::new();
    let position = Tuple::origin();

    let eye_v = vector(0.0, -(2f64.sqrt()) / 2.0, -(2f64.sqrt()) / 2.0);
    let normal_v = vector(0.0, 0.0, -1.0);
    let light = PointLight::new(point(0.0, 10.0, -10.0), Color::white());

    let result = m.lighting(light, position, eye_v, normal_v, false);

    let red = result.red.raw() as f64 / 1e9;
    assert!((red - 1.6364).abs() < 1e-4, "{}", red);
    assert_eq!(result.red, result.green);
    assert_eq!(result.red, result.blue);
}

#[test]
fn lighting_with_the_surface_in_shadow() {
    let m = Material::new();
    let position = Tuple::origin();

    let eye_v = vector(0.0, 0.0, -1.0);
    let normal_v = vector(0.0, 0.0, -1.0);
    let light = PointLight::new(point(0.0, 0.0, -10.0), Color::white());

    let result = m.lighting(light, position, eye_v, normal_v, true);

    assert_eq!(color(0.1, 0.1, 0.1), result);
    assert_eq!(sc(0.1).raw(), result.red.raw());
    assert_eq!(sc(0.1).raw(), result.green.raw());
    assert_eq!(sc(0.1).raw(), result.blue.raw());
}

#[test]
fn shadow_leaves_the_ambient_part_of_any_material() {
    let m = Material::new().with_color(color(0.5, 0.25, 1.0)).with_ambient(sc(0.4));
    let light = PointLight::new(point(3.0, 4.0, -10.0), color(1.0, 0.5, 0.5));

    let result = m.lighting(
        light,
        point(1.0, 1.0, 1.0),
        vector(0.0, 0.0, -1.0),
        vector(0.0, 0.0, -1.0),
        true,
    );

    assert_eq!(sc(0.2).raw(), result.red.raw());
    assert_eq!(sc(0.05).raw(), result.green.raw());
    assert_eq!(sc(0.2).raw(), result.blue.raw());
}

#[test]
fn builders_change_one_field_each() {
    let m = Material::default()
        .with_color(color(0.8, 1.0, 0.6))
        .with_ambient(sc(0.2))
        .with_diffuse(sc(0.7))
        .with_specular(sc(0.3))
        .with_shininess(sc(10.0));

    assert_eq!(color(0.8, 1.0, 0.6), m.color());
    assert_eq!(sc(0.2), m.ambient());
    assert_eq!(sc(0.7), m.diffuse());
    assert_eq!(sc(0.3), m.specular());
    assert_eq!(sc(10.0), m.shininess());
    assert!(m != Material::default());
    assert!(Material::new() == Material::default());
}

#[test]
fn materials_are_equal_within_the_tolerance() {
    let m = Material::new();
    assert!(m == m.with_ambient(Scalar::from_raw(100_009_999)));
    assert!(m != m.with_ambient(Scalar::from_raw(100_010_000)));
    assert!(m != m.with_shininess(sc(200.1)));
}
