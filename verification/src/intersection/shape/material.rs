//! Surface materials and the Phong reflection model.

use crate::color::Color;
use crate::point_light::PointLight;
use crate::scalar::Scalar;
use crate::tuple::Tuple;
use vstd::prelude::*;
use vstd::std_specs::cmp::PartialEqSpecImpl;

verus! {

/// How a surface answers light: its color, the weights of the ambient,
/// diffuse and specular contributions, and the sharpness of its highlight.
#[derive(Clone, Copy, Debug)]
pub struct Material {
    pub color: Color,
    pub ambient: Scalar,
    pub diffuse: Scalar,
    pub specular: Scalar,
    pub shininess: Scalar,
}

impl Material {
    /// White, ambient 0.1, diffuse 0.9, specular 0.9, shininess 200.
    pub open spec fn default_spec() -> Material {
        Material {
            color: Color::white_spec(),
            ambient: Scalar { raw: 100_000_000 },
            diffuse: Scalar { raw: 900_000_000 },
            specular: Scalar { raw: 900_000_000 },
            shininess: Scalar { raw: 200_000_000_000 },
        }
    }

    pub open spec fn approx_eq_spec(self, rhs: Material) -> bool {
        &&& self.color.approx_eq_spec(rhs.color)
        &&& self.ambient.approx_eq_spec(rhs.ambient)
        &&& self.diffuse.approx_eq_spec(rhs.diffuse)
        &&& self.specular.approx_eq_spec(rhs.specular)
        &&& self.shininess.approx_eq_spec(rhs.shininess)
    }

    /// The surface color as the light tints it.
    pub open spec fn effective_color(self, light: PointLight) -> Color {
        self.color.mul_spec(light.intensity)
    }

    /// The light that reaches the surface from everywhere.
    pub open spec fn ambient_spec(self, light: PointLight) -> Color {
        self.effective_color(light).scale_spec(self.ambient)
    }

    /// The unit vector from `point` toward the light.
    pub open spec fn light_direction(light: PointLight, point: Tuple) -> Tuple {
        light.position.sub_spec(point).normalize_spec()
    }

    /// The light scattered evenly by the surface: none when the light is
    /// behind it, else in proportion to the cosine of the angle between the
    /// normal and the direction of the light.
    pub open spec fn diffuse_spec(self, light: PointLight, point: Tuple, normal_v: Tuple) -> Color {
        let light_dot_normal = Self::light_direction(light, point).dot_spec(normal_v);
        if light_dot_normal@ < 0 {
            Color::black_spec()
        } else {
            self.effective_color(light).scale_spec(self.diffuse).scale_spec(light_dot_normal)
        }
    }

    /// The cosine of the angle between the eye and the light's reflection.
    pub open spec fn reflect_dot_eye(
        light: PointLight,
        point: Tuple,
        eye_v: Tuple,
        normal_v: Tuple,
    ) -> Scalar {
        Self::light_direction(light, point).neg_spec().reflect_spec(normal_v).dot_spec(eye_v)
    }

    /// The highlight: none when the light is behind the surface or reflects
    /// away from the eye, else the light's intensity weighted by that cosine
    /// raised to the shininess.
    pub open spec fn specular_spec(
        self,
        light: PointLight,
        point: Tuple,
        eye_v: Tuple,
        normal_v: Tuple,
    ) -> Color {
        let light_dot_normal = Self::light_direction(light, point).dot_spec(normal_v);
        let reflect_dot_eye = Self::reflect_dot_eye(light, point, eye_v, normal_v);
        if light_dot_normal@ < 0 {
            Color::black_spec()
        } else if reflect_dot_eye.approx_eq_spec(Scalar::zero_spec()) || reflect_dot_eye@ < 0 {
            Color::black_spec()
        } else {
            light.intensity.scale_spec(self.specular).scale_spec(
                reflect_dot_eye.powf_spec(self.shininess),
            )
        }
    }

    /// The color of the surface at `point`: the ambient contribution alone
    /// in shadow, else the sum of ambient, diffuse and specular.
    pub open spec fn lighting_spec(
        self,
        light: PointLight,
        point: Tuple,
        eye_v: Tuple,
        normal_v: Tuple,
        in_shadow: bool,
    ) -> Color {
        if in_shadow {
            self.ambient_spec(light)
        } else {
            self.ambient_spec(light).add_spec(self.diffuse_spec(light, point, normal_v)).add_spec(
                self.specular_spec(light, point, eye_v, normal_v),
            )
        }
    }

    pub fn new() -> (r: Material)
        ensures
            r == Self::default_spec(),
    {
        Material {
            color: Color::white(),
            ambient: Scalar::from_raw(100_000_000),
            diffuse: Scalar::from_raw(900_000_000),
            specular: Scalar::from_raw(900_000_000),
            shininess: Scalar::from_raw(200_000_000_000),
        }
    }

    pub fn color(&self) -> (r: Color)
        ensures
            r == self.color,
    {
        self.color
    }

    pub fn ambient(&self) -> (r: Scalar)
        ensures
            r == self.ambient,
    {
        self.ambient
    }

    pub fn diffuse(&self) -> (r: Scalar)
        ensures
            r == self.diffuse,
    {
        self.diffuse
    }

    pub fn specular(&self) -> (r: Scalar)
        ensures
            r == self.specular,
    {
        self.specular
    }

    pub fn shininess(&self) -> (r: Scalar)
        ensures
            r == self.shininess,
    {
        self.shininess
    }

    pub fn with_color(self, color: Color) -> (r: Material)
        ensures
            r == (Material { color, ..self }),
    {
        Material { color, ..self }
    }

    pub fn with_ambient(self, ambient: Scalar) -> (r: Material)
        ensures
            r == (Material { ambient, ..self }),
    {
        Material { ambient, ..self }
    }

    pub fn with_diffuse(self, diffuse: Scalar) -> (r: Material)
        ensures
            r == (Material { diffuse, ..self }),
    {
        Material { diffuse, ..self }
    }

    pub fn with_specular(self, specular: Scalar) -> (r: Material)
        ensures
            r == (Material { specular, ..self }),
    {
        Material { specular, ..self }
    }

    pub fn with_shininess(self, shininess: Scalar) -> (r: Material)
        ensures
            r == (Material { shininess, ..self }),
    {
        Material { shininess, ..self }
    }

    /// The color that the eye sees at `point` on a surface of this material.
    pub fn lighting(
        &self,
        light: PointLight,
        point: Tuple,
        eye_v: Tuple,
        normal_v: Tuple,
        in_shadow: bool,
    ) -> (r: Color)
        ensures
            r == self.lighting_spec(light, point, eye_v, normal_v, in_shadow),
            in_shadow ==> r == self.ambient_spec(light),
    {
        let effective_color: Color = self.color.mul(light.intensity);
        let ambient: Color = effective_color.scale(self.ambient);
        if in_shadow {
            return ambient;
        }
        let light_v: Tuple = light.position.sub(point).normalize();
        let light_dot_normal: Scalar = light_v.dot(normal_v);
        let mut diffuse: Color = Color::black();
        let mut specular: Color = Color::black();
        if light_dot_normal.raw >= 0 {
            diffuse = effective_color.scale(self.diffuse).scale(light_dot_normal);
            let reflect_v: Tuple = light_v.neg().reflect(normal_v);
            let reflect_dot_eye: Scalar = reflect_v.dot(eye_v);
            if !(reflect_dot_eye.approx_eq(Scalar::zero()) || reflect_dot_eye.raw < 0) {
                let factor: Scalar = reflect_dot_eye.powf(self.shininess);
                specular = light.intensity.scale(self.specular).scale(factor);
            }
        }
        ambient.add(diffuse).add(specular)
    }
}

impl Default for Material {
    fn default() -> (r: Material)
        ensures
            r == Material::default_spec(),
    {
        Material::new()
    }
}

impl PartialEq for Material {
    /// Equality of the color and of each coefficient up to the scalar
    /// tolerance.
    fn eq(&self, other: &Material) -> (r: bool) {
        self.color.approx_eq(&other.color) && self.ambient.approx_eq(other.ambient)
            && self.diffuse.approx_eq(other.diffuse) && self.specular.approx_eq(other.specular)
            && self.shininess.approx_eq(other.shininess)
    }
}

impl PartialEqSpecImpl for Material {
    open spec fn obeys_eq_spec() -> bool {
        true
    }

    open spec fn eq_spec(&self, other: &Material) -> bool {
        self.approx_eq_spec(*other)
    }
}

} // verus!
