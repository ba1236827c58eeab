//! Materials: the closed set of ways in which a surface treats light.

use crate::hittable::HitRecord;
use crate::onb::ONB;
use crate::pdf::{CosinePDF, PDF};
use crate::ray::Ray;
use crate::texture::{Texture, UVCoord};
use crate::util::{above, below, is_above, is_below, Key, ONE, ZERO};
use crate::vec3::Vec3;
use vstd::prelude::*;

verus! {

/// How a ray leaves a surface: along one ray that the surface fixes, or in a
/// direction still to be drawn from a density.
#[derive(Debug)]
pub enum ScatterType {
    Specular(Ray),
    PDF(PDF),
}

/// A scattered ray and its attenuation.
#[derive(Debug)]
pub struct Scatter {
    pub attenuation: Vec3,
    pub scattered: ScatterType,
}

impl Scatter {
    pub fn new(attenuation: Vec3, scattered: ScatterType) -> (r: Scatter)
        ensures
            r == (Scatter { attenuation, scattered }),
    {
        Scatter { attenuation, scattered }
    }
}

/// What a ray that strikes a dielectric can do, worked out for one hit.
#[derive(Copy, Clone, Debug, PartialEq, Eq, Structural)]
pub struct Refraction {
    /// The ratio of the refractive indices times the sine of the angle of
    /// incidence. Above one, the ray cannot pass.
    pub sine_ratio: Key,
    /// The share of light that the surface reflects at this angle.
    pub reflect_prob: Key,
    /// A number drawn evenly between zero and one.
    pub draw: Key,
    /// The direction of the reflected ray.
    pub reflected: Vec3,
    /// The direction of the refracted ray.
    pub refracted: Vec3,
}

/// A diffuse surface, coloured by a texture.
#[derive(Copy, Clone, Debug, PartialEq, Eq, Structural)]
pub struct Lambertian {
    pub albedo: Texture,
}

/// A reflective surface. `fuzz` blurs the reflection and never exceeds one.
#[derive(Copy, Clone, Debug, PartialEq, Eq, Structural)]
pub struct Metal {
    pub albedo: Vec3,
    pub fuzz: Key,
}

/// A transparent surface that refracts or reflects.
#[derive(Copy, Clone, Debug, PartialEq, Eq, Structural)]
pub struct Dielectric {
    /// The refractive index of the material.
    pub refractive_index: Key,
    /// The tint of the material, white unless chosen otherwise.
    pub albedo: Vec3,
    /// How strongly the material absorbs light that travels through it.
    pub density: Key,
}

/// A surface that gives off light and scatters none.
#[derive(Copy, Clone, Debug, PartialEq, Eq, Structural)]
pub struct DiffuseLight {
    /// The emitting texture.
    pub emit: Texture,
}

/// The phase function of a participating medium: scatters evenly in all
/// directions.
#[derive(Copy, Clone, Debug, PartialEq, Eq, Structural)]
pub struct Isotropic {
    pub albedo: Texture,
}

/// A material. Each kind scatters incident light in its own way.
#[derive(Copy, Clone, Debug, PartialEq, Eq, Structural)]
pub enum Material {
    Lambertian(Lambertian),
    Metal(Metal),
    Dielectric(Dielectric),
    DiffuseLight(DiffuseLight),
    Isotropic(Isotropic),
}

impl Lambertian {
    pub fn new(albedo: Texture) -> (r: Lambertian)
        ensures
            r.albedo == albedo,
    {
        Lambertian { albedo }
    }

    /// Scatters a ray diffusely: always, with the colour of the texture at
    /// the point struck, in a direction to be drawn from the cosine density
    /// about the normal. `uvw` is a basis whose third direction is the
    /// normal of the hit; `texture_value` evaluates a texture.
    pub fn scatter<T: Fn(Texture, UVCoord, &Vec3) -> Vec3>(
        &self,
        texture_value: &T,
        _ray_in: &Ray,
        rec: &HitRecord,
        uvw: ONB,
    ) -> (r: Option<Scatter>)
        requires
            texture_value.requires((self.albedo, rec.uv, &rec.hit_point)),
        ensures
            r matches Some(s) && texture_value.ensures(
                (self.albedo, rec.uv, &rec.hit_point),
                s.attenuation,
            ) && s.scattered == ScatterType::PDF(PDF::Cosine(CosinePDF { uvw })),
    {
        let albedo = texture_value(self.albedo, rec.uv, &rec.hit_point);
        Some(Scatter::new(albedo, ScatterType::PDF(PDF::cosine(uvw))))
    }

    /// The density with which the surface scatters into a direction whose
    /// cosine with the normal is `cosine`: nothing where the cosine is a
    /// number below zero, else the cosine over pi, which `over_pi` works
    /// out, also for a cosine that is no number.
    pub fn scattering_pdf<Q: Fn(Key) -> Key>(&self, cosine: Key, over_pi: &Q) -> (r: Key)
        requires
            over_pi.requires((cosine,)),
        ensures
            if is_below(cosine, ZERO) {
                r == ZERO
            } else {
                over_pi.ensures((cosine,), r)
            },
    {
        if below(cosine, ZERO) {
            ZERO
        } else {
            over_pi(cosine)
        }
    }
}

impl Metal {
    /// The fuzz that a metal is given: `fuzz` itself where it is a number
    /// below one, else one, and so also where `fuzz` is no number.
    pub open spec fn held(fuzz: Key) -> Key {
        if is_below(fuzz, ONE) {
            fuzz
        } else {
            ONE
        }
    }

    /// Creates a metal. A `fuzz` of one or more, or one that is no number,
    /// is taken as one.
    pub fn new(albedo: Vec3, fuzz: Key) -> (r: Metal)
        ensures
            r.albedo == albedo,
            r.fuzz == Metal::held(fuzz),
    {
        Metal { albedo, fuzz: if below(fuzz, ONE) { fuzz } else { ONE } }
    }

    /// What `scatter` returns: the bounce where `facing` is a number above
    /// zero, nothing where it is not, and so also where it is no number.
    pub open spec fn scattered(
        self,
        ray_in: Ray,
        rec: HitRecord,
        direction: Vec3,
        facing: Key,
    ) -> Option<Scatter> {
        if is_above(facing, ZERO) {
            Some(
                Scatter {
                    attenuation: self.albedo,
                    scattered: ScatterType::Specular(
                        Ray { origin: rec.hit_point, direction, time: ray_in.time },
                    ),
                },
            )
        } else {
            None
        }
    }

    /// Scatters a ray off the metal. `direction` is the mirrored direction
    /// of the incoming ray after the metal's fuzz has disturbed it, `facing`
    /// its dot product with the normal of the hit. The ray leaves the point
    /// struck along `direction`, tinted by the metal, unless `direction`
    /// points into the surface or along it: then the light is absorbed.
    pub fn scatter(&self, ray_in: &Ray, rec: &HitRecord, direction: Vec3, facing: Key) -> (r:
        Option<Scatter>)
        ensures
            r == self.scattered(*ray_in, *rec, direction, facing),
    {
        let scattered = Ray::new(rec.hit_point, direction, ray_in.time);
        if above(facing, ZERO) {
            Some(Scatter::new(self.albedo, ScatterType::Specular(scattered)))
        } else {
            None
        }
    }
}

impl Dielectric {
    /// Creates an untinted dielectric.
    pub fn new(refractive_index: Key, density: Key) -> (r: Dielectric)
        ensures
            r == (Dielectric { refractive_index, albedo: Vec3(ONE, ONE, ONE), density }),
    {
        Dielectric::new_with_albedo(Vec3::new(ONE, ONE, ONE), refractive_index, density)
    }

    /// Creates a dielectric with a tint of its own.
    pub fn new_with_albedo(albedo: Vec3, refractive_index: Key, density: Key) -> (r: Dielectric)
        ensures
            r == (Dielectric { refractive_index, albedo, density }),
    {
        Dielectric { albedo, refractive_index, density }
    }

    /// Whether `r` may be the ratio of the refractive indices before and
    /// behind the surface for a hit. The other side of the surface is air,
    /// with an index of one: a ray that strikes the outer face goes from
    /// one to the index of the material, and the ratio is one over that
    /// index, as `inverse` works it out; a ray that strikes the surface
    /// from inside goes the other way, and the ratio is the index itself.
    pub open spec fn ratio_of<V: Fn(Key) -> Key>(self, rec: HitRecord, inverse: V, r: Key) -> bool {
        if rec.front_face {
            inverse.ensures((self.refractive_index,), r)
        } else {
            r == self.refractive_index
        }
    }

    /// The ratio of the refractive indices before and behind the surface
    /// for a hit. `inverse` gives one over a number.
    pub fn ratio<V: Fn(Key) -> Key>(&self, rec: &HitRecord, inverse: &V) -> (r: Key)
        requires
            rec.front_face ==> inverse.requires((self.refractive_index,)),
        ensures
            self.ratio_of(*rec, *inverse, r),
    {
        if rec.front_face {
            inverse(self.refractive_index)
        } else {
            self.refractive_index
        }
    }

    /// Whether a ray must be reflected: it cannot pass the surface at its
    /// angle, or the draw falls below the share that the surface reflects.
    /// Neither holds of what is no number, so that such a ray is refracted.
    pub open spec fn reflects(bend: Refraction) -> bool {
        is_above(bend.sine_ratio, ONE) || is_below(bend.draw, bend.reflect_prob)
    }

    /// The bounce of a ray that leaves the point struck in a direction,
    /// attenuated.
    pub open spec fn bounce(attenuation: Vec3, ray_in: Ray, rec: HitRecord, direction: Vec3) -> Scatter {
        Scatter {
            attenuation,
            scattered: ScatterType::Specular(
                Ray { origin: rec.hit_point, direction, time: ray_in.time },
            ),
        }
    }

    /// Whether `r` may be what the dielectric does to a ray. A ray that
    /// must be reflected leaves along the reflected direction, tinted by
    /// the material. Every other ray leaves along the refracted direction
    /// and keeps what the medium lets through: air absorbs nothing, so a
    /// ray that struck the outer face has an absorbance of nothing; one
    /// that struck the surface from inside has the absorbance that
    /// `absorb` works out for its way through the medium; and `let_through`
    /// tells what is left of the light after either.
    pub open spec fn scattered<X: Fn(&Dielectric, &HitRecord) -> Vec3, Y: Fn(&Vec3) -> Vec3>(
        self,
        ray_in: Ray,
        rec: HitRecord,
        bend: Refraction,
        absorb: X,
        let_through: Y,
        r: Option<Scatter>,
    ) -> bool {
        if Dielectric::reflects(bend) {
            r == Some(Dielectric::bounce(self.albedo, ray_in, rec, bend.reflected))
        } else {
            exists|absorbance: Vec3, transparency: Vec3|
                {
                    &&& if rec.front_face {
                        absorbance == Vec3(ZERO, ZERO, ZERO)
                    } else {
                        absorb.ensures((&self, &rec), absorbance)
                    }
                    &&& #[trigger] let_through.ensures((&absorbance,), transparency)
                    &&& r == Some(Dielectric::bounce(transparency, ray_in, rec, bend.refracted))
                }
        }
    }

    /// Scatters a ray at the surface of the dielectric: always, and along
    /// one ray. The ray is reflected, tinted by the material, where it
    /// cannot pass or chance has it so; else it is refracted and loses what
    /// the medium absorbs on the way out of it, and nothing on the way in.
    pub fn scatter<X: Fn(&Dielectric, &HitRecord) -> Vec3, Y: Fn(&Vec3) -> Vec3>(
        &self,
        ray_in: &Ray,
        rec: &HitRecord,
        bend: &Refraction,
        absorb: &X,
        let_through: &Y,
    ) -> (r: Option<Scatter>)
        requires
            !rec.front_face ==> absorb.requires((self, rec)),
            forall|absorbance: &Vec3| let_through.requires((absorbance,)),
        ensures
            self.scattered(*ray_in, *rec, *bend, *absorb, *let_through, r),
    {
        let scatter = if above(bend.sine_ratio, ONE) || below(bend.draw, bend.reflect_prob) {
            let scattered = Ray::new(rec.hit_point, bend.reflected, ray_in.time);
            Scatter::new(self.albedo, ScatterType::Specular(scattered))
        } else {
            let scattered = Ray::new(rec.hit_point, bend.refracted, ray_in.time);
            let absorbance = if rec.front_face {
                Vec3::new(ZERO, ZERO, ZERO)
            } else {
                absorb(self, rec)
            };
            let transparency = let_through(&absorbance);
            Scatter::new(transparency, ScatterType::Specular(scattered))
        };
        Some(scatter)
    }
}

impl DiffuseLight {
    /// Creates a light that glows with the given texture.
    pub fn new(emit: Texture) -> (r: DiffuseLight)
        ensures
            r.emit == emit,
    {
        DiffuseLight { emit }
    }

    /// A light scatters nothing.
    pub fn scatter(&self, _ray: &Ray, _rec: &HitRecord) -> (r: Option<Scatter>)
        ensures
            r is None,
    {
        None
    }

    /// The light given off at a point: the texture's colour there, whichever
    /// side of the surface is seen. `texture_value` evaluates a texture.
    pub fn emitted<T: Fn(Texture, UVCoord, &Vec3) -> Vec3>(
        &self,
        texture_value: &T,
        uv_coord: UVCoord,
        point: &Vec3,
    ) -> (r: Vec3)
        requires
            texture_value.requires((self.emit, uv_coord, point)),
        ensures
            texture_value.ensures((self.emit, uv_coord, point), r),
    {
        texture_value(self.emit, uv_coord, point)
    }
}

impl Isotropic {
    /// Creates the phase function of a medium of the given colour.
    pub fn new(albedo: Texture) -> (r: Isotropic)
        ensures
            r.albedo == albedo,
    {
        Isotropic { albedo }
    }

    /// Scatters a ray inside a medium: always, along `direction`, which the
    /// caller has drawn evenly from all directions, with the colour of the
    /// texture at the point struck. `texture_value` evaluates a texture.
    pub fn scatter<T: Fn(Texture, UVCoord, &Vec3) -> Vec3>(
        &self,
        texture_value: &T,
        ray: &Ray,
        rec: &HitRecord,
        direction: Vec3,
    ) -> (r: Option<Scatter>)
        requires
            texture_value.requires((self.albedo, rec.uv, &rec.hit_point)),
        ensures
            r matches Some(s) && texture_value.ensures(
                (self.albedo, rec.uv, &rec.hit_point),
                s.attenuation,
            ) && s.scattered == ScatterType::Specular(
                Ray { origin: rec.hit_point, direction, time: ray.time },
            ),
    {
        let scattered = Ray::new(rec.hit_point, direction, ray.time);
        let attenuation = texture_value(self.albedo, rec.uv, &rec.hit_point);
        Some(Scatter::new(attenuation, ScatterType::Specular(scattered)))
    }
}

impl Material {
    /// Creates a new lambertian material.
    pub fn lambertian(albedo: Texture) -> (r: Material)
        ensures
            r == Material::Lambertian(Lambertian { albedo }),
    {
        Material::Lambertian(Lambertian::new(albedo))
    }

    /// Creates a new metallic material. A `fuzz` of one or more is taken
    /// as one.
    pub fn metal(albedo: Vec3, fuzz: Key) -> (r: Material)
        ensures
            r == Material::Metal(Metal { albedo, fuzz: Metal::held(fuzz) }),
    {
        Material::Metal(Metal::new(albedo, fuzz))
    }

    /// Creates a new, untinted dielectric material.
    pub fn dielectric(refractive_index: Key, density: Key) -> (r: Material)
        ensures
            r == Material::Dielectric(
                Dielectric { refractive_index, albedo: Vec3(ONE, ONE, ONE), density },
            ),
    {
        Material::Dielectric(Dielectric::new(refractive_index, density))
    }

    /// Creates a new dielectric material with a tint of its own.
    pub fn dielectric_with_albedo(albedo: Vec3, refractive_index: Key, density: Key) -> (r:
        Material)
        ensures
            r == Material::Dielectric(Dielectric { refractive_index, albedo, density }),
    {
        Material::Dielectric(Dielectric::new_with_albedo(albedo, refractive_index, density))
    }

    /// Creates a new diffuse light.
    pub fn diffuse_light(emit: Texture) -> (r: Material)
        ensures
            r == Material::DiffuseLight(DiffuseLight { emit }),
    {
        Material::DiffuseLight(DiffuseLight::new(emit))
    }

    /// Creates a new isotropic material.
    pub fn isotropic(albedo: Texture) -> (r: Material)
        ensures
            r == Material::Isotropic(Isotropic { albedo }),
    {
        Material::Isotropic(Isotropic::new(albedo))
    }

    /// Whether `r` may be the light that the material gives off at a
    /// point: a colour that `texture_value` reports for the texture of a
    /// light, black for every other material.
    pub open spec fn emits<T: Fn(Texture, UVCoord, &Vec3) -> Vec3>(
        self,
        texture_value: T,
        uv_coord: UVCoord,
        point: Vec3,
        r: Vec3,
    ) -> bool {
        match self {
            Material::DiffuseLight(dl) => texture_value.ensures((dl.emit, uv_coord, &point), r),
            _ => r == Vec3(ZERO, ZERO, ZERO),
        }
    }

    /// The light that the material gives off at a point: the colour of its
    /// texture for a light, black for every other material, for which no
    /// texture is evaluated. `texture_value` evaluates a texture.
    pub fn emitted<T: Fn(Texture, UVCoord, &Vec3) -> Vec3>(
        &self,
        texture_value: &T,
        uv_coord: UVCoord,
        point: &Vec3,
    ) -> (r: Vec3)
        requires
            *self matches Material::DiffuseLight(dl) ==> texture_value.requires(
                (dl.emit, uv_coord, point),
            ),
        ensures
            self.emits(*texture_value, uv_coord, *point, r),
    {
        match self {
            Material::DiffuseLight(dl) => dl.emitted(texture_value, uv_coord, point),
            _ => Vec3::new(ZERO, ZERO, ZERO),
        }
    }

    /// Whether `r` may be what the material does to a ray: what the kind
    /// of material at hand makes of the ingredients that the four
    /// functions report for the hit. A light scatters nothing.
    pub open spec fn scatters<
        T: Fn(Texture, UVCoord, &Vec3) -> Vec3,
        B: Fn(&Ray, &HitRecord) -> ONB,
        M: Fn(&Metal, &Ray, &HitRecord) -> (Vec3, Key),
        V: Fn(Key) -> Key,
        D: Fn(&Dielectric, &Ray, &HitRecord, Key) -> Refraction,
        X: Fn(&Dielectric, &HitRecord) -> Vec3,
        Y: Fn(&Vec3) -> Vec3,
        I: Fn(&Ray, &HitRecord) -> Vec3,
    >(
        self,
        texture_value: T,
        basis: B,
        reflect: M,
        inverse: V,
        bend: D,
        absorb: X,
        let_through: Y,
        any_direction: I,
        ray: Ray,
        rec: HitRecord,
        r: Option<Scatter>,
    ) -> bool {
        match self {
            Material::Lambertian(l) => exists|uvw: ONB|
                {
                    &&& #[trigger] basis.ensures((&ray, &rec), uvw)
                    &&& r matches Some(s)
                    &&& texture_value.ensures((l.albedo, rec.uv, &rec.hit_point), r->0.attenuation)
                    &&& r->0.scattered == ScatterType::PDF(PDF::Cosine(CosinePDF { uvw }))
                },
            Material::Metal(m) => exists|mirrored: (Vec3, Key)|
                {
                    &&& #[trigger] reflect.ensures((&m, &ray, &rec), mirrored)
                    &&& r == m.scattered(ray, rec, mirrored.0, mirrored.1)
                },
            Material::Dielectric(d) => exists|ratio: Key, bent: Refraction|
                {
                    &&& d.ratio_of(rec, inverse, ratio)
                    &&& #[trigger] bend.ensures((&d, &ray, &rec, ratio), bent)
                    &&& d.scattered(ray, rec, bent, absorb, let_through, r)
                },
            Material::DiffuseLight(_) => r is None,
            Material::Isotropic(i) => exists|direction: Vec3|
                {
                    &&& #[trigger] any_direction.ensures((&ray, &rec), direction)
                    &&& r matches Some(s)
                    &&& texture_value.ensures((i.albedo, rec.uv, &rec.hit_point), r->0.attenuation)
                    &&& r->0.scattered == ScatterType::Specular(
                        Ray { origin: rec.hit_point, direction, time: ray.time },
                    )
                },
        }
    }

    /// Whether the functions handed to `scatter` can be asked what the
    /// material at hand needs of them. Nothing is asked for a light.
    pub open spec fn scatterable<
        T: Fn(Texture, UVCoord, &Vec3) -> Vec3,
        B: Fn(&Ray, &HitRecord) -> ONB,
        M: Fn(&Metal, &Ray, &HitRecord) -> (Vec3, Key),
        V: Fn(Key) -> Key,
        D: Fn(&Dielectric, &Ray, &HitRecord, Key) -> Refraction,
        X: Fn(&Dielectric, &HitRecord) -> Vec3,
        Y: Fn(&Vec3) -> Vec3,
        I: Fn(&Ray, &HitRecord) -> Vec3,
    >(
        self,
        texture_value: T,
        basis: B,
        reflect: M,
        inverse: V,
        bend: D,
        absorb: X,
        let_through: Y,
        any_direction: I,
        ray: Ray,
        rec: HitRecord,
    ) -> bool {
        match self {
            Material::Lambertian(l) => texture_value.requires((l.albedo, rec.uv, &rec.hit_point))
                && basis.requires((&ray, &rec)),
            Material::Metal(m) => reflect.requires((&m, &ray, &rec)),
            Material::Dielectric(d) => {
                &&& rec.front_face ==> inverse.requires((d.refractive_index,))
                &&& forall|ratio: Key| bend.requires((&d, &ray, &rec, ratio))
                &&& !rec.front_face ==> absorb.requires((&d, &rec))
                &&& forall|absorbance: &Vec3| let_through.requires((absorbance,))
            },
            Material::DiffuseLight(_) => true,
            Material::Isotropic(i) => texture_value.requires((i.albedo, rec.uv, &rec.hit_point))
                && any_direction.requires((&ray, &rec)),
        }
    }

    /// Scatters a ray off the material. `texture_value` evaluates a
    /// texture, `basis` builds a basis about the normal of a hit, `reflect`
    /// gives the disturbed mirror direction off a metal and its dot product
    /// with the normal, `inverse` gives one over a number, `bend` works
    /// out reflection and refraction at a dielectric for a ratio of
    /// refractive indices, `absorb` the absorbance of a dielectric along a
    /// ray that leaves it, `let_through` what is left of light after an
    /// absorbance, and `any_direction` draws a direction evenly from all.
    /// Only what the material at hand needs is asked for.
    pub fn scatter<
        T: Fn(Texture, UVCoord, &Vec3) -> Vec3,
        B: Fn(&Ray, &HitRecord) -> ONB,
        M: Fn(&Metal, &Ray, &HitRecord) -> (Vec3, Key),
        V: Fn(Key) -> Key,
        D: Fn(&Dielectric, &Ray, &HitRecord, Key) -> Refraction,
        X: Fn(&Dielectric, &HitRecord) -> Vec3,
        Y: Fn(&Vec3) -> Vec3,
        I: Fn(&Ray, &HitRecord) -> Vec3,
    >(
        &self,
        texture_value: &T,
        basis: &B,
        reflect: &M,
        inverse: &V,
        bend: &D,
        absorb: &X,
        let_through: &Y,
        any_direction: &I,
        ray: &Ray,
        rec: &HitRecord,
    ) -> (r: Option<Scatter>)
        requires
            self.scatterable(
                *texture_value,
                *basis,
                *reflect,
                *inverse,
                *bend,
                *absorb,
                *let_through,
                *any_direction,
                *ray,
                *rec,
            ),
        ensures
            self.scatters(
                *texture_value,
                *basis,
                *reflect,
                *inverse,
                *bend,
                *absorb,
                *let_through,
                *any_direction,
                *ray,
                *rec,
                r,
            ),
    {
        match self {
            Material::Lambertian(l) => {
                let uvw = basis(ray, rec);
                l.scatter(texture_value, ray, rec, uvw)
            },
            Material::Metal(m) => {
                let mirrored = reflect(m, ray, rec);
                m.scatter(ray, rec, mirrored.0, mirrored.1)
            },
            Material::Dielectric(d) => {
                let ratio = d.ratio(rec, inverse);
                let bent = bend(d, ray, rec, ratio);
                d.scatter(ray, rec, &bent, absorb, let_through)
            },
            Material::DiffuseLight(dl) => dl.scatter(ray, rec),
            Material::Isotropic(i) => {
                let direction = any_direction(ray, rec);
                i.scatter(texture_value, ray, rec, direction)
            },
        }
    }

    /// Whether `r` may be the density with which the material scatters a
    /// ray into the direction of `scattered`. For a diffuse surface:
    /// nothing where the cosine that `scatter_cosine` reports between the
    /// normal and that direction is a number below zero, else that cosine
    /// over pi. For every other material: nothing.
    pub open spec fn scattering_density<Q: Fn(&Ray, &HitRecord, &Ray) -> Key, O: Fn(Key) -> Key>(
        self,
        scatter_cosine: Q,
        over_pi: O,
        ray_in: Ray,
        rec: HitRecord,
        scattered: Ray,
        r: Key,
    ) -> bool {
        match self {
            Material::Lambertian(_) => exists|cosine: Key|
                {
                    &&& #[trigger] scatter_cosine.ensures((&ray_in, &rec, &scattered), cosine)
                    &&& if is_below(cosine, ZERO) {
                        r == ZERO
                    } else {
                        over_pi.ensures((cosine,), r)
                    }
                },
            _ => r == ZERO,
        }
    }

    /// The density with which the material scatters a ray into the
    /// direction of `scattered`. Only a diffuse surface has one: the cosine
    /// between its normal and that direction, which `scatter_cosine` works
    /// out, over pi, and nothing below the surface. For every other
    /// material it is nothing, and nothing is asked.
    pub fn scattering_pdf<Q: Fn(&Ray, &HitRecord, &Ray) -> Key, O: Fn(Key) -> Key>(
        &self,
        scatter_cosine: &Q,
        over_pi: &O,
        ray_in: &Ray,
        rec: &HitRecord,
        scattered: &Ray,
    ) -> (r: Key)
        requires
            *self is Lambertian ==> scatter_cosine.requires((ray_in, rec, scattered)) && forall|
                k: Key,
            | over_pi.requires((k,)),
        ensures
            self.scattering_density(*scatter_cosine, *over_pi, *ray_in, *rec, *scattered, r),
    {
        match self {
            Material::Lambertian(l) => {
                let cosine = scatter_cosine(ray_in, rec, scattered);
                l.scattering_pdf(cosine, over_pi)
            },
            _ => ZERO,
        }
    }
}

} // verus!
