//! The renderer: light paths, pixels and the image.
//!
//! The radiance that arrives along a ray is estimated by following the ray
//! from surface to surface. Which surface comes next is found in the
//! hierarchy, what the surface gives off and how it scatters is decided by
//! its material, and the direction of a diffuse bounce is drawn from the
//! mixture of the lights' density and the surface's own: all of this
//! happens here. The arithmetic on which those decisions rest is asked of
//! the embedding program through the functions of an [`Optics`]. The
//! estimate is returned as a term, a [`Radiance`], that says which colours
//! are to be multiplied and added; a [`Film`] adds the estimates of a pixel
//! up and turns the sums into the pixel's three levels.

use crate::aabb::{Slab, AABB};
use crate::bvh::BVH;
use crate::hittable::HitRecord;
use crate::material::{Dielectric, Metal, Refraction, Scatter, ScatterType};
use crate::onb::ONB;
use crate::pdf::{CosinePDF, HittablePDF, MixturePDF, PDF};
use crate::ray::Ray;
use crate::texture::{Texture, UVCoord};
use crate::util::{clamped, settled, Key, INFINITY, ZERO};
use crate::vec3::Vec3;
use vstd::prelude::*;

verus! {

/// A pixel: red, green and blue, each from 0 to 255.
pub type Pixel = (u8, u8, u8);

/// The key of one thousandth. Crossings nearer to a ray's origin than this
/// are passed over, so that a ray does not hit the surface it has just
/// left.
pub const T_MIN: Key = 0x3A83_126F;

/// The key of 0.999, the brightest level that a channel can have.
pub const BRIGHTEST: Key = 0x3F7F_BE77;

/// An estimate of the radiance that arrives along a ray, as a term.
#[derive(Debug)]
pub enum Radiance {
    /// A colour as it stands: black where the path was cut short, the
    /// background where the ray left the scene, the light of a surface
    /// that scatters nothing.
    Constant(Vec3),
    /// `emitted + attenuation * incoming`.
    Specular { emitted: Vec3, attenuation: Vec3, incoming: Box<Radiance> },
    /// `emitted + attenuation * scattering_pdf * incoming / pdf_val`.
    Importance {
        emitted: Vec3,
        attenuation: Vec3,
        scattering_pdf: Key,
        pdf_val: Key,
        incoming: Box<Radiance>,
    },
}

impl Radiance {
    /// The number of surfaces that scattered the light of this estimate.
    pub open spec fn bounces(self) -> nat
        decreases self,
    {
        match self {
            Radiance::Constant(_) => 0,
            Radiance::Specular { incoming, .. } => 1 + incoming.bounces(),
            Radiance::Importance { incoming, .. } => 1 + incoming.bounces(),
        }
    }
}

/// The estimate for a ray that a surface sends on along one fixed ray. No
/// density divides it.
pub open spec fn specular(emitted: Vec3, attenuation: Vec3, incoming: Radiance) -> Radiance {
    Radiance::Specular { emitted, attenuation, incoming: Box::new(incoming) }
}

/// The estimate for a ray whose direction was drawn with the density
/// `pdf_val` and into which the surface itself scatters with the density
/// `scattering_pdf`.
pub open spec fn importance(
    emitted: Vec3,
    attenuation: Vec3,
    scattering_pdf: Key,
    pdf_val: Key,
    incoming: Radiance,
) -> Radiance {
    Radiance::Importance {
        emitted,
        attenuation,
        scattering_pdf,
        pdf_val,
        incoming: Box::new(incoming),
    }
}

/// The density from which a direction is drawn at a diffuse surface: an
/// even mixture of the density aimed at the lights from the point struck,
/// and the surface's own.
pub open spec fn light_mixture(lights: usize, origin: Vec3, bsdf: PDF) -> PDF {
    PDF::Mixture(
        MixturePDF(Box::new(PDF::Hittable(HittablePDF { origin, obj: lights })), Box::new(bsdf)),
    )
}

/// What the embedding program works out for the renderer.
pub struct Optics<M, L, T, B, E, V, D, X, Y, I, C, K, N, A, O, P, W, Q> {
    /// How a ray crosses the planes of a box.
    pub measure: M,
    /// Where a ray meets one object within a window.
    pub hit_object: L,
    /// The colour of a texture at a point.
    pub texture_value: T,
    /// A basis about the normal of a hit.
    pub basis: B,
    /// The mirror direction off a metal, disturbed by its fuzz, and its
    /// dot product with the normal.
    pub reflect: E,
    /// One over a number.
    pub inverse: V,
    /// Reflection and refraction at a dielectric, for a ratio of the
    /// refractive indices before and behind the surface.
    pub bend: D,
    /// The absorbance of a dielectric along a ray that leaves it.
    pub absorb: X,
    /// What is left of light after an absorbance.
    pub let_through: Y,
    /// A direction drawn evenly from all directions.
    pub any_direction: I,
    /// A number drawn evenly between zero and one.
    pub draw: C,
    /// A direction drawn about the third direction of a basis, weighted by
    /// its cosine with it.
    pub cosine_direction: K,
    /// A direction drawn from a point towards an object.
    pub random: N,
    /// The cosine between a direction and the third direction of the basis
    /// of a cosine density.
    pub cosine: A,
    /// A cosine over pi.
    pub over_pi: O,
    /// The density with which directions from a point towards an object
    /// are drawn, for one direction.
    pub object_pdf: P,
    /// The even mean of two densities.
    pub mean: W,
    /// The cosine between the normal of a hit and the direction of the ray
    /// scattered from it.
    pub scatter_cosine: Q,
}

/// How the estimates of a pixel become the pixel.
pub struct Film<R, S, G, U> {
    /// The ray through a pixel, by its column and its row from the bottom,
    /// moved by chance within the pixel.
    pub camera_ray: R,
    /// The sum of the colours that a list of estimates stand for.
    pub total: S,
    /// The mean of a pixel's samples from their sum, corrected for display.
    pub gamma: G,
    /// A level from 0 to 0.999 spread over the whole numbers from 0 to 255.
    pub quantise: U,
}

impl<
    R: Fn(usize, usize) -> Ray,
    S: Fn(&Vec<Radiance>) -> Vec3,
    G: Fn(Key) -> Key,
    U: Fn(Key) -> u8,
> Film<R, S, G, U> {
    /// Whether every function of the film can be asked about everything.
    pub open spec fn ready(self) -> bool {
        &&& forall|i: usize, j: usize| self.camera_ray.requires((i, j))
        &&& forall|samples: &Vec<Radiance>| self.total.requires((samples,))
        &&& forall|k: Key| self.gamma.requires((k,))
        &&& forall|k: Key| self.quantise.requires((k,))
    }

    /// Whether `c` may be the channel of a pixel whose samples add up to
    /// `total`. A total that is no number counts as nothing; the mean is
    /// corrected by `gamma`; what that gives is held between nothing and
    /// the brightest level, and counts as nothing where it is no number;
    /// and that level is what `quantise` spreads over 0 to 255.
    pub open spec fn shaded(self, total: Key, c: u8) -> bool {
        exists|corrected: Key|
            {
                &&& #[trigger] self.gamma.ensures((settled(total),), corrected)
                &&& self.quantise.ensures((clamped(settled(corrected), ZERO, BRIGHTEST),), c)
            }
    }

    /// Whether `pixel` may be the pixel whose samples add up to `sum`,
    /// channel by channel.
    pub open spec fn developed(self, sum: Vec3, pixel: Pixel) -> bool {
        &&& self.shaded(sum.0, pixel.0)
        &&& self.shaded(sum.1, pixel.1)
        &&& self.shaded(sum.2, pixel.2)
    }

    /// Turns the sum of one channel's samples into the channel.
    pub fn channel(&self, total: Key) -> (c: u8)
        requires
            self.ready(),
        ensures
            self.shaded(total, c),
    {
        let shown = level(total, &self.gamma);
        (self.quantise)(shown)
    }

    /// Turns the sum of a pixel's samples into the pixel. A channel whose
    /// sum is no number is developed as if the sum were nothing, and no
    /// channel is handed on brighter than 0.999.
    pub fn develop(&self, sum: Vec3) -> (pixel: Pixel)
        requires
            self.ready(),
        ensures
            self.developed(sum, pixel),
    {
        (self.channel(sum.0), self.channel(sum.1), self.channel(sum.2))
    }
}

impl<
    M: Fn(&Ray, &AABB) -> [Slab; 3],
    L: Fn(&Ray, usize, Key, Key) -> Option<HitRecord>,
    T: Fn(Texture, UVCoord, &Vec3) -> Vec3,
    B: Fn(&Ray, &HitRecord) -> ONB,
    E: Fn(&Metal, &Ray, &HitRecord) -> (Vec3, Key),
    V: Fn(Key) -> Key,
    D: Fn(&Dielectric, &Ray, &HitRecord, Key) -> Refraction,
    X: Fn(&Dielectric, &HitRecord) -> Vec3,
    Y: Fn(&Vec3) -> Vec3,
    I: Fn(&Ray, &HitRecord) -> Vec3,
    C: Fn() -> Key,
    K: Fn(&CosinePDF) -> Vec3,
    N: Fn(usize, &Vec3) -> Vec3,
    A: Fn(&CosinePDF, &Vec3) -> Key,
    O: Fn(Key) -> Key,
    P: Fn(usize, &Vec3, &Vec3) -> Key,
    W: Fn(Key, Key) -> Key,
    Q: Fn(&Ray, &HitRecord, &Ray) -> Key,
> Optics<M, L, T, B, E, V, D, X, Y, I, C, K, N, A, O, P, W, Q> {
    /// Whether the optics can see a hierarchy: for every ray, `measure`
    /// can be asked about the box of every node and `hit_object` about the
    /// object of every leaf, from one thousandth on. Nothing is asked of
    /// them about any other box or object.
    pub open spec fn sees(self, bvh: BVH) -> bool {
        forall|a: Ray| #[trigger] bvh.askable(a, self.measure, self.hit_object, T_MIN)
    }

    /// Whether the optics can aim at the lights: from every point, a
    /// direction towards them can be drawn and the density of any direction
    /// towards them be told. Nothing is asked about any other object.
    pub open spec fn aims_at(self, lights: usize) -> bool {
        &&& forall|origin: Vec3| self.random.requires((lights, &origin))
        &&& forall|origin: Vec3, direction: Vec3|
            self.object_pdf.requires((lights, &origin, &direction))
    }

    /// Whether the functions of the optics that say what a surface does
    /// can be asked about every ray and every hit, and those that draw and
    /// weigh directions about every cosine density and every direction.
    pub open spec fn ready(self) -> bool {
        &&& forall|t: Texture, uv: UVCoord, point: &Vec3| self.texture_value.requires((t, uv, point))
        &&& forall|a: &Ray, rec: &HitRecord| self.basis.requires((a, rec))
        &&& forall|m: &Metal, a: &Ray, rec: &HitRecord| self.reflect.requires((m, a, rec))
        &&& forall|k: Key| self.inverse.requires((k,))
        &&& forall|d: &Dielectric, a: &Ray, rec: &HitRecord, ratio: Key|
            self.bend.requires((d, a, rec, ratio))
        &&& forall|d: &Dielectric, rec: &HitRecord| self.absorb.requires((d, rec))
        &&& forall|absorbance: &Vec3| self.let_through.requires((absorbance,))
        &&& forall|a: &Ray, rec: &HitRecord| self.any_direction.requires((a, rec))
        &&& self.draw.requires(())
        &&& forall|c: &CosinePDF| self.cosine_direction.requires((c,))
        &&& forall|c: &CosinePDF, direction: &Vec3| self.cosine.requires((c, direction))
        &&& forall|k: Key| self.over_pi.requires((k,))
        &&& forall|a: Key, b: Key| self.mean.requires((a, b))
        &&& forall|a: &Ray, rec: &HitRecord, s: &Ray| self.scatter_cosine.requires((a, rec, s))
    }

    /// Whether `r` may be the estimate for `ray` with `depth` bounces left.
    ///
    /// With no bounce left the estimate is black, and nothing is asked
    /// about the scene. Else the ray is sent into the hierarchy, from one
    /// thousandth on and without end. Where it meets nothing the estimate
    /// is the background. Where it meets a surface, the material of the
    /// surface says what it gives off and what it does to the ray. A light
    /// scatters nothing, and so does a metal whose bounce would go below
    /// its surface: the estimate is what the surface gives off. Where the
    /// material sends the ray on along a fixed ray, as metals, dielectrics
    /// and media do, the estimate for that ray, with one bounce less, is
    /// attenuated and added to what the surface gives off. Where the
    /// direction is to be drawn, as at a diffuse surface, it is drawn from
    /// the mixture of the lights' density and the surface's own, by the
    /// half of the mixture that a number drawn evenly picks; the ray
    /// leaves the point struck in that direction at the time of the ray
    /// that came in, and its estimate is weighed by the density with which
    /// the surface scatters into it over the value of the mixture for it,
    /// the even mean of the values of its halves.
    pub open spec fn estimated(
        self,
        ray: Ray,
        background_color: Vec3,
        bvh: BVH,
        lights: usize,
        depth: nat,
        r: Radiance,
    ) -> bool
        decreases depth,
    {
        if depth == 0 {
            r == Radiance::Constant(Vec3(ZERO, ZERO, ZERO))
        } else {
            exists|hit: Option<HitRecord>|
                {
                    &&& #[trigger] bvh.searched(
                        ray,
                        self.measure,
                        self.hit_object,
                        T_MIN,
                        INFINITY,
                        hit,
                    )
                    &&& match hit {
                        None => r == Radiance::Constant(background_color),
                        Some(rec) => exists|emitted: Vec3, outcome: Option<Scatter>|
                            #![trigger
                                rec.material.emits(self.texture_value, rec.uv, rec.hit_point, emitted),
                                rec.material.scatters(self.texture_value, self.basis, self.reflect, self.inverse, self.bend, self.absorb, self.let_through, self.any_direction, ray, rec, outcome),
                            ]
                            {
                                &&& rec.material.emits(
                                    self.texture_value,
                                    rec.uv,
                                    rec.hit_point,
                                    emitted,
                                )
                                &&& rec.material.scatters(
                                    self.texture_value,
                                    self.basis,
                                    self.reflect,
                                    self.inverse,
                                    self.bend,
                                    self.absorb,
                                    self.let_through,
                                    self.any_direction,
                                    ray,
                                    rec,
                                    outcome,
                                )
                                &&& match outcome {
                                    None => r == Radiance::Constant(emitted),
                                    Some(s) => match s.scattered {
                                        ScatterType::Specular(onward) => exists|
                                            incoming: Radiance,
                                        |
                                            {
                                                &&& self.estimated(
                                                    onward,
                                                    background_color,
                                                    bvh,
                                                    lights,
                                                    (depth - 1) as nat,
                                                    incoming,
                                                )
                                                &&& r == #[trigger] specular(
                                                    emitted,
                                                    s.attenuation,
                                                    incoming,
                                                )
                                            },
                                        ScatterType::PDF(bsdf) => exists|
                                            direction: Vec3,
                                            pdf_val: Key,
                                            density: Key,
                                            incoming: Radiance,
                                        |
                                            #![trigger
                                                light_mixture(lights, rec.hit_point, bsdf).valued(direction, self.cosine, self.over_pi, self.object_pdf, self.mean, pdf_val),
                                                importance(emitted, s.attenuation, density, pdf_val, incoming),
                                            ]
                                            {
                                                &&& light_mixture(
                                                    lights,
                                                    rec.hit_point,
                                                    bsdf,
                                                ).drawn(
                                                    self.draw,
                                                    self.cosine_direction,
                                                    self.random,
                                                    direction,
                                                )
                                                &&& light_mixture(
                                                    lights,
                                                    rec.hit_point,
                                                    bsdf,
                                                ).valued(
                                                    direction,
                                                    self.cosine,
                                                    self.over_pi,
                                                    self.object_pdf,
                                                    self.mean,
                                                    pdf_val,
                                                )
                                                &&& rec.material.scattering_density(
                                                    self.scatter_cosine,
                                                    self.over_pi,
                                                    ray,
                                                    rec,
                                                    Ray {
                                                        origin: rec.hit_point,
                                                        direction,
                                                        time: ray.time,
                                                    },
                                                    density,
                                                )
                                                &&& self.estimated(
                                                    Ray {
                                                        origin: rec.hit_point,
                                                        direction,
                                                        time: ray.time,
                                                    },
                                                    background_color,
                                                    bvh,
                                                    lights,
                                                    (depth - 1) as nat,
                                                    incoming,
                                                )
                                                &&& r == importance(
                                                    emitted,
                                                    s.attenuation,
                                                    density,
                                                    pdf_val,
                                                    incoming,
                                                )
                                            },
                                    },
                                }
                            },
                    }
                }
        }
    }

    /// Estimates the radiance that arrives along `ray`, following it for
    /// at most `reflection_depth` bounces.
    pub fn ray_color(
        &self,
        ray: &Ray,
        background_color: &Vec3,
        bvh: &BVH,
        lights: usize,
        reflection_depth: usize,
    ) -> (r: Radiance)
        requires
            self.ready(),
            self.sees(*bvh),
            self.aims_at(lights),
        ensures
            self.estimated(*ray, *background_color, *bvh, lights, reflection_depth as nat, r),
            r.bounces() <= reflection_depth,
        decreases reflection_depth,
    {
        if reflection_depth == 0 {
            // The bounce limit is reached: no more light is gathered.
            return Radiance::Constant(Vec3::new(ZERO, ZERO, ZERO));
        }
        assert(bvh.askable(*ray, self.measure, self.hit_object, T_MIN));
        let hit = bvh.hit(ray, &self.measure, &self.hit_object, T_MIN, INFINITY);
        match hit {
            Some(hit_record) => {
                let emitted = hit_record.material.emitted(
                    &self.texture_value,
                    hit_record.uv,
                    &hit_record.hit_point,
                );
                let outcome = hit_record.material.scatter(
                    &self.texture_value,
                    &self.basis,
                    &self.reflect,
                    &self.inverse,
                    &self.bend,
                    &self.absorb,
                    &self.let_through,
                    &self.any_direction,
                    ray,
                    &hit_record,
                );
                let ghost seen = outcome;
                proof {
                    assert(hit_record.material.emits(
                        self.texture_value,
                        hit_record.uv,
                        hit_record.hit_point,
                        emitted,
                    ));
                    assert(hit_record.material.scatters(
                        self.texture_value,
                        self.basis,
                        self.reflect,
                        self.inverse,
                        self.bend,
                        self.absorb,
                        self.let_through,
                        self.any_direction,
                        *ray,
                        hit_record,
                        seen,
                    ));
                }
                match outcome {
                    Some(Scatter { attenuation, scattered }) => match scattered {
                        ScatterType::Specular(specular_ray) => {
                            let incoming = self.ray_color(
                                &specular_ray,
                                background_color,
                                bvh,
                                lights,
                                reflection_depth - 1,
                            );
                            let r = Radiance::Specular {
                                emitted,
                                attenuation,
                                incoming: Box::new(incoming),
                            };
                            proof {
                                assert(r == specular(emitted, attenuation, incoming));
                            }
                            r
                        },
                        ScatterType::PDF(scatter_pdf) => {
                            let light_pdf = PDF::hittable(lights, hit_record.hit_point);
                            let mixture_pdf = PDF::mixture(&light_pdf, &scatter_pdf);
                            proof {
                                // Only a diffuse surface has its direction
                                // drawn, and from a cosine density.
                                assert(hit_record.material is Lambertian);
                                assert(scatter_pdf is Cosine);
                                reveal_with_fuel(PDF::drawable, 2);
                                reveal_with_fuel(PDF::valuable, 2);
                                assert(mixture_pdf == light_mixture(
                                    lights,
                                    hit_record.hit_point,
                                    scatter_pdf,
                                ));
                                assert(mixture_pdf.drawable(
                                    self.draw,
                                    self.cosine_direction,
                                    self.random,
                                ));
                            }
                            let direction = mixture_pdf.generate(
                                &self.draw,
                                &self.cosine_direction,
                                &self.random,
                            );
                            let scattered = Ray::new(hit_record.hit_point, direction, ray.time);
                            proof {
                                reveal_with_fuel(PDF::valuable, 2);
                                assert(mixture_pdf.valuable(
                                    scattered.direction,
                                    self.cosine,
                                    self.over_pi,
                                    self.object_pdf,
                                    self.mean,
                                ));
                            }
                            let pdf_val = mixture_pdf.value(
                                &scattered.direction,
                                &self.cosine,
                                &self.over_pi,
                                &self.object_pdf,
                                &self.mean,
                            );
                            let density = hit_record.material.scattering_pdf(
                                &self.scatter_cosine,
                                &self.over_pi,
                                ray,
                                &hit_record,
                                &scattered,
                            );
                            let incoming = self.ray_color(
                                &scattered,
                                background_color,
                                bvh,
                                lights,
                                reflection_depth - 1,
                            );
                            let r = Radiance::Importance {
                                emitted,
                                attenuation,
                                scattering_pdf: density,
                                pdf_val,
                                incoming: Box::new(incoming),
                            };
                            proof {
                                assert(mixture_pdf == light_mixture(
                                    lights,
                                    hit_record.hit_point,
                                    scatter_pdf,
                                ));
                                assert(r == importance(
                                    emitted,
                                    attenuation,
                                    density,
                                    pdf_val,
                                    incoming,
                                ));
                                assert(light_mixture(
                                    lights,
                                    hit_record.hit_point,
                                    scatter_pdf,
                                ).valued(
                                    direction,
                                    self.cosine,
                                    self.over_pi,
                                    self.object_pdf,
                                    self.mean,
                                    pdf_val,
                                ));
                            }
                            r
                        },
                    },
                    None => Radiance::Constant(emitted),
                }
            },
            None => {
                // Nothing was hit: the background shows.
                Radiance::Constant(*background_color)
            },
        }
    }

    /// Whether `estimate` may be one estimate for the pixel in column `i`
    /// and row `j`: the estimate for a ray that the film sends through
    /// that pixel, followed for at most `max_reflection_depth` bounces.
    pub open spec fn sampled<
        R: Fn(usize, usize) -> Ray,
        S: Fn(&Vec<Radiance>) -> Vec3,
        G: Fn(Key) -> Key,
        U: Fn(Key) -> u8,
    >(
        self,
        film: Film<R, S, G, U>,
        i: usize,
        j: usize,
        max_reflection_depth: usize,
        bvh: BVH,
        lights: usize,
        background_color: Vec3,
        estimate: Radiance,
    ) -> bool {
        exists|ray: Ray|
            {
                &&& #[trigger] film.camera_ray.ensures((i, j), ray)
                &&& self.estimated(
                    ray,
                    background_color,
                    bvh,
                    lights,
                    max_reflection_depth as nat,
                    estimate,
                )
            }
    }

    /// Whether `pixel` may be the colour of the pixel in place
    /// `screen_pos`: `samples_per_pixel` estimates are taken for the
    /// pixel's column and row, the film adds them up, and every channel of
    /// the sum is developed: a sum that is no number as nothing, and none
    /// brighter than 0.999.
    pub open spec fn rendered<
        R: Fn(usize, usize) -> Ray,
        S: Fn(&Vec<Radiance>) -> Vec3,
        G: Fn(Key) -> Key,
        U: Fn(Key) -> u8,
    >(
        self,
        film: Film<R, S, G, U>,
        screen_pos: usize,
        width: usize,
        height: usize,
        samples_per_pixel: usize,
        max_reflection_depth: usize,
        bvh: BVH,
        lights: usize,
        background_color: Vec3,
        pixel: Pixel,
    ) -> bool {
        exists|samples: Vec<Radiance>, sum: Vec3|
            {
                &&& #[trigger] film.total.ensures((&samples,), sum)
                &&& samples@.len() == samples_per_pixel
                &&& forall|k: int|
                    0 <= k < samples@.len() ==> self.sampled(
                        film,
                        column_of(screen_pos as int, width as int) as usize,
                        row_of(screen_pos as int, width as int, height as int) as usize,
                        max_reflection_depth,
                        bvh,
                        lights,
                        background_color,
                        #[trigger] samples@[k],
                    )
                &&& film.developed(sum, pixel)
            }
    }

    /// Renders the pixel in place `screen_pos` of an image that is stored
    /// row by row, top row first. Takes `samples_per_pixel` estimates,
    /// each for a ray that the film sends through the pixel, has the film
    /// add them up and develops the sum.
    pub fn render_pixel<
        R: Fn(usize, usize) -> Ray,
        S: Fn(&Vec<Radiance>) -> Vec3,
        G: Fn(Key) -> Key,
        U: Fn(Key) -> u8,
    >(
        &self,
        film: &Film<R, S, G, U>,
        screen_pos: usize,
        width: usize,
        height: usize,
        samples_per_pixel: usize,
        max_reflection_depth: usize,
        bvh: &BVH,
        lights: usize,
        background_color: &Vec3,
    ) -> (pixel: Pixel)
        requires
            self.ready(),
            self.sees(*bvh),
            self.aims_at(lights),
            film.ready(),
            screen_pos < width * height,
        ensures
            self.rendered(
                *film,
                screen_pos,
                width,
                height,
                samples_per_pixel,
                max_reflection_depth,
                *bvh,
                lights,
                *background_color,
                pixel,
            ),
    {
        assert(0 < width) by (nonlinear_arith)
            requires
                screen_pos < width * height,
        ;
        proof {
            lemma_places(screen_pos as int, width as int, height as int);
        }
        let j = height - 1 - screen_pos / width;
        let i = screen_pos % width;
        let mut samples: Vec<Radiance> = Vec::new();
        for k in 0..samples_per_pixel
            invariant
                self.ready(),
                self.sees(*bvh),
                self.aims_at(lights),
            self.aims_at(lights),
                film.ready(),
                i == column_of(screen_pos as int, width as int),
                j == row_of(screen_pos as int, width as int, height as int),
                samples@.len() == k,
                forall|n: int|
                    0 <= n < samples@.len() ==> self.sampled(
                        *film,
                        i,
                        j,
                        max_reflection_depth,
                        *bvh,
                        lights,
                        *background_color,
                        #[trigger] samples@[n],
                    ),
        {
            let ray = (film.camera_ray)(i, j);
            let estimate = self.ray_color(
                &ray,
                background_color,
                bvh,
                lights,
                max_reflection_depth,
            );
            assert(self.sampled(
                *film,
                i,
                j,
                max_reflection_depth,
                *bvh,
                lights,
                *background_color,
                estimate,
            ));
            samples.push(estimate);
        }
        let sum = (film.total)(&samples);
        film.develop(sum)
    }

    /// Renders the scene. Gives one pixel for every place of the image,
    /// row by row and the top row first.
    pub fn render<
        R: Fn(usize, usize) -> Ray,
        S: Fn(&Vec<Radiance>) -> Vec3,
        G: Fn(Key) -> Key,
        U: Fn(Key) -> u8,
    >(
        &self,
        film: &Film<R, S, G, U>,
        width: usize,
        height: usize,
        samples_per_pixel: usize,
        max_reflection_depth: usize,
        bvh: &BVH,
        lights: usize,
        background_color: &Vec3,
    ) -> (image: Vec<Pixel>)
        requires
            self.ready(),
            self.sees(*bvh),
            self.aims_at(lights),
            film.ready(),
            width * height <= usize::MAX,
        ensures
            image@.len() == width * height,
            forall|screen_pos: int|
                0 <= screen_pos < image@.len() ==> self.rendered(
                    *film,
                    screen_pos as usize,
                    width,
                    height,
                    samples_per_pixel,
                    max_reflection_depth,
                    *bvh,
                    lights,
                    *background_color,
                    #[trigger] image@[screen_pos],
                ),
    {
        let count = width * height;
        let mut image: Vec<Pixel> = Vec::new();
        for screen_pos in 0..count
            invariant
                self.ready(),
                self.sees(*bvh),
                self.aims_at(lights),
            self.aims_at(lights),
                film.ready(),
                count == width * height,
                image@.len() == screen_pos,
                forall|pos: int|
                    0 <= pos < image@.len() ==> self.rendered(
                        *film,
                        pos as usize,
                        width,
                        height,
                        samples_per_pixel,
                        max_reflection_depth,
                        *bvh,
                        lights,
                        *background_color,
                        #[trigger] image@[pos],
                    ),
        {
            let pixel = self.render_pixel(
                film,
                screen_pos,
                width,
                height,
                samples_per_pixel,
                max_reflection_depth,
                bvh,
                lights,
                background_color,
            );
            image.push(pixel);
        }
        image
    }
}

/// Estimates the radiance that arrives along `ray`, following it for at
/// most `reflection_depth` bounces.
pub fn ray_color<
    M: Fn(&Ray, &AABB) -> [Slab; 3],
    L: Fn(&Ray, usize, Key, Key) -> Option<HitRecord>,
    T: Fn(Texture, UVCoord, &Vec3) -> Vec3,
    B: Fn(&Ray, &HitRecord) -> ONB,
    E: Fn(&Metal, &Ray, &HitRecord) -> (Vec3, Key),
    V: Fn(Key) -> Key,
    D: Fn(&Dielectric, &Ray, &HitRecord, Key) -> Refraction,
    X: Fn(&Dielectric, &HitRecord) -> Vec3,
    Y: Fn(&Vec3) -> Vec3,
    I: Fn(&Ray, &HitRecord) -> Vec3,
    C: Fn() -> Key,
    K: Fn(&CosinePDF) -> Vec3,
    N: Fn(usize, &Vec3) -> Vec3,
    A: Fn(&CosinePDF, &Vec3) -> Key,
    O: Fn(Key) -> Key,
    P: Fn(usize, &Vec3, &Vec3) -> Key,
    W: Fn(Key, Key) -> Key,
    Q: Fn(&Ray, &HitRecord, &Ray) -> Key,
>(
    ray: &Ray,
    background_color: &Vec3,
    bvh: &BVH,
    lights: usize,
    optics: &Optics<M, L, T, B, E, V, D, X, Y, I, C, K, N, A, O, P, W, Q>,
    reflection_depth: usize,
) -> (r: Radiance)
    requires
        optics.ready(),
        optics.sees(*bvh),
        optics.aims_at(lights),
    ensures
        optics.estimated(*ray, *background_color, *bvh, lights, reflection_depth as nat, r),
        r.bounces() <= reflection_depth,
{
    optics.ray_color(ray, background_color, bvh, lights, reflection_depth)
}

/// Renders the scene. Gives one pixel for every place of the image, row by
/// row and the top row first.
pub fn render<
    M: Fn(&Ray, &AABB) -> [Slab; 3],
    L: Fn(&Ray, usize, Key, Key) -> Option<HitRecord>,
    T: Fn(Texture, UVCoord, &Vec3) -> Vec3,
    B: Fn(&Ray, &HitRecord) -> ONB,
    E: Fn(&Metal, &Ray, &HitRecord) -> (Vec3, Key),
    V: Fn(Key) -> Key,
    D: Fn(&Dielectric, &Ray, &HitRecord, Key) -> Refraction,
    X: Fn(&Dielectric, &HitRecord) -> Vec3,
    Y: Fn(&Vec3) -> Vec3,
    I: Fn(&Ray, &HitRecord) -> Vec3,
    C: Fn() -> Key,
    K: Fn(&CosinePDF) -> Vec3,
    N: Fn(usize, &Vec3) -> Vec3,
    A: Fn(&CosinePDF, &Vec3) -> Key,
    O: Fn(Key) -> Key,
    P: Fn(usize, &Vec3, &Vec3) -> Key,
    W: Fn(Key, Key) -> Key,
    Q: Fn(&Ray, &HitRecord, &Ray) -> Key,
    R: Fn(usize, usize) -> Ray,
    S: Fn(&Vec<Radiance>) -> Vec3,
    G: Fn(Key) -> Key,
    U: Fn(Key) -> u8,
>(
    width: usize,
    height: usize,
    samples_per_pixel: usize,
    max_reflection_depth: usize,
    bvh: &BVH,
    lights: usize,
    background_color: &Vec3,
    optics: &Optics<M, L, T, B, E, V, D, X, Y, I, C, K, N, A, O, P, W, Q>,
    film: &Film<R, S, G, U>,
) -> (image: Vec<Pixel>)
    requires
        optics.ready(),
        optics.sees(*bvh),
        optics.aims_at(lights),
        film.ready(),
        width * height <= usize::MAX,
    ensures
        image@.len() == width * height,
        forall|screen_pos: int|
            0 <= screen_pos < image@.len() ==> optics.rendered(
                *film,
                screen_pos as usize,
                width,
                height,
                samples_per_pixel,
                max_reflection_depth,
                *bvh,
                lights,
                *background_color,
                #[trigger] image@[screen_pos],
            ),
{
    optics.render(
        film,
        width,
        height,
        samples_per_pixel,
        max_reflection_depth,
        bvh,
        lights,
        background_color,
    )
}

/// The column of the pixel in place `screen_pos` of an image of the given
/// width, counted from the left.
pub open spec fn column_of(screen_pos: int, width: int) -> int {
    screen_pos % width
}

/// The row of the pixel in place `screen_pos`, counted from the bottom of
/// the image: the image is stored top row first.
pub open spec fn row_of(screen_pos: int, width: int, height: int) -> int {
    height - 1 - screen_pos / width
}

/// Places run through an image row by row: every place names one pixel
/// inside the image, and a pixel's column and row give the place back.
pub proof fn lemma_places(screen_pos: int, width: int, height: int)
    requires
        0 <= screen_pos < width * height,
        0 < width,
    ensures
        0 <= column_of(screen_pos, width) < width,
        0 <= row_of(screen_pos, width, height) < height,
        screen_pos == (height - 1 - row_of(screen_pos, width, height)) * width + column_of(
            screen_pos,
            width,
        ),
{
    let q = screen_pos / width;
    assert(screen_pos == q * width + screen_pos % width) by (nonlinear_arith)
        requires
            0 < width,
            q == screen_pos / width,
    ;
    assert(0 <= q < height) by (nonlinear_arith)
        requires
            0 <= screen_pos < width * height,
            0 < width,
            q == screen_pos / width,
    ;
}

/// The level of a channel whose samples add up to `total`. A total that is
/// no number counts as nothing. `gamma` takes the mean of the samples and
/// corrects it for display; what it gives is held between nothing and the
/// brightest level, and counts as nothing where it is no number. So the
/// level is always a number from 0 to 0.999.
pub fn level<A: Fn(Key) -> Key>(total: Key, gamma: &A) -> (r: Key)
    requires
        forall|k: Key| gamma.requires((k,)),
    ensures
        ZERO <= r <= BRIGHTEST,
        exists|corrected: Key| #[trigger]
            gamma.ensures((settled(total),), corrected) && r == clamped(
                settled(corrected),
                ZERO,
                BRIGHTEST,
            ),
{
    let sum = if total < -INFINITY || total > INFINITY { ZERO } else { total };
    let corrected = gamma(sum);
    let shown = if corrected < -INFINITY || corrected > INFINITY { ZERO } else { corrected };
    assert(gamma.ensures((settled(total),), corrected));
    crate::util::clamp(shown, ZERO, BRIGHTEST)
}

/// The colour of a pixel as one number: eight bits each, from the top,
/// for full opacity, red, green and blue.
pub open spec fn argb(pixel: Pixel) -> u32 {
    0xFF00_0000u32 | ((pixel.0 as u32) << 16) | ((pixel.1 as u32) << 8) | (pixel.2 as u32)
}

/// Converts a rendered scene into 32-bit colours, each fully opaque, with
/// red above green above blue in the low 24 bits.
pub fn convert_to_argb(rendered_scene: Vec<Pixel>) -> (r: Vec<u32>)
    ensures
        r@.len() == rendered_scene@.len(),
        forall|i: int| 0 <= i < r@.len() ==> #[trigger] r@[i] == argb(rendered_scene@[i]),
{
    let mut buffer: Vec<u32> = Vec::new();
    for i in 0..rendered_scene.len()
        invariant
            buffer@.len() == i,
            forall|k: int| 0 <= k < i ==> #[trigger] buffer@[k] == argb(rendered_scene@[k]),
    {
        let (r, g, b) = rendered_scene[i];
        let r: u32 = r as u32;
        let g: u32 = g as u32;
        let b: u32 = b as u32;
        assert(255u32 << 24 == 0xFF00_0000u32) by (bit_vector);
        buffer.push((255u32 << 24) | (r << 16) | (g << 8) | b);
    }
    buffer
}

/// In a converted colour the top eight bits are all set, and the next
/// three groups of eight hold red, green and blue as they were.
pub proof fn argb_keeps_channels(pixel: Pixel)
    ensures
        argb(pixel) >> 24 == 255,
        (argb(pixel) >> 16) & 0xFF == pixel.0,
        (argb(pixel) >> 8) & 0xFF == pixel.1,
        argb(pixel) & 0xFF == pixel.2,
{
    let r = pixel.0;
    let g = pixel.1;
    let b = pixel.2;
    assert((0xFF00_0000u32 | ((r as u32) << 16) | ((g as u32) << 8) | (b as u32)) >> 24 == 255)
        by (bit_vector);
    assert(((0xFF00_0000u32 | ((r as u32) << 16) | ((g as u32) << 8) | (b as u32)) >> 16) & 0xFF
        == r) by (bit_vector);
    assert(((0xFF00_0000u32 | ((r as u32) << 16) | ((g as u32) << 8) | (b as u32)) >> 8) & 0xFF
        == g) by (bit_vector);
    assert((0xFF00_0000u32 | ((r as u32) << 16) | ((g as u32) << 8) | (b as u32)) & 0xFF == b)
        by (bit_vector);
}

} // verus!
