//! Probability densities over directions, as the estimator names them.
//!
//! A density is either centred on a surface normal, aimed at an object, or
//! an even mixture of two others. This module builds and takes apart such
//! descriptions: it decides which part of a mixture supplies a sample and
//! how the value of a density is put together from those of its parts. The
//! cosines, the quotients and the draws themselves are worked out where the
//! arithmetic is.

use crate::onb::ONB;
use crate::util::{at_most, below, is_at_most, is_below, Key, HALF, ZERO};
use crate::vec3::Vec3;
use vstd::prelude::*;

verus! {

/// A cosine density about the third direction of a basis.
#[derive(Copy, Clone, Debug, PartialEq, Eq, Structural)]
pub struct CosinePDF {
    pub uvw: ONB,
}

/// A density that favours directions from `origin` towards an object.
#[derive(Copy, Clone, Debug, PartialEq, Eq, Structural)]
pub struct HittablePDF {
    pub origin: Vec3,
    /// The number under which the embedding program keeps the object.
    pub obj: usize,
}

/// An even mixture of two densities.
#[derive(Debug)]
pub struct MixturePDF(pub Box<PDF>, pub Box<PDF>);

/// A probability density over directions.
#[derive(Debug)]
pub enum PDF {
    Cosine(CosinePDF),
    Hittable(HittablePDF),
    Mixture(MixturePDF),
}

impl CosinePDF {
    /// Creates the cosine density about the third direction of `uvw`.
    pub fn new(uvw: ONB) -> (r: CosinePDF)
        ensures
            r.uvw == uvw,
    {
        CosinePDF { uvw }
    }

    /// The density of a direction whose cosine with the third direction of
    /// the basis is `cosine`: nothing where the cosine is a number at or
    /// below zero, else the cosine over pi, which `over_pi` works out, also
    /// for a cosine that is no number.
    pub fn value<O: Fn(Key) -> Key>(&self, cosine: Key, over_pi: &O) -> (r: Key)
        requires
            over_pi.requires((cosine,)),
        ensures
            if is_at_most(cosine, ZERO) {
                r == ZERO
            } else {
                over_pi.ensures((cosine,), r)
            },
    {
        if at_most(cosine, ZERO) {
            ZERO
        } else {
            over_pi(cosine)
        }
    }

    /// Draws a direction about the third direction of the basis: what
    /// `cosine_direction` draws for this density.
    pub fn generate<K: Fn(&CosinePDF) -> Vec3>(&self, cosine_direction: &K) -> (r: Vec3)
        requires
            cosine_direction.requires((self,)),
        ensures
            cosine_direction.ensures((self,), r),
    {
        cosine_direction(self)
    }
}

impl HittablePDF {
    /// Creates the density that favours directions from `origin` towards
    /// `obj`.
    pub fn new(obj: usize, origin: Vec3) -> (r: HittablePDF)
        ensures
            r == (HittablePDF { origin, obj }),
    {
        HittablePDF { obj, origin }
    }

    /// The density of a direction: what `pdf_value` reports for the object
    /// aimed at, seen from the origin of the density.
    pub fn value<P: Fn(usize, &Vec3, &Vec3) -> Key>(&self, pdf_value: &P, direction: &Vec3) -> (r:
        Key)
        requires
            pdf_value.requires((self.obj, &self.origin, direction)),
        ensures
            pdf_value.ensures((self.obj, &self.origin, direction), r),
    {
        pdf_value(self.obj, &self.origin, direction)
    }

    /// Draws a direction: one that `random` gives from the origin of the
    /// density towards the object aimed at.
    pub fn generate<N: Fn(usize, &Vec3) -> Vec3>(&self, random: &N) -> (r: Vec3)
        requires
            random.requires((self.obj, &self.origin)),
        ensures
            random.ensures((self.obj, &self.origin), r),
    {
        random(self.obj, &self.origin)
    }
}

impl MixturePDF {
    /// Whether `r` may be drawn from the mixture: from its first density
    /// where the number that `draw` gives is below one half, else from its
    /// second.
    pub open spec fn drawn<
        C: Fn() -> Key,
        K: Fn(&CosinePDF) -> Vec3,
        N: Fn(usize, &Vec3) -> Vec3,
    >(self, draw: C, cosine_direction: K, random: N, r: Vec3) -> bool {
        PDF::Mixture(self).drawn(draw, cosine_direction, random, r)
    }

    /// Whether `r` may be the value of the mixture for a direction: the
    /// even mean, as `mean` works it out, of the values of its two
    /// densities.
    pub open spec fn valued<
        A: Fn(&CosinePDF, &Vec3) -> Key,
        O: Fn(Key) -> Key,
        P: Fn(usize, &Vec3, &Vec3) -> Key,
        W: Fn(Key, Key) -> Key,
    >(self, direction: Vec3, cosine: A, over_pi: O, pdf_value: P, mean: W, r: Key) -> bool {
        PDF::Mixture(self).valued(direction, cosine, over_pi, pdf_value, mean, r)
    }

    /// Draws a direction from one of the two densities: `draw` gives a
    /// number drawn evenly between zero and one; where it is a number below
    /// one half the first density draws, else the second.
    pub fn generate<C: Fn() -> Key, K: Fn(&CosinePDF) -> Vec3, N: Fn(usize, &Vec3) -> Vec3>(
        &self,
        draw: &C,
        cosine_direction: &K,
        random: &N,
    ) -> (r: Vec3)
        requires
            PDF::Mixture(*self).drawable(*draw, *cosine_direction, *random),
        ensures
            self.drawn(*draw, *cosine_direction, *random, r),
        decreases self, 0nat,
    {
        let toss = draw();
        if below(toss, HALF) {
            self.0.generate(draw, cosine_direction, random)
        } else {
            self.1.generate(draw, cosine_direction, random)
        }
    }

    /// Mixes the values of the two densities for a direction: each is
    /// worked out, and `mean` takes their even mean.
    pub fn value<
        A: Fn(&CosinePDF, &Vec3) -> Key,
        O: Fn(Key) -> Key,
        P: Fn(usize, &Vec3, &Vec3) -> Key,
        W: Fn(Key, Key) -> Key,
    >(&self, direction: &Vec3, cosine: &A, over_pi: &O, pdf_value: &P, mean: &W) -> (r: Key)
        requires
            PDF::Mixture(*self).valuable(*direction, *cosine, *over_pi, *pdf_value, *mean),
        ensures
            self.valued(*direction, *cosine, *over_pi, *pdf_value, *mean, r),
        decreases self, 0nat,
    {
        let first = self.0.value(direction, cosine, over_pi, pdf_value, mean);
        let second = self.1.value(direction, cosine, over_pi, pdf_value, mean);
        mean(first, second)
    }
}

impl PDF {
    /// Whether the functions handed to `generate` can be asked whatever it
    /// may ask for this density: `draw` at every mixture, `cosine_direction`
    /// about every cosine density in it and `random` about the object and
    /// origin of every density in it that is aimed at an object.
    pub open spec fn drawable<
        C: Fn() -> Key,
        K: Fn(&CosinePDF) -> Vec3,
        N: Fn(usize, &Vec3) -> Vec3,
    >(self, draw: C, cosine_direction: K, random: N) -> bool
        decreases self,
    {
        match self {
            PDF::Cosine(c) => cosine_direction.requires((&c,)),
            PDF::Hittable(h) => random.requires((h.obj, &h.origin)),
            PDF::Mixture(m) => draw.requires(()) && m.0.drawable(draw, cosine_direction, random)
                && m.1.drawable(draw, cosine_direction, random),
        }
    }

    /// Whether `r` may be drawn from the density. A mixture asks `draw`
    /// for a number and draws from its first density where that is a
    /// number below one half, else from its second. A cosine density draws
    /// what `cosine_direction` gives for it, a density aimed at an object
    /// what `random` gives from its origin towards the object.
    pub open spec fn drawn<
        C: Fn() -> Key,
        K: Fn(&CosinePDF) -> Vec3,
        N: Fn(usize, &Vec3) -> Vec3,
    >(self, draw: C, cosine_direction: K, random: N, r: Vec3) -> bool
        decreases self,
    {
        match self {
            PDF::Cosine(c) => cosine_direction.ensures((&c,), r),
            PDF::Hittable(h) => random.ensures((h.obj, &h.origin), r),
            PDF::Mixture(m) => exists|toss: Key|
                {
                    &&& #[trigger] draw.ensures((), toss)
                    &&& if is_below(toss, HALF) {
                        m.0.drawn(draw, cosine_direction, random, r)
                    } else {
                        m.1.drawn(draw, cosine_direction, random, r)
                    }
                },
        }
    }

    /// Whether the functions handed to `value` can be asked whatever it
    /// may ask for this density and a direction.
    pub open spec fn valuable<
        A: Fn(&CosinePDF, &Vec3) -> Key,
        O: Fn(Key) -> Key,
        P: Fn(usize, &Vec3, &Vec3) -> Key,
        W: Fn(Key, Key) -> Key,
    >(self, direction: Vec3, cosine: A, over_pi: O, pdf_value: P, mean: W) -> bool
        decreases self,
    {
        match self {
            PDF::Cosine(c) => cosine.requires((&c, &direction)) && forall|k: Key|
                over_pi.requires((k,)),
            PDF::Hittable(h) => pdf_value.requires((h.obj, &h.origin, &direction)),
            PDF::Mixture(m) => {
                &&& m.0.valuable(direction, cosine, over_pi, pdf_value, mean)
                &&& m.1.valuable(direction, cosine, over_pi, pdf_value, mean)
                &&& forall|a: Key, b: Key| mean.requires((a, b))
            },
        }
    }

    /// Whether `r` may be the value of the density for a direction. For a
    /// cosine density: nothing where the cosine that `cosine` reports for
    /// the direction is a number at or below zero, else that cosine over
    /// pi. For a density aimed at an object: what `pdf_value` reports for
    /// the object, seen from the origin. For a mixture: the even mean of
    /// the values of its two densities.
    pub open spec fn valued<
        A: Fn(&CosinePDF, &Vec3) -> Key,
        O: Fn(Key) -> Key,
        P: Fn(usize, &Vec3, &Vec3) -> Key,
        W: Fn(Key, Key) -> Key,
    >(self, direction: Vec3, cosine: A, over_pi: O, pdf_value: P, mean: W, r: Key) -> bool
        decreases self,
    {
        match self {
            PDF::Cosine(c) => exists|angle: Key|
                {
                    &&& #[trigger] cosine.ensures((&c, &direction), angle)
                    &&& if is_at_most(angle, ZERO) {
                        r == ZERO
                    } else {
                        over_pi.ensures((angle,), r)
                    }
                },
            PDF::Hittable(h) => pdf_value.ensures((h.obj, &h.origin, &direction), r),
            PDF::Mixture(m) => exists|first: Key, second: Key|
                {
                    &&& m.0.valued(direction, cosine, over_pi, pdf_value, mean, first)
                    &&& m.1.valued(direction, cosine, over_pi, pdf_value, mean, second)
                    &&& #[trigger] mean.ensures((first, second), r)
                },
        }
    }

    /// Creates a new cosine density.
    pub fn cosine(uvw: ONB) -> (r: PDF)
        ensures
            r == PDF::Cosine(CosinePDF { uvw }),
    {
        PDF::Cosine(CosinePDF::new(uvw))
    }

    /// Creates a new density aimed at an object.
    pub fn hittable(obj: usize, origin: Vec3) -> (r: PDF)
        ensures
            r == PDF::Hittable(HittablePDF { origin, obj }),
    {
        PDF::Hittable(HittablePDF::new(obj, origin))
    }

    /// Mixes two densities evenly.
    pub fn mixture(pdf1: &PDF, pdf2: &PDF) -> (r: PDF)
        ensures
            r == PDF::Mixture(MixturePDF(Box::new(*pdf1), Box::new(*pdf2))),
    {
        PDF::Mixture(MixturePDF(pdf1.box_clone(), pdf2.box_clone()))
    }

    /// Copies the density into a box of its own.
    pub fn box_clone(&self) -> (r: Box<PDF>)
        ensures
            *r == *self,
        decreases self,
    {
        match self {
            PDF::Cosine(c) => Box::new(PDF::Cosine(*c)),
            PDF::Hittable(h) => Box::new(PDF::Hittable(*h)),
            PDF::Mixture(m) => Box::new(
                PDF::Mixture(MixturePDF(m.0.box_clone(), m.1.box_clone())),
            ),
        }
    }

    /// Works out the value of the density for a direction, each kind of
    /// density in its own way.
    pub fn value<
        A: Fn(&CosinePDF, &Vec3) -> Key,
        O: Fn(Key) -> Key,
        P: Fn(usize, &Vec3, &Vec3) -> Key,
        W: Fn(Key, Key) -> Key,
    >(&self, direction: &Vec3, cosine: &A, over_pi: &O, pdf_value: &P, mean: &W) -> (r: Key)
        requires
            self.valuable(*direction, *cosine, *over_pi, *pdf_value, *mean),
        ensures
            self.valued(*direction, *cosine, *over_pi, *pdf_value, *mean, r),
        decreases self, 1nat,
    {
        match self {
            PDF::Cosine(c) => {
                let angle = cosine(c, direction);
                c.value(angle, over_pi)
            },
            PDF::Hittable(h) => h.value(pdf_value, direction),
            PDF::Mixture(m) => m.value(direction, cosine, over_pi, pdf_value, mean),
        }
    }

    /// Draws a direction, each kind of density in its own way. The number
    /// from `draw` is asked for once at every mixture on the way, and for
    /// nothing else.
    pub fn generate<C: Fn() -> Key, K: Fn(&CosinePDF) -> Vec3, N: Fn(usize, &Vec3) -> Vec3>(
        &self,
        draw: &C,
        cosine_direction: &K,
        random: &N,
    ) -> (r: Vec3)
        requires
            self.drawable(*draw, *cosine_direction, *random),
        ensures
            self.drawn(*draw, *cosine_direction, *random, r),
        decreases self, 1nat,
    {
        match self {
            PDF::Cosine(c) => c.generate(cosine_direction),
            PDF::Hittable(h) => h.generate(random),
            PDF::Mixture(m) => m.generate(draw, cosine_direction, random),
        }
    }
}

} // verus!
