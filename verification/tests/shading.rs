use std::cell::Cell;
use weekend_tracer_rs::hittable::HitRecord;
use weekend_tracer_rs::material::{
    Dielectric, DiffuseLight, Isotropic, Lambertian, Material, Metal, Refraction, Scatter,
    ScatterType,
};
use weekend_tracer_rs::onb::ONB;
use weekend_tracer_rs::pdf::{CosinePDF, HittablePDF, MixturePDF, PDF};
use weekend_tracer_rs::ray::Ray;
use weekend_tracer_rs::texture::{Texture, UVCoord};
use weekend_tracer_rs::util::{from_bits, to_bits};
use weekend_tracer_rs::vec3::Vec3;

fn key(x: f32) -> i32 {
    from_bits(x.to_bits())
}

fn val(k: i32) -> f32 {
    f32::from_bits(to_bits(k))
}

fn vec3(x: f32, y: f32, z: f32) -> Vec3 {
    Vec3::new(key(x), key(y), key(z))
}

fn incoming() -> Ray {
    Ray::new(vec3(0.0, 0.0, -5.0), vec3(0.0, 0.0, 1.0), key(0.25))
}

fn record(material: Material) -> HitRecord {
    HitRecord::new(
        key(-1.0),
        key(4.0),
        vec3(0.0, 0.0, -1.0),
        vec3(0.0, 0.0, -1.0),
        material,
        (key(0.5), key(0.75)),
    )
}

/// Texture number n has the colour (n, u, z of the point).
fn texture_value(texture: Texture, uv: UVCoord, point: &Vec3) -> Vec3 {
    Vec3(key(texture.0 as f32), uv.0, point.2)
}

fn specular_ray(scatter: &Scatter) -> Ray {
    match &scatter.scattered {
        ScatterType::Specular(ray) => *ray,
        ScatterType::PDF(_) => panic!("a fixed ray was expected"),
    }
}

#[test]
fn materials_are_made_of_what_they_are_given() {
    assert_eq!(Material::lambertian(Texture(1)), Material::Lambertian(Lambertian { albedo: Texture(1) }));
    assert_eq!(
        Material::diffuse_light(Texture(2)),
        Material::DiffuseLight(DiffuseLight { emit: Texture(2) })
    );
    assert_eq!(Material::isotropic(Texture(3)), Material::Isotropic(Isotropic { albedo: Texture(3) }));
    assert_eq!(
        Material::dielectric_with_albedo(vec3(0.5, 0.5, 1.0), key(1.5), key(0.7)),
        Material::Dielectric(Dielectric {
            refractive_index: key(1.5),
            albedo: vec3(0.5, 0.5, 1.0),
            density: key(0.7)
        })
    );
    assert_eq!(Lambertian::new(Texture(1)).albedo, Texture(1));
    assert_eq!(DiffuseLight::new(Texture(2)).emit, Texture(2));
    assert_eq!(Isotropic::new(Texture(3)).albedo, Texture(3));
}

#[test]
fn a_dielectric_is_white_unless_told_otherwise() {
    assert_eq!(
        Material::dielectric(key(1.5), key(0.0)),
        Material::Dielectric(Dielectric {
            refractive_index: key(1.5),
            albedo: vec3(1.0, 1.0, 1.0),
            density: key(0.0)
        })
    );
    assert_eq!(Dielectric::new(key(2.4), key(1.0)).albedo, vec3(1.0, 1.0, 1.0));
}

#[test]
fn the_fuzz_of_a_metal_never_exceeds_one() {
    assert_eq!(Metal::new(vec3(0.7, 0.6, 0.5), key(0.3)).fuzz, key(0.3));
    assert_eq!(Metal::new(vec3(0.7, 0.6, 0.5), key(0.0)).fuzz, key(0.0));
    assert_eq!(Metal::new(vec3(0.7, 0.6, 0.5), key(1.0)).fuzz, key(1.0));
    assert_eq!(Metal::new(vec3(0.7, 0.6, 0.5), key(1.5)).fuzz, key(1.0));
    assert_eq!(Metal::new(vec3(0.7, 0.6, 0.5), key(f32::INFINITY)).fuzz, key(1.0));
    assert_eq!(Metal::new(vec3(0.7, 0.6, 0.5), key(-2.0)).fuzz, key(-2.0));
    assert_eq!(
        Material::metal(vec3(0.7, 0.6, 0.5), key(9.0)),
        Material::Metal(Metal { albedo: vec3(0.7, 0.6, 0.5), fuzz: key(1.0) })
    );
}

#[test]
fn only_a_light_gives_off_light() {
    let uv = (key(0.5), key(0.75));
    let point = vec3(1.0, 2.0, 3.0);
    let light = Material::diffuse_light(Texture(7));
    assert_eq!(light.emitted(&texture_value, uv, &point), Vec3(key(7.0), key(0.5), key(3.0)));
    let never = |_: Texture, _: UVCoord, _: &Vec3| -> Vec3 { unreachable!() };
    let black = vec3(0.0, 0.0, 0.0);
    assert_eq!(Material::lambertian(Texture(7)).emitted(&never, uv, &point), black);
    assert_eq!(Material::metal(vec3(1.0, 1.0, 1.0), 0).emitted(&never, uv, &point), black);
    assert_eq!(Material::dielectric(key(1.5), 0).emitted(&never, uv, &point), black);
    assert_eq!(Material::isotropic(Texture(7)).emitted(&never, uv, &point), black);
    assert_eq!(
        DiffuseLight::new(Texture(2)).emitted(&texture_value, uv, &point),
        Vec3(key(2.0), key(0.5), key(3.0))
    );
}

#[test]
fn a_light_scatters_nothing() {
    let light = DiffuseLight::new(Texture(7));
    assert!(light.scatter(&incoming(), &record(Material::DiffuseLight(light))).is_none());
}

#[test]
fn what_is_no_number_decides_nothing_at_a_surface() {
    let nan = key(f32::NAN);
    let minus_nan = key(-f32::NAN);
    // A fuzz that is no number is taken as one.
    assert_eq!(Metal::new(vec3(0.7, 0.6, 0.5), nan).fuzz, key(1.0));
    assert_eq!(Metal::new(vec3(0.7, 0.6, 0.5), minus_nan).fuzz, key(1.0));
    // A bounce whose side cannot be told is absorbed.
    let metal = Metal::new(vec3(0.7, 0.6, 0.5), key(0.0));
    let rec = record(Material::Metal(metal));
    assert!(metal.scatter(&incoming(), &rec, vec3(0.0, 0.6, -0.8), nan).is_none());
    assert!(metal.scatter(&incoming(), &rec, vec3(0.0, 0.6, -0.8), minus_nan).is_none());
    // A ray of which nothing can be told is refracted.
    let glass = Dielectric::new(key(1.5), key(0.0));
    let rec = record(Material::Dielectric(glass));
    for &(sine_ratio, reflect_prob, draw) in &[
        (f32::NAN, 0.0, 0.9),
        (0.5, f32::NAN, 0.2),
        (0.5, 0.3, f32::NAN),
        (0.5, -f32::NAN, 0.2),
        (0.5, 0.3, -f32::NAN),
    ] {
        let s = glass
            .scatter(&incoming(), &rec, &bend(sine_ratio, reflect_prob, draw), &no_absorb, &let_through)
            .unwrap();
        assert_eq!(s.attenuation, vec3(1.0, 1.0, 1.0));
        assert_eq!(specular_ray(&s).direction, vec3(0.0, 0.1, 1.0));
    }
    // A cosine that is no number is handed on as it is.
    let asked = Cell::new(0);
    let over_pi = |cosine: i32| {
        asked.set(asked.get() + 1);
        cosine
    };
    let l = Lambertian::new(Texture(4));
    assert_eq!(l.scattering_pdf(nan, &over_pi), nan);
    assert_eq!(l.scattering_pdf(minus_nan, &over_pi), minus_nan);
    let c = CosinePDF::new(ONB::default());
    assert_eq!(c.value(nan, &over_pi), nan);
    assert_eq!(c.value(minus_nan, &over_pi), minus_nan);
    assert_eq!(asked.get(), 4);
    // A hit whose side cannot be told counts as one from behind.
    for &facing in &[nan, minus_nan] {
        let rec = HitRecord::new(facing, 0, vec3(0.0, 0.0, 0.0), vec3(1.0, 0.0, 0.0), Material::Metal(metal), (0, 0));
        assert!(!rec.front_face);
        assert_eq!(rec.normal, vec3(-1.0, 0.0, 0.0));
    }
}

#[test]
fn a_metal_reflects_unless_the_ray_would_go_below_the_surface() {
    let metal = Metal::new(vec3(0.7, 0.6, 0.5), key(0.0));
    let rec = record(Material::Metal(metal));
    let s = metal.scatter(&incoming(), &rec, vec3(0.0, 0.6, -0.8), key(0.8)).unwrap();
    assert_eq!(s.attenuation, vec3(0.7, 0.6, 0.5));
    assert_eq!(
        specular_ray(&s),
        Ray::new(vec3(0.0, 0.0, -1.0), vec3(0.0, 0.6, -0.8), key(0.25))
    );
    assert!(metal.scatter(&incoming(), &rec, vec3(0.0, 1.0, 0.0), key(0.0)).is_none());
    assert!(metal.scatter(&incoming(), &rec, vec3(0.0, 0.6, 0.8), key(-0.8)).is_none());
    assert!(metal.scatter(&incoming(), &rec, vec3(0.0, 0.6, -0.8), key(1.0e-30)).is_some());
}

fn bend(sine_ratio: f32, reflect_prob: f32, draw: f32) -> Refraction {
    Refraction {
        sine_ratio: key(sine_ratio),
        reflect_prob: key(reflect_prob),
        draw: key(draw),
        reflected: vec3(0.0, 0.0, -1.0),
        refracted: vec3(0.0, 0.1, 1.0),
    }
}

/// The absorbance of a dielectric along the way to a hit: its density
/// times the parameter of the hit, less for what its tint lets through.
fn absorb(glass: &Dielectric, rec: &HitRecord) -> Vec3 {
    let through = |tint: i32| key((1.0 - val(tint)) * val(glass.density) * -val(rec.t));
    Vec3(through(glass.albedo.0), through(glass.albedo.1), through(glass.albedo.2))
}

/// Half of the light is lost for every unit of absorbance.
fn let_through(absorbance: &Vec3) -> Vec3 {
    let left = |a: i32| key(val(a).exp2());
    Vec3(left(absorbance.0), left(absorbance.1), left(absorbance.2))
}

fn no_absorb(_: &Dielectric, _: &HitRecord) -> Vec3 {
    unreachable!()
}

fn no_let_through(_: &Vec3) -> Vec3 {
    unreachable!()
}

fn from_inside(material: Material) -> HitRecord {
    HitRecord::new(
        key(1.0),
        key(4.0),
        vec3(0.0, 0.0, -1.0),
        vec3(0.0, 0.0, 1.0),
        material,
        (key(0.5), key(0.75)),
    )
}

#[test]
fn a_dielectric_reflects_where_the_ray_cannot_pass_or_chance_has_it_so() {
    let glass = Dielectric::new_with_albedo(vec3(0.5, 0.5, 1.0), key(1.5), key(0.7));
    let rec = record(Material::Dielectric(glass));
    let reflected = Ray::new(vec3(0.0, 0.0, -1.0), vec3(0.0, 0.0, -1.0), key(0.25));
    let refracted = Ray::new(vec3(0.0, 0.0, -1.0), vec3(0.0, 0.1, 1.0), key(0.25));
    let scatter = |bent: Refraction| glass.scatter(&incoming(), &rec, &bent, &no_absorb, &let_through).unwrap();

    // The ray cannot pass. Nothing is asked about what the medium absorbs.
    let s = glass.scatter(&incoming(), &rec, &bend(1.2, 0.0, 0.9), &no_absorb, &no_let_through).unwrap();
    assert_eq!((s.attenuation, specular_ray(&s)), (vec3(0.5, 0.5, 1.0), reflected));
    // The draw falls below the share reflected.
    let s = scatter(bend(0.5, 0.3, 0.2));
    assert_eq!((s.attenuation, specular_ray(&s)), (vec3(0.5, 0.5, 1.0), reflected));
    // Neither. On the way in nothing is absorbed.
    let s = scatter(bend(0.5, 0.3, 0.4));
    assert_eq!((s.attenuation, specular_ray(&s)), (vec3(1.0, 1.0, 1.0), refracted));
    // The limits go to refraction.
    let s = scatter(bend(1.0, 0.3, 0.3));
    assert_eq!((s.attenuation, specular_ray(&s)), (vec3(1.0, 1.0, 1.0), refracted));
}

#[test]
fn a_dielectric_absorbs_on_the_way_out_only() {
    let glass = Dielectric::new_with_albedo(vec3(0.5, 0.75, 1.0), key(1.5), key(0.5));
    // The hit lies at 4: the absorbance is 0.5 * 0.5 * -4, and so on.
    let inside = from_inside(Material::Dielectric(glass));
    assert!(!inside.front_face);
    let s = glass.scatter(&incoming(), &inside, &bend(0.5, 0.3, 0.4), &absorb, &let_through).unwrap();
    assert_eq!(s.attenuation, vec3(0.5, 0.70710677, 1.0));
    let outside = record(Material::Dielectric(glass));
    assert!(outside.front_face);
    let s = glass.scatter(&incoming(), &outside, &bend(0.5, 0.3, 0.4), &no_absorb, &let_through).unwrap();
    assert_eq!(s.attenuation, vec3(1.0, 1.0, 1.0));
}

#[test]
fn the_ratio_of_a_dielectric_goes_by_the_face_struck() {
    let glass = Dielectric::new(key(1.5), key(0.0));
    let inverse = |index: i32| key(1.0 / val(index));
    let no_inverse = |_: i32| -> i32 { unreachable!() };
    assert_eq!(glass.ratio(&record(Material::Dielectric(glass)), &inverse), key(1.0 / 1.5));
    assert_eq!(glass.ratio(&from_inside(Material::Dielectric(glass)), &no_inverse), key(1.5));
}

#[test]
fn a_diffuse_surface_scatters_by_the_cosine_density_about_its_normal() {
    let l = Lambertian::new(Texture(4));
    let rec = record(Material::Lambertian(l));
    let basis = ONB { u: vec3(1.0, 0.0, 0.0), v: vec3(0.0, -1.0, 0.0), w: vec3(0.0, 0.0, -1.0) };
    let s = l.scatter(&texture_value, &incoming(), &rec, basis).unwrap();
    assert_eq!(s.attenuation, Vec3(key(4.0), key(0.5), key(-1.0)));
    match s.scattered {
        ScatterType::PDF(PDF::Cosine(c)) => assert_eq!(c, CosinePDF { uvw: basis }),
        _ => panic!("a cosine density was expected"),
    }
}

#[test]
fn a_medium_scatters_in_the_direction_drawn() {
    let i = Isotropic::new(Texture(6));
    let rec = record(Material::Isotropic(i));
    let s = i.scatter(&texture_value, &incoming(), &rec, vec3(0.1, 0.2, 0.3)).unwrap();
    assert_eq!(s.attenuation, Vec3(key(6.0), key(0.5), key(-1.0)));
    assert_eq!(
        specular_ray(&s),
        Ray::new(vec3(0.0, 0.0, -1.0), vec3(0.1, 0.2, 0.3), key(0.25))
    );
}

#[test]
fn a_material_asks_only_for_what_its_kind_needs() {
    let asked = Cell::new("");
    let basis = |_: &Ray, _: &HitRecord| {
        asked.set("basis");
        ONB::default()
    };
    let reflect = |_: &Metal, _: &Ray, _: &HitRecord| {
        asked.set("reflect");
        (vec3(0.0, 0.6, -0.8), key(0.8))
    };
    let inverse = |index: i32| key(1.0 / val(index));
    let bent = |_: &Dielectric, _: &Ray, _: &HitRecord, ratio: i32| {
        asked.set("bend");
        assert_eq!(ratio, key(1.0 / 1.5));
        bend(0.5, 0.3, 0.4)
    };
    let any_direction = |_: &Ray, _: &HitRecord| {
        asked.set("any direction");
        vec3(0.1, 0.2, 0.3)
    };
    let scatter = |material: Material| {
        asked.set("nothing");
        let s = material.scatter(
            &texture_value,
            &basis,
            &reflect,
            &inverse,
            &bent,
            &absorb,
            &let_through,
            &any_direction,
            &incoming(),
            &record(material),
        );
        (asked.get(), s)
    };

    let (what, s) = scatter(Material::lambertian(Texture(4)));
    assert_eq!(what, "basis");
    assert!(matches!(s.unwrap().scattered, ScatterType::PDF(PDF::Cosine(_))));

    let (what, s) = scatter(Material::metal(vec3(0.7, 0.6, 0.5), key(0.0)));
    assert_eq!(what, "reflect");
    let s = s.unwrap();
    assert_eq!(s.attenuation, vec3(0.7, 0.6, 0.5));
    assert_eq!(specular_ray(&s).direction, vec3(0.0, 0.6, -0.8));

    let (what, s) = scatter(Material::dielectric(key(1.5), key(0.0)));
    assert_eq!(what, "bend");
    assert_eq!(s.unwrap().attenuation, vec3(1.0, 1.0, 1.0));

    let (what, s) = scatter(Material::diffuse_light(Texture(7)));
    assert_eq!(what, "nothing");
    assert!(s.is_none());

    let (what, s) = scatter(Material::isotropic(Texture(6)));
    assert_eq!(what, "any direction");
    assert_eq!(specular_ray(&s.unwrap()).direction, vec3(0.1, 0.2, 0.3));
}

fn over_pi(cosine: i32) -> i32 {
    key(val(cosine) / std::f32::consts::PI)
}

#[test]
fn only_a_diffuse_surface_has_a_scattering_density() {
    // The cosine is the third lane of the direction scattered into.
    let scatter_cosine = |_: &Ray, _: &HitRecord, scattered: &Ray| scattered.direction.2;
    let never = |_: &Ray, _: &HitRecord, _: &Ray| -> i32 { unreachable!() };
    let no_quotient = |_: i32| -> i32 { unreachable!() };
    let out = Ray::new(vec3(0.0, 0.0, -1.0), vec3(0.0, 0.0, 0.125), key(0.25));
    let down = Ray::new(vec3(0.0, 0.0, -1.0), vec3(0.0, 0.0, -0.125), key(0.25));
    let l = Material::lambertian(Texture(4));
    assert_eq!(
        l.scattering_pdf(&scatter_cosine, &over_pi, &incoming(), &record(l), &out),
        key(0.125 / std::f32::consts::PI)
    );
    assert_eq!(l.scattering_pdf(&scatter_cosine, &no_quotient, &incoming(), &record(l), &down), key(0.0));
    for m in [
        Material::metal(vec3(0.7, 0.6, 0.5), key(0.0)),
        Material::dielectric(key(1.5), key(0.0)),
        Material::diffuse_light(Texture(7)),
        Material::isotropic(Texture(6)),
    ] {
        assert_eq!(m.scattering_pdf(&never, &no_quotient, &incoming(), &record(m), &out), key(0.0));
    }
}

#[test]
fn the_scattering_density_is_the_cosine_over_pi_above_the_surface() {
    let l = Lambertian::new(Texture(4));
    assert_eq!(l.scattering_pdf(key(1.0), &over_pi), key(1.0 / std::f32::consts::PI));
    assert_eq!(l.scattering_pdf(key(0.5), &over_pi), key(0.5 / std::f32::consts::PI));
    assert_eq!(l.scattering_pdf(key(0.0), &over_pi), key(0.0));
    assert_eq!(l.scattering_pdf(key(-0.5), &|_: i32| -> i32 { unreachable!() }), key(0.0));
    let c = CosinePDF::new(ONB::default());
    assert_eq!(c.value(key(1.0), &over_pi), key(1.0 / std::f32::consts::PI));
    assert_eq!(c.value(key(0.0), &|_: i32| -> i32 { unreachable!() }), key(0.0));
    assert_eq!(c.value(key(-0.5), &|_: i32| -> i32 { unreachable!() }), key(0.0));
}

#[test]
fn densities_are_made_of_what_they_are_given() {
    let basis = ONB::default();
    assert!(matches!(PDF::cosine(basis), PDF::Cosine(c) if c.uvw == basis));
    assert!(matches!(
        PDF::hittable(3, vec3(1.0, 2.0, 3.0)),
        PDF::Hittable(h) if h == HittablePDF { origin: vec3(1.0, 2.0, 3.0), obj: 3 }
    ));
    assert_eq!(HittablePDF::new(3, vec3(1.0, 2.0, 3.0)).obj, 3);
    let mixed = PDF::mixture(&PDF::hittable(3, vec3(1.0, 2.0, 3.0)), &PDF::cosine(basis));
    match &mixed {
        PDF::Mixture(MixturePDF(first, second)) => {
            assert!(matches!(**first, PDF::Hittable(h) if h.obj == 3));
            assert!(matches!(**second, PDF::Cosine(c) if c.uvw == basis));
        }
        _ => panic!("a mixture was expected"),
    }
    let copy = mixed.box_clone();
    assert!(matches!(*copy, PDF::Mixture(MixturePDF(ref first, _)) if matches!(**first, PDF::Hittable(_))));
}

#[test]
fn a_density_aimed_at_an_object_asks_about_that_object_from_its_origin() {
    let aimed = HittablePDF::new(3, vec3(1.0, 2.0, 3.0));
    let pdf_value = |object: usize, origin: &Vec3, direction: &Vec3| {
        assert_eq!((object, *origin), (3, vec3(1.0, 2.0, 3.0)));
        direction.1
    };
    assert_eq!(aimed.value(&pdf_value, &vec3(0.0, 0.25, 0.0)), key(0.25));
    let random = |object: usize, origin: &Vec3| Vec3(object as i32, origin.0, origin.2);
    assert_eq!(aimed.generate(&random), Vec3(3, key(1.0), key(3.0)));
}

fn towards(object: usize, _: &Vec3) -> Vec3 {
    Vec3(object as i32, 0, 0)
}

fn about(c: &CosinePDF) -> Vec3 {
    c.uvw.w
}

fn heads() -> i32 {
    key(0.25)
}

fn tails() -> i32 {
    key(0.75)
}

#[test]
fn a_mixture_draws_from_its_first_density_below_one_half() {
    let first = PDF::hittable(1, vec3(0.0, 0.0, 0.0));
    let second = PDF::hittable(2, vec3(0.0, 0.0, 0.0));
    let mixed = MixturePDF(first.box_clone(), second.box_clone());
    assert_eq!(mixed.generate(&heads, &about, &towards), Vec3(1, 0, 0));
    assert_eq!(mixed.generate(&tails, &about, &towards), Vec3(2, 0, 0));
    // One half itself, and what is no number, pick the second.
    assert_eq!(mixed.generate(&|| key(0.5), &about, &towards), Vec3(2, 0, 0));
    assert_eq!(mixed.generate(&|| key(0.49999997), &about, &towards), Vec3(1, 0, 0));
    assert_eq!(mixed.generate(&|| key(0.0), &about, &towards), Vec3(1, 0, 0));
    assert_eq!(mixed.generate(&|| key(f32::NAN), &about, &towards), Vec3(2, 0, 0));
    assert_eq!(mixed.generate(&|| key(-f32::NAN), &about, &towards), Vec3(2, 0, 0));
}

#[test]
fn every_kind_of_density_draws_in_its_own_way() {
    let basis = ONB { u: vec3(1.0, 0.0, 0.0), v: vec3(0.0, 0.0, 1.0), w: vec3(0.0, -1.0, 0.0) };
    let no_draw = || -> i32 { unreachable!() };
    assert_eq!(PDF::cosine(basis).generate(&no_draw, &about, &towards), vec3(0.0, -1.0, 0.0));
    assert_eq!(CosinePDF::new(basis).generate(&about), vec3(0.0, -1.0, 0.0));
    assert_eq!(PDF::hittable(7, vec3(1.0, 2.0, 3.0)).generate(&no_draw, &about, &towards), Vec3(7, 0, 0));
    let mixed = PDF::mixture(&PDF::hittable(7, vec3(1.0, 2.0, 3.0)), &PDF::cosine(basis));
    assert_eq!(mixed.generate(&heads, &about, &towards), Vec3(7, 0, 0));
    assert_eq!(mixed.generate(&tails, &about, &towards), vec3(0.0, -1.0, 0.0));
    // In a mixture of mixtures a number is drawn once at every level.
    let nested = PDF::mixture(&mixed, &PDF::hittable(3, vec3(0.0, 0.0, 0.0)));
    let draws = Cell::new(0);
    let heads_then_tails = || {
        draws.set(draws.get() + 1);
        if draws.get() == 1 {
            heads()
        } else {
            tails()
        }
    };
    assert_eq!(nested.generate(&heads_then_tails, &about, &towards), vec3(0.0, -1.0, 0.0));
    assert_eq!(draws.get(), 2);
    assert_eq!(nested.generate(&tails, &about, &towards), Vec3(3, 0, 0));
}

#[test]
fn the_value_of_a_density_is_put_together_from_its_parts() {
    // The cosine of a direction is its dot product with the third
    // direction of the basis; an object has the density of its number.
    let cosine = |c: &CosinePDF, direction: &Vec3| {
        let w = [val(c.uvw.w.0), val(c.uvw.w.1), val(c.uvw.w.2)];
        let d = [val(direction.0), val(direction.1), val(direction.2)];
        key(w[0] * d[0] + w[1] * d[1] + w[2] * d[2])
    };
    let pdf_value = |object: usize, origin: &Vec3, direction: &Vec3| {
        assert_eq!(*origin, vec3(1.0, 2.0, 3.0));
        assert_eq!(direction.0, key(0.0));
        key(object as f32)
    };
    let mean = |a: i32, b: i32| key(0.5 * val(a) + 0.5 * val(b));
    let basis = ONB::default();
    let up = vec3(0.0, 0.0, 0.5);
    let down = vec3(0.0, 0.0, -0.5);
    let own = PDF::cosine(basis);
    let aimed = PDF::hittable(4, vec3(1.0, 2.0, 3.0));
    let pi = std::f32::consts::PI;
    assert_eq!(own.value(&up, &cosine, &over_pi, &pdf_value, &mean), key(0.5 / pi));
    assert_eq!(own.value(&down, &cosine, &over_pi, &pdf_value, &mean), key(0.0));
    assert_eq!(aimed.value(&up, &cosine, &over_pi, &pdf_value, &mean), key(4.0));
    let mixed = PDF::mixture(&aimed, &own);
    assert_eq!(mixed.value(&up, &cosine, &over_pi, &pdf_value, &mean), key(0.5 * 4.0 + 0.5 * (0.5 / pi)));
    assert_eq!(mixed.value(&down, &cosine, &over_pi, &pdf_value, &mean), key(2.0));
    let halves = MixturePDF(aimed.box_clone(), aimed.box_clone());
    assert_eq!(halves.value(&up, &cosine, &over_pi, &pdf_value, &mean), key(4.0));
    // A mixture of a mixture weighs its halves again.
    let nested = PDF::mixture(&mixed, &PDF::hittable(8, vec3(1.0, 2.0, 3.0)));
    assert_eq!(nested.value(&down, &cosine, &over_pi, &pdf_value, &mean), key(5.0));
}
