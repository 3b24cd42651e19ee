//! Analytic intersection tests: slab test entry/exit, the sphere quadratic,
//! quad interiors, interval algebra, and vector identities.

use rtweekend::aabb::Aabb;
use rtweekend::fixed::FP_ONE;
use rtweekend::hittable::hittable_list::HittableList;
use rtweekend::hittable::quad::Quad;
use rtweekend::hittable::sphere::Sphere;
use rtweekend::hittable::translate::Translate;
use rtweekend::hittable::Hittable;
use rtweekend::interval::Interval;
use rtweekend::ray::Ray;
use rtweekend::rng::Rng;
use rtweekend::vec3::{near_zero, reflect, refract, unit_vector, Mul, Vec3};

const S: i64 = FP_ONE;

fn v(x: i64, y: i64, z: i64) -> Vec3 {
    Vec3::new(x * S, y * S, z * S)
}

#[test]
fn aabb_hit_matches_analytic_entry_and_exit() {
    let b = Aabb::from_points(v(2, -1, -1), v(4, 1, 1));
    let r = Ray::new(v(0, 0, 0), v(1, 0, 0));
    // The analytic intersection runs from t = 2 to t = 4.
    assert!(b.hit(&r, Interval::new(0, 100 * S)));
    assert!(b.hit(&r, Interval::new(0, 2 * S + 1)));
    assert!(!b.hit(&r, Interval::new(0, 2 * S)), "entry parameter must be exactly 2");
    assert!(b.hit(&r, Interval::new(4 * S - 1, 100 * S)));
    assert!(!b.hit(&r, Interval::new(4 * S, 100 * S)), "exit parameter must be exactly 4");
}

#[test]
fn aabb_miss_is_rejected() {
    let b = Aabb::from_points(v(2, -1, -1), v(4, 1, 1));
    let miss = Ray::new(v(0, 10, 0), v(1, 0, 0));
    assert!(!b.hit(&miss, Interval::new(0, 100 * S)));
    let away = Ray::new(v(0, 0, 0), v(-1, 0, 0));
    assert!(!b.hit(&away, Interval::new(0, 100 * S)));
}

#[test]
fn sphere_two_roots_through_center() {
    let sphere = Sphere::new(v(0, 0, 0), S, 0);
    let r = Ray::new(v(0, 0, -3), v(0, 0, 1));
    // Roots at t = 2 and t = 4; the closer one wins.
    let rec = sphere.hit(&r, Interval::new(0, 100 * S)).expect("must hit");
    assert_eq!(rec.t, 2 * S);
    // With the closer root excluded, the farther root is found.
    let rec2 = sphere.hit(&r, Interval::new(3 * S, 100 * S)).expect("must hit far root");
    assert_eq!(rec2.t, 4 * S);
    // A ray from inside has roots of opposite sign.
    let inside = Ray::new(v(0, 0, 0), v(0, 0, 1));
    let rec3 = sphere.hit(&inside, Interval::new(-100 * S, 100 * S)).expect("must hit");
    assert_eq!(rec3.t, -S);
    let rec4 = sphere.hit(&inside, Interval::new(0, 100 * S)).expect("must hit");
    assert_eq!(rec4.t, S);
}

#[test]
fn sphere_tangent_ray_has_repeated_root() {
    let sphere = Sphere::new(v(0, 0, 0), S, 0);
    let tangent = Ray::new(v(0, 1, -3), v(0, 0, 1));
    let hit = sphere.hit(&tangent, Interval::new(0, 100 * S)).expect("tangent touches");
    assert_eq!(hit.t, 3 * S);
    // Excluding the repeated root leaves nothing.
    assert!(sphere.hit(&tangent, Interval::new(3 * S + 1, 100 * S)).is_none());
}

#[test]
fn sphere_seam_point_has_centered_surface_coordinates() {
    // At the point (1, 0, 0) of the unit sphere the azimuth is pi and the
    // polar angle pi/2, so both surface coordinates are exactly one half.
    let mut u: i64 = 0;
    let mut w: i64 = 0;
    Sphere::get_sphere_uv(Vec3::new(S, 0, 0), &mut u, &mut w);
    assert_eq!(u, S / 2);
    assert_eq!(w, S / 2);
}

#[test]
fn sphere_miss_has_no_hit() {
    let sphere = Sphere::new(v(0, 0, 0), S, 0);
    let miss = Ray::new(v(0, 2, -3), v(0, 0, 1));
    assert!(sphere.hit(&miss, Interval::new(0, 100 * S)).is_none());
}

#[test]
fn quad_interior_and_planar_coordinates() {
    let q = Quad::new(v(-1, -1, 3), v(2, 0, 0), v(0, 2, 0), 0);
    let r = Ray::new(v(0, 0, 0), v(0, 0, 1));
    let rec = q.hit(&r, Interval::new(0, 100 * S)).expect("center hit");
    assert_eq!(rec.t, 3 * S);
    assert_eq!(rec.u, S / 2);
    assert_eq!(rec.v, S / 2);
    assert!(!rec.front_face);
    // A ray passing outside the parallelogram misses.
    let outside = Ray::new(v(5, 0, 0), v(0, 0, 1));
    assert!(q.hit(&outside, Interval::new(0, 100 * S)).is_none());
    // A parallel ray misses.
    let parallel = Ray::new(v(0, 0, 0), v(1, 0, 0));
    assert!(q.hit(&parallel, Interval::new(0, 100 * S)).is_none());
}

#[test]
fn interval_union_identity_and_laws_on_values() {
    let e = Interval::empty();
    let i = Interval::new(-3 * S, 7 * S);
    assert_eq!(Interval::from_intervals(e, i), i);
    assert_eq!(Interval::from_intervals(i, e), i);
    let a = Interval::new(0, S);
    let b = Interval::new(-S, S / 2);
    let c = Interval::new(2 * S, 3 * S);
    assert_eq!(Interval::from_intervals(a, b), Interval::from_intervals(b, a));
    assert_eq!(
        Interval::from_intervals(Interval::from_intervals(a, b), c),
        Interval::from_intervals(a, Interval::from_intervals(b, c)),
    );
    assert!(i.contains(7 * S));
    assert!(!i.surrounds(7 * S));
    assert_eq!(i.clamp(100 * S), 7 * S);
}

#[test]
fn vector_identities() {
    let a = v(1, 2, 3);
    let b = v(4, 5, 6);
    assert_eq!(a.dot(b), (4 + 10 + 18) * S);
    assert_eq!(a.cross(b), v(-3, 6, -3));
    assert_eq!(a.mul(b), v(4, 10, 18));
    assert_eq!(unit_vector(v(0, 3, 4)), Vec3::new(0, 39321, 52428));
    assert!(near_zero(Vec3::new(0, 0, 0)));
    assert!(!near_zero(Vec3::new(1, 0, 0)));
    // Reflecting a downward ray off the floor sends it upward.
    assert_eq!(reflect(v(1, -1, 0), v(0, 1, 0)), v(1, 1, 0));
    // Refraction with index ratio one passes straight through.
    assert_eq!(refract(v(0, 0, 1), v(0, 0, -1), S), v(0, 0, 1));
}

#[test]
fn list_scans_for_the_closest_hit() {
    let mut world = HittableList::empty();
    world.add(Hittable::Sphere(Sphere::new(v(0, 0, 10), S, 0)));
    world.add(Hittable::Sphere(Sphere::new(v(0, 0, 4), S, 1)));
    world.add(Hittable::Sphere(Sphere::new(v(0, 0, 7), S, 2)));
    let r = Ray::new(v(0, 0, 0), v(0, 0, 1));
    let mut rng = Rng::new(1);
    let rec = world.hit(&r, Interval::new(0, 1000 * S), &mut rng).expect("closest sphere");
    assert_eq!(rec.t, 3 * S);
    assert_eq!(rec.mat, 1);
    // An empty aggregate hits nothing.
    let empty = HittableList::empty();
    assert!(empty.hit(&r, Interval::new(0, 1000 * S), &mut rng).is_none());
}

#[test]
fn translate_shifts_hits_forward() {
    let sphere = Hittable::Sphere(Sphere::new(v(0, 0, 0), S, 0));
    let moved = Translate::new(sphere, v(0, 0, 5));
    let r = Ray::new(v(0, 0, 0), v(0, 0, 1));
    let mut rng = Rng::new(1);
    let rec = moved.hit(&r, Interval::new(0, 1000 * S), &mut rng).expect("shifted sphere");
    assert_eq!(rec.t, 4 * S);
    assert_eq!(rec.p, v(0, 0, 4));
}
