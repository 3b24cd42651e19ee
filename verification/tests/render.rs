//! Scene-level tests: index/brute-force agreement on random rays, the
//! integrator's termination and background policies, material scattering at
//! normal incidence, quantization, textures, and end-to-end reproducibility.

use rtweekend::aabb::Aabb;
use rtweekend::camera::Camera;
use rtweekend::color::write_color;
use rtweekend::fixed::FP_ONE;
use rtweekend::hittable::bvh::BVHNode;
use rtweekend::hittable::constant_medium::ConstantMedium;
use rtweekend::hittable::rotate_y::RotateY;
use rtweekend::hittable::hittable_list::HittableList;
use rtweekend::hittable::sphere::Sphere;
use rtweekend::hittable::{HitRecord, Hittable};
use rtweekend::interval::Interval;
use rtweekend::material::dielectric::Dielectric;
use rtweekend::material::diffuse::Lambertian;
use rtweekend::material::diffuse_light::DiffuseLight;
use rtweekend::material::metal::Metal;
use rtweekend::material::Material;
use rtweekend::ray::Ray;
use rtweekend::rng::{random_range, Rng};
use rtweekend::rtw_image::RTWImage;
use rtweekend::texture::checkered::Checkered;
use rtweekend::texture::image::ImageTexture;
use rtweekend::texture::Texture;
use rtweekend::vec3::Vec3;

const S: i64 = FP_ONE;

fn v(x: i64, y: i64, z: i64) -> Vec3 {
    Vec3::new(x * S, y * S, z * S)
}

fn grid_scene() -> HittableList {
    let mut world = HittableList::empty();
    let mut m: usize = 0;
    for x in -2..3i64 {
        for y in -2..3i64 {
            for z in 1..6i64 {
                world.add(Hittable::Sphere(Sphere::new(v(3 * x, 3 * y, 3 * z), S, m)));
                m += 1;
            }
        }
    }
    world
}

#[test]
fn bvh_agrees_with_brute_force_on_random_rays() {
    let list = grid_scene();
    let brute = grid_scene();
    let mut build_rng = Rng::new(2024);
    let tree = Hittable::Bvh(BVHNode::new(list, &mut build_rng));
    let brute = Hittable::List(brute);

    let mut ray_rng = Rng::new(7);
    let mut hit_rng = Rng::new(0);
    let mut hits = 0;
    for _ in 0..500 {
        let origin = Vec3::new(
            random_range(&mut ray_rng, -12 * S, 12 * S),
            random_range(&mut ray_rng, -12 * S, 12 * S),
            random_range(&mut ray_rng, -4 * S, 0),
        );
        let direction = Vec3::new(
            random_range(&mut ray_rng, -S, S),
            random_range(&mut ray_rng, -S, S),
            random_range(&mut ray_rng, S / 4, 2 * S),
        );
        let r = Ray::new(origin, direction);
        let t = Interval::new(66, i64::MAX);
        let from_tree: Option<HitRecord> = tree.hit(&r, t, &mut hit_rng);
        let from_scan: Option<HitRecord> = brute.hit(&r, t, &mut hit_rng);
        match (from_tree, from_scan) {
            (None, None) => {},
            (Some(a), Some(b)) => {
                assert_eq!(a.t, b.t, "closest parameter must agree");
                assert_eq!(a.p, b.p, "hit point must agree");
                assert_eq!(a.mat, b.mat, "material handle must agree");
                hits += 1;
            },
            (a, b) => panic!("index and scan disagree: {a:?} vs {b:?}"),
        }
    }
    assert!(hits > 50, "the sample must actually exercise hits, got {hits}");
}

#[test]
fn integrator_at_depth_zero_is_black() {
    let materials = vec![Material::Lambertian(Lambertian::new(v(1, 1, 1)))];
    let world = Hittable::Sphere(Sphere::new(v(0, 0, 2), S, 0));
    let mut cam = Camera::default();
    cam.background = v(0, 0, 1);
    let mut rng = Rng::new(5);
    let r = Ray::new(v(0, 0, 0), v(0, 0, 1));
    let c = cam.ray_color(&r, 0, &world, &materials, &mut rng);
    assert_eq!(c, Vec3::new(0, 0, 0));
}

#[test]
fn integrator_miss_returns_background_and_lights_emit() {
    let materials = vec![
        Material::DiffuseLight(DiffuseLight::from_color(v(4, 4, 4))),
    ];
    let world = Hittable::Sphere(Sphere::new(v(0, 0, 5), S, 0));
    let mut cam = Camera::default();
    cam.background = v(0, 0, 1);
    let mut rng = Rng::new(5);
    let miss = Ray::new(v(0, 0, 0), v(0, 1, 0));
    assert_eq!(cam.ray_color(&miss, 10, &world, &materials, &mut rng), v(0, 0, 1));
    // A light absorbs the ray and contributes exactly its emission.
    let toward = Ray::new(v(0, 0, 0), v(0, 0, 1));
    assert_eq!(cam.ray_color(&toward, 10, &world, &materials, &mut rng), v(4, 4, 4));
}

#[test]
fn dielectric_normal_incidence_refracts_straight_through() {
    // Head-on hit: cos = 1, so there is no total internal reflection for any
    // index, and with unit index the reflectance is zero, so the ray refracts.
    let d = Dielectric::new(S);
    let rec = HitRecord {
        p: v(0, 0, 1),
        normal: v(0, 0, -1),
        mat: 0,
        t: S,
        front_face: true,
        u: 0,
        v: 0,
    };
    let r_in = Ray::new(v(0, 0, 0), v(0, 0, 1));
    let mut rng = Rng::new(3);
    let (attenuation, scattered) = d.scatter(&r_in, &rec, &mut rng).expect("always scatters");
    assert_eq!(attenuation, v(1, 1, 1));
    assert_eq!(scattered.direction, v(0, 0, 1), "normal incidence passes straight through");
    // The same holds for a large index ratio: never total internal reflection.
    let dense = Dielectric::new(16 * S);
    let mut rng2 = Rng::new(4);
    let (_, s2) = dense.scatter(&r_in, &rec, &mut rng2).expect("always scatters");
    // Straight through or mirrored straight back, never an absorbed ray.
    assert!(s2.direction == v(0, 0, 1) || s2.direction == v(0, 0, -1));
}

#[test]
fn metal_fuzz_is_clamped_to_one() {
    let m = Metal::new(v(1, 1, 1), 2 * S);
    // Fuzz is clamped to one.
    assert_eq!(m.fuzz, S);
}

#[test]
fn quantization_is_exact_at_the_ends() {
    assert_eq!(write_color(v(0, 0, 0), 1), (0, 0, 0));
    assert_eq!(write_color(v(1, 1, 1), 1), (255, 255, 255));
    // Four accumulated white samples average back to white.
    assert_eq!(write_color(v(4, 4, 4), 4), (255, 255, 255));
    // A quarter-intensity channel gamma-corrects to one half.
    let (r, _, _) = write_color(Vec3::new(S / 4, 0, 0), 1);
    assert_eq!(r, 127);
}

#[test]
fn image_texture_samples_pixels_and_checker_alternates() {
    let mut img = RTWImage::new();
    assert_eq!(img.width(), 0);
    // A 2 x 1 image: a red and a green pixel.
    let ok = img.load(2, 1, vec![255, 0, 0, 0, 255, 0]);
    assert!(ok);
    assert_eq!(img.pixel_data(0, 0), (255, 0, 0));
    assert_eq!(img.pixel_data(1, 0), (0, 255, 0));
    // Out-of-range lookups clamp to the edge.
    assert_eq!(img.pixel_data(9, 9), (0, 255, 0));
    let tex = ImageTexture::new(img);
    let left = tex.value(0, S / 2, v(0, 0, 0));
    assert_eq!(left, Vec3::new(S, 0, 0));
    let right = tex.value(S, S / 2, v(0, 0, 0));
    assert_eq!(right, Vec3::new(0, S, 0));

    // A wrong-sized buffer is rejected.
    let mut bad = RTWImage::new();
    assert!(!bad.load(2, 1, vec![0, 0, 0]));
    assert!(!bad.load(0, 1, vec![]));

    let check = Texture::Checkered(Checkered::from_colors(S, v(1, 0, 0), v(0, 1, 0)));
    let a = check.value(0, 0, Vec3::new(S / 2, S / 2, S / 2));
    let b = check.value(0, 0, Vec3::new(S + S / 2, S / 2, S / 2));
    assert_eq!(a, v(1, 0, 0));
    assert_eq!(b, v(0, 1, 0));
}

#[test]
fn render_unit_sphere_is_reproducible_bit_for_bit() {
    let materials = vec![Material::Lambertian(Lambertian::new(v(1, 1, 1)))];
    let world = Hittable::Sphere(Sphere::new(v(0, 0, 0), S, 0));

    let mut cam = Camera::default();
    cam.image_width = 4;
    cam.samples_per_pixel = 1;
    cam.max_depth = 4;
    cam.background = v(0, 0, 1);
    cam.lookfrom = v(0, 0, -3);

    let first = cam.render(&world, &materials, 42);
    let mut cam2 = Camera::default();
    cam2.image_width = 4;
    cam2.samples_per_pixel = 1;
    cam2.max_depth = 4;
    cam2.background = v(0, 0, 1);
    cam2.lookfrom = v(0, 0, -3);
    let second = cam2.render(&world, &materials, 42);

    assert_eq!(first.len(), 16);
    assert_eq!(first, second, "a fixed seed must reproduce the frame bit for bit");
    // Every channel lies in the 8-bit range whatever the sample count.
    let mut cam3 = Camera::default();
    cam3.image_width = 4;
    cam3.samples_per_pixel = 3;
    cam3.max_depth = 4;
    cam3.background = v(0, 0, 1);
    cam3.lookfrom = v(0, 0, -3);
    let third = cam3.render(&world, &materials, 42);
    for (r, g, b) in third {
        assert!(r <= 255 && g <= 255 && b <= 255);
    }
}

#[test]
fn rotate_y_carries_objects_around_the_axis() {
    // A quarter turn about y moves a sphere from +x to -z.
    let sphere = Hittable::Sphere(Sphere::new(v(5, 0, 0), S, 0));
    let rotated = RotateY::new(sphere, S, 0);
    let r = Ray::new(v(0, 0, 0), v(0, 0, -1));
    let mut rng = Rng::new(1);
    let rec = rotated.hit(&r, Interval::new(0, 1000 * S), &mut rng).expect("rotated sphere");
    assert_eq!(rec.t, 4 * S);
    assert_eq!(rec.p, v(0, 0, -4));
    // The unrotated position no longer intersects.
    let old_spot = Ray::new(v(0, 0, 0), v(1, 0, 0));
    assert!(rotated.hit(&old_spot, Interval::new(0, 1000 * S), &mut rng).is_none());
}

#[test]
fn constant_medium_scatters_inside_its_boundary() {
    let mut materials: Vec<Material> = Vec::new();
    let boundary = Hittable::Sphere(Sphere::new(v(0, 0, 3), S, 0));
    let medium = ConstantMedium::from_color(boundary, 1000 * S, v(1, 1, 1), &mut materials);
    assert_eq!(materials.len(), 1);
    assert_eq!(medium.phase_function, 0);
    // A dense medium scatters almost surely within the chord from t = 2 to 4.
    let r = Ray::new(v(0, 0, 0), v(0, 0, 1));
    let mut rng = Rng::new(11);
    let rec = medium.hit(&r, Interval::new(66, i64::MAX), &mut rng).expect("dense medium");
    assert!(2 * S <= rec.t && rec.t <= 4 * S, "t = {}", rec.t);
    assert_eq!(rec.mat, 0);
    // A ray that misses the boundary never scatters.
    let miss = Ray::new(v(0, 5, 0), v(0, 0, 1));
    assert!(medium.hit(&miss, Interval::new(66, i64::MAX), &mut rng).is_none());
}

#[test]
fn bvh_node_box_is_the_union_of_its_children() {
    let s1 = Hittable::Sphere(Sphere::new(v(0, 0, 5), S, 0));
    let s2 = Hittable::Sphere(Sphere::new(v(9, 0, 5), S, 1));
    let b1 = s1.bounding_box();
    let b2 = s2.bounding_box();
    let mut rng = Rng::new(3);
    let node = BVHNode::from_slice(vec![s1, s2], &mut rng);
    // The cached box is the union of the children's boxes, and the children
    // are the two inputs (in box-minimum order along the chosen axis).
    assert_eq!(
        node.bbox,
        Aabb::from_boxes(node.left.bounding_box(), node.right.bounding_box()),
    );
    assert_eq!(node.bbox, Aabb::from_boxes(b1, b2));
    let lb = node.left.bounding_box();
    assert!(lb == b1 || lb == b2);

    // A single object is paired with an empty aggregate that nothing hits.
    let alone = Hittable::Sphere(Sphere::new(v(0, 0, 5), S, 0));
    let leaf = BVHNode::from_slice(vec![alone], &mut rng);
    assert_eq!(leaf.left.bounding_box(), b1);
    assert_eq!(leaf.bbox, b1);
}
