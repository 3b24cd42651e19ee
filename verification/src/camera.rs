//! The camera: viewport and lens geometry, per-pixel sampling, and the
//! recursive light-transport integrator.

use vstd::prelude::*;

use crate::color::write_color;
use crate::fixed::FP_ONE;
use crate::fixed::fp_add;
use crate::fixed::fp_add_spec;
use crate::fixed::fp_div;
use crate::fixed::fp_div_spec;
use crate::fixed::fp_floor;
use crate::fixed::fp_mul;
use crate::fixed::fp_mul_spec;
use crate::hittable::Hittable;
use crate::hittable::hit_rng_spec;
use crate::hittable::wf;
use crate::interval::Interval;
use crate::material::Material;
use crate::material::emitted_spec;
use crate::material::material_wf;
use crate::material::scatter_spec;
use crate::ray::Ray;
use crate::rng::Rng;
use crate::rng::random_fraction;
use crate::rng::rng_fraction;
use crate::rng::rng_step;
use crate::vec3::Mul;
use crate::vec3::SAMPLE_TRIES;
use crate::vec3::Vec3;
use crate::vec3::cross_spec;
use crate::vec3::random_in_unit_disk;
use crate::vec3::sample_in_disk_spec;
use crate::vec3::unit_spec;
use crate::vec3::unit_vector;
use crate::vec3::vec_add_spec;
use crate::vec3::vec_div_spec;
use crate::vec3::vec_mul_spec;
use crate::vec3::vec_neg_spec;
use crate::vec3::vec_scale_spec;
use crate::vec3::vec_sub_spec;

verus! {

/// The lower bound of every intersection query, keeping bounced rays off
/// the surface they start from.
pub const RAY_T_MIN: i64 = 66;

/// All the materials of a scene share one arena; hit records refer into it
/// by handle.
pub open spec fn materials_wf(materials: Seq<Material>) -> bool {
    forall|k: int| 0 <= k < materials.len() ==> material_wf(#[trigger] materials[k])
}

/// The camera: user-set view parameters and the derived viewport, basis and
/// lens state computed once by `initialize`.
pub struct Camera {
    pub aspect_ratio: i64,
    pub image_width: usize,
    pub samples_per_pixel: u32,
    pub max_depth: u32,
    pub background: Vec3,
    pub tan_half_vfov: i64,
    pub lookfrom: Vec3,
    pub lookat: Vec3,
    pub vup: Vec3,
    pub defocus_angle: i64,
    pub tan_half_defocus: i64,
    pub focus_dist: i64,
    pub image_height: usize,
    pub center: Vec3,
    pub pixel00_loc: Vec3,
    pub pixel_delta_u: Vec3,
    pub pixel_delta_v: Vec3,
    pub u: Vec3,
    pub v: Vec3,
    pub w: Vec3,
    pub defocus_disk_u: Vec3,
    pub defocus_disk_v: Vec3,
}

/// The derived state `initialize` computes from the view parameters: the
/// image height from width and aspect ratio (at least one), the orthonormal
/// camera basis, the per-pixel viewport deltas, the location of pixel
/// `(0, 0)`, and the defocus-disk basis.
pub open spec fn camera_initialize_spec(c: Camera) -> Camera {
    let width_fp = (c.image_width * FP_ONE) as i64;
    let ih = fp_div_spec(width_fp as int, c.aspect_ratio as int) / (FP_ONE as int);
    let image_height = if ih < 1 {
        1
    } else if ih > 30000 {
        30000
    } else {
        ih as usize
    };
    let height_fp = (image_height * FP_ONE) as i64;
    let center = c.lookfrom;
    let viewport_height = fp_mul_spec(
        fp_mul_spec(2 * FP_ONE as int, c.tan_half_vfov as int),
        c.focus_dist as int,
    ) as i64;
    let viewport_width = fp_mul_spec(
        viewport_height as int,
        fp_div_spec(width_fp as int, height_fp as int),
    ) as i64;
    let w = unit_spec(vec_sub_spec(c.lookfrom, c.lookat));
    let u = unit_spec(cross_spec(c.vup, w));
    let v = cross_spec(w, u);
    let viewport_u = vec_scale_spec(u, viewport_width);
    let viewport_v = vec_scale_spec(vec_neg_spec(v), viewport_height);
    let pixel_delta_u = vec_div_spec(viewport_u, width_fp);
    let pixel_delta_v = vec_div_spec(viewport_v, height_fp);
    let viewport_upper_left = vec_sub_spec(
        vec_sub_spec(
            vec_sub_spec(center, vec_scale_spec(w, c.focus_dist)),
            vec_div_spec(viewport_u, (2 * FP_ONE) as i64),
        ),
        vec_div_spec(viewport_v, (2 * FP_ONE) as i64),
    );
    let pixel00_loc = vec_add_spec(
        viewport_upper_left,
        vec_scale_spec(vec_add_spec(pixel_delta_u, pixel_delta_v), 32768),
    );
    let defocus_radius = fp_mul_spec(c.focus_dist as int, c.tan_half_defocus as int) as i64;
    let defocus_disk_u = vec_scale_spec(u, defocus_radius);
    let defocus_disk_v = vec_scale_spec(v, defocus_radius);
    Camera {
        image_height,
        center,
        pixel00_loc,
        pixel_delta_u,
        pixel_delta_v,
        u,
        v,
        w,
        defocus_disk_u,
        defocus_disk_v,
        ..c
    }
}

/// The sampled camera ray for pixel `(i, j)` from generator state `s`:
/// jitter within the pixel footprint, start from the camera center or a
/// random defocus-disk point, and carry a uniform random time. The second
/// component is the state after the draws.
pub open spec fn get_ray_spec(c: Camera, i: usize, j: usize, s: u64) -> (Ray, u64) {
    let pixel_center = vec_add_spec(
        vec_add_spec(c.pixel00_loc, vec_scale_spec(c.pixel_delta_u, (i * FP_ONE) as i64)),
        vec_scale_spec(c.pixel_delta_v, (j * FP_ONE) as i64),
    );
    let px = fp_add_spec(-32768, rng_fraction(s) as int) as i64;
    let py = fp_add_spec(-32768, rng_fraction(rng_step(s)) as int) as i64;
    let s2 = rng_step(rng_step(s));
    let pixel_sample = vec_add_spec(
        pixel_center,
        vec_add_spec(vec_scale_spec(c.pixel_delta_u, px), vec_scale_spec(c.pixel_delta_v, py)),
    );
    let origin_state = if c.defocus_angle <= 0 {
        (c.center, s2)
    } else {
        let p = sample_in_disk_spec(s2, SAMPLE_TRIES as nat);
        (
            vec_add_spec(
                vec_add_spec(c.center, vec_scale_spec(c.defocus_disk_u, p.0.x)),
                vec_scale_spec(c.defocus_disk_v, p.0.y),
            ),
            p.1,
        )
    };
    let ray_origin = origin_state.0;
    let s3 = origin_state.1;
    let ray_time = rng_fraction(s3);
    (
        Ray {
            origin: ray_origin,
            direction: vec_sub_spec(pixel_sample, ray_origin),
            tm: ray_time,
        },
        rng_step(s3),
    )
}

/// The radiance the integrator gathers along a ray from generator state
/// `s`: black at depth zero, the background on a miss, the emission alone
/// on absorption, and the emission plus the attenuated recursive radiance
/// on a scatter. The second component is the generator state afterward.
pub open spec fn ray_color_spec(
    c: Camera,
    r: Ray,
    depth: u32,
    world: Hittable,
    materials: Seq<Material>,
    s: u64,
) -> (Vec3, u64)
    decreases depth,
{
    if depth == 0 {
        (Vec3 { x: 0, y: 0, z: 0 }, s)
    } else {
        let probe = hit_rng_spec(world, r, Interval { min: RAY_T_MIN, max: i64::MAX }, s);
        match probe.0 {
            Option::None => (c.background, probe.1),
            Option::Some(rec) => {
                let m = materials[rec.mat as int];
                let emitted = emitted_spec(m, rec.u, rec.v, rec.p);
                let sc = scatter_spec(m, r, rec, probe.1);
                match sc.0 {
                    Option::None => (emitted, sc.1),
                    Option::Some(att_scattered) => {
                        let rest = ray_color_spec(
                            c,
                            att_scattered.1,
                            (depth - 1) as u32,
                            world,
                            materials,
                            sc.1,
                        );
                        (
                            vec_add_spec(emitted, vec_mul_spec(att_scattered.0, rest.0)),
                            rest.1,
                        )
                    },
                }
            },
        }
    }
}

/// The sampling rounds of one pixel: each round draws a camera ray and adds
/// the radiance gathered along it. The second component is the generator
/// state after the rounds.
pub open spec fn sample_loop_spec(
    c: Camera,
    world: Hittable,
    materials: Seq<Material>,
    i: usize,
    j: usize,
    rounds: nat,
    s: u64,
    accum: Vec3,
) -> (Vec3, u64)
    decreases rounds,
{
    if rounds == 0 {
        (accum, s)
    } else {
        let rs = get_ray_spec(c, i, j, s);
        let col = ray_color_spec(c, rs.0, c.max_depth, world, materials, rs.1);
        sample_loop_spec(
            c,
            world,
            materials,
            i,
            j,
            (rounds - 1) as nat,
            col.1,
            vec_add_spec(accum, col.0),
        )
    }
}

/// One pixel's accumulated color: from black over `samples_per_pixel`
/// sampling rounds.
pub open spec fn render_pixel_spec(
    c: Camera,
    world: Hittable,
    materials: Seq<Material>,
    i: usize,
    j: usize,
    s: u64,
) -> (Vec3, u64) {
    sample_loop_spec(
        c,
        world,
        materials,
        i,
        j,
        c.samples_per_pixel as nat,
        s,
        Vec3 { x: 0, y: 0, z: 0 },
    )
}

impl Camera {
    /// Derive the viewport, basis and lens state from the view parameters.
    pub fn initialize(&mut self)
        requires
            1 <= old(self).image_width <= 30000,
        ensures
            *final(self) == camera_initialize_spec(*old(self)),
            final(self).image_height >= 1,
            final(self).image_height <= 30000,
            final(self).image_width == old(self).image_width,
    {
        let width_fp = (self.image_width as i64) * FP_ONE;
        let ihf = fp_floor(fp_div(width_fp, self.aspect_ratio));
        proof {
            vstd::arithmetic::div_mod::lemma_div_is_ordered(
                fp_div_spec(width_fp as int, self.aspect_ratio as int),
                i64::MAX as int,
                FP_ONE as int,
            );
        }
        self.image_height = if ihf < 1 {
            1
        } else if ihf > 30000 {
            30000
        } else {
            ihf as usize
        };
        let height_fp = (self.image_height as i64) * FP_ONE;

        self.center = self.lookfrom;

        let viewport_height = fp_mul(fp_mul(2 * FP_ONE, self.tan_half_vfov), self.focus_dist);
        let viewport_width = fp_mul(viewport_height, fp_div(width_fp, height_fp));

        self.w = unit_vector(self.lookfrom.minus(self.lookat));
        self.u = unit_vector(self.vup.cross(self.w));
        self.v = self.w.cross(self.u);

        let viewport_u = self.u.scale(viewport_width);
        let viewport_v = self.v.negate().scale(viewport_height);

        self.pixel_delta_u = viewport_u.divide(width_fp);
        self.pixel_delta_v = viewport_v.divide(height_fp);

        let viewport_upper_left = self.center.minus(self.w.scale(self.focus_dist)).minus(
            viewport_u.divide(2 * FP_ONE),
        ).minus(viewport_v.divide(2 * FP_ONE));
        self.pixel00_loc = viewport_upper_left.plus(
            self.pixel_delta_u.plus(self.pixel_delta_v).scale(32768),
        );

        let defocus_radius = fp_mul(self.focus_dist, self.tan_half_defocus);
        self.defocus_disk_u = self.u.scale(defocus_radius);
        self.defocus_disk_v = self.v.scale(defocus_radius);
    }

    /// A randomly sampled camera ray for the pixel at `(i, j)`.
    pub fn get_ray(&self, i: usize, j: usize, rng: &mut Rng) -> (r: Ray)
        requires
            i <= 30000,
            j <= 30000,
        ensures
            r == get_ray_spec(*self, i, j, old(rng)@).0,
            final(rng)@ == get_ray_spec(*self, i, j, old(rng)@).1,
    {
        let pixel_center = self.pixel00_loc.plus(
            self.pixel_delta_u.scale((i as i64) * FP_ONE),
        ).plus(self.pixel_delta_v.scale((j as i64) * FP_ONE));
        let px = fp_add(-32768, random_fraction(rng));
        let py = fp_add(-32768, random_fraction(rng));
        let pixel_sample = pixel_center.plus(
            self.pixel_delta_u.scale(px).plus(self.pixel_delta_v.scale(py)),
        );

        let ray_origin = if self.defocus_angle <= 0 {
            self.center
        } else {
            let p = random_in_unit_disk(rng);
            self.center.plus(self.defocus_disk_u.scale(p.x)).plus(self.defocus_disk_v.scale(p.y))
        };
        let ray_direction = pixel_sample.minus(ray_origin);
        let ray_time = random_fraction(rng);

        Ray::new_timed(ray_origin, ray_direction, ray_time)
    }

    /// The radiance gathered along a ray: black once the bounce limit is
    /// exhausted; the background when the ray hits nothing; on a hit, the
    /// emission plus, if the material scatters, the attenuated radiance of
    /// the scattered ray.
    pub fn ray_color(
        &self,
        r: &Ray,
        depth: u32,
        world: &Hittable,
        materials: &Vec<Material>,
        rng: &mut Rng,
    ) -> (color: Vec3)
        requires
            wf(*world, materials@.len() as int),
            materials_wf(materials@),
        ensures
            depth == 0 ==> color == (Vec3 { x: 0, y: 0, z: 0 }),
            color == ray_color_spec(*self, *r, depth, *world, materials@, old(rng)@).0,
            final(rng)@ == ray_color_spec(*self, *r, depth, *world, materials@, old(rng)@).1,
        decreases depth,
    {
        if depth == 0 {
            return Vec3::new(0, 0, 0);
        }

        match world.hit(r, Interval::new(RAY_T_MIN, i64::MAX), rng) {
            Option::None => self.background,
            Option::Some(rec) => {
                proof {
                    assert(wf(*world, materials@.len() as int));
                }
                let mat = &materials[rec.mat];
                let color_from_emission = mat.emitted(rec.u, rec.v, rec.p);
                match mat.scatter(r, &rec, rng) {
                    Option::None => color_from_emission,
                    Option::Some(att_scattered) => {
                        let color_from_scatter = att_scattered.0.mul(
                            self.ray_color(&att_scattered.1, depth - 1, world, materials, rng),
                        );
                        color_from_emission.plus(color_from_scatter)
                    },
                }
            },
        }
    }

    /// The accumulated color of one pixel: the sum of `samples_per_pixel`
    /// integrator evaluations along jittered rays.
    #[verifier::rlimit(100)]
    pub fn render_pixel(
        &self,
        world: &Hittable,
        materials: &Vec<Material>,
        i: usize,
        j: usize,
        rng: &mut Rng,
    ) -> (color: Vec3)
        requires
            wf(*world, materials@.len() as int),
            materials_wf(materials@),
            i <= 30000,
            j <= 30000,
        ensures
            color == render_pixel_spec(*self, *world, materials@, i, j, old(rng)@).0,
            final(rng)@ == render_pixel_spec(*self, *world, materials@, i, j, old(rng)@).1,
    {
        let mut pixel_color = Vec3::new(0, 0, 0);
        let mut sample: u32 = 0;
        while sample < self.samples_per_pixel
            invariant
                wf(*world, materials@.len() as int),
                materials_wf(materials@),
                i <= 30000,
                j <= 30000,
                sample <= self.samples_per_pixel,
                sample_loop_spec(
                    *self,
                    *world,
                    materials@,
                    i,
                    j,
                    self.samples_per_pixel as nat,
                    old(rng)@,
                    Vec3 { x: 0, y: 0, z: 0 },
                ) == sample_loop_spec(
                    *self,
                    *world,
                    materials@,
                    i,
                    j,
                    (self.samples_per_pixel - sample) as nat,
                    rng@,
                    pixel_color,
                ),
            decreases self.samples_per_pixel - sample,
        {
            let r = self.get_ray(i, j, rng);
            let c = self.ray_color(&r, self.max_depth, world, materials, rng);
            pixel_color = pixel_color.plus(c);
            sample = sample + 1;
        }
        pixel_color
    }

    /// Render a complete frame: derive the viewport, then walk the flat
    /// pixel index space in row-major order, sampling each pixel with its
    /// own generator seeded from the frame seed and the pixel index, and
    /// quantize each accumulated color to an 8-bit triple.
    pub fn render(
        &mut self,
        world: &Hittable,
        materials: &Vec<Material>,
        seed: u64,
    ) -> (pixels: Vec<(u8, u8, u8)>)
        requires
            wf(*world, materials@.len() as int),
            materials_wf(materials@),
            1 <= old(self).image_width <= 30000,
            old(self).samples_per_pixel >= 1,
        ensures
            *final(self) == camera_initialize_spec(*old(self)),
            pixels@.len() == final(self).image_height * final(self).image_width,
            forall|n: int|
                0 <= n < pixels@.len() ==> #[trigger] pixels@[n] == crate::color::write_color_spec(
                    render_pixel_spec(
                        *final(self),
                        *world,
                        materials@,
                        ((n % (final(self).image_width as int)) as usize),
                        ((n / (final(self).image_width as int)) as usize),
                        seed.wrapping_add(n as u64),
                    ).0,
                    final(self).samples_per_pixel,
                ),
    {
        self.initialize();
        let width = self.image_width;
        let height = self.image_height;
        proof {
            assert((height as int) * (width as int) < 0x8000_0000) by (nonlinear_arith)
                requires
                    1 <= width <= 30000,
                    1 <= height <= 30000,
            ;
        }
        let total = height * width;
        let ghost cam = *self;
        let mut pixels: Vec<(u8, u8, u8)> = Vec::new();
        let mut n: usize = 0;
        while n < total
            invariant
                *self == cam,
                pixels@.len() == n,
                n <= total,
                total == self.image_height * self.image_width,
                width == self.image_width,
                height == self.image_height,
                1 <= width <= 30000,
                1 <= height <= 30000,
                wf(*world, materials@.len() as int),
                materials_wf(materials@),
                self.samples_per_pixel >= 1,
                forall|m: int|
                    0 <= m < n ==> #[trigger] pixels@[m] == crate::color::write_color_spec(
                        render_pixel_spec(
                            *self,
                            *world,
                            materials@,
                            ((m % (self.image_width as int)) as usize),
                            ((m / (self.image_width as int)) as usize),
                            seed.wrapping_add(m as u64),
                        ).0,
                        self.samples_per_pixel,
                    ),
            decreases total - n,
        {
            let j = n / width;
            proof {
                vstd::arithmetic::div_mod::lemma_fundamental_div_mod(n as int, width as int);
                assert((n as int) % (width as int) < width as int);
                assert((j as int) * (width as int) <= n as int) by (nonlinear_arith)
                    requires
                        j as int == (n as int) / (width as int),
                        width >= 1,
                        n >= 0,
                        (n as int) == (width as int) * ((n as int) / (width as int)) + (
                        n as int) % (width as int),
                        0 <= (n as int) % (width as int),
                ;
                assert(j as int <= n as int) by {
                    vstd::arithmetic::div_mod::lemma_div_nonincreasing(n as int, width as int);
                }
                assert((j as int) < height as int) by (nonlinear_arith)
                    requires
                        j as int == (n as int) / (width as int),
                        (n as int) < (height as int) * (width as int),
                        width >= 1,
                        n >= 0,
                        (n as int) == (width as int) * ((n as int) / (width as int)) + (
                        n as int) % (width as int),
                        0 <= (n as int) % (width as int),
                ;
                assert(j as int <= 30000);
            }
            let i = n - j * width;
            proof {
                assert(i as int == (n as int) % (width as int));
                assert(i < width);
            }
            let mut rng = Rng::new(seed.wrapping_add(n as u64));
            let color = self.render_pixel(world, materials, i, j, &mut rng);
            let rgb = write_color(color, self.samples_per_pixel);
            pixels.push(rgb);
            n = n + 1;
        }
        pixels
    }
}

impl Default for Camera {
    /// A square hundred-pixel pinhole camera with ten samples, ten bounces,
    /// a black background and a ninety-degree field of view.
    fn default() -> (c: Camera)
        ensures
            c.aspect_ratio == FP_ONE,
            c.image_width == 100,
            c.samples_per_pixel == 10,
            c.max_depth == 10,
            c.background == (Vec3 { x: 0, y: 0, z: 0 }),
            c.tan_half_vfov == FP_ONE,
            c.lookfrom == (Vec3 { x: 0, y: 0, z: (-FP_ONE) as i64 }),
            c.lookat == (Vec3 { x: 0, y: 0, z: 0 }),
            c.vup == (Vec3 { x: 0, y: FP_ONE, z: 0 }),
            c.defocus_angle == 0,
            c.tan_half_defocus == 0,
            c.focus_dist == 10 * FP_ONE,
    {
        Camera {
            aspect_ratio: FP_ONE,
            image_width: 100,
            samples_per_pixel: 10,
            max_depth: 10,
            background: Vec3 { x: 0, y: 0, z: 0 },
            tan_half_vfov: FP_ONE,
            lookfrom: Vec3 { x: 0, y: 0, z: -FP_ONE },
            lookat: Vec3 { x: 0, y: 0, z: 0 },
            vup: Vec3 { x: 0, y: FP_ONE, z: 0 },
            defocus_angle: 0,
            tan_half_defocus: 0,
            focus_dist: 10 * FP_ONE,
            image_height: 0,
            center: Vec3 { x: 0, y: 0, z: 0 },
            pixel00_loc: Vec3 { x: 0, y: 0, z: 0 },
            pixel_delta_u: Vec3 { x: 0, y: 0, z: 0 },
            pixel_delta_v: Vec3 { x: 0, y: 0, z: 0 },
            u: Vec3 { x: 0, y: 0, z: 0 },
            v: Vec3 { x: 0, y: 0, z: 0 },
            w: Vec3 { x: 0, y: 0, z: 0 },
            defocus_disk_u: Vec3 { x: 0, y: 0, z: 0 },
            defocus_disk_v: Vec3 { x: 0, y: 0, z: 0 },
        }
    }
}

} // verus!
