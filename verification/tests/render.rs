//! End-to-end transport decisions, depth exhaustion, idempotence, and the
//! output grid.

use rayt_rs::camera::{trace_interval, trace_step, Camera, PixelGrid, TraceStep, HIT_T_MIN};
use rayt_rs::color::Color;
use rayt_rs::hittable::HitRecord;
use rayt_rs::materials::{Diffuse, Material, MaterialId, Normals};
use rayt_rs::math::types::{UnitVec3, Vec3};
use rayt_rs::math::primitives::sphere::{RootCandidate, Sphere, SphereRoots};
use rayt_rs::samplers::SamplerConfig;
use rayt_rs::world::World;

/// The order-preserving code of an IEEE double.
fn code(x: f64) -> u64 {
    let b = x.to_bits();
    if b >> 63 == 1 {
        !b
    } else {
        b | (1u64 << 63)
    }
}

/// Inverse of `code`.
fn decode(c: u64) -> f64 {
    if c >> 63 == 1 {
        f64::from_bits(c & !(1u64 << 63))
    } else {
        f64::from_bits(!c)
    }
}

fn v3(x: f64, y: f64, z: f64) -> Vec3 {
    Vec3::new(code(x), code(y), code(z))
}

fn dot(a: [f64; 3], b: [f64; 3]) -> f64 {
    a[0] * b[0] + a[1] * b[1] + a[2] * b[2]
}

/// The analytic half-b quadratic solve, mirroring what the renderer
/// computes with doubles before handing the roots to the library.
fn solve(center: [f64; 3], radius: f64, origin: [f64; 3], dir: [f64; 3]) -> SphereRoots {
    let oc = [center[0] - origin[0], center[1] - origin[1], center[2] - origin[2]];
    let a = dot(dir, dir);
    let h = dot(dir, oc);
    let c = dot(oc, oc) - radius * radius;
    let disc = h * h - a * c;
    if disc < 0.0 {
        return SphereRoots::Miss;
    }
    let sq = disc.sqrt();
    let cand = |t: f64| {
        let p = [origin[0] + t * dir[0], origin[1] + t * dir[1], origin[2] + t * dir[2]];
        let n = [
            (p[0] - center[0]) / radius,
            (p[1] - center[1]) / radius,
            (p[2] - center[2]) / radius,
        ];
        RootCandidate {
            t: code(t),
            hit_point: v3(p[0], p[1], p[2]),
            outward_normal: UnitVec3::new_unchecked(v3(n[0], n[1], n[2])),
            dir_dot_outward: code(dot(dir, n)),
        }
    };
    SphereRoots::Roots(cand((h - sq) / a), cand((h + sq) / a))
}

/// One sphere of radius 0.5 at (0,0,-1) with the normals debug material.
fn normals_scene() -> World {
    let mut world = World::new();
    let id = world.add_material(Material::Normals(Normals::new()));
    world.add_object(Sphere::new(v3(0.0, 0.0, -1.0), code(0.5), id));
    world
}

/// The per-ray evaluation a renderer performs for the normals scene: the
/// closest hit, the transport decision, and the resulting color, with the
/// floating-point legs (emitted color, background gradient) computed here.
fn shade(world: &World, dir: [f64; 3], ttl: u32) -> [f64; 3] {
    let roots = vec![solve([0.0, 0.0, -1.0], 0.5, [0.0, 0.0, 0.0], dir)];
    let hit = world.hit(trace_interval(), &roots);
    match trace_step(ttl, hit, world.materials()).expect("material lookup failed") {
        TraceStep::Exhausted => [0.0, 0.0, 0.0],
        TraceStep::Background => {
            let t = (dir[1] + 1.0) / 2.0;
            [
                (1.0 - t) * 1.0 + t * 0.5,
                (1.0 - t) * 1.0 + t * 0.7,
                (1.0 - t) * 1.0 + t * 1.0,
            ]
        },
        TraceStep::Emit(_) => {
            let rec = hit.unwrap();
            [
                (decode(rec.normal.0.x) + 1.0) / 2.0,
                (decode(rec.normal.0.y) + 1.0) / 2.0,
                (decode(rec.normal.0.z) + 1.0) / 2.0,
            ]
        },
        TraceStep::Scatter(_) => panic!("the normals material never scatters"),
    }
}

#[test]
fn center_ray_shades_remapped_normal() {
    let world = normals_scene();
    let c = shade(&world, [0.0, 0.0, -1.0], 1);
    assert!((c[0] - 0.5).abs() < 1.0e-12);
    assert!((c[1] - 0.5).abs() < 1.0e-12);
    assert!((c[2] - 1.0).abs() < 1.0e-12);
}

#[test]
fn missing_ray_shades_background_gradient() {
    let world = normals_scene();
    // Straight up: the gradient parameter is 1, giving the sky blue.
    let c = shade(&world, [0.0, 1.0, 0.0], 1);
    assert!((c[0] - 0.5).abs() < 1.0e-12);
    assert!((c[1] - 0.7).abs() < 1.0e-12);
    assert!((c[2] - 1.0).abs() < 1.0e-12);
}

#[test]
fn depth_exhaustion_renders_black_without_consulting_materials() {
    let world = normals_scene();
    let dir = [0.0, 0.0, -1.0];
    let roots = vec![solve([0.0, 0.0, -1.0], 0.5, [0.0, 0.0, 0.0], dir)];
    let hit = world.hit(trace_interval(), &roots);
    assert!(hit.is_some());
    assert_eq!(trace_step(0, hit, world.materials()), Some(TraceStep::Exhausted));
    assert_eq!(trace_step(0, None, world.materials()), Some(TraceStep::Exhausted));
    assert_eq!(shade(&world, dir, 0), [0.0, 0.0, 0.0]);
}

#[test]
fn unknown_material_reference_is_fatal() {
    let mut world = World::new();
    world.add_object(Sphere::new(v3(0.0, 0.0, -1.0), code(0.5), MaterialId(5)));
    let dir = [0.0, 0.0, -1.0];
    let roots = vec![solve([0.0, 0.0, -1.0], 0.5, [0.0, 0.0, 0.0], dir)];
    let hit = world.hit(trace_interval(), &roots);
    assert!(hit.is_some());
    assert_eq!(trace_step(1, hit, world.materials()), None);
}

#[test]
fn scattering_material_defers_to_recursion() {
    let mut world = World::new();
    let id = world.add_material(Material::Diffuse(Diffuse::new(Color::new(
        code(0.5),
        code(0.5),
        code(0.5),
    ))));
    world.add_object(Sphere::new(v3(0.0, 0.0, -1.0), code(0.5), id));
    let dir = [0.0, 0.0, -1.0];
    let roots = vec![solve([0.0, 0.0, -1.0], 0.5, [0.0, 0.0, 0.0], dir)];
    let hit = world.hit(trace_interval(), &roots);
    assert_eq!(trace_step(3, hit, world.materials()), Some(TraceStep::Scatter(id)));
}

/// Renders the 2x2 single-sampler normals scene: four fixed rays, one per
/// pixel, everything deterministic.
fn render_once(world: &World) -> PixelGrid {
    let dirs = [
        [[-0.25, 0.25, -1.0], [0.25, 0.25, -1.0]],
        [[-0.25, -0.25, -1.0], [0.25, -0.25, -1.0]],
    ];
    let mut rows: Vec<Vec<Color>> = Vec::new();
    for row in dirs {
        let mut out: Vec<Color> = Vec::new();
        for dir in row {
            let c = shade(world, dir, 1);
            out.push(Color::new(code(c[0]), code(c[1]), code(c[2])));
        }
        rows.push(out);
    }
    PixelGrid::from_rows(2, &rows)
}

#[test]
fn single_sampler_render_is_bit_identical() {
    let world = normals_scene();
    let first = render_once(&world);
    let second = render_once(&world);
    assert_eq!(first, second);
    assert_eq!(first.width, 2);
    assert_eq!(first.height, 2);
    assert_eq!(first.pixels.len(), 4);
    // Row-major layout: pixel (i, j) sits at j * width + i.
    for j in 0..2usize {
        for i in 0..2usize {
            assert_eq!(first.get(i, j), first.pixels[j * 2 + i]);
        }
    }
}

#[test]
fn trace_interval_excludes_acne_band() {
    let iv = trace_interval();
    assert_eq!(iv.0, HIT_T_MIN);
    assert_eq!(decode(iv.0), 0.001);
    assert_eq!(decode(iv.1), f64::INFINITY);
    assert!(!iv.surrounds(code(0.0005)));
    assert!(iv.surrounds(code(0.002)));
}

#[test]
fn camera_builder_defaults_and_setters() {
    let b = Camera::builder()
        .aspect_ratio(code(1.5))
        .image_width(200)
        .position(v3(1.0, 1.0, 1.0))
        .look_at(v3(0.0, 0.0, -2.0))
        .up(v3(0.0, 2.0, 0.0))
        .sampler(SamplerConfig::Single)
        .max_depth(50);
    assert_eq!(decode(b.aspect_ratio), 1.5);
    assert_eq!(b.image_width, 200);
    assert_eq!(b.position, v3(1.0, 1.0, 1.0));
    assert_eq!(b.look_at, v3(0.0, 0.0, -2.0));
    assert_eq!(b.up, v3(0.0, 2.0, 0.0));
    assert_eq!(b.sampler, SamplerConfig::Single);
    assert_eq!(b.max_depth, 50);
    let d = Camera::builder();
    assert_eq!(decode(d.aspect_ratio), 1.0);
    assert_eq!(d.image_width, 100);
    assert_eq!(d.position, v3(0.0, 0.0, 0.0));
    assert_eq!(d.look_at, v3(0.0, 0.0, -1.0));
    assert_eq!(d.up, v3(0.0, 1.0, 0.0));
}

#[test]
fn degenerate_configurations_fail_validation() {
    assert!(Camera::builder().is_valid());
    assert!(!Camera::builder().image_width(0).is_valid());
    assert!(!Camera::builder().sampler(SamplerConfig::Random { samples_per_pixel: 0 }).is_valid());
    assert!(!Camera::builder().sampler(SamplerConfig::Stratified { nx: 0, ny: 5 }).is_valid());
    assert!(Camera::builder().sampler(SamplerConfig::Stratified { nx: 2, ny: 5 }).is_valid());
    assert!(!Camera::builder()
        .sampler(SamplerConfig::Stratified { nx: usize::MAX, ny: 2 })
        .is_valid());
}
