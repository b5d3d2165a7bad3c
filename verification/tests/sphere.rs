//! Ray/sphere intersection: root selection, the implicit equation, and the
//! front-face invariant.

use rayt_rs::hittable::FrontFace;
use rayt_rs::materials::MaterialId;
use rayt_rs::math::types::{Interval, UnitVec3, Vec3};
use rayt_rs::math::primitives::sphere::{RootCandidate, Sphere, SphereRoots};
use rayt_rs::math::primitives::PrimitiveDeExtension;

/// The order-preserving code of an IEEE double.
fn code(x: f64) -> u64 {
    let b = x.to_bits();
    if b >> 63 == 1 {
        !b
    } else {
        b | (1u64 << 63)
    }
}

/// Inverse of `code`.
fn decode(c: u64) -> f64 {
    if c >> 63 == 1 {
        f64::from_bits(c & !(1u64 << 63))
    } else {
        f64::from_bits(!c)
    }
}

fn v3(x: f64, y: f64, z: f64) -> Vec3 {
    Vec3::new(code(x), code(y), code(z))
}

fn dot(a: [f64; 3], b: [f64; 3]) -> f64 {
    a[0] * b[0] + a[1] * b[1] + a[2] * b[2]
}

/// The analytic half-b quadratic solve, mirroring what the renderer
/// computes with doubles before handing the roots to the library.
fn solve(center: [f64; 3], radius: f64, origin: [f64; 3], dir: [f64; 3]) -> SphereRoots {
    let oc = [center[0] - origin[0], center[1] - origin[1], center[2] - origin[2]];
    let a = dot(dir, dir);
    let h = dot(dir, oc);
    let c = dot(oc, oc) - radius * radius;
    let disc = h * h - a * c;
    if disc < 0.0 {
        return SphereRoots::Miss;
    }
    let sq = disc.sqrt();
    let cand = |t: f64| {
        let p = [origin[0] + t * dir[0], origin[1] + t * dir[1], origin[2] + t * dir[2]];
        let n = [
            (p[0] - center[0]) / radius,
            (p[1] - center[1]) / radius,
            (p[2] - center[2]) / radius,
        ];
        RootCandidate {
            t: code(t),
            hit_point: v3(p[0], p[1], p[2]),
            outward_normal: UnitVec3::new_unchecked(v3(n[0], n[1], n[2])),
            dir_dot_outward: code(dot(dir, n)),
        }
    };
    SphereRoots::Roots(cand((h - sq) / a), cand((h + sq) / a))
}

const CENTER: [f64; 3] = [0.0, 0.0, -1.0];
const ORIGIN: [f64; 3] = [0.0, 0.0, 0.0];

#[test]
fn negative_discriminant_reports_miss() {
    let s = Sphere::new(v3(0.0, 0.0, -1.0), code(0.5), MaterialId(0));
    let roots = solve(CENTER, 0.5, ORIGIN, [0.0, 1.0, 0.0]);
    assert!(matches!(roots, SphereRoots::Miss));
    assert!(s.hit(Interval::new(code(0.001), code(f64::INFINITY)), &roots).is_none());
}

#[test]
fn smaller_root_in_range_wins() {
    let s = Sphere::new(v3(0.0, 0.0, -1.0), code(0.5), MaterialId(3));
    let roots = solve(CENTER, 0.5, ORIGIN, [0.0, 0.0, -1.0]);
    let rec = s.hit(Interval::new(code(0.001), code(f64::INFINITY)), &roots).unwrap();
    assert_eq!(decode(rec.t), 0.5);
    assert_eq!(rec.material_id, MaterialId(3));
    assert!(matches!(rec.front_face, FrontFace::Outside));
    assert_eq!(decode(rec.normal.0.x), 0.0);
    assert_eq!(decode(rec.normal.0.y), 0.0);
    assert_eq!(decode(rec.normal.0.z), 1.0);
}

#[test]
fn larger_root_taken_when_smaller_excluded() {
    let s = Sphere::new(v3(0.0, 0.0, -1.0), code(0.5), MaterialId(0));
    let roots = solve(CENTER, 0.5, ORIGIN, [0.0, 0.0, -1.0]);
    let rec = s.hit(Interval::new(code(0.6), code(f64::INFINITY)), &roots).unwrap();
    assert_eq!(decode(rec.t), 1.5);
    // The ray strikes the far side from inside: the outward normal is
    // negated so the stored normal opposes the ray.
    assert!(matches!(rec.front_face, FrontFace::Inside));
    assert_eq!(decode(rec.normal.0.z), 1.0);
}

#[test]
fn no_root_in_range_reports_none() {
    let s = Sphere::new(v3(0.0, 0.0, -1.0), code(0.5), MaterialId(0));
    let roots = solve(CENTER, 0.5, ORIGIN, [0.0, 0.0, -1.0]);
    assert!(s.hit(Interval::new(code(0.001), code(0.4)), &roots).is_none());
    assert!(s.hit(Interval::new(code(1.6), code(f64::INFINITY)), &roots).is_none());
    // Strict bounds: an interval whose bound equals a root excludes it.
    assert!(s.hit(Interval::new(code(0.5), code(1.5)), &roots).is_none());
}

#[test]
fn returned_t_satisfies_implicit_equation() {
    let s = Sphere::new(v3(0.3, -0.2, -2.0), code(0.7), MaterialId(0));
    let dir = [0.1, -0.05, -1.0];
    let roots = solve([0.3, -0.2, -2.0], 0.7, ORIGIN, dir);
    let rec = s.hit(Interval::new(code(0.001), code(f64::INFINITY)), &roots).unwrap();
    let t = decode(rec.t);
    let p = [ORIGIN[0] + t * dir[0], ORIGIN[1] + t * dir[1], ORIGIN[2] + t * dir[2]];
    let d = [p[0] - 0.3, p[1] + 0.2, p[2] + 2.0];
    let lhs = dot(d, d) - 0.7 * 0.7;
    assert!(lhs.abs() < 1.0e-12);
    // The returned hit point is the point at the returned t.
    assert_eq!(decode(rec.hit_point.x), p[0]);
    assert_eq!(decode(rec.hit_point.y), p[1]);
    assert_eq!(decode(rec.hit_point.z), p[2]);
}

#[test]
fn front_face_normal_opposes_ray() {
    // Both an outside hit and an inside hit: the stored normal's dot
    // product with the ray direction is never positive.
    let dirs = [[0.0, 0.0, -1.0], [0.2, 0.1, -1.0], [-0.3, 0.4, -1.0]];
    for dir in dirs {
        let s = Sphere::new(v3(0.0, 0.0, -1.0), code(0.5), MaterialId(0));
        let roots = solve(CENTER, 0.5, ORIGIN, dir);
        if let SphereRoots::Roots(_, _) = roots {
            for iv in [
                Interval::new(code(0.001), code(f64::INFINITY)),
                Interval::new(code(1.0), code(f64::INFINITY)),
            ] {
                if let Some(rec) = s.hit(iv, &roots) {
                    let n = [
                        decode(rec.normal.0.x),
                        decode(rec.normal.0.y),
                        decode(rec.normal.0.z),
                    ];
                    assert!(dot(dir, n) <= 0.0);
                }
            }
        }
    }
}

#[test]
fn material_reference_rewrite() {
    let s = Sphere::new(v3(1.0, 2.0, 3.0), code(0.25), MaterialId(9));
    assert_eq!(s.material_id(), MaterialId(9));
    let s2 = s.with_material_id(MaterialId(4));
    assert_eq!(s2.material_id(), MaterialId(4));
    assert_eq!(s2.center(), s.center());
    assert_eq!(s2.radius(), s.radius());
}
