//! Camera configuration, the per-bounce light-transport decision, and the
//! output pixel grid.
//!
//! The camera's viewport geometry (orthonormal basis, pixel deltas, the
//! location of pixel (0,0)) is derived with floating-point vector algebra by
//! the caller holding the doubles and stored here as scalar codes; the
//! decisions the renderer takes per bounce, and the layout of the output
//! grid, are decided and verified here.

use vstd::arithmetic::div_mod::lemma_fundamental_div_mod_converse;
use vstd::prelude::*;

use crate::color::Color;
use crate::hittable::HitRecord;
use crate::materials::{Material, MaterialId, MaterialMap};
use crate::math::constants::INFINITY;
use crate::math::types::{Interval, Point3, Scalar, Vec3, UnitVec3};
use crate::samplers::{Sampler, SamplerConfig};

verus! {

/// Code of `0.001`: the lower bound of the interval rays are traced
/// against. Excluding parameters near zero avoids immediate reintersection
/// with the surface a scattered ray was just launched from.
pub const HIT_T_MIN: Scalar = 0xBF50_624D_D2F1_A9FC;

/// The interval every ray is traced against: `(0.001, +infinity)`, both
/// bounds exclusive.
pub fn trace_interval() -> (i: Interval)
    ensures
        i == (Interval(HIT_T_MIN, INFINITY)),
{
    Interval(HIT_T_MIN, INFINITY)
}

/// What the renderer must do next for one ray, given the bounce budget and
/// the closest hit.
#[derive(Clone, Copy, PartialEq, Eq, Structural, Debug)]
pub enum TraceStep {
    /// The bounce budget is exhausted: the path terminates and contributes
    /// black; no material is consulted.
    Exhausted,
    /// The ray left the scene: contribute the background gradient for its
    /// direction.
    Background,
    /// A surface was struck whose material does not scatter: contribute the
    /// color it emits.
    Emit(MaterialId),
    /// A surface was struck whose material scatters: trace the scattered
    /// ray with one less bounce and attenuate its color by the albedo.
    Scatter(MaterialId),
}

/// The decision for one bounce: exhaustion first, then miss, then the
/// struck material's behavior. `None` when the hit references a material
/// the registry never issued: scene construction went wrong, and the
/// renderer must abort rather than substitute a default.
pub open spec fn spec_trace_step(ttl: u32, hit: Option<HitRecord>, materials: Seq<Material>) -> Option<
    TraceStep,
> {
    if ttl == 0 {
        Some(TraceStep::Exhausted)
    } else {
        match hit {
            None => Some(TraceStep::Background),
            Some(h) => if h.material_id.0 < materials.len() {
                if materials[h.material_id.0 as int].spec_scatters() {
                    Some(TraceStep::Scatter(h.material_id))
                } else {
                    Some(TraceStep::Emit(h.material_id))
                }
            } else {
                None
            },
        }
    }
}

/// Decides what the renderer does next for one ray: terminate on an
/// exhausted budget, shade the background on a miss, and otherwise follow
/// the struck material. Returns `None` exactly when the hit references an
/// unknown material, which the caller must treat as fatal.
pub fn trace_step(ttl: u32, hit: Option<HitRecord>, materials: &MaterialMap) -> (s: Option<TraceStep>)
    ensures
        s == spec_trace_step(ttl, hit, materials@),
{
    if ttl == 0 {
        Some(TraceStep::Exhausted)
    } else {
        match hit {
            None => Some(TraceStep::Background),
            Some(h) => match materials.get(h.material_id) {
                None => None,
                Some(m) => if m.scatters() {
                    Some(TraceStep::Scatter(h.material_id))
                } else {
                    Some(TraceStep::Emit(h.material_id))
                },
            },
        }
    }
}

/// Depth exhaustion: with no bounce budget the path contributes black and
/// no material is ever consulted, whatever was or was not hit.
pub proof fn lemma_depth_exhaustion(hit: Option<HitRecord>, materials: Seq<Material>)
    ensures
        spec_trace_step(0, hit, materials) == Some(TraceStep::Exhausted),
{
}

/// When every hit the scene can produce references a material the registry
/// issued, the per-bounce decision always exists: rendering never aborts.
pub proof fn lemma_trace_step_succeeds(ttl: u32, hit: Option<HitRecord>, materials: Seq<Material>)
    requires
        hit is Some ==> hit->Some_0.material_id.0 < materials.len(),
    ensures
        spec_trace_step(ttl, hit, materials) is Some,
{
}

/// Idempotence of the core: the closest-hit scan and the per-bounce
/// decision are functions of the immutable scene data and the ray alone, so
/// two evaluations of the same ray against the same world agree exactly.
/// With the single sampler no randomness enters anywhere, and whole renders
/// agree pixel for pixel.
pub proof fn lemma_trace_idempotent(
    objs: Seq<crate::math::primitives::sphere::Sphere>,
    ray_t: Interval,
    roots: Seq<crate::math::primitives::sphere::SphereRoots>,
    n: int,
    ttl: u32,
    materials: Seq<Material>,
    s1: Option<TraceStep>,
    s2: Option<TraceStep>,
)
    requires
        s1 == spec_trace_step(ttl, crate::hittable::spec_scan(objs, ray_t, roots, n), materials),
        s2 == spec_trace_step(ttl, crate::hittable::spec_scan(objs, ray_t, roots, n), materials),
    ensures
        s1 == s2,
{
}

/// A row-major grid of linear-space colors, exactly one per pixel: the
/// render output handed to the image-serialization collaborator.
#[derive(Clone, Debug, PartialEq)]
pub struct PixelGrid {
    /// The width of the image, in pixels.
    pub width: usize,
    /// The height of the image, in pixels.
    pub height: usize,
    /// The pixels, row by row: pixel `(i, j)` sits at `j * width + i`.
    pub pixels: Vec<Color>,
}

impl PixelGrid {
    /// The grid holds exactly one color per pixel.
    pub open spec fn wf(self) -> bool {
        self.pixels@.len() == self.width * self.height
    }

    /// Assembles the grid from its rows, each row already holding exactly
    /// one color per column. Rows are produced independently (each parallel
    /// worker owns its own), and each lands in its own disjoint slice of
    /// the grid.
    pub fn from_rows(width: usize, rows: &Vec<Vec<Color>>) -> (g: PixelGrid)
        requires
            forall|j: int| 0 <= j < rows@.len() ==> (#[trigger] rows@[j])@.len() == width,
            rows@.len() * width <= usize::MAX,
        ensures
            g.wf(),
            g.width == width,
            g.height == rows@.len(),
            forall|j: int, i: int|
                0 <= j < rows@.len() && 0 <= i < width ==> #[trigger] g.pixels@[j * width + i]
                    == rows@[j]@[i],
    {
        let ghost w = width as int;
        let ghost h = rows@.len() as int;
        let mut pixels: Vec<Color> = Vec::new();
        let mut j: usize = 0;
        while j < rows.len()
            invariant
                w == width,
                h == rows@.len(),
                h * w <= usize::MAX,
                forall|l: int| 0 <= l < h ==> (#[trigger] rows@[l])@.len() == w,
                j <= h,
                pixels@.len() == j * w,
                forall|k: int|
                    0 <= k < pixels@.len() ==> #[trigger] pixels@[k] == rows@[k / w]@[k % w],
            decreases h - j,
        {
            let row = &rows[j];
            let mut i: usize = 0;
            while i < row.len()
                invariant
                    w == width,
                    h == rows@.len(),
                    h * w <= usize::MAX,
                    forall|l: int| 0 <= l < h ==> (#[trigger] rows@[l])@.len() == w,
                    j < h,
                    row == &rows[j as int],
                    i <= w,
                    pixels@.len() == j * w + i,
                    forall|k: int|
                        0 <= k < pixels@.len() ==> #[trigger] pixels@[k] == rows@[k / w]@[k % w],
                decreases w - i,
            {
                proof {
                    assert(j * w + i < h * w) by (nonlinear_arith)
                        requires
                            0 <= j < h,
                            0 <= i < w,
                    ;
                    lemma_fundamental_div_mod_converse(j * w + i, w, j as int, i as int);
                }
                pixels.push(row[i]);
                i = i + 1;
            }
            proof {
                assert((j + 1) * w == j * w + w) by (nonlinear_arith);
            }
            j = j + 1;
        }
        proof {
            assert forall|a: int, b: int| 0 <= a < h && 0 <= b < w implies #[trigger] pixels@[a * w
                + b] == rows@[a]@[b] by {
                assert(0 <= a * w + b < h * w) by (nonlinear_arith)
                    requires
                        0 <= a < h,
                        0 <= b < w,
                ;
                lemma_fundamental_div_mod_converse(a * w + b, w, a, b);
            }
            assert(h * w == w * h) by (nonlinear_arith);
        }
        PixelGrid { width, height: rows.len(), pixels }
    }

    /// The color of pixel `(i, j)`: column `i` of row `j`.
    pub fn get(&self, i: usize, j: usize) -> (c: Color)
        requires
            self.wf(),
            i < self.width,
            j < self.height,
        ensures
            c == self.pixels@[j * self.width + i],
    {
        // The vector's length is a machine word, which bounds the index
        // computed below.
        let _len: usize = self.pixels.len();
        proof {
            assert(j * self.width + i < self.width * self.height) by (nonlinear_arith)
                requires
                    i < self.width,
                    j < self.height,
            ;
        }
        self.pixels[j * self.width + i]
    }
}

/// Owns the viewport geometry and rendering parameters, immutable once
/// built. The vector-valued fields hold scalar codes of the doubles the
/// builder derived.
pub struct Camera {
    /// The sampler driving sub-pixel sampling.
    pub sampler: Sampler,
    /// The width of the output image, in pixels.
    pub image_width: usize,
    /// The height of the output image, in pixels; at least 1.
    pub image_height: usize,
    /// The eye position.
    pub position: Point3,
    /// The world-space center of the pixel at grid index (0, 0).
    pub pixel00_loc: Point3,
    /// The per-pixel delta along the image's horizontal axis.
    pub pixel_delta_u: Vec3,
    /// The per-pixel delta along the image's vertical axis.
    pub pixel_delta_v: Vec3,
    /// The forward basis vector.
    pub forward: UnitVec3,
    /// The right basis vector.
    pub right: UnitVec3,
    /// The up basis vector.
    pub up: UnitVec3,
    /// The maximum bounce depth of a light path.
    pub max_depth: u32,
}

impl Camera {
    /// Starts a builder with the default declarative parameters.
    pub fn builder() -> (b: CameraBuilder)
        ensures
            b == CameraBuilder::spec_default(),
    {
        CameraBuilder::default()
    }
}

/// Declarative camera parameters, set fluently and turned into a [`Camera`]
/// by the floating-point viewport derivation on the caller's side of the
/// boundary.
#[derive(Clone, Copy, PartialEq, Eq, Structural, Debug)]
pub struct CameraBuilder {
    /// The sampler selection.
    pub sampler: SamplerConfig,
    /// The aspect ratio of the image, as a scalar code.
    pub aspect_ratio: Scalar,
    /// The width of the image, in pixels.
    pub image_width: usize,
    /// The eye position.
    pub position: Point3,
    /// The point the camera looks at.
    pub look_at: Vec3,
    /// The up hint the basis is derived from.
    pub up: Vec3,
    /// The maximum bounce depth.
    pub max_depth: u32,
}

impl CameraBuilder {
    /// The default parameters: a single-sample square image of width 100,
    /// the eye at the origin looking along negative z with y up, and a
    /// bounce budget of 10.
    pub open spec fn spec_default() -> CameraBuilder {
        CameraBuilder {
            sampler: SamplerConfig::Single,
            aspect_ratio: crate::math::constants::ONE,
            image_width: 100,
            position: Vec3 {
                x: crate::math::constants::ZERO,
                y: crate::math::constants::ZERO,
                z: crate::math::constants::ZERO,
            },
            look_at: Vec3 {
                x: crate::math::constants::ZERO,
                y: crate::math::constants::ZERO,
                z: crate::math::constants::NEG_ONE,
            },
            up: Vec3 {
                x: crate::math::constants::ZERO,
                y: crate::math::constants::ONE,
                z: crate::math::constants::ZERO,
            },
            max_depth: 10,
        }
    }

    /// Replaces the sampler selection.
    pub fn sampler(self, sampler: SamplerConfig) -> (r: CameraBuilder)
        ensures
            r == (CameraBuilder { sampler, ..self }),
    {
        CameraBuilder { sampler, ..self }
    }

    /// Replaces the aspect ratio.
    pub fn aspect_ratio(self, aspect: Scalar) -> (r: CameraBuilder)
        ensures
            r == (CameraBuilder { aspect_ratio: aspect, ..self }),
    {
        CameraBuilder { aspect_ratio: aspect, ..self }
    }

    /// Replaces the image width.
    pub fn image_width(self, width: usize) -> (r: CameraBuilder)
        ensures
            r == (CameraBuilder { image_width: width, ..self }),
    {
        CameraBuilder { image_width: width, ..self }
    }

    /// Replaces the eye position.
    pub fn position(self, pos: Point3) -> (r: CameraBuilder)
        ensures
            r == (CameraBuilder { position: pos, ..self }),
    {
        CameraBuilder { position: pos, ..self }
    }

    /// Replaces the look-at target.
    pub fn look_at(self, look_at: Vec3) -> (r: CameraBuilder)
        ensures
            r == (CameraBuilder { look_at, ..self }),
    {
        CameraBuilder { look_at, ..self }
    }

    /// Replaces the up hint.
    pub fn up(self, vup: Vec3) -> (r: CameraBuilder)
        ensures
            r == (CameraBuilder { up: vup, ..self }),
    {
        CameraBuilder { up: vup, ..self }
    }

    /// Replaces the maximum bounce depth.
    pub fn max_depth(self, depth: u32) -> (r: CameraBuilder)
        ensures
            r == (CameraBuilder { max_depth: depth, ..self }),
    {
        CameraBuilder { max_depth: depth, ..self }
    }

    /// Whether the parameters describe a camera at all: a zero image width
    /// gives a degenerate viewport and a zero sample count a division by
    /// zero, and both must be rejected at configuration validation rather
    /// than corrupt the render.
    pub open spec fn spec_valid(self) -> bool {
        self.image_width >= 1 && self.sampler.spec_valid()
    }

    /// Returns `true` if the parameters are a valid configuration.
    pub fn is_valid(&self) -> (b: bool)
        ensures
            b == self.spec_valid(),
    {
        self.image_width >= 1 && self.sampler.is_valid()
    }
}

impl Default for CameraBuilder {
    /// Returns the default declarative parameters.
    fn default() -> (b: CameraBuilder)
        ensures
            b == CameraBuilder::spec_default(),
    {
        CameraBuilder {
            sampler: SamplerConfig::Single,
            aspect_ratio: crate::math::constants::ONE,
            image_width: 100,
            position: Vec3 {
                x: crate::math::constants::ZERO,
                y: crate::math::constants::ZERO,
                z: crate::math::constants::ZERO,
            },
            look_at: Vec3 {
                x: crate::math::constants::ZERO,
                y: crate::math::constants::ZERO,
                z: crate::math::constants::NEG_ONE,
            },
            up: Vec3 {
                x: crate::math::constants::ZERO,
                y: crate::math::constants::ONE,
                z: crate::math::constants::ZERO,
            },
            max_depth: 10,
        }
    }
}

} // verus!
