//! Sub-pixel samplers: how many samples a pixel gets, and where they lie.
//!
//! The sample *counts* and the stratified sub-cell layout are decided and
//! verified here. Random jitter within a pixel or sub-cell is
//! floating-point work done by the caller holding the doubles and a random
//! source.

use vstd::arithmetic::div_mod::lemma_fundamental_div_mod_converse;
use vstd::prelude::*;

use crate::math::types::Scalar;

verus! {

/// The declarative sampler selection a camera is configured with.
#[derive(Clone, Copy, PartialEq, Eq, Structural, Debug)]
pub enum SamplerConfig {
    /// One sample per pixel, at the exact pixel center.
    Single,
    /// Independent uniformly jittered samples per pixel.
    Random { samples_per_pixel: usize },
    /// One jittered sample per sub-cell of an `nx` by `ny` grid.
    Stratified { nx: usize, ny: usize },
}

impl SamplerConfig {
    /// The number of samples per pixel this selection produces.
    pub open spec fn spec_nsamples(self) -> int {
        match self {
            SamplerConfig::Single => 1,
            SamplerConfig::Random { samples_per_pixel } => samples_per_pixel as int,
            SamplerConfig::Stratified { nx, ny } => nx as int * ny as int,
        }
    }

    /// The stratified sub-cell count must fit the machine word.
    pub open spec fn wf(self) -> bool {
        self.spec_nsamples() <= usize::MAX
    }

    /// Whether the selection is a valid configuration: it produces at least
    /// one sample per pixel, and the count fits the machine word. A zero
    /// sample count must be rejected at configuration validation, never
    /// deep inside the render loop.
    pub open spec fn spec_valid(self) -> bool {
        1 <= self.spec_nsamples() <= usize::MAX
    }

    /// Returns `true` if the selection is a valid configuration.
    pub fn is_valid(&self) -> (b: bool)
        ensures
            b == self.spec_valid(),
    {
        match self {
            SamplerConfig::Single => true,
            SamplerConfig::Random { samples_per_pixel } => *samples_per_pixel >= 1,
            SamplerConfig::Stratified { nx, ny } => match nx.checked_mul(*ny) {
                Some(count) => count >= 1,
                None => false,
            },
        }
    }

    /// Builds the sampler this selection describes.
    pub fn into_sampler(self) -> (s: Sampler)
        ensures
            s == match self {
                SamplerConfig::Single => Sampler::Single(SingleSampler {}),
                SamplerConfig::Random { samples_per_pixel } => Sampler::Random(
                    RandomSampler { samples_per_pixel },
                ),
                SamplerConfig::Stratified { nx, ny } => Sampler::Stratified(
                    StratifiedSampler { nx, ny },
                ),
            },
    {
        match self {
            SamplerConfig::Single => Sampler::Single(SingleSampler {}),
            SamplerConfig::Random { samples_per_pixel } => Sampler::Random(
                RandomSampler { samples_per_pixel },
            ),
            SamplerConfig::Stratified { nx, ny } => Sampler::Stratified(
                StratifiedSampler { nx, ny },
            ),
        }
    }
}

/// A sampler: one of the closed set of sampling strategies.
#[derive(Clone, Copy, PartialEq, Eq, Structural, Debug)]
pub enum Sampler {
    Single(SingleSampler),
    Random(RandomSampler),
    Stratified(StratifiedSampler),
}

impl Sampler {
    /// The number of samples per pixel this sampler produces.
    pub open spec fn spec_nsamples(self) -> int {
        match self {
            Sampler::Single(s) => 1,
            Sampler::Random(s) => s.samples_per_pixel as int,
            Sampler::Stratified(s) => s.nx as int * s.ny as int,
        }
    }

    /// The sample count must fit the machine word.
    pub open spec fn wf(self) -> bool {
        self.spec_nsamples() <= usize::MAX
    }

    /// Returns the number of samples per pixel.
    pub fn nsamples(&self) -> (n: usize)
        requires
            self.wf(),
        ensures
            n == self.spec_nsamples(),
    {
        match self {
            Sampler::Single(s) => s.nsamples(),
            Sampler::Random(s) => s.nsamples(),
            Sampler::Stratified(s) => s.nsamples(),
        }
    }
}

/// Single sample at the pixel center.
#[derive(Clone, Copy, PartialEq, Eq, Structural, Debug)]
pub struct SingleSampler;

impl SingleSampler {
    /// Exactly one sample, at the exact pixel-center coordinate. The one
    /// deterministic sampler.
    pub fn samples(&self, x: Scalar, y: Scalar) -> (v: Vec<(Scalar, Scalar)>)
        ensures
            v@.len() == 1,
            v@[0] == ((x, y)),
    {
        let mut v: Vec<(Scalar, Scalar)> = Vec::new();
        v.push((x, y));
        v
    }

    /// Returns the sample count: one.
    pub fn nsamples(&self) -> (n: usize)
        ensures
            n == 1,
    {
        1
    }
}

/// Randomly samples within a pixel's bounding box.
#[derive(Clone, Copy, PartialEq, Eq, Structural, Debug)]
pub struct RandomSampler {
    pub samples_per_pixel: usize,
}

impl RandomSampler {
    /// Returns the sample count: as configured.
    pub fn nsamples(&self) -> (n: usize)
        ensures
            n == self.samples_per_pixel,
    {
        self.samples_per_pixel
    }
}

/// Stratified sampler.
///
/// Divides a pixel's unit square into `nx` by `ny` sub-cells and samples
/// once in each sub-cell, lowering variance versus pure random sampling at
/// equal sample count.
#[derive(Clone, Copy, PartialEq, Eq, Structural, Debug)]
pub struct StratifiedSampler {
    pub nx: usize,
    pub ny: usize,
}

impl StratifiedSampler {
    /// Returns the sample count: one per sub-cell.
    pub fn nsamples(&self) -> (n: usize)
        requires
            self.nx * self.ny <= usize::MAX,
        ensures
            n == self.nx * self.ny,
    {
        self.nx.checked_mul(self.ny).unwrap()
    }

    /// The sub-cell grid in the order the samples are drawn: every cell
    /// `(i, j)` exactly once, columns in the outer position. One jittered
    /// sample per returned cell covers the pixel with exactly
    /// `nx * ny` samples.
    pub fn cells(&self) -> (v: Vec<(usize, usize)>)
        requires
            self.nx * self.ny <= usize::MAX,
        ensures
            v@.len() == self.nx * self.ny,
            forall|i: int, j: int|
                0 <= i < self.nx && 0 <= j < self.ny ==> #[trigger] v@[i * self.ny + j] == ((
                    i as usize,
                    j as usize,
                )),
    {
        let ghost nx = self.nx as int;
        let ghost ny = self.ny as int;
        let mut v: Vec<(usize, usize)> = Vec::new();
        let mut i: usize = 0;
        while i < self.nx
            invariant
                nx == self.nx,
                ny == self.ny,
                nx * ny <= usize::MAX,
                i <= nx,
                v@.len() == i * ny,
                forall|k: int|
                    0 <= k < v@.len() ==> #[trigger] v@[k] == (((k / ny) as usize, (k % ny) as usize)),
            decreases nx - i,
        {
            let mut j: usize = 0;
            while j < self.ny
                invariant
                    nx == self.nx,
                    ny == self.ny,
                    nx * ny <= usize::MAX,
                    i < nx,
                    j <= ny,
                    v@.len() == i * ny + j,
                    forall|k: int|
                        0 <= k < v@.len() ==> #[trigger] v@[k] == ((
                            (k / ny) as usize,
                            (k % ny) as usize,
                        )),
                decreases ny - j,
            {
                proof {
                    assert(i * ny + j < nx * ny) by (nonlinear_arith)
                        requires
                            0 <= i < nx,
                            0 <= j < ny,
                    ;
                    lemma_fundamental_div_mod_converse(i * ny + j, ny, i as int, j as int);
                }
                v.push((i, j));
                j = j + 1;
            }
            proof {
                assert((i + 1) * ny == i * ny + ny) by (nonlinear_arith);
            }
            i = i + 1;
        }
        proof {
            assert forall|i: int, j: int| 0 <= i < nx && 0 <= j < ny implies #[trigger] v@[i * ny
                + j] == ((i as usize, j as usize)) by {
                assert(0 <= i * ny + j < nx * ny) by (nonlinear_arith)
                    requires
                        0 <= i < nx,
                        0 <= j < ny,
                ;
                lemma_fundamental_div_mod_converse(i * ny + j, ny, i, j);
            }
        }
        v
    }
}

} // verus!
