//! Sampler cardinality and the stratified sub-cell layout.

use rayt_rs::samplers::{
    RandomSampler, Sampler, SamplerConfig, SingleSampler, StratifiedSampler,
};

/// The order-preserving code of an IEEE double.
fn code(x: f64) -> u64 {
    let b = x.to_bits();
    if b >> 63 == 1 {
        !b
    } else {
        b | (1u64 << 63)
    }
}

#[test]
fn single_sampler_counts_one() {
    assert_eq!(SingleSampler {}.nsamples(), 1);
    assert_eq!(SamplerConfig::Single.into_sampler().nsamples(), 1);
}

#[test]
fn random_sampler_counts_as_configured() {
    assert_eq!(RandomSampler { samples_per_pixel: 50 }.nsamples(), 50);
    assert_eq!(
        SamplerConfig::Random { samples_per_pixel: 7 }.into_sampler().nsamples(),
        7
    );
}

#[test]
fn stratified_sampler_counts_grid() {
    assert_eq!(StratifiedSampler { nx: 4, ny: 5 }.nsamples(), 20);
    assert_eq!(
        SamplerConfig::Stratified { nx: 10, ny: 10 }.into_sampler().nsamples(),
        100
    );
}

#[test]
fn single_sample_is_exact_pixel_center() {
    let s = SingleSampler {};
    let v = s.samples(code(3.0), code(2.0));
    assert_eq!(v.len(), 1);
    assert_eq!(v[0], (code(3.0), code(2.0)));
}

#[test]
fn stratified_cells_cover_grid_once_each() {
    let s = StratifiedSampler { nx: 3, ny: 4 };
    let cells = s.cells();
    assert_eq!(cells.len(), 12);
    for i in 0..3usize {
        for j in 0..4usize {
            assert_eq!(cells[i * 4 + j], (i, j));
        }
    }
}

#[test]
fn into_sampler_keeps_parameters() {
    match (SamplerConfig::Stratified { nx: 2, ny: 9 }).into_sampler() {
        Sampler::Stratified(s) => {
            assert_eq!(s.nx, 2);
            assert_eq!(s.ny, 9);
        },
        _ => panic!("wrong sampler variant"),
    }
    match (SamplerConfig::Random { samples_per_pixel: 11 }).into_sampler() {
        Sampler::Random(s) => assert_eq!(s.samples_per_pixel, 11),
        _ => panic!("wrong sampler variant"),
    }
}
