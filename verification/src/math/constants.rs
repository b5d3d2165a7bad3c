//! Codes of a few distinguished real values.
//!
//! Each constant is the [`Scalar`] code (see [`crate::math::types`]) of the
//! double named in its comment, written out as the 64-bit literal it works
//! out to.

use vstd::prelude::*;

use crate::math::types::Scalar;

verus! {

/// Code of `+infinity`, the largest non-NaN scalar.
pub const INFINITY: Scalar = 0xFFF0_0000_0000_0000;

/// Code of `-infinity`, the smallest non-NaN scalar.
pub const NEG_INFINITY: Scalar = 0x000F_FFFF_FFFF_FFFF;

/// Code of `+0.0`.
pub const ZERO: Scalar = 0x8000_0000_0000_0000;

/// Code of `1.0`.
pub const ONE: Scalar = 0xBFF0_0000_0000_0000;

/// Code of `-1.0`.
pub const NEG_ONE: Scalar = 0x400F_FFFF_FFFF_FFFF;

/// Code of `1.0e-8`, the epsilon below which a vector counts as near zero.
pub const EPSILON: Scalar = 0xBE45_798E_E230_8C3A;

/// Code of `-1.0e-8`.
pub const NEG_EPSILON: Scalar = 0x41BA_8671_1DCF_73C5;

} // verus!
