//! Frequency-domain linear convolution of real-valued signals.
//!
//! The library computes the linear convolution of two finite real signals by
//! zero-padding both into complex buffers of a power-of-two length,
//! transforming them to the frequency domain, multiplying pointwise, and
//! transforming back.  Real and complex samples are carried as the IEEE-754
//! bit patterns of double-precision numbers (`u64`), so that every piece of
//! length bookkeeping, padding, and buffer traversal is verified; the
//! floating-point arithmetic itself is delegated to `rustfft` and
//! `num_complex` behind a small set of trusted wrappers.

use vstd::prelude::*;

pub mod buffer;
pub mod convolver;
pub mod planner;
pub mod spectrum;
pub mod transform;

pub use buffer::{ComplexBits, to_complex_padded};
pub use convolver::fft_convolve;
pub use planner::{next_power_of_2, plan};
pub use spectrum::{extract_normalized, pointwise_multiply};
pub use transform::SpectralTransformer;

verus! {

/// The ways a convolution request can fail.
#[derive(Clone, Copy, Debug, PartialEq, Eq, Structural)]
pub enum ConvolveError {
    /// An input signal was empty, so the output length `len1 + len2 - 1`
    /// is not defined.  Raised before any transform work begins.
    InvalidInput,
    /// A buffer's length did not match the length the plan was made for.
    PlanMismatch,
    /// The underlying spectral transform failed.  The in-process transform
    /// used here reports no failures, so the orchestrator never produces
    /// this variant; it is part of the boundary contract nonetheless.
    TransformFailure,
}

} // verus!
