//! In-place forward and inverse spectral transforms over complex buffers of
//! one fixed length.

use vstd::prelude::*;

use num_complex::Complex64;
use num_traits::{FromBytes, ToBytes};
use rustfft::FftPlanner;

use crate::ConvolveError;
use crate::buffer::ComplexBits;

verus! {

/// Relies on rustfft: `FftPlanner::plan_fft_forward(buffer.len())` followed
/// by `Fft::process` computes an unnormalized forward FFT in place and
/// leaves the buffer with its length unchanged.  `process` panics only when
/// the buffer's length differs from the plan's, which this body rules out by
/// planning for exactly `buffer.len()`; a length of zero is excluded because
/// `process` takes the buffer's length modulo the plan's.  Nothing is
/// assumed about the values left behind: the algorithm rustfft picks, and
/// with it the rounding, may vary between machines.
#[verifier::external_body]
fn fft_forward_in_place(buffer: &mut Vec<ComplexBits>)
    requires
        1 <= old(buffer)@.len(),
    ensures
        final(buffer)@.len() == old(buffer)@.len(),
{
    let mut data: Vec<Complex64> = buffer.iter().map(|c| Complex64::new(
        FromBytes::from_le_bytes(&c.re.to_le_bytes()),
        FromBytes::from_le_bytes(&c.im.to_le_bytes()),
    )).collect();
    let mut planner = FftPlanner::new();
    let fft = planner.plan_fft_forward(data.len());
    fft.process(&mut data);
    *buffer = data.iter().map(|c| ComplexBits {
        re: u64::from_le_bytes(ToBytes::to_le_bytes(&c.re)),
        im: u64::from_le_bytes(ToBytes::to_le_bytes(&c.im)),
    }).collect();
}

/// Relies on rustfft: `FftPlanner::plan_fft_inverse(buffer.len())` followed
/// by `Fft::process` computes an unnormalized inverse FFT in place — the
/// values left behind are `buffer.len()` times the true inverse — and
/// leaves the buffer with its length unchanged.  The same panic and
/// machine-variability notes as for the forward wrapper apply.
#[verifier::external_body]
fn fft_inverse_in_place(buffer: &mut Vec<ComplexBits>)
    requires
        1 <= old(buffer)@.len(),
    ensures
        final(buffer)@.len() == old(buffer)@.len(),
{
    let mut data: Vec<Complex64> = buffer.iter().map(|c| Complex64::new(
        FromBytes::from_le_bytes(&c.re.to_le_bytes()),
        FromBytes::from_le_bytes(&c.im.to_le_bytes()),
    )).collect();
    let mut planner = FftPlanner::new();
    let fft = planner.plan_fft_inverse(data.len());
    fft.process(&mut data);
    *buffer = data.iter().map(|c| ComplexBits {
        re: u64::from_le_bytes(ToBytes::to_le_bytes(&c.re)),
        im: u64::from_le_bytes(ToBytes::to_le_bytes(&c.im)),
    }).collect();
}

/// A transform plan for one fixed buffer length: both directions require a
/// buffer of exactly that length and fail with `PlanMismatch` otherwise.
pub struct SpectralTransformer {
    /// The buffer length the plan was made for.
    pub len: usize,
}

impl SpectralTransformer {
    /// A plan for buffers of length `len`.  Planned lengths are at least
    /// one: every legal plan covers at least one output sample.
    pub fn new(len: usize) -> (t: SpectralTransformer)
        requires
            1 <= len,
        ensures
            t.len == len,
    {
        SpectralTransformer { len }
    }

    /// Forward transform, in place and unnormalized.  A buffer whose length
    /// is not the planned one is refused with `PlanMismatch` and left
    /// unchanged.
    pub fn forward(&self, buffer: &mut Vec<ComplexBits>) -> (r: Result<(), ConvolveError>)
        requires
            1 <= self.len,
        ensures
            (r is Ok) <==> old(buffer)@.len() == self.len,
            final(buffer)@.len() == old(buffer)@.len(),
            r is Err ==> r->Err_0 == ConvolveError::PlanMismatch,
            r is Err ==> final(buffer)@ == old(buffer)@,
    {
        if buffer.len() != self.len {
            return Err(ConvolveError::PlanMismatch);
        }
        fft_forward_in_place(buffer);
        Ok(())
    }

    /// Inverse transform, in place and unnormalized: it leaves each bin at
    /// `len` times its true inverse value, so callers divide by `len` once,
    /// after this pass.  A buffer whose length is not the planned one is
    /// refused with `PlanMismatch` and left unchanged.
    pub fn inverse(&self, buffer: &mut Vec<ComplexBits>) -> (r: Result<(), ConvolveError>)
        requires
            1 <= self.len,
        ensures
            (r is Ok) <==> old(buffer)@.len() == self.len,
            final(buffer)@.len() == old(buffer)@.len(),
            r is Err ==> r->Err_0 == ConvolveError::PlanMismatch,
            r is Err ==> final(buffer)@ == old(buffer)@,
    {
        if buffer.len() != self.len {
            return Err(ConvolveError::PlanMismatch);
        }
        fft_inverse_in_place(buffer);
        Ok(())
    }
}

} // verus!
