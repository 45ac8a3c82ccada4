//! The orchestrator: plans the lengths, pads both signals, transforms them,
//! multiplies pointwise, transforms back, and extracts the normalized
//! result.

use vstd::prelude::*;

use crate::ConvolveError;
use crate::buffer::to_complex_padded;
use crate::planner::{MAX_PLANNED_LEN, plan};
use crate::spectrum::{extract_normalized, pointwise_multiply};
use crate::transform::SpectralTransformer;

verus! {

/// Linear convolution of two real signals, each given as the IEEE-754 bit
/// patterns of its samples.  On success the result has exactly
/// `len1 + len2 - 1` samples; the call fails, with `InvalidInput` and
/// before any transform work, exactly when either signal is empty.
pub fn fft_convolve(signal1: &Vec<u64>, signal2: &Vec<u64>) -> (r: Result<Vec<u64>, ConvolveError>)
    requires
        signal1@.len() + signal2@.len() <= MAX_PLANNED_LEN,
    ensures
        (r is Ok) <==> (1 <= signal1@.len() && 1 <= signal2@.len()),
        r is Ok ==> r->Ok_0@.len() == signal1@.len() + signal2@.len() - 1,
        r is Err ==> r->Err_0 == ConvolveError::InvalidInput,
{
    let (output_len, fft_len) = match plan(signal1.len(), signal2.len()) {
        Ok(lens) => lens,
        Err(e) => {
            return Err(e);
        },
    };
    let mut buf1 = match to_complex_padded(signal1, fft_len) {
        Ok(b) => b,
        Err(e) => {
            return Err(e);
        },
    };
    let mut buf2 = match to_complex_padded(signal2, fft_len) {
        Ok(b) => b,
        Err(e) => {
            return Err(e);
        },
    };
    let transformer = SpectralTransformer::new(fft_len);
    match transformer.forward(&mut buf1) {
        Ok(()) => {},
        Err(e) => {
            return Err(e);
        },
    }
    match transformer.forward(&mut buf2) {
        Ok(()) => {},
        Err(e) => {
            return Err(e);
        },
    }
    pointwise_multiply(&mut buf1, &buf2);
    match transformer.inverse(&mut buf1) {
        Ok(()) => {},
        Err(e) => {
            return Err(e);
        },
    }
    Ok(extract_normalized(&buf1, output_len, fft_len))
}

} // verus!
