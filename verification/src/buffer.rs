//! Complex working buffers and zero-padding of real signals into them.

use vstd::prelude::*;

use crate::ConvolveError;

verus! {

/// One complex sample, carried as the IEEE-754 bit patterns of its
/// double-precision real and imaginary parts.  The all-zero pattern is the
/// bit pattern of `0.0`, so a zero bin is `ComplexBits { re: 0, im: 0 }`.
#[derive(Clone, Copy, Debug, PartialEq, Eq, Structural)]
pub struct ComplexBits {
    /// Bit pattern of the real part.
    pub re: u64,
    /// Bit pattern of the imaginary part.
    pub im: u64,
}

/// Lifts a real signal into a complex buffer of length `target_len`: bin `i`
/// holds `(signal[i], 0)` for `i < signal.len()`, and `(0, 0)` for every
/// remaining bin.  A target too short to hold the whole signal is refused
/// with `PlanMismatch` rather than silently dropping trailing samples.
pub fn to_complex_padded(signal: &Vec<u64>, target_len: usize) -> (r: Result<
    Vec<ComplexBits>,
    ConvolveError,
>)
    ensures
        (r is Ok) <==> signal@.len() <= target_len,
        r is Ok ==> r->Ok_0@.len() == target_len,
        r is Ok ==> forall|i: int|
            0 <= i < signal@.len() ==> r->Ok_0@[i] == (ComplexBits { re: signal@[i], im: 0 }),
        r is Ok ==> forall|i: int|
            signal@.len() <= i < target_len ==> r->Ok_0@[i] == (ComplexBits { re: 0, im: 0 }),
        r is Err ==> r->Err_0 == ConvolveError::PlanMismatch,
{
    if signal.len() > target_len {
        return Err(ConvolveError::PlanMismatch);
    }
    let mut buffer: Vec<ComplexBits> = Vec::new();
    let mut i: usize = 0;
    while i < signal.len()
        invariant
            i <= signal@.len(),
            signal@.len() <= target_len,
            buffer@.len() == i,
            forall|j: int| 0 <= j < i ==> buffer@[j] == (ComplexBits { re: signal@[j], im: 0 }),
        decreases signal@.len() - i,
    {
        buffer.push(ComplexBits { re: signal[i], im: 0 });
        i = i + 1;
    }
    while buffer.len() < target_len
        invariant
            signal@.len() <= buffer@.len() <= target_len,
            forall|j: int|
                0 <= j < signal@.len() ==> buffer@[j] == (ComplexBits { re: signal@[j], im: 0 }),
            forall|j: int|
                signal@.len() <= j < buffer@.len() ==> buffer@[j] == (ComplexBits { re: 0, im: 0 }),
        decreases target_len - buffer@.len(),
    {
        buffer.push(ComplexBits { re: 0, im: 0 });
    }
    Ok(buffer)
}

} // verus!
