//! Length planning: the unpadded convolution output length and the smallest
//! power-of-two transform length that can hold it.

use vstd::prelude::*;
use vstd::arithmetic::power2::{pow2, lemma_pow2_pos, lemma_pow2_strictly_increases, lemma2_to64};

use crate::ConvolveError;

verus! {

/// The largest signal-length sum the planner accepts.  With `len1 + len2`
/// at most this bound, the output length `len1 + len2 - 1` is at most
/// `usize::MAX / 2`, so the transform length (the smallest power of two
/// that can hold it) still fits in a `usize`.
pub const MAX_PLANNED_LEN: usize = usize::MAX / 2 + 1;

/// `r` is the smallest power of two that is at least `n`.
pub open spec fn is_next_pow2(n: nat, r: nat) -> bool {
    &&& exists|e: nat| r == #[trigger] pow2(e)
    &&& n <= r
    &&& forall|e: nat| n <= #[trigger] pow2(e) ==> r <= pow2(e)
}

/// Smallest power of two that is at least `n`, with `n <= 1` mapped to `1`.
pub fn next_power_of_2(n: usize) -> (r: usize)
    requires
        n <= MAX_PLANNED_LEN,
    ensures
        is_next_pow2(n as nat, r as nat),
{
    proof {
        lemma2_to64();
        broadcast use lemma_pow2_pos;
    }
    if n <= 1 {
        return 1;
    }
    let mut power: usize = 1;
    let ghost mut exp: nat = 0;
    while power < n
        invariant
            n <= MAX_PLANNED_LEN,
            1 <= power,
            power == pow2(exp),
            exp > 0 ==> pow2((exp - 1) as nat) < n,
        decreases 2 * n - power,
    {
        proof {
            exp = exp + 1;
            assert(pow2(exp) == 2 * pow2((exp - 1) as nat)) by {
                vstd::arithmetic::power2::lemma_pow2_unfold(exp);
            }
        }
        power = power * 2;
    }
    proof {
        assert forall|e: nat| n as nat <= #[trigger] pow2(e) implies power as nat <= pow2(e) by {
            if e < exp {
                if e < exp - 1 {
                    lemma_pow2_strictly_increases(e, (exp - 1) as nat);
                }
            } else if exp < e {
                lemma_pow2_strictly_increases(exp, e);
            }
        }
    }
    power
}

/// Plans one convolution: the output length `len1 + len2 - 1` and the
/// smallest power-of-two transform length that can hold it.  Fails with
/// `InvalidInput` exactly when either signal is empty.
pub fn plan(len1: usize, len2: usize) -> (r: Result<(usize, usize), ConvolveError>)
    requires
        len1 + len2 <= MAX_PLANNED_LEN,
    ensures
        (r is Ok) <==> (1 <= len1 && 1 <= len2),
        r is Ok ==> r->Ok_0.0 == len1 + len2 - 1,
        r is Ok ==> is_next_pow2((len1 + len2 - 1) as nat, r->Ok_0.1 as nat),
        r is Err ==> r->Err_0 == ConvolveError::InvalidInput,
{
    if len1 == 0 || len2 == 0 {
        return Err(ConvolveError::InvalidInput);
    }
    let output_len: usize = len1 + len2 - 1;
    let fft_len: usize = next_power_of_2(output_len);
    Ok((output_len, fft_len))
}

} // verus!
