//! Frequency-domain bins: pointwise complex products, and extraction of the
//! normalized real part after the inverse transform.

use vstd::prelude::*;

use num_complex::Complex64;
use num_traits::{FromBytes, FromPrimitive, ToBytes};

use crate::buffer::ComplexBits;

verus! {

/// The bit patterns `(re, im)` of the parts of the complex product
/// `(a_re + a_im i) * (b_re + b_im i)`, computed on IEEE double-precision
/// numbers with the given bit patterns.
pub uninterp spec fn complex_product_bits(a_re: u64, a_im: u64, b_re: u64, b_im: u64) -> (u64, u64);

/// What one bin holds after the pointwise multiply: the complex product of
/// the two operand bins.
pub open spec fn product_bin(a: ComplexBits, b: ComplexBits) -> ComplexBits {
    ComplexBits {
        re: complex_product_bits(a.re, a.im, b.re, b.im).0,
        im: complex_product_bits(a.re, a.im, b.re, b.im).1,
    }
}

/// Relies on num_complex: `Complex64 * Complex64` computes
/// `(ac - bd) + (ad + bc)i` componentwise in IEEE double-precision
/// arithmetic, a function of the four operand bit patterns alone.
#[verifier::external_body]
fn complex_mul(a: ComplexBits, b: ComplexBits) -> (r: ComplexBits)
    ensures
        r.re == complex_product_bits(a.re, a.im, b.re, b.im).0,
        r.im == complex_product_bits(a.re, a.im, b.re, b.im).1,
{
    let x = Complex64::new(
        FromBytes::from_le_bytes(&a.re.to_le_bytes()),
        FromBytes::from_le_bytes(&a.im.to_le_bytes()),
    );
    let y = Complex64::new(
        FromBytes::from_le_bytes(&b.re.to_le_bytes()),
        FromBytes::from_le_bytes(&b.im.to_le_bytes()),
    );
    let p = x * y;
    ComplexBits {
        re: u64::from_le_bytes(ToBytes::to_le_bytes(&p.re)),
        im: u64::from_le_bytes(ToBytes::to_le_bytes(&p.im)),
    }
}

/// Pointwise multiplication in the frequency domain: afterwards bin `i` of
/// `spectrum` holds the complex product of its old value with bin `i` of
/// `other`.  This single step is what makes the zero-padded transform
/// compute a linear convolution.
pub fn pointwise_multiply(spectrum: &mut Vec<ComplexBits>, other: &Vec<ComplexBits>)
    requires
        old(spectrum)@.len() == other@.len(),
    ensures
        final(spectrum)@.len() == old(spectrum)@.len(),
        forall|i: int|
            0 <= i < old(spectrum)@.len() ==> final(spectrum)@[i] == product_bin(
                old(spectrum)@[i],
                other@[i],
            ),
{
    let ghost orig: Seq<ComplexBits> = spectrum@;
    let mut i: usize = 0;
    while i < other.len()
        invariant
            i <= other@.len(),
            spectrum@.len() == other@.len(),
            orig.len() == other@.len(),
            forall|j: int| 0 <= j < i ==> spectrum@[j] == product_bin(orig[j], other@[j]),
            forall|j: int| i <= j < other@.len() ==> spectrum@[j] == orig[j],
        decreases other@.len() - i,
    {
        let bin = complex_mul(spectrum[i], other[i]);
        spectrum.set(i, bin);
        i = i + 1;
    }
}

/// The bit pattern of `x / (n as f64)`, for the IEEE double with bit
/// pattern `x`.
pub uninterp spec fn normalized_bits(x: u64, n: usize) -> u64;

/// Relies on num_complex's `Complex64::unscale`, which divides each
/// component by the scalar in IEEE double-precision arithmetic: the real
/// part of the result depends on the bit pattern and the divisor alone.
#[verifier::external_body]
fn normalize(x: u64, n: usize) -> (r: u64)
    ensures
        r == normalized_bits(x, n),
{
    let c = Complex64::new(
        FromBytes::from_le_bytes(&x.to_le_bytes()),
        FromPrimitive::from_usize(0).unwrap(),
    );
    let d = c.unscale(FromPrimitive::from_usize(n).unwrap());
    u64::from_le_bytes(ToBytes::to_le_bytes(&d.re))
}

/// Extracts the real parts of the first `output_len` bins, each divided by
/// `fft_len`: the single normalization pass that the unnormalized inverse
/// transform calls for.  The imaginary parts are transform scratch and are
/// discarded.
pub fn extract_normalized(buffer: &Vec<ComplexBits>, output_len: usize, fft_len: usize) -> (r: Vec<
    u64,
>)
    requires
        output_len <= buffer@.len(),
    ensures
        r@.len() == output_len,
        forall|i: int| 0 <= i < output_len ==> r@[i] == normalized_bits(buffer@[i].re, fft_len),
{
    let mut result: Vec<u64> = Vec::new();
    let mut i: usize = 0;
    while i < output_len
        invariant
            i <= output_len,
            output_len <= buffer@.len(),
            result@.len() == i,
            forall|j: int| 0 <= j < i ==> result@[j] == normalized_bits(buffer@[j].re, fft_len),
        decreases output_len - i,
    {
        result.push(normalize(buffer[i].re, fft_len));
        i = i + 1;
    }
    result
}

} // verus!
