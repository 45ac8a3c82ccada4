//! Tests of the individual pipeline components: planner, padder,
//! transformer, pointwise multiply, and normalized extraction.

use fft_convolution::ComplexBits;
use fft_convolution::ConvolveError;
use fft_convolution::SpectralTransformer;
use fft_convolution::extract_normalized;
use fft_convolution::next_power_of_2;
use fft_convolution::plan;
use fft_convolution::pointwise_multiply;
use fft_convolution::to_complex_padded;

fn bin(re: f64, im: f64) -> ComplexBits {
    ComplexBits { re: re.to_bits(), im: im.to_bits() }
}

fn re_of(c: ComplexBits) -> f64 {
    f64::from_bits(c.re)
}

fn im_of(c: ComplexBits) -> f64 {
    f64::from_bits(c.im)
}

#[test]
fn test_next_power_of_2() {
    assert_eq!(next_power_of_2(1), 1);
    assert_eq!(next_power_of_2(5), 8);
    assert_eq!(next_power_of_2(16), 16);
    assert_eq!(next_power_of_2(17), 32);
}

#[test]
fn next_power_of_2_edge_values() {
    assert_eq!(next_power_of_2(0), 1);
    assert_eq!(next_power_of_2(2), 2);
    assert_eq!(next_power_of_2(1025), 2048);
}

#[test]
fn plan_computes_output_and_transform_lengths() {
    assert_eq!(plan(3, 2), Ok((4, 4)));
    assert_eq!(plan(1, 1), Ok((1, 1)));
    assert_eq!(plan(100, 200), Ok((299, 512)));
}

#[test]
fn plan_rejects_empty_signals() {
    assert_eq!(plan(0, 5), Err(ConvolveError::InvalidInput));
    assert_eq!(plan(5, 0), Err(ConvolveError::InvalidInput));
    assert_eq!(plan(0, 0), Err(ConvolveError::InvalidInput));
}

#[test]
fn padding_lifts_and_zero_fills() {
    let signal: Vec<u64> = vec![1.0f64.to_bits(), 2.0f64.to_bits()];
    let buffer = to_complex_padded(&signal, 4).unwrap();
    assert_eq!(buffer.len(), 4);
    assert_eq!(buffer[0], bin(1.0, 0.0));
    assert_eq!(buffer[1], bin(2.0, 0.0));
    assert_eq!(buffer[2], ComplexBits { re: 0, im: 0 });
    assert_eq!(buffer[3], ComplexBits { re: 0, im: 0 });
}

#[test]
fn padding_refuses_truncation() {
    let signal: Vec<u64> = vec![1.0f64.to_bits(), 2.0f64.to_bits(), 3.0f64.to_bits()];
    assert_eq!(to_complex_padded(&signal, 1), Err(ConvolveError::PlanMismatch));
}

#[test]
fn forward_transform_of_two_samples() {
    // The length-2 forward transform of [1, 2] is [3, -1].
    let mut buffer = vec![bin(1.0, 0.0), bin(2.0, 0.0)];
    let transformer = SpectralTransformer::new(2);
    transformer.forward(&mut buffer).unwrap();
    assert!((re_of(buffer[0]) - 3.0).abs() < 1e-12);
    assert!((re_of(buffer[1]) - (-1.0)).abs() < 1e-12);
    assert!(im_of(buffer[0]).abs() < 1e-12);
    assert!(im_of(buffer[1]).abs() < 1e-12);
}

#[test]
fn inverse_transform_is_unnormalized() {
    // The unnormalized length-2 inverse of [3, -1] is [2, 4]: twice [1, 2].
    let mut buffer = vec![bin(3.0, 0.0), bin(-1.0, 0.0)];
    let transformer = SpectralTransformer::new(2);
    transformer.inverse(&mut buffer).unwrap();
    assert!((re_of(buffer[0]) - 2.0).abs() < 1e-12);
    assert!((re_of(buffer[1]) - 4.0).abs() < 1e-12);
}

#[test]
fn transform_refuses_mismatched_buffer() {
    let mut buffer = vec![bin(1.0, 0.0), bin(2.0, 0.0), bin(3.0, 0.0)];
    let transformer = SpectralTransformer::new(2);
    assert_eq!(transformer.forward(&mut buffer), Err(ConvolveError::PlanMismatch));
    assert_eq!(transformer.inverse(&mut buffer), Err(ConvolveError::PlanMismatch));
    // The refused buffer is left unchanged.
    assert_eq!(buffer[0], bin(1.0, 0.0));
    assert_eq!(buffer[1], bin(2.0, 0.0));
    assert_eq!(buffer[2], bin(3.0, 0.0));
}

#[test]
fn pointwise_multiply_is_complex_multiplication() {
    // (2 + i)(3 - 2i) = 8 - i, exactly representable.
    let mut spectrum = vec![bin(2.0, 1.0)];
    let other = vec![bin(3.0, -2.0)];
    pointwise_multiply(&mut spectrum, &other);
    assert_eq!(re_of(spectrum[0]), 8.0);
    assert_eq!(im_of(spectrum[0]), -1.0);
}

#[test]
fn extract_normalized_divides_real_parts() {
    let buffer = vec![bin(8.0, 0.5), bin(-2.0, -0.25), bin(7.0, 0.0)];
    let result = extract_normalized(&buffer, 2, 2);
    assert_eq!(result.len(), 2);
    assert_eq!(f64::from_bits(result[0]), 4.0);
    assert_eq!(f64::from_bits(result[1]), -1.0);
}

#[test]
fn residual_imaginary_parts_stay_small() {
    // Drive the pipeline through its public components and check that the
    // imaginary parts discarded by the final extraction are negligible
    // relative to the largest output magnitude.
    let signal1: Vec<u64> = [1.0f64, 2.0, 3.0, -4.0, 0.5].iter().map(|x| x.to_bits()).collect();
    let signal2: Vec<u64> = [0.5f64, 1.0, -0.25].iter().map(|x| x.to_bits()).collect();
    let (output_len, fft_len) = plan(signal1.len(), signal2.len()).unwrap();
    let mut buf1 = to_complex_padded(&signal1, fft_len).unwrap();
    let mut buf2 = to_complex_padded(&signal2, fft_len).unwrap();
    let transformer = SpectralTransformer::new(fft_len);
    transformer.forward(&mut buf1).unwrap();
    transformer.forward(&mut buf2).unwrap();
    pointwise_multiply(&mut buf1, &buf2);
    transformer.inverse(&mut buf1).unwrap();

    let scale = fft_len as f64;
    let mut max_out = 0.0f64;
    for i in 0..output_len {
        max_out = max_out.max((re_of(buf1[i]) / scale).abs());
    }
    assert!(max_out > 0.0);
    for i in 0..output_len {
        let residual = (im_of(buf1[i]) / scale).abs();
        assert!(residual < 1e-9 * max_out, "bin {}: residual {}", i, residual);
    }
}
