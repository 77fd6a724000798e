use loqa_expo_dsp::gate::{validate_spectrum, Rejection};
use loqa_expo_dsp::marshal::{marshal_spectrum, spectrum_len};
use loqa_expo_dsp::transfer::release_count;
use std::f32::consts::PI;

/// Gate, transform, marshal: the magnitudes handed out, or `None`.
fn spectrum(buffer: Option<&[f32]>, length: i32, sample_rate: i32, fft_size: i32) -> Option<Vec<f32>> {
    let req = validate_spectrum(buffer.is_some(), length, sample_rate, fft_size).ok()?;
    let samples = buffer?.get(..req.signal.sample_count)?;
    let reading = loqa_voice_dsp::compute_fft(samples, req.signal.sample_rate, req.fft_size)
        .ok()
        .map(|r| r.magnitudes.iter().map(|m| m.to_bits()).collect::<Vec<u32>>());
    marshal_spectrum(&req, reading).map(|m| m.into_iter().map(f32::from_bits).collect())
}

fn sine(frequency: f32, sample_rate: i32, num_samples: usize) -> Vec<f32> {
    (0..num_samples)
        .map(|i| {
            let t = i as f32 / sample_rate as f32;
            (2.0 * PI * frequency * t).sin()
        })
        .collect()
}

#[test]
fn test_compute_fft_null_buffer() {
    let result = spectrum(None, 1024, 44100, 512);
    assert!(result.is_none(), "Should return null for null buffer");
    assert_eq!(validate_spectrum(false, 1024, 44100, 512), Err(Rejection::MissingBuffer));
}

#[test]
fn test_compute_fft_invalid_length() {
    let buffer: Vec<f32> = vec![0.0; 1024];
    let result = spectrum(Some(&buffer), 0, 44100, 512);
    assert!(result.is_none(), "Should return null for length <= 0");
    let result = spectrum(Some(&buffer), -10, 44100, 512);
    assert!(result.is_none(), "Should return null for negative length");
    assert_eq!(validate_spectrum(true, -10, 44100, 512), Err(Rejection::NonPositiveLength));
}

#[test]
fn test_compute_fft_invalid_sample_rate() {
    let buffer: Vec<f32> = vec![0.0; 1024];
    let result = spectrum(Some(&buffer), 1024, 0, 512);
    assert!(result.is_none(), "Should return null for sample_rate <= 0");
    let result = spectrum(Some(&buffer), 1024, -100, 512);
    assert!(result.is_none(), "Should return null for negative sample_rate");
    assert_eq!(validate_spectrum(true, 1024, -100, 512), Err(Rejection::SampleRateOutOfRange));
}

#[test]
fn test_compute_fft_invalid_fft_size_not_power_of_2() {
    let buffer: Vec<f32> = vec![0.0; 1024];
    let result = spectrum(Some(&buffer), 1024, 44100, 500);
    assert!(result.is_none(), "Should return null for non-power-of-2 FFT size");
    let result = spectrum(Some(&buffer), 1024, 44100, 1000);
    assert!(result.is_none(), "Should return null for non-power-of-2 FFT size");
    assert_eq!(validate_spectrum(true, 1024, 44100, 1000), Err(Rejection::FftSizeNotPowerOfTwo));
}

#[test]
fn test_compute_fft_invalid_fft_size_out_of_range() {
    let buffer: Vec<f32> = vec![0.0; 1024];
    let result = spectrum(Some(&buffer), 1024, 44100, 128);
    assert!(result.is_none(), "Should return null for FFT size < 256");
    let result = spectrum(Some(&buffer), 16384, 44100, 16384);
    assert!(result.is_none(), "Should return null for FFT size > 8192");
    assert_eq!(validate_spectrum(true, 1024, 44100, 128), Err(Rejection::FftSizeOutOfRange));
    assert_eq!(validate_spectrum(true, 16384, 44100, 16384), Err(Rejection::FftSizeOutOfRange));
}

#[test]
fn test_compute_fft_valid_input_returns_non_null() {
    let sample_rate = 44100;
    let num_samples = (sample_rate as f32 * 0.1) as usize;
    let buffer = sine(440.0, sample_rate, num_samples);
    let fft_size = 2048;
    let result = spectrum(Some(&buffer), num_samples as i32, sample_rate, fft_size);
    assert!(result.is_some(), "Should return valid pointer");
    let magnitudes = result.unwrap();
    assert_eq!(release_count(false, (fft_size / 2) + 1), Some(magnitudes.len()));
}

#[test]
fn test_compute_fft_result_length() {
    let buffer: Vec<f32> = vec![0.5; 2048];
    let fft_size = 1024;
    let expected_result_length = (fft_size / 2) + 1;
    let result = spectrum(Some(&buffer), 2048, 44100, fft_size).unwrap();
    assert_eq!(result.len(), expected_result_length as usize);
    for val in &result {
        assert!(val.is_finite(), "FFT result should be finite");
    }
    let req = validate_spectrum(true, 2048, 44100, fft_size).unwrap();
    assert_eq!(spectrum_len(&req), 513);
}

#[test]
fn test_compute_fft_sine_wave_peak_detection() {
    let sample_rate = 44100;
    let target_frequency = 1000.0;
    let fft_size = 4096;
    let buffer = sine(target_frequency, sample_rate, fft_size);
    let magnitudes = spectrum(Some(&buffer), fft_size as i32, sample_rate, fft_size as i32).unwrap();
    assert_eq!(magnitudes.len(), (fft_size / 2) + 1);

    let mut max_magnitude = 0.0_f32;
    let mut max_index = 0;
    for (i, &mag) in magnitudes.iter().enumerate() {
        if mag > max_magnitude {
            max_magnitude = mag;
            max_index = i;
        }
    }
    let frequency_resolution = sample_rate as f32 / fft_size as f32;
    let peak_frequency = (max_index as f32) * frequency_resolution;
    let frequency_error = (peak_frequency - target_frequency).abs();
    assert!(
        frequency_error < frequency_resolution * 1.5,
        "Peak frequency {peak_frequency} Hz should be close to target {target_frequency} Hz"
    );
    assert_eq!(release_count(false, ((fft_size / 2) + 1) as i32), Some(magnitudes.len()));
}

#[test]
fn test_free_fft_result_handles_null() {
    assert_eq!(release_count(true, 256), None);
}

#[test]
fn test_free_fft_result_handles_invalid_length() {
    let buffer: Vec<f32> = vec![0.5; 1024];
    let result = spectrum(Some(&buffer), 1024, 44100, 512);
    assert!(result.is_some());
    assert_eq!(release_count(false, 0), None);
    assert_eq!(release_count(false, -3), None);
}

#[test]
fn test_memory_safety_multiple_allocations() {
    let buffer: Vec<f32> = vec![0.5; 2048];
    let fft_size = 1024;
    let result_len = (fft_size / 2) + 1;
    for _ in 0..10 {
        let result = spectrum(Some(&buffer), 2048, 44100, fft_size);
        assert!(result.is_some());
        let magnitudes = result.unwrap();
        assert_eq!(release_count(false, result_len), Some(magnitudes.len()));
        drop(magnitudes);
    }
}

#[test]
fn spectrum_rejects_non_finite_magnitudes() {
    let req = validate_spectrum(true, 1024, 44100, 256).unwrap();
    let mut bad = vec![0u32; 129];
    bad[7] = f32::NAN.to_bits();
    assert_eq!(marshal_spectrum(&req, Some(bad)), None);
    let mut negative = vec![0u32; 129];
    negative[0] = (-1.0f32).to_bits();
    assert_eq!(marshal_spectrum(&req, Some(negative)), None);
    let short = vec![0u32; 128];
    assert_eq!(marshal_spectrum(&req, Some(short)), None);
    let good = vec![1.5f32.to_bits(); 129];
    assert_eq!(marshal_spectrum(&req, Some(good.clone())), Some(good));
    assert_eq!(marshal_spectrum(&req, None), None);
}

#[test]
fn spectrum_accepts_size_bounds_and_any_positive_rate() {
    assert!(validate_spectrum(true, 10, 1, 256).is_ok());
    assert!(validate_spectrum(true, 10, 96000, 8192).is_ok());
    assert_eq!(validate_spectrum(true, 10, 44100, 0), Err(Rejection::FftSizeNotPowerOfTwo));
    assert_eq!(validate_spectrum(true, 10, 44100, -256), Err(Rejection::FftSizeNotPowerOfTwo));
}

#[test]
fn rejection_repeats_identically() {
    let buffer: Vec<f32> = vec![0.0; 1024];
    for _ in 0..5 {
        assert_eq!(validate_spectrum(true, 1024, 44100, 500), Err(Rejection::FftSizeNotPowerOfTwo));
        assert!(spectrum(Some(&buffer), 1024, 44100, 500).is_none());
    }
}
