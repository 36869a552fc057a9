use apollo::analyzer::{analyze_channels, build_result, transform_length, AnalyzerError, AnalyzerResult};
use apollo::buffer::Buffer;
use rustfft::num_complex::Complex;
use rustfft::FftPlanner;

fn spectrum(buffer: &Buffer<f32>, sample_rate: f32) -> Result<Vec<AnalyzerResult<f32>>, AnalyzerError> {
    let n = transform_length(buffer)?;
    if n == 0 {
        return Ok(Vec::new());
    }
    let mut planner = FftPlanner::<f32>::new();
    let fft = planner.plan_fft_forward(n);
    analyze_channels(buffer, |samples: &[f32]| {
        let mut scratch: Vec<Complex<f32>> = samples.iter().map(|&s| Complex::new(s, 0.0)).collect();
        fft.process(&mut scratch);
        build_result(
            &scratch,
            |c: &Complex<f32>| (c.re.powi(2) + c.im.powi(2)).sqrt(),
            |k: usize| k as f32 * sample_rate / n as f32,
        )
    })
}

fn bound(channels: Vec<Vec<f32>>) -> Buffer<f32> {
    let mut buffer = Buffer::new();
    buffer.bind(channels).unwrap();
    buffer
}

#[test]
fn process_returns_empty_for_empty_buffer() {
    let buffer: Buffer<f32> = Buffer::new();
    let results = spectrum(&buffer, 44100.0).unwrap();
    assert!(results.is_empty());
}

#[test]
fn process_returns_results_for_single_channel() {
    let buffer = bound(vec![vec![0.0; 1024]]);
    let results = spectrum(&buffer, 44100.0).unwrap();
    assert_eq!(results.len(), 1);
    assert!(!results[0].magnitudes.is_empty());
    assert!(!results[0].frequencies.is_empty());
}

#[test]
fn process_returns_correct_number_of_results_for_multiple_channels() {
    let buffer = bound(vec![vec![0.0; 1024], vec![0.0; 1024]]);
    let results = spectrum(&buffer, 44100.0).unwrap();
    assert_eq!(results.len(), 2);
}

#[test]
fn magnitudes_and_frequencies_have_correct_length() {
    let buffer = bound(vec![vec![0.0; 1024]]);
    let results = spectrum(&buffer, 44100.0).unwrap();
    let result = &results[0];
    assert_eq!(result.magnitudes.len(), 512);
    assert_eq!(result.frequencies.len(), 512);
}

#[test]
fn frequencies_are_calculated_correctly() {
    let buffer = bound(vec![vec![1.0; 1024]]);
    let results = spectrum(&buffer, 44100.0).unwrap();
    let result = &results[0];
    let expected_frequency_step = 44100.0 / 1024.0;
    assert_eq!(result.frequencies[1] - result.frequencies[0], expected_frequency_step);
}

#[test]
fn zero_channel_gives_zero_magnitudes_and_even_axis() {
    let buffer = bound(vec![vec![0.0; 1024]]);
    let results = spectrum(&buffer, 44100.0).unwrap();
    let result = &results[0];
    assert_eq!(result.magnitudes.len(), 512);
    assert!(result.magnitudes.iter().all(|&m| m == 0.0));
    assert_eq!(result.frequencies[0], 0.0);
    assert_eq!(result.frequencies[1], 43.066406);
    assert_eq!(result.frequencies[2], 86.13281);
    assert_eq!(result.frequencies[511], 511.0 * 44100.0 / 1024.0);
    for k in 0..511 {
        assert_eq!(result.frequencies[k + 1] - result.frequencies[k], 44100.0 / 1024.0);
    }
}

#[test]
fn two_channels_of_any_content_give_two_results_of_half_length() {
    let left: Vec<f32> = (0..1024).map(|i| ((i * 7) % 13) as f32 - 6.0).collect();
    let right: Vec<f32> = (0..1024).map(|i| if i % 2 == 0 { 1.0 } else { -1.0 }).collect();
    let buffer = bound(vec![left, right]);
    let results = spectrum(&buffer, 48000.0).unwrap();
    assert_eq!(results.len(), 2);
    for r in &results {
        assert_eq!(r.magnitudes.len(), 512);
        assert_eq!(r.frequencies.len(), 512);
        assert!(r.magnitudes.iter().all(|&m| m >= 0.0));
    }
}

#[test]
fn constant_signal_has_all_energy_in_the_first_bin() {
    let buffer = bound(vec![vec![1.0; 8]]);
    let results = spectrum(&buffer, 8.0).unwrap();
    let r = &results[0];
    assert_eq!(r.magnitudes.len(), 4);
    assert!((r.magnitudes[0] - 8.0).abs() < 1e-4);
    for k in 1..4 {
        assert!(r.magnitudes[k].abs() < 1e-4);
    }
    assert_eq!(r.frequencies, vec![0.0, 1.0, 2.0, 3.0]);
}

#[test]
fn sample_rate_changes_frequencies_only() {
    let samples: Vec<f32> = (0..256).map(|i| ((i * 5) % 11) as f32).collect();
    let buffer = bound(vec![samples]);
    let a = spectrum(&buffer, 44100.0).unwrap();
    let b = spectrum(&buffer, 48000.0).unwrap();
    assert_eq!(a[0].magnitudes, b[0].magnitudes);
    assert_ne!(a[0].frequencies, b[0].frequencies);
    assert_eq!(b[0].frequencies[1], 48000.0 / 256.0);
}

#[test]
fn zero_length_channels_are_invalid_buffer_length() {
    let buffer = bound(vec![Vec::new(), Vec::new()]);
    assert_eq!(transform_length(&buffer), Err(AnalyzerError::InvalidBufferLength));
    assert_eq!(spectrum(&buffer, 44100.0).err(), Some(AnalyzerError::InvalidBufferLength));
}

#[test]
fn transform_length_is_samples_per_channel() {
    let unbound: Buffer<f32> = Buffer::new();
    assert_eq!(transform_length(&unbound), Ok(0));
    let buffer = bound(vec![vec![0.0; 6]; 3]);
    assert_eq!(transform_length(&buffer), Ok(6));
}

#[test]
fn analyze_channels_keeps_channel_order() {
    let buffer = bound(vec![vec![1.0, 2.0], vec![3.0, 4.0], vec![5.0, 6.0]]);
    let sums = analyze_channels(&buffer, |s: &[f32]| s.iter().sum::<f32>()).unwrap();
    assert_eq!(sums, vec![3.0, 7.0, 11.0]);
}

#[test]
fn analyze_channels_on_empty_buffer_calls_nothing() {
    let buffer: Buffer<f32> = Buffer::new();
    let r = analyze_channels(&buffer, |_: &[f32]| -> u32 { panic!("no channel to analyse") });
    assert_eq!(r, Ok(Vec::new()));
}

#[test]
fn build_result_keeps_lower_half_of_odd_length() {
    let spectrum = vec![10i64, -20, 30, -40, 50];
    let r = build_result(&spectrum, |c: &i64| c.abs(), |k: usize| k as i64 * 100);
    assert_eq!(r.magnitudes, vec![10, 20]);
    assert_eq!(r.frequencies, vec![0, 100]);
}

#[test]
fn build_result_of_single_bin_is_empty() {
    let spectrum = vec![5i64];
    let r = build_result(&spectrum, |c: &i64| *c, |k: usize| k as i64);
    assert!(r.magnitudes.is_empty());
    assert!(r.frequencies.is_empty());
}
