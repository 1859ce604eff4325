use alarm_listener::tone::{
    detect, first_tone_bin, in_band, PowerWindow, ToneBand, DEFAULT_BAND_HIGH_HZ,
    DEFAULT_BAND_LOW_HZ, DEFAULT_SAMPLE_RATE_HZ,
};
use rustfft::num_complex::Complex;
use rustfft::FftPlanner;

const BAND: ToneBand = ToneBand { low_hz: 1640, high_hz: 1720 };

/// A strictly increasing map from powers to levels.
fn level(power: f32) -> u32 {
    if power.is_nan() {
        return u32::MAX;
    }
    let bits = (power + 0.0).to_bits();
    if bits & 0x8000_0000 != 0 {
        !bits
    } else {
        bits | 0x8000_0000
    }
}

fn window(low: f32, high: f32) -> PowerWindow {
    PowerWindow { low: level(low), high: level(high) }
}

fn spectrum_levels(samples: &[f32]) -> Vec<u32> {
    let mut planner = FftPlanner::<f32>::new();
    let fft = planner.plan_fft_forward(samples.len());
    let mut buffer: Vec<Complex<f32>> = samples.iter().map(|&s| Complex::new(s, 0.0)).collect();
    fft.process(&mut buffer);
    buffer.iter().map(|c| level(c.re * c.re + c.im * c.im)).collect()
}

fn sinusoid(frequency_hz: f32, amplitude: f32) -> Vec<f32> {
    (0..1024)
        .map(|n| amplitude * (2.0 * std::f32::consts::PI * frequency_hz * n as f32 / 8000.0).sin())
        .collect()
}

#[test]
fn level_map_is_increasing() {
    let powers = [0.0f32, 1.0e-9, 0.5, 99.9, 100.0, 100.1, 299.9, 300.0, 1.0e9, f32::INFINITY];
    for pair in powers.windows(2) {
        assert!(level(pair[0]) < level(pair[1]));
    }
    assert_eq!(level(-0.0), level(0.0));
}

#[test]
fn detect_is_false_for_silence() {
    let levels = spectrum_levels(&vec![0.0; 1024]);
    assert!(!detect(&levels, 8000, BAND, window(100.0, 300.0)));
    assert!(!detect(&levels, 8000, BAND, window(1.0e-30, f32::INFINITY)));
    assert!(!detect(&levels, 8000, ToneBand { low_hz: 0, high_hz: 8000 }, window(0.001, 1.0e9)));
}

#[test]
fn detect_is_true_for_a_tuned_sinusoid_at_1680_hz() {
    let levels = spectrum_levels(&sinusoid(1680.0, 0.0276));
    assert!(detect(&levels, DEFAULT_SAMPLE_RATE_HZ, BAND, window(100.0, 300.0)));
    assert_eq!(first_tone_bin(&levels, 8000, BAND, window(100.0, 300.0)), Some(215));
}

#[test]
fn detect_is_false_for_a_tone_that_is_too_loud_or_too_faint() {
    let loud = spectrum_levels(&sinusoid(1679.6875, 1.0));
    assert!(!detect(&loud, 8000, BAND, window(100.0, 300.0)));
    let faint = spectrum_levels(&sinusoid(1679.6875, 0.001));
    assert!(!detect(&faint, 8000, BAND, window(100.0, 300.0)));
}

#[test]
fn detect_is_false_for_a_tuned_tone_outside_the_band() {
    let levels = spectrum_levels(&sinusoid(1000.0, 0.0276));
    assert!(!detect(&levels, 8000, BAND, window(100.0, 300.0)));
    assert!(detect(&levels, 8000, ToneBand { low_hz: 990, high_hz: 1010 }, window(100.0, 300.0)));
}

#[test]
fn detect_gives_the_same_answer_every_time() {
    let levels = spectrum_levels(&sinusoid(1680.0, 0.0276));
    let first = detect(&levels, 8000, BAND, window(100.0, 300.0));
    for _ in 0..5 {
        assert_eq!(detect(&levels, 8000, BAND, window(100.0, 300.0)), first);
    }
}

#[test]
fn default_band_holds_bins_210_to_220() {
    let band = ToneBand { low_hz: DEFAULT_BAND_LOW_HZ, high_hz: DEFAULT_BAND_HIGH_HZ };
    let inside: Vec<usize> = (0..1024).filter(|&i| in_band(i, 1024, 8000, band)).collect();
    assert_eq!(inside, (210..=220).collect::<Vec<usize>>());
}

#[test]
fn band_edges_are_included() {
    let band = ToneBand { low_hz: 1000, high_hz: 2000 };
    assert!(!in_band(127, 1024, 8000, band));
    assert!(in_band(128, 1024, 8000, band));
    assert!(in_band(256, 1024, 8000, band));
    assert!(!in_band(257, 1024, 8000, band));
}

#[test]
fn in_band_does_not_overflow_at_the_limits() {
    let band = ToneBand { low_hz: u32::MAX, high_hz: u32::MAX };
    assert!(in_band(usize::MAX, usize::MAX, u32::MAX, band));
    assert!(!in_band(usize::MAX - 1, usize::MAX, u32::MAX, band));
    assert!(in_band(0, 0, 0, band));
}

#[test]
fn window_edges_are_excluded() {
    let w = PowerWindow { low: 100, high: 300 };
    let whole = ToneBand { low_hz: 0, high_hz: 8000 };
    assert!(!detect(&vec![100, 300, 99, 301], 8000, whole, w));
    assert!(detect(&vec![100, 300, 101], 8000, whole, w));
    assert!(detect(&vec![299], 8000, whole, w));
    assert!(!detect(&vec![], 8000, whole, w));
    assert!(!detect(&vec![200], 8000, whole, PowerWindow { low: 200, high: 201 }));
}

#[test]
fn first_tone_bin_is_the_lowest_qualifying_bin() {
    let w = PowerWindow { low: 100, high: 300 };
    let band = ToneBand { low_hz: 2000, high_hz: 6000 };
    let levels = vec![200, 200, 50, 400, 150, 250, 200, 200];
    assert_eq!(first_tone_bin(&levels, 8000, band, w), Some(4));
    assert_eq!(first_tone_bin(&levels, 8000, ToneBand { low_hz: 2000, high_hz: 3999 }, w), None);
    assert_eq!(first_tone_bin(&levels, 8000, ToneBand { low_hz: 0, high_hz: 0 }, w), Some(0));
}
