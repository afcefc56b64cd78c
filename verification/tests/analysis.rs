//! The sample buffer, the peak of a spectrum and the published state.

use lyretune::audio::{
    index_to_frequency, peak_index, AudioState, SampleBuffer, DEFAULT_SAMPLE_RATE, FFT_SIZE,
    SPECTRUM_SIZE,
};
use num_complex::Complex;
use rustfft::FftPlanner;
use std::sync::{Arc, Mutex};

fn hamming_window(i: usize, size: usize) -> f32 {
    0.54 - 0.46 * (2.0 * std::f32::consts::PI * i as f32 / (size - 1) as f32).cos()
}

/// The magnitude keys of the lower half of the transform of one window.
fn spectrum_of(window: &[f32]) -> Vec<u32> {
    let size = window.len();
    let mut planner = FftPlanner::new();
    let fft = planner.plan_fft_forward(size);
    let mut buffer: Vec<Complex<f32>> = window
        .iter()
        .enumerate()
        .map(|(i, &sample)| Complex::new(sample * hamming_window(i, size), 0.0))
        .collect();
    fft.process(&mut buffer);
    buffer.iter().take(size / 2).map(|c| c.norm().to_bits()).collect()
}

fn sine(hertz: f32, sample_rate: u32, samples: usize) -> Vec<f32> {
    (0..samples)
        .map(|i| (2.0 * std::f32::consts::PI * hertz * i as f32 / sample_rate as f32).sin())
        .collect()
}

fn spectrum_with(peak: usize, magnitude: u32) -> Vec<u32> {
    let mut magnitudes = vec![0u32; SPECTRUM_SIZE];
    magnitudes[peak] = magnitude;
    magnitudes
}

#[test]
fn sine_of_440_hertz_peaks_within_one_bin() {
    let sample_rate = 44100;
    let mut buffer: SampleBuffer<f32> = SampleBuffer::new();
    let windows = buffer.push_frames(&sine(440.0, sample_rate, FFT_SIZE), 1);
    assert_eq!(windows.len(), 1);
    assert_eq!(windows[0].len(), FFT_SIZE);
    assert_eq!(buffer.len(), 0);

    let mut state = AudioState::new();
    state.set_sample_rate(sample_rate);
    state.publish(spectrum_of(&windows[0]));

    let peak_hertz = state.peak_frequency() as f64 / 1000.0;
    let bin_width = sample_rate as f64 / FFT_SIZE as f64;
    assert!((peak_hertz - 440.0).abs() <= bin_width, "peak at {} Hz", peak_hertz);
    assert_eq!(state.peak_index(), 327);
    assert_eq!(state.peak_frequency(), 440084);
}

#[test]
fn either_bin_around_440_hertz_is_within_one_bin() {
    let bin_width = 44100.0 / FFT_SIZE as f64;
    for peak in [326, 327] {
        let mut state = AudioState::new();
        state.set_sample_rate(44100);
        state.publish(spectrum_with(peak, 1));
        assert_eq!(state.peak_index(), peak);
        let peak_hertz = state.peak_frequency() as f64 / 1000.0;
        assert!((peak_hertz - 440.0).abs() <= bin_width, "peak at {} Hz", peak_hertz);
    }
    let mut state = AudioState::new();
    state.set_sample_rate(44100);
    state.publish(spectrum_with(326, 1));
    assert_eq!(state.peak_frequency(), 438_739);
    state.publish(spectrum_with(328, 1));
    assert_eq!(state.peak_frequency(), 441_430);
}

#[test]
fn integer_samples_peak_at_the_same_bin() {
    let samples: Vec<i16> =
        sine(1000.0, 48000, FFT_SIZE).iter().map(|s| (s * 32767.0) as i16).collect();
    let mut buffer: SampleBuffer<i16> = SampleBuffer::new();
    let windows = buffer.push_frames(&samples, 1);
    assert_eq!(windows.len(), 1);
    let normalized: Vec<f32> = windows[0].iter().map(|&s| s as f32 / 32768.0).collect();
    let mut state = AudioState::new();
    state.set_sample_rate(48000);
    state.publish(spectrum_of(&normalized));
    // 1000 Hz * 32768 / 48000 = 682.67
    assert_eq!(state.peak_index(), 683);
    assert_eq!(state.peak_frequency(), 1_000_488);
}

#[test]
fn peak_is_the_first_of_the_greatest() {
    assert_eq!(peak_index(&[]), 0);
    assert_eq!(peak_index(&[7]), 0);
    assert_eq!(peak_index(&[1, 5, 3, 5, 2]), 1);
    assert_eq!(peak_index(&[0, 0, 0]), 0);
    assert_eq!(peak_index(&[1, 2, 3, 4]), 3);
    assert_eq!(peak_index(&[u32::MAX, 0, u32::MAX]), 0);
    assert_eq!(peak_index(&[3, 2, 9, 9, 9]), 2);
}

#[test]
fn magnitude_keys_order_as_magnitudes() {
    let magnitudes: [f32; 6] = [0.0, 1.0e-20, 0.5, 0.75, 12.0, 3.0e30];
    let keys: Vec<u32> = magnitudes.iter().map(|m| m.to_bits()).collect();
    for i in 1..keys.len() {
        assert!(keys[i - 1] < keys[i]);
    }
    assert_eq!(peak_index(&[0.25_f32.to_bits(), 8.5_f32.to_bits(), 8.25_f32.to_bits()]), 1);
}

#[test]
fn bin_frequency_is_its_share_of_the_sample_rate() {
    assert_eq!(index_to_frequency(0, 44100, 32768), 0);
    assert_eq!(index_to_frequency(1, 44100, 32768), 1345);
    assert_eq!(index_to_frequency(327, 44100, 32768), 440084);
    assert_eq!(index_to_frequency(16383, 44100, 32768), 22_048_654);
    assert_eq!(index_to_frequency(512, 48000, 1024), 24_000_000);
    assert_eq!(index_to_frequency(3, 0, 8), 0);
    assert_eq!(index_to_frequency(usize::MAX - 1, u32::MAX, usize::MAX), 4_294_967_294_999);
}

#[test]
fn state_starts_silent() {
    let state = AudioState::default();
    assert_eq!(state.frequency_data().len(), 16384);
    assert!(state.frequency_data().iter().all(|&m| m == 0));
    assert_eq!(state.peak_index(), 0);
    assert_eq!(state.peak_frequency(), 0);
    assert_eq!(state.sample_rate(), 44100);
    assert_eq!(DEFAULT_SAMPLE_RATE, 44100);
    assert_eq!(SPECTRUM_SIZE * 2, FFT_SIZE);
}

#[test]
fn publishing_replaces_spectrum_and_peak_together() {
    let mut state = AudioState::new();
    state.set_sample_rate(48000);
    assert_eq!(state.sample_rate(), 48000);
    assert_eq!(state.peak_index(), 0);

    state.publish(spectrum_with(100, 9));
    assert_eq!(state.peak_index(), 100);
    assert_eq!(state.frequency_data()[100], 9);
    assert_eq!(state.peak_frequency(), 146_484);
    assert_eq!(state.sample_rate(), 48000);

    state.publish(spectrum_with(16383, 1));
    assert_eq!(state.peak_index(), 16383);
    assert_eq!(state.frequency_data()[100], 0);

    let copy = state.clone();
    state.publish(spectrum_with(5, 2));
    assert_eq!(copy.peak_index(), 16383);
    assert_eq!(copy.frequency_data()[16383], 1);
    assert_eq!(copy.sample_rate(), 48000);
    assert_eq!(state.peak_index(), 5);
}

#[test]
fn readers_never_see_a_mixed_snapshot() {
    let shared = Arc::new(Mutex::new(AudioState::new()));
    let writer = Arc::clone(&shared);
    let reader = Arc::clone(&shared);
    let mut seen = Vec::new();
    for round in 0..400_usize {
        let peak = (round * 37) % SPECTRUM_SIZE;
        writer.lock().unwrap().publish(spectrum_with(peak, round as u32 + 1));
        // The reader polls more often than the writer publishes.
        for _ in 0..3 {
            let snapshot = match reader.try_lock() {
                Ok(state) => state.clone(),
                Err(_) => continue,
            };
            let spectrum = snapshot.frequency_data();
            assert_eq!(spectrum.len(), SPECTRUM_SIZE);
            assert_eq!(snapshot.peak_index(), peak_index(spectrum));
            assert_eq!(snapshot.peak_index(), peak);
            assert_eq!(spectrum[peak], round as u32 + 1);
            assert_eq!(
                snapshot.peak_frequency(),
                index_to_frequency(snapshot.peak_index(), 44100, FFT_SIZE)
            );
            seen.push(snapshot);
        }
    }
    // A snapshot that was read stays as it was, whatever is published after it.
    assert_eq!(seen.len(), 1200);
    for (i, snapshot) in seen.iter().enumerate() {
        assert_eq!(snapshot.peak_index(), ((i / 3) * 37) % SPECTRUM_SIZE);
        assert_eq!(snapshot.frequency_data()[snapshot.peak_index()], (i / 3) as u32 + 1);
    }
}

#[test]
fn buffer_hands_out_a_window_when_it_fills() {
    let mut buffer: SampleBuffer<u32> = SampleBuffer::new();
    assert_eq!(buffer.len(), 0);
    for i in 0..(FFT_SIZE as u32 - 1) {
        assert!(buffer.push(i).is_none());
    }
    assert_eq!(buffer.len(), FFT_SIZE - 1);
    let window = buffer.push(77).unwrap();
    assert_eq!(window.len(), FFT_SIZE);
    assert_eq!(window[0], 0);
    assert_eq!(window[FFT_SIZE - 2], FFT_SIZE as u32 - 2);
    assert_eq!(window[FFT_SIZE - 1], 77);
    assert_eq!(buffer.len(), 0);
    assert!(buffer.push(5).is_none());
    assert_eq!(buffer.len(), 1);
}

#[test]
fn buffer_keeps_the_first_channel_of_each_frame() {
    let stereo: Vec<i32> = (0..(2 * FFT_SIZE as i32 + 6)).collect();
    let mut buffer: SampleBuffer<i32> = SampleBuffer::new();
    let windows = buffer.push_frames(&stereo, 2);
    assert_eq!(windows.len(), 1);
    for (k, sample) in windows[0].iter().enumerate() {
        assert_eq!(*sample, 2 * k as i32);
    }
    assert_eq!(buffer.len(), 3);
}

#[test]
fn buffer_counts_a_frame_that_is_cut_short() {
    let mut buffer: SampleBuffer<u8> = SampleBuffer::new();
    assert!(buffer.push_frames(&[1, 2, 3, 4, 5, 6, 7], 3).is_empty());
    assert_eq!(buffer.len(), 3);
    assert!(buffer.push_frames(&[9], 5).is_empty());
    assert_eq!(buffer.len(), 4);
    assert!(buffer.push_frames(&[], 2).is_empty());
    assert_eq!(buffer.len(), 4);
    let rest: Vec<u8> = vec![0; FFT_SIZE - 5];
    assert!(buffer.push_frames(&rest, 1).is_empty());
    let windows = buffer.push_frames(&[8, 0], 2);
    assert_eq!(windows.len(), 1);
    assert_eq!(&windows[0][..5], &[1, 4, 7, 9, 0]);
    assert_eq!(windows[0][FFT_SIZE - 1], 8);
    assert_eq!(buffer.len(), 0);
}

#[test]
fn buffer_hands_out_every_window_of_a_long_run() {
    let samples: Vec<u32> = (0..70000).collect();
    let mut buffer: SampleBuffer<u32> = SampleBuffer::new();
    assert!(buffer.push_frames(&[500, 501], 1).is_empty());
    let windows = buffer.push_frames(&samples, 1);
    assert_eq!(windows.len(), 2);
    assert_eq!(windows[0][0], 500);
    assert_eq!(windows[0][1], 501);
    assert_eq!(windows[0][2], 0);
    assert_eq!(windows[0][FFT_SIZE - 1], FFT_SIZE as u32 - 3);
    assert_eq!(windows[1][0], FFT_SIZE as u32 - 2);
    assert_eq!(windows[1][FFT_SIZE - 1], 2 * FFT_SIZE as u32 - 3);
    assert_eq!(buffer.len(), 70002 - 2 * FFT_SIZE);
}
