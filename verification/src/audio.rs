//! The analysis of the incoming sound: the window of samples that is
//! gathered for each transform, the peak of a magnitude spectrum, and the
//! state that the analyser publishes for its reader.
//!
//! A magnitude is held as an unsigned key that orders as the magnitudes
//! themselves do, so that the greatest key is the greatest magnitude.

use vstd::prelude::*;
use vstd::arithmetic::div_mod::{lemma_fundamental_div_mod, lemma_mod_bound};

verus! {

/// Samples in one window of the transform.
pub const FFT_SIZE: usize = 32768;

/// Bins of a spectrum: the lower half of the transform.
pub const SPECTRUM_SIZE: usize = 16384;

/// The sample rate that is assumed until the input device has told its own.
pub const DEFAULT_SAMPLE_RATE: u32 = 44100;

/// Whether `index` is the peak of `magnitudes`: the first bin that holds the
/// greatest magnitude. The peak of an empty spectrum is bin 0.
pub open spec fn is_peak(magnitudes: Seq<u32>, index: int) -> bool {
    if magnitudes.len() == 0 {
        index == 0
    } else {
        &&& 0 <= index < magnitudes.len()
        &&& forall|j: int| 0 <= j < magnitudes.len() ==> magnitudes[j] <= magnitudes[index]
        &&& forall|j: int| 0 <= j < index ==> magnitudes[j] < magnitudes[index]
    }
}

/// A spectrum has one peak.
pub proof fn peak_is_unique(magnitudes: Seq<u32>, a: int, b: int)
    requires
        is_peak(magnitudes, a),
        is_peak(magnitudes, b),
    ensures
        a == b,
{
    if magnitudes.len() > 0 {
        if a < b {
            assert(magnitudes[a] < magnitudes[b]);
        } else if b < a {
            assert(magnitudes[b] < magnitudes[a]);
        }
    }
}

/// Finds the peak of `magnitudes`.
pub fn peak_index(magnitudes: &[u32]) -> (index: usize)
    ensures
        is_peak(magnitudes@, index as int),
{
    if magnitudes.len() == 0 {
        return 0;
    }
    let mut index: usize = 0;
    let mut i: usize = 1;
    while i < magnitudes.len()
        invariant
            index < i <= magnitudes.len(),
            forall|j: int| 0 <= j < i ==> magnitudes[j] <= magnitudes[index as int],
            forall|j: int| 0 <= j < index ==> magnitudes[j] < magnitudes[index as int],
        decreases magnitudes.len() - i,
    {
        if magnitudes[i] > magnitudes[index] {
            index = i;
        }
        i += 1;
    }
    index
}

/// The frequency of bin `index` in thousandths of a hertz, rounded down:
/// the bin's share of the sample rate.
pub open spec fn bin_millihertz(index: int, sample_rate: int, fft_size: int) -> int {
    (index * sample_rate * 1000) / fft_size
}

/// The width of a bin in thousandths of a hertz, rounded down.
pub open spec fn bin_width_millihertz(sample_rate: int, fft_size: int) -> int {
    (sample_rate * 1000) / fft_size
}

/// `floor(x / d)` is the one integer `q` with `q * d <= x < (q + 1) * d`.
proof fn lemma_floor_bounds(x: int, d: int)
    requires
        0 < d,
    ensures
        (x / d) * d <= x < (x / d) * d + d,
{
    lemma_fundamental_div_mod(x, d);
    lemma_mod_bound(x, d);
    assert((x / d) * d == d * (x / d)) by (nonlinear_arith);
}

/// A frequency that lies between two neighbouring bins lies between their
/// frequencies, and these are no more than a bin width, rounded up, apart.
/// `target` is in thousandths of a hertz.
pub proof fn neighbouring_bins_enclose(target: int, lower: int, sample_rate: int, fft_size: int)
    requires
        0 < fft_size,
        lower * sample_rate * 1000 <= target * fft_size < (lower + 1) * sample_rate * 1000,
    ensures
        bin_millihertz(lower, sample_rate, fft_size) <= target <= bin_millihertz(
            lower + 1,
            sample_rate,
            fft_size,
        ),
        bin_millihertz(lower + 1, sample_rate, fft_size) - bin_millihertz(
            lower,
            sample_rate,
            fft_size,
        ) <= bin_width_millihertz(sample_rate, fft_size) + 1,
{
    let width = sample_rate * 1000;
    let below = lower * sample_rate * 1000;
    let above = (lower + 1) * sample_rate * 1000;
    assert(above == below + width) by (nonlinear_arith)
        requires
            width == sample_rate * 1000,
            below == lower * sample_rate * 1000,
            above == (lower + 1) * sample_rate * 1000,
    ;
    let low = below / fft_size;
    let high = above / fft_size;
    let step = width / fft_size;
    lemma_floor_bounds(below, fft_size);
    lemma_floor_bounds(above, fft_size);
    lemma_floor_bounds(width, fft_size);
    assert(low <= target) by (nonlinear_arith)
        requires
            low * fft_size <= below,
            below <= target * fft_size,
            0 < fft_size,
    ;
    assert(target <= high) by (nonlinear_arith)
        requires
            target * fft_size < above,
            above < high * fft_size + fft_size,
            0 < fft_size,
    ;
    assert(high - low <= step + 1) by (nonlinear_arith)
        requires
            high * fft_size <= above,
            above == below + width,
            below < low * fft_size + fft_size,
            width < step * fft_size + fft_size,
            0 < fft_size,
    ;
}

/// Where the peak of a spectrum is one of the two bins around a frequency,
/// the frequency of the peak is within one bin width, rounded up, of it.
/// `target` is in thousandths of a hertz.
pub proof fn peak_within_one_bin(
    magnitudes: Seq<u32>,
    peak: int,
    target: int,
    lower: int,
    sample_rate: int,
    fft_size: int,
)
    requires
        0 < fft_size,
        lower * sample_rate * 1000 <= target * fft_size < (lower + 1) * sample_rate * 1000,
        is_peak(magnitudes, peak),
        peak == lower || peak == lower + 1,
    ensures
        -(bin_width_millihertz(sample_rate, fft_size) + 1) <= bin_millihertz(
            peak,
            sample_rate,
            fft_size,
        ) - target <= bin_width_millihertz(sample_rate, fft_size) + 1,
{
    neighbouring_bins_enclose(target, lower, sample_rate, fft_size);
}

/// The frequency, in thousandths of a hertz, of bin `index` of a transform
/// over `fft_size` samples taken at `sample_rate`.
pub fn index_to_frequency(index: usize, sample_rate: u32, fft_size: usize) -> (millihertz: u64)
    requires
        index < fft_size,
    ensures
        millihertz == bin_millihertz(index as int, sample_rate as int, fft_size as int),
        millihertz <= sample_rate * 1000,
{
    let scaled: u128 = sample_rate as u128 * 1000;
    assert(index * scaled <= fft_size * scaled) by (nonlinear_arith)
        requires
            index < fft_size,
            0 <= scaled,
    ;
    assert(fft_size * scaled <= 0xffff_ffff_ffff_ffff * 0x3e8_0000_0000) by (nonlinear_arith)
        requires
            0 <= fft_size <= 0xffff_ffff_ffff_ffff,
            0 <= scaled <= 0x3e8_0000_0000,
    ;
    let product: u128 = index as u128 * scaled;
    assert(product == index * sample_rate * 1000) by (nonlinear_arith)
        requires
            product == index * scaled,
            scaled == sample_rate * 1000,
    ;
    let quotient: u128 = product / (fft_size as u128);
    assert(quotient <= scaled) by (nonlinear_arith)
        requires
            quotient == (product as int) / (fft_size as int),
            product <= fft_size * scaled,
            0 < fft_size,
            0 <= product,
    ;
    quotient as u64
}

/// Frames in `len` interleaved samples of `channels` channels; a last frame
/// that is cut short still counts.
pub open spec fn frame_count(len: int, channels: int) -> int {
    if len <= 0 {
        0
    } else {
        (len - 1) / channels + 1
    }
}

/// The first channel of interleaved `data`: the first sample of every frame.
pub open spec fn first_channel<T>(data: Seq<T>, channels: int) -> Seq<T> {
    Seq::new(frame_count(data.len() as int, channels) as nat, |k: int| data[k * channels])
}

/// Window `w` of a stream of samples: windows follow one another without
/// overlap.
pub open spec fn window_of<T>(stream: Seq<T>, w: int) -> Seq<T> {
    stream.subrange(w * FFT_SIZE, (w + 1) * FFT_SIZE)
}

/// The samples that wait for a window to fill.
pub struct SampleBuffer<T> {
    samples: Vec<T>,
}

impl<T: Copy> SampleBuffer<T> {
    /// The samples gathered since the last full window, oldest first.
    pub closed spec fn pending(&self) -> Seq<T> {
        self.samples@
    }

    /// Whether the buffer holds less than a window: a full window is handed
    /// out as soon as it is reached.
    pub open spec fn well_formed(&self) -> bool {
        self.pending().len() < FFT_SIZE
    }

    /// An empty buffer, with room for one window.
    pub fn new() -> (buffer: Self)
        ensures
            buffer.pending().len() == 0,
            buffer.well_formed(),
    {
        SampleBuffer { samples: Vec::with_capacity(FFT_SIZE) }
    }

    /// The number of samples that wait.
    pub fn len(&self) -> (len: usize)
        ensures
            len == self.pending().len(),
    {
        self.samples.len()
    }

    /// Adds one sample. When it fills the window, the window is handed out
    /// and the buffer starts again, empty.
    pub fn push(&mut self, sample: T) -> (window: Option<Vec<T>>)
        requires
            old(self).well_formed(),
        ensures
            final(self).well_formed(),
            old(self).pending().len() + 1 < FFT_SIZE ==> window is None && final(self).pending()
                == old(self).pending().push(sample),
            old(self).pending().len() + 1 == FFT_SIZE ==> window is Some && window.unwrap()@
                == old(self).pending().push(sample) && final(self).pending().len() == 0,
    {
        if self.samples.len() + 1 < FFT_SIZE {
            self.samples.push(sample);
            None
        } else {
            let mut window: Vec<T> = Vec::with_capacity(FFT_SIZE);
            let mut i: usize = 0;
            while i < self.samples.len()
                invariant
                    i <= self.samples.len(),
                    window.len() == i,
                    forall|j: int| 0 <= j < i ==> window[j] == self.samples[j],
                decreases self.samples.len() - i,
            {
                window.push(self.samples[i]);
                i += 1;
            }
            window.push(sample);
            self.samples.clear();
            Some(window)
        }
    }

    /// Adds the first channel of the interleaved frames in `data`, sample by
    /// sample, and hands out every window that fills on the way, in order.
    /// The other channels are dropped.
    pub fn push_frames(&mut self, data: &[T], channels: usize) -> (windows: Vec<Vec<T>>)
        requires
            old(self).well_formed(),
            channels > 0,
        ensures
            final(self).well_formed(),
            windows.len() == (old(self).pending() + first_channel(data@, channels as int)).len()
                / (FFT_SIZE as nat),
            forall|w: int|
                0 <= w < windows.len() ==> (#[trigger] windows[w])@ == window_of(
                    old(self).pending() + first_channel(data@, channels as int),
                    w,
                ),
            final(self).pending() == (old(self).pending() + first_channel(
                data@,
                channels as int,
            )).skip(windows.len() * FFT_SIZE),
    {
        let ghost before = self.pending();
        let ghost mono = first_channel(data@, channels as int);
        let frames: usize = if data.len() == 0 {
            0
        } else {
            (data.len() - 1) / channels + 1
        };
        let mut windows: Vec<Vec<T>> = Vec::new();
        let mut k: usize = 0;
        while k < frames
            invariant
                k <= frames,
                channels > 0,
                frames == frame_count(data.len() as int, channels as int),
                mono == first_channel(data@, channels as int),
                mono.len() == frames,
                self.well_formed(),
                windows.len() * FFT_SIZE + self.pending().len() == before.len() + k,
                forall|w: int|
                    0 <= w < windows.len() ==> (#[trigger] windows[w])@ == window_of(
                        before + mono,
                        w,
                    ),
                self.pending() == (before + mono.take(k as int)).skip(windows.len() * FFT_SIZE),
            decreases frames - k,
        {
            assert(k * channels <= data.len() - 1) by (nonlinear_arith)
                requires
                    k <= (data.len() - 1) / (channels as int),
                    channels > 0,
                    data.len() > 0,
            ;
            let sample: T = data[k * channels];
            let window: Option<Vec<T>> = self.push(sample);
            match window {
                Some(window) => {
                    windows.push(window);
                    proof {
                        assert(self.pending() =~= (before + mono.take(k + 1)).skip(
                            windows.len() * FFT_SIZE,
                        ));
                    }
                },
                None => {},
            }
            k += 1;
        }
        windows
    }
}

/// The spectrum that is published before any sound has been analysed.
pub open spec fn silent_spectrum() -> Seq<u32> {
    Seq::new(SPECTRUM_SIZE as nat, |i: int| 0u32)
}

/// What the analyser has published last: the magnitude spectrum of one
/// window, its peak, and the sample rate of the input.
///
/// The spectrum and the peak belong to the same window in every value of
/// this type: they are only ever replaced together.
#[derive(Debug)]
pub struct AudioState {
    frequency_data: Vec<u32>,
    peak_index: usize,
    sample_rate: u32,
}

impl AudioState {
    #[verifier::type_invariant]
    spec fn consistent(&self) -> bool {
        &&& self.frequency_data.len() == SPECTRUM_SIZE
        &&& is_peak(self.frequency_data@, self.peak_index as int)
    }

    /// The magnitude of each bin.
    pub closed spec fn spectrum(&self) -> Seq<u32> {
        self.frequency_data@
    }

    /// The bin of the peak.
    pub closed spec fn peak(&self) -> int {
        self.peak_index as int
    }

    /// The sample rate of the input, in hertz.
    pub closed spec fn rate(&self) -> int {
        self.sample_rate as int
    }

    /// The state before any sound has been analysed: a silent spectrum at
    /// the default sample rate.
    pub fn new() -> (state: Self)
        ensures
            state.spectrum() == silent_spectrum(),
            state.peak() == 0,
            state.rate() == DEFAULT_SAMPLE_RATE,
    {
        let mut frequency_data: Vec<u32> = Vec::with_capacity(SPECTRUM_SIZE);
        let mut i: usize = 0;
        while i < SPECTRUM_SIZE
            invariant
                i <= SPECTRUM_SIZE,
                frequency_data.len() == i,
                forall|j: int| 0 <= j < i ==> frequency_data[j] == 0,
            decreases SPECTRUM_SIZE - i,
        {
            frequency_data.push(0);
            i += 1;
        }
        assert(frequency_data@ =~= silent_spectrum());
        AudioState { frequency_data, peak_index: 0, sample_rate: DEFAULT_SAMPLE_RATE }
    }

    /// Records the sample rate of the input. The spectrum and its peak stay.
    pub fn set_sample_rate(&mut self, sample_rate: u32)
        ensures
            final(self).rate() == sample_rate,
            final(self).spectrum() == old(self).spectrum(),
            final(self).peak() == old(self).peak(),
    {
        proof {
            use_type_invariant(&*self);
        }
        self.sample_rate = sample_rate;
    }

    /// Publishes the spectrum of a new window: the spectrum and its peak
    /// replace the old ones together. The sample rate stays.
    pub fn publish(&mut self, magnitudes: Vec<u32>)
        requires
            magnitudes.len() == SPECTRUM_SIZE,
        ensures
            final(self).spectrum() == magnitudes@,
            is_peak(magnitudes@, final(self).peak()),
            final(self).rate() == old(self).rate(),
    {
        let peak: usize = peak_index(magnitudes.as_slice());
        let sample_rate: u32 = self.sample_rate;
        *self = AudioState { frequency_data: magnitudes, peak_index: peak, sample_rate };
    }

    /// The magnitude of each bin of the latest window.
    pub fn frequency_data(&self) -> (magnitudes: &[u32])
        ensures
            magnitudes@ == self.spectrum(),
            magnitudes.len() == SPECTRUM_SIZE,
    {
        proof {
            use_type_invariant(self);
        }
        self.frequency_data.as_slice()
    }

    /// The bin of the peak of the latest window: it is the peak of the very
    /// spectrum that this state holds.
    pub fn peak_index(&self) -> (index: usize)
        ensures
            index == self.peak(),
            is_peak(self.spectrum(), index as int),
            index < SPECTRUM_SIZE,
    {
        proof {
            use_type_invariant(self);
        }
        self.peak_index
    }

    /// The sample rate of the input, in hertz.
    pub fn sample_rate(&self) -> (sample_rate: u32)
        ensures
            sample_rate == self.rate(),
    {
        self.sample_rate
    }

    /// The frequency of the peak, in thousandths of a hertz.
    pub fn peak_frequency(&self) -> (millihertz: u64)
        ensures
            millihertz == bin_millihertz(self.peak(), self.rate(), FFT_SIZE as int),
    {
        index_to_frequency(self.peak_index(), self.sample_rate, FFT_SIZE)
    }
}

impl Clone for AudioState {
    fn clone(&self) -> (copy: Self)
        ensures
            copy.spectrum() == self.spectrum(),
            copy.peak() == self.peak(),
            copy.rate() == self.rate(),
    {
        proof {
            use_type_invariant(self);
        }
        let frequency_data: Vec<u32> = self.frequency_data.clone();
        AudioState {
            frequency_data,
            peak_index: self.peak_index,
            sample_rate: self.sample_rate,
        }
    }
}

impl Default for AudioState {
    fn default() -> (state: Self)
        ensures
            state.spectrum() == silent_spectrum(),
            state.peak() == 0,
            state.rate() == DEFAULT_SAMPLE_RATE,
    {
        AudioState::new()
    }
}

} // verus!
