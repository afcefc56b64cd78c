//! Tuning systems: the frequency of a note under each temperament.
//!
//! A frequency is kept exactly, as a ratio within the octave and a count of
//! octaves above or below the reference pitch. Turning it into a number of
//! hertz is left to the caller.

use vstd::prelude::*;
use crate::pitch::{letter_offset_from_a, marker_quarters, note_marker_quarters};
use crate::text::{first_char_or, first_or};

verus! {

/// The reference pitch, A in octave 4, in hertz.
pub const REFERENCE_HZ: u32 = 440;

/// Cents in a quarter-tone of equal temperament.
pub const CENTS_PER_QUARTER: u32 = 50;

/// The just-intonation ratio of each semitone above A, as numerator and denominator.
pub const JUST_RATIOS: [(u32, u32); 12] = [
    (1, 1), (16, 15), (9, 8), (6, 5), (5, 4), (4, 3),
    (45, 32), (3, 2), (8, 5), (5, 3), (9, 5), (15, 8),
];

/// The meantone ratio of each semitone above A, in ten-thousandths.
pub const MEANTONE_RATIOS: [u32; 12] = [
    10000, 10449, 11180, 11963, 12500, 13375,
    13975, 14953, 15625, 16719, 17889, 18692,
];

/// The denominator that goes with `MEANTONE_RATIOS`.
pub const MEANTONE_DENOMINATOR: u32 = 10000;

/// The historical just system: cents above A of each quarter-tone step.
pub const SHRUTI_CENTS: [u32; 24] = [
    0, 22, 90, 112, 182, 204, 294, 316, 386, 408, 498, 520,
    590, 612, 702, 722, 792, 814, 884, 906, 996, 1018, 1088, 1110,
];

/// A rule that maps the distance from the reference pitch to a frequency ratio.
#[derive(Debug, Clone, Copy, PartialEq, Eq, Structural)]
pub enum Temperament {
    Equal,
    Just,
    JustAncient,
    Meantone,
}

/// A frequency ratio within one octave: at least one, less than two.
#[derive(Debug, Clone, Copy, PartialEq, Eq, Structural)]
pub enum Ratio {
    /// Two to the power of `cents / 1200`.
    Cents { cents: u32 },
    /// `numerator / denominator`.
    Fraction { numerator: u32, denominator: u32 },
}

/// The frequency `REFERENCE_HZ * ratio * 2^octaves` hertz.
#[derive(Debug, Clone, Copy, PartialEq, Eq, Structural)]
pub struct Frequency {
    pub ratio: Ratio,
    pub octaves: i64,
}

impl Ratio {
    /// Whether the ratio lies within one octave.
    pub open spec fn well_formed(self) -> bool {
        match self {
            Ratio::Cents { cents } => cents < 1200,
            Ratio::Fraction { numerator, denominator } => 0 < denominator <= numerator < 2
                * denominator,
        }
    }
}

impl Frequency {
    /// Whether the ratio lies within one octave.
    pub open spec fn well_formed(self) -> bool {
        self.ratio.well_formed()
    }

    /// The frequency one octave higher, which is twice this one.
    pub open spec fn octave_above(self) -> Frequency {
        Frequency { ratio: self.ratio, octaves: (self.octaves + 1) as i64 }
    }
}

/// The ratio of equal temperament at quarter-tone `step` of the octave.
pub open spec fn equal_ratio(step: int) -> Ratio {
    Ratio::Cents { cents: (50 * step) as u32 }
}

/// The ratio that a table of twelve semitones gives at quarter-tone `step`:
/// the table's entry on a whole semitone, equal temperament between two.
pub open spec fn just_ratio(step: int) -> Ratio {
    if step % 2 == 0 {
        Ratio::Fraction {
            numerator: JUST_RATIOS@[step / 2].0,
            denominator: JUST_RATIOS@[step / 2].1,
        }
    } else {
        equal_ratio(step)
    }
}

/// The meantone ratio at quarter-tone `step`: the table's entry on a whole
/// semitone, equal temperament between two.
pub open spec fn meantone_ratio(step: int) -> Ratio {
    if step % 2 == 0 {
        Ratio::Fraction { numerator: MEANTONE_RATIOS@[step / 2], denominator: 10000 }
    } else {
        equal_ratio(step)
    }
}

/// The ratio of the historical just system at quarter-tone `step`.
pub open spec fn just_ancient_ratio(step: int) -> Ratio {
    Ratio::Cents { cents: SHRUTI_CENTS@[step] }
}

/// The ratio of `temperament` at quarter-tone `step` of the octave, `0 <= step < 24`.
pub open spec fn temperament_ratio(temperament: Temperament, step: int) -> Ratio {
    match temperament {
        Temperament::Equal => equal_ratio(step),
        Temperament::Just => just_ratio(step),
        Temperament::JustAncient => just_ancient_ratio(step),
        Temperament::Meantone => meantone_ratio(step),
    }
}

/// The frequency that lies `quarters` quarter-tones above the reference
/// pitch (below it when negative): the octaves are the whole multiples of
/// twenty-four, rounded down, and the ratio is that of the step that is left.
pub open spec fn frequency_at(temperament: Temperament, quarters: int) -> Frequency {
    Frequency {
        ratio: temperament_ratio(temperament, quarters % 24),
        octaves: (quarters / 24) as i64,
    }
}

/// Quarter-tones from the reference pitch to the note `name` in `octave`.
/// An empty name, or one that starts with no note letter, is read as A with
/// the markers it holds.
pub open spec fn quarters_from_reference(name: Seq<char>, octave: int) -> int {
    2 * letter_offset_from_a(first_or(name, 'A')) + marker_quarters(name) + (octave - 4) * 24
}

/// The frequency of the note `name` in `octave` under `temperament`.
pub open spec fn frequency_of(name: Seq<char>, octave: int, temperament: Temperament) -> Frequency {
    frequency_at(temperament, quarters_from_reference(name, octave))
}

/// Splits a distance in quarter-tones into whole octaves, rounded down, and
/// the step within the octave.
fn split_octaves(quarters: i64) -> (parts: (i64, usize))
    ensures
        parts.0 == quarters / 24,
        parts.1 == quarters % 24,
        parts.1 < 24,
{
    let lift: i128 = 0x1_0000_0000_0000_0000;
    let lifted: i128 = quarters as i128 + 24 * lift;
    let octaves: i128 = lifted / 24 - lift;
    let step: i128 = lifted % 24;
    (octaves as i64, step as usize)
}

fn equal_step_ratio(step: usize) -> (ratio: Ratio)
    requires
        step < 24,
    ensures
        ratio == equal_ratio(step as int),
        ratio.well_formed(),
{
    Ratio::Cents { cents: CENTS_PER_QUARTER * (step as u32) }
}

/// The frequency of equal temperament `quarters` quarter-tones from the reference pitch.
pub fn get_equal_ratio(quarters: i64) -> (frequency: Frequency)
    ensures
        frequency == frequency_at(Temperament::Equal, quarters as int),
        frequency.well_formed(),
{
    let (octaves, step) = split_octaves(quarters);
    Frequency { ratio: equal_step_ratio(step), octaves }
}

/// The frequency of just intonation `quarters` quarter-tones from the reference pitch.
pub fn get_just_ratio(quarters: i64) -> (frequency: Frequency)
    ensures
        frequency == frequency_at(Temperament::Just, quarters as int),
        frequency.well_formed(),
{
    let (octaves, step) = split_octaves(quarters);
    if step % 2 != 0 {
        return Frequency { ratio: equal_step_ratio(step), octaves };
    }
    let ratios: [(u32, u32); 12] = JUST_RATIOS;
    let (numerator, denominator) = ratios[step / 2];
    Frequency { ratio: Ratio::Fraction { numerator, denominator }, octaves }
}

/// The frequency of the historical just system `quarters` quarter-tones from
/// the reference pitch.
pub fn get_just_ancient_ratio(quarters: i64) -> (frequency: Frequency)
    ensures
        frequency == frequency_at(Temperament::JustAncient, quarters as int),
        frequency.well_formed(),
{
    let (octaves, step) = split_octaves(quarters);
    let cents: [u32; 24] = SHRUTI_CENTS;
    Frequency { ratio: Ratio::Cents { cents: cents[step] }, octaves }
}

/// The meantone frequency `quarters` quarter-tones from the reference pitch.
pub fn get_meantone_ratio(quarters: i64) -> (frequency: Frequency)
    ensures
        frequency == frequency_at(Temperament::Meantone, quarters as int),
        frequency.well_formed(),
{
    let (octaves, step) = split_octaves(quarters);
    if step % 2 != 0 {
        return Frequency { ratio: equal_step_ratio(step), octaves };
    }
    let ratios: [u32; 12] = MEANTONE_RATIOS;
    Frequency {
        ratio: Ratio::Fraction { numerator: ratios[step / 2], denominator: MEANTONE_DENOMINATOR },
        octaves,
    }
}

/// Semitones from A to the natural note `letter` of the same octave.
pub fn letter_to_offset_from_a(letter: char) -> (offset: i64)
    ensures
        offset == letter_offset_from_a(letter),
{
    match letter {
        'C' => -9,
        'D' => -7,
        'E' => -5,
        'F' => -4,
        'G' => -2,
        'B' => 2,
        _ => 0,
    }
}

/// The octaves, counted from zero, within which `frequency_in_octave` works.
pub(crate) const OCTAVE_SPAN: i64 = 0x100_0000_0000;

/// The frequency of the note `note` in `octave` under `temperament`, for an
/// octave number that a running count may have carried beyond 32 bits.
pub(crate) fn frequency_in_octave(note: &str, temperament: Temperament, octave: i64) -> (frequency:
    Frequency)
    requires
        -OCTAVE_SPAN <= octave <= OCTAVE_SPAN,
    ensures
        frequency == frequency_of(note@, octave as int, temperament),
        frequency.well_formed(),
{
    let from_a: i64 = letter_to_offset_from_a(first_char_or(note, 'A'));
    let quarters: i64 = 2 * from_a + note_marker_quarters(note) + (octave - 4) * 24;
    match temperament {
        Temperament::Equal => get_equal_ratio(quarters),
        Temperament::Just => get_just_ratio(quarters),
        Temperament::JustAncient => get_just_ancient_ratio(quarters),
        Temperament::Meantone => get_meantone_ratio(quarters),
    }
}

/// The frequency of the note `note` in `octave` under `temperament`.
pub fn note_to_frequency(note: &str, temperament: Temperament, octave: i32) -> (frequency: Frequency)
    ensures
        frequency == frequency_of(note@, octave as int, temperament),
        frequency.well_formed(),
{
    frequency_in_octave(note, temperament, octave as i64)
}

/// Octave doubling: a note one octave higher has the same ratio and one more
/// octave, so its frequency is twice that of the lower note.
pub proof fn octave_doubles_frequency(name: Seq<char>, octave: i32, temperament: Temperament)
    requires
        octave < i32::MAX,
    ensures
        frequency_of(name, octave + 1, temperament) == frequency_of(
            name,
            octave as int,
            temperament,
        ).octave_above(),
{
}

} // verus!
