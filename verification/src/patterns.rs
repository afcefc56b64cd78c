//! The note patterns from which every scale is made.
//!
//! Each pattern is a fixed run of note names that spans more than one
//! octave, so that an instrument with many strings finds a name for each.
//! A mode has seven patterns, one for each natural note it may start on;
//! the first of them is the one that is transposed for any other note.
//! Every genus, the pentatonic scale and the double harmonic scale have
//! patterns of twenty-four names. The patterns of the modes are plain data:
//! a few of them are irregular, and nothing here evens them out.

use vstd::prelude::*;

verus! {

/// The family a scale is taken from.
#[derive(Debug, Clone, Copy, PartialEq, Eq, Structural)]
pub enum ScaleType {
    Modes,
    Genres,
    Pentatonic,
    DoubleHarmonic,
    Phorminx,
}

/// The seven modes.
#[derive(Debug, Clone, Copy, PartialEq, Eq, Structural)]
pub enum Mode {
    Mixolydios,
    Hypodorios,
    Lydios,
    Phrygios,
    Dorios,
    Hypolydios,
    Hypophrygios,
}

/// The three genera of the tetrachord.
#[derive(Debug, Clone, Copy, PartialEq, Eq, Structural)]
pub enum Genus {
    Diatonic,
    Chromatic,
    Enharmonic,
}

/// Mixolydios from B.
pub const MIXOLYDIOS_B: [&'static str; 24] = [
    "B", "C", "D", "E", "F", "G", "A", "B", "C", "D", "E", "F", "G", "A", "B", "C", "D", "E",
    "F", "G", "A", "B", "C", "D",
];

/// Mixolydios from C.
pub const MIXOLYDIOS_C: [&'static str; 24] = [
    "C", "Db", "Eb", "F", "Gb", "Ab", "Bb", "C", "Db", "Eb", "F", "Gb", "Ab", "Bb", "C", "Db",
    "Eb", "F", "Gb", "Ab", "Bb", "C", "Db", "Eb",
];

/// Mixolydios from D.
pub const MIXOLYDIOS_D: [&'static str; 24] = [
    "D", "Eb", "F", "G", "Ab", "Bb", "C", "D", "Eb", "F", "G", "Ab", "Bb", "C", "D", "Eb", "F",
    "G", "Ab", "Bb", "C", "D", "Eb", "F",
];

/// Mixolydios from E.
pub const MIXOLYDIOS_E: [&'static str; 24] = [
    "E", "F", "G", "A", "Bb", "C", "D", "E", "F", "G", "A", "Bb", "C", "D", "E", "F", "G", "A",
    "Bb", "C", "D", "E", "F", "G",
];

/// Mixolydios from F.
pub const MIXOLYDIOS_F: [&'static str; 24] = [
    "F", "Gb", "Ab", "Bb", "Cb", "Db", "Eb", "F", "Gb", "Ab", "Bb", "Cb", "Db", "Eb", "F",
    "Gb", "Ab", "Bb", "Cb", "Db", "Eb", "F", "Gb", "Ab",
];

/// Mixolydios from G. In its third octave the pattern has D natural.
pub const MIXOLYDIOS_G: [&'static str; 24] = [
    "G", "Ab", "Bb", "C", "Db", "Eb", "F", "G", "Ab", "Bb", "C", "Db", "Eb", "F", "G", "Ab",
    "Bb", "C", "D", "Eb", "F", "G", "Ab", "Bb",
];

/// Mixolydios from A.
pub const MIXOLYDIOS_A: [&'static str; 24] = [
    "A", "Bb", "C", "D", "Eb", "F", "G", "A", "Bb", "C", "D", "Eb", "F", "G", "A", "Bb", "C",
    "D", "Eb", "F", "G", "A", "Bb", "C",
];

/// Hypodorios from A.
pub const HYPODORIOS_A: [&'static str; 24] = [
    "A", "B", "C", "D", "E", "F", "G", "A", "B", "C", "D", "E", "F", "G", "A", "B", "C", "D",
    "E", "F", "G", "A", "B", "C",
];

/// Hypodorios from B. The pattern is two notes short: its third octave
/// goes from F sharp straight to B.
pub const HYPODORIOS_B: [&'static str; 22] = [
    "B", "C#", "D", "E", "F#", "G", "A", "B", "C#", "D", "E", "F#", "G", "A", "B", "C#", "D",
    "E", "F#", "B", "C#", "D",
];

/// Hypodorios from C.
pub const HYPODORIOS_C: [&'static str; 24] = [
    "C", "D", "Eb", "F", "G", "Ab", "Bb", "C", "D", "Eb", "F", "G", "Ab", "Bb", "C", "D", "Eb",
    "F", "G", "Ab", "Bb", "C", "D", "Eb",
];

/// Hypodorios from D.
pub const HYPODORIOS_D: [&'static str; 24] = [
    "D", "E", "F", "G", "A", "Bb", "C", "D", "E", "F", "G", "A", "Bb", "C", "D", "E", "F", "G",
    "A", "Bb", "C", "D", "E", "F",
];

/// Hypodorios from E.
pub const HYPODORIOS_E: [&'static str; 24] = [
    "E", "F#", "G", "A", "B", "C", "D", "E", "F#", "G", "A", "B", "C", "D", "E", "F#", "G",
    "A", "B", "C", "D", "E", "F#", "G",
];

/// Hypodorios from F.
pub const HYPODORIOS_F: [&'static str; 24] = [
    "F", "G", "Ab", "Bb", "C", "Db", "Eb", "F", "G", "Ab", "Bb", "C", "Db", "Eb", "F", "G",
    "Ab", "Bb", "C", "Db", "Eb", "F", "G", "Ab",
];

/// Hypodorios from G.
pub const HYPODORIOS_G: [&'static str; 24] = [
    "G", "A", "Bb", "C", "D", "Eb", "F", "G", "A", "Bb", "C", "D", "Eb", "F", "G", "A", "Bb",
    "C", "D", "Eb", "F", "G", "A", "Bb",
];

/// Lydios from C.
pub const LYDIOS_C: [&'static str; 24] = [
    "C", "D", "E", "F", "G", "A", "B", "C", "D", "E", "F", "G", "A", "B", "C", "D", "E", "F",
    "G", "A", "B", "C", "D", "E",
];

/// Lydios from D. In its third octave the pattern has C natural.
pub const LYDIOS_D: [&'static str; 24] = [
    "D", "E", "F#", "G", "A", "B", "C#", "D", "E", "F#", "G", "A", "B", "C#", "D", "E", "F#",
    "G", "A", "B", "C", "D", "E", "F#",
];

/// Lydios from E.
pub const LYDIOS_E: [&'static str; 24] = [
    "E", "F#", "G#", "A", "B", "C#", "D#", "E", "F#", "G#", "A", "B", "C#", "D#", "E", "F#",
    "G#", "A", "B", "C#", "D#", "E", "F#", "G#",
];

/// Lydios from F.
pub const LYDIOS_F: [&'static str; 24] = [
    "F", "G", "A", "Bb", "C", "D", "E", "F", "G", "A", "Bb", "C", "D", "E", "F", "G", "A",
    "Bb", "C", "D", "E", "F", "G", "A",
];

/// Lydios from G.
pub const LYDIOS_G: [&'static str; 24] = [
    "G", "A", "B", "C", "D", "E", "F#", "G", "A", "B", "C", "D", "E", "F#", "G", "A", "B", "C",
    "D", "E", "F#", "G", "A", "B",
];

/// Lydios from A.
pub const LYDIOS_A: [&'static str; 24] = [
    "A", "B", "C#", "D", "E", "F#", "G#", "A", "B", "C#", "D", "E", "F#", "G#", "A", "B", "C#",
    "D", "E", "F#", "G#", "A", "B", "C#",
];

/// Lydios from B.
pub const LYDIOS_B: [&'static str; 24] = [
    "B", "C#", "D#", "E", "F#", "G#", "A#", "B", "C#", "D#", "E", "F#", "G#", "A#", "B", "C#",
    "D#", "E", "F#", "G#", "A#", "B", "C#", "D#",
];

/// Phrygios from D.
pub const PHRYGIOS_D: [&'static str; 24] = [
    "D", "E", "F", "G", "A", "B", "C", "D", "E", "F", "G", "A", "B", "C", "D", "E", "F", "G",
    "A", "B", "C", "D", "E", "F",
];

/// Phrygios from E.
pub const PHRYGIOS_E: [&'static str; 24] = [
    "E", "F#", "G", "A", "B", "C#", "D", "E", "F#", "G", "A", "B", "C#", "D", "E", "F#", "G",
    "A", "B", "C#", "D", "E", "F#", "G",
];

/// Phrygios from F.
pub const PHRYGIOS_F: [&'static str; 24] = [
    "F", "G", "Ab", "Bb", "C", "D", "Eb", "F", "G", "Ab", "Bb", "C", "D", "Eb", "F", "G", "Ab",
    "Bb", "C", "D", "Eb", "F", "G", "Ab",
];

/// Phrygios from G.
pub const PHRYGIOS_G: [&'static str; 24] = [
    "G", "A", "Bb", "C", "D", "E", "F", "G", "A", "Bb", "C", "D", "E", "F", "G", "A", "Bb",
    "C", "D", "E", "F", "G", "A", "Bb",
];

/// Phrygios from A.
pub const PHRYGIOS_A: [&'static str; 24] = [
    "A", "B", "C", "D", "E", "F#", "G", "A", "B", "C", "D", "E", "F#", "G", "A", "B", "C", "D",
    "E", "F#", "G", "A", "B", "C",
];

/// Phrygios from B.
pub const PHRYGIOS_B: [&'static str; 24] = [
    "B", "C#", "D", "E", "F#", "G#", "A", "B", "C#", "D", "E", "F#", "G#", "A", "B", "C#", "D",
    "E", "F#", "G#", "A", "B", "C#", "D",
];

/// Phrygios from C.
pub const PHRYGIOS_C: [&'static str; 24] = [
    "C", "D", "Eb", "F", "G", "A", "Bb", "C", "D", "Eb", "F", "G", "A", "Bb", "C", "D", "Eb",
    "F", "G", "A", "Bb", "C", "D", "Eb",
];

/// Dorios from E.
pub const DORIOS_E: [&'static str; 24] = [
    "E", "F", "G", "A", "B", "C", "D", "E", "F", "G", "A", "B", "C", "D", "E", "F", "G", "A",
    "B", "C", "D", "E", "F", "G",
];

/// Dorios from F.
pub const DORIOS_F: [&'static str; 24] = [
    "F", "Gb", "Ab", "Bb", "C", "Db", "Eb", "F", "Gb", "Ab", "Bb", "C", "Db", "Eb", "F", "Gb",
    "Ab", "Bb", "C", "Db", "Eb", "F", "Gb", "Ab",
];

/// Dorios from G.
pub const DORIOS_G: [&'static str; 24] = [
    "G", "Ab", "Bb", "C", "D", "Eb", "F", "G", "Ab", "Bb", "C", "D", "Eb", "F", "G", "Ab",
    "Bb", "C", "D", "Eb", "F", "G", "Ab", "Bb",
];

/// Dorios from A.
pub const DORIOS_A: [&'static str; 24] = [
    "A", "Bb", "C", "D", "E", "F", "G", "A", "Bb", "C", "D", "E", "F", "G", "A", "Bb", "C",
    "D", "E", "F", "G", "A", "Bb", "C",
];

/// Dorios from B.
pub const DORIOS_B: [&'static str; 24] = [
    "B", "C", "D", "E", "F#", "G", "A", "B", "C", "D", "E", "F#", "G", "A", "B", "C", "D", "E",
    "F#", "G", "A", "B", "C", "D",
];

/// Dorios from C.
pub const DORIOS_C: [&'static str; 24] = [
    "C", "Db", "Eb", "F", "G", "Ab", "Bb", "C", "Db", "Eb", "F", "G", "Ab", "Bb", "C", "Db",
    "Eb", "F", "G", "Ab", "Bb", "C", "Db", "Eb",
];

/// Dorios from D.
pub const DORIOS_D: [&'static str; 24] = [
    "D", "Eb", "F", "G", "A", "Bb", "C", "D", "Eb", "F", "G", "A", "Bb", "C", "D", "Eb", "F",
    "G", "A", "Bb", "C", "D", "Eb", "F",
];

/// Hypolydios from F.
pub const HYPOLYDIOS_F: [&'static str; 24] = [
    "F", "G", "A", "B", "C", "D", "E", "F", "G", "A", "B", "C", "D", "E", "F", "G", "A", "B",
    "C", "D", "E", "F", "G", "A",
];

/// Hypolydios from G.
pub const HYPOLYDIOS_G: [&'static str; 24] = [
    "G", "A", "B", "C#", "D", "E", "F#", "G", "A", "B", "C#", "D", "E", "F#", "G", "A", "B",
    "C#", "D", "E", "F#", "G", "A", "B",
];

/// Hypolydios from A.
pub const HYPOLYDIOS_A: [&'static str; 24] = [
    "A", "B", "C#", "D#", "E", "F#", "G#", "A", "B", "C#", "D#", "E", "F#", "G#", "A", "B",
    "C#", "D#", "E", "F#", "G#", "A", "B", "C#",
];

/// Hypolydios from B.
pub const HYPOLYDIOS_B: [&'static str; 24] = [
    "B", "C#", "D#", "E#", "F#", "G#", "A#", "B", "C#", "D#", "E#", "F#", "G#", "A#", "B",
    "C#", "D#", "E#", "F#", "G#", "A#", "B", "C#", "D#",
];

/// Hypolydios from C.
pub const HYPOLYDIOS_C: [&'static str; 24] = [
    "C", "D", "E", "F#", "G", "A", "B", "C", "D", "E", "F#", "G", "A", "B", "C", "D", "E",
    "F#", "G", "A", "B", "C", "D", "E",
];

/// Hypolydios from D.
pub const HYPOLYDIOS_D: [&'static str; 24] = [
    "D", "E", "F#", "G#", "A", "B", "C#", "D", "E", "F#", "G#", "A", "B", "C#", "D", "E", "F#",
    "G#", "A", "B", "C#", "D", "E", "F#",
];

/// Hypolydios from E.
pub const HYPOLYDIOS_E: [&'static str; 24] = [
    "E", "F#", "G#", "A#", "B", "C#", "D#", "E", "F#", "G#", "A#", "B", "C#", "D#", "E", "F#",
    "G#", "A#", "B", "C#", "D#", "E", "F#", "G#",
];

/// Hypophrygios from G.
pub const HYPOPHRYGIOS_G: [&'static str; 24] = [
    "G", "A", "B", "C", "D", "E", "F", "G", "A", "B", "C", "D", "E", "F", "G", "A", "B", "C",
    "D", "E", "F", "G", "A", "B",
];

/// Hypophrygios from A.
pub const HYPOPHRYGIOS_A: [&'static str; 24] = [
    "A", "B", "C#", "D", "E", "F#", "G", "A", "B", "C#", "D", "E", "F#", "G", "A", "B", "C#",
    "D", "E", "F#", "G", "A", "B", "C#",
];

/// Hypophrygios from B.
pub const HYPOPHRYGIOS_B: [&'static str; 24] = [
    "B", "C#", "D#", "E", "F#", "G#", "A", "B", "C#", "D#", "E", "F#", "G#", "A", "B", "C#",
    "D#", "E", "F#", "G#", "A", "B", "C#", "D#",
];

/// Hypophrygios from C.
pub const HYPOPHRYGIOS_C: [&'static str; 24] = [
    "C", "D", "E", "F", "G", "A", "Bb", "C", "D", "E", "F", "G", "A", "Bb", "C", "D", "E", "F",
    "G", "A", "Bb", "C", "D", "E",
];

/// Hypophrygios from D.
pub const HYPOPHRYGIOS_D: [&'static str; 24] = [
    "D", "E", "F#", "G", "A", "B", "C", "D", "E", "F#", "G", "A", "B", "C", "D", "E", "F#",
    "G", "A", "B", "C", "D", "E", "F#",
];

/// Hypophrygios from E.
pub const HYPOPHRYGIOS_E: [&'static str; 24] = [
    "E", "F#", "G#", "A", "B", "C#", "D", "E", "F#", "G#", "A", "B", "C#", "D", "E", "F#",
    "G#", "A", "B", "C#", "D", "E", "F#", "G#",
];

/// Hypophrygios from F.
pub const HYPOPHRYGIOS_F: [&'static str; 24] = [
    "F", "G", "A", "Bb", "C", "D", "Eb", "F", "G", "A", "Bb", "C", "D", "Eb", "F", "G", "A",
    "Bb", "C", "D", "Eb", "F", "G", "A",
];

/// The diatonic genus from C.
pub const GENUS_DIATONIC: [&'static str; 24] = [
    "C", "Db", "Eb", "F", "Gb", "Ab", "Bb", "B", "Db", "Eb", "E", "F#", "G#", "A", "B", "C#",
    "D", "E", "F#", "G", "A", "B", "C", "D",
];

/// The chromatic genus from C.
pub const GENUS_CHROMATIC: [&'static str; 24] = [
    "C", "C#", "D", "F", "F#", "G", "Bb", "B", "C", "Eb", "E", "F", "Ab", "A", "Bb", "Db", "D",
    "D#", "F#", "G", "G#", "B", "C", "C#",
];

/// The enharmonic genus from C: groups of a note, its quarter-tone and its
/// sharp, each group a fourth above the last.
pub const GENUS_ENHARMONIC: [&'static str; 24] = [
    "C", "C*", "C#", "F", "F*", "F#", "A#", "A#*", "B", "D#", "D#*", "E", "G#", "G#*", "A",
    "C#", "C#*", "D", "F#", "F#*", "G", "B", "B*", "C",
];

/// The pentatonic scale from F.
pub const PENTATONIC_F: [&'static str; 24] = [
    "F", "G", "Bb", "C", "D", "F", "G", "Bb", "C", "D", "F", "G", "Bb", "C", "D", "F", "G",
    "Bb", "C", "D", "F", "G", "Bb", "C",
];

/// The pentatonic scale from G.
pub const PENTATONIC_G: [&'static str; 24] = [
    "G", "A", "C", "D", "E", "G", "A", "C", "D", "E", "G", "A", "C", "D", "E", "G", "A", "C",
    "D", "E", "G", "A", "C", "D",
];

/// The pentatonic scale from A.
pub const PENTATONIC_A: [&'static str; 24] = [
    "A", "C", "D", "E", "G", "A", "C", "D", "E", "G", "A", "C", "D", "E", "G", "A", "C", "D",
    "E", "G", "A", "C", "D", "E",
];

/// The pentatonic scale from Bb.
pub const PENTATONIC_B_FLAT: [&'static str; 24] = [
    "Bb", "C", "D", "F", "G", "Bb", "C", "D", "F", "G", "Bb", "C", "D", "F", "G", "Bb", "C",
    "D", "F", "G", "Bb", "C", "D", "F",
];

/// The pentatonic scale from C.
pub const PENTATONIC_C: [&'static str; 24] = [
    "C", "D", "E", "G", "A", "C", "D", "E", "G", "A", "C", "D", "E", "G", "A", "C", "D", "E",
    "G", "A", "C", "D", "E", "G",
];

/// The pentatonic scale from D.
pub const PENTATONIC_D: [&'static str; 24] = [
    "D", "E", "G", "A", "C", "D", "E", "G", "A", "C", "D", "E", "G", "A", "C", "D", "E", "G",
    "A", "C", "D", "E", "G", "A",
];

/// The pentatonic scale from E.
pub const PENTATONIC_E: [&'static str; 24] = [
    "E", "G", "A", "C", "D", "E", "G", "A", "C", "D", "E", "G", "A", "C", "D", "E", "G", "A",
    "C", "D", "E", "G", "A", "C",
];

/// The double harmonic scale from C.
pub const DOUBLE_HARMONIC: [&'static str; 24] = [
    "C", "Db", "E", "F", "G", "Ab", "B", "C", "Db", "E", "F", "G", "Ab", "B", "C", "Db", "E",
    "F", "G", "Ab", "B", "C", "Db", "E",
];

/// The four strings of the phorminx from A: the root, a major second, a minor third and a fifth above it.
pub const PHORMINX: [&'static str; 4] = [
    "A", "B", "C", "E",
];

/// The seven patterns of `mode`, each as the names it holds. The first is
/// the pattern that is transposed when none starts on the note asked for.
pub open spec fn mode_patterns(mode: Mode) -> Seq<Seq<Seq<char>>> {
    match mode {
        Mode::Mixolydios => seq![
            MIXOLYDIOS_B.deep_view(),
            MIXOLYDIOS_C.deep_view(),
            MIXOLYDIOS_D.deep_view(),
            MIXOLYDIOS_E.deep_view(),
            MIXOLYDIOS_F.deep_view(),
            MIXOLYDIOS_G.deep_view(),
            MIXOLYDIOS_A.deep_view(),
        ],
        Mode::Hypodorios => seq![
            HYPODORIOS_A.deep_view(),
            HYPODORIOS_B.deep_view(),
            HYPODORIOS_C.deep_view(),
            HYPODORIOS_D.deep_view(),
            HYPODORIOS_E.deep_view(),
            HYPODORIOS_F.deep_view(),
            HYPODORIOS_G.deep_view(),
        ],
        Mode::Lydios => seq![
            LYDIOS_C.deep_view(),
            LYDIOS_D.deep_view(),
            LYDIOS_E.deep_view(),
            LYDIOS_F.deep_view(),
            LYDIOS_G.deep_view(),
            LYDIOS_A.deep_view(),
            LYDIOS_B.deep_view(),
        ],
        Mode::Phrygios => seq![
            PHRYGIOS_D.deep_view(),
            PHRYGIOS_E.deep_view(),
            PHRYGIOS_F.deep_view(),
            PHRYGIOS_G.deep_view(),
            PHRYGIOS_A.deep_view(),
            PHRYGIOS_B.deep_view(),
            PHRYGIOS_C.deep_view(),
        ],
        Mode::Dorios => seq![
            DORIOS_E.deep_view(),
            DORIOS_F.deep_view(),
            DORIOS_G.deep_view(),
            DORIOS_A.deep_view(),
            DORIOS_B.deep_view(),
            DORIOS_C.deep_view(),
            DORIOS_D.deep_view(),
        ],
        Mode::Hypolydios => seq![
            HYPOLYDIOS_F.deep_view(),
            HYPOLYDIOS_G.deep_view(),
            HYPOLYDIOS_A.deep_view(),
            HYPOLYDIOS_B.deep_view(),
            HYPOLYDIOS_C.deep_view(),
            HYPOLYDIOS_D.deep_view(),
            HYPOLYDIOS_E.deep_view(),
        ],
        Mode::Hypophrygios => seq![
            HYPOPHRYGIOS_G.deep_view(),
            HYPOPHRYGIOS_A.deep_view(),
            HYPOPHRYGIOS_B.deep_view(),
            HYPOPHRYGIOS_C.deep_view(),
            HYPOPHRYGIOS_D.deep_view(),
            HYPOPHRYGIOS_E.deep_view(),
            HYPOPHRYGIOS_F.deep_view(),
        ],
    }
}

/// The pattern of `genus`, which starts on C.
pub open spec fn genus_pattern(genus: Genus) -> Seq<Seq<char>> {
    match genus {
        Genus::Diatonic => GENUS_DIATONIC.deep_view(),
        Genus::Chromatic => GENUS_CHROMATIC.deep_view(),
        Genus::Enharmonic => GENUS_ENHARMONIC.deep_view(),
    }
}

/// The seven pentatonic patterns. The first, from F, is the one that is
/// transposed when none starts on the note asked for.
pub open spec fn pentatonic_patterns() -> Seq<Seq<Seq<char>>> {
    seq![
        PENTATONIC_F.deep_view(),
        PENTATONIC_G.deep_view(),
        PENTATONIC_A.deep_view(),
        PENTATONIC_B_FLAT.deep_view(),
        PENTATONIC_C.deep_view(),
        PENTATONIC_D.deep_view(),
        PENTATONIC_E.deep_view(),
    ]
}

/// The double harmonic pattern, which starts on C.
pub open spec fn double_harmonic_pattern() -> Seq<Seq<char>> {
    DOUBLE_HARMONIC.deep_view()
}

/// The phorminx pattern, which starts on A.
pub open spec fn phorminx_pattern() -> Seq<Seq<char>> {
    PHORMINX.deep_view()
}

/// The seven patterns of `mode`.
pub fn mode_rows(mode: Mode) -> (rows: [&'static [&'static str]; 7])
    ensures
        rows.deep_view() == mode_patterns(mode),
{
    match mode {
        Mode::Mixolydios => [
            MIXOLYDIOS_B.as_slice(),
            MIXOLYDIOS_C.as_slice(),
            MIXOLYDIOS_D.as_slice(),
            MIXOLYDIOS_E.as_slice(),
            MIXOLYDIOS_F.as_slice(),
            MIXOLYDIOS_G.as_slice(),
            MIXOLYDIOS_A.as_slice(),
        ],
        Mode::Hypodorios => [
            HYPODORIOS_A.as_slice(),
            HYPODORIOS_B.as_slice(),
            HYPODORIOS_C.as_slice(),
            HYPODORIOS_D.as_slice(),
            HYPODORIOS_E.as_slice(),
            HYPODORIOS_F.as_slice(),
            HYPODORIOS_G.as_slice(),
        ],
        Mode::Lydios => [
            LYDIOS_C.as_slice(),
            LYDIOS_D.as_slice(),
            LYDIOS_E.as_slice(),
            LYDIOS_F.as_slice(),
            LYDIOS_G.as_slice(),
            LYDIOS_A.as_slice(),
            LYDIOS_B.as_slice(),
        ],
        Mode::Phrygios => [
            PHRYGIOS_D.as_slice(),
            PHRYGIOS_E.as_slice(),
            PHRYGIOS_F.as_slice(),
            PHRYGIOS_G.as_slice(),
            PHRYGIOS_A.as_slice(),
            PHRYGIOS_B.as_slice(),
            PHRYGIOS_C.as_slice(),
        ],
        Mode::Dorios => [
            DORIOS_E.as_slice(),
            DORIOS_F.as_slice(),
            DORIOS_G.as_slice(),
            DORIOS_A.as_slice(),
            DORIOS_B.as_slice(),
            DORIOS_C.as_slice(),
            DORIOS_D.as_slice(),
        ],
        Mode::Hypolydios => [
            HYPOLYDIOS_F.as_slice(),
            HYPOLYDIOS_G.as_slice(),
            HYPOLYDIOS_A.as_slice(),
            HYPOLYDIOS_B.as_slice(),
            HYPOLYDIOS_C.as_slice(),
            HYPOLYDIOS_D.as_slice(),
            HYPOLYDIOS_E.as_slice(),
        ],
        Mode::Hypophrygios => [
            HYPOPHRYGIOS_G.as_slice(),
            HYPOPHRYGIOS_A.as_slice(),
            HYPOPHRYGIOS_B.as_slice(),
            HYPOPHRYGIOS_C.as_slice(),
            HYPOPHRYGIOS_D.as_slice(),
            HYPOPHRYGIOS_E.as_slice(),
            HYPOPHRYGIOS_F.as_slice(),
        ],
    }
}

/// The pattern of `genus`.
pub fn genus_row(genus: Genus) -> (row: &'static [&'static str])
    ensures
        row.deep_view() == genus_pattern(genus),
{
    match genus {
        Genus::Diatonic => GENUS_DIATONIC.as_slice(),
        Genus::Chromatic => GENUS_CHROMATIC.as_slice(),
        Genus::Enharmonic => GENUS_ENHARMONIC.as_slice(),
    }
}

/// The seven pentatonic patterns.
pub fn pentatonic_rows() -> (rows: [&'static [&'static str]; 7])
    ensures
        rows.deep_view() == pentatonic_patterns(),
{
    [
        PENTATONIC_F.as_slice(),
        PENTATONIC_G.as_slice(),
        PENTATONIC_A.as_slice(),
        PENTATONIC_B_FLAT.as_slice(),
        PENTATONIC_C.as_slice(),
        PENTATONIC_D.as_slice(),
        PENTATONIC_E.as_slice(),
    ]
}

/// The double harmonic pattern.
pub fn double_harmonic_row() -> (row: &'static [&'static str])
    ensures
        row.deep_view() == double_harmonic_pattern(),
{
    DOUBLE_HARMONIC.as_slice()
}

/// The phorminx pattern.
pub fn phorminx_row() -> (row: &'static [&'static str])
    ensures
        row.deep_view() == phorminx_pattern(),
{
    PHORMINX.as_slice()
}

/// Every genus has one pattern of twenty-four names, which starts on C.
pub proof fn genus_pattern_shape(genus: Genus)
    ensures
        genus_pattern(genus).len() == 24,
        genus_pattern(genus)[0] == "C"@,
{
}

/// Every mode has seven patterns, none of them empty.
pub proof fn mode_patterns_shape(mode: Mode)
    ensures
        mode_patterns(mode).len() == 7,
        forall|k: int| 0 <= k < 7 ==> 22 <= (#[trigger] mode_patterns(mode)[k]).len() <= 24,
{
}

} // verus!
