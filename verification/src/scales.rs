//! Scale generation: the notes of a scale, their octaves and their
//! frequencies.
//!
//! A scale is asked for by its family, its first note, the number of
//! strings, a temperament and a shift in octaves. Its notes are read from
//! the pattern of the family that starts on the first note or, where no
//! pattern does, from the family's first pattern, transposed. Octaves are
//! then assigned along the notes, and each note gets its name with the
//! octave and its frequency. The entries are never sorted: the first entry
//! is the note that was asked for, even where a later one sounds lower.

use vstd::prelude::*;
use vstd::string::*;
use crate::patterns::{
    double_harmonic_pattern, double_harmonic_row, genus_pattern, genus_pattern_shape, genus_row,
    mode_patterns, mode_patterns_shape, mode_rows, pentatonic_patterns, pentatonic_rows,
    phorminx_pattern, phorminx_row,
};
pub use crate::patterns::{Genus, Mode, ScaleType};
use crate::pitch::{is_first_note_name, letter_semitone, letter_to_semitone};
use crate::temperament::{frequency_in_octave, frequency_of};
pub use crate::temperament::{Frequency, Ratio, Temperament};
use crate::text::{append_decimal, decimal, first_char_or, first_or, same_text};
use crate::transpose::{transposed, transposed_start};
pub use crate::transpose::{copy_scale, transpose_scale};

verus! {

/// Whether `pattern` starts on `name`.
pub open spec fn starts_on(pattern: Seq<Seq<char>>, name: Seq<char>) -> bool {
    pattern.len() > 0 && pattern[0] == name
}

/// The index of the first of `patterns`, at or after `from`, that starts on
/// `name`; the number of patterns where none does.
pub open spec fn first_starting_on(patterns: Seq<Seq<Seq<char>>>, name: Seq<char>, from: int) -> int
    decreases patterns.len() - from,
{
    if from < 0 || from >= patterns.len() {
        patterns.len() as int
    } else if starts_on(patterns[from], name) {
        from
    } else {
        first_starting_on(patterns, name, from + 1)
    }
}

/// The scale that a family of patterns gives from `first_note`: the first
/// pattern that starts on that very name or, where none does, the first
/// pattern of all, moved from `base_note` to `first_note`.
pub open spec fn pattern_scale(
    patterns: Seq<Seq<Seq<char>>>,
    base_note: Seq<char>,
    first_note: Seq<char>,
) -> Seq<Seq<char>> {
    let found = first_starting_on(patterns, first_note, 0);
    if found < patterns.len() {
        patterns[found]
    } else {
        transposed(patterns[0], base_note, first_note)
    }
}

/// The notes of `mode` from `first_note`.
pub open spec fn mode_scale(mode: Mode, first_note: Seq<char>) -> Seq<Seq<char>> {
    pattern_scale(mode_patterns(mode), mode_patterns(mode)[0][0], first_note)
}

/// The notes of `genus` from `first_note`.
pub open spec fn genus_scale(genus: Genus, first_note: Seq<char>) -> Seq<Seq<char>> {
    transposed(genus_pattern(genus), "C"@, first_note)
}

/// The name under which the pentatonic patterns are searched: B stands for B flat.
pub open spec fn pentatonic_start(first_note: Seq<char>) -> Seq<char> {
    if first_note == "B"@ {
        "Bb"@
    } else {
        first_note
    }
}

/// The notes of the pentatonic scale from `first_note`.
pub open spec fn pentatonic_scale(first_note: Seq<char>) -> Seq<Seq<char>> {
    pattern_scale(pentatonic_patterns(), "F"@, pentatonic_start(first_note))
}

/// The notes of the double harmonic scale from `first_note`.
pub open spec fn double_harmonic_scale(first_note: Seq<char>) -> Seq<Seq<char>> {
    transposed(double_harmonic_pattern(), "C"@, first_note)
}

/// The four notes of the phorminx from `first_note`.
pub open spec fn phorminx_scale(first_note: Seq<char>) -> Seq<Seq<char>> {
    transposed(phorminx_pattern(), "A"@, first_note)
}

/// The mode that is taken where none is given.
pub open spec fn mode_or_default(mode: Option<Mode>) -> Mode {
    match mode {
        Some(mode) => mode,
        None => Mode::Hypophrygios,
    }
}

/// The genus that is taken where none is given.
pub open spec fn genus_or_default(genus: Option<Genus>) -> Genus {
    match genus {
        Some(genus) => genus,
        None => Genus::Diatonic,
    }
}

/// The notes of the scale that is asked for, before octaves are assigned.
/// The mode counts only for the modes, the genus only for the genera.
pub open spec fn scale_notes(
    scale_type: ScaleType,
    mode: Option<Mode>,
    genus: Option<Genus>,
    first_note: Seq<char>,
) -> Seq<Seq<char>> {
    match scale_type {
        ScaleType::Modes => mode_scale(mode_or_default(mode), first_note),
        ScaleType::Genres => genus_scale(genus_or_default(genus), first_note),
        ScaleType::Pentatonic => pentatonic_scale(first_note),
        ScaleType::DoubleHarmonic => double_harmonic_scale(first_note),
        ScaleType::Phorminx => phorminx_scale(first_note),
    }
}

/// The octave in which a scale starts when it is not shifted.
pub const BASE_OCTAVE: i32 = 4;

/// Whether the octave number rises between a note that starts with the
/// letter `previous` and the next, which starts with `current`: from B to C,
/// and wherever the natural note falls by more than six semitones.
pub open spec fn crosses_octave(previous: char, current: char) -> bool {
    (previous == 'B' && current == 'C') || (letter_semitone(current) < letter_semitone(previous)
        && letter_semitone(previous) - letter_semitone(current) > 6)
}

/// The octave of entry `i` of `notes`, where the first entry is in
/// `base_octave`: one more for every boundary crossed on the way to it.
pub open spec fn octave_of_entry(notes: Seq<Seq<char>>, base_octave: int, i: int) -> int
    decreases i,
{
    if i <= 0 {
        base_octave
    } else {
        octave_of_entry(notes, base_octave, i - 1) + if crosses_octave(
            first_or(notes[i - 1], 'C'),
            first_or(notes[i], 'C'),
        ) {
            1int
        } else {
            0int
        }
    }
}

/// How many entries a scale has: one for each string, as far as the notes reach.
pub open spec fn entry_count(notes: Seq<Seq<char>>, num_strings: int) -> int {
    if num_strings < notes.len() {
        num_strings
    } else {
        notes.len() as int
    }
}

/// The names of the entries: each note followed by the number of its octave.
pub open spec fn entry_names(notes: Seq<Seq<char>>, base_octave: int, num_strings: int) -> Seq<
    Seq<char>,
> {
    Seq::new(
        entry_count(notes, num_strings) as nat,
        |i: int| notes[i] + decimal(octave_of_entry(notes, base_octave, i)),
    )
}

/// The frequencies of the entries, each in the octave assigned to it.
pub open spec fn entry_frequencies(
    notes: Seq<Seq<char>>,
    temperament: Temperament,
    base_octave: int,
    num_strings: int,
) -> Seq<Frequency> {
    Seq::new(
        entry_count(notes, num_strings) as nat,
        |i: int| frequency_of(notes[i], octave_of_entry(notes, base_octave, i), temperament),
    )
}

/// The mode that suits an instrument of `strings` strings.
pub open spec fn default_mode(strings: int) -> Mode {
    if strings == 4 || strings == 7 || strings == 9 {
        Mode::Dorios
    } else if strings == 8 {
        Mode::Hypolydios
    } else if strings == 10 {
        Mode::Phrygios
    } else if strings == 11 {
        Mode::Lydios
    } else if strings == 12 {
        Mode::Mixolydios
    } else if strings == 13 || strings == 24 {
        Mode::Hypodorios
    } else {
        Mode::Hypophrygios
    }
}

/// The zoom of the display that suits `strings` strings, in hundredths:
/// 200 for eight strings, 150 for nine, ten and eleven, 100 for any other number.
pub open spec fn default_zoom_percent(strings: int) -> int {
    if strings == 8 {
        200
    } else if 9 <= strings <= 11 {
        150
    } else {
        100
    }
}

/// The name on which the scale of `scale_type` starts when `first_note` is
/// asked for: the note itself, but B flat for a pentatonic scale from B.
pub open spec fn starting_name(scale_type: ScaleType, first_note: Seq<char>) -> Seq<char> {
    if scale_type == ScaleType::Pentatonic {
        pentatonic_start(first_note)
    } else {
        first_note
    }
}

/// The notes and frequencies of a scale, entry by entry.
pub struct ScaleData {
    /// The name of each entry: the note and the number of its octave.
    pub notes: Vec<String>,
    /// The frequency of each entry.
    pub frequencies: Vec<Frequency>,
}

impl ScaleData {
    /// Whether every entry has both a name and a frequency within one octave's ratio.
    pub open spec fn well_formed(&self) -> bool {
        &&& self.notes.len() == self.frequencies.len()
        &&& forall|i: int|
            0 <= i < self.frequencies.len() ==> (#[trigger] self.frequencies[i]).well_formed()
    }

    /// Generates the scale that is asked for: the notes of the family from
    /// `first_note`, cut to `num_strings` entries, each with its octave and
    /// its frequency under `temperament`. Nothing is sorted: the entries
    /// stand in the order of the pattern.
    pub fn new(
        scale_type: ScaleType,
        mode: Option<Mode>,
        genus: Option<Genus>,
        first_note: &str,
        num_strings: usize,
        temperament: Temperament,
        octave_offset: i32,
    ) -> (data: Self)
        ensures
            data.notes.deep_view() == entry_names(
                scale_notes(scale_type, mode, genus, first_note@),
                octave_offset + 4,
                num_strings as int,
            ),
            data.frequencies@ == entry_frequencies(
                scale_notes(scale_type, mode, genus, first_note@),
                temperament,
                octave_offset + 4,
                num_strings as int,
            ),
            data.well_formed(),
            data.notes.len() <= num_strings,
            data.notes.len() <= 24,
            scale_type == ScaleType::Genres && num_strings >= 24 ==> data.notes.len() == 24,
            is_first_note_name(first_note@) && num_strings > 0 ==> data.notes.len() > 0
                && data.notes[0]@ == starting_name(scale_type, first_note@) + decimal(
                octave_offset + 4,
            ),
    {
        let scale_notes: Vec<String> = get_scale_notes(scale_type, mode, genus, first_note);
        let pattern: &[String] = scale_notes.as_slice();
        proof {
            scale_notes_length(scale_type, mode, genus, first_note@);
        }
        let (notes, frequencies) = calculate_frequencies_with_octaves(
            pattern,
            temperament,
            octave_offset,
            num_strings,
        );
        assert(notes.deep_view().len() == notes.len());
        proof {
            if is_first_note_name(first_note@) && num_strings > 0 {
                first_entry_names_requested_note(
                    scale_type,
                    mode,
                    genus,
                    first_note@,
                    num_strings,
                    octave_offset,
                );
                assert(notes.deep_view()[0] == notes[0]@);
            }
        }
        ScaleData { notes, frequencies }
    }
}

/// Picks from `rows` the scale that starts on `first_note`, or moves the
/// first row from `base_note` to `first_note` where none does.
fn scale_from_rows(rows: &[&'static [&'static str]; 7], base_note: &str, first_note: &str) -> (result:
    Vec<String>)
    ensures
        result.deep_view() == pattern_scale(rows.deep_view(), base_note@, first_note@),
{
    let ghost patterns = rows.deep_view();
    let mut k: usize = 0;
    while k < 7
        invariant
            k <= 7,
            patterns == rows.deep_view(),
            patterns.len() == 7,
            first_starting_on(patterns, first_note@, 0) == first_starting_on(
                patterns,
                first_note@,
                k as int,
            ),
        decreases 7 - k,
    {
        let row: &[&str] = rows[k];
        if row.len() > 0 && same_text(row[0], first_note) {
            return copy_scale(row);
        }
        assert(!starts_on(patterns[k as int], first_note@));
        k += 1;
    }
    let base: &[&str] = rows[0];
    transpose_scale(base, base_note, first_note)
}

/// The notes of `mode` from `first_note`.
pub fn get_mode_scale(mode: Mode, first_note: &str) -> (result: Vec<String>)
    ensures
        result.deep_view() == mode_scale(mode, first_note@),
{
    let rows: [&'static [&'static str]; 7] = mode_rows(mode);
    let base: &[&str] = rows[0];
    proof {
        mode_patterns_shape(mode);
    }
    scale_from_rows(&rows, base[0], first_note)
}

/// The notes of `genus` from `first_note`: twenty-four names, the first of
/// them the note that was asked for.
pub fn get_genus_scale(genus: Genus, first_note: &str) -> (result: Vec<String>)
    ensures
        result.deep_view() == genus_scale(genus, first_note@),
        result.len() == 24,
        is_first_note_name(first_note@) ==> result[0]@ == first_note@,
{
    proof {
        genus_scale_shape(genus, first_note@);
    }
    let result: Vec<String> = transpose_scale(genus_row(genus), "C", first_note);
    assert(result.deep_view()[0] == result[0]@);
    result
}

/// The notes of the pentatonic scale from `first_note`.
pub fn get_pentatonic_scale(first_note: &str) -> (result: Vec<String>)
    ensures
        result.deep_view() == pentatonic_scale(first_note@),
{
    let lookup_note: &str = if same_text(first_note, "B") {
        "Bb"
    } else {
        first_note
    };
    let rows: [&'static [&'static str]; 7] = pentatonic_rows();
    scale_from_rows(&rows, "F", lookup_note)
}

/// The notes of the double harmonic scale from `first_note`.
pub fn get_double_harmonic_scale(first_note: &str) -> (result: Vec<String>)
    ensures
        result.deep_view() == double_harmonic_scale(first_note@),
        result.len() == 24,
{
    transpose_scale(double_harmonic_row(), "C", first_note)
}

/// The four notes of the phorminx from `first_note`.
pub fn get_phorminx_scale(first_note: &str) -> (result: Vec<String>)
    ensures
        result.deep_view() == phorminx_scale(first_note@),
        result.len() == 4,
{
    transpose_scale(phorminx_row(), "A", first_note)
}

/// The notes of the scale that is asked for, before octaves are assigned.
pub fn get_scale_notes(
    scale_type: ScaleType,
    mode: Option<Mode>,
    genus: Option<Genus>,
    first_note: &str,
) -> (result: Vec<String>)
    ensures
        result.deep_view() == scale_notes(scale_type, mode, genus, first_note@),
        4 <= result.len() <= 24,
        scale_type == ScaleType::Genres ==> result.len() == 24,
        is_first_note_name(first_note@) ==> result[0]@ == starting_name(scale_type, first_note@),
{
    proof {
        scale_notes_length(scale_type, mode, genus, first_note@);
        if is_first_note_name(first_note@) {
            scale_starts_on_requested_note(scale_type, mode, genus, first_note@);
        }
    }
    let result: Vec<String> = scale_notes_of(scale_type, mode, genus, first_note);
    assert(result.deep_view().len() == result.len());
    assert(result.deep_view()[0] == result[0]@);
    result
}

fn scale_notes_of(
    scale_type: ScaleType,
    mode: Option<Mode>,
    genus: Option<Genus>,
    first_note: &str,
) -> (result: Vec<String>)
    ensures
        result.deep_view() == scale_notes(scale_type, mode, genus, first_note@),
{
    match scale_type {
        ScaleType::Modes => {
            let mode: Mode = match mode {
                Some(mode) => mode,
                None => Mode::Hypophrygios,
            };
            get_mode_scale(mode, first_note)
        },
        ScaleType::Genres => {
            let genus: Genus = match genus {
                Some(genus) => genus,
                None => Genus::Diatonic,
            };
            get_genus_scale(genus, first_note)
        },
        ScaleType::Pentatonic => get_pentatonic_scale(first_note),
        ScaleType::DoubleHarmonic => get_double_harmonic_scale(first_note),
        ScaleType::Phorminx => get_phorminx_scale(first_note),
    }
}

/// Whether the octave number rises between `previous` and `current`.
pub fn crosses_octave_boundary(previous: char, current: char) -> (crosses: bool)
    ensures
        crosses == crosses_octave(previous, current),
{
    if previous == 'B' && current == 'C' {
        true
    } else {
        let last_semitone: i64 = letter_to_semitone(previous);
        let current_semitone: i64 = letter_to_semitone(current);
        current_semitone < last_semitone && last_semitone - current_semitone > 6
    }
}

/// Assigns octaves to the first `num_strings` of `notes`, starting four
/// octaves above `octave_offset`, and gives each entry its name and its
/// frequency. The entries keep the order of `notes`.
pub fn calculate_frequencies_with_octaves(
    notes: &[String],
    temperament: Temperament,
    octave_offset: i32,
    num_strings: usize,
) -> (result: (Vec<String>, Vec<Frequency>))
    requires
        notes.len() <= 0x7fff_ffff || num_strings <= 0x7fff_ffff,
    ensures
        result.0.deep_view() == entry_names(
            notes.deep_view(),
            octave_offset + 4,
            num_strings as int,
        ),
        result.1@ == entry_frequencies(
            notes.deep_view(),
            temperament,
            octave_offset + 4,
            num_strings as int,
        ),
        forall|i: int| 0 <= i < result.1.len() ==> (#[trigger] result.1[i]).well_formed(),
{
    let ghost names = notes.deep_view();
    let ghost base = octave_offset + 4;
    let count: usize = if num_strings < notes.len() {
        num_strings
    } else {
        notes.len()
    };
    let mut notes_with_octaves: Vec<String> = Vec::new();
    let mut frequencies: Vec<Frequency> = Vec::new();
    let mut current_octave: i64 = octave_offset as i64 + BASE_OCTAVE as i64;
    let mut last_note_base: char = 'C';
    let mut i: usize = 0;
    while i < count
        invariant
            i <= count,
            count <= notes.len(),
            count <= 0x7fff_ffff,
            count == entry_count(names, num_strings as int),
            names == notes.deep_view(),
            base == octave_offset + 4,
            notes_with_octaves.len() == i,
            frequencies.len() == i,
            i > 0 ==> last_note_base == first_or(names[i - 1], 'C'),
            i > 0 ==> current_octave == octave_of_entry(names, base, i - 1),
            i == 0 ==> current_octave == base,
            base <= current_octave <= base + i,
            forall|j: int|
                0 <= j < i ==> (#[trigger] notes_with_octaves[j])@ == names[j] + decimal(
                    octave_of_entry(names, base, j),
                ),
            forall|j: int|
                0 <= j < i ==> #[trigger] frequencies[j] == frequency_of(
                    names[j],
                    octave_of_entry(names, base, j),
                    temperament,
                ),
            forall|j: int| 0 <= j < i ==> (#[trigger] frequencies[j]).well_formed(),
        decreases count - i,
    {
        let note: &str = notes[i].as_str();
        let note_base: char = first_char_or(note, 'C');
        if i > 0 && crosses_octave_boundary(last_note_base, note_base) {
            current_octave += 1;
        }
        last_note_base = note_base;
        let frequency: Frequency = frequency_in_octave(note, temperament, current_octave);
        let mut note_with_octave: String = String::from_str(note);
        append_decimal(&mut note_with_octave, current_octave);
        notes_with_octaves.push(note_with_octave);
        frequencies.push(frequency);
        i += 1;
    }
    (notes_with_octaves, frequencies)
}

/// The mode and the zoom, in hundredths, that are set when the number of
/// strings is chosen.
pub fn get_string_count_defaults(strings: usize) -> (defaults: (Mode, u32))
    ensures
        defaults.0 == default_mode(strings as int),
        defaults.1 == default_zoom_percent(strings as int),
{
    match strings {
        4 => (Mode::Dorios, 100),
        7 => (Mode::Dorios, 100),
        8 => (Mode::Hypolydios, 200),
        9 => (Mode::Dorios, 150),
        10 => (Mode::Phrygios, 150),
        11 => (Mode::Lydios, 150),
        12 => (Mode::Mixolydios, 100),
        13 => (Mode::Hypodorios, 100),
        24 => (Mode::Hypodorios, 100),
        _ => (Mode::Hypophrygios, 100),
    }
}

/// What `first_starting_on` finds: an index from `from` on, with no pattern
/// before it that starts on `name`, and a pattern at it that does.
pub proof fn first_starting_on_found(patterns: Seq<Seq<Seq<char>>>, name: Seq<char>, from: int)
    requires
        0 <= from <= patterns.len(),
    ensures
        from <= first_starting_on(patterns, name, from) <= patterns.len(),
        first_starting_on(patterns, name, from) < patterns.len() ==> starts_on(
            patterns[first_starting_on(patterns, name, from)],
            name,
        ),
        forall|k: int|
            from <= k < first_starting_on(patterns, name, from) ==> !starts_on(
                #[trigger] patterns[k],
                name,
            ),
    decreases patterns.len() - from,
{
    if from < patterns.len() && !starts_on(patterns[from], name) {
        first_starting_on_found(patterns, name, from + 1);
    }
}

/// How many notes a scale has before it is cut to the strings: four for
/// the phorminx, twenty-four for a genus, the pentatonic and the double
/// harmonic scale, and twenty-two to twenty-four for a mode.
pub proof fn scale_notes_length(
    scale_type: ScaleType,
    mode: Option<Mode>,
    genus: Option<Genus>,
    first_note: Seq<char>,
)
    ensures
        4 <= scale_notes(scale_type, mode, genus, first_note).len() <= 24,
        scale_type == ScaleType::Phorminx ==> scale_notes(
            scale_type,
            mode,
            genus,
            first_note,
        ).len() == 4,
        scale_type == ScaleType::Genres || scale_type == ScaleType::Pentatonic || scale_type
            == ScaleType::DoubleHarmonic ==> scale_notes(
            scale_type,
            mode,
            genus,
            first_note,
        ).len() == 24,
        scale_type == ScaleType::Modes ==> scale_notes(scale_type, mode, genus, first_note).len()
            >= 22,
{
    match scale_type {
        ScaleType::Modes => {
            let patterns = mode_patterns(mode_or_default(mode));
            mode_patterns_shape(mode_or_default(mode));
            first_starting_on_found(patterns, first_note, 0);
        },
        ScaleType::Genres => {
            genus_pattern_shape(genus_or_default(genus));
        },
        ScaleType::Pentatonic => {
            first_starting_on_found(pentatonic_patterns(), pentatonic_start(first_note), 0);
        },
        ScaleType::DoubleHarmonic => {},
        ScaleType::Phorminx => {},
    }
}

/// The scale of a genus has twenty-four notes from whatever note it is
/// taken, and starts on that note where it is one of the twenty-four names
/// a scale may start on.
pub proof fn genus_scale_shape(genus: Genus, first_note: Seq<char>)
    ensures
        genus_scale(genus, first_note).len() == 24,
        is_first_note_name(first_note) ==> genus_scale(genus, first_note)[0] == first_note,
        forall|num_strings: int|
            num_strings >= 24 ==> #[trigger] entry_count(
                genus_scale(genus, first_note),
                num_strings,
            ) == 24,
{
    genus_pattern_shape(genus);
    if is_first_note_name(first_note) {
        transposed_start(genus_pattern(genus), "C"@, first_note);
    }
}

/// Among a family of patterns, the scale from a canonically spelled note starts on that note.
proof fn pattern_scale_start(
    patterns: Seq<Seq<Seq<char>>>,
    base_note: Seq<char>,
    to: Seq<char>,
)
    requires
        patterns.len() > 0,
        patterns[0].len() > 0,
        patterns[0][0] == base_note,
        is_first_note_name(to),
    ensures
        pattern_scale(patterns, base_note, to).len() > 0,
        pattern_scale(patterns, base_note, to)[0] == to,
{
    first_starting_on_found(patterns, to, 0);
    if first_starting_on(patterns, to, 0) >= patterns.len() {
        transposed_start(patterns[0], base_note, to);
    }
}

/// The first note of a scale is the note that was asked for, markers
/// included, for each of the twenty-four names a scale may start on; only
/// the pentatonic scale from B starts on B flat.
pub proof fn scale_starts_on_requested_note(
    scale_type: ScaleType,
    mode: Option<Mode>,
    genus: Option<Genus>,
    first_note: Seq<char>,
)
    requires
        is_first_note_name(first_note),
    ensures
        scale_notes(scale_type, mode, genus, first_note).len() > 0,
        scale_notes(scale_type, mode, genus, first_note)[0] == starting_name(
            scale_type,
            first_note,
        ),
{
    match scale_type {
        ScaleType::Modes => {
            let patterns = mode_patterns(mode_or_default(mode));
            mode_patterns_shape(mode_or_default(mode));
            pattern_scale_start(patterns, patterns[0][0], first_note);
        },
        ScaleType::Genres => {
            transposed_start(genus_pattern(genus_or_default(genus)), "C"@, first_note);
        },
        ScaleType::Pentatonic => {
            let patterns = pentatonic_patterns();
            if first_note == "B"@ {
                first_starting_on_found(patterns, "Bb"@, 0);
            } else {
                pattern_scale_start(patterns, "F"@, first_note);
            }
        },
        ScaleType::DoubleHarmonic => {
            transposed_start(double_harmonic_pattern(), "C"@, first_note);
        },
        ScaleType::Phorminx => {
            transposed_start(phorminx_pattern(), "A"@, first_note);
        },
    }
}

/// The first entry of a generated scale is named after the note that was
/// asked for, followed by the number of the octave the scale starts in.
pub proof fn first_entry_names_requested_note(
    scale_type: ScaleType,
    mode: Option<Mode>,
    genus: Option<Genus>,
    first_note: Seq<char>,
    num_strings: usize,
    octave_offset: i32,
)
    requires
        is_first_note_name(first_note),
        num_strings > 0,
    ensures
        entry_names(
            scale_notes(scale_type, mode, genus, first_note),
            octave_offset + 4,
            num_strings as int,
        ).len() > 0,
        entry_names(
            scale_notes(scale_type, mode, genus, first_note),
            octave_offset + 4,
            num_strings as int,
        )[0] == starting_name(scale_type, first_note) + decimal(octave_offset + 4),
{
    scale_starts_on_requested_note(scale_type, mode, genus, first_note);
}

} // verus!
