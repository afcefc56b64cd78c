//! What the player chooses, and what follows from a choice: the request
//! for a scale, the notes offered as its start, and the string that the
//! sound is nearest to.

use vstd::prelude::*;
use vstd::string::*;
use crate::patterns::{Genus, Mode, ScaleType};
use crate::pitch::FIRST_NOTE_NAMES;
use crate::scales::{
    default_mode, default_zoom_percent, entry_frequencies, entry_names, get_string_count_defaults,
    scale_notes, ScaleData,
};
use crate::temperament::Temperament;
use crate::text::contains_char;

verus! {

/// The fewest strings an instrument has.
pub const MIN_STRINGS: usize = 4;

/// The most strings an instrument has.
pub const MAX_STRINGS: usize = 24;

/// The lowest shift of a scale, in octaves.
pub const MIN_OCTAVE_OFFSET: i32 = -3;

/// The highest shift of a scale, in octaves.
pub const MAX_OCTAVE_OFFSET: i32 = 3;

/// Which notes are offered as the start of a scale.
#[derive(Debug, Clone, Copy, PartialEq, Eq, Structural)]
pub enum NoteFilter {
    TonesOnly,
    TonesAndSemitones,
    All,
}

impl NoteFilter {
    /// Whether the filter lets `name` through: tones carry no marker,
    /// semitones no quarter-tone marker.
    pub open spec fn admits(self, name: Seq<char>) -> bool {
        match self {
            NoteFilter::TonesOnly => !name.contains('#') && !name.contains('*'),
            NoteFilter::TonesAndSemitones => !name.contains('*'),
            NoteFilter::All => true,
        }
    }

    /// Whether the filter lets the note `name` through.
    pub fn allows(self, name: &str) -> (shown: bool)
        ensures
            shown == self.admits(name@),
    {
        match self {
            NoteFilter::TonesOnly => !contains_char(name, '#') && !contains_char(name, '*'),
            NoteFilter::TonesAndSemitones => !contains_char(name, '*'),
            NoteFilter::All => true,
        }
    }

    /// The notes that are offered as the start of a scale, in rising order.
    pub fn first_notes(self) -> (names: Vec<&'static str>)
        ensures
            names@ == FIRST_NOTE_NAMES@.filter(|name: &'static str| self.admits(name@)),
    {
        let all: [&'static str; 24] = FIRST_NOTE_NAMES;
        let ghost keep = |name: &'static str| self.admits(name@);
        let mut names: Vec<&'static str> = Vec::new();
        let mut i: usize = 0;
        proof {
            reveal(Seq::filter);
        }
        while i < 24
            invariant
                i <= 24,
                all == FIRST_NOTE_NAMES,
                keep == (|name: &'static str| self.admits(name@)),
                names@ == all@.take(i as int).filter(keep),
            decreases 24 - i,
        {
            let name: &'static str = all[i];
            proof {
                reveal(Seq::filter);
                assert(all@.take(i + 1).drop_last() =~= all@.take(i as int));
            }
            if self.allows(name) {
                names.push(name);
            }
            i += 1;
        }
        proof {
            assert(all@.take(24) =~= all@);
        }
        names
    }
}

/// Whether `index` is the entry nearest to the sound: the first among the
/// entries that lie at the least distance.
pub open spec fn is_closest(distances: Seq<i32>, index: int) -> bool {
    &&& 0 <= index < distances.len()
    &&& forall|j: int| 0 <= j < distances.len() ==> distances[index] <= distances[j]
    &&& forall|j: int| 0 <= j < index ==> distances[index] < distances[j]
}

/// Only one entry is the nearest.
pub proof fn closest_is_unique(distances: Seq<i32>, a: int, b: int)
    requires
        is_closest(distances, a),
        is_closest(distances, b),
    ensures
        a == b,
{
    if a < b {
        assert(distances[b] < distances[a]);
    } else if b < a {
        assert(distances[a] < distances[b]);
    }
}

/// Finds the entry of a scale that the sound is nearest to, given the
/// distance of the sound from each entry. A scale without entries has none.
pub fn find_closest_note(distances: &[i32]) -> (closest: Option<usize>)
    ensures
        distances.len() == 0 <==> closest is None,
        closest matches Some(index) ==> is_closest(distances@, index as int),
{
    if distances.len() == 0 {
        return None;
    }
    let mut index: usize = 0;
    let mut i: usize = 1;
    while i < distances.len()
        invariant
            index < i <= distances.len(),
            forall|j: int| 0 <= j < i ==> distances[index as int] <= distances[j],
            forall|j: int| 0 <= j < index ==> distances[index as int] < distances[j],
        decreases distances.len() - i,
    {
        if distances[i] < distances[index] {
            index = i;
        }
        i += 1;
    }
    Some(index)
}

/// A request for a scale.
pub struct ScaleRequest {
    /// The number of strings, and so of entries.
    pub num_strings: usize,
    /// The note the scale starts on.
    pub first_note: String,
    /// The family of the scale.
    pub scale_type: ScaleType,
    /// The mode, which counts for the modes only.
    pub mode: Mode,
    /// The genus, which counts for the genera only.
    pub genus: Genus,
    /// The tuning system.
    pub temperament: Temperament,
    /// Octaves by which the scale is shifted.
    pub octave_offset: i32,
}

impl ScaleRequest {
    /// The request an instrument starts with: seven strings from E, in the
    /// mode that suits seven strings, in the historical just system.
    pub fn new() -> (request: Self)
        ensures
            request.num_strings == 7,
            request.first_note@ == "E"@,
            request.scale_type == ScaleType::Modes,
            request.mode == default_mode(7),
            request.genus == Genus::Diatonic,
            request.temperament == Temperament::JustAncient,
            request.octave_offset == 0,
    {
        let (mode, _zoom) = get_string_count_defaults(7);
        ScaleRequest {
            num_strings: 7,
            first_note: String::from_str("E"),
            scale_type: ScaleType::Modes,
            mode,
            genus: Genus::Diatonic,
            temperament: Temperament::JustAncient,
            octave_offset: 0,
        }
    }

    /// Sets the number of strings. The mode becomes the one that suits the
    /// number, and a phorminx, which has four strings, gives way to the
    /// modes for any other number. Returns the zoom that suits the number,
    /// in hundredths.
    pub fn set_num_strings(&mut self, num_strings: usize) -> (zoom_percent: u32)
        ensures
            zoom_percent == default_zoom_percent(num_strings as int),
            final(self).num_strings == num_strings,
            final(self).mode == default_mode(num_strings as int),
            final(self).scale_type == if num_strings != 4 && old(self).scale_type
                == ScaleType::Phorminx {
                ScaleType::Modes
            } else {
                old(self).scale_type
            },
            final(self).first_note == old(self).first_note,
            final(self).genus == old(self).genus,
            final(self).temperament == old(self).temperament,
            final(self).octave_offset == old(self).octave_offset,
    {
        let (mode, zoom_percent) = get_string_count_defaults(num_strings);
        self.num_strings = num_strings;
        self.mode = mode;
        if num_strings != 4 {
            match self.scale_type {
                ScaleType::Phorminx => {
                    self.scale_type = ScaleType::Modes;
                },
                _ => {},
            }
        }
        zoom_percent
    }

    /// Generates the scale that the request describes.
    pub fn generate(&self) -> (data: ScaleData)
        ensures
            data.notes.deep_view() == entry_names(
                scale_notes(self.scale_type, Some(self.mode), Some(self.genus), self.first_note@),
                self.octave_offset + 4,
                self.num_strings as int,
            ),
            data.frequencies@ == entry_frequencies(
                scale_notes(self.scale_type, Some(self.mode), Some(self.genus), self.first_note@),
                self.temperament,
                self.octave_offset + 4,
                self.num_strings as int,
            ),
            data.well_formed(),
    {
        ScaleData::new(
            self.scale_type,
            Some(self.mode),
            Some(self.genus),
            self.first_note.as_str(),
            self.num_strings,
            self.temperament,
            self.octave_offset,
        )
    }
}

impl Default for ScaleRequest {
    fn default() -> (request: Self)
        ensures
            request.num_strings == 7,
            request.first_note@ == "E"@,
            request.scale_type == ScaleType::Modes,
            request.mode == default_mode(7),
            request.genus == Genus::Diatonic,
            request.temperament == Temperament::JustAncient,
            request.octave_offset == 0,
    {
        ScaleRequest::new()
    }
}

} // verus!
