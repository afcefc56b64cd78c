//! Pitch classes: note names, their position within the octave in
//! quarter-tones, and the canonical spelling of each position.
//!
//! A note name is a letter from C to B followed by any of the markers `#`
//! (sharp, one semitone up), `b` (flat, one semitone down) and `*`
//! (quarter-tone, half a semitone up). Positions are counted in
//! quarter-tones, so that every name has an integer position.

use vstd::prelude::*;
use vstd::string::*;
use crate::text::{contains_char, first_char_or, first_or, same_text};

verus! {

/// The twelve semitones of the octave from C, spelled with sharps.
pub const SHARP_NAMES: [&'static str; 12] = [
    "C", "C#", "D", "D#", "E", "F", "F#", "G", "G#", "A", "A#", "B",
];

/// The names a scale may be asked to start on, in rising order from C.
pub const FIRST_NOTE_NAMES: [&'static str; 24] = [
    "C", "C*", "C#", "C#*", "D", "D*", "D#", "D#*", "E", "E*", "F", "F*",
    "F#", "F#*", "G", "G*", "G#", "G#*", "A", "A*", "A#", "A#*", "B", "B*",
];

/// Semitones from C up to the natural note `letter`; any other character counts as C.
pub open spec fn letter_semitone(letter: char) -> int {
    if letter == 'D' {
        2
    } else if letter == 'E' {
        4
    } else if letter == 'F' {
        5
    } else if letter == 'G' {
        7
    } else if letter == 'A' {
        9
    } else if letter == 'B' {
        11
    } else {
        0
    }
}

/// Semitones from A to the natural note `letter` of the same octave, which
/// begins at C; any other character counts as A.
pub open spec fn letter_offset_from_a(letter: char) -> int {
    if letter == 'C' {
        -9
    } else if letter == 'D' {
        -7
    } else if letter == 'E' {
        -5
    } else if letter == 'F' {
        -4
    } else if letter == 'G' {
        -2
    } else if letter == 'B' {
        2
    } else {
        0
    }
}

/// What the markers of `name` add to its letter, in quarter-tones. Each
/// marker counts once, however often it is written.
pub open spec fn marker_quarters(name: Seq<char>) -> int {
    (if name.contains('#') { 2int } else { 0 })
    - (if name.contains('b') { 2int } else { 0 })
    + (if name.contains('*') { 1int } else { 0 })
}

/// The position of `name` in quarter-tones above C. An empty name, or one
/// that starts with no note letter, is read as C with the markers it holds.
#[verifier::opaque]
pub open spec fn quarter_position(name: Seq<char>) -> int {
    2 * letter_semitone(first_or(name, 'C')) + marker_quarters(name)
}

/// The spelling of position `q`, for `0 <= q < 24`: the sharp name of the
/// semitone, followed by `*` on the odd positions.
#[verifier::opaque]
pub open spec fn canonical_name(q: int) -> Seq<char> {
    if q % 2 == 1 {
        SHARP_NAMES@[q / 2]@ + seq!['*']
    } else {
        SHARP_NAMES@[q / 2]@
    }
}

/// Whether `name` is one of the twenty-four names a scale may start on.
pub open spec fn is_first_note_name(name: Seq<char>) -> bool {
    exists|q: int| 0 <= q < 24 && name == #[trigger] canonical_name(q)
}

/// Semitones from C up to the natural note `letter`.
pub fn letter_to_semitone(letter: char) -> (semitone: i64)
    ensures
        semitone == letter_semitone(letter),
{
    match letter {
        'D' => 2,
        'E' => 4,
        'F' => 5,
        'G' => 7,
        'A' => 9,
        'B' => 11,
        _ => 0,
    }
}

/// What the markers of `name` add to its letter, in quarter-tones.
pub fn note_marker_quarters(name: &str) -> (quarters: i64)
    ensures
        quarters == marker_quarters(name@),
{
    let mut quarters: i64 = 0;
    if contains_char(name, '#') {
        quarters += 2;
    }
    if contains_char(name, 'b') {
        quarters -= 2;
    }
    if contains_char(name, '*') {
        quarters += 1;
    }
    quarters
}

/// The position of `name` in quarter-tones above C.
pub fn note_to_quarters(name: &str) -> (position: i64)
    ensures
        position == quarter_position(name@),
        -2 <= position <= 25,
{
    proof {
        reveal(quarter_position);
    }
    2 * letter_to_semitone(first_char_or(name, 'C')) + note_marker_quarters(name)
}

/// The canonical spelling of position `q`.
pub fn quarters_to_note(q: i64) -> (name: String)
    requires
        0 <= q < 24,
    ensures
        name@ == canonical_name(q as int),
{
    proof {
        reveal(canonical_name);
    }
    let names: [&'static str; 12] = SHARP_NAMES;
    let mut name: String = String::from_str(names[(q / 2) as usize]);
    if q % 2 == 1 {
        proof {
            reveal_strlit("*");
        }
        name.append("*");
    }
    name
}

/// Tells whether `name` is one of the twenty-four names a scale may start on.
pub fn is_first_note(name: &str) -> (known: bool)
    ensures
        known == is_first_note_name(name@),
{
    let names: [&'static str; 24] = FIRST_NOTE_NAMES;
    let mut q: usize = 0;
    while q < 24
        invariant
            q <= 24,
            names == FIRST_NOTE_NAMES,
            forall|k: int| 0 <= k < q ==> name@ != #[trigger] canonical_name(k),
        decreases 24 - q,
    {
        proof {
            first_note_names_are_canonical(q as int);
        }
        if same_text(names[q], name) {
            return true;
        }
        q += 1;
    }
    false
}

/// The names a scale may start on are the canonical names, in order.
pub proof fn first_note_names_are_canonical(q: int)
    requires
        0 <= q < 24,
    ensures
        FIRST_NOTE_NAMES@[q]@ == canonical_name(q),
        is_first_note_name(FIRST_NOTE_NAMES@[q]@),
{
    reveal(canonical_name);
    reveal_sharp_names();
    reveal_first_note_names();
    assert(FIRST_NOTE_NAMES@[q]@ =~= canonical_name(q));
}

/// A canonical name stands at the position it spells.
pub proof fn canonical_name_position(q: int)
    requires
        0 <= q < 24,
    ensures
        quarter_position(canonical_name(q)) == q,
{
    reveal(canonical_name);
    reveal(quarter_position);
    reveal_sharp_names();
    let base = SHARP_NAMES@[q / 2]@;
    let name = canonical_name(q);
    // A sharp name is a letter, or a letter and `#`.
    assert(base.contains('#') <==> base.len() == 2) by {
        if base.len() == 2 {
            assert(base[1] == '#');
        }
    }
    if q % 2 == 1 {
        // The quarter-tone marker is added behind the sharp name.
        assert(name[base.len() as int] == '*');
        assert(name.contains('#') <==> base.contains('#')) by {
            if base.contains('#') {
                assert(name[1] == '#');
            }
        }
    }
}

proof fn reveal_sharp_names()
    ensures
        SHARP_NAMES@[0]@ == seq!['C'],
        SHARP_NAMES@[1]@ == seq!['C', '#'],
        SHARP_NAMES@[2]@ == seq!['D'],
        SHARP_NAMES@[3]@ == seq!['D', '#'],
        SHARP_NAMES@[4]@ == seq!['E'],
        SHARP_NAMES@[5]@ == seq!['F'],
        SHARP_NAMES@[6]@ == seq!['F', '#'],
        SHARP_NAMES@[7]@ == seq!['G'],
        SHARP_NAMES@[8]@ == seq!['G', '#'],
        SHARP_NAMES@[9]@ == seq!['A'],
        SHARP_NAMES@[10]@ == seq!['A', '#'],
        SHARP_NAMES@[11]@ == seq!['B'],
{
    reveal_strlit("C");
    reveal_strlit("C#");
    reveal_strlit("D");
    reveal_strlit("D#");
    reveal_strlit("E");
    reveal_strlit("F");
    reveal_strlit("F#");
    reveal_strlit("G");
    reveal_strlit("G#");
    reveal_strlit("A");
    reveal_strlit("A#");
    reveal_strlit("B");
}

proof fn reveal_first_note_names()
    ensures
        forall|q: int| 0 <= q < 24 && q % 2 == 0 ==> #[trigger] FIRST_NOTE_NAMES@[q]@
            == SHARP_NAMES@[q / 2]@,
        forall|q: int| 0 <= q < 24 && q % 2 == 1 ==> #[trigger] FIRST_NOTE_NAMES@[q]@
            == SHARP_NAMES@[q / 2]@ + seq!['*'],
{
    reveal_sharp_names();
    reveal_strlit("C*");
    reveal_strlit("C#*");
    reveal_strlit("D*");
    reveal_strlit("D#*");
    reveal_strlit("E*");
    reveal_strlit("F*");
    reveal_strlit("F#*");
    reveal_strlit("G*");
    reveal_strlit("G#*");
    reveal_strlit("A*");
    reveal_strlit("A#*");
    reveal_strlit("B*");
}

} // verus!
