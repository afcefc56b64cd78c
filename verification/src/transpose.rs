//! Transposition: moving a scale from one note to another.
//!
//! Every entry moves by the interval between the two notes and is then
//! spelled canonically, with sharps. The spelling of the scale is therefore
//! lost, its positions are kept.

use vstd::prelude::*;
use vstd::string::*;
use crate::pitch::{
    canonical_name, canonical_name_position, is_first_note_name, note_to_quarters,
    quarter_position, quarters_to_note,
};
use crate::text::same_text;

verus! {

/// The name that `name` becomes when the scale it belongs to is moved from
/// `from` to `to`: the canonical spelling of its new position.
pub open spec fn transposed_name(name: Seq<char>, from: Seq<char>, to: Seq<char>) -> Seq<char> {
    canonical_name(
        (quarter_position(name) + quarter_position(to) - quarter_position(from) + 24) % 24,
    )
}

/// The scale `scale` moved from `from` to `to`. Where the two are the same
/// name the scale is kept as it is written; otherwise every entry is
/// respelled canonically.
pub open spec fn transposed(scale: Seq<Seq<char>>, from: Seq<char>, to: Seq<char>) -> Seq<
    Seq<char>,
> {
    if from == to {
        scale
    } else {
        Seq::new(scale.len(), |i: int| transposed_name(scale[i], from, to))
    }
}

/// Copies the names of `scale`.
pub fn copy_scale(scale: &[&str]) -> (names: Vec<String>)
    ensures
        names.deep_view() == scale.deep_view(),
{
    let mut names: Vec<String> = Vec::new();
    let mut i: usize = 0;
    while i < scale.len()
        invariant
            i <= scale.len(),
            names.len() == i,
            forall|j: int| 0 <= j < i ==> names[j]@ == scale[j]@,
        decreases scale.len() - i,
    {
        names.push(String::from_str(scale[i]));
        i += 1;
    }
    names
}

/// The canonical name of the position `interval` quarter-tones above `note`.
fn move_note(note: &str, interval: i64) -> (moved: String)
    requires
        -27 <= interval <= 27,
    ensures
        moved@ == canonical_name((quarter_position(note@) + interval + 24) % 24),
{
    let position: i64 = note_to_quarters(note);
    let target: i64 = (position + interval + 72) % 24;
    quarters_to_note(target)
}

/// Moves `scale` from `from_note` to `to_note`.
pub fn transpose_scale(scale: &[&str], from_note: &str, to_note: &str) -> (result: Vec<String>)
    ensures
        result.deep_view() == transposed(scale.deep_view(), from_note@, to_note@),
        from_note@ == to_note@ ==> result.deep_view() == scale.deep_view(),
        result.len() == scale.len(),
{
    if same_text(from_note, to_note) {
        return copy_scale(scale);
    }
    let interval: i64 = note_to_quarters(to_note) - note_to_quarters(from_note);
    let mut result: Vec<String> = Vec::new();
    let mut i: usize = 0;
    while i < scale.len()
        invariant
            i <= scale.len(),
            result.len() == i,
            interval == quarter_position(to_note@) - quarter_position(from_note@),
            -27 <= interval <= 27,
            forall|j: int| 0 <= j < i ==> (#[trigger] result[j])@ == transposed_name(
                scale[j]@,
                from_note@,
                to_note@,
            ),
        decreases scale.len() - i,
    {
        result.push(move_note(scale[i], interval));
        i += 1;
    }
    result
}

/// Transposing to the note a scale already starts on leaves it unchanged.
pub proof fn transposition_identity(scale: Seq<Seq<char>>, note: Seq<char>)
    ensures
        transposed(scale, note, note) == scale,
{
}

proof fn lemma_round_trip_position(position: int, qa: int, qb: int)
    ensures
        0 <= (position + qb - qa + 24) % 24 < 24,
        (((position + qb - qa + 24) % 24) + qa - qb + 24) % 24 == position % 24,
        0 <= position % 24 < 24,
{
}

proof fn lemma_round_trip_name(name: Seq<char>, a: Seq<char>, b: Seq<char>)
    ensures
        transposed_name(transposed_name(name, a, b), b, a) == canonical_name(
            quarter_position(name) % 24,
        ),
        quarter_position(transposed_name(transposed_name(name, a, b), b, a)) == quarter_position(
            name,
        ) % 24,
{
    let position = quarter_position(name);
    let qa = quarter_position(a);
    let qb = quarter_position(b);
    let moved = (position + qb - qa + 24) % 24;
    lemma_round_trip_position(position, qa, qb);
    canonical_name_position(moved);
    canonical_name_position(position % 24);
}

/// Transposing a scale from `a` to `b` and back from `b` to `a` brings every
/// entry back to the position it had within the octave: it comes back under
/// the canonical name of that position, so that only its spelling may differ.
pub proof fn transposition_round_trip(scale: Seq<Seq<char>>, a: Seq<char>, b: Seq<char>)
    ensures
        transposed(transposed(scale, a, b), b, a).len() == scale.len(),
        a == b ==> transposed(transposed(scale, a, b), b, a) == scale,
        a != b ==> forall|i: int|
            0 <= i < scale.len() ==> transposed(transposed(scale, a, b), b, a)[i]
                == canonical_name(quarter_position(#[trigger] scale[i]) % 24),
        forall|i: int|
            0 <= i < scale.len() ==> quarter_position(
                transposed(transposed(scale, a, b), b, a)[i],
            ) % 24 == quarter_position(#[trigger] scale[i]) % 24,
{
    let there = transposed(scale, a, b);
    let back = transposed(there, b, a);
    if a != b {
        assert forall|i: int| 0 <= i < scale.len() implies back[i] == canonical_name(
            quarter_position(#[trigger] scale[i]) % 24,
        ) && quarter_position(back[i]) % 24 == quarter_position(scale[i]) % 24 by {
            lemma_round_trip_name(scale[i], a, b);
        }
    }
}

/// A name that is spelled canonically comes back from a round trip as it was.
pub proof fn canonical_round_trip(position: int, a: Seq<char>, b: Seq<char>)
    requires
        0 <= position < 24,
    ensures
        transposed_name(transposed_name(canonical_name(position), a, b), b, a) == canonical_name(
            position,
        ),
{
    lemma_round_trip_name(canonical_name(position), a, b);
    canonical_name_position(position);
}

/// A scale moved from the note it starts on, or from a note at the same
/// position, to a note that is spelled canonically starts on that note.
pub proof fn transposed_start(pattern: Seq<Seq<char>>, base_note: Seq<char>, to: Seq<char>)
    requires
        pattern.len() > 0,
        quarter_position(pattern[0]) == quarter_position(base_note),
        base_note == to ==> pattern[0] == to,
        is_first_note_name(to),
    ensures
        transposed(pattern, base_note, to).len() == pattern.len(),
        transposed(pattern, base_note, to)[0] == to,
{
    if base_note != to {
        let q = choose|q: int| 0 <= q < 24 && to == #[trigger] canonical_name(q);
        canonical_name_position(q);
    }
}

} // verus!
