//! Defaults, the offered first notes, the nearest string and the order of playback.

use lyretune::playback::{Playback, PlaybackStep, NOTE_MILLIS, REST_MILLIS};
use lyretune::scales::{get_string_count_defaults, Genus, Mode, ScaleData, ScaleType, Temperament};
use lyretune::ui::{find_closest_note, NoteFilter, ScaleRequest, MAX_STRINGS, MIN_STRINGS};

#[test]
fn defaults_by_string_count() {
    assert_eq!(get_string_count_defaults(7), (Mode::Dorios, 100));
    assert_eq!(get_string_count_defaults(8), (Mode::Hypolydios, 200));
    assert_eq!(get_string_count_defaults(99), (Mode::Hypophrygios, 100));

    assert_eq!(get_string_count_defaults(4), (Mode::Dorios, 100));
    assert_eq!(get_string_count_defaults(9), (Mode::Dorios, 150));
    assert_eq!(get_string_count_defaults(10), (Mode::Phrygios, 150));
    assert_eq!(get_string_count_defaults(11), (Mode::Lydios, 150));
    assert_eq!(get_string_count_defaults(12), (Mode::Mixolydios, 100));
    assert_eq!(get_string_count_defaults(13), (Mode::Hypodorios, 100));
    assert_eq!(get_string_count_defaults(24), (Mode::Hypodorios, 100));
    for strings in [0, 1, 2, 3, 5, 6, 14, 15, 16, 17, 18, 19, 20, 21, 22, 23, 25, usize::MAX] {
        assert_eq!(get_string_count_defaults(strings), (Mode::Hypophrygios, 100));
    }
    let (_, zoom) = get_string_count_defaults(9);
    assert_eq!(zoom as f32 / 100.0, 1.5);
    let (_, zoom) = get_string_count_defaults(8);
    assert_eq!(zoom as f32 / 100.0, 2.0);
    let (_, zoom) = get_string_count_defaults(7);
    assert_eq!(zoom as f32 / 100.0, 1.0);
}

#[test]
fn filters_offer_tones_semitones_or_all() {
    assert_eq!(NoteFilter::TonesOnly.first_notes(), ["C", "D", "E", "F", "G", "A", "B"]);
    assert_eq!(
        NoteFilter::TonesAndSemitones.first_notes(),
        ["C", "C#", "D", "D#", "E", "F", "F#", "G", "G#", "A", "A#", "B"]
    );
    assert_eq!(
        NoteFilter::All.first_notes(),
        [
            "C", "C*", "C#", "C#*", "D", "D*", "D#", "D#*", "E", "E*", "F", "F*", "F#", "F#*",
            "G", "G*", "G#", "G#*", "A", "A*", "A#", "A#*", "B", "B*"
        ]
    );
    assert!(NoteFilter::TonesOnly.allows("Bb"));
    assert!(!NoteFilter::TonesOnly.allows("F#"));
    assert!(!NoteFilter::TonesOnly.allows("F*"));
    assert!(NoteFilter::TonesAndSemitones.allows("F#"));
    assert!(!NoteFilter::TonesAndSemitones.allows("F#*"));
    assert!(NoteFilter::All.allows("F#*"));
    assert!(NoteFilter::All.allows(""));
}

#[test]
fn closest_note_is_the_first_at_the_least_distance() {
    assert_eq!(find_closest_note(&[]), None);
    assert_eq!(find_closest_note(&[5]), Some(0));
    assert_eq!(find_closest_note(&[110_000, 88_000, 44_000, 0, 55_000]), Some(3));
    assert_eq!(find_closest_note(&[7, 3, 9, 3]), Some(1));
    assert_eq!(find_closest_note(&[i32::MAX, i32::MAX]), Some(0));
    assert_eq!(find_closest_note(&[4, 3, 2, 1]), Some(3));
}

#[test]
fn closest_note_of_a_scale() {
    let scale = ScaleData::new(
        ScaleType::Modes,
        Some(Mode::Dorios),
        None,
        "E",
        7,
        Temperament::Just,
        0,
    );
    let heard: f32 = 441.5;
    let distances: Vec<i32> = [330.0_f32, 352.0, 396.0, 440.0, 495.0, 528.0, 586.6667]
        .iter()
        .map(|f| ((f - heard).abs() * 1000.0) as i32)
        .collect();
    let closest = find_closest_note(&distances).unwrap();
    assert_eq!(closest, 3);
    assert_eq!(scale.notes[closest], "A4");
}

#[test]
fn request_starts_with_seven_strings_from_e() {
    let request = ScaleRequest::new();
    assert_eq!(request.num_strings, 7);
    assert_eq!(request.first_note, "E");
    assert_eq!(request.scale_type, ScaleType::Modes);
    assert_eq!(request.mode, Mode::Dorios);
    assert_eq!(request.genus, Genus::Diatonic);
    assert_eq!(request.temperament, Temperament::JustAncient);
    assert_eq!(request.octave_offset, 0);
    assert_eq!(ScaleRequest::default().first_note, "E");
    assert!(MIN_STRINGS <= request.num_strings && request.num_strings <= MAX_STRINGS);

    let scale = request.generate();
    assert_eq!(scale.notes, ["E4", "F4", "G4", "A4", "B4", "C5", "D5"]);
    assert_eq!(scale.frequencies.len(), 7);
}

#[test]
fn string_count_sets_mode_and_leaves_the_phorminx() {
    let mut request = ScaleRequest::new();
    assert_eq!(request.set_num_strings(4), 100);
    assert_eq!(request.mode, Mode::Dorios);
    request.scale_type = ScaleType::Phorminx;
    request.first_note = String::from("A");
    assert_eq!(request.generate().notes, ["A4", "B4", "C5", "E5"]);

    assert_eq!(request.set_num_strings(4), 100);
    assert_eq!(request.scale_type, ScaleType::Phorminx);

    assert_eq!(request.set_num_strings(8), 200);
    assert_eq!(request.num_strings, 8);
    assert_eq!(request.mode, Mode::Hypolydios);
    assert_eq!(request.scale_type, ScaleType::Modes);
    assert_eq!(request.first_note, "A");

    request.scale_type = ScaleType::Pentatonic;
    request.genus = Genus::Chromatic;
    request.octave_offset = -2;
    assert_eq!(request.set_num_strings(11), 150);
    assert_eq!(request.mode, Mode::Lydios);
    assert_eq!(request.scale_type, ScaleType::Pentatonic);
    assert_eq!(request.genus, Genus::Chromatic);
    assert_eq!(request.octave_offset, -2);
    assert_eq!(request.temperament, Temperament::JustAncient);
}

#[test]
fn notes_are_played_from_the_last_down() {
    let mut playback = Playback::new(3);
    let mut steps = Vec::new();
    loop {
        let step = playback.advance();
        steps.push(step);
        if step == PlaybackStep::Done {
            break;
        }
    }
    assert_eq!(
        steps,
        [
            PlaybackStep::Play { index: 2, millis: 640 },
            PlaybackStep::Rest { millis: 100 },
            PlaybackStep::Play { index: 1, millis: 640 },
            PlaybackStep::Rest { millis: 100 },
            PlaybackStep::Play { index: 0, millis: 640 },
            PlaybackStep::Rest { millis: 100 },
            PlaybackStep::Done,
        ]
    );
    assert_eq!(playback.advance(), PlaybackStep::Done);
    assert_eq!(NOTE_MILLIS, 640);
    assert_eq!(REST_MILLIS, 100);
}

#[test]
fn nothing_is_played_of_an_empty_scale() {
    let mut playback = Playback::new(0);
    assert_eq!(playback.advance(), PlaybackStep::Done);
    assert_eq!(playback, Playback::new(0));
}

#[test]
fn playback_stops_after_a_failure() {
    let mut playback = Playback::new(5);
    assert_eq!(playback.advance(), PlaybackStep::Play { index: 4, millis: 640 });
    playback.abort();
    assert_eq!(playback.advance(), PlaybackStep::Done);
    assert_eq!(playback.remaining, 0);

    let mut playback = Playback::new(5);
    assert_eq!(playback.advance(), PlaybackStep::Play { index: 4, millis: 640 });
    assert_eq!(playback.advance(), PlaybackStep::Rest { millis: 100 });
    assert_eq!(playback.advance(), PlaybackStep::Play { index: 3, millis: 640 });
    playback.abort();
    assert_eq!(playback.advance(), PlaybackStep::Done);
}
