use pseudo_rhythm::config::{
    check_names_differ, find_name, MusicConfig, Note, NoteSpec, SFConfig, SectionConfig,
};
use pseudo_rhythm::fixed::Fixed;

#[test]
fn from_midi_splits_octave_and_semitone() {
    assert_eq!(Note::from_midi(60), Note { octave: 5, note: 0 });
    assert_eq!(Note::from_midi(0), Note { octave: 0, note: 0 });
    assert_eq!(Note::from_midi(255), Note { octave: 21, note: 3 });
    assert_eq!(Note::from_midi(71), Note { octave: 5, note: 11 });
}

#[test]
fn to_midi_is_the_inverse_of_from_midi() {
    for midi in 0..=255u8 {
        assert_eq!(Note::from_midi(midi).to_midi(), midi);
        assert_eq!(Note::from_midi(midi).checked_to_midi(), Some(midi));
    }
}

#[test]
fn checked_to_midi_refuses_what_does_not_fit() {
    assert_eq!(Note { octave: 21, note: 3 }.checked_to_midi(), Some(255));
    assert_eq!(Note { octave: 21, note: 4 }.checked_to_midi(), None);
    assert_eq!(Note { octave: 255, note: 255 }.checked_to_midi(), None);
}

#[test]
fn shift_up_and_down() {
    let key = Note { octave: 4, note: 0 };
    assert_eq!(key.shift(0), key);
    assert_eq!(key.shift(7), Note { octave: 4, note: 7 });
    assert_eq!(key.shift(12), Note { octave: 5, note: 0 });
    assert_eq!(key.shift(13), Note { octave: 5, note: 1 });
    assert_eq!(key.shift(-1), Note { octave: 3, note: 11 });
    assert_eq!(key.shift(-12), Note { octave: 3, note: 0 });
    assert_eq!(key.shift(-13), Note { octave: 2, note: 11 });
}

#[test]
fn shift_carries_the_semitone_into_the_octave() {
    assert_eq!(Note { octave: 4, note: 11 }.shift(1), Note { octave: 5, note: 0 });
    assert_eq!(Note { octave: 4, note: 6 }.shift(-1), Note { octave: 4, note: 5 });
    assert_eq!(Note { octave: 4, note: 6 }.shift(-7), Note { octave: 3, note: 11 });
    assert_eq!(Note { octave: 0, note: 11 }.shift(-1), Note { octave: 0, note: 10 });
    assert_eq!(Note { octave: 1, note: 5 }.shift(-13), Note { octave: 0, note: 4 });
}

#[test]
fn shift_moves_the_midi_number_by_the_offset() {
    for midi in 0..=255u8 {
        for delta in [-128i8, -13, -12, -1, 0, 1, 11, 12, 127] {
            let shifted = Note::from_midi(midi).shift(delta);
            assert!(shifted.note < 12);
            let expected = i32::from(midi) + i32::from(delta);
            if (0..=255).contains(&expected) {
                assert_eq!(i32::from(shifted.to_midi()), expected);
            }
            if expected < 0 {
                assert_eq!(shifted, Note { octave: 0, note: 0 });
            }
        }
    }
}

#[test]
fn shift_stops_at_the_ends() {
    assert_eq!(Note { octave: 0, note: 0 }.shift(-128), Note { octave: 0, note: 0 });
    assert_eq!(Note { octave: 0, note: 11 }.shift(-12), Note { octave: 0, note: 0 });
    assert_eq!(Note { octave: 255, note: 11 }.shift(1), Note { octave: 255, note: 11 });
    assert_eq!(Note { octave: 255, note: 250 }.shift(127), Note { octave: 255, note: 11 });
    assert_eq!(Note { octave: 255, note: 0 }.shift(11), Note { octave: 255, note: 11 });
    // a semitone of twelve or more counts as semitones all the same
    assert_eq!(Note { octave: 3, note: 14 }.shift(0), Note { octave: 4, note: 2 });
}

#[test]
fn note_spec_resolves_against_the_key() {
    let key = Note { octave: 4, note: 2 };
    assert_eq!(NoteSpec::KeyDelta(3).to_note(key), Note { octave: 4, note: 5 });
    assert_eq!(NoteSpec::KeyDelta(-12).to_note(key), Note { octave: 3, note: 2 });
    let absolute = Note { octave: 6, note: 9 };
    assert_eq!(NoteSpec::Note(absolute).to_note(key), absolute);
}

#[test]
fn parse_letters() {
    assert_eq!(Note::parse("C"), Some(Note { octave: 4, note: 0 }));
    assert_eq!(Note::parse("D"), Some(Note { octave: 4, note: 2 }));
    assert_eq!(Note::parse("E"), Some(Note { octave: 4, note: 4 }));
    assert_eq!(Note::parse("F"), Some(Note { octave: 4, note: 5 }));
    assert_eq!(Note::parse("G"), Some(Note { octave: 4, note: 7 }));
    assert_eq!(Note::parse("A"), Some(Note { octave: 4, note: 9 }));
    assert_eq!(Note::parse("B"), Some(Note { octave: 4, note: 11 }));
}

#[test]
fn parse_sharps_and_octaves() {
    assert_eq!(Note::parse("C#"), Some(Note { octave: 4, note: 1 }));
    assert_eq!(Note::parse("D#3"), Some(Note { octave: 3, note: 3 }));
    assert_eq!(Note::parse("F#0"), Some(Note { octave: 0, note: 6 }));
    assert_eq!(Note::parse("G#9"), Some(Note { octave: 9, note: 8 }));
    assert_eq!(Note::parse("A#5"), Some(Note { octave: 5, note: 10 }));
    assert_eq!(Note::parse("B7"), Some(Note { octave: 7, note: 11 }));
}

#[test]
fn parse_refuses_other_names() {
    assert_eq!(Note::parse(""), None);
    assert_eq!(Note::parse("H"), None);
    assert_eq!(Note::parse("c"), None);
    assert_eq!(Note::parse("E#"), None);
    assert_eq!(Note::parse("B#2"), None);
    assert_eq!(Note::parse("Cb"), None);
    assert_eq!(Note::parse("C10"), None);
    assert_eq!(Note::parse("4"), None);
    assert_eq!(Note::parse("C#4 "), None);
    assert_eq!(Note::parse("#4"), None);
}

#[test]
fn semitone_names() {
    let names = ["C", "C#", "D", "D#", "E", "F", "F#", "G", "G#", "A", "A#", "B"];
    for note in 0..12u8 {
        assert_eq!(Note { octave: 4, note }.semitone_name(), names[usize::from(note)]);
    }
}

#[test]
fn names_parse_back() {
    for octave in 0..10u8 {
        for note in 0..12u8 {
            let n = Note { octave, note };
            let text = format!("{}{}", n.semitone_name(), octave);
            assert_eq!(Note::parse(&text), Some(n));
        }
    }
}

#[test]
fn empty_music_config() {
    let config = MusicConfig::new();
    assert!(config.soundfonts.is_empty());
    assert!(config.sections.is_empty());
    assert_eq!(config.ticks_per_beat, 4);
}

fn quiet_section() -> SectionConfig {
    SectionConfig {
        soundfont: SFConfig { name: String::from("piano"), program: None },
        bpm_range: [0, 300],
        volume: Fixed::one(),
        key: Note { octave: 4, note: 0 },
        default_velocity: 100,
        default_duration: 1,
        events: vec![],
    }
}

#[test]
fn names_are_told_apart() {
    let mut named: Vec<(String, u32)> = Vec::new();
    assert!(check_names_differ(&named));
    named.push((String::from("a"), 1));
    named.push((String::from("b"), 2));
    named.push((String::from("ab"), 3));
    assert!(check_names_differ(&named));
    assert_eq!(find_name(&named, &String::from("b")), Some(1));
    assert_eq!(find_name(&named, &String::from("c")), None);
    named.push((String::from("a"), 4));
    assert!(!check_names_differ(&named));
    // the first of the two
    assert_eq!(find_name(&named, &String::from("a")), Some(0));
}

#[test]
fn config_with_a_name_twice_is_not_well_formed() {
    let mut config = MusicConfig::new();
    assert!(config.is_wf());
    config.sections.push((String::from("verse"), quiet_section()));
    config.sections.push((String::from("chorus"), quiet_section()));
    config.soundfonts.push((String::from("piano"), String::from("piano.sf2")));
    assert!(config.is_wf());
    assert_eq!(config.find_section(&String::from("chorus")), Some(1));
    assert_eq!(config.find_section(&String::from("bridge")), None);
    assert_eq!(config.find_soundfont(&String::from("piano")), Some(0));
    assert_eq!(config.find_soundfont(&String::from("organ")), None);
    config.sections.push((String::from("verse"), quiet_section()));
    assert!(!config.is_wf());
    config.sections.pop();
    config.soundfonts.push((String::from("piano"), String::from("other.sf2")));
    assert!(!config.is_wf());
}
