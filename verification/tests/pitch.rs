use step_sequencer::pitch::{Semi, A4, NUM_SEMIS, SEMIS_PER_OCTAVE};

fn hz(semi: Semi) -> f64 {
    440.0 * 2.0f64.powf(1.0 / 12.0).powi(semi.semis_from_a4())
}

#[test]
fn name_of_concert_pitch() {
    assert_eq!(Semi(57).name(), "A4");
}

#[test]
fn name_of_lowest_semitone() {
    assert_eq!(Semi(0).name(), "C0");
}

#[test]
fn name_of_last_semitone_of_first_octave() {
    assert_eq!(Semi(11).name(), "B0");
}

#[test]
fn names_of_one_octave() {
    let expected = vec![
        "C3", "C#3", "D3", "D#3", "E3", "F3", "F#3", "G3", "G#3", "A3", "A#3", "B3",
    ];
    for (i, name) in expected.iter().enumerate() {
        assert_eq!(Semi(36 + i as u8).name(), *name);
    }
}

#[test]
fn name_has_two_digit_octaves() {
    assert_eq!(Semi(119).name(), "B9");
    assert_eq!(Semi(120).name(), "C10");
    assert_eq!(Semi(255).name(), "D#21");
}

#[test]
fn every_semitone_has_a_name() {
    for s in 0..=u8::MAX {
        let name = Semi(s).name();
        assert!(name.len() >= 2 && name.len() <= 4);
        assert!(name.ends_with(&format!("{}", s / 12)));
    }
}

#[test]
fn class_and_octave() {
    assert_eq!(Semi(57).class(), 9);
    assert_eq!(Semi(57).octave(), 4);
    assert_eq!(Semi(0).class(), 0);
    assert_eq!(Semi(0).octave(), 0);
    assert_eq!(Semi(255).class(), 3);
    assert_eq!(Semi(255).octave(), 21);
}

#[test]
fn distance_from_concert_pitch() {
    assert_eq!(A4, 57);
    assert_eq!(Semi(57).semis_from_a4(), 0);
    assert_eq!(Semi(0).semis_from_a4(), -57);
    assert_eq!(Semi(69).semis_from_a4(), 12);
    assert_eq!(Semi(255).semis_from_a4(), 198);
}

#[test]
fn rows_of_the_grid() {
    assert_eq!(NUM_SEMIS, 120);
    assert_eq!(SEMIS_PER_OCTAVE, 12);
    assert!(Semi(0).on_grid());
    assert!(Semi(119).on_grid());
    assert!(!Semi(120).on_grid());
}

#[test]
fn octave_up_keeps_class_and_adds_twelve() {
    for s in 0..NUM_SEMIS {
        let low = Semi(s);
        let high = Semi(s + 12);
        assert_eq!(high.class(), low.class());
        assert_eq!(high.octave(), low.octave() + 1);
        assert_eq!(high.semis_from_a4(), low.semis_from_a4() + 12);
    }
}

#[test]
fn octave_up_doubles_frequency() {
    for s in 0..NUM_SEMIS {
        let low = hz(Semi(s));
        let high = hz(Semi(s + 12));
        assert!((high - 2.0 * low).abs() <= 1e-9 * high);
    }
}

#[test]
fn concert_pitch_is_440_hz() {
    assert_eq!(hz(Semi(57)), 440.0);
}
