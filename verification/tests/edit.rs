use step_sequencer::edit::{cell_at, place_note, toggle_play, EditError, Playback};
use step_sequencer::pitch::Semi;
use step_sequencer::track::{Cell, Handle, ToggleResult, Track};

#[test]
fn cell_under_a_point() {
    assert_eq!(cell_at(50, 0), Some(Cell { column: 0, semi: Semi(0) }));
    assert_eq!(cell_at(99, 24), Some(Cell { column: 0, semi: Semi(0) }));
    assert_eq!(cell_at(100, 25), Some(Cell { column: 1, semi: Semi(1) }));
    assert_eq!(cell_at(260, 1430), Some(Cell { column: 4, semi: Semi(57) }));
    assert_eq!(cell_at(50, 2999), Some(Cell { column: 0, semi: Semi(119) }));
}

#[test]
fn no_cell_left_of_the_first_gridline() {
    assert_eq!(cell_at(49, 100), None);
    assert_eq!(cell_at(0, 100), None);
    assert_eq!(cell_at(-1, 100), None);
    assert_eq!(cell_at(i64::MIN, 100), None);
}

#[test]
fn no_cell_outside_the_rows() {
    assert_eq!(cell_at(100, -1), None);
    assert_eq!(cell_at(100, 3000), None);
    assert_eq!(cell_at(100, i64::MAX), None);
    assert_eq!(cell_at(100, i64::MIN), None);
}

#[test]
fn cell_far_to_the_right() {
    assert_eq!(
        cell_at(i64::MAX, 0),
        Some(Cell { column: (i64::MAX / 50 - 1) as usize, semi: Semi(0) })
    );
}

#[test]
fn click_toggles_the_note_under_it() {
    let mut track = Track::new();
    let added = place_note(&mut track, 260, 1430);
    assert_eq!(added, Some(ToggleResult::Added(Cell { column: 4, semi: Semi(57) })));
    assert_eq!(track.len(), 5);
    assert!(track.contains(4, Semi(57)));
    track.populate(Cell { column: 4, semi: Semi(57) }, Handle(7));
    let removed = place_note(&mut track, 299, 1449);
    assert_eq!(removed, Some(ToggleResult::Removed(Some(Handle(7)))));
    assert!(!track.contains(4, Semi(57)));
    assert_eq!(track.len(), 5);
}

#[test]
fn click_outside_the_cells_is_dropped() {
    let mut track = Track::new();
    place_note(&mut track, 60, 10);
    assert_eq!(place_note(&mut track, 10, 10), None);
    assert_eq!(place_note(&mut track, 60, -10), None);
    assert_eq!(place_note(&mut track, 60, 3000), None);
    assert_eq!(track.len(), 1);
    assert!(track.contains(0, Semi(0)));
}

#[test]
fn only_a_missing_track_is_fatal() {
    assert!(!EditError::CursorUnavailable.is_fatal());
    assert!(!EditError::ProjectionFailure.is_fatal());
    assert!(EditError::GridUnavailable.is_fatal());
}

#[test]
fn play_key_starts_when_idle_and_stops_otherwise() {
    assert_eq!(toggle_play(0), Playback::Start);
    assert_eq!(toggle_play(1), Playback::Stop);
    assert_eq!(toggle_play(3), Playback::Stop);
}
