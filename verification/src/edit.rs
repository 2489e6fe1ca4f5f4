//! Commands from the presentation layer: a click on the grid, and the key that
//! starts and stops playback.

use crate::pitch::Semi;
use crate::track::{toggle_outcome, toggled, Cell, ToggleResult, Track};
use crate::viewport::{CELL_HEIGHT, CELL_WIDTH, PITCH_SPAN};
use vstd::prelude::*;

verus! {

/// Why a click could not be turned into an edit.
#[derive(Clone, Copy, Debug, PartialEq, Eq, Structural)]
pub enum EditError {
    /// The pointer has no position in the window.
    CursorUnavailable,
    /// The position in the window maps to no point of the track.
    ProjectionFailure,
    /// The track of the session is gone.
    GridUnavailable,
}

impl EditError {
    /// Whether the session cannot go on. A click that cannot be placed is
    /// dropped without a word; a missing track means the session was torn down
    /// under the edit.
    pub fn is_fatal(self) -> (fatal: bool)
        ensures
            fatal == (self is GridUnavailable),
    {
        match self {
            EditError::CursorUnavailable => false,
            EditError::ProjectionFailure => false,
            EditError::GridUnavailable => true,
        }
    }
}

/// What the play key asks for.
#[derive(Clone, Copy, Debug, PartialEq, Eq, Structural)]
pub enum Playback {
    /// Attach a fresh decoder to the output device.
    Start,
    /// Detach every decoder that is playing.
    Stop,
}

/// The cell under the point `(x, y)` of the track. The strip left of the first
/// gridline holds the row labels and no cell, so column 0 begins at
/// `CELL_WIDTH`; there is no cell below the lowest row, above the highest, or in
/// a column whose number the machine cannot hold.
pub open spec fn cell_under(x: int, y: int) -> Option<Cell> {
    if x < CELL_WIDTH || y < 0 || y >= PITCH_SPAN || x / (CELL_WIDTH as int) - 1 >= usize::MAX {
        None
    } else {
        Some(
            Cell {
                column: (x / (CELL_WIDTH as int) - 1) as usize,
                semi: Semi((y / (CELL_HEIGHT as int)) as u8),
            },
        )
    }
}

/// The cell under the point `(x, y)` of the track, if there is one.
pub fn cell_at(x: i64, y: i64) -> (cell: Option<Cell>)
    ensures
        cell == cell_under(x as int, y as int),
        cell matches Some(c) ==> c.column < usize::MAX && c.semi.on_grid_spec(),
{
    if x < CELL_WIDTH as i64 || y < 0 || y >= PITCH_SPAN as i64 {
        return None;
    }
    let column: u64 = (x / CELL_WIDTH as i64 - 1) as u64;
    if column >= usize::MAX as u64 {
        return None;
    }
    let row: u8 = (y / CELL_HEIGHT as i64) as u8;
    Some(Cell { column: column as usize, semi: Semi(row) })
}

/// A click at the point `(x, y)` of the track: the note in the cell under it
/// is toggled. A click on no cell is dropped and leaves the track as it is.
pub fn place_note(track: &mut Track, x: i64, y: i64) -> (result: Option<ToggleResult>)
    ensures
        cell_under(x as int, y as int) is None ==> result is None && final(track)@ == old(track)@,
        cell_under(x as int, y as int) matches Some(cell) ==> result == Some(
            toggle_outcome(old(track)@, cell.column, cell.semi),
        ) && final(track)@ == toggled(old(track)@, cell.column as int, cell.semi.0),
{
    match cell_at(x, y) {
        Some(cell) => Some(track.toggle(cell.column, cell.semi)),
        None => None,
    }
}

/// The play key: playback starts if nothing is playing, and all of it stops
/// otherwise.
pub fn toggle_play(playing: usize) -> (command: Playback)
    ensures
        command == if playing == 0 {
            Playback::Start
        } else {
            Playback::Stop
        },
{
    if playing == 0 {
        Playback::Start
    } else {
        Playback::Stop
    }
}

} // verus!
