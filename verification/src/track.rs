//! The track: beat columns in playing order, each holding the notes that sound
//! in it.

use crate::column::{
    column_contains, column_insert, column_keys, column_new, column_notes, column_remove, Column,
    Notes,
};
use crate::pitch::Semi;
use vstd::prelude::*;

verus! {

/// The token by which the presentation layer finds the glyph of a note again.
/// The track stores it and hands it back; it never looks at it.
#[derive(Clone, Copy, Debug, PartialEq, Eq, Hash, Structural)]
pub struct Handle(pub u64);

/// A cell of the grid: a beat column and a semitone row.
#[derive(Clone, Copy, Debug, PartialEq, Eq, Hash, Structural)]
pub struct Cell {
    pub column: usize,
    pub semi: Semi,
}

/// What a toggle did.
#[derive(Clone, Copy, Debug, PartialEq, Eq, Hash, Structural)]
pub enum ToggleResult {
    /// The note was absent and now sounds in the cell, without a handle: its
    /// glyph is still to be drawn, and the handle of it to be stored.
    Added(Cell),
    /// The note sounded and is gone; the handle of its glyph, if one had been
    /// stored, is handed back for the glyph to be taken down.
    Removed(Option<Handle>),
}

/// Whether `semi` sounds in column `column`. No note sounds outside the track.
pub open spec fn sounds(columns: Seq<Notes>, column: int, semi: u8) -> bool {
    0 <= column < columns.len() && columns[column].contains_key(semi)
}

/// The columns with empty ones appended until there are at least `len`.
pub open spec fn grown(columns: Seq<Notes>, len: nat) -> Seq<Notes> {
    if columns.len() >= len {
        columns
    } else {
        columns + Seq::new((len - columns.len()) as nat, |i: int| Notes::empty())
    }
}

/// The columns after `semi` has been toggled in column `column`: a note that
/// sounds leaves its column; one that does not enters it without a handle,
/// after the track has grown to reach the column.
pub open spec fn toggled(columns: Seq<Notes>, column: int, semi: u8) -> Seq<Notes> {
    if sounds(columns, column, semi) {
        columns.update(column, columns[column].remove(semi))
    } else {
        let wide = grown(columns, (column + 1) as nat);
        wide.update(column, wide[column].insert(semi, None))
    }
}

/// The handle stored with a note, as the caller sees it.
pub open spec fn handle_of(stored: Option<u64>) -> Option<Handle> {
    match stored {
        Some(bits) => Some(Handle(bits)),
        None => None,
    }
}

/// What toggling `semi` in column `column` reports.
pub open spec fn toggle_outcome(columns: Seq<Notes>, column: usize, semi: Semi) -> ToggleResult {
    if sounds(columns, column as int, semi.0) {
        ToggleResult::Removed(handle_of(columns[column as int][semi.0]))
    } else {
        ToggleResult::Added(Cell { column, semi })
    }
}

/// The columns after `handle` has been stored for the note in `cell`: a note
/// that still sounds gets the handle, and nothing else changes.
pub open spec fn populated(columns: Seq<Notes>, cell: Cell, handle: Handle) -> Seq<Notes> {
    if sounds(columns, cell.column as int, cell.semi.0) {
        columns.update(
            cell.column as int,
            columns[cell.column as int].insert(cell.semi.0, Some(handle.0)),
        )
    } else {
        columns
    }
}

/// The notes of a sequencer session.
pub struct Track {
    columns: Vec<Column>,
}

impl View for Track {
    type V = Seq<Notes>;

    /// The notes of each column, in playing order.
    closed spec fn view(&self) -> Seq<Notes> {
        Seq::new(self.columns@.len(), |i: int| column_notes(self.columns@[i]))
    }
}

impl Default for Track {
    /// A track without columns.
    fn default() -> (track: Track)
        ensures
            track@ == Seq::<Notes>::empty(),
    {
        Track::new()
    }
}

impl Track {
    /// A track without columns.
    pub fn new() -> (track: Track)
        ensures
            track@ == Seq::<Notes>::empty(),
    {
        let track = Track { columns: Vec::new() };
        assert(track@ =~= Seq::<Notes>::empty());
        track
    }

    /// The number of columns.
    pub fn len(&self) -> (len: usize)
        ensures
            len == self@.len(),
    {
        self.columns.len()
    }

    /// Whether `semi` sounds in column `column`.
    pub fn contains(&self, column: usize, semi: Semi) -> (held: bool)
        ensures
            held == sounds(self@, column as int, semi.0),
    {
        column < self.columns.len() && column_contains(&self.columns[column], semi.0)
    }

    /// The semitones that sound in column `column`, each once, in the order in
    /// which the column walks them; none for a column past the end.
    pub fn active_pitches(&self, column: usize) -> (semis: Vec<Semi>)
        ensures
            semis@.no_duplicates(),
            forall|semi: Semi| semis@.contains(semi) <==> sounds(self@, column as int, semi.0),
    {
        let mut semis: Vec<Semi> = Vec::new();
        if column >= self.columns.len() {
            return semis;
        }
        let keys = column_keys(&self.columns[column]);
        let mut i: usize = 0;
        while i < keys.len()
            invariant
                i <= keys.len(),
                semis@.len() == i,
                forall|j: int| 0 <= j < i ==> (#[trigger] semis@[j]).0 == keys@[j],
            decreases keys.len() - i,
        {
            semis.push(Semi(keys[i]));
            i += 1;
        }
        assert forall|semi: Semi| semis@.contains(semi) <==> sounds(
            self@,
            column as int,
            semi.0,
        ) by {
            if semis@.contains(semi) {
                let j = choose|j: int| 0 <= j < semis@.len() && semis@[j] == semi;
                assert(keys@[j] == semi.0);
                assert(keys@.contains(semi.0));
            }
            if sounds(self@, column as int, semi.0) {
                assert(keys@.contains(semi.0));
                let j = choose|j: int| 0 <= j < keys@.len() && keys@[j] == semi.0;
                assert(semis@[j] == semi);
            }
        }
        semis
    }

    /// Appends empty columns until there are `len`.
    fn grow(&mut self, len: usize)
        ensures
            final(self)@ == grown(old(self)@, len as nat),
    {
        while self.columns.len() < len
            invariant
                old(self)@.len() <= self@.len(),
                self@.len() <= len || self@.len() == old(self)@.len(),
                forall|i: int| 0 <= i < old(self)@.len() ==> self@[i] == old(self)@[i],
                forall|i: int| old(self)@.len() <= i < self@.len() ==> self@[i] == Notes::empty(),
            decreases len - self.columns.len(),
        {
            let ghost before = self@;
            self.columns.push(column_new());
            assert(self@ =~= before.push(Notes::empty()));
        }
        assert(self@ =~= grown(old(self)@, len as nat));
    }

    /// Toggles `semi` in column `column`. A note that sounds there is removed
    /// and the handle of its glyph handed back. Otherwise the track grows, if
    /// it must, to reach the column, and the note enters it without a handle,
    /// which `populate` stores once the caller has drawn the glyph.
    pub fn toggle(&mut self, column: usize, semi: Semi) -> (result: ToggleResult)
        requires
            column < usize::MAX,
        ensures
            final(self)@ == toggled(old(self)@, column as int, semi.0),
            result == toggle_outcome(old(self)@, column, semi),
    {
        if column < self.columns.len() {
            let removed = column_remove(&mut self.columns[column], semi.0);
            match removed {
                Some(stored) => {
                    assert(self@ =~= toggled(old(self)@, column as int, semi.0));
                    return ToggleResult::Removed(
                        match stored {
                            Some(bits) => Some(Handle(bits)),
                            None => None,
                        },
                    );
                },
                None => {
                    assert(self@[column as int] =~= old(self)@[column as int]);
                    assert(self@ =~= old(self)@);
                },
            }
        } else {
            self.grow(column + 1);
        }
        assert(self.columns@.len() == self@.len());
        column_insert(&mut self.columns[column], semi.0, None);
        assert(self@ =~= toggled(old(self)@, column as int, semi.0));
        ToggleResult::Added(Cell { column, semi })
    }

    /// Stores the handle of the glyph drawn for the note in `cell`. Says
    /// whether the note still sounds; if not, nothing is stored.
    pub fn populate(&mut self, cell: Cell, handle: Handle) -> (stored: bool)
        ensures
            stored == sounds(old(self)@, cell.column as int, cell.semi.0),
            final(self)@ == populated(old(self)@, cell, handle),
    {
        if cell.column < self.columns.len() && column_contains(
            &self.columns[cell.column],
            cell.semi.0,
        ) {
            column_insert(&mut self.columns[cell.column], cell.semi.0, Some(handle.0));
            assert(self@ =~= populated(old(self)@, cell, handle));
            true
        } else {
            false
        }
    }
}

/// A note that is toggled twice, starting from one that does not sound, is
/// first added and then removed; after the second toggle it does not sound,
/// and the track is what it was but for the columns it grew by.
pub proof fn lemma_toggle_twice(columns: Seq<Notes>, column: usize, semi: Semi)
    requires
        !sounds(columns, column as int, semi.0),
    ensures
        toggle_outcome(columns, column, semi) == ToggleResult::Added(Cell { column, semi }),
        toggle_outcome(toggled(columns, column as int, semi.0), column, semi)
            == ToggleResult::Removed(None),
        !sounds(
            toggled(toggled(columns, column as int, semi.0), column as int, semi.0),
            column as int,
            semi.0,
        ),
        toggled(toggled(columns, column as int, semi.0), column as int, semi.0) == grown(
            columns,
            (column + 1) as nat,
        ),
{
    let once = toggled(columns, column as int, semi.0);
    let twice = toggled(once, column as int, semi.0);
    let wide = grown(columns, (column + 1) as nat);
    assert(sounds(once, column as int, semi.0));
    assert(twice[column as int] =~= wide[column as int]);
    assert(twice =~= wide);
}

/// Two toggles of one note always report different things, and leave the note
/// sounding exactly if it sounded before.
pub proof fn lemma_toggle_alternates(columns: Seq<Notes>, column: usize, semi: Semi)
    ensures
        sounds(toggled(columns, column as int, semi.0), column as int, semi.0) == !sounds(
            columns,
            column as int,
            semi.0,
        ),
        toggle_outcome(columns, column, semi) is Added <==> toggle_outcome(
            toggled(columns, column as int, semi.0),
            column,
            semi,
        ) is Removed,
{
}

/// A toggle in a column past the end makes that column the last one. The
/// columns that were there keep their notes, the new ones before it are empty,
/// and it holds the toggled note alone.
pub proof fn lemma_toggle_grows(columns: Seq<Notes>, column: usize, semi: Semi)
    requires
        column >= columns.len(),
    ensures
        toggled(columns, column as int, semi.0).len() == column + 1,
        forall|i: int|
            0 <= i < columns.len() ==> toggled(columns, column as int, semi.0)[i] == columns[i],
        forall|i: int|
            columns.len() <= i < column ==> toggled(columns, column as int, semi.0)[i]
                == Notes::empty(),
        toggled(columns, column as int, semi.0)[column as int] == Notes::empty().insert(
            semi.0,
            None,
        ),
        toggle_outcome(columns, column, semi) == ToggleResult::Added(Cell { column, semi }),
{
}

/// The track only grows: a toggle never takes a column away, and it leaves
/// every column but its own as it was.
pub proof fn lemma_track_only_grows(columns: Seq<Notes>, column: usize, semi: Semi)
    ensures
        toggled(columns, column as int, semi.0).len() >= columns.len(),
        column < columns.len() ==> toggled(columns, column as int, semi.0).len() == columns.len(),
        forall|i: int|
            0 <= i < columns.len() && i != column ==> toggled(columns, column as int, semi.0)[i]
                == columns[i],
{
}

} // verus!
