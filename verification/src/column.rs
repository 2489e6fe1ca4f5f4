//! One beat column of the track: the notes sounding in it, kept in the hash map
//! of `bevy::platform`, a new-type around hashbrown's map with a hasher of
//! fixed seed.
//!
//! Verus does not look inside that map. What it holds is named by
//! `column_notes`, and each call into it goes through one of the functions
//! below. Their contracts are not proved: they restate what the documentation
//! of the map's methods says.

use bevy::platform::collections::HashMap;
use bevy::platform::hash::FixedHasher;
use vstd::prelude::*;

verus! {

/// `bevy::platform::collections::HashMap`, opaque to the verifier.
#[verifier::external_type_specification]
#[verifier::external_body]
#[verifier::reject_recursive_types(K)]
#[verifier::reject_recursive_types(V)]
#[verifier::reject_recursive_types(S)]
pub struct ExHashMap<K, V, S>(HashMap<K, V, S>);

/// `bevy::platform::hash::FixedHasher`, the map's hasher with a fixed seed.
#[verifier::external_type_specification]
#[verifier::external_body]
pub struct ExFixedHasher(FixedHasher);

/// A beat column: semitone numbers, each with the handle of its glyph once
/// there is one.
pub type Column = HashMap<u8, Option<u64>, FixedHasher>;

/// What a column holds, to the verifier: for each semitone that sounds, the
/// handle of its glyph once there is one.
pub type Notes = Map<u8, Option<u64>>;

/// The notes a column holds: its keys and what is stored under each.
pub uninterp spec fn column_notes(column: Column) -> Notes;

/// `bevy::platform::collections::HashMap::new`: the map it makes has no
/// entries.
#[verifier::external_body]
pub(crate) fn column_new() -> (column: Column)
    ensures
        column_notes(column) == Notes::empty(),
{
    HashMap::new()
}

/// `bevy::platform::collections::HashMap::contains_key`: it says whether the
/// key has an entry.
#[verifier::external_body]
pub(crate) fn column_contains(column: &Column, semi: u8) -> (held: bool)
    ensures
        held == column_notes(*column).contains_key(semi),
{
    column.contains_key(&semi)
}

/// `bevy::platform::collections::HashMap::insert`: the value is stored under
/// the key, and the value that was there before, if any, is handed back; no
/// other entry changes.
#[verifier::external_body]
pub(crate) fn column_insert(column: &mut Column, semi: u8, handle: Option<u64>) -> (before: Option<
    Option<u64>,
>)
    ensures
        column_notes(*final(column)) == column_notes(*old(column)).insert(semi, handle),
        before == if column_notes(*old(column)).contains_key(semi) {
            Some(column_notes(*old(column))[semi])
        } else {
            None
        },
{
    column.insert(semi, handle)
}

/// `bevy::platform::collections::HashMap::remove`: the key's entry leaves the
/// map and its value is handed back, if there was one; no other entry changes.
#[verifier::external_body]
pub(crate) fn column_remove(column: &mut Column, semi: u8) -> (removed: Option<Option<u64>>)
    ensures
        column_notes(*final(column)) == column_notes(*old(column)).remove(semi),
        removed == if column_notes(*old(column)).contains_key(semi) {
            Some(column_notes(*old(column))[semi])
        } else {
            None
        },
{
    column.remove(&semi)
}

/// `bevy::platform::collections::HashMap::keys`: the iterator yields every key
/// of the map once, in an order that the map does not promise. They are
/// collected as they come.
#[verifier::external_body]
pub(crate) fn column_keys(column: &Column) -> (semis: Vec<u8>)
    ensures
        semis@.no_duplicates(),
        forall|semi: u8| semis@.contains(semi) <==> column_notes(*column).contains_key(semi),
{
    column.keys().copied().collect()
}

} // verus!
