//! A step sequencer: a grid of beat columns and semitone rows whose notes are
//! toggled by clicks, read back by a playback decoder one sample at a time, and
//! shown through a window that draws its beat columns on demand.

pub mod column;
pub mod decoder;
pub mod edit;
pub mod pitch;
pub mod track;
pub mod viewport;
