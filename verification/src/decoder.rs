//! Playback: which column of the track sounds at each sample of the output
//! stream, and which semitones sound in it.
//!
//! The decoder deals in whole numbers only. Whoever pulls a frame from it turns
//! the frame into a sample value by summing one sine wave per semitone.

use crate::pitch::Semi;
use crate::track::{sounds, Track};
use crate::viewport::CELL_WIDTH;
use vstd::prelude::*;

verus! {

/// Seconds in a minute, by which beats per minute become beats per second.
pub const SECS_PER_MINUTE: u32 = 60;

/// Nanoseconds in a minute; durations are reported in nanoseconds.
pub const NANOS_PER_MINUTE: u64 = 60_000_000_000;

/// Output channels: the stream is mono.
pub const CHANNELS: u16 = 1;

/// The column that sounds at sample `sample`: the whole beats that have passed
/// after `sample / sample_rate` seconds at `bpm / 60` beats per second.
pub open spec fn column_at(sample: nat, bpm: nat, sample_rate: nat) -> nat {
    (sample * bpm) / (60 * sample_rate)
}

/// The whole nanoseconds that `columns` columns last at `bpm` beats per minute,
/// which is `columns * 60 / bpm` seconds.
pub open spec fn duration_nanos(columns: nat, bpm: nat) -> nat {
    (columns * 60_000_000_000) / bpm
}

/// Where the progress bar stands after `elapsed_nanos` nanoseconds of
/// playback: it starts on the first gridline and crosses one column per beat.
pub open spec fn bar_position(elapsed_nanos: nat, bpm: nat) -> nat {
    CELL_WIDTH as nat + (elapsed_nanos * CELL_WIDTH as nat * bpm) / 60_000_000_000
}

/// What sounds at one sample of the stream.
#[derive(Debug)]
pub struct Frame {
    /// The number of the sample, counted from 0.
    pub index: u64,
    /// The column that sounds.
    pub column: usize,
    /// The semitones that sound in it, each once.
    pub semis: Vec<Semi>,
}

/// The decoder of one playback session. It starts at sample 0 and only moves
/// forward; to play again, make another.
pub struct TrackDecoder {
    bpm: u32,
    sample_rate: u32,
    sample: u64,
}

impl TrackDecoder {
    #[verifier::type_invariant]
    spec fn has_sample_rate(self) -> bool {
        self.sample_rate > 0
    }

    /// The tempo in beats per minute.
    pub closed spec fn tempo(self) -> nat {
        self.bpm as nat
    }

    /// The samples per second of the output stream.
    pub closed spec fn rate(self) -> nat {
        self.sample_rate as nat
    }

    /// The number of the sample that comes next.
    pub closed spec fn position(self) -> nat {
        self.sample as nat
    }

    /// A decoder at sample 0.
    pub fn new(bpm: u32, sample_rate: u32) -> (decoder: TrackDecoder)
        requires
            sample_rate > 0,
        ensures
            decoder.tempo() == bpm,
            decoder.rate() == sample_rate,
            decoder.position() == 0,
    {
        TrackDecoder { bpm, sample_rate, sample: 0 }
    }

    /// The tempo in beats per minute.
    pub fn bpm(&self) -> (bpm: u32)
        ensures
            bpm == self.tempo(),
    {
        self.bpm
    }

    /// The samples per second of the output stream, fixed when the decoder was
    /// made.
    pub fn sample_rate(&self) -> (sample_rate: u32)
        ensures
            sample_rate == self.rate(),
            sample_rate > 0,
    {
        proof {
            use_type_invariant(self);
        }
        self.sample_rate
    }

    /// The number of the sample that `next` produces next.
    pub fn sample(&self) -> (sample: u64)
        ensures
            sample == self.position(),
    {
        self.sample
    }

    /// The number of output channels.
    pub fn channels(&self) -> (channels: u16)
        ensures
            channels == CHANNELS,
    {
        CHANNELS
    }

    /// The duration of the track as it is now, in whole nanoseconds; none at
    /// tempo 0, where the first column never ends. A track that grows while it
    /// plays outlasts what was reported.
    pub fn total_duration(&self, track: &Track) -> (nanos: Option<u128>)
        ensures
            self.tempo() == 0 ==> nanos is None,
            self.tempo() > 0 ==> nanos == Some(duration_nanos(track@.len(), self.tempo()) as u128),
            self.tempo() > 0 ==> duration_nanos(track@.len(), self.tempo()) <= u128::MAX,
    {
        if self.bpm == 0 {
            return None;
        }
        let columns: u128 = track.len() as u128;
        let per_column: u128 = NANOS_PER_MINUTE as u128;
        assert(columns * per_column == columns * 60_000_000_000) by (nonlinear_arith)
            requires
                per_column == 60_000_000_000,
        ;
        Some(columns * per_column / (self.bpm as u128))
    }

    /// The next frame of the stream, or none once the sample falls past the
    /// last column of the track as it is now. A frame moves the decoder on by
    /// one sample; the end of the stream leaves it where it is.
    pub fn next(&mut self, track: &Track) -> (frame: Option<Frame>)
        requires
            old(self).position() < u64::MAX,
        ensures
            final(self).tempo() == old(self).tempo(),
            final(self).rate() == old(self).rate(),
            track@.len() == 0 ==> frame is None,
            frame is None <==> column_at(old(self).position(), old(self).tempo(), old(self).rate())
                >= track@.len(),
            frame is None ==> final(self).position() == old(self).position(),
            frame matches Some(f) ==> {
                &&& final(self).position() == old(self).position() + 1
                &&& f.index == old(self).position()
                &&& f.column == column_at(
                    old(self).position(),
                    old(self).tempo(),
                    old(self).rate(),
                )
                &&& f.semis@.no_duplicates()
                &&& forall|semi: Semi|
                    f.semis@.contains(semi) <==> sounds(track@, f.column as int, semi.0)
            },
    {
        proof {
            use_type_invariant(&*self);
        }
        let sample: u128 = self.sample as u128;
        let bpm: u128 = self.bpm as u128;
        assert(sample * bpm <= u128::MAX) by (nonlinear_arith)
            requires
                sample <= u64::MAX,
                bpm <= u32::MAX,
        ;
        let secs_per_minute: u128 = SECS_PER_MINUTE as u128;
        let sample_rate: u128 = self.sample_rate as u128;
        assert(secs_per_minute * sample_rate == 60 * sample_rate) by (nonlinear_arith)
            requires
                secs_per_minute == 60,
        ;
        let beat: u128 = (sample * bpm) / (secs_per_minute * sample_rate);
        if beat >= track.len() as u128 {
            return None;
        }
        let column = beat as usize;
        let semis = track.active_pitches(column);
        let index = self.sample;
        self.sample = self.sample + 1;
        Some(Frame { index, column, semis })
    }
}

/// Where the progress bar stands after `elapsed_nanos` nanoseconds of
/// playback at `bpm` beats per minute, in the unit of `CELL_WIDTH`.
pub fn progress_bar_x(elapsed_nanos: u64, bpm: u32) -> (x: u128)
    ensures
        x == bar_position(elapsed_nanos as nat, bpm as nat),
{
    let width: u128 = CELL_WIDTH as u128;
    let elapsed: u128 = elapsed_nanos as u128;
    let tempo: u128 = bpm as u128;
    assert(elapsed * width == elapsed * 50 && elapsed * width * tempo <= 50 * u64::MAX * u32::MAX)
        by (nonlinear_arith)
        requires
            width == 50,
            elapsed <= u64::MAX,
            tempo <= u32::MAX,
    ;
    width + elapsed * width * tempo / (NANOS_PER_MINUTE as u128)
}

/// The stream walks the track from left to right: a later sample never sounds
/// an earlier column.
pub proof fn lemma_columns_in_order(earlier: nat, later: nat, bpm: nat, sample_rate: nat)
    requires
        earlier <= later,
        sample_rate > 0,
    ensures
        column_at(earlier, bpm, sample_rate) <= column_at(later, bpm, sample_rate),
{
    assert(earlier * bpm <= later * bpm) by (nonlinear_arith)
        requires
            earlier <= later,
    ;
    vstd::arithmetic::div_mod::lemma_div_is_ordered(
        (earlier * bpm) as int,
        (later * bpm) as int,
        (60 * sample_rate) as int,
    );
}

/// Each column sounds for one beat, `60 / bpm` seconds: sample `sample`, taken
/// `sample / sample_rate` seconds into the stream, sounds column `column`
/// exactly if that time lies in the column's beat.
pub proof fn lemma_column_is_one_beat(sample: nat, bpm: nat, sample_rate: nat, column: nat)
    requires
        sample_rate > 0,
    ensures
        column_at(sample, bpm, sample_rate) == column <==> column * 60 * sample_rate <= sample
            * bpm < (column + 1) * 60 * sample_rate,
{
    let beats = (sample * bpm) as int;
    let beat = (60 * sample_rate) as int;
    vstd::arithmetic::div_mod::lemma_fundamental_div_mod(beats, beat);
    vstd::arithmetic::div_mod::lemma_mod_bound(beats, beat);
    let at = beats / beat;
    assert(column * 60 * sample_rate == beat * column && (column + 1) * 60 * sample_rate == beat
        * column + beat) by (nonlinear_arith)
        requires
            beat == 60 * sample_rate,
    ;
    if at < column {
        assert(beat * at + beat <= beat * column) by (nonlinear_arith)
            requires
                at + 1 <= column,
                beat > 0,
        ;
    }
    if at > column {
        assert(beat * column + beat <= beat * at) by (nonlinear_arith)
            requires
                column + 1 <= at,
                beat > 0,
        ;
    }
}

} // verus!
