//! Semitones: their names and their distances in twelve-tone equal temperament.

use vstd::prelude::*;

verus! {

/// Number of semitone rows the sequencer shows, ten octaves from C0.
pub const NUM_SEMIS: u8 = 120;

/// Semitones in one octave.
pub const SEMIS_PER_OCTAVE: u8 = 12;

/// Concert pitch, the A above middle C, from which frequencies are reckoned.
pub const A4: u8 = 57;

/// A semitone, counted upwards from C0.
#[derive(Clone, Copy, Debug, PartialEq, Eq, Hash, Structural)]
pub struct Semi(pub u8);

/// The letters of pitch class `class`, from C upwards.
pub open spec fn letters_of(class: int) -> Seq<char> {
    if class == 0 {
        seq!['C']
    } else if class == 1 {
        seq!['C', '#']
    } else if class == 2 {
        seq!['D']
    } else if class == 3 {
        seq!['D', '#']
    } else if class == 4 {
        seq!['E']
    } else if class == 5 {
        seq!['F']
    } else if class == 6 {
        seq!['F', '#']
    } else if class == 7 {
        seq!['G']
    } else if class == 8 {
        seq!['G', '#']
    } else if class == 9 {
        seq!['A']
    } else if class == 10 {
        seq!['A', '#']
    } else {
        seq!['B']
    }
}

/// The character that writes the digit `d`.
pub open spec fn digit_char(d: int) -> char {
    if d == 0 {
        '0'
    } else if d == 1 {
        '1'
    } else if d == 2 {
        '2'
    } else if d == 3 {
        '3'
    } else if d == 4 {
        '4'
    } else if d == 5 {
        '5'
    } else if d == 6 {
        '6'
    } else if d == 7 {
        '7'
    } else if d == 8 {
        '8'
    } else {
        '9'
    }
}

/// `n` written in decimal, without leading zeros.
pub open spec fn decimal(n: nat) -> Seq<char>
    decreases n,
{
    if n < 10 {
        seq![digit_char(n as int)]
    } else {
        decimal(n / 10).push(digit_char((n % 10) as int))
    }
}

/// The name of semitone `semi`: the letters of its pitch class, then its octave.
pub open spec fn name_of(semi: u8) -> Seq<char> {
    letters_of(semi as int % (SEMIS_PER_OCTAVE as int)) + decimal((semi / SEMIS_PER_OCTAVE) as nat)
}

/// The letters of pitch class `class` as a string.
fn class_letters(class: u8) -> (letters: &'static str)
    requires
        class < 12,
    ensures
        letters@ == letters_of(class as int),
{
    proof {
        reveal_strlit("C");
        reveal_strlit("C#");
        reveal_strlit("D");
        reveal_strlit("D#");
        reveal_strlit("E");
        reveal_strlit("F");
        reveal_strlit("F#");
        reveal_strlit("G");
        reveal_strlit("G#");
        reveal_strlit("A");
        reveal_strlit("A#");
        reveal_strlit("B");
    }
    let letters = match class {
        0 => "C",
        1 => "C#",
        2 => "D",
        3 => "D#",
        4 => "E",
        5 => "F",
        6 => "F#",
        7 => "G",
        8 => "G#",
        9 => "A",
        10 => "A#",
        _ => "B",
    };
    assert(letters@ =~= letters_of(class as int));
    letters
}

/// The digit `d` as a string.
fn digit_str(d: u8) -> (digit: &'static str)
    requires
        d < 10,
    ensures
        digit@ == seq![digit_char(d as int)],
{
    proof {
        reveal_strlit("0");
        reveal_strlit("1");
        reveal_strlit("2");
        reveal_strlit("3");
        reveal_strlit("4");
        reveal_strlit("5");
        reveal_strlit("6");
        reveal_strlit("7");
        reveal_strlit("8");
        reveal_strlit("9");
    }
    let digit = match d {
        0 => "0",
        1 => "1",
        2 => "2",
        3 => "3",
        4 => "4",
        5 => "5",
        6 => "6",
        7 => "7",
        8 => "8",
        _ => "9",
    };
    assert(digit@ =~= seq![digit_char(d as int)]);
    digit
}

impl Semi {
    /// The pitch class: 0 for C up to 11 for B.
    pub open spec fn class_spec(self) -> int {
        self.0 as int % (SEMIS_PER_OCTAVE as int)
    }

    /// The octave: 0 for the twelve semitones from C0.
    pub open spec fn octave_spec(self) -> int {
        self.0 as int / (SEMIS_PER_OCTAVE as int)
    }

    /// Signed distance in semitones from `A4`.
    pub open spec fn semis_from_a4_spec(self) -> int {
        self.0 as int - A4 as int
    }

    /// Whether the semitone is one of the rows of the sequencer.
    pub open spec fn on_grid_spec(self) -> bool {
        self.0 < NUM_SEMIS
    }

    /// The pitch class: 0 for C up to 11 for B.
    pub fn class(self) -> (class: u8)
        ensures
            class == self.class_spec(),
            class < 12,
    {
        self.0 % SEMIS_PER_OCTAVE
    }

    /// The octave: 0 for the twelve semitones from C0.
    pub fn octave(self) -> (octave: u8)
        ensures
            octave == self.octave_spec(),
            octave <= 21,
    {
        self.0 / SEMIS_PER_OCTAVE
    }

    /// Signed distance in semitones from `A4`; a frequency is 440 Hz times two
    /// to the twelfth part of it.
    pub fn semis_from_a4(self) -> (diff: i32)
        ensures
            diff == self.semis_from_a4_spec(),
    {
        self.0 as i32 - A4 as i32
    }

    /// Whether the semitone is one of the rows of the sequencer.
    pub fn on_grid(self) -> (on: bool)
        ensures
            on == self.on_grid_spec(),
    {
        self.0 < NUM_SEMIS
    }

    /// The name, such as `A4` or `C#3`. Every semitone has one.
    pub fn name(self) -> (name: String)
        ensures
            name@ == name_of(self.0),
    {
        let octave = self.octave();
        let mut name = String::from_str(class_letters(self.class()));
        proof {
            reveal_with_fuel(decimal, 2);
        }
        if octave >= 10 {
            name.append(digit_str(octave / 10));
        }
        name.append(digit_str(octave % 10));
        assert(name@ =~= name_of(self.0));
        name
    }
}

/// One octave up is twelve semitones up: the pitch class stays, and the octave
/// and the distance from `A4` grow by one octave.
pub proof fn lemma_octave_up(semi: Semi)
    requires
        semi.0 + 12 <= u8::MAX,
    ensures
        Semi((semi.0 + 12) as u8).class_spec() == semi.class_spec(),
        Semi((semi.0 + 12) as u8).octave_spec() == semi.octave_spec() + 1,
        Semi((semi.0 + 12) as u8).semis_from_a4_spec() == semi.semis_from_a4_spec() + 12,
        name_of((semi.0 + 12) as u8) == letters_of(semi.class_spec()) + decimal(
            (semi.octave_spec() + 1) as nat,
        ),
{
}

} // verus!
