use vstd::prelude::*;

verus! {

/// The twelve pitch classes, in order from A.
#[derive(Clone, Copy, Debug, PartialEq, Eq, Structural)]
pub enum NoteName {
    A,
    ASharp,
    B,
    C,
    CSharp,
    D,
    DSharp,
    E,
    F,
    FSharp,
    G,
    GSharp,
}

/// The pitch class of a note `n` semitones from A4: always in `0..12`,
/// also for negative `n`.
pub open spec fn pitch_class(n: int) -> int {
    n % 12
}

/// The octave of a note `n` semitones from A4, by floor division: one
/// semitone below A4 is already in octave 3.
pub open spec fn octave_of(n: int) -> int {
    4 + n / 12
}

/// The note determines its offset: the pitch class is in `0..12`, and
/// twelve semitones per octave above octave 4, plus the pitch class, give the
/// offset back.
pub proof fn lemma_note_determines_offset(n: int)
    ensures
        0 <= pitch_class(n) < 12,
        12 * (octave_of(n) - 4) + pitch_class(n) == n,
{
}

/// Twelve semitones up is the same pitch class one octave higher.
pub proof fn lemma_octave_up(n: int)
    ensures
        pitch_class(n + 12) == pitch_class(n),
        octave_of(n + 12) == octave_of(n) + 1,
{
    lemma_note_determines_offset(n);
    lemma_note_determines_offset(n + 12);
    assert(pitch_class(n + 12) == pitch_class(n) && octave_of(n + 12) == octave_of(n) + 1)
        by (nonlinear_arith)
        requires
            0 <= pitch_class(n) < 12,
            0 <= pitch_class(n + 12) < 12,
            12 * (octave_of(n) - 4) + pitch_class(n) == n,
            12 * (octave_of(n + 12) - 4) + pitch_class(n + 12) == n + 12,
    ;
}

impl NoteName {
    /// Position of the pitch class in the table that starts at A.
    pub open spec fn index(self) -> int {
        match self {
            NoteName::A => 0,
            NoteName::ASharp => 1,
            NoteName::B => 2,
            NoteName::C => 3,
            NoteName::CSharp => 4,
            NoteName::D => 5,
            NoteName::DSharp => 6,
            NoteName::E => 7,
            NoteName::F => 8,
            NoteName::FSharp => 9,
            NoteName::G => 10,
            NoteName::GSharp => 11,
        }
    }

    /// The pitch class at position `i` of the table that starts at A.
    pub fn from_index(i: u32) -> (r: NoteName)
        requires
            i < 12,
        ensures
            r.index() == i,
    {
        match i {
            0 => NoteName::A,
            1 => NoteName::ASharp,
            2 => NoteName::B,
            3 => NoteName::C,
            4 => NoteName::CSharp,
            5 => NoteName::D,
            6 => NoteName::DSharp,
            7 => NoteName::E,
            8 => NoteName::F,
            9 => NoteName::FSharp,
            10 => NoteName::G,
            _ => NoteName::GSharp,
        }
    }

    /// The usual written name, with `#` for a sharp.
    pub open spec fn label(self) -> Seq<char> {
        match self {
            NoteName::A => seq!['A'],
            NoteName::ASharp => seq!['A', '#'],
            NoteName::B => seq!['B'],
            NoteName::C => seq!['C'],
            NoteName::CSharp => seq!['C', '#'],
            NoteName::D => seq!['D'],
            NoteName::DSharp => seq!['D', '#'],
            NoteName::E => seq!['E'],
            NoteName::F => seq!['F'],
            NoteName::FSharp => seq!['F', '#'],
            NoteName::G => seq!['G'],
            NoteName::GSharp => seq!['G', '#'],
        }
    }

    /// The usual written name, with `#` for a sharp.
    pub fn as_str(&self) -> (r: &'static str)
        ensures
            r@ == self.label(),
    {
        match self {
            NoteName::A => {
                proof { reveal_strlit("A"); }
                "A"
            },
            NoteName::ASharp => {
                proof { reveal_strlit("A#"); }
                "A#"
            },
            NoteName::B => {
                proof { reveal_strlit("B"); }
                "B"
            },
            NoteName::C => {
                proof { reveal_strlit("C"); }
                "C"
            },
            NoteName::CSharp => {
                proof { reveal_strlit("C#"); }
                "C#"
            },
            NoteName::D => {
                proof { reveal_strlit("D"); }
                "D"
            },
            NoteName::DSharp => {
                proof { reveal_strlit("D#"); }
                "D#"
            },
            NoteName::E => {
                proof { reveal_strlit("E"); }
                "E"
            },
            NoteName::F => {
                proof { reveal_strlit("F"); }
                "F"
            },
            NoteName::FSharp => {
                proof { reveal_strlit("F#"); }
                "F#"
            },
            NoteName::G => {
                proof { reveal_strlit("G"); }
                "G"
            },
            NoteName::GSharp => {
                proof { reveal_strlit("G#"); }
                "G#"
            },
        }
    }
}

/// A detected note: its pitch class, its octave and its signed distance in
/// semitones from A4.
#[derive(Clone, Copy, Debug, PartialEq, Eq, Structural)]
pub struct Note {
    pub name: NoteName,
    pub octave: i32,
    pub semitones: i32,
}

/// The note `n` semitones from A4 (440 Hz): pitch class `n mod 12`, never
/// negative, and octave `4 + floor(n / 12)`.
pub fn note_from_semitones(n: i32) -> (r: Note)
    ensures
        r.name.index() == pitch_class(n as int),
        r.octave == octave_of(n as int),
        r.semitones == n,
{
    if n >= 0 {
        let q: i32 = n / 12;
        let m: i32 = n % 12;
        Note { name: NoteName::from_index(m as u32), octave: 4 + q, semitones: n }
    } else {
        // Count down from -1 so that the arithmetic stays on non-negative values.
        let k: i32 = -(n + 1);
        let q: i32 = k / 12;
        let m: i32 = k % 12;
        proof {
            assert(n as int / 12 == -(q + 1) && n as int % 12 == 11 - m) by (nonlinear_arith)
                requires
                    k == -(n + 1),
                    k >= 0,
                    q == k / 12,
                    m == k % 12,
            ;
        }
        Note { name: NoteName::from_index((11 - m) as u32), octave: 3 - q, semitones: n }
    }
}

} // verus!
