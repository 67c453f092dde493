use vstd::prelude::*;
use crate::error_code::ErrorCode;
use crate::syscall::{cmd, Command, Outcome, Share, Transaction, Wait, Expect};

verus! {

pub const DRIVER_NUM: u32 = 0x90000;

pub const EXISTS: u32 = 0;
pub const BUZZER_ON: u32 = 1;

/// The buzzer driver.
pub struct Buzzer;

impl Buzzer {
    /// Checks that the driver is present; the reply reads with `to_result_unit`.
    pub fn driver_exists() -> (c: Command)
        ensures
            c == cmd(DRIVER_NUM, EXISTS, 0, 0),
    {
        Command::new(DRIVER_NUM, EXISTS, 0, 0)
    }

    /// Plays a tone of `freq` hertz for a duration given in milliseconds,
    /// which the kernel receives cut to 32 bits; the reply reads with
    /// `to_result_unit`.
    pub fn tone(freq: u32, duration_ms: u128) -> (c: Command)
        ensures
            c == cmd(DRIVER_NUM, BUZZER_ON, freq, duration_ms as u32),
    {
        Command::new(DRIVER_NUM, BUZZER_ON, freq, duration_ms as u32)
    }

    /// A synchronous tone: subscribes, plays it, and waits for the upcall.
    pub fn tone_sync(freq: u32, duration_ms: u128) -> (t: Transaction)
        ensures
            t.is(
                seq![Share::Subscribe(0)],
                Some(cmd(DRIVER_NUM, BUZZER_ON, freq, duration_ms as u32)),
                Expect::Unit,
                Wait::PollFirst,
            ),
    {
        Transaction::subscribe_and_wait(0, Self::tone(freq, duration_ms), Wait::PollFirst)
    }

    /// The error of the call that failed, success once the upcall came, and
    /// `Fail` if none was kept.
    pub fn tone_sync_outcome(o: Outcome<u32>) -> (r: Result<(), ErrorCode>)
        ensures
            r == (match o {
                Outcome::ShareFailed(e) => Err(e),
                Outcome::Failed(e) => Err(e),
                Outcome::Done(_, Some(_)) => Ok::<(), ErrorCode>(()),
                Outcome::Done(_, None) => Err(ErrorCode::Fail),
            }),
    {
        match o {
            Outcome::ShareFailed(e) => Err(e),
            Outcome::Failed(e) => Err(e),
            Outcome::Done(_, Some(_)) => Ok(()),
            Outcome::Done(_, None) => Err(ErrorCode::Fail),
        }
    }
}

/// Calls its closure with the first argument of each buzzer upcall.
pub struct BuzzerListener<F: Fn(u32)>(pub F);

impl<F: Fn(u32)> BuzzerListener<F> {
    pub fn upcall(&self, arg0: u32, arg1: u32, arg2: u32)
        requires
            self.0.requires((arg0,)),
        ensures
            self.0.ensures((arg0,), ()),
    {
        (self.0)(arg0)
    }
}

/// The notes that the buzzer can play.
#[derive(Clone, Copy, Debug)]
pub enum Note {
    B0,
    C1,
    CS1,
    D1,
    DS1,
    E1,
    F1,
    FS1,
    G1,
    GS1,
    A1,
    AS1,
    B1,
    C2,
    CS2,
    D2,
    DS2,
    E2,
    F2,
    FS2,
    G2,
    GS2,
    A2,
    AS2,
    B2,
    C3,
    CS3,
    D3,
    DS3,
    E3,
    F3,
    FS3,
    G3,
    GS3,
    A3,
    AS3,
    B3,
    C4,
    CS4,
    D4,
    DS4,
    E4,
    F4,
    FS4,
    G4,
    GS4,
    A4,
    AS4,
    B4,
    C5,
    CS5,
    D5,
    DS5,
    E5,
    F5,
    FS5,
    G5,
    GS5,
    A5,
    AS5,
    B5,
    C6,
    CS6,
    D6,
    DS6,
    E6,
    F6,
    FS6,
    G6,
    GS6,
    A6,
    AS6,
    B6,
    C7,
    CS7,
    D7,
    DS7,
    E7,
    F7,
    FS7,
    G7,
    GS7,
    A7,
    AS7,
    B7,
    C8,
    CS8,
    D8,
    DS8,
}

impl Note {
    /// The note's frequency in hertz.
    pub open spec fn spec_frequency(self) -> u32 {
        match self {
            Note::B0 => 31,
            Note::C1 => 33,
            Note::CS1 => 35,
            Note::D1 => 37,
            Note::DS1 => 39,
            Note::E1 => 41,
            Note::F1 => 44,
            Note::FS1 => 46,
            Note::G1 => 49,
            Note::GS1 => 52,
            Note::A1 => 55,
            Note::AS1 => 58,
            Note::B1 => 62,
            Note::C2 => 65,
            Note::CS2 => 69,
            Note::D2 => 73,
            Note::DS2 => 78,
            Note::E2 => 82,
            Note::F2 => 87,
            Note::FS2 => 93,
            Note::G2 => 98,
            Note::GS2 => 104,
            Note::A2 => 110,
            Note::AS2 => 117,
            Note::B2 => 123,
            Note::C3 => 131,
            Note::CS3 => 139,
            Note::D3 => 147,
            Note::DS3 => 156,
            Note::E3 => 165,
            Note::F3 => 175,
            Note::FS3 => 185,
            Note::G3 => 196,
            Note::GS3 => 208,
            Note::A3 => 220,
            Note::AS3 => 233,
            Note::B3 => 247,
            Note::C4 => 262,
            Note::CS4 => 277,
            Note::D4 => 294,
            Note::DS4 => 311,
            Note::E4 => 330,
            Note::F4 => 349,
            Note::FS4 => 370,
            Note::G4 => 392,
            Note::GS4 => 415,
            Note::A4 => 440,
            Note::AS4 => 466,
            Note::B4 => 494,
            Note::C5 => 523,
            Note::CS5 => 554,
            Note::D5 => 587,
            Note::DS5 => 622,
            Note::E5 => 659,
            Note::F5 => 698,
            Note::FS5 => 740,
            Note::G5 => 784,
            Note::GS5 => 831,
            Note::A5 => 880,
            Note::AS5 => 932,
            Note::B5 => 988,
            Note::C6 => 1047,
            Note::CS6 => 1109,
            Note::D6 => 1175,
            Note::DS6 => 1245,
            Note::E6 => 1319,
            Note::F6 => 1397,
            Note::FS6 => 1480,
            Note::G6 => 1568,
            Note::GS6 => 1661,
            Note::A6 => 1760,
            Note::AS6 => 1865,
            Note::B6 => 1976,
            Note::C7 => 2093,
            Note::CS7 => 2217,
            Note::D7 => 2349,
            Note::DS7 => 2489,
            Note::E7 => 2637,
            Note::F7 => 2794,
            Note::FS7 => 2960,
            Note::G7 => 3136,
            Note::GS7 => 3322,
            Note::A7 => 3520,
            Note::AS7 => 3729,
            Note::B7 => 3951,
            Note::C8 => 4186,
            Note::CS8 => 4435,
            Note::D8 => 4699,
            Note::DS8 => 4978,
        }
    }

    /// The note's frequency in hertz.
    pub fn frequency(self) -> (f: u32)
        ensures
            f == self.spec_frequency(),
    {
        match self {
            Note::B0 => 31,
            Note::C1 => 33,
            Note::CS1 => 35,
            Note::D1 => 37,
            Note::DS1 => 39,
            Note::E1 => 41,
            Note::F1 => 44,
            Note::FS1 => 46,
            Note::G1 => 49,
            Note::GS1 => 52,
            Note::A1 => 55,
            Note::AS1 => 58,
            Note::B1 => 62,
            Note::C2 => 65,
            Note::CS2 => 69,
            Note::D2 => 73,
            Note::DS2 => 78,
            Note::E2 => 82,
            Note::F2 => 87,
            Note::FS2 => 93,
            Note::G2 => 98,
            Note::GS2 => 104,
            Note::A2 => 110,
            Note::AS2 => 117,
            Note::B2 => 123,
            Note::C3 => 131,
            Note::CS3 => 139,
            Note::D3 => 147,
            Note::DS3 => 156,
            Note::E3 => 165,
            Note::F3 => 175,
            Note::FS3 => 185,
            Note::G3 => 196,
            Note::GS3 => 208,
            Note::A3 => 220,
            Note::AS3 => 233,
            Note::B3 => 247,
            Note::C4 => 262,
            Note::CS4 => 277,
            Note::D4 => 294,
            Note::DS4 => 311,
            Note::E4 => 330,
            Note::F4 => 349,
            Note::FS4 => 370,
            Note::G4 => 392,
            Note::GS4 => 415,
            Note::A4 => 440,
            Note::AS4 => 466,
            Note::B4 => 494,
            Note::C5 => 523,
            Note::CS5 => 554,
            Note::D5 => 587,
            Note::DS5 => 622,
            Note::E5 => 659,
            Note::F5 => 698,
            Note::FS5 => 740,
            Note::G5 => 784,
            Note::GS5 => 831,
            Note::A5 => 880,
            Note::AS5 => 932,
            Note::B5 => 988,
            Note::C6 => 1047,
            Note::CS6 => 1109,
            Note::D6 => 1175,
            Note::DS6 => 1245,
            Note::E6 => 1319,
            Note::F6 => 1397,
            Note::FS6 => 1480,
            Note::G6 => 1568,
            Note::GS6 => 1661,
            Note::A6 => 1760,
            Note::AS6 => 1865,
            Note::B6 => 1976,
            Note::C7 => 2093,
            Note::CS7 => 2217,
            Note::D7 => 2349,
            Note::DS7 => 2489,
            Note::E7 => 2637,
            Note::F7 => 2794,
            Note::FS7 => 2960,
            Note::G7 => 3136,
            Note::GS7 => 3322,
            Note::A7 => 3520,
            Note::AS7 => 3729,
            Note::B7 => 3951,
            Note::C8 => 4186,
            Note::CS8 => 4435,
            Note::D8 => 4699,
            Note::DS8 => 4978,
        }
    }
}

/// The place of a note in pitch order, from B0 (0) up to DS8, a semitone a
/// step.
pub open spec fn pitch(n: Note) -> int {
    match n {
        Note::B0 => 0,
        Note::C1 => 1,
        Note::CS1 => 2,
        Note::D1 => 3,
        Note::DS1 => 4,
        Note::E1 => 5,
        Note::F1 => 6,
        Note::FS1 => 7,
        Note::G1 => 8,
        Note::GS1 => 9,
        Note::A1 => 10,
        Note::AS1 => 11,
        Note::B1 => 12,
        Note::C2 => 13,
        Note::CS2 => 14,
        Note::D2 => 15,
        Note::DS2 => 16,
        Note::E2 => 17,
        Note::F2 => 18,
        Note::FS2 => 19,
        Note::G2 => 20,
        Note::GS2 => 21,
        Note::A2 => 22,
        Note::AS2 => 23,
        Note::B2 => 24,
        Note::C3 => 25,
        Note::CS3 => 26,
        Note::D3 => 27,
        Note::DS3 => 28,
        Note::E3 => 29,
        Note::F3 => 30,
        Note::FS3 => 31,
        Note::G3 => 32,
        Note::GS3 => 33,
        Note::A3 => 34,
        Note::AS3 => 35,
        Note::B3 => 36,
        Note::C4 => 37,
        Note::CS4 => 38,
        Note::D4 => 39,
        Note::DS4 => 40,
        Note::E4 => 41,
        Note::F4 => 42,
        Note::FS4 => 43,
        Note::G4 => 44,
        Note::GS4 => 45,
        Note::A4 => 46,
        Note::AS4 => 47,
        Note::B4 => 48,
        Note::C5 => 49,
        Note::CS5 => 50,
        Note::D5 => 51,
        Note::DS5 => 52,
        Note::E5 => 53,
        Note::F5 => 54,
        Note::FS5 => 55,
        Note::G5 => 56,
        Note::GS5 => 57,
        Note::A5 => 58,
        Note::AS5 => 59,
        Note::B5 => 60,
        Note::C6 => 61,
        Note::CS6 => 62,
        Note::D6 => 63,
        Note::DS6 => 64,
        Note::E6 => 65,
        Note::F6 => 66,
        Note::FS6 => 67,
        Note::G6 => 68,
        Note::GS6 => 69,
        Note::A6 => 70,
        Note::AS6 => 71,
        Note::B6 => 72,
        Note::C7 => 73,
        Note::CS7 => 74,
        Note::D7 => 75,
        Note::DS7 => 76,
        Note::E7 => 77,
        Note::F7 => 78,
        Note::FS7 => 79,
        Note::G7 => 80,
        Note::GS7 => 81,
        Note::A7 => 82,
        Note::AS7 => 83,
        Note::B7 => 84,
        Note::C8 => 85,
        Note::CS8 => 86,
        Note::D8 => 87,
        Note::DS8 => 88,
    }
}

/// The note at a place in pitch order (DS8 past the top).
pub open spec fn note_at(i: int) -> Note {
    if i == 0 {
        Note::B0
    } else if i == 1 {
        Note::C1
    } else if i == 2 {
        Note::CS1
    } else if i == 3 {
        Note::D1
    } else if i == 4 {
        Note::DS1
    } else if i == 5 {
        Note::E1
    } else if i == 6 {
        Note::F1
    } else if i == 7 {
        Note::FS1
    } else if i == 8 {
        Note::G1
    } else if i == 9 {
        Note::GS1
    } else if i == 10 {
        Note::A1
    } else if i == 11 {
        Note::AS1
    } else if i == 12 {
        Note::B1
    } else if i == 13 {
        Note::C2
    } else if i == 14 {
        Note::CS2
    } else if i == 15 {
        Note::D2
    } else if i == 16 {
        Note::DS2
    } else if i == 17 {
        Note::E2
    } else if i == 18 {
        Note::F2
    } else if i == 19 {
        Note::FS2
    } else if i == 20 {
        Note::G2
    } else if i == 21 {
        Note::GS2
    } else if i == 22 {
        Note::A2
    } else if i == 23 {
        Note::AS2
    } else if i == 24 {
        Note::B2
    } else if i == 25 {
        Note::C3
    } else if i == 26 {
        Note::CS3
    } else if i == 27 {
        Note::D3
    } else if i == 28 {
        Note::DS3
    } else if i == 29 {
        Note::E3
    } else if i == 30 {
        Note::F3
    } else if i == 31 {
        Note::FS3
    } else if i == 32 {
        Note::G3
    } else if i == 33 {
        Note::GS3
    } else if i == 34 {
        Note::A3
    } else if i == 35 {
        Note::AS3
    } else if i == 36 {
        Note::B3
    } else if i == 37 {
        Note::C4
    } else if i == 38 {
        Note::CS4
    } else if i == 39 {
        Note::D4
    } else if i == 40 {
        Note::DS4
    } else if i == 41 {
        Note::E4
    } else if i == 42 {
        Note::F4
    } else if i == 43 {
        Note::FS4
    } else if i == 44 {
        Note::G4
    } else if i == 45 {
        Note::GS4
    } else if i == 46 {
        Note::A4
    } else if i == 47 {
        Note::AS4
    } else if i == 48 {
        Note::B4
    } else if i == 49 {
        Note::C5
    } else if i == 50 {
        Note::CS5
    } else if i == 51 {
        Note::D5
    } else if i == 52 {
        Note::DS5
    } else if i == 53 {
        Note::E5
    } else if i == 54 {
        Note::F5
    } else if i == 55 {
        Note::FS5
    } else if i == 56 {
        Note::G5
    } else if i == 57 {
        Note::GS5
    } else if i == 58 {
        Note::A5
    } else if i == 59 {
        Note::AS5
    } else if i == 60 {
        Note::B5
    } else if i == 61 {
        Note::C6
    } else if i == 62 {
        Note::CS6
    } else if i == 63 {
        Note::D6
    } else if i == 64 {
        Note::DS6
    } else if i == 65 {
        Note::E6
    } else if i == 66 {
        Note::F6
    } else if i == 67 {
        Note::FS6
    } else if i == 68 {
        Note::G6
    } else if i == 69 {
        Note::GS6
    } else if i == 70 {
        Note::A6
    } else if i == 71 {
        Note::AS6
    } else if i == 72 {
        Note::B6
    } else if i == 73 {
        Note::C7
    } else if i == 74 {
        Note::CS7
    } else if i == 75 {
        Note::D7
    } else if i == 76 {
        Note::DS7
    } else if i == 77 {
        Note::E7
    } else if i == 78 {
        Note::F7
    } else if i == 79 {
        Note::FS7
    } else if i == 80 {
        Note::G7
    } else if i == 81 {
        Note::GS7
    } else if i == 82 {
        Note::A7
    } else if i == 83 {
        Note::AS7
    } else if i == 84 {
        Note::B7
    } else if i == 85 {
        Note::C8
    } else if i == 86 {
        Note::CS8
    } else if i == 87 {
        Note::D8
    } else {
        Note::DS8
    }
}

/// The pitch places are those of the 89 notes, one note to each place.
pub proof fn lemma_pitch_places(n: Note)
    ensures
        0 <= pitch(n) < 89,
        note_at(pitch(n)) == n,
{
}

/// Each note sounds higher than the one a semitone below it.
proof fn lemma_semitone_step(i: int)
    requires
        0 <= i < 88,
    ensures
        note_at(i).spec_frequency() < note_at(i + 1).spec_frequency(),
        104 * note_at(i).spec_frequency() <= 100 * note_at(i + 1).spec_frequency() <= 108
            * note_at(i).spec_frequency(),
{
}

/// A semitone up multiplies the frequency by the twelfth root of two
/// (about 1.0595), within the rounding to whole hertz: by no less than 1.04
/// and no more than 1.08.
pub proof fn lemma_semitone_ratio(a: Note, b: Note)
    requires
        pitch(b) == pitch(a) + 1,
    ensures
        104 * a.spec_frequency() <= 100 * b.spec_frequency() <= 108 * a.spec_frequency(),
{
    lemma_pitch_places(a);
    lemma_pitch_places(b);
    lemma_semitone_step(pitch(a));
}

proof fn lemma_rises_from(i: int, j: int)
    requires
        0 <= i < j < 89,
    ensures
        note_at(i).spec_frequency() < note_at(j).spec_frequency(),
    decreases j - i,
{
    lemma_semitone_step(j - 1);
    if j > i + 1 {
        lemma_rises_from(i, j - 1);
    }
}

/// Higher notes sound higher: of two notes, the one higher in pitch has the
/// greater frequency, so no two notes share a frequency.
pub proof fn lemma_frequency_rises_with_pitch(a: Note, b: Note)
    requires
        pitch(a) < pitch(b),
    ensures
        a.spec_frequency() < b.spec_frequency(),
{
    lemma_pitch_places(a);
    lemma_pitch_places(b);
    lemma_rises_from(pitch(a), pitch(b));
}

proof fn lemma_octave_step(i: int)
    requires
        0 <= i < 77,
    ensures
        -1 <= note_at(i + 12).spec_frequency() - 2 * note_at(i).spec_frequency() <= 1,
{
}

/// A note an octave (twelve semitones) above another has twice its
/// frequency, up to rounding to whole hertz.
pub proof fn lemma_octave_doubles(a: Note, b: Note)
    requires
        pitch(b) == pitch(a) + 12,
    ensures
        -1 <= b.spec_frequency() - 2 * a.spec_frequency() <= 1,
{
    lemma_pitch_places(a);
    lemma_pitch_places(b);
    lemma_octave_step(pitch(a));
}

/// The tuning: concert A (A4) is 440 Hz, and middle C (C4), nine semitones
/// below it, is 262 Hz.
pub proof fn lemma_tuning()
    ensures
        Note::A4.spec_frequency() == 440,
        Note::C4.spec_frequency() == 262,
        pitch(Note::A4) == pitch(Note::C4) + 9,
{
}

} // verus!
