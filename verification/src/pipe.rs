//! The pipe voice: its envelope and the harmonics a pipe can be set to.

use vstd::prelude::*;

verus! {

/// Number of harmonics that a pipe can be set to.
pub const HARMONIC_COUNT: usize = 23;

/// The phases of the envelope, in the order a note runs through them after
/// it left `Off`.
#[derive(Clone, Copy, PartialEq, Eq, Structural, Debug)]
pub enum State {
    Off,
    Attack,
    Sustain,
    Release,
}

impl Default for State {
    fn default() -> (s: Self)
        ensures
            s == State::Off,
    {
        State::Off
    }
}

impl State {
    /// The phase after one tick. `reached` says whether the volume arrived at
    /// the end of the current ramp: full level while rising, the silence floor
    /// while falling.
    pub open spec fn next(self, reached: bool) -> State {
        match self {
            State::Attack => if reached {
                State::Sustain
            } else {
                State::Attack
            },
            State::Release => if reached {
                State::Off
            } else {
                State::Release
            },
            State::Sustain => State::Sustain,
            State::Off => State::Off,
        }
    }

    /// Runs the envelope for one tick.
    pub fn advance(self, reached: bool) -> (s: State)
        ensures
            s == self.next(reached),
    {
        match self {
            State::Attack => if reached {
                State::Sustain
            } else {
                State::Attack
            },
            State::Release => if reached {
                State::Off
            } else {
                State::Release
            },
            State::Sustain => State::Sustain,
            State::Off => State::Off,
        }
    }
}

/// The envelope of one pipe voice.
#[derive(Clone, Copy, PartialEq, Eq, Structural, Debug)]
pub struct Osc {
    pub state: State,
}

impl Default for Osc {
    fn default() -> (o: Self)
        ensures
            o == (Osc { state: State::Off }),
    {
        Osc { state: State::Off }
    }
}

impl Osc {
    /// The voice sounds: its envelope is not off.
    pub open spec fn active(&self) -> bool {
        self.state != State::Off
    }

    /// Starts the attack.
    pub fn note_on(&mut self)
        ensures
            final(self).state == State::Attack,
    {
        self.state = State::Attack;
    }

    /// Starts the release, from whatever phase the envelope is in.
    pub fn release(&mut self)
        ensures
            final(self).state == State::Release,
    {
        self.state = State::Release;
    }

    /// Runs the voice for one tick.
    pub fn clock(&mut self, reached: bool)
        ensures
            final(self).state == old(self).state.next(reached),
    {
        self.state = self.state.advance(reached);
    }

    pub fn is_active(&self) -> (b: bool)
        ensures
            b == self.active(),
    {
        self.state != State::Off
    }
}

/// The harmonics a pipe can be set to, in eighths of the fundamental,
/// from two octaves below it to three octaves above.
pub open spec fn harmonics() -> Seq<u8> {
    seq![
        2u8, 3u8, 4u8, 5u8, 6u8,
        8u8, 10u8, 12u8, 14u8,
        16u8, 20u8, 22u8, 24u8, 26u8, 28u8,
        32u8, 36u8, 40u8, 44u8, 48u8, 52u8, 56u8,
        64u8,
    ]
}

/// The harmonic with index `i`, in eighths of the fundamental.
pub fn harmonic(i: usize) -> (h: u8)
    requires
        i < HARMONIC_COUNT,
    ensures
        h == harmonics()[i as int],
{
    match i {
        0 => 2,
        1 => 3,
        2 => 4,
        3 => 5,
        4 => 6,
        5 => 8,
        6 => 10,
        7 => 12,
        8 => 14,
        9 => 16,
        10 => 20,
        11 => 22,
        12 => 24,
        13 => 26,
        14 => 28,
        15 => 32,
        16 => 36,
        17 => 40,
        18 => 44,
        19 => 48,
        20 => 52,
        21 => 56,
        _ => 64,
    }
}

/// The harmonics rise with their index, so a higher setting never sounds
/// lower.
pub proof fn lemma_harmonics_rise(i: int, j: int)
    requires
        0 <= i < j < HARMONIC_COUNT,
    ensures
        harmonics().len() == HARMONIC_COUNT,
        harmonics()[i] < harmonics()[j],
{
}

/// An envelope that is off stays off, whatever the ramp reports.
pub proof fn lemma_off_is_final(reached: bool)
    ensures
        State::Off.next(reached) == State::Off,
{
}

} // verus!
