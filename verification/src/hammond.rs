//! The tonewheel voice: its envelope, its wheels and the cells of its
//! one-cycle wavetable.

use vstd::prelude::*;

verus! {

/// Number of cells in the one-cycle wavetable.
pub const TABLE_SIZE: usize = 128;

/// Number of tonewheels that sound.
pub const WHEEL_COUNT: usize = 8;

/// The phases of the envelope, in the order a note runs through them.
#[derive(Clone, Copy, PartialEq, Eq, Structural, Debug)]
pub enum State {
    Attack,
    Hold,
    Decay,
    Off,
}

impl Default for State {
    fn default() -> (s: Self)
        ensures
            s == State::Off,
    {
        State::Off
    }
}

impl State {
    /// The phase after one tick. `reached` says whether the volume arrived at
    /// the end of the current ramp: full level while rising, the silence floor
    /// while falling. Only a ramp that arrived changes the phase.
    pub open spec fn next(self, reached: bool) -> State {
        match self {
            State::Attack => if reached {
                State::Hold
            } else {
                State::Attack
            },
            State::Decay => if reached {
                State::Off
            } else {
                State::Decay
            },
            State::Hold => State::Hold,
            State::Off => State::Off,
        }
    }

    /// Runs the envelope for one tick.
    pub fn advance(self, reached: bool) -> (s: State)
        ensures
            s == self.next(reached),
    {
        match self {
            State::Attack => if reached {
                State::Hold
            } else {
                State::Attack
            },
            State::Decay => if reached {
                State::Off
            } else {
                State::Decay
            },
            State::Hold => State::Hold,
            State::Off => State::Off,
        }
    }
}

/// The envelope of one tonewheel voice: the envelope phase, and whether the key
/// click still rings above its floor.
#[derive(Clone, Copy, PartialEq, Eq, Structural, Debug)]
pub struct Osc {
    pub state: State,
    pub click: bool,
}

impl Default for Osc {
    fn default() -> (o: Self)
        ensures
            o == (Osc { state: State::Off, click: false }),
    {
        Osc { state: State::Off, click: false }
    }
}

impl Osc {
    /// The voice sounds: its envelope is not off, or its click still rings.
    pub open spec fn active(&self) -> bool {
        self.state != State::Off || self.click
    }

    /// Starts the attack. `click` says whether the key click that comes with
    /// it is audible.
    pub fn on(&mut self, click: bool)
        ensures
            *final(self) == (Osc { state: State::Attack, click }),
    {
        self.click = click;
        self.state = State::Attack;
    }

    /// Starts the decay, from whatever phase the envelope is in.
    pub fn release(&mut self, click: bool)
        ensures
            *final(self) == (Osc { state: State::Decay, click }),
    {
        self.click = click;
        self.state = State::Decay;
    }

    /// Runs the voice for one tick: the envelope moves on where its ramp
    /// arrived, and `click` tells whether the click still rings.
    pub fn run(&mut self, reached: bool, click: bool)
        ensures
            *final(self) == (Osc { state: old(self).state.next(reached), click }),
    {
        self.state = self.state.advance(reached);
        self.click = click;
    }

    pub fn is_active(&self) -> (b: bool)
        ensures
            b == self.active(),
    {
        self.state != State::Off || self.click
    }
}

/// The harmonic that each wheel sounds, as a multiple of the fundamental.
pub open spec fn harmonics() -> Seq<u8> {
    seq![1u8, 3u8, 2u8, 4u8, 6u8, 8u8, 10u8, 12u8]
}

/// The harmonic that wheel `w` sounds.
pub fn harmonic(w: usize) -> (h: u8)
    requires
        w < WHEEL_COUNT,
    ensures
        h == harmonics()[w as int],
{
    match w {
        0 => 1,
        1 => 3,
        2 => 2,
        3 => 4,
        4 => 6,
        5 => 8,
        6 => 10,
        _ => 12,
    }
}

/// The two cells of the wavetable that a read at a phase inside cell `i`
/// blends: the cell itself and the next one, which wraps to the first cell
/// behind the last.
pub fn table_taps(i: usize) -> (r: (usize, usize))
    requires
        i < TABLE_SIZE,
    ensures
        r.0 == i,
        r.1 == (i + 1) % (TABLE_SIZE as int),
        r.1 < TABLE_SIZE,
{
    (i, (i + 1) % TABLE_SIZE)
}

/// An envelope that is off stays off, whatever the ramp reports: only a new
/// note wakes it.
pub proof fn lemma_off_is_final(reached: bool)
    ensures
        State::Off.next(reached) == State::Off,
{
}

/// An envelope moves forward only: from attack to hold, from decay to off.
/// It never goes back to an earlier phase by itself.
pub proof fn lemma_envelope_moves_forward(s: State, reached: bool)
    ensures
        s.next(reached) == s || (s == State::Attack && s.next(reached) == State::Hold) || (s
            == State::Decay && s.next(reached) == State::Off),
        s.next(false) == s,
{
}

} // verus!
