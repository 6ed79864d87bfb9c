//! The layout of the room reverb: which echoes it reads, from where, and
//! into which channel. All delays are in ticks at the reference rate.

use vstd::prelude::*;

verus! {

/// The rate, in ticks per second, at which the delays of this layout are
/// counted.
pub const REFERENCE_RATE: u32 = 44100;

/// Number of repeating pulses.
pub const PULSE_COUNT: usize = 14;

/// Number of pairs of pulses; each pair shares one gain.
pub const PAIR_COUNT: usize = 7;

/// The longest look-back, in ticks, that the line of the pulses is sized
/// for.
pub const MAX_PULSE: u32 = 23798;

/// The longest look-back, in ticks, that the line of the early reflections
/// is sized for.
pub const MAX_EARLY: u32 = 7200;

/// The delay, in ticks, that the diffusion adds and that every tap is
/// shifted by.
pub const DIFFUSION: u32 = 1519;

/// The channel a pulse goes to, and whether it is inverted on the way.
#[derive(Clone, Copy, PartialEq, Eq, Structural, Debug)]
pub enum Side {
    L,
    R,
    NL,
    NR,
}

impl Side {
    /// The pulse goes to the left channel.
    pub open spec fn left(self) -> bool {
        self == Side::L || self == Side::NL
    }

    /// The pulse is inverted.
    pub open spec fn inverted(self) -> bool {
        self == Side::NL || self == Side::NR
    }

    pub fn is_left(self) -> (b: bool)
        ensures
            b == self.left(),
    {
        match self {
            Side::L => true,
            Side::NL => true,
            _ => false,
        }
    }

    pub fn is_inverted(self) -> (b: bool)
        ensures
            b == self.inverted(),
    {
        match self {
            Side::NL => true,
            Side::NR => true,
            _ => false,
        }
    }
}

/// One echo: the channel it goes to and how far back it is read, in ticks.
#[derive(Clone, Copy, PartialEq, Eq, Structural, Debug)]
pub struct Pulse {
    pub side: Side,
    pub delay: u32,
}

/// The repeating pulses, nearest first.
pub open spec fn pulses() -> Seq<Pulse> {
    seq![
        Pulse { side: Side::R, delay: 0 },
        Pulse { side: Side::NL, delay: 788 },
        Pulse { side: Side::NR, delay: 3352 },
        Pulse { side: Side::L, delay: 4271 },
        Pulse { side: Side::R, delay: 6504 },
        Pulse { side: Side::L, delay: 6831 },
        Pulse { side: Side::NL, delay: 9902 },
        Pulse { side: Side::NR, delay: 10311 },
        Pulse { side: Side::L, delay: 13318 },
        Pulse { side: Side::R, delay: 13514 },
        Pulse { side: Side::NL, delay: 17057 },
        Pulse { side: Side::NR, delay: 17452 },
        Pulse { side: Side::L, delay: 20850 },
        Pulse { side: Side::R, delay: 21179 },
    ]
}

/// The pulse with index `i`.
pub fn pulse(i: usize) -> (p: Pulse)
    requires
        i < PULSE_COUNT,
    ensures
        p == pulses()[i as int],
{
    match i {
        0 => Pulse { side: Side::R, delay: 0 },
        1 => Pulse { side: Side::NL, delay: 788 },
        2 => Pulse { side: Side::NR, delay: 3352 },
        3 => Pulse { side: Side::L, delay: 4271 },
        4 => Pulse { side: Side::R, delay: 6504 },
        5 => Pulse { side: Side::L, delay: 6831 },
        6 => Pulse { side: Side::NL, delay: 9902 },
        7 => Pulse { side: Side::NR, delay: 10311 },
        8 => Pulse { side: Side::L, delay: 13318 },
        9 => Pulse { side: Side::R, delay: 13514 },
        10 => Pulse { side: Side::NL, delay: 17057 },
        11 => Pulse { side: Side::NR, delay: 17452 },
        12 => Pulse { side: Side::L, delay: 20850 },
        _ => Pulse { side: Side::R, delay: 21179 },
    }
}

/// The two pulses of pair `k`, which share the gain of that pair.
pub fn pair(k: usize) -> (r: (Pulse, Pulse))
    requires
        k < PAIR_COUNT,
    ensures
        r.0 == pulses()[2 * k],
        r.1 == pulses()[2 * k + 1],
{
    (pulse(2 * k), pulse(2 * k + 1))
}

/// The look-backs, in ticks, of the four early reflections and of the tap
/// that feeds the pulses.
pub open spec fn early_taps() -> Seq<u32> {
    seq![1058u32, 1252u32, 2733u32, 3062u32, 5681u32]
}

/// The early tap with index `i`.
pub fn early_tap(i: usize) -> (d: u32)
    requires
        i < 5,
    ensures
        d == early_taps()[i as int],
{
    match i {
        0 => 1058,
        1 => 1252,
        2 => 2733,
        3 => 3062,
        _ => 5681,
    }
}

/// The delays, in ticks, of the four diffusion stages.
pub open spec fn stages() -> Seq<u32> {
    seq![431u32, 571u32, 901u32, 1519u32]
}

/// The delay of diffusion stage `i`.
pub fn stage(i: usize) -> (d: u32)
    requires
        i < 4,
    ensures
        d == stages()[i as int],
{
    match i {
        0 => 431,
        1 => 571,
        2 => 901,
        _ => 1519,
    }
}

/// No pulse is read from further back than its line reaches. A room of less
/// than full size shortens the look-backs and never lengthens them.
pub proof fn lemma_pulses_fit(i: int)
    requires
        0 <= i < PULSE_COUNT,
    ensures
        pulses().len() == PULSE_COUNT,
        pulses()[i].delay <= MAX_PULSE,
{
}

/// No early reflection is read from further back than its line reaches.
pub proof fn lemma_early_taps_fit(i: int)
    requires
        0 <= i < 5,
    ensures
        early_taps().len() == 5,
        early_taps()[i] <= MAX_EARLY,
{
}

/// The pulses come in the order of their delays, so that pair `k` is read
/// before pair `k + 1`.
pub proof fn lemma_pulses_in_order(i: int, j: int)
    requires
        0 <= i < j < PULSE_COUNT,
    ensures
        pulses()[i].delay < pulses()[j].delay,
{
}

} // verus!
