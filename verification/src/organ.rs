//! The organ: its parameter table and the envelope state of one of its voices.

use crate::hammond;
use crate::pipe;
use crate::synth::Info;
use crate::voice;
use vstd::prelude::*;
use vstd::string::StringExecFns;

verus! {

/// Number of drawbar slots in the parameter table.
pub const WHEEL_COUNT: usize = 9;

/// Number of pipes.
pub const PIPE_COUNT: usize = 5;

/// Number of parameter slots of each pipe.
pub const PIPE_PARAMS: usize = 6;

/// Number of slots that come before the drawbars.
pub const FIRST_PARAMS: usize = 21;

/// Number of slots in the whole table.
pub const PARAM_COUNT: usize = 60;

/// The setting of a pipe that a slot controls.
#[derive(Clone, Copy, PartialEq, Eq, Structural, Debug)]
pub enum PipeParam {
    Gain,
    Harm,
    Color,
    Spare,
    Attack,
    Release,
}

/// What a slot of the parameter table controls.
#[derive(Clone, Copy, PartialEq, Eq, Structural, Debug)]
pub enum Param {
    /// A slot that is kept for the layout of the table and controls nothing.
    Spare,
    Sustain,
    VibratoDepth,
    VibratoFreq,
    VibratoMix,
    LeslieUpperFreq,
    LeslieLowerFreq,
    LeslieSpread,
    WaverDepth,
    RoomSize,
    RoomDiffuse,
    RoomDelay,
    RoomMix,
    Click,
    /// The drawbar with this index, counted from zero.
    Wheel(usize),
    /// A setting of the pipe with this index, counted from zero.
    Pipe(usize, PipeParam),
}

/// The setting of a pipe that the slot at offset `k` of its block controls.
pub open spec fn pipe_param_of(k: int) -> PipeParam {
    if k == 0 {
        PipeParam::Gain
    } else if k == 1 {
        PipeParam::Harm
    } else if k == 2 {
        PipeParam::Color
    } else if k == 3 {
        PipeParam::Spare
    } else if k == 4 {
        PipeParam::Attack
    } else {
        PipeParam::Release
    }
}

/// What slot `index` controls. The table starts with 21 fixed slots; then
/// come the nine drawbars; then, for each pipe in turn, its six settings.
pub open spec fn target_of(index: int) -> Param {
    if index == 3 {
        Param::Sustain
    } else if index == 4 {
        Param::VibratoDepth
    } else if index == 5 {
        Param::VibratoFreq
    } else if index == 6 {
        Param::VibratoMix
    } else if index == 7 {
        Param::LeslieUpperFreq
    } else if index == 8 {
        Param::LeslieLowerFreq
    } else if index == 9 {
        Param::LeslieSpread
    } else if index == 12 {
        Param::WaverDepth
    } else if index == 14 {
        Param::RoomSize
    } else if index == 15 {
        Param::RoomDiffuse
    } else if index == 18 {
        Param::RoomDelay
    } else if index == 19 {
        Param::RoomMix
    } else if index == 20 {
        Param::Click
    } else if index < FIRST_PARAMS {
        Param::Spare
    } else if index < FIRST_PARAMS + WHEEL_COUNT {
        Param::Wheel((index - FIRST_PARAMS) as usize)
    } else {
        Param::Pipe(
            ((index - FIRST_PARAMS - WHEEL_COUNT) / (PIPE_PARAMS as int)) as usize,
            pipe_param_of((index - FIRST_PARAMS - WHEEL_COUNT) % (PIPE_PARAMS as int)),
        )
    }
}

/// What slot `index` controls.
pub fn param_target(index: usize) -> (p: Param)
    requires
        index < PARAM_COUNT,
    ensures
        p == target_of(index as int),
        p matches Param::Wheel(w) ==> w < WHEEL_COUNT,
        p matches Param::Pipe(i, _) ==> i < PIPE_COUNT,
{
    match index {
        3 => Param::Sustain,
        4 => Param::VibratoDepth,
        5 => Param::VibratoFreq,
        6 => Param::VibratoMix,
        7 => Param::LeslieUpperFreq,
        8 => Param::LeslieLowerFreq,
        9 => Param::LeslieSpread,
        12 => Param::WaverDepth,
        14 => Param::RoomSize,
        15 => Param::RoomDiffuse,
        18 => Param::RoomDelay,
        19 => Param::RoomMix,
        20 => Param::Click,
        _ => {
            if index < FIRST_PARAMS {
                Param::Spare
            } else {
                let i: usize = index - FIRST_PARAMS;
                if i < WHEEL_COUNT {
                    Param::Wheel(i)
                } else {
                    let i: usize = i - WHEEL_COUNT;
                    let which = match i % PIPE_PARAMS {
                        0 => PipeParam::Gain,
                        1 => PipeParam::Harm,
                        2 => PipeParam::Color,
                        3 => PipeParam::Spare,
                        4 => PipeParam::Attack,
                        _ => PipeParam::Release,
                    };
                    Param::Pipe(i / PIPE_PARAMS, which)
                }
            }
        },
    }
}

/// No two live slots of the table control the same thing: every drawbar
/// and every setting of every pipe has a slot of its own.
pub proof fn lemma_targets_distinct(a: int, b: int)
    requires
        0 <= a < b < PARAM_COUNT,
        target_of(a) != Param::Spare,
    ensures
        target_of(a) != target_of(b),
{
}

/// The value that slot `index` starts with, in tenths of the full range.
pub open spec fn default_of(index: int) -> u8 {
    if index == 12 || index == 15 || index == 30 {
        10
    } else if index == 14 {
        7
    } else if index == 32 {
        6
    } else if index == 38 || index == 45 || index == 50 || index == 56 {
        5
    } else if index == 21 {
        4
    } else if index == 0 || index == 18 || index == 19 {
        2
    } else if index == 22 {
        1
    } else {
        0
    }
}

/// The value that slot `index` starts with, in tenths of the full range.
pub fn param_default(index: usize) -> (tenths: u8)
    ensures
        tenths == default_of(index as int),
        tenths <= 10,
{
    match index {
        0 => 2,
        12 => 10,
        20 => 0,
        21 => 4,
        22 => 1,
        30 => 10,
        32 => 6,
        38 => 5,
        45 => 5,
        50 => 5,
        56 => 5,
        14 => 7,
        15 => 10,
        18 => 2,
        19 => 2,
        _ => 0,
    }
}

/// The decimal digit `d` as a character.
pub open spec fn digit_char(d: int) -> char {
    if d == 0 {
        '0'
    } else if d == 1 {
        '1'
    } else if d == 2 {
        '2'
    } else if d == 3 {
        '3'
    } else if d == 4 {
        '4'
    } else if d == 5 {
        '5'
    } else if d == 6 {
        '6'
    } else if d == 7 {
        '7'
    } else if d == 8 {
        '8'
    } else {
        '9'
    }
}

/// The number `n` written in decimal, without leading zeros.
pub open spec fn decimal_of(n: nat) -> Seq<char>
    decreases n,
{
    if n < 10 {
        seq![digit_char(n as int)]
    } else {
        decimal_of(n / 10) + seq![digit_char((n % 10) as int)]
    }
}

fn digit(d: usize) -> (s: &'static str)
    requires
        d < 10,
    ensures
        s@ == seq![digit_char(d as int)],
{
    proof {
        reveal_strlit("0");
        reveal_strlit("1");
        reveal_strlit("2");
        reveal_strlit("3");
        reveal_strlit("4");
        reveal_strlit("5");
        reveal_strlit("6");
        reveal_strlit("7");
        reveal_strlit("8");
        reveal_strlit("9");
    }
    let s = match d {
        0 => "0",
        1 => "1",
        2 => "2",
        3 => "3",
        4 => "4",
        5 => "5",
        6 => "6",
        7 => "7",
        8 => "8",
        _ => "9",
    };
    assert(s@ =~= seq![digit_char(d as int)]);
    s
}

/// Writes `n` in decimal, without leading zeros.
pub fn decimal(n: usize) -> (s: String)
    ensures
        s@ == decimal_of(n as nat),
    decreases n,
{
    if n < 10 {
        String::from_str(digit(n))
    } else {
        let mut s = decimal(n / 10);
        s.append(digit(n % 10));
        s
    }
}

/// The name of the fixed slot `index`, one of the first 21.
pub open spec fn fixed_name(index: int) -> Seq<char> {
    if index == 0 {
        "Warm"@
    } else if index == 1 {
        "Cold"@
    } else if index == 2 {
        "Attack"@
    } else if index == 3 {
        "Release"@
    } else if index == 4 {
        "Vibrato Depth"@
    } else if index == 5 {
        "Vibrato Freq"@
    } else if index == 6 {
        "Vibrato Mix"@
    } else if index == 7 {
        "Leslie Upper Freq"@
    } else if index == 8 {
        "Leslie Lower Freq"@
    } else if index == 9 {
        "Leslie Spread"@
    } else if index == 10 {
        "Leslie Tremolo Separation"@
    } else if index == 11 {
        "Leslie Vibrato Separation"@
    } else if index == 12 {
        "Waver Depth"@
    } else if index == 13 {
        "Waver Mix"@
    } else if index == 14 {
        "Room Size"@
    } else if index == 15 {
        "Room Diff 1"@
    } else if index == 16 {
        "Room Diff 2"@
    } else if index == 17 {
        "Room Feedback"@
    } else if index == 18 {
        "Room Delay"@
    } else if index == 19 {
        "Room Mix"@
    } else {
        "Click"@
    }
}

/// The name of the setting at offset `k` of a pipe's block.
pub open spec fn pipe_param_name(k: int) -> Seq<char> {
    if k == 0 {
        "Gain"@
    } else if k == 1 {
        "Harm"@
    } else if k == 2 {
        "Color"@
    } else if k == 3 {
        "_"@
    } else if k == 4 {
        "Attack"@
    } else {
        "Release"@
    }
}

/// The name of slot `index`: a fixed name for each of the first 21 slots,
/// then "Wheel" and the drawbar's number, then "Pipe", the pipe's number and
/// the name of the setting. Drawbars and pipes are numbered from one.
pub open spec fn name_of(index: int) -> Seq<char> {
    if index < FIRST_PARAMS {
        fixed_name(index)
    } else if index < FIRST_PARAMS + WHEEL_COUNT {
        "Wheel "@ + decimal_of((index - FIRST_PARAMS + 1) as nat)
    } else {
        "Pipe "@ + decimal_of(
            ((index - FIRST_PARAMS - WHEEL_COUNT) / (PIPE_PARAMS as int) + 1) as nat,
        ) + " "@ + pipe_param_name((index - FIRST_PARAMS - WHEEL_COUNT) % (PIPE_PARAMS as int))
    }
}

/// The name of slot `index`, for every index: beyond the end of the table
/// the blocks of six simply go on.
pub fn param_name(index: usize) -> (name: String)
    ensures
        name@ == name_of(index as int),
{
    if index < FIRST_PARAMS {
        match index {
            0 => String::from_str("Warm"),
            1 => String::from_str("Cold"),
            2 => String::from_str("Attack"),
            3 => String::from_str("Release"),
            4 => String::from_str("Vibrato Depth"),
            5 => String::from_str("Vibrato Freq"),
            6 => String::from_str("Vibrato Mix"),
            7 => String::from_str("Leslie Upper Freq"),
            8 => String::from_str("Leslie Lower Freq"),
            9 => String::from_str("Leslie Spread"),
            10 => String::from_str("Leslie Tremolo Separation"),
            11 => String::from_str("Leslie Vibrato Separation"),
            12 => String::from_str("Waver Depth"),
            13 => String::from_str("Waver Mix"),
            14 => String::from_str("Room Size"),
            15 => String::from_str("Room Diff 1"),
            16 => String::from_str("Room Diff 2"),
            17 => String::from_str("Room Feedback"),
            18 => String::from_str("Room Delay"),
            19 => String::from_str("Room Mix"),
            _ => String::from_str("Click"),
        }
    } else {
        let i: usize = index - FIRST_PARAMS;
        if i < WHEEL_COUNT {
            let mut name = String::from_str("Wheel ");
            let number = decimal(i + 1);
            name.append(number.as_str());
            name
        } else {
            let i: usize = i - WHEEL_COUNT;
            let mut name = String::from_str("Pipe ");
            let number = decimal(i / PIPE_PARAMS + 1);
            name.append(number.as_str());
            name.append(" ");
            let field = match i % PIPE_PARAMS {
                0 => "Gain",
                1 => "Harm",
                2 => "Color",
                3 => "_",
                4 => "Attack",
                _ => "Release",
            };
            name.append(field);
            name
        }
    }
}

/// What the organ tells its host about itself.
pub fn get_info() -> (info: Info)
    ensures
        info.name@ == "Basic Plugin"@,
        info.author@ == "Arnaud"@,
        info.id == 42,
        info.params == PARAM_COUNT,
{
    Info {
        name: String::from_str("Basic Plugin"),
        author: String::from_str("Arnaud"),
        id: 42,
        params: FIRST_PARAMS + WHEEL_COUNT + PIPE_COUNT * PIPE_PARAMS,
    }
}

/// The envelopes of one organ voice: that of its tonewheel part and those of its
/// pipes. The voice sounds as long as any of them does.
#[derive(Clone, Copy, Debug)]
pub struct Voice {
    pub main_osc: hammond::Osc,
    pub pipe_oscs: [pipe::Osc; PIPE_COUNT],
}

impl Voice {
    /// Some pipe among the first `n` sounds.
    pub open spec fn pipe_sounds(&self, n: int) -> bool {
        exists|i: int| 0 <= i < n && (#[trigger] self.pipe_oscs@[i]).active()
    }

    /// Triggers every part of the voice: all envelopes start their attack.
    /// `click` says whether the key click that comes with it is audible.
    pub fn note_on(&mut self, click: bool)
        ensures
            final(self).main_osc == (hammond::Osc { state: hammond::State::Attack, click }),
            forall|i: int|
                0 <= i < PIPE_COUNT ==> (#[trigger] final(self).pipe_oscs@[i]).state
                    == pipe::State::Attack,
    {
        self.main_osc.on(click);
        let mut i: usize = 0;
        while i < PIPE_COUNT
            invariant
                i <= PIPE_COUNT,
                self.main_osc == (hammond::Osc { state: hammond::State::Attack, click }),
                forall|j: int|
                    0 <= j < i ==> (#[trigger] self.pipe_oscs@[j]).state == pipe::State::Attack,
            decreases PIPE_COUNT - i,
        {
            self.pipe_oscs[i] = pipe::Osc { state: pipe::State::Attack };
            i = i + 1;
        }
    }

    /// Releases every part of the voice: all envelopes start to fall.
    /// `click` says whether a key click is audible on release.
    pub fn note_off(&mut self, click: bool)
        ensures
            final(self).main_osc == (hammond::Osc { state: hammond::State::Decay, click }),
            forall|i: int|
                0 <= i < PIPE_COUNT ==> (#[trigger] final(self).pipe_oscs@[i]).state
                    == pipe::State::Release,
    {
        self.main_osc.release(click);
        let mut i: usize = 0;
        while i < PIPE_COUNT
            invariant
                i <= PIPE_COUNT,
                self.main_osc == (hammond::Osc { state: hammond::State::Decay, click }),
                forall|j: int|
                    0 <= j < i ==> (#[trigger] self.pipe_oscs@[j]).state == pipe::State::Release,
            decreases PIPE_COUNT - i,
        {
            self.pipe_oscs[i] = pipe::Osc { state: pipe::State::Release };
            i = i + 1;
        }
    }
}

impl voice::Voice for Voice {
    open spec fn active(&self) -> bool {
        self.main_osc.active() || self.pipe_sounds(PIPE_COUNT as int)
    }

    fn is_active(&self) -> (b: bool) {
        if self.main_osc.is_active() {
            return true;
        }
        let mut i: usize = 0;
        while i < PIPE_COUNT
            invariant
                i <= PIPE_COUNT,
                !self.pipe_sounds(i as int),
            decreases PIPE_COUNT - i,
        {
            if self.pipe_oscs[i].is_active() {
                return true;
            }
            i = i + 1;
        }
        false
    }

    fn idle() -> (v: Self) {
        let p = pipe::Osc { state: pipe::State::Off };
        Voice {
            main_osc: hammond::Osc { state: hammond::State::Off, click: false },
            pipe_oscs: [p, p, p, p, p],
        }
    }
}

/// A voice that was released falls silent once every envelope reached its
/// floor and the click died away, and not before.
pub proof fn lemma_released_voice_ends(v: Voice)
    requires
        v.main_osc.state == hammond::State::Off,
        !v.main_osc.click,
        forall|i: int| 0 <= i < PIPE_COUNT ==> (#[trigger] v.pipe_oscs@[i]).state == pipe::State::Off,
    ensures
        !voice::Voice::active(&v),
{
}

} // verus!
