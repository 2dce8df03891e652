//! The wavetable channel: two voices with their own shapes and wave types, a
//! voice selector, volume, attack and decay, over 16 steps.

use vstd::prelude::*;

use crate::params::NudgeError;
use crate::step::{steps_nudge_result, steps_wf, nudge_steps, InstrumentParams, Step};
use crate::STEPS_PER_CHANNEL;

verus! {

/// The waveform of one voice.
#[derive(Clone, Copy, Debug, PartialEq, Eq, Structural)]
pub enum WaveShapeType {
    Sin,
    Saw,
    Sqr,
}

/// A voice's waveform together with which voice it belongs to (`voice` true
/// for voice A).
#[derive(Clone, Copy, Debug, PartialEq, Eq, Structural)]
pub struct WaveShape {
    pub shape: WaveShapeType,
    pub voice: bool,
}

impl WaveShape {
    /// The shape after a nudge: one waveform in the given direction,
    /// unchanged at either end.
    pub open spec fn nudged(self, up: bool) -> WaveShape {
        if up {
            match self.shape {
                WaveShapeType::Sin => WaveShape { shape: WaveShapeType::Saw, ..self },
                WaveShapeType::Saw => WaveShape { shape: WaveShapeType::Sqr, ..self },
                WaveShapeType::Sqr => self,
            }
        } else {
            match self.shape {
                WaveShapeType::Sin => self,
                WaveShapeType::Saw => WaveShape { shape: WaveShapeType::Sin, ..self },
                WaveShapeType::Sqr => WaveShape { shape: WaveShapeType::Saw, ..self },
            }
        }
    }

    /// A nudge succeeds unless the shape already sits at the requested end.
    pub open spec fn nudge_result(self, up: bool) -> Result<(), NudgeError> {
        if up {
            if self.shape is Sqr {
                Err(NudgeError::AtMax)
            } else {
                Ok(())
            }
        } else {
            if self.shape is Sin {
                Err(NudgeError::AtMin)
            } else {
                Ok(())
            }
        }
    }

    pub fn nudge_up(&mut self) -> (r: Result<(), NudgeError>)
        ensures
            *final(self) == old(self).nudged(true),
            r == old(self).nudge_result(true),
    {
        match self.shape {
            WaveShapeType::Sin => {
                self.shape = WaveShapeType::Saw;
                Ok(())
            },
            WaveShapeType::Saw => {
                self.shape = WaveShapeType::Sqr;
                Ok(())
            },
            WaveShapeType::Sqr => Err(NudgeError::AtMax),
        }
    }

    pub fn nudge_down(&mut self) -> (r: Result<(), NudgeError>)
        ensures
            *final(self) == old(self).nudged(false),
            r == old(self).nudge_result(false),
    {
        match self.shape {
            WaveShapeType::Sin => Err(NudgeError::AtMin),
            WaveShapeType::Saw => {
                self.shape = WaveShapeType::Sin;
                Ok(())
            },
            WaveShapeType::Sqr => {
                self.shape = WaveShapeType::Saw;
                Ok(())
            },
        }
    }

    pub fn nudge(&mut self, up: bool) -> (r: Result<(), NudgeError>)
        ensures
            *final(self) == old(self).nudged(up),
            r == old(self).nudge_result(up),
    {
        if up {
            self.nudge_up()
        } else {
            self.nudge_down()
        }
    }
}

/// The wavetable of one voice.
#[derive(Clone, Copy, Debug, PartialEq, Eq, Structural)]
pub enum WaveTypeType {
    A,
    B,
    C,
    D,
}

/// A voice's wavetable together with which voice it belongs to (`voice` true
/// for voice A).
#[derive(Clone, Copy, Debug, PartialEq, Eq, Structural)]
pub struct WaveType {
    pub wave_type: WaveTypeType,
    pub voice: bool,
}

impl WaveType {
    /// The type after a nudge: one wavetable in the given direction,
    /// unchanged at either end.
    pub open spec fn nudged(self, up: bool) -> WaveType {
        if up {
            match self.wave_type {
                WaveTypeType::A => WaveType { wave_type: WaveTypeType::B, ..self },
                WaveTypeType::B => WaveType { wave_type: WaveTypeType::C, ..self },
                WaveTypeType::C => WaveType { wave_type: WaveTypeType::D, ..self },
                WaveTypeType::D => self,
            }
        } else {
            match self.wave_type {
                WaveTypeType::A => self,
                WaveTypeType::B => WaveType { wave_type: WaveTypeType::A, ..self },
                WaveTypeType::C => WaveType { wave_type: WaveTypeType::B, ..self },
                WaveTypeType::D => WaveType { wave_type: WaveTypeType::C, ..self },
            }
        }
    }

    /// A nudge succeeds unless the type already sits at the requested end.
    pub open spec fn nudge_result(self, up: bool) -> Result<(), NudgeError> {
        if up {
            if self.wave_type is D {
                Err(NudgeError::AtMax)
            } else {
                Ok(())
            }
        } else {
            if self.wave_type is A {
                Err(NudgeError::AtMin)
            } else {
                Ok(())
            }
        }
    }

    pub fn nudge_up(&mut self) -> (r: Result<(), NudgeError>)
        ensures
            *final(self) == old(self).nudged(true),
            r == old(self).nudge_result(true),
    {
        match self.wave_type {
            WaveTypeType::A => {
                self.wave_type = WaveTypeType::B;
                Ok(())
            },
            WaveTypeType::B => {
                self.wave_type = WaveTypeType::C;
                Ok(())
            },
            WaveTypeType::C => {
                self.wave_type = WaveTypeType::D;
                Ok(())
            },
            WaveTypeType::D => Err(NudgeError::AtMax),
        }
    }

    pub fn nudge_down(&mut self) -> (r: Result<(), NudgeError>)
        ensures
            *final(self) == old(self).nudged(false),
            r == old(self).nudge_result(false),
    {
        match self.wave_type {
            WaveTypeType::A => Err(NudgeError::AtMin),
            WaveTypeType::B => {
                self.wave_type = WaveTypeType::A;
                Ok(())
            },
            WaveTypeType::C => {
                self.wave_type = WaveTypeType::B;
                Ok(())
            },
            WaveTypeType::D => {
                self.wave_type = WaveTypeType::C;
                Ok(())
            },
        }
    }

    pub fn nudge(&mut self, up: bool) -> (r: Result<(), NudgeError>)
        ensures
            *final(self) == old(self).nudged(up),
            r == old(self).nudge_result(up),
    {
        if up {
            self.nudge_up()
        } else {
            self.nudge_down()
        }
    }
}

/// Which voices play: A, B, or both.
#[derive(Clone, Copy, Debug, PartialEq, Eq, Structural)]
pub enum Voice {
    A,
    B,
    Both,
}

impl Voice {
    /// The selection after a nudge: one step in the order A, B, Both,
    /// unchanged at either end.
    pub open spec fn nudged(self, up: bool) -> Voice {
        if up {
            match self {
                Voice::A => Voice::B,
                Voice::B => Voice::Both,
                Voice::Both => Voice::Both,
            }
        } else {
            match self {
                Voice::A => Voice::A,
                Voice::B => Voice::A,
                Voice::Both => Voice::B,
            }
        }
    }

    /// A nudge succeeds unless the selection already sits at the requested
    /// end.
    pub open spec fn nudge_result(self, up: bool) -> Result<(), NudgeError> {
        if up {
            if self is Both {
                Err(NudgeError::AtMax)
            } else {
                Ok(())
            }
        } else {
            if self is A {
                Err(NudgeError::AtMin)
            } else {
                Ok(())
            }
        }
    }

    pub fn nudge_up(&mut self) -> (r: Result<(), NudgeError>)
        ensures
            *final(self) == old(self).nudged(true),
            r == old(self).nudge_result(true),
    {
        match *self {
            Voice::A => {
                *self = Voice::B;
                Ok(())
            },
            Voice::B => {
                *self = Voice::Both;
                Ok(())
            },
            Voice::Both => Err(NudgeError::AtMax),
        }
    }

    pub fn nudge_down(&mut self) -> (r: Result<(), NudgeError>)
        ensures
            *final(self) == old(self).nudged(false),
            r == old(self).nudge_result(false),
    {
        match *self {
            Voice::A => Err(NudgeError::AtMin),
            Voice::B => {
                *self = Voice::A;
                Ok(())
            },
            Voice::Both => {
                *self = Voice::B;
                Ok(())
            },
        }
    }

    pub fn nudge(&mut self, up: bool) -> (r: Result<(), NudgeError>)
        ensures
            *final(self) == old(self).nudged(up),
            r == old(self).nudge_result(up),
    {
        if up {
            self.nudge_up()
        } else {
            self.nudge_down()
        }
    }
}

/// Wavetable volume, 0 to 100 in steps of 25, erroring at either end.
#[derive(Clone, Copy, Debug, PartialEq, Eq, Structural)]
pub struct WaveVolume {
    pub level: usize,
}

impl WaveVolume {
    /// The level is a multiple of 25 no greater than 100.
    pub open spec fn wf(self) -> bool {
        self.level <= 100 && self.level % 25 == 0
    }

    /// The level after a nudge: 25 in the given direction, clamped at the
    /// ends.
    pub open spec fn nudged(self, up: bool) -> WaveVolume {
        if up {
            if self.level < 100 {
                WaveVolume { level: (self.level + 25) as usize }
            } else {
                WaveVolume { level: 100 }
            }
        } else {
            if self.level > 0 {
                WaveVolume { level: (self.level - 25) as usize }
            } else {
                WaveVolume { level: 0 }
            }
        }
    }

    /// A nudge fails exactly at the requested end.
    pub open spec fn nudge_result(self, up: bool) -> Result<(), NudgeError> {
        if up {
            if self.level < 100 {
                Ok(())
            } else {
                Err(NudgeError::AtMax)
            }
        } else {
            if self.level > 0 {
                Ok(())
            } else {
                Err(NudgeError::AtMin)
            }
        }
    }

    pub fn nudge_up(&mut self) -> (r: Result<(), NudgeError>)
        requires
            old(self).wf(),
        ensures
            final(self).wf(),
            *final(self) == old(self).nudged(true),
            r == old(self).nudge_result(true),
    {
        if self.level < 100 {
            self.level = self.level + 25;
            Ok(())
        } else {
            self.level = 100;
            Err(NudgeError::AtMax)
        }
    }

    pub fn nudge_down(&mut self) -> (r: Result<(), NudgeError>)
        requires
            old(self).wf(),
        ensures
            final(self).wf(),
            *final(self) == old(self).nudged(false),
            r == old(self).nudge_result(false),
    {
        if self.level > 0 {
            self.level = self.level - 25;
            Ok(())
        } else {
            self.level = 0;
            Err(NudgeError::AtMin)
        }
    }

    pub fn nudge(&mut self, up: bool) -> (r: Result<(), NudgeError>)
        requires
            old(self).wf(),
        ensures
            final(self).wf(),
            *final(self) == old(self).nudged(up),
            r == old(self).nudge_result(up),
    {
        if up {
            self.nudge_up()
        } else {
            self.nudge_down()
        }
    }
}

/// Wavetable attack, 0 to 16, erroring at either end.
#[derive(Clone, Copy, Debug, PartialEq, Eq, Structural)]
pub struct WaveAttack {
    pub atk: u8,
}

impl WaveAttack {
    /// Attack never exceeds 16.
    pub open spec fn wf(self) -> bool {
        self.atk <= 16
    }

    /// The attack after a nudge: one unit in the given direction, unchanged
    /// at either end.
    pub open spec fn nudged(self, up: bool) -> WaveAttack {
        if up {
            if self.atk < 16 {
                WaveAttack { atk: (self.atk + 1) as u8 }
            } else {
                self
            }
        } else {
            if self.atk > 0 {
                WaveAttack { atk: (self.atk - 1) as u8 }
            } else {
                self
            }
        }
    }

    /// A nudge fails exactly at the requested end.
    pub open spec fn nudge_result(self, up: bool) -> Result<(), NudgeError> {
        if up {
            if self.atk < 16 {
                Ok(())
            } else {
                Err(NudgeError::AtMax)
            }
        } else {
            if self.atk > 0 {
                Ok(())
            } else {
                Err(NudgeError::AtMin)
            }
        }
    }

    pub fn nudge_up(&mut self) -> (r: Result<(), NudgeError>)
        requires
            old(self).wf(),
        ensures
            final(self).wf(),
            *final(self) == old(self).nudged(true),
            r == old(self).nudge_result(true),
    {
        if self.atk < 16 {
            self.atk = self.atk + 1;
            Ok(())
        } else {
            Err(NudgeError::AtMax)
        }
    }

    pub fn nudge_down(&mut self) -> (r: Result<(), NudgeError>)
        requires
            old(self).wf(),
        ensures
            final(self).wf(),
            *final(self) == old(self).nudged(false),
            r == old(self).nudge_result(false),
    {
        if self.atk > 0 {
            self.atk = self.atk - 1;
            Ok(())
        } else {
            Err(NudgeError::AtMin)
        }
    }

    pub fn nudge(&mut self, up: bool) -> (r: Result<(), NudgeError>)
        requires
            old(self).wf(),
        ensures
            final(self).wf(),
            *final(self) == old(self).nudged(up),
            r == old(self).nudge_result(up),
    {
        if up {
            self.nudge_up()
        } else {
            self.nudge_down()
        }
    }
}

/// Wavetable decay, 0 to 16, erroring at either end.
#[derive(Clone, Copy, Debug, PartialEq, Eq, Structural)]
pub struct WaveDecay {
    pub decay: u8,
}

impl WaveDecay {
    /// Decay never exceeds 16.
    pub open spec fn wf(self) -> bool {
        self.decay <= 16
    }

    /// The decay after a nudge: one unit in the given direction, unchanged
    /// at either end.
    pub open spec fn nudged(self, up: bool) -> WaveDecay {
        if up {
            if self.decay < 16 {
                WaveDecay { decay: (self.decay + 1) as u8 }
            } else {
                self
            }
        } else {
            if self.decay > 0 {
                WaveDecay { decay: (self.decay - 1) as u8 }
            } else {
                self
            }
        }
    }

    /// A nudge fails exactly at the requested end.
    pub open spec fn nudge_result(self, up: bool) -> Result<(), NudgeError> {
        if up {
            if self.decay < 16 {
                Ok(())
            } else {
                Err(NudgeError::AtMax)
            }
        } else {
            if self.decay > 0 {
                Ok(())
            } else {
                Err(NudgeError::AtMin)
            }
        }
    }

    pub fn nudge_up(&mut self) -> (r: Result<(), NudgeError>)
        requires
            old(self).wf(),
        ensures
            final(self).wf(),
            *final(self) == old(self).nudged(true),
            r == old(self).nudge_result(true),
    {
        if self.decay < 16 {
            self.decay = self.decay + 1;
            Ok(())
        } else {
            Err(NudgeError::AtMax)
        }
    }

    pub fn nudge_down(&mut self) -> (r: Result<(), NudgeError>)
        requires
            old(self).wf(),
        ensures
            final(self).wf(),
            *final(self) == old(self).nudged(false),
            r == old(self).nudge_result(false),
    {
        if self.decay > 0 {
            self.decay = self.decay - 1;
            Ok(())
        } else {
            Err(NudgeError::AtMin)
        }
    }

    pub fn nudge(&mut self, up: bool) -> (r: Result<(), NudgeError>)
        requires
            old(self).wf(),
        ensures
            final(self).wf(),
            *final(self) == old(self).nudged(up),
            r == old(self).nudge_result(up),
    {
        if up {
            self.nudge_up()
        } else {
            self.nudge_down()
        }
    }
}

/// The parameter bundle of a wavetable channel: slots 0 to 7 hold voice A's
/// shape and type, voice B's shape and type, the voice selector, volume,
/// attack and decay.
#[derive(Clone, Copy, Debug, PartialEq, Eq, Structural)]
pub struct WaveChannelParams {
    pub shape_a: WaveShape,
    pub type_a: WaveType,
    pub shape_b: WaveShape,
    pub type_b: WaveType,
    pub voice: Voice,
    pub volume: WaveVolume,
    pub attack: WaveAttack,
    pub decay: WaveDecay,
}

impl WaveChannelParams {
    /// The bundle of a fresh channel: voice A a sine, voice B a saw, both on
    /// wavetable A.
    pub open spec fn default_spec() -> WaveChannelParams {
        WaveChannelParams {
            shape_a: WaveShape { shape: WaveShapeType::Sin, voice: true },
            type_a: WaveType { wave_type: WaveTypeType::A, voice: true },
            shape_b: WaveShape { shape: WaveShapeType::Saw, voice: false },
            type_b: WaveType { wave_type: WaveTypeType::A, voice: false },
            voice: Voice::A,
            volume: WaveVolume { level: 0 },
            attack: WaveAttack { atk: 0 },
            decay: WaveDecay { decay: 0 },
        }
    }

    pub fn new() -> (r: WaveChannelParams)
        ensures
            r == WaveChannelParams::default_spec(),
            r.wf(),
    {
        WaveChannelParams {
            shape_a: WaveShape { shape: WaveShapeType::Sin, voice: true },
            type_a: WaveType { wave_type: WaveTypeType::A, voice: true },
            shape_b: WaveShape { shape: WaveShapeType::Saw, voice: false },
            type_b: WaveType { wave_type: WaveTypeType::A, voice: false },
            voice: Voice::A,
            volume: WaveVolume { level: 0 },
            attack: WaveAttack { atk: 0 },
            decay: WaveDecay { decay: 0 },
        }
    }
}

impl InstrumentParams for WaveChannelParams {
    open spec fn wf(self) -> bool {
        self.volume.wf() && self.attack.wf() && self.decay.wf()
    }

    open spec fn param_nudged(self, i: int, up: bool) -> WaveChannelParams {
        if i == 0 {
            WaveChannelParams { shape_a: self.shape_a.nudged(up), ..self }
        } else if i == 1 {
            WaveChannelParams { type_a: self.type_a.nudged(up), ..self }
        } else if i == 2 {
            WaveChannelParams { shape_b: self.shape_b.nudged(up), ..self }
        } else if i == 3 {
            WaveChannelParams { type_b: self.type_b.nudged(up), ..self }
        } else if i == 4 {
            WaveChannelParams { voice: self.voice.nudged(up), ..self }
        } else if i == 5 {
            WaveChannelParams { volume: self.volume.nudged(up), ..self }
        } else if i == 6 {
            WaveChannelParams { attack: self.attack.nudged(up), ..self }
        } else if i == 7 {
            WaveChannelParams { decay: self.decay.nudged(up), ..self }
        } else {
            self
        }
    }

    open spec fn param_nudge_result(self, i: int, up: bool) -> Result<(), NudgeError> {
        if i == 0 {
            self.shape_a.nudge_result(up)
        } else if i == 1 {
            self.type_a.nudge_result(up)
        } else if i == 2 {
            self.shape_b.nudge_result(up)
        } else if i == 3 {
            self.type_b.nudge_result(up)
        } else if i == 4 {
            self.voice.nudge_result(up)
        } else if i == 5 {
            self.volume.nudge_result(up)
        } else if i == 6 {
            self.attack.nudge_result(up)
        } else if i == 7 {
            self.decay.nudge_result(up)
        } else {
            Err(NudgeError::BadParamIndex)
        }
    }

    fn nudge_param(&mut self, param_i: usize, up: bool) -> Result<(), NudgeError> {
        if param_i == 0 {
            self.shape_a.nudge(up)
        } else if param_i == 1 {
            self.type_a.nudge(up)
        } else if param_i == 2 {
            self.shape_b.nudge(up)
        } else if param_i == 3 {
            self.type_b.nudge(up)
        } else if param_i == 4 {
            self.voice.nudge(up)
        } else if param_i == 5 {
            self.volume.nudge(up)
        } else if param_i == 6 {
            self.attack.nudge(up)
        } else if param_i == 7 {
            self.decay.nudge(up)
        } else {
            Err(NudgeError::BadParamIndex)
        }
    }
}

/// A wavetable channel: 16 steps of notes and wavetable parameters.
#[derive(Clone, Debug, PartialEq, Eq)]
pub struct WaveChannel {
    pub steps: Vec<Step<WaveChannelParams>>,
}

impl WaveChannel {
    /// A channel owns exactly 16 well-formed steps.
    pub open spec fn wf(self) -> bool {
        self.steps@.len() == STEPS_PER_CHANNEL && steps_wf(self.steps@)
    }

    /// A fresh channel: every step silent, at note 0, with default
    /// parameters.
    pub fn new() -> (r: WaveChannel)
        ensures
            r.wf(),
            forall|i: int|
                0 <= i < STEPS_PER_CHANNEL ==> r.steps@[i] == (Step {
                    note: 0u8,
                    params: WaveChannelParams::default_spec(),
                    muted: false,
                }),
    {
        let mut steps: Vec<Step<WaveChannelParams>> = Vec::new();
        let mut i: usize = 0;
        while i < STEPS_PER_CHANNEL
            invariant
                i <= STEPS_PER_CHANNEL,
                steps@.len() == i,
                forall|k: int|
                    0 <= k < i ==> steps@[k] == (Step {
                        note: 0u8,
                        params: WaveChannelParams::default_spec(),
                        muted: false,
                    }),
            decreases STEPS_PER_CHANNEL - i,
        {
            steps.push(Step { note: 0, params: WaveChannelParams::new(), muted: false });
            i = i + 1;
        }
        WaveChannel { steps }
    }

    /// Nudge every step of the channel: parameter slot `i` when `param_num`
    /// is `Some(i)`, each step's note otherwise. A failing step does not stop
    /// the loop; the first failure is reported.
    pub fn nudge(&mut self, up: bool, param_num: Option<usize>) -> (r: Result<(), NudgeError>)
        requires
            old(self).wf(),
        ensures
            final(self).wf(),
            forall|i: int|
                0 <= i < STEPS_PER_CHANNEL ==> final(self).steps@[i] == old(self).steps@[i].nudged(
                    up,
                    param_num,
                ),
            r == steps_nudge_result(old(self).steps@, up, param_num),
    {
        nudge_steps(&mut self.steps, up, param_num)
    }

    /// Nudge a single step of the channel, chosen by `step_num`.
    pub fn nudge_step(&mut self, step_num: usize, up: bool, param_num: Option<usize>) -> (r: Result<
        (),
        NudgeError,
    >)
        requires
            old(self).wf(),
            step_num < STEPS_PER_CHANNEL,
        ensures
            final(self).wf(),
            final(self).steps@[step_num as int] == old(self).steps@[step_num as int].nudged(
                up,
                param_num,
            ),
            forall|i: int|
                0 <= i < STEPS_PER_CHANNEL && i != step_num ==> final(self).steps@[i] == old(
                    self,
                ).steps@[i],
            r == old(self).steps@[step_num as int].nudge_result(up, param_num),
    {
        let mut s = self.steps[step_num];
        let r = s.nudge(up, param_num);
        self.steps.set(step_num, s);
        r
    }
}

} // verus!
