//! The pulse channel with frequency sweep: the plain pulse parameters plus
//! sweep amount, sweep time and sweep direction, over 16 steps.

use vstd::prelude::*;

use crate::params::{NudgeError, PulseDir, PulseShape, TimeParam, Volume};
use crate::step::{steps_nudge_result, steps_wf, nudge_steps, InstrumentParams, Step};
use crate::STEPS_PER_CHANNEL;

verus! {

/// Sweep amount: 0 or a power of two up to 64, nudged by doubling and
/// halving.
#[derive(Clone, Copy, Debug, PartialEq, Eq, Structural)]
pub struct Sweep {
    pub value: u8,
}

impl Sweep {
    /// A sweep amount is 0 or a power of two no greater than 64.
    pub open spec fn wf(self) -> bool {
        self.value == 0 || self.value == 1 || self.value == 2 || self.value == 4 || self.value == 8
            || self.value == 16 || self.value == 32 || self.value == 64
    }

    /// A fresh sweep: off.
    pub fn new() -> (r: Sweep)
        ensures
            r == (Sweep { value: 0 }),
    {
        Sweep { value: 0 }
    }

    /// The amount after a nudge: up doubles (0 becomes 1) and stops at 64;
    /// down halves and stops at 0.
    pub open spec fn nudged(self, up: bool) -> Sweep {
        if up {
            if 0 < self.value < 64 {
                Sweep { value: (self.value * 2) as u8 }
            } else if self.value == 0 {
                Sweep { value: 1 }
            } else {
                self
            }
        } else {
            if self.value > 0 {
                Sweep { value: self.value / 2 }
            } else {
                self
            }
        }
    }

    /// A nudge fails exactly at the requested end: above 64 going up, below 0
    /// going down.
    pub open spec fn nudge_result(self, up: bool) -> Result<(), NudgeError> {
        if up {
            if self.value >= 64 {
                Err(NudgeError::AtMax)
            } else {
                Ok(())
            }
        } else {
            if self.value == 0 {
                Err(NudgeError::AtMin)
            } else {
                Ok(())
            }
        }
    }

    pub fn nudge_up(&mut self) -> (r: Result<(), NudgeError>)
        requires
            old(self).wf(),
        ensures
            final(self).wf(),
            *final(self) == old(self).nudged(true),
            r == old(self).nudge_result(true),
    {
        if self.value > 0 && self.value < 64 {
            self.value = self.value * 2;
            Ok(())
        } else if self.value == 0 {
            self.value = 1;
            Ok(())
        } else {
            Err(NudgeError::AtMax)
        }
    }

    pub fn nudge_down(&mut self) -> (r: Result<(), NudgeError>)
        requires
            old(self).wf(),
        ensures
            final(self).wf(),
            *final(self) == old(self).nudged(false),
            r == old(self).nudge_result(false),
    {
        if self.value > 0 {
            self.value = self.value / 2;
            Ok(())
        } else {
            Err(NudgeError::AtMin)
        }
    }

    pub fn nudge(&mut self, up: bool) -> (r: Result<(), NudgeError>)
        requires
            old(self).wf(),
        ensures
            final(self).wf(),
            *final(self) == old(self).nudged(up),
            r == old(self).nudge_result(up),
    {
        if up {
            self.nudge_up()
        } else {
            self.nudge_down()
        }
    }
}

/// Sweep time: eight ordered durations, the shortest being `Off`.
#[derive(Clone, Copy, Debug, PartialEq, Eq, Structural)]
pub enum SweepTime {
    Off,
    SevenMS,
    FifteenMS,
    TwentyThreeMS,
    ThirtyOneMS,
    ThirtyNineMS,
    FortySixMS,
    FiftyFourMS,
}

impl SweepTime {
    /// A fresh sweep time: off.
    pub fn new() -> (r: SweepTime)
        ensures
            r == SweepTime::Off,
    {
        SweepTime::Off
    }

    /// The time after a nudge: one duration in the given direction, unchanged
    /// at either end.
    pub open spec fn nudged(self, up: bool) -> SweepTime {
        if up {
            match self {
                SweepTime::Off => SweepTime::SevenMS,
                SweepTime::SevenMS => SweepTime::FifteenMS,
                SweepTime::FifteenMS => SweepTime::TwentyThreeMS,
                SweepTime::TwentyThreeMS => SweepTime::ThirtyOneMS,
                SweepTime::ThirtyOneMS => SweepTime::ThirtyNineMS,
                SweepTime::ThirtyNineMS => SweepTime::FortySixMS,
                SweepTime::FortySixMS => SweepTime::FiftyFourMS,
                SweepTime::FiftyFourMS => SweepTime::FiftyFourMS,
            }
        } else {
            match self {
                SweepTime::Off => SweepTime::Off,
                SweepTime::SevenMS => SweepTime::Off,
                SweepTime::FifteenMS => SweepTime::SevenMS,
                SweepTime::TwentyThreeMS => SweepTime::FifteenMS,
                SweepTime::ThirtyOneMS => SweepTime::TwentyThreeMS,
                SweepTime::ThirtyNineMS => SweepTime::ThirtyOneMS,
                SweepTime::FortySixMS => SweepTime::ThirtyNineMS,
                SweepTime::FiftyFourMS => SweepTime::FortySixMS,
            }
        }
    }

    /// A nudge succeeds unless the time already sits at the requested end.
    pub open spec fn nudge_result(self, up: bool) -> Result<(), NudgeError> {
        if up {
            if self is FiftyFourMS {
                Err(NudgeError::AtMax)
            } else {
                Ok(())
            }
        } else {
            if self is Off {
                Err(NudgeError::AtMin)
            } else {
                Ok(())
            }
        }
    }

    pub fn nudge_up(&mut self) -> (r: Result<(), NudgeError>)
        ensures
            *final(self) == old(self).nudged(true),
            r == old(self).nudge_result(true),
    {
        match *self {
            SweepTime::FiftyFourMS => Err(NudgeError::AtMax),
            SweepTime::Off => {
                *self = SweepTime::SevenMS;
                Ok(())
            },
            SweepTime::SevenMS => {
                *self = SweepTime::FifteenMS;
                Ok(())
            },
            SweepTime::FifteenMS => {
                *self = SweepTime::TwentyThreeMS;
                Ok(())
            },
            SweepTime::TwentyThreeMS => {
                *self = SweepTime::ThirtyOneMS;
                Ok(())
            },
            SweepTime::ThirtyOneMS => {
                *self = SweepTime::ThirtyNineMS;
                Ok(())
            },
            SweepTime::ThirtyNineMS => {
                *self = SweepTime::FortySixMS;
                Ok(())
            },
            SweepTime::FortySixMS => {
                *self = SweepTime::FiftyFourMS;
                Ok(())
            },
        }
    }

    pub fn nudge_down(&mut self) -> (r: Result<(), NudgeError>)
        ensures
            *final(self) == old(self).nudged(false),
            r == old(self).nudge_result(false),
    {
        match *self {
            SweepTime::Off => Err(NudgeError::AtMin),
            SweepTime::SevenMS => {
                *self = SweepTime::Off;
                Ok(())
            },
            SweepTime::FifteenMS => {
                *self = SweepTime::SevenMS;
                Ok(())
            },
            SweepTime::TwentyThreeMS => {
                *self = SweepTime::FifteenMS;
                Ok(())
            },
            SweepTime::ThirtyOneMS => {
                *self = SweepTime::TwentyThreeMS;
                Ok(())
            },
            SweepTime::ThirtyNineMS => {
                *self = SweepTime::ThirtyOneMS;
                Ok(())
            },
            SweepTime::FortySixMS => {
                *self = SweepTime::ThirtyNineMS;
                Ok(())
            },
            SweepTime::FiftyFourMS => {
                *self = SweepTime::FortySixMS;
                Ok(())
            },
        }
    }

    pub fn nudge(&mut self, up: bool) -> (r: Result<(), NudgeError>)
        ensures
            *final(self) == old(self).nudged(up),
            r == old(self).nudge_result(up),
    {
        if up {
            self.nudge_up()
        } else {
            self.nudge_down()
        }
    }
}

/// Sweep direction: a pure toggle in either direction, never failing.
#[derive(Clone, Copy, Debug, PartialEq, Eq, Structural)]
pub struct SweepDir {
    pub up: bool,
}

impl SweepDir {
    /// A fresh downward direction.
    pub fn new() -> (r: SweepDir)
        ensures
            r == (SweepDir { up: false }),
    {
        SweepDir { up: false }
    }

    /// Either nudge flips the direction.
    pub open spec fn nudged(self, up: bool) -> SweepDir {
        SweepDir { up: !self.up }
    }

    /// A direction nudge always succeeds.
    pub open spec fn nudge_result(self, up: bool) -> Result<(), NudgeError> {
        Ok(())
    }

    pub fn nudge_up(&mut self) -> (r: Result<(), NudgeError>)
        ensures
            *final(self) == old(self).nudged(true),
            r == old(self).nudge_result(true),
    {
        self.up = !self.up;
        Ok(())
    }

    pub fn nudge_down(&mut self) -> (r: Result<(), NudgeError>)
        ensures
            *final(self) == old(self).nudged(false),
            r == old(self).nudge_result(false),
    {
        self.up = !self.up;
        Ok(())
    }

    pub fn nudge(&mut self, up: bool) -> (r: Result<(), NudgeError>)
        ensures
            *final(self) == old(self).nudged(up),
            r == old(self).nudge_result(up),
    {
        if up {
            self.nudge_up()
        } else {
            self.nudge_down()
        }
    }
}

/// The parameter bundle of a sweeping pulse channel: slots 0 to 6 hold shape,
/// volume, time, direction, sweep amount, sweep time and sweep direction; the
/// last slot is empty.
#[derive(Clone, Copy, Debug, PartialEq, Eq, Structural)]
pub struct PulseSweepChannelParams {
    pub shape: PulseShape,
    pub volume: Volume,
    pub time: TimeParam,
    pub dir: PulseDir,
    pub sweep: Sweep,
    pub sweep_time: SweepTime,
    pub sweep_dir: SweepDir,
}

impl PulseSweepChannelParams {
    /// The bundle of a fresh channel.
    pub open spec fn default_spec() -> PulseSweepChannelParams {
        PulseSweepChannelParams {
            shape: PulseShape::Half,
            volume: Volume { value: 0 },
            time: TimeParam::SixTwoMS,
            dir: PulseDir { up: false },
            sweep: Sweep { value: 0 },
            sweep_time: SweepTime::Off,
            sweep_dir: SweepDir { up: false },
        }
    }

    pub fn new() -> (r: PulseSweepChannelParams)
        ensures
            r == PulseSweepChannelParams::default_spec(),
            r.wf(),
    {
        PulseSweepChannelParams {
            shape: PulseShape::new(),
            volume: Volume::new(),
            time: TimeParam::new(),
            dir: PulseDir::new(),
            sweep: Sweep::new(),
            sweep_time: SweepTime::new(),
            sweep_dir: SweepDir::new(),
        }
    }
}

impl InstrumentParams for PulseSweepChannelParams {
    open spec fn wf(self) -> bool {
        self.volume.wf() && self.sweep.wf()
    }

    open spec fn param_nudged(self, i: int, up: bool) -> PulseSweepChannelParams {
        if i == 0 {
            PulseSweepChannelParams { shape: self.shape.nudged(up), ..self }
        } else if i == 1 {
            PulseSweepChannelParams { volume: self.volume.nudged(up), ..self }
        } else if i == 2 {
            PulseSweepChannelParams { time: self.time.nudged(up), ..self }
        } else if i == 3 {
            PulseSweepChannelParams { dir: self.dir.nudged(up), ..self }
        } else if i == 4 {
            PulseSweepChannelParams { sweep: self.sweep.nudged(up), ..self }
        } else if i == 5 {
            PulseSweepChannelParams { sweep_time: self.sweep_time.nudged(up), ..self }
        } else if i == 6 {
            PulseSweepChannelParams { sweep_dir: self.sweep_dir.nudged(up), ..self }
        } else {
            self
        }
    }

    open spec fn param_nudge_result(self, i: int, up: bool) -> Result<(), NudgeError> {
        if i == 0 {
            self.shape.nudge_result(up)
        } else if i == 1 {
            self.volume.nudge_result(up)
        } else if i == 2 {
            self.time.nudge_result(up)
        } else if i == 3 {
            self.dir.nudge_result(up)
        } else if i == 4 {
            self.sweep.nudge_result(up)
        } else if i == 5 {
            self.sweep_time.nudge_result(up)
        } else if i == 6 {
            self.sweep_dir.nudge_result(up)
        } else {
            Err(NudgeError::BadParamIndex)
        }
    }

    fn nudge_param(&mut self, param_i: usize, up: bool) -> Result<(), NudgeError> {
        if param_i == 0 {
            self.shape.nudge(up)
        } else if param_i == 1 {
            self.volume.nudge(up)
        } else if param_i == 2 {
            self.time.nudge(up)
        } else if param_i == 3 {
            self.dir.nudge(up)
        } else if param_i == 4 {
            self.sweep.nudge(up)
        } else if param_i == 5 {
            self.sweep_time.nudge(up)
        } else if param_i == 6 {
            self.sweep_dir.nudge(up)
        } else {
            Err(NudgeError::BadParamIndex)
        }
    }
}

/// A sweeping pulse channel: 16 steps of notes and pulse-with-sweep
/// parameters.
#[derive(Clone, Debug, PartialEq, Eq)]
pub struct PulseSweepChannel {
    pub steps: Vec<Step<PulseSweepChannelParams>>,
}

impl PulseSweepChannel {
    /// A channel owns exactly 16 well-formed steps.
    pub open spec fn wf(self) -> bool {
        self.steps@.len() == STEPS_PER_CHANNEL && steps_wf(self.steps@)
    }

    /// A fresh channel: every step silent, at note 0, with default
    /// parameters.
    pub fn new() -> (r: PulseSweepChannel)
        ensures
            r.wf(),
            forall|i: int|
                0 <= i < STEPS_PER_CHANNEL ==> r.steps@[i] == (Step {
                    note: 0u8,
                    params: PulseSweepChannelParams::default_spec(),
                    muted: false,
                }),
    {
        let mut steps: Vec<Step<PulseSweepChannelParams>> = Vec::new();
        let mut i: usize = 0;
        while i < STEPS_PER_CHANNEL
            invariant
                i <= STEPS_PER_CHANNEL,
                steps@.len() == i,
                forall|k: int|
                    0 <= k < i ==> steps@[k] == (Step {
                        note: 0u8,
                        params: PulseSweepChannelParams::default_spec(),
                        muted: false,
                    }),
            decreases STEPS_PER_CHANNEL - i,
        {
            steps.push(Step { note: 0, params: PulseSweepChannelParams::new(), muted: false });
            i = i + 1;
        }
        PulseSweepChannel { steps }
    }

    /// Nudge every step of the channel: parameter slot `i` when `param_num`
    /// is `Some(i)`, each step's note otherwise. A failing step does not stop
    /// the loop; the first failure is reported.
    pub fn nudge(&mut self, up: bool, param_num: Option<usize>) -> (r: Result<(), NudgeError>)
        requires
            old(self).wf(),
        ensures
            final(self).wf(),
            forall|i: int|
                0 <= i < STEPS_PER_CHANNEL ==> final(self).steps@[i] == old(self).steps@[i].nudged(
                    up,
                    param_num,
                ),
            r == steps_nudge_result(old(self).steps@, up, param_num),
    {
        nudge_steps(&mut self.steps, up, param_num)
    }

    /// Nudge a single step of the channel, chosen by `step_num`.
    pub fn nudge_step(&mut self, step_num: usize, up: bool, param_num: Option<usize>) -> (r: Result<
        (),
        NudgeError,
    >)
        requires
            old(self).wf(),
            step_num < STEPS_PER_CHANNEL,
        ensures
            final(self).wf(),
            final(self).steps@[step_num as int] == old(self).steps@[step_num as int].nudged(
                up,
                param_num,
            ),
            forall|i: int|
                0 <= i < STEPS_PER_CHANNEL && i != step_num ==> final(self).steps@[i] == old(
                    self,
                ).steps@[i],
            r == old(self).steps@[step_num as int].nudge_result(up, param_num),
    {
        let mut s = self.steps[step_num];
        let r = s.nudge(up, param_num);
        self.steps.set(step_num, s);
        r
    }
}

} // verus!
