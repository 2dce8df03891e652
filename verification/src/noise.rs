//! The noise channel: mode, volume, decay time and direction over 16 steps.

use vstd::prelude::*;

use crate::params::{NudgeError, PulseDir, TimeParam, Volume};
use crate::step::{steps_nudge_result, steps_wf, nudge_steps, InstrumentParams, Step};
use crate::STEPS_PER_CHANNEL;

verus! {

/// Noise generator mode: `a` selects mode A, otherwise mode B. Nudging up
/// moves A to B and fails when already at B; nudging down moves B to A and
/// fails when already at A.
#[derive(Clone, Copy, Debug, PartialEq, Eq, Structural)]
pub struct NoiseMode {
    pub a: bool,
}

impl NoiseMode {
    /// A fresh mode: A.
    pub fn new() -> (r: NoiseMode)
        ensures
            r == (NoiseMode { a: true }),
    {
        NoiseMode { a: true }
    }

    /// The mode after a nudge: the other mode, unless already at the
    /// requested end.
    pub open spec fn nudged(self, up: bool) -> NoiseMode {
        if up {
            NoiseMode { a: false }
        } else {
            NoiseMode { a: true }
        }
    }

    /// A nudge fails exactly when the mode already sits at the requested end.
    pub open spec fn nudge_result(self, up: bool) -> Result<(), NudgeError> {
        if up {
            if self.a {
                Ok(())
            } else {
                Err(NudgeError::AtMax)
            }
        } else {
            if self.a {
                Err(NudgeError::AtMin)
            } else {
                Ok(())
            }
        }
    }

    pub fn nudge_up(&mut self) -> (r: Result<(), NudgeError>)
        ensures
            *final(self) == old(self).nudged(true),
            r == old(self).nudge_result(true),
    {
        let was_a = self.a;
        self.a = false;
        if was_a {
            Ok(())
        } else {
            Err(NudgeError::AtMax)
        }
    }

    pub fn nudge_down(&mut self) -> (r: Result<(), NudgeError>)
        ensures
            *final(self) == old(self).nudged(false),
            r == old(self).nudge_result(false),
    {
        let was_a = self.a;
        self.a = true;
        if was_a {
            Err(NudgeError::AtMin)
        } else {
            Ok(())
        }
    }

    pub fn nudge(&mut self, up: bool) -> (r: Result<(), NudgeError>)
        ensures
            *final(self) == old(self).nudged(up),
            r == old(self).nudge_result(up),
    {
        if up {
            self.nudge_up()
        } else {
            self.nudge_down()
        }
    }
}

/// The parameter bundle of a noise channel: slots 0 to 3 hold mode, volume,
/// time and direction; the remaining slots are empty.
#[derive(Clone, Copy, Debug, PartialEq, Eq, Structural)]
pub struct NoiseChannelParams {
    pub mode: NoiseMode,
    pub volume: Volume,
    pub time: TimeParam,
    pub dir: PulseDir,
}

impl NoiseChannelParams {
    /// The bundle of a fresh channel.
    pub open spec fn default_spec() -> NoiseChannelParams {
        NoiseChannelParams {
            mode: NoiseMode { a: true },
            volume: Volume { value: 0 },
            time: TimeParam::SixTwoMS,
            dir: PulseDir { up: false },
        }
    }

    pub fn new() -> (r: NoiseChannelParams)
        ensures
            r == NoiseChannelParams::default_spec(),
            r.wf(),
    {
        NoiseChannelParams {
            mode: NoiseMode::new(),
            volume: Volume::new(),
            time: TimeParam::new(),
            dir: PulseDir::new(),
        }
    }
}

impl InstrumentParams for NoiseChannelParams {
    open spec fn wf(self) -> bool {
        self.volume.wf()
    }

    open spec fn param_nudged(self, i: int, up: bool) -> NoiseChannelParams {
        if i == 0 {
            NoiseChannelParams { mode: self.mode.nudged(up), ..self }
        } else if i == 1 {
            NoiseChannelParams { volume: self.volume.nudged(up), ..self }
        } else if i == 2 {
            NoiseChannelParams { time: self.time.nudged(up), ..self }
        } else if i == 3 {
            NoiseChannelParams { dir: self.dir.nudged(up), ..self }
        } else {
            self
        }
    }

    open spec fn param_nudge_result(self, i: int, up: bool) -> Result<(), NudgeError> {
        if i == 0 {
            self.mode.nudge_result(up)
        } else if i == 1 {
            self.volume.nudge_result(up)
        } else if i == 2 {
            self.time.nudge_result(up)
        } else if i == 3 {
            self.dir.nudge_result(up)
        } else {
            Err(NudgeError::BadParamIndex)
        }
    }

    fn nudge_param(&mut self, param_i: usize, up: bool) -> Result<(), NudgeError> {
        if param_i == 0 {
            self.mode.nudge(up)
        } else if param_i == 1 {
            self.volume.nudge(up)
        } else if param_i == 2 {
            self.time.nudge(up)
        } else if param_i == 3 {
            self.dir.nudge(up)
        } else {
            Err(NudgeError::BadParamIndex)
        }
    }
}

/// A noise channel: 16 steps of notes and noise parameters.
#[derive(Clone, Debug, PartialEq, Eq)]
pub struct NoiseChannel {
    pub steps: Vec<Step<NoiseChannelParams>>,
}

impl NoiseChannel {
    /// A channel owns exactly 16 well-formed steps.
    pub open spec fn wf(self) -> bool {
        self.steps@.len() == STEPS_PER_CHANNEL && steps_wf(self.steps@)
    }

    /// A fresh channel: every step silent, at note 0, with default
    /// parameters.
    pub fn new() -> (r: NoiseChannel)
        ensures
            r.wf(),
            forall|i: int|
                0 <= i < STEPS_PER_CHANNEL ==> r.steps@[i] == (Step {
                    note: 0u8,
                    params: NoiseChannelParams::default_spec(),
                    muted: false,
                }),
    {
        let mut steps: Vec<Step<NoiseChannelParams>> = Vec::new();
        let mut i: usize = 0;
        while i < STEPS_PER_CHANNEL
            invariant
                i <= STEPS_PER_CHANNEL,
                steps@.len() == i,
                forall|k: int|
                    0 <= k < i ==> steps@[k] == (Step {
                        note: 0u8,
                        params: NoiseChannelParams::default_spec(),
                        muted: false,
                    }),
            decreases STEPS_PER_CHANNEL - i,
        {
            steps.push(Step { note: 0, params: NoiseChannelParams::new(), muted: false });
            i = i + 1;
        }
        NoiseChannel { steps }
    }

    /// Nudge every step of the channel: parameter slot `i` when `param_num`
    /// is `Some(i)`, each step's note otherwise. A failing step does not stop
    /// the loop; the first failure is reported.
    pub fn nudge(&mut self, up: bool, param_num: Option<usize>) -> (r: Result<(), NudgeError>)
        requires
            old(self).wf(),
        ensures
            final(self).wf(),
            forall|i: int|
                0 <= i < STEPS_PER_CHANNEL ==> final(self).steps@[i] == old(self).steps@[i].nudged(
                    up,
                    param_num,
                ),
            r == steps_nudge_result(old(self).steps@, up, param_num),
    {
        nudge_steps(&mut self.steps, up, param_num)
    }

    /// Nudge a single step of the channel, chosen by `step_num`.
    pub fn nudge_step(&mut self, step_num: usize, up: bool, param_num: Option<usize>) -> (r: Result<
        (),
        NudgeError,
    >)
        requires
            old(self).wf(),
            step_num < STEPS_PER_CHANNEL,
        ensures
            final(self).wf(),
            final(self).steps@[step_num as int] == old(self).steps@[step_num as int].nudged(
                up,
                param_num,
            ),
            forall|i: int|
                0 <= i < STEPS_PER_CHANNEL && i != step_num ==> final(self).steps@[i] == old(
                    self,
                ).steps@[i],
            r == old(self).steps@[step_num as int].nudge_result(up, param_num),
    {
        let mut s = self.steps[step_num];
        let r = s.nudge(up, param_num);
        self.steps.set(step_num, s);
        r
    }
}

} // verus!
