//! The plain pulse channel: duty-cycle shape, volume, decay time and
//! direction over 16 steps.

use vstd::prelude::*;

use crate::params::{NudgeError, PulseDir, PulseShape, TimeParam, Volume};
use crate::step::{steps_nudge_result, steps_wf, nudge_steps, InstrumentParams, Step};
use crate::STEPS_PER_CHANNEL;

verus! {

/// The parameter bundle of a pulse channel: slots 0 to 3 hold shape, volume,
/// time and direction; the remaining slots are empty.
#[derive(Clone, Copy, Debug, PartialEq, Eq, Structural)]
pub struct PulseChannelParams {
    pub shape: PulseShape,
    pub volume: Volume,
    pub time: TimeParam,
    pub dir: PulseDir,
}

impl PulseChannelParams {
    /// The bundle of a fresh channel.
    pub open spec fn default_spec() -> PulseChannelParams {
        PulseChannelParams {
            shape: PulseShape::Half,
            volume: Volume { value: 0 },
            time: TimeParam::SixTwoMS,
            dir: PulseDir { up: false },
        }
    }

    pub fn new() -> (r: PulseChannelParams)
        ensures
            r == PulseChannelParams::default_spec(),
            r.wf(),
    {
        PulseChannelParams {
            shape: PulseShape::new(),
            volume: Volume::new(),
            time: TimeParam::new(),
            dir: PulseDir::new(),
        }
    }
}

impl InstrumentParams for PulseChannelParams {
    open spec fn wf(self) -> bool {
        self.volume.wf()
    }

    open spec fn param_nudged(self, i: int, up: bool) -> PulseChannelParams {
        if i == 0 {
            PulseChannelParams { shape: self.shape.nudged(up), ..self }
        } else if i == 1 {
            PulseChannelParams { volume: self.volume.nudged(up), ..self }
        } else if i == 2 {
            PulseChannelParams { time: self.time.nudged(up), ..self }
        } else if i == 3 {
            PulseChannelParams { dir: self.dir.nudged(up), ..self }
        } else {
            self
        }
    }

    open spec fn param_nudge_result(self, i: int, up: bool) -> Result<(), NudgeError> {
        if i == 0 {
            self.shape.nudge_result(up)
        } else if i == 1 {
            self.volume.nudge_result(up)
        } else if i == 2 {
            self.time.nudge_result(up)
        } else if i == 3 {
            self.dir.nudge_result(up)
        } else {
            Err(NudgeError::BadParamIndex)
        }
    }

    fn nudge_param(&mut self, param_i: usize, up: bool) -> Result<(), NudgeError> {
        if param_i == 0 {
            self.shape.nudge(up)
        } else if param_i == 1 {
            self.volume.nudge(up)
        } else if param_i == 2 {
            self.time.nudge(up)
        } else if param_i == 3 {
            self.dir.nudge(up)
        } else {
            Err(NudgeError::BadParamIndex)
        }
    }
}

/// A pulse channel: 16 steps of notes and pulse parameters.
#[derive(Clone, Debug, PartialEq, Eq)]
pub struct PulseChannel {
    pub steps: Vec<Step<PulseChannelParams>>,
}

impl PulseChannel {
    /// A channel owns exactly 16 well-formed steps.
    pub open spec fn wf(self) -> bool {
        self.steps@.len() == STEPS_PER_CHANNEL && steps_wf(self.steps@)
    }

    /// A fresh channel: every step silent, at note 0, with default
    /// parameters.
    pub fn new() -> (r: PulseChannel)
        ensures
            r.wf(),
            forall|i: int|
                0 <= i < STEPS_PER_CHANNEL ==> r.steps@[i] == (Step {
                    note: 0u8,
                    params: PulseChannelParams::default_spec(),
                    muted: false,
                }),
    {
        let mut steps: Vec<Step<PulseChannelParams>> = Vec::new();
        let mut i: usize = 0;
        while i < STEPS_PER_CHANNEL
            invariant
                i <= STEPS_PER_CHANNEL,
                steps@.len() == i,
                forall|k: int|
                    0 <= k < i ==> steps@[k] == (Step {
                        note: 0u8,
                        params: PulseChannelParams::default_spec(),
                        muted: false,
                    }),
            decreases STEPS_PER_CHANNEL - i,
        {
            steps.push(Step { note: 0, params: PulseChannelParams::new(), muted: false });
            i = i + 1;
        }
        PulseChannel { steps }
    }

    /// Nudge every step of the channel: parameter slot `i` when `param_num`
    /// is `Some(i)`, each step's note otherwise. A failing step does not stop
    /// the loop; the first failure is reported.
    pub fn nudge(&mut self, up: bool, param_num: Option<usize>) -> (r: Result<(), NudgeError>)
        requires
            old(self).wf(),
        ensures
            final(self).wf(),
            forall|i: int|
                0 <= i < STEPS_PER_CHANNEL ==> final(self).steps@[i] == old(self).steps@[i].nudged(
                    up,
                    param_num,
                ),
            r == steps_nudge_result(old(self).steps@, up, param_num),
    {
        nudge_steps(&mut self.steps, up, param_num)
    }

    /// Nudge a single step of the channel, chosen by `step_num`.
    pub fn nudge_step(&mut self, step_num: usize, up: bool, param_num: Option<usize>) -> (r: Result<
        (),
        NudgeError,
    >)
        requires
            old(self).wf(),
            step_num < STEPS_PER_CHANNEL,
        ensures
            final(self).wf(),
            final(self).steps@[step_num as int] == old(self).steps@[step_num as int].nudged(
                up,
                param_num,
            ),
            forall|i: int|
                0 <= i < STEPS_PER_CHANNEL && i != step_num ==> final(self).steps@[i] == old(
                    self,
                ).steps@[i],
            r == old(self).steps@[step_num as int].nudge_result(up, param_num),
    {
        let mut s = self.steps[step_num];
        let r = s.nudge(up, param_num);
        self.steps.set(step_num, s);
        r
    }
}

} // verus!
