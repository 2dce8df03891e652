//! Parameters shared by several channel kinds: pulse duty-cycle shape,
//! volume, decay time and pulse direction, each with its own bounds and its
//! own behaviour when a nudge runs past them.

use vstd::prelude::*;

verus! {

/// Why a nudge did not (fully) happen. Such errors are recoverable: callers
/// log them and carry on.
#[derive(Clone, Copy, Debug, PartialEq, Eq, Structural)]
pub enum NudgeError {
    /// The value already sits at its upper bound.
    AtMax,
    /// The value already sits at its lower bound.
    AtMin,
    /// The parameter slot number names no parameter of this channel.
    BadParamIndex,
    /// The pattern table holds no pattern at the requested index.
    NoPattern,
}

/// Pulse duty cycle: four ordered levels.
#[derive(Clone, Copy, Debug, PartialEq, Eq, Structural)]
pub enum PulseShape {
    Eighth,
    Quarter,
    Half,
    ThreeQuarters,
}

impl PulseShape {
    /// The starting shape of a fresh channel.
    pub fn new() -> (r: PulseShape)
        ensures
            r == PulseShape::Half,
    {
        PulseShape::Half
    }

    /// The shape after a nudge: one level in the given direction, unchanged
    /// at either end.
    pub open spec fn nudged(self, up: bool) -> PulseShape {
        if up {
            match self {
                PulseShape::Eighth => PulseShape::Quarter,
                PulseShape::Quarter => PulseShape::Half,
                PulseShape::Half => PulseShape::ThreeQuarters,
                PulseShape::ThreeQuarters => PulseShape::ThreeQuarters,
            }
        } else {
            match self {
                PulseShape::Eighth => PulseShape::Eighth,
                PulseShape::Quarter => PulseShape::Eighth,
                PulseShape::Half => PulseShape::Quarter,
                PulseShape::ThreeQuarters => PulseShape::Half,
            }
        }
    }

    /// A nudge succeeds unless the shape already sits at the requested end.
    pub open spec fn nudge_result(self, up: bool) -> Result<(), NudgeError> {
        if up {
            if self is ThreeQuarters {
                Err(NudgeError::AtMax)
            } else {
                Ok(())
            }
        } else {
            if self is Eighth {
                Err(NudgeError::AtMin)
            } else {
                Ok(())
            }
        }
    }

    pub fn nudge_up(&mut self) -> (r: Result<(), NudgeError>)
        ensures
            *final(self) == old(self).nudged(true),
            r == old(self).nudge_result(true),
    {
        match *self {
            PulseShape::ThreeQuarters => Err(NudgeError::AtMax),
            PulseShape::Half => {
                *self = PulseShape::ThreeQuarters;
                Ok(())
            },
            PulseShape::Quarter => {
                *self = PulseShape::Half;
                Ok(())
            },
            PulseShape::Eighth => {
                *self = PulseShape::Quarter;
                Ok(())
            },
        }
    }

    pub fn nudge_down(&mut self) -> (r: Result<(), NudgeError>)
        ensures
            *final(self) == old(self).nudged(false),
            r == old(self).nudge_result(false),
    {
        match *self {
            PulseShape::Eighth => Err(NudgeError::AtMin),
            PulseShape::Quarter => {
                *self = PulseShape::Eighth;
                Ok(())
            },
            PulseShape::Half => {
                *self = PulseShape::Quarter;
                Ok(())
            },
            PulseShape::ThreeQuarters => {
                *self = PulseShape::Half;
                Ok(())
            },
        }
    }

    pub fn nudge(&mut self, up: bool) -> (r: Result<(), NudgeError>)
        ensures
            *final(self) == old(self).nudged(up),
            r == old(self).nudge_result(up),
    {
        if up {
            self.nudge_up()
        } else {
            self.nudge_down()
        }
    }
}

/// Channel volume, 0 to 100, nudged in steps of 5. Nudging past the top
/// clamps to 100 and still reports failure; nudging past the bottom leaves
/// the value unchanged.
#[derive(Clone, Copy, Debug, PartialEq, Eq, Structural)]
pub struct Volume {
    pub value: u8,
}

impl Volume {
    /// Volume never exceeds 100.
    pub open spec fn wf(self) -> bool {
        self.value <= 100
    }

    /// A fresh, silent volume.
    pub fn new() -> (r: Volume)
        ensures
            r == (Volume { value: 0 }),
    {
        Volume { value: 0 }
    }

    /// The value after a nudge: up adds 5, clamping to 100 past the top;
    /// down subtracts 5, unchanged below 5.
    pub open spec fn nudged(self, up: bool) -> Volume {
        if up {
            if self.value <= 95 {
                Volume { value: (self.value + 5) as u8 }
            } else {
                Volume { value: 100 }
            }
        } else {
            if self.value >= 5 {
                Volume { value: (self.value - 5) as u8 }
            } else {
                self
            }
        }
    }

    /// A nudge up fails above 95 (while clamping); a nudge down fails
    /// below 5.
    pub open spec fn nudge_result(self, up: bool) -> Result<(), NudgeError> {
        if up {
            if self.value <= 95 {
                Ok(())
            } else {
                Err(NudgeError::AtMax)
            }
        } else {
            if self.value >= 5 {
                Ok(())
            } else {
                Err(NudgeError::AtMin)
            }
        }
    }

    pub fn nudge_up(&mut self) -> (r: Result<(), NudgeError>)
        requires
            old(self).wf(),
        ensures
            final(self).wf(),
            *final(self) == old(self).nudged(true),
            r == old(self).nudge_result(true),
    {
        if self.value <= 95 {
            self.value = self.value + 5;
            Ok(())
        } else {
            self.value = 100;
            Err(NudgeError::AtMax)
        }
    }

    pub fn nudge_down(&mut self) -> (r: Result<(), NudgeError>)
        requires
            old(self).wf(),
        ensures
            final(self).wf(),
            *final(self) == old(self).nudged(false),
            r == old(self).nudge_result(false),
    {
        if self.value >= 5 {
            self.value = self.value - 5;
            Ok(())
        } else {
            Err(NudgeError::AtMin)
        }
    }

    pub fn nudge(&mut self, up: bool) -> (r: Result<(), NudgeError>)
        requires
            old(self).wf(),
        ensures
            final(self).wf(),
            *final(self) == old(self).nudged(up),
            r == old(self).nudge_result(up),
    {
        if up {
            self.nudge_up()
        } else {
            self.nudge_down()
        }
    }
}

/// Decay time: eight ordered durations, the longest being `Off`.
#[derive(Clone, Copy, Debug, PartialEq, Eq, Structural)]
pub enum TimeParam {
    OneFiveMS,
    ThreeOneMS,
    FourSixMS,
    SixTwoMS,
    SevenEightMS,
    NineThreeMS,
    OneS,
    Off,
}

impl TimeParam {
    /// The starting time of a fresh channel.
    pub fn new() -> (r: TimeParam)
        ensures
            r == TimeParam::SixTwoMS,
    {
        TimeParam::SixTwoMS
    }

    /// The time after a nudge: one duration in the given direction, unchanged
    /// at either end.
    pub open spec fn nudged(self, up: bool) -> TimeParam {
        if up {
            match self {
                TimeParam::OneFiveMS => TimeParam::ThreeOneMS,
                TimeParam::ThreeOneMS => TimeParam::FourSixMS,
                TimeParam::FourSixMS => TimeParam::SixTwoMS,
                TimeParam::SixTwoMS => TimeParam::SevenEightMS,
                TimeParam::SevenEightMS => TimeParam::NineThreeMS,
                TimeParam::NineThreeMS => TimeParam::OneS,
                TimeParam::OneS => TimeParam::Off,
                TimeParam::Off => TimeParam::Off,
            }
        } else {
            match self {
                TimeParam::OneFiveMS => TimeParam::OneFiveMS,
                TimeParam::ThreeOneMS => TimeParam::OneFiveMS,
                TimeParam::FourSixMS => TimeParam::ThreeOneMS,
                TimeParam::SixTwoMS => TimeParam::FourSixMS,
                TimeParam::SevenEightMS => TimeParam::SixTwoMS,
                TimeParam::NineThreeMS => TimeParam::SevenEightMS,
                TimeParam::OneS => TimeParam::NineThreeMS,
                TimeParam::Off => TimeParam::OneS,
            }
        }
    }

    /// A nudge succeeds unless the time already sits at the requested end.
    pub open spec fn nudge_result(self, up: bool) -> Result<(), NudgeError> {
        if up {
            if self is Off {
                Err(NudgeError::AtMax)
            } else {
                Ok(())
            }
        } else {
            if self is OneFiveMS {
                Err(NudgeError::AtMin)
            } else {
                Ok(())
            }
        }
    }

    pub fn nudge_up(&mut self) -> (r: Result<(), NudgeError>)
        ensures
            *final(self) == old(self).nudged(true),
            r == old(self).nudge_result(true),
    {
        match *self {
            TimeParam::Off => Err(NudgeError::AtMax),
            TimeParam::OneFiveMS => {
                *self = TimeParam::ThreeOneMS;
                Ok(())
            },
            TimeParam::ThreeOneMS => {
                *self = TimeParam::FourSixMS;
                Ok(())
            },
            TimeParam::FourSixMS => {
                *self = TimeParam::SixTwoMS;
                Ok(())
            },
            TimeParam::SixTwoMS => {
                *self = TimeParam::SevenEightMS;
                Ok(())
            },
            TimeParam::SevenEightMS => {
                *self = TimeParam::NineThreeMS;
                Ok(())
            },
            TimeParam::NineThreeMS => {
                *self = TimeParam::OneS;
                Ok(())
            },
            TimeParam::OneS => {
                *self = TimeParam::Off;
                Ok(())
            },
        }
    }

    pub fn nudge_down(&mut self) -> (r: Result<(), NudgeError>)
        ensures
            *final(self) == old(self).nudged(false),
            r == old(self).nudge_result(false),
    {
        match *self {
            TimeParam::OneFiveMS => Err(NudgeError::AtMin),
            TimeParam::ThreeOneMS => {
                *self = TimeParam::OneFiveMS;
                Ok(())
            },
            TimeParam::FourSixMS => {
                *self = TimeParam::ThreeOneMS;
                Ok(())
            },
            TimeParam::SixTwoMS => {
                *self = TimeParam::FourSixMS;
                Ok(())
            },
            TimeParam::SevenEightMS => {
                *self = TimeParam::SixTwoMS;
                Ok(())
            },
            TimeParam::NineThreeMS => {
                *self = TimeParam::SevenEightMS;
                Ok(())
            },
            TimeParam::OneS => {
                *self = TimeParam::NineThreeMS;
                Ok(())
            },
            TimeParam::Off => {
                *self = TimeParam::OneS;
                Ok(())
            },
        }
    }

    pub fn nudge(&mut self, up: bool) -> (r: Result<(), NudgeError>)
        ensures
            *final(self) == old(self).nudged(up),
            r == old(self).nudge_result(up),
    {
        if up {
            self.nudge_up()
        } else {
            self.nudge_down()
        }
    }
}

/// Pulse direction: a pure toggle. Nudging down is defined identically to
/// nudging up, and a nudge never fails.
#[derive(Clone, Copy, Debug, PartialEq, Eq, Structural)]
pub struct PulseDir {
    pub up: bool,
}

impl PulseDir {
    /// A fresh downward direction.
    pub fn new() -> (r: PulseDir)
        ensures
            r == (PulseDir { up: false }),
    {
        PulseDir { up: false }
    }

    /// Either nudge flips the direction.
    pub open spec fn nudged(self, up: bool) -> PulseDir {
        PulseDir { up: !self.up }
    }

    /// A direction nudge always succeeds.
    pub open spec fn nudge_result(self, up: bool) -> Result<(), NudgeError> {
        Ok(())
    }

    pub fn nudge_up(&mut self) -> (r: Result<(), NudgeError>)
        ensures
            *final(self) == old(self).nudged(true),
            r == old(self).nudge_result(true),
    {
        self.up = !self.up;
        Ok(())
    }

    pub fn nudge_down(&mut self) -> (r: Result<(), NudgeError>)
        ensures
            *final(self) == old(self).nudged(false),
            r == old(self).nudge_result(false),
    {
        self.nudge_up()
    }

    pub fn nudge(&mut self, up: bool) -> (r: Result<(), NudgeError>)
        ensures
            *final(self) == old(self).nudged(up),
            r == old(self).nudge_result(up),
    {
        if up {
            self.nudge_up()
        } else {
            self.nudge_down()
        }
    }
}

} // verus!
