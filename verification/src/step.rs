//! Steps: one of 16 slots in a channel, holding a MIDI note and a
//! channel-specific parameter bundle, with the uniform nudge interface over
//! both.

use vstd::prelude::*;

use crate::params::NudgeError;
use crate::MidiNote;

verus! {

/// The note after a nudge: one semitone in the given direction, unchanged at
/// the MIDI bounds 0 and 127.
pub open spec fn note_nudged(note: MidiNote, up: bool) -> MidiNote {
    if up {
        if note < 127 {
            (note + 1) as u8
        } else {
            note
        }
    } else {
        if note > 0 {
            (note - 1) as u8
        } else {
            note
        }
    }
}

/// A note nudge fails exactly at the requested MIDI bound.
pub open spec fn note_nudge_result(note: MidiNote, up: bool) -> Result<(), NudgeError> {
    if up {
        if note < 127 {
            Ok(())
        } else {
            Err(NudgeError::AtMax)
        }
    } else {
        if note > 0 {
            Ok(())
        } else {
            Err(NudgeError::AtMin)
        }
    }
}

/// Nudge a MIDI note one semitone, erroring (and leaving the note unchanged)
/// at the bounds 0 and 127.
pub fn nudge_note_value(note: &mut MidiNote, up: bool) -> (r: Result<(), NudgeError>)
    ensures
        *final(note) == note_nudged(*old(note), up),
        r == note_nudge_result(*old(note), up),
{
    if up {
        if *note < 127 {
            *note = *note + 1;
            Ok(())
        } else {
            Err(NudgeError::AtMax)
        }
    } else {
        if *note > 0 {
            *note = *note - 1;
            Ok(())
        } else {
            Err(NudgeError::AtMin)
        }
    }
}

/// A channel kind's fixed parameter bundle: up to 8 values reached through
/// numbered slots, each nudgeable with its own bounds.
pub trait InstrumentParams: Sized {
    /// The bundle's own invariant.
    spec fn wf(self) -> bool;

    /// The bundle after nudging slot `i`: only that slot's parameter moves,
    /// and an empty slot leaves the bundle unchanged.
    spec fn param_nudged(self, i: int, up: bool) -> Self;

    /// Whether nudging slot `i` succeeds, and if not, why.
    spec fn param_nudge_result(self, i: int, up: bool) -> Result<(), NudgeError>;

    /// Nudge parameter slot `param_i` in the given direction.
    fn nudge_param(&mut self, param_i: usize, up: bool) -> (r: Result<(), NudgeError>)
        requires
            old(self).wf(),
        ensures
            final(self).wf(),
            *final(self) == old(self).param_nudged(param_i as int, up),
            r == old(self).param_nudge_result(param_i as int, up),
    ;
}

/// One slot of a channel: a note, the channel's parameter bundle, and a mute
/// flag.
#[derive(Clone, Copy, Debug, PartialEq, Eq, Structural)]
pub struct Step<T> {
    pub note: MidiNote,
    pub params: T,
    pub muted: bool,
}

impl<T: InstrumentParams> Step<T> {
    /// A step holds a note within MIDI bounds and a well-formed bundle.
    pub open spec fn wf(self) -> bool {
        self.note <= 127 && self.params.wf()
    }

    /// The step after a nudge: `Some(i)` nudges parameter slot `i`, `None`
    /// nudges the note by one semitone.
    pub open spec fn nudged(self, up: bool, param_num: Option<usize>) -> Step<T> {
        match param_num {
            Some(i) => Step { params: self.params.param_nudged(i as int, up), ..self },
            None => Step { note: note_nudged(self.note, up), ..self },
        }
    }

    /// Whether the nudge chosen by `param_num` succeeds on this step.
    pub open spec fn nudge_result(self, up: bool, param_num: Option<usize>) -> Result<
        (),
        NudgeError,
    > {
        match param_num {
            Some(i) => self.params.param_nudge_result(i as int, up),
            None => note_nudge_result(self.note, up),
        }
    }

    /// Nudge one step: parameter slot `i` when `param_num` is `Some(i)`, the
    /// note otherwise.
    pub fn nudge(&mut self, up: bool, param_num: Option<usize>) -> (r: Result<(), NudgeError>)
        requires
            old(self).wf(),
        ensures
            final(self).wf(),
            *final(self) == old(self).nudged(up, param_num),
            r == old(self).nudge_result(up, param_num),
    {
        match param_num {
            Some(param_i) => self.params.nudge_param(param_i, up),
            None => nudge_note_value(&mut self.note, up),
        }
    }
}

/// Every step of `s` is well-formed.
pub open spec fn steps_wf<T: InstrumentParams>(s: Seq<Step<T>>) -> bool {
    forall|i: int| 0 <= i < s.len() ==> s[i].wf()
}

/// The first failure among nudging every step of `s` in order, `Ok` when all
/// succeed.
pub open spec fn steps_nudge_result<T: InstrumentParams>(
    s: Seq<Step<T>>,
    up: bool,
    param_num: Option<usize>,
) -> Result<(), NudgeError>
    decreases s.len(),
{
    if s.len() == 0 {
        Ok(())
    } else {
        match steps_nudge_result(s.drop_last(), up, param_num) {
            Err(e) => Err(e),
            Ok(()) => s.last().nudge_result(up, param_num),
        }
    }
}

/// Nudge every step of a channel in order. A failing step is left at its
/// bound (or unchanged) and does not stop the loop; the first failure is
/// reported after all steps were visited.
pub fn nudge_steps<T: InstrumentParams + Copy>(
    steps: &mut Vec<Step<T>>,
    up: bool,
    param_num: Option<usize>,
) -> (r: Result<(), NudgeError>)
    requires
        steps_wf(old(steps)@),
    ensures
        final(steps)@.len() == old(steps)@.len(),
        steps_wf(final(steps)@),
        forall|i: int|
            0 <= i < old(steps)@.len() ==> final(steps)@[i] == old(steps)@[i].nudged(
                up,
                param_num,
            ),
        r == steps_nudge_result(old(steps)@, up, param_num),
{
    let ghost orig = steps@;
    let mut res: Result<(), NudgeError> = Ok(());
    let n = steps.len();
    let mut i: usize = 0;
    while i < n
        invariant
            i <= n,
            n == orig.len(),
            steps@.len() == orig.len(),
            steps_wf(orig),
            forall|k: int| 0 <= k < i ==> steps@[k].wf(),
            forall|k: int| 0 <= k < i ==> steps@[k] == orig[k].nudged(up, param_num),
            forall|k: int| i <= k < orig.len() ==> steps@[k] == orig[k],
            res == steps_nudge_result(orig.subrange(0, i as int), up, param_num),
        decreases n - i,
    {
        let mut s = steps[i];
        proof {
            assert(s == orig[i as int]);
            assert(orig[i as int].wf());
        }
        let step_res = s.nudge(up, param_num);
        steps.set(i, s);
        if res.is_ok() {
            res = step_res;
        }
        proof {
            assert(orig.subrange(0, i + 1).drop_last() =~= orig.subrange(0, i as int));
            assert(orig.subrange(0, i + 1).last() == orig[i as int]);
        }
        i = i + 1;
    }
    proof {
        assert(orig.subrange(0, orig.len() as int) =~= orig);
    }
    res
}

} // verus!
