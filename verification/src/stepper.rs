//! The stepper: a pattern aggregates four fixed channel kinds; a 2-D cursor
//! with a channel/step/parameter selector navigates them, and rate-limited
//! nudge events adjust notes and parameters through a uniform dispatch.

use vstd::prelude::*;

use crate::graph::{Graph, Point, TrackerNodeData};
use crate::noise::NoiseChannel;
use crate::params::NudgeError;
use crate::pulse::PulseChannel;
use crate::pulse_sweep::PulseSweepChannel;
use crate::step::{steps_nudge_result, Step, InstrumentParams};
use crate::wave::WaveChannel;
use crate::{PatternIndex, GRAPH_X, GRAPH_Y, STEPS_PER_CHANNEL};

verus! {

/// A musical pattern: four fixed channels of 16 steps each, plus its own
/// index in the pattern table.
#[derive(Clone, Debug, PartialEq, Eq)]
pub struct Pattern {
    pub c1: PulseSweepChannel,
    pub c2: PulseChannel,
    pub c3: WaveChannel,
    pub c4: NoiseChannel,
    pub name: PatternIndex,
}

impl Pattern {
    /// Every channel is well-formed.
    pub open spec fn wf(self) -> bool {
        self.c1.wf() && self.c2.wf() && self.c3.wf() && self.c4.wf()
    }

    /// A fresh pattern: all four channels in their default state.
    pub fn new(name: PatternIndex) -> (r: Pattern)
        ensures
            r.wf(),
            r.name == name,
    {
        Pattern {
            c1: PulseSweepChannel::new(),
            c2: PulseChannel::new(),
            c3: WaveChannel::new(),
            c4: NoiseChannel::new(),
            name,
        }
    }
}

/// The four channel kinds a stepper cursor can select.
#[derive(Clone, Copy, Debug, PartialEq, Eq, Structural)]
pub enum SoundChannel {
    PulseWSweep,
    PulseWOSweep,
    Wave,
    Noise,
}

/// Which row of the editing surface the cursor is on: the channel selector,
/// the parameter row, or the note row.
#[derive(Clone, Copy, Debug, PartialEq, Eq, Structural)]
pub enum CursorLocation {
    SoundChannel,
    Params,
    Notes,
}

/// The stepper cursor: a channel, a row, and positions within the 16-wide
/// step and parameter rows.
#[derive(Clone, Copy, Debug, PartialEq, Eq, Structural)]
pub struct Cursor {
    pub channel: SoundChannel,
    pub location: CursorLocation,
    pub step_num: usize,
    pub param_num: usize,
}

impl Cursor {
    /// Step and parameter positions stay inside the 16-wide rows.
    pub open spec fn wf(self) -> bool {
        self.step_num < STEPS_PER_CHANNEL && self.param_num < STEPS_PER_CHANNEL
    }

    /// The cursor of a freshly entered stepper.
    pub fn new() -> (r: Cursor)
        ensures
            r == (Cursor {
                channel: SoundChannel::PulseWSweep,
                location: CursorLocation::Notes,
                step_num: 0usize,
                param_num: 0usize,
            }),
    {
        Cursor {
            channel: SoundChannel::PulseWSweep,
            location: CursorLocation::Notes,
            step_num: 0,
            param_num: 0,
        }
    }

    /// The parameter slot a nudge at this cursor addresses: the parameter row
    /// picks its slot, everywhere else nudges the note.
    pub open spec fn param_choice(self) -> Option<usize> {
        match self.location {
            CursorLocation::Params => Some(self.param_num),
            _ => None,
        }
    }
}

/// A movement event for the stepper cursor.
#[derive(Clone, Copy, Debug, PartialEq, Eq, Structural)]
pub enum CursorMovement {
    Up,
    Down,
    Left,
    Right,
}

/// The channel above `c` in the selector row (cycling).
pub open spec fn channel_up(c: SoundChannel) -> SoundChannel {
    match c {
        SoundChannel::PulseWSweep => SoundChannel::Noise,
        SoundChannel::PulseWOSweep => SoundChannel::PulseWSweep,
        SoundChannel::Wave => SoundChannel::PulseWOSweep,
        SoundChannel::Noise => SoundChannel::Wave,
    }
}

/// The channel below `c` in the selector row (cycling).
pub open spec fn channel_down(c: SoundChannel) -> SoundChannel {
    match c {
        SoundChannel::PulseWSweep => SoundChannel::PulseWOSweep,
        SoundChannel::PulseWOSweep => SoundChannel::Wave,
        SoundChannel::Wave => SoundChannel::Noise,
        SoundChannel::Noise => SoundChannel::PulseWSweep,
    }
}

/// Where one movement event takes the cursor. On the channel row, up and
/// down cycle the channel and left/right enter the note row at step 15 or 0.
/// On the note and parameter rows, up and down jump by 8 modulo 16, a step
/// right past position 15 or left past position 0 returns to the channel
/// row, and any other step moves by one.
pub open spec fn cursor_moved(c: Cursor, ev: CursorMovement) -> Cursor {
    match ev {
        CursorMovement::Up => match c.location {
            CursorLocation::SoundChannel => Cursor { channel: channel_up(c.channel), ..c },
            CursorLocation::Params => Cursor {
                param_num: ((c.param_num + 8) % 16) as usize,
                ..c
            },
            CursorLocation::Notes => Cursor { step_num: ((c.step_num + 8) % 16) as usize, ..c },
        },
        CursorMovement::Down => match c.location {
            CursorLocation::SoundChannel => Cursor { channel: channel_down(c.channel), ..c },
            CursorLocation::Params => Cursor {
                param_num: ((c.param_num + 8) % 16) as usize,
                ..c
            },
            CursorLocation::Notes => Cursor { step_num: ((c.step_num + 8) % 16) as usize, ..c },
        },
        CursorMovement::Right => match c.location {
            CursorLocation::SoundChannel => Cursor {
                location: CursorLocation::Notes,
                step_num: 0usize,
                ..c
            },
            CursorLocation::Params => if c.param_num < 15 {
                Cursor { param_num: (c.param_num + 1) as usize, ..c }
            } else {
                Cursor { location: CursorLocation::SoundChannel, ..c }
            },
            CursorLocation::Notes => if c.step_num < 15 {
                Cursor { step_num: (c.step_num + 1) as usize, ..c }
            } else {
                Cursor { location: CursorLocation::SoundChannel, ..c }
            },
        },
        CursorMovement::Left => match c.location {
            CursorLocation::SoundChannel => Cursor {
                location: CursorLocation::Notes,
                step_num: 15usize,
                ..c
            },
            CursorLocation::Params => if c.param_num > 0 {
                Cursor { param_num: (c.param_num - 1) as usize, ..c }
            } else {
                Cursor { location: CursorLocation::SoundChannel, ..c }
            },
            CursorLocation::Notes => if c.step_num > 0 {
                Cursor { step_num: (c.step_num - 1) as usize, ..c }
            } else {
                Cursor { location: CursorLocation::SoundChannel, ..c }
            },
        },
    }
}

/// Apply one movement event to the stepper cursor.
pub fn handle_movement(cursor: &mut Cursor, event: CursorMovement)
    requires
        old(cursor).wf(),
    ensures
        final(cursor).wf(),
        *final(cursor) == cursor_moved(*old(cursor), event),
{
    match event {
        CursorMovement::Up => match cursor.location {
            CursorLocation::SoundChannel => {
                cursor.channel = match cursor.channel {
                    SoundChannel::PulseWSweep => SoundChannel::Noise,
                    SoundChannel::PulseWOSweep => SoundChannel::PulseWSweep,
                    SoundChannel::Wave => SoundChannel::PulseWOSweep,
                    SoundChannel::Noise => SoundChannel::Wave,
                };
            },
            CursorLocation::Params => {
                cursor.param_num = (cursor.param_num + 8) % 16;
            },
            CursorLocation::Notes => {
                cursor.step_num = (cursor.step_num + 8) % 16;
            },
        },
        CursorMovement::Down => match cursor.location {
            CursorLocation::SoundChannel => {
                cursor.channel = match cursor.channel {
                    SoundChannel::PulseWSweep => SoundChannel::PulseWOSweep,
                    SoundChannel::PulseWOSweep => SoundChannel::Wave,
                    SoundChannel::Wave => SoundChannel::Noise,
                    SoundChannel::Noise => SoundChannel::PulseWSweep,
                };
            },
            CursorLocation::Params => {
                cursor.param_num = (cursor.param_num + 8) % 16;
            },
            CursorLocation::Notes => {
                cursor.step_num = (cursor.step_num + 8) % 16;
            },
        },
        CursorMovement::Right => match cursor.location {
            CursorLocation::SoundChannel => {
                cursor.location = CursorLocation::Notes;
                cursor.step_num = 0;
            },
            CursorLocation::Params => {
                if cursor.param_num < 15 {
                    cursor.param_num = cursor.param_num + 1;
                } else {
                    cursor.location = CursorLocation::SoundChannel;
                }
            },
            CursorLocation::Notes => {
                if cursor.step_num < 15 {
                    cursor.step_num = cursor.step_num + 1;
                } else {
                    cursor.location = CursorLocation::SoundChannel;
                }
            },
        },
        CursorMovement::Left => match cursor.location {
            CursorLocation::SoundChannel => {
                cursor.location = CursorLocation::Notes;
                cursor.step_num = 15;
            },
            CursorLocation::Params => {
                if cursor.param_num > 0 {
                    cursor.param_num = cursor.param_num - 1;
                } else {
                    cursor.location = CursorLocation::SoundChannel;
                }
            },
            CursorLocation::Notes => {
                if cursor.step_num > 0 {
                    cursor.step_num = cursor.step_num - 1;
                } else {
                    cursor.location = CursorLocation::SoundChannel;
                }
            },
        },
    }
}

/// Exactly one of the four flags is set.
pub open spec fn exactly_one_pressed(up: bool, down: bool, left: bool, right: bool) -> bool {
    ||| (up && !down && !left && !right)
    ||| (!up && down && !left && !right)
    ||| (!up && !down && left && !right)
    ||| (!up && !down && !left && right)
}

/// Turn the directional buttons just pressed this tick into a movement
/// event. An event fires only when exactly one direction is pressed.
pub fn movement(up: bool, down: bool, left: bool, right: bool) -> (r: Option<CursorMovement>)
    ensures
        r is Some <==> exactly_one_pressed(up, down, left, right),
        up && r is Some ==> r == Some(CursorMovement::Up),
        down && r is Some ==> r == Some(CursorMovement::Down),
        left && r is Some ==> r == Some(CursorMovement::Left),
        right && r is Some ==> r == Some(CursorMovement::Right),
{
    if up && !down && !left && !right {
        Some(CursorMovement::Up)
    } else if !up && down && !left && !right {
        Some(CursorMovement::Down)
    } else if !up && !down && left && !right {
        Some(CursorMovement::Left)
    } else if !up && !down && !left && right {
        Some(CursorMovement::Right)
    } else {
        None
    }
}

/// An accepted nudge: a snapshot of the cursor and the direction.
#[derive(Clone, Copy, Debug, PartialEq, Eq, Structural)]
pub struct NudgeEvent {
    pub cursor: Cursor,
    pub up: bool,
}

/// The index of the pattern currently open in the stepper, bound once on
/// entry from the graph.
#[derive(Clone, Copy, Debug, PartialEq, Eq, Structural)]
pub struct EditingPattern(pub PatternIndex);

/// The timer that rate-limits repeated nudges, as a monotonic timestamp in
/// milliseconds.
#[derive(Clone, Copy, Debug, PartialEq, Eq, Structural)]
pub struct StepEditTimmer(pub u64);

impl StepEditTimmer {
    /// Restart the cooldown from `now_ms`.
    pub fn reset(&mut self, now_ms: u64)
        ensures
            *final(self) == StepEditTimmer(now_ms),
    {
        self.0 = now_ms;
    }
}

/// The nudge cooldown, in milliseconds.
pub const NUDGE_COOLDOWN_MS: u64 = 125;

/// Decide whether a shoulder press emits a nudge event this tick. Holding
/// both shoulders restarts the cooldown timer and emits nothing; otherwise a
/// held shoulder emits an event once the cooldown has passed since the timer
/// was last restarted.
pub fn nudge(
    cursor: &Cursor,
    timer: &mut StepEditTimmer,
    shoulder_dec: bool,
    shoulder_inc: bool,
    now_ms: u64,
) -> (ev: Option<NudgeEvent>)
    requires
        now_ms >= old(timer).0,
    ensures
        shoulder_dec && shoulder_inc ==> *final(timer) == StepEditTimmer(now_ms) && ev is None,
        !(shoulder_dec && shoulder_inc) ==> *final(timer) == *old(timer),
        !(shoulder_dec && shoulder_inc) ==> ev == (if shoulder_dec && now_ms - old(timer).0
            > NUDGE_COOLDOWN_MS {
            Some(NudgeEvent { cursor: *cursor, up: false })
        } else if shoulder_inc && now_ms - old(timer).0 > NUDGE_COOLDOWN_MS {
            Some(NudgeEvent { cursor: *cursor, up: true })
        } else {
            None
        }),
{
    if shoulder_dec && shoulder_inc {
        timer.reset(now_ms);
        return None;
    }
    if shoulder_dec && now_ms - timer.0 > NUDGE_COOLDOWN_MS {
        Some(NudgeEvent { cursor: *cursor, up: false })
    } else if shoulder_inc && now_ms - timer.0 > NUDGE_COOLDOWN_MS {
        Some(NudgeEvent { cursor: *cursor, up: true })
    } else {
        None
    }
}

/// Every step of `new` is the corresponding step of `old` nudged once.
pub open spec fn steps_all_nudged<T: InstrumentParams>(
    olds: Seq<Step<T>>,
    news: Seq<Step<T>>,
    up: bool,
    param: Option<usize>,
) -> bool {
    &&& news.len() == olds.len()
    &&& forall|i: int| 0 <= i < olds.len() ==> news[i] == olds[i].nudged(up, param)
}

/// Step `step` of `new` is that step of `old` nudged once; all other steps
/// are untouched.
pub open spec fn steps_one_nudged<T: InstrumentParams>(
    olds: Seq<Step<T>>,
    news: Seq<Step<T>>,
    step: int,
    up: bool,
    param: Option<usize>,
) -> bool {
    &&& news.len() == olds.len()
    &&& news[step] == olds[step].nudged(up, param)
    &&& forall|i: int| 0 <= i < olds.len() && i != step ==> news[i] == olds[i]
}

/// How one nudge event transforms a pattern: the cursor's channel is nudged
/// (whole-channel from the channel selector row, a single step elsewhere),
/// and the other three channels and the name are untouched.
pub open spec fn pattern_nudged(old_p: Pattern, new_p: Pattern, ev: NudgeEvent) -> bool {
    let param = ev.cursor.param_choice();
    let whole = ev.cursor.location is SoundChannel;
    let step = ev.cursor.step_num as int;
    &&& new_p.name == old_p.name
    &&& match ev.cursor.channel {
        SoundChannel::PulseWSweep => {
            &&& new_p.c2 == old_p.c2
            &&& new_p.c3 == old_p.c3
            &&& new_p.c4 == old_p.c4
            &&& if whole {
                steps_all_nudged(old_p.c1.steps@, new_p.c1.steps@, ev.up, param)
            } else {
                steps_one_nudged(old_p.c1.steps@, new_p.c1.steps@, step, ev.up, param)
            }
        },
        SoundChannel::PulseWOSweep => {
            &&& new_p.c1 == old_p.c1
            &&& new_p.c3 == old_p.c3
            &&& new_p.c4 == old_p.c4
            &&& if whole {
                steps_all_nudged(old_p.c2.steps@, new_p.c2.steps@, ev.up, param)
            } else {
                steps_one_nudged(old_p.c2.steps@, new_p.c2.steps@, step, ev.up, param)
            }
        },
        SoundChannel::Wave => {
            &&& new_p.c1 == old_p.c1
            &&& new_p.c2 == old_p.c2
            &&& new_p.c4 == old_p.c4
            &&& if whole {
                steps_all_nudged(old_p.c3.steps@, new_p.c3.steps@, ev.up, param)
            } else {
                steps_one_nudged(old_p.c3.steps@, new_p.c3.steps@, step, ev.up, param)
            }
        },
        SoundChannel::Noise => {
            &&& new_p.c1 == old_p.c1
            &&& new_p.c2 == old_p.c2
            &&& new_p.c3 == old_p.c3
            &&& if whole {
                steps_all_nudged(old_p.c4.steps@, new_p.c4.steps@, ev.up, param)
            } else {
                steps_one_nudged(old_p.c4.steps@, new_p.c4.steps@, step, ev.up, param)
            }
        },
    }
}

/// What one nudge event reports on a pattern: the first per-step failure of
/// a whole-channel nudge, or the failure of the single nudged step.
pub open spec fn pattern_nudge_result(old_p: Pattern, ev: NudgeEvent) -> Result<(), NudgeError> {
    let param = ev.cursor.param_choice();
    let whole = ev.cursor.location is SoundChannel;
    let step = ev.cursor.step_num as int;
    match ev.cursor.channel {
        SoundChannel::PulseWSweep => if whole {
            steps_nudge_result(old_p.c1.steps@, ev.up, param)
        } else {
            old_p.c1.steps@[step].nudge_result(ev.up, param)
        },
        SoundChannel::PulseWOSweep => if whole {
            steps_nudge_result(old_p.c2.steps@, ev.up, param)
        } else {
            old_p.c2.steps@[step].nudge_result(ev.up, param)
        },
        SoundChannel::Wave => if whole {
            steps_nudge_result(old_p.c3.steps@, ev.up, param)
        } else {
            old_p.c3.steps@[step].nudge_result(ev.up, param)
        },
        SoundChannel::Noise => if whole {
            steps_nudge_result(old_p.c4.steps@, ev.up, param)
        } else {
            old_p.c4.steps@[step].nudge_result(ev.up, param)
        },
    }
}

/// Apply one nudge event to a pattern.
pub fn nudge_pattern(pattern: &mut Pattern, ev: NudgeEvent) -> (r: Result<(), NudgeError>)
    requires
        old(pattern).wf(),
        ev.cursor.wf(),
    ensures
        final(pattern).wf(),
        pattern_nudged(*old(pattern), *final(pattern), ev),
        r == pattern_nudge_result(*old(pattern), ev),
{
    let param = match ev.cursor.location {
        CursorLocation::Params => Some(ev.cursor.param_num),
        _ => None,
    };
    match ev.cursor.location {
        CursorLocation::SoundChannel => match ev.cursor.channel {
            SoundChannel::PulseWSweep => pattern.c1.nudge(ev.up, param),
            SoundChannel::PulseWOSweep => pattern.c2.nudge(ev.up, param),
            SoundChannel::Wave => pattern.c3.nudge(ev.up, param),
            SoundChannel::Noise => pattern.c4.nudge(ev.up, param),
        },
        _ => match ev.cursor.channel {
            SoundChannel::PulseWSweep => pattern.c1.nudge_step(ev.cursor.step_num, ev.up, param),
            SoundChannel::PulseWOSweep => pattern.c2.nudge_step(ev.cursor.step_num, ev.up, param),
            SoundChannel::Wave => pattern.c3.nudge_step(ev.cursor.step_num, ev.up, param),
            SoundChannel::Noise => pattern.c4.nudge_step(ev.cursor.step_num, ev.up, param),
        },
    }
}

/// What processing a nudge event against slot `idx` of a pattern table
/// reports: `NoPattern` when the slot is out of range or empty, the
/// pattern-level outcome otherwise.
pub open spec fn nudge_note_result_spec(
    pats: Seq<Option<Pattern>>,
    idx: int,
    ev: NudgeEvent,
) -> Result<(), NudgeError> {
    if 0 <= idx < pats.len() {
        match pats[idx] {
            None => Err(NudgeError::NoPattern),
            Some(p) => pattern_nudge_result(p, ev),
        }
    } else {
        Err(NudgeError::NoPattern)
    }
}

/// How processing a nudge event against slot `idx` transforms a pattern
/// table: only a pattern present at an in-range `idx` changes, by one nudge.
pub open spec fn nudge_note_rel(
    olds: Seq<Option<Pattern>>,
    news: Seq<Option<Pattern>>,
    idx: int,
    ev: NudgeEvent,
) -> bool {
    &&& news.len() == olds.len()
    &&& forall|k: int| 0 <= k < olds.len() && k != idx ==> news[k] == olds[k]
    &&& if 0 <= idx < olds.len() {
        match olds[idx] {
            None => news == olds,
            Some(p) => news[idx] matches Some(q) && pattern_nudged(p, q, ev),
        }
    } else {
        news == olds
    }
}

/// The table of all patterns, addressed by `PatternIndex`.
#[derive(Debug)]
pub struct Patterns {
    pub pats: Vec<Option<Pattern>>,
}

impl Patterns {
    /// The table holds one slot per graph cell.
    pub open spec fn wf(self) -> bool {
        self.pats@.len() == GRAPH_X * GRAPH_Y
    }

    /// Every pattern present in the table is well-formed.
    pub open spec fn all_wf(self) -> bool {
        forall|i: int|
            0 <= i < self.pats@.len() ==> (#[trigger] self.pats@[i] matches Some(p) ==> p.wf())
    }

    /// An all-empty pattern table.
    pub fn new() -> (r: Patterns)
        ensures
            r.wf(),
            r.all_wf(),
            forall|i: int| 0 <= i < r.pats@.len() ==> r.pats@[i] is None,
    {
        let mut pats: Vec<Option<Pattern>> = Vec::new();
        let mut i: usize = 0;
        while i < GRAPH_X * GRAPH_Y
            invariant
                i <= GRAPH_X * GRAPH_Y,
                pats@.len() == i,
                forall|k: int| 0 <= k < i ==> pats@[k] is None,
            decreases GRAPH_X * GRAPH_Y - i,
        {
            pats.push(None);
            i = i + 1;
        }
        Patterns { pats }
    }

    /// Store a pattern at slot `i`, replacing whatever was there.
    pub fn set_pattern(&mut self, i: PatternIndex, p: Pattern)
        requires
            old(self).wf(),
            old(self).all_wf(),
            i < GRAPH_X * GRAPH_Y,
            p.wf(),
        ensures
            final(self).wf(),
            final(self).all_wf(),
            final(self).pats@ == old(self).pats@.update(i as int, Some(p)),
    {
        self.pats.set(i, Some(p));
    }

    /// Process one nudge event against the pattern bound by `pattern_i`.
    /// When that slot is out of range or empty the event reports `NoPattern`
    /// and changes nothing; pattern-layer failures are likewise reported,
    /// never fatal.
    pub fn nudge_note(&mut self, pattern_i: EditingPattern, ev: NudgeEvent) -> (r: Result<
        (),
        NudgeError,
    >)
        requires
            old(self).wf(),
            old(self).all_wf(),
            ev.cursor.wf(),
        ensures
            final(self).wf(),
            final(self).all_wf(),
            nudge_note_rel(old(self).pats@, final(self).pats@, pattern_i.0 as int, ev),
            r == nudge_note_result_spec(old(self).pats@, pattern_i.0 as int, ev),
    {
        let ghost orig = self.pats@;
        if pattern_i.0 >= self.pats.len() {
            return Err(NudgeError::NoPattern);
        }
        let slot = self.pats.remove(pattern_i.0);
        match slot {
            None => {
                self.pats.insert(pattern_i.0, None);
                proof {
                    assert(self.pats@ =~= orig);
                }
                Err(NudgeError::NoPattern)
            },
            Some(mut p) => {
                let r = nudge_pattern(&mut p, ev);
                self.pats.insert(pattern_i.0, Some(p));
                proof {
                    assert(self.pats@ =~= orig.update(pattern_i.0 as int, Some(p)));
                }
                r
            },
        }
    }
}

/// Bind the stepper to the pattern under the arrangement cursor. Succeeds
/// with a fresh stepper cursor and the bound pattern index exactly when the
/// cell at `at` holds a pattern node; otherwise the stepper is not entered.
pub fn stepper_setup(graph: &Graph, at: Point) -> (r: Option<(Cursor, EditingPattern)>)
    requires
        graph.wf(),
        at.in_bounds(),
    ensures
        match graph.cell(at) {
            Some(node) => match node.node_dat {
                TrackerNodeData::Pattern(i) => r == Some(
                    (
                        Cursor {
                            channel: SoundChannel::PulseWSweep,
                            location: CursorLocation::Notes,
                            step_num: 0usize,
                            param_num: 0usize,
                        },
                        EditingPattern(i),
                    ),
                ),
                _ => r is None,
            },
            None => r is None,
        },
{
    match graph.get(at) {
        Some(node) => match node.node_dat {
            TrackerNodeData::Pattern(pattern_i) => Some((Cursor::new(), EditingPattern(pattern_i))),
            _ => None,
        },
        None => None,
    }
}

} // verus!
