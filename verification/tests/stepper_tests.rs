use tracker_core::graph::{Graph, Point, TrackerNode, TrackerNodeData};
use tracker_core::params::NudgeError;
use tracker_core::stepper::{
    handle_movement, movement, nudge, stepper_setup, Cursor, CursorLocation, CursorMovement,
    EditingPattern, NudgeEvent, Pattern, Patterns, SoundChannel, StepEditTimmer,
};

fn cursor_at(location: CursorLocation, step_num: usize) -> Cursor {
    Cursor { channel: SoundChannel::PulseWSweep, location, step_num, param_num: 0 }
}

#[test]
fn right_from_step_15_reaches_the_channel_row_and_back() {
    // Stepper cursor {location: Notes, step_num: 15}, press Right:
    // {location: SoundChannel}; press Right again: {location: Notes, step 0}.
    let mut c = cursor_at(CursorLocation::Notes, 15);
    handle_movement(&mut c, CursorMovement::Right);
    assert_eq!(c.location, CursorLocation::SoundChannel);
    handle_movement(&mut c, CursorMovement::Right);
    assert_eq!(c.location, CursorLocation::Notes);
    assert_eq!(c.step_num, 0);
}

#[test]
fn left_from_step_0_reaches_the_channel_row_and_back_at_15() {
    let mut c = cursor_at(CursorLocation::Notes, 0);
    handle_movement(&mut c, CursorMovement::Left);
    assert_eq!(c.location, CursorLocation::SoundChannel);
    handle_movement(&mut c, CursorMovement::Left);
    assert_eq!(c.location, CursorLocation::Notes);
    assert_eq!(c.step_num, 15);
}

#[test]
fn up_and_down_jump_by_8_modulo_16() {
    let mut c = cursor_at(CursorLocation::Notes, 3);
    handle_movement(&mut c, CursorMovement::Up);
    assert_eq!(c.step_num, 11);
    handle_movement(&mut c, CursorMovement::Up);
    assert_eq!(c.step_num, 3);
    handle_movement(&mut c, CursorMovement::Down);
    assert_eq!(c.step_num, 11);

    let mut c = Cursor {
        channel: SoundChannel::Wave,
        location: CursorLocation::Params,
        step_num: 0,
        param_num: 9,
    };
    handle_movement(&mut c, CursorMovement::Up);
    assert_eq!(c.param_num, 1);
}

#[test]
fn channel_row_cycles_through_the_four_kinds() {
    let mut c = cursor_at(CursorLocation::SoundChannel, 0);
    let down_order = [
        SoundChannel::PulseWOSweep,
        SoundChannel::Wave,
        SoundChannel::Noise,
        SoundChannel::PulseWSweep,
    ];
    for expect in down_order {
        handle_movement(&mut c, CursorMovement::Down);
        assert_eq!(c.channel, expect);
    }
    handle_movement(&mut c, CursorMovement::Up);
    assert_eq!(c.channel, SoundChannel::Noise);
}

#[test]
fn movement_fires_only_when_exactly_one_direction_is_pressed() {
    assert_eq!(movement(true, false, false, false), Some(CursorMovement::Up));
    assert_eq!(movement(false, true, false, false), Some(CursorMovement::Down));
    assert_eq!(movement(false, false, true, false), Some(CursorMovement::Left));
    assert_eq!(movement(false, false, false, true), Some(CursorMovement::Right));
    assert_eq!(movement(false, false, false, false), None);
    assert_eq!(movement(true, true, false, false), None);
    assert_eq!(movement(true, true, true, true), None);
}

#[test]
fn nudge_rate_limit_and_shoulder_reset() {
    let c = cursor_at(CursorLocation::Notes, 2);
    let mut timer = StepEditTimmer(1000);

    // Before the cooldown has passed: nothing fires.
    assert_eq!(nudge(&c, &mut timer, false, true, 1100), None);
    // After the cooldown: the increment shoulder emits an upward event.
    assert_eq!(
        nudge(&c, &mut timer, false, true, 1200),
        Some(NudgeEvent { cursor: c, up: true })
    );
    // The decrement shoulder emits a downward event.
    assert_eq!(
        nudge(&c, &mut timer, true, false, 1300),
        Some(NudgeEvent { cursor: c, up: false })
    );
    // Both shoulders held: the timer restarts and nothing fires.
    assert_eq!(nudge(&c, &mut timer, true, true, 1400), None);
    assert_eq!(timer, StepEditTimmer(1400));
    assert_eq!(nudge(&c, &mut timer, false, true, 1500), None);
    assert_eq!(nudge(&c, &mut timer, false, true, 1526), Some(NudgeEvent { cursor: c, up: true }));
}

#[test]
fn stepper_setup_binds_only_pattern_nodes() {
    let mut g = Graph::new();
    let at = Point { x: 4, y: 5 };

    // An empty cell aborts entry.
    assert_eq!(stepper_setup(&g, at), None);

    // A teleport node aborts entry.
    g.set(
        at,
        Some(TrackerNode {
            node_dat: TrackerNodeData::Teleport(Point { x: 0, y: 0 }),
            next: None,
        }),
    );
    assert_eq!(stepper_setup(&g, at), None);

    // A pattern node binds its index, with a fresh cursor on the note row.
    g.set(at, Some(TrackerNode { node_dat: TrackerNodeData::Pattern(37), next: None }));
    let (cursor, editing) = stepper_setup(&g, at).unwrap();
    assert_eq!(editing, EditingPattern(37));
    assert_eq!(cursor, cursor_at(CursorLocation::Notes, 0));
}

#[test]
fn whole_channel_nudge_raises_every_note_with_a_clamped_error() {
    // A whole-channel nudge raises every step's note by one semitone, clamped
    // individually at 127 with a non-aborting error for steps already there.
    let mut pats = Patterns::new();
    let mut p = Pattern::new(3);
    for (i, step) in p.c1.steps.iter_mut().enumerate() {
        step.note = i as u8;
    }
    p.c1.steps[5].note = 127;
    pats.set_pattern(3, p);

    let ev = NudgeEvent { cursor: cursor_at(CursorLocation::SoundChannel, 0), up: true };
    let res = pats.nudge_note(EditingPattern(3), ev);
    assert_eq!(res, Err(NudgeError::AtMax));

    let q = pats.pats[3].as_ref().unwrap();
    for (i, step) in q.c1.steps.iter().enumerate() {
        if i == 5 {
            assert_eq!(step.note, 127, "a step at 127 stays clamped there");
        } else {
            assert_eq!(step.note, i as u8 + 1, "every other step is one semitone up");
        }
    }
    // The other channels are untouched.
    for step in q.c2.steps.iter() {
        assert_eq!(step.note, 0);
    }
}

#[test]
fn single_step_nudge_touches_only_that_step() {
    let mut pats = Patterns::new();
    pats.set_pattern(0, Pattern::new(0));

    let ev = NudgeEvent { cursor: cursor_at(CursorLocation::Notes, 7), up: true };
    assert_eq!(pats.nudge_note(EditingPattern(0), ev), Ok(()));

    let q = pats.pats[0].as_ref().unwrap();
    for (i, step) in q.c1.steps.iter().enumerate() {
        assert_eq!(step.note, if i == 7 { 1 } else { 0 });
    }
}

#[test]
fn param_row_nudge_addresses_the_parameter_slot() {
    let mut pats = Patterns::new();
    pats.set_pattern(0, Pattern::new(0));

    // Slot 1 of the noise channel is its volume.
    let ev = NudgeEvent {
        cursor: Cursor {
            channel: SoundChannel::Noise,
            location: CursorLocation::Params,
            step_num: 2,
            param_num: 1,
        },
        up: true,
    };
    assert_eq!(pats.nudge_note(EditingPattern(0), ev), Ok(()));
    let q = pats.pats[0].as_ref().unwrap();
    assert_eq!(q.c4.steps[2].params.volume.value, 5);
    assert_eq!(q.c4.steps[2].note, 0);
    assert_eq!(q.c4.steps[3].params.volume.value, 0);
}

#[test]
fn nudging_a_missing_pattern_reports_no_pattern() {
    let mut pats = Patterns::new();
    let ev = NudgeEvent { cursor: cursor_at(CursorLocation::Notes, 0), up: true };
    assert_eq!(pats.nudge_note(EditingPattern(9), ev), Err(NudgeError::NoPattern));
    // An out-of-range index is an explicit not-found, not a fault.
    assert_eq!(
        pats.nudge_note(EditingPattern(usize::MAX), ev),
        Err(NudgeError::NoPattern)
    );
}
