use tracker_core::authoring::{CursorState, Direction, MaybeTrackerNode};
use tracker_core::coms::{Button, DisplayCursor, InputCMD};
use tracker_core::graph::{Point, TrackerNode, TrackerNodeData, TrackerNodeType};
use tracker_core::params::NudgeError;
use tracker_core::stepper::{CursorLocation, EditingPattern, Pattern, SoundChannel, StepEditTimmer};
use tracker_core::tracker::{ScreenState, Tracker};

#[test]
fn stepper_entry_binds_the_pattern_under_the_cursor() {
    let mut t = Tracker::new();
    let at = t.editor.cursor.pos;

    // An empty cell aborts entry: control stays on the graph screen.
    assert!(!t.enter_stepper(500));
    assert_eq!(t.screen, ScreenState::Graph);
    assert!(t.session.is_none());

    t.editor.graph.set(
        at,
        Some(TrackerNode { node_dat: TrackerNodeData::Pattern(21), next: None }),
    );
    assert!(t.enter_stepper(500));
    assert_eq!(t.screen, ScreenState::Stepper);
    let s = t.session.unwrap();
    assert_eq!(s.editing, EditingPattern(21));
    assert_eq!(s.timer, StepEditTimmer(500));
    assert_eq!(s.cursor.location, CursorLocation::Notes);
    assert_eq!(s.cursor.channel, SoundChannel::PulseWSweep);
    assert_eq!(s.cursor.step_num, 0);

    t.exit_stepper();
    assert_eq!(t.screen, ScreenState::Graph);
    assert!(t.session.is_none());
    assert_eq!(t.editor.cursor.state, CursorState::Idle);
}

#[test]
fn stepper_entry_aborts_on_non_pattern_nodes() {
    let mut t = Tracker::new();
    let at = t.editor.cursor.pos;
    t.editor.graph.set(
        at,
        Some(TrackerNode {
            node_dat: TrackerNodeData::Teleport(Point { x: 1, y: 1 }),
            next: None,
        }),
    );
    assert!(!t.enter_stepper(0));
    assert_eq!(t.screen, ScreenState::Graph);
}

#[test]
fn confirm_toggles_the_parameter_row_in_the_stepper() {
    let mut t = Tracker::new();
    t.editor.graph.set(
        t.editor.cursor.pos,
        Some(TrackerNode { node_dat: TrackerNodeData::Pattern(0), next: None }),
    );
    assert!(t.enter_stepper(0));

    t.on_confirm_pressed();
    assert_eq!(t.session.unwrap().cursor.location, CursorLocation::Params);
    t.on_confirm_released();
    assert_eq!(t.session.unwrap().cursor.location, CursorLocation::Notes);
}

#[test]
fn shoulders_nudge_the_bound_pattern() {
    let mut t = Tracker::new();
    t.patterns.set_pattern(4, Pattern::new(4));
    t.editor.graph.set(
        t.editor.cursor.pos,
        Some(TrackerNode { node_dat: TrackerNodeData::Pattern(4), next: None }),
    );
    assert!(t.enter_stepper(1000));

    // Before the cooldown nothing fires.
    assert_eq!(t.on_shoulders_held(false, true, 1100), None);
    assert_eq!(t.patterns.pats[4].as_ref().unwrap().c1.steps[0].note, 0);

    // After the cooldown the increment shoulder raises the note under the
    // cursor (step 0 of the sweeping pulse channel).
    assert_eq!(t.on_shoulders_held(false, true, 1200), None);
    assert_eq!(t.patterns.pats[4].as_ref().unwrap().c1.steps[0].note, 1);

    // Both shoulders held restart the cooldown and nudge nothing.
    assert_eq!(t.on_shoulders_held(true, true, 1300), None);
    assert_eq!(t.session.unwrap().timer, StepEditTimmer(1300));
    assert_eq!(t.on_shoulders_held(false, true, 1400), None);
    assert_eq!(t.patterns.pats[4].as_ref().unwrap().c1.steps[0].note, 1);

    // The decrement shoulder lowers it again.
    assert_eq!(t.on_shoulders_held(true, false, 1500), None);
    assert_eq!(t.patterns.pats[4].as_ref().unwrap().c1.steps[0].note, 0);

    // A nudge at the bound reports its error, non-fatally.
    assert_eq!(t.on_shoulders_held(true, false, 1700), Some(NudgeError::AtMin));
    assert_eq!(t.screen, ScreenState::Stepper);
}

#[test]
fn shoulders_report_no_pattern_when_the_slot_is_empty() {
    let mut t = Tracker::new();
    t.editor.graph.set(
        t.editor.cursor.pos,
        Some(TrackerNode { node_dat: TrackerNodeData::Pattern(8), next: None }),
    );
    assert!(t.enter_stepper(0));
    assert_eq!(t.on_shoulders_held(false, true, 200), Some(NudgeError::NoPattern));
}

#[test]
fn directions_move_the_stepper_cursor_on_press() {
    let mut t = Tracker::new();
    t.editor.graph.set(
        t.editor.cursor.pos,
        Some(TrackerNode { node_dat: TrackerNodeData::Pattern(0), next: None }),
    );
    assert!(t.enter_stepper(0));

    t.on_directions_pressed(false, false, false, true);
    assert_eq!(t.session.unwrap().cursor.step_num, 1);
    // Two directions at once cancel out.
    t.on_directions_pressed(true, false, false, true);
    assert_eq!(t.session.unwrap().cursor.step_num, 1);
    t.on_directions_pressed(true, false, false, false);
    assert_eq!(t.session.unwrap().cursor.step_num, 9);
}

#[test]
fn graph_screen_authoring_through_the_tracker() {
    let mut t = Tracker::new();
    let at = t.editor.cursor.pos;

    // Confirm starts authoring; two forward cycles reach Teleport.
    t.on_confirm_pressed();
    t.on_shoulder_released(true);
    t.on_shoulder_released(true);
    t.on_confirm_released();
    for _ in 0..5 {
        t.on_direction_released(Direction::Up);
    }
    t.on_confirm_released();
    for _ in 0..3 {
        t.on_direction_released(Direction::Up);
    }
    t.on_confirm_released();

    assert_eq!(
        t.editor.graph.get(at),
        Some(TrackerNode {
            node_dat: TrackerNodeData::Teleport(Point { x: 5, y: 3 }),
            next: None,
        })
    );

    // Cancel outside of field filling changes nothing.
    t.on_cancel_released();
    assert_eq!(t.editor.cursor.state, CursorState::Idle);
}

#[test]
fn graph_screen_movement_through_the_tracker() {
    let mut t = Tracker::new();
    t.on_directions_held(false, false, false, true, 1000);
    assert_eq!(t.editor.cursor.pos, Point { x: 1, y: 0 });
    // Held opposing directions cancel out.
    t.on_directions_held(false, true, true, false, 2000);
    assert_eq!(t.editor.cursor.pos, Point { x: 1, y: 0 });
    t.on_directions_held(false, true, false, false, 2000);
    assert_eq!(t.editor.cursor.pos, Point { x: 1, y: 1 });
}

#[test]
fn choosing_type_keeps_the_kind_under_cancel_and_movement() {
    let mut t = Tracker::new();
    t.on_confirm_pressed();
    assert_eq!(
        t.editor.cursor.state,
        CursorState::Holding(MaybeTrackerNode::PreNode(TrackerNodeType::Pattern))
    );
    // Cancel applies only while filling fields.
    t.on_cancel_released();
    assert_eq!(
        t.editor.cursor.state,
        CursorState::Holding(MaybeTrackerNode::PreNode(TrackerNodeType::Pattern))
    );
    // Movement still works while choosing a kind.
    t.on_directions_held(false, false, false, true, 1000);
    assert_eq!(t.editor.cursor.pos, Point { x: 1, y: 0 });
}

#[test]
fn input_commands_carry_button_edges() {
    let press = InputCMD::ButtonPress(Button::A);
    let release = InputCMD::ButtonRelease(Button::A);
    assert_ne!(press, release);
    assert_ne!(press, InputCMD::Exit());
    assert_eq!(press, InputCMD::ButtonPress(Button::A));

    let c = DisplayCursor::new();
    assert_eq!(c, DisplayCursor { row: 0, col: 0, selected: false });
}
