use tracker_core::authoring::{
    node_from_pre, CursorState, Direction, GraphEditor, MaybeTrackerNode, PlacedPreNode,
};
use tracker_core::graph::{
    CondStats, Conditional, NodeVar, Operation, Point, TrackerNode, TrackerNodeData,
    TrackerNodeType,
};

/// Drive one confirm through the editor the way the frontend does: a press
/// starts authoring or places a concrete node, a release settles the stage.
fn confirm(editor: &mut GraphEditor) {
    match editor.cursor.state {
        CursorState::Idle | CursorState::Holding(MaybeTrackerNode::ConcreteNode(_)) => {
            editor.add_tracker_node();
        }
        CursorState::Holding(MaybeTrackerNode::PreNode(_)) => {
            editor.place_tracker_node();
        }
        CursorState::Holding(MaybeTrackerNode::PlacedPreNode(_)) => {
            editor.set_tracker_node_args();
        }
        CursorState::Connecting(_) => {}
    }
}

#[test]
fn teleport_authoring_end_to_end() {
    // Start at an empty cell, confirm; cycle type to Teleport, confirm; five
    // up-nudges then confirm set x = 5; three up-nudges then confirm set
    // y = 3. The cell then holds a teleport to (5, 3) with no successor.
    let mut editor = GraphEditor::new();
    let at = editor.cursor.pos;

    confirm(&mut editor);
    assert_eq!(
        editor.cursor.state,
        CursorState::Holding(MaybeTrackerNode::PreNode(TrackerNodeType::Pattern))
    );

    editor.pick_tracker_node(true);
    editor.pick_tracker_node(true);
    assert_eq!(
        editor.cursor.state,
        CursorState::Holding(MaybeTrackerNode::PreNode(TrackerNodeType::Teleport))
    );

    confirm(&mut editor);
    assert!(matches!(
        editor.cursor.state,
        CursorState::Holding(MaybeTrackerNode::PlacedPreNode(PlacedPreNode::Teleport { .. }))
    ));

    for _ in 0..5 {
        editor.nudge_field(Direction::Up);
    }
    confirm(&mut editor);
    for _ in 0..3 {
        editor.nudge_field(Direction::Up);
    }
    confirm(&mut editor);

    assert_eq!(editor.cursor.state, CursorState::Idle);
    assert_eq!(
        editor.graph.get(at),
        Some(TrackerNode {
            node_dat: TrackerNodeData::Teleport(Point { x: 5, y: 3 }),
            next: None,
        })
    );
}

#[test]
fn pattern_authoring_with_big_and_small_nudges() {
    let mut editor = GraphEditor::new();
    let at = editor.cursor.pos;

    confirm(&mut editor); // choosing type, Pattern is the default
    confirm(&mut editor); // filling the single index field
    editor.nudge_field(Direction::Right); // +16
    editor.nudge_field(Direction::Up); // +1
    editor.nudge_field(Direction::Up); // +1
    editor.nudge_field(Direction::Down); // -1
    confirm(&mut editor);

    assert_eq!(
        editor.graph.get(at),
        Some(TrackerNode { node_dat: TrackerNodeData::Pattern(17), next: None })
    );
}

#[test]
fn pattern_index_nudges_saturate_at_zero() {
    let mut editor = GraphEditor::new();
    confirm(&mut editor);
    confirm(&mut editor);
    editor.nudge_field(Direction::Down); // 0 stays 0
    editor.nudge_field(Direction::Left); // below 16: unchanged
    editor.nudge_field(Direction::Up);
    confirm(&mut editor);
    assert_eq!(
        editor.graph.get(editor.cursor.pos),
        Some(TrackerNode { node_dat: TrackerNodeData::Pattern(1), next: None })
    );
}

#[test]
fn conditional_authoring_picks_goto_with_the_display_cursor() {
    let mut editor = GraphEditor::new();
    let at = editor.cursor.pos;

    confirm(&mut editor);
    editor.pick_tracker_node(true); // Pattern -> Conditional
    confirm(&mut editor);

    // op: Mod, one small step up -> Lt; confirm.
    editor.nudge_field(Direction::Up);
    confirm(&mut editor);
    // var: SeenSinceStart, one small step down -> NFalses; confirm.
    editor.nudge_field(Direction::Down);
    confirm(&mut editor);

    // goto selection: directions move the display point, the edit point is
    // pinned. Move right twice and down once (the rate limiter accepts a
    // direction change at once, a repeat only after the cooldown).
    assert!(editor.selecting_goto());
    editor.move_cursor(Direction::Right, 1000);
    editor.move_cursor(Direction::Right, 1300);
    editor.move_cursor(Direction::Down, 1400);
    assert_eq!(editor.cursor.display, Point { x: 2, y: 1 });
    assert_eq!(editor.cursor.pos, at);

    confirm(&mut editor);
    assert_eq!(
        editor.graph.get(at),
        Some(TrackerNode {
            node_dat: TrackerNodeData::Conditional(Conditional {
                op: Operation::Lt,
                var: NodeVar::NFalses,
                stats: CondStats { seen: 0, trues: 0, falses: 0 },
                n: 0,
                goto: Point { x: 2, y: 1 },
            }),
            next: None,
        })
    );
    // The display point is pinned back onto the edit point afterwards.
    assert_eq!(editor.cursor.display, at);
}

#[test]
fn committing_onto_an_occupied_cell_keeps_the_existing_node() {
    // Placement guard: committing a node onto an already-occupied cell must
    // not overwrite the existing node.
    let mut editor = GraphEditor::new();
    let at = editor.cursor.pos;
    let existing = TrackerNode { node_dat: TrackerNodeData::Pattern(1), next: None };
    editor.graph.set(at, Some(existing));

    // Confirm over the occupied cell does not even begin authoring.
    editor.add_tracker_node();
    assert_eq!(editor.cursor.state, CursorState::Idle);

    // A completed pre-node held over the occupied cell is discarded, not
    // committed.
    editor.cursor.state = CursorState::Holding(MaybeTrackerNode::PlacedPreNode(
        PlacedPreNode::Teleport { x: 9, x_set: true, y: 9, y_set: false },
    ));
    editor.set_tracker_node_args(); // confirms y, completing the pre-node
    assert_eq!(editor.cursor.state, CursorState::Idle);
    assert_eq!(editor.graph.get(at), Some(existing));

    // A held concrete node is not placed onto the occupied cell either.
    let other = TrackerNode { node_dat: TrackerNodeData::Pattern(2), next: None };
    editor.cursor.state = CursorState::Holding(MaybeTrackerNode::ConcreteNode(other));
    editor.add_tracker_node();
    assert_eq!(editor.graph.get(at), Some(existing));
}

#[test]
fn cancel_discards_the_pre_node() {
    let mut editor = GraphEditor::new();
    confirm(&mut editor);
    confirm(&mut editor); // filling a pattern index
    editor.nudge_field(Direction::Up);
    editor.escape_tracker_node_args_set();
    assert_eq!(editor.cursor.state, CursorState::Idle);
    assert_eq!(editor.graph.get(editor.cursor.pos), None);
}

#[test]
fn movement_is_clamped_at_the_graph_edges() {
    let mut editor = GraphEditor::new();
    // At the origin, up and left are no-ops.
    editor.move_cursor(Direction::Up, 1000);
    assert_eq!(editor.cursor.pos, Point { x: 0, y: 0 });
    editor.move_cursor(Direction::Left, 2000);
    assert_eq!(editor.cursor.pos, Point { x: 0, y: 0 });

    // Walk to the right edge: movement stops at x == 255.
    let mut now: u64 = 10_000;
    for _ in 0..300 {
        editor.move_cursor(Direction::Right, now);
        now += 250;
    }
    assert_eq!(editor.cursor.pos, Point { x: 255, y: 0 });
    assert_eq!(editor.cursor.display, Point { x: 255, y: 0 });
}

#[test]
fn movement_rate_limit_accepts_direction_changes_at_once() {
    let mut editor = GraphEditor::new();
    editor.move_cursor(Direction::Right, 1000);
    assert_eq!(editor.cursor.pos.x, 1);
    // A repeat within the cooldown is rejected.
    editor.move_cursor(Direction::Right, 1100);
    assert_eq!(editor.cursor.pos.x, 1);
    // A different direction is accepted at once.
    editor.move_cursor(Direction::Down, 1100);
    assert_eq!(editor.cursor.pos.y, 1);
    // The repeat is accepted after the cooldown.
    editor.move_cursor(Direction::Down, 1301);
    assert_eq!(editor.cursor.pos.y, 2);
}

#[test]
fn viewport_scrolls_in_lockstep_with_the_cursor() {
    let mut editor = GraphEditor::new();
    assert_eq!(editor.window.x.min, 0);
    assert_eq!(editor.window.x.max, 24);
    assert_eq!(editor.window.y.min, 0);
    assert_eq!(editor.window.y.max, 16);

    editor.move_cursor(Direction::Right, 1000);
    editor.move_cursor(Direction::Down, 1001);
    assert_eq!(editor.window.x.min, 1);
    assert_eq!(editor.window.x.max, 25);
    assert_eq!(editor.window.y.min, 1);
    assert_eq!(editor.window.y.max, 17);
}

#[test]
fn incomplete_pre_nodes_convert_to_the_fallback_pattern() {
    let node = node_from_pre(PlacedPreNode::Teleport { x: 4, x_set: true, y: 2, y_set: false });
    assert_eq!(node, TrackerNode { node_dat: TrackerNodeData::Pattern(0), next: None });
    let node = node_from_pre(PlacedPreNode::Pattern(Some(11)));
    assert_eq!(node, TrackerNode { node_dat: TrackerNodeData::Pattern(11), next: None });
}

#[test]
fn cycling_the_node_kind_wraps_in_both_directions() {
    let mut editor = GraphEditor::new();
    confirm(&mut editor);
    let kinds_forward = [
        TrackerNodeType::Conditional,
        TrackerNodeType::Teleport,
        TrackerNodeType::Pattern,
    ];
    for expect in kinds_forward {
        editor.pick_tracker_node(true);
        assert_eq!(
            editor.cursor.state,
            CursorState::Holding(MaybeTrackerNode::PreNode(expect))
        );
    }
    editor.pick_tracker_node(false);
    assert_eq!(
        editor.cursor.state,
        CursorState::Holding(MaybeTrackerNode::PreNode(TrackerNodeType::Teleport))
    );
}
