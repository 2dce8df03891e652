//! The top level: which screen is active, the graph editor, the pattern
//! table, and the stepper session bound while the stepper screen is open.
//! Inbound abstract button events are dispatched here to the screen that
//! consumes them.

use vstd::prelude::*;

use crate::authoring::{
    add_tracker_node_rel, escape_tracker_node_args_set_rel, move_cursor_rel, nudge_field_rel,
    pick_tracker_node_rel, place_tracker_node_rel, set_tracker_node_args_rel, CursorState,
    Direction, GraphEditor, MaybeTrackerNode,
};
use crate::graph::TrackerNodeData;
use crate::params::NudgeError;
use crate::stepper::{
    cursor_moved, exactly_one_pressed, nudge, nudge_note_rel, nudge_note_result_spec,
    stepper_setup, CursorLocation, CursorMovement, EditingPattern, NudgeEvent, Patterns,
    SoundChannel, StepEditTimmer,
};

verus! {

/// Which screen of the tracker is active. Only the graph and stepper screens
/// are handled by this core; the synth and settings screens belong to outer
/// layers.
#[derive(Clone, Copy, Debug, PartialEq, Eq, Structural)]
pub enum ScreenState {
    Graph,
    Stepper,
    PlaySynth,
    Settings,
}

/// The state scoped to one visit of the stepper screen: its cursor, the
/// pattern index bound on entry, and the nudge rate-limit timer.
#[derive(Clone, Copy, Debug, PartialEq, Eq, Structural)]
pub struct StepperSession {
    pub cursor: crate::stepper::Cursor,
    pub editing: EditingPattern,
    pub timer: StepEditTimmer,
}

/// The whole core state of the tracker.
#[derive(Debug)]
pub struct Tracker {
    pub editor: GraphEditor,
    pub patterns: Patterns,
    pub screen: ScreenState,
    pub session: Option<StepperSession>,
}

impl Tracker {
    /// The top-level invariant: the editor and pattern table are well-formed,
    /// and a stepper session exists exactly while the stepper screen is open.
    pub open spec fn wf(self) -> bool {
        &&& self.editor.wf()
        &&& self.patterns.wf()
        &&& self.patterns.all_wf()
        &&& (self.screen is Stepper <==> self.session is Some)
        &&& (self.session matches Some(s) ==> s.cursor.wf())
    }

    /// A fresh tracker: empty graph, empty pattern table, graph screen.
    pub fn new() -> (r: Tracker)
        ensures
            r.wf(),
            r.screen is Graph,
            r.session is None,
            forall|p: crate::graph::Point| p.in_bounds() ==> r.editor.graph.cell(p) is None,
            forall|i: int| 0 <= i < r.patterns.pats@.len() ==> r.patterns.pats@[i] is None,
    {
        Tracker {
            editor: GraphEditor::new(),
            patterns: Patterns::new(),
            screen: ScreenState::Graph,
            session: None,
        }
    }

    /// Enter the stepper from the graph screen: bind the pattern under the
    /// arrangement cursor. Succeeds exactly when the cell under the edit
    /// point holds a pattern node; otherwise nothing changes and the caller
    /// stays on the graph screen with an error indication.
    pub fn enter_stepper(&mut self, now_ms: u64) -> (r: bool)
        requires
            old(self).wf(),
        ensures
            final(self).wf(),
            match old(self).screen {
                ScreenState::Graph => match old(self).editor.graph.cell(
                    old(self).editor.cursor.pos,
                ) {
                    Some(node) => match node.node_dat {
                        TrackerNodeData::Pattern(i) => r && *final(self) == (Tracker {
                            screen: ScreenState::Stepper,
                            session: Some(
                                StepperSession {
                                    cursor: crate::stepper::Cursor {
                                        channel: SoundChannel::PulseWSweep,
                                        location: CursorLocation::Notes,
                                        step_num: 0usize,
                                        param_num: 0usize,
                                    },
                                    editing: EditingPattern(i),
                                    timer: StepEditTimmer(now_ms),
                                },
                            ),
                            ..*old(self)
                        }),
                        _ => !r && *final(self) == *old(self),
                    },
                    None => !r && *final(self) == *old(self),
                },
                _ => !r && *final(self) == *old(self),
            },
    {
        match self.screen {
            ScreenState::Graph => {
                match stepper_setup(&self.editor.graph, self.editor.cursor.pos) {
                    Some((cursor, editing)) => {
                        self.screen = ScreenState::Stepper;
                        self.session = Some(
                            StepperSession { cursor, editing, timer: StepEditTimmer(now_ms) },
                        );
                        true
                    },
                    None => false,
                }
            },
            _ => false,
        }
    }

    /// Leave the stepper: drop its session, return to the graph screen, and
    /// empty the graph cursor's hand, as happens on entering the graph
    /// screen.
    pub fn exit_stepper(&mut self)
        requires
            old(self).wf(),
        ensures
            final(self).wf(),
            *final(self) == (Tracker {
                screen: ScreenState::Graph,
                session: None::<StepperSession>,
                editor: GraphEditor {
                    cursor: crate::authoring::Cursor {
                        state: CursorState::Idle,
                        ..old(self).editor.cursor
                    },
                    ..old(self).editor
                },
                ..*old(self)
            }),
    {
        self.screen = ScreenState::Graph;
        self.session = None;
        self.editor.default_cursor_state();
    }

    /// A confirm press. On the graph screen it starts authoring over an
    /// empty cell or places a held concrete node; on the stepper screen it
    /// moves the cursor from the note row onto the parameter row.
    pub fn on_confirm_pressed(&mut self)
        requires
            old(self).wf(),
        ensures
            final(self).wf(),
            final(self).screen == old(self).screen,
            match old(self).screen {
                ScreenState::Graph => {
                    &&& add_tracker_node_rel(old(self).editor, final(self).editor)
                    &&& final(self).patterns.pats@ == old(self).patterns.pats@
                    &&& final(self).session == old(self).session
                },
                ScreenState::Stepper => {
                    &&& final(self).editor == old(self).editor
                    &&& final(self).patterns.pats@ == old(self).patterns.pats@
                    &&& match old(self).session {
                        Some(s) => final(self).session == Some(
                            StepperSession {
                                cursor: crate::stepper::Cursor {
                                    location: if s.cursor.location is Notes {
                                        CursorLocation::Params
                                    } else {
                                        s.cursor.location
                                    },
                                    ..s.cursor
                                },
                                ..s
                            },
                        ),
                        None => final(self).session is None,
                    }
                },
                _ => *final(self) == *old(self),
            },
    {
        match self.screen {
            ScreenState::Graph => {
                self.editor.add_tracker_node();
            },
            ScreenState::Stepper => {
                match self.session {
                    Some(s) => {
                        if matches!(s.cursor.location, CursorLocation::Notes) {
                            self.session = Some(
                                StepperSession {
                                    cursor: crate::stepper::Cursor {
                                        location: CursorLocation::Params,
                                        ..s.cursor
                                    },
                                    ..s
                                },
                            );
                        }
                    },
                    None => {},
                }
            },
            _ => {},
        }
    }

    /// A confirm release. On the graph screen it settles the stage the
    /// authoring cursor is in: a chosen kind starts its fields, a field being
    /// filled is marked complete (committing the node once all are). On the
    /// stepper screen it moves the cursor from the parameter row back onto
    /// the note row.
    pub fn on_confirm_released(&mut self)
        requires
            old(self).wf(),
        ensures
            final(self).wf(),
            final(self).screen == old(self).screen,
            match old(self).screen {
                ScreenState::Graph => {
                    &&& match old(self).editor.cursor.state {
                        CursorState::Holding(MaybeTrackerNode::PreNode(_)) => place_tracker_node_rel(
                            old(self).editor,
                            final(self).editor,
                        ),
                        CursorState::Holding(
                            MaybeTrackerNode::PlacedPreNode(_),
                        ) => set_tracker_node_args_rel(old(self).editor, final(self).editor),
                        _ => final(self).editor == old(self).editor,
                    }
                    &&& final(self).patterns.pats@ == old(self).patterns.pats@
                    &&& final(self).session == old(self).session
                },
                ScreenState::Stepper => {
                    &&& final(self).editor == old(self).editor
                    &&& final(self).patterns.pats@ == old(self).patterns.pats@
                    &&& match old(self).session {
                        Some(s) => final(self).session == Some(
                            StepperSession {
                                cursor: crate::stepper::Cursor {
                                    location: if s.cursor.location is Params {
                                        CursorLocation::Notes
                                    } else {
                                        s.cursor.location
                                    },
                                    ..s.cursor
                                },
                                ..s
                            },
                        ),
                        None => final(self).session is None,
                    }
                },
                _ => *final(self) == *old(self),
            },
    {
        match self.screen {
            ScreenState::Graph => {
                match self.editor.cursor.state {
                    CursorState::Holding(MaybeTrackerNode::PreNode(_)) => {
                        self.editor.place_tracker_node();
                    },
                    CursorState::Holding(MaybeTrackerNode::PlacedPreNode(_)) => {
                        self.editor.set_tracker_node_args();
                    },
                    _ => {},
                }
            },
            ScreenState::Stepper => {
                match self.session {
                    Some(s) => {
                        if matches!(s.cursor.location, CursorLocation::Params) {
                            self.session = Some(
                                StepperSession {
                                    cursor: crate::stepper::Cursor {
                                        location: CursorLocation::Notes,
                                        ..s.cursor
                                    },
                                    ..s
                                },
                            );
                        }
                    },
                    None => {},
                }
            },
            _ => {},
        }
    }

    /// A cancel release. On the graph screen it discards a node being filled
    /// and returns the cursor to idle; elsewhere it does nothing.
    pub fn on_cancel_released(&mut self)
        requires
            old(self).wf(),
        ensures
            final(self).wf(),
            final(self).screen == old(self).screen,
            final(self).patterns.pats@ == old(self).patterns.pats@,
            final(self).session == old(self).session,
            match old(self).screen {
                ScreenState::Graph => escape_tracker_node_args_set_rel(
                    old(self).editor,
                    final(self).editor,
                ),
                _ => final(self).editor == old(self).editor,
            },
    {
        match self.screen {
            ScreenState::Graph => {
                self.editor.escape_tracker_node_args_set();
            },
            _ => {},
        }
    }

    /// The directional buttons held this tick, on the graph screen: when
    /// exactly one is held, a rate-limited cursor move (or display-only move
    /// while a goto target is selected). Several held directions cancel out.
    pub fn on_directions_held(&mut self, up: bool, down: bool, left: bool, right: bool, now_ms: u64)
        requires
            old(self).wf(),
            now_ms >= old(self).editor.last_move.at_ms,
        ensures
            final(self).wf(),
            final(self).screen == old(self).screen,
            final(self).patterns.pats@ == old(self).patterns.pats@,
            final(self).session == old(self).session,
            final(self).editor.last_move.at_ms <= now_ms,
            match old(self).screen {
                ScreenState::Graph => if exactly_one_pressed(up, down, left, right) {
                    let dir = if up {
                        Direction::Up
                    } else if down {
                        Direction::Down
                    } else if left {
                        Direction::Left
                    } else {
                        Direction::Right
                    };
                    move_cursor_rel(old(self).editor, final(self).editor, dir, now_ms)
                } else {
                    final(self).editor == old(self).editor
                },
                _ => final(self).editor == old(self).editor,
            },
    {
        match self.screen {
            ScreenState::Graph => {
                if up && !down && !left && !right {
                    self.editor.move_cursor(Direction::Up, now_ms);
                } else if !up && down && !left && !right {
                    self.editor.move_cursor(Direction::Down, now_ms);
                } else if !up && !down && left && !right {
                    self.editor.move_cursor(Direction::Left, now_ms);
                } else if !up && !down && !left && right {
                    self.editor.move_cursor(Direction::Right, now_ms);
                }
            },
            _ => {},
        }
    }

    /// A directional button released, on the graph screen: nudges the field
    /// a pre-node is currently filling; elsewhere it does nothing.
    pub fn on_direction_released(&mut self, dir: Direction)
        requires
            old(self).wf(),
        ensures
            final(self).wf(),
            final(self).screen == old(self).screen,
            final(self).patterns.pats@ == old(self).patterns.pats@,
            final(self).session == old(self).session,
            match old(self).screen {
                ScreenState::Graph => nudge_field_rel(old(self).editor, final(self).editor, dir),
                _ => final(self).editor == old(self).editor,
            },
    {
        match self.screen {
            ScreenState::Graph => {
                self.editor.nudge_field(dir);
            },
            _ => {},
        }
    }

    /// The directional buttons just pressed this tick, on the stepper
    /// screen: when exactly one is pressed, the stepper cursor moves by its
    /// movement rules. Several pressed directions cancel out.
    pub fn on_directions_pressed(&mut self, up: bool, down: bool, left: bool, right: bool)
        requires
            old(self).wf(),
        ensures
            final(self).wf(),
            final(self).screen == old(self).screen,
            final(self).patterns.pats@ == old(self).patterns.pats@,
            final(self).editor == old(self).editor,
            match old(self).screen {
                ScreenState::Stepper => match old(self).session {
                    Some(s) => if exactly_one_pressed(up, down, left, right) {
                        let ev = if up {
                            CursorMovement::Up
                        } else if down {
                            CursorMovement::Down
                        } else if left {
                            CursorMovement::Left
                        } else {
                            CursorMovement::Right
                        };
                        final(self).session == Some(
                            StepperSession { cursor: cursor_moved(s.cursor, ev), ..s },
                        )
                    } else {
                        final(self).session == old(self).session
                    },
                    None => final(self).session is None,
                },
                _ => final(self).session == old(self).session,
            },
    {
        match self.screen {
            ScreenState::Stepper => {
                match self.session {
                    Some(s) => {
                        let ev = crate::stepper::movement(up, down, left, right);
                        match ev {
                            Some(e) => {
                                let mut cursor = s.cursor;
                                crate::stepper::handle_movement(&mut cursor, e);
                                self.session = Some(StepperSession { cursor, ..s });
                            },
                            None => {},
                        }
                    },
                    None => {},
                }
            },
            _ => {},
        }
    }

    /// The shoulder buttons held this tick, on the stepper screen. Both held
    /// restart the nudge cooldown; one held past the cooldown emits a nudge
    /// event, which is processed against the bound pattern. A failure from
    /// the pattern layer is returned for logging and is never fatal.
    pub fn on_shoulders_held(&mut self, shoulder_dec: bool, shoulder_inc: bool, now_ms: u64) -> (r:
        Option<NudgeError>)
        requires
            old(self).wf(),
            old(self).session matches Some(s) ==> now_ms >= s.timer.0,
        ensures
            final(self).wf(),
            final(self).screen == old(self).screen,
            final(self).editor == old(self).editor,
            match old(self).screen {
                ScreenState::Stepper => match old(self).session {
                    Some(s) => {
                        let fires = !(shoulder_dec && shoulder_inc) && (shoulder_dec
                            || shoulder_inc) && now_ms - s.timer.0
                            > crate::stepper::NUDGE_COOLDOWN_MS;
                        let ev = NudgeEvent { cursor: s.cursor, up: !shoulder_dec };
                        &&& if shoulder_dec && shoulder_inc {
                            final(self).session == Some(
                                StepperSession { timer: StepEditTimmer(now_ms), ..s },
                            )
                        } else {
                            final(self).session == old(self).session
                        }
                        &&& if fires {
                            &&& nudge_note_rel(
                                old(self).patterns.pats@,
                                final(self).patterns.pats@,
                                s.editing.0 as int,
                                ev,
                            )
                            &&& match nudge_note_result_spec(
                                old(self).patterns.pats@,
                                s.editing.0 as int,
                                ev,
                            ) {
                                Ok(_) => r is None,
                                Err(e) => r == Some(e),
                            }
                        } else {
                            final(self).patterns.pats@ == old(self).patterns.pats@ && r is None
                        }
                    },
                    None => *final(self) == *old(self) && r is None,
                },
                _ => *final(self) == *old(self) && r is None,
            },
    {
        match self.screen {
            ScreenState::Stepper => {
                match self.session {
                    Some(s) => {
                        let mut timer = s.timer;
                        let ev = nudge(&s.cursor, &mut timer, shoulder_dec, shoulder_inc, now_ms);
                        self.session = Some(StepperSession { timer, ..s });
                        match ev {
                            Some(e) => match self.patterns.nudge_note(s.editing, e) {
                                Ok(_) => None,
                                Err(err) => Some(err),
                            },
                            None => None,
                        }
                    },
                    None => None,
                }
            },
            _ => None,
        }
    }

    /// A shoulder button released, on the graph screen: cycles the node kind
    /// being chosen (increment cycles forward); elsewhere it does nothing.
    pub fn on_shoulder_released(&mut self, next: bool)
        requires
            old(self).wf(),
        ensures
            final(self).wf(),
            final(self).screen == old(self).screen,
            final(self).patterns.pats@ == old(self).patterns.pats@,
            final(self).session == old(self).session,
            match old(self).screen {
                ScreenState::Graph => pick_tracker_node_rel(
                    old(self).editor,
                    final(self).editor,
                    next,
                ),
                _ => final(self).editor == old(self).editor,
            },
    {
        match self.screen {
            ScreenState::Graph => {
                self.editor.pick_tracker_node(next);
            },
            _ => {},
        }
    }
}

} // verus!
