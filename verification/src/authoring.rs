//! Node authoring: the cursor state machine that constructs a node field by
//! field and commits it into the graph, plus clamped cursor movement with a
//! viewport scrolled in lockstep.

use vstd::prelude::*;

use crate::graph::{
    big_dec, big_inc, dec_n, inc_n, CondStats, Conditional, Graph, Incrementable, NodeVar,
    Operation, Point, TrackerNode, TrackerNodeData, TrackerNodeType,
};
use crate::{PatternIndex, GRAPH_X, GRAPH_Y};

verus! {

/// A directional input.
#[derive(Clone, Copy, Debug, PartialEq, Eq, Structural)]
pub enum Direction {
    Up,
    Down,
    Left,
    Right,
}

/// A node under construction: each field of the eventual node is paired with
/// a completion flag (for the pattern index, `Some` doubles as the flag).
#[derive(Clone, Copy, Debug, PartialEq, Eq, Structural)]
pub enum PlacedPreNode {
    Pattern(Option<PatternIndex>),
    Conditional { op: Operation, op_set: bool, var: NodeVar, var_set: bool, goto: Point, goto_set: bool },
    Teleport { x: usize, x_set: bool, y: usize, y_set: bool },
}

impl PlacedPreNode {
    /// The blank pre-node for each node kind: all fields unset.
    pub open spec fn default_for_spec(node_type: TrackerNodeType) -> PlacedPreNode {
        match node_type {
            TrackerNodeType::Pattern => PlacedPreNode::Pattern(None),
            TrackerNodeType::Teleport => PlacedPreNode::Teleport {
                x: 0usize,
                x_set: false,
                y: 0usize,
                y_set: false,
            },
            TrackerNodeType::Conditional => PlacedPreNode::Conditional {
                op: Operation::Mod,
                op_set: false,
                var: NodeVar::SeenSinceStart,
                var_set: false,
                goto: Point { x: 0usize, y: 0usize },
                goto_set: false,
            },
        }
    }

    /// Begin authoring a node of the given kind.
    pub fn default_for(node_type: TrackerNodeType) -> (r: PlacedPreNode)
        ensures
            r == PlacedPreNode::default_for_spec(node_type),
    {
        match node_type {
            TrackerNodeType::Pattern => PlacedPreNode::Pattern(None),
            TrackerNodeType::Teleport => PlacedPreNode::Teleport {
                x: 0,
                x_set: false,
                y: 0,
                y_set: false,
            },
            TrackerNodeType::Conditional => PlacedPreNode::Conditional {
                op: Operation::Mod,
                op_set: false,
                var: NodeVar::SeenSinceStart,
                var_set: false,
                goto: Point { x: 0, y: 0 },
                goto_set: false,
            },
        }
    }

    /// True iff every required field's completion flag is set.
    pub open spec fn should_set_spec(self) -> bool {
        match self {
            PlacedPreNode::Pattern(i) => i is Some,
            PlacedPreNode::Teleport { x_set, y_set, .. } => x_set && y_set,
            PlacedPreNode::Conditional { op_set, var_set, goto_set, .. } => op_set && var_set
                && goto_set,
        }
    }

    /// True iff every required field's completion flag is set.
    pub fn should_set(&self) -> (r: bool)
        ensures
            r == self.should_set_spec(),
    {
        match self {
            PlacedPreNode::Pattern(i) => i.is_some(),
            PlacedPreNode::Teleport { x_set, y_set, .. } => *x_set && *y_set,
            PlacedPreNode::Conditional { op_set, var_set, goto_set, .. } => *op_set && *var_set
                && *goto_set,
        }
    }
}

/// The concrete node a completed pre-node turns into: the type-specific data
/// filled in, `next` empty, and a conditional's statistics zeroed with its
/// threshold at 0. An incomplete pre-node falls back to pattern 0.
pub open spec fn node_from_pre_spec(pre: PlacedPreNode) -> TrackerNode {
    match pre {
        PlacedPreNode::Pattern(Some(i)) => TrackerNode {
            node_dat: TrackerNodeData::Pattern(i),
            next: None,
        },
        PlacedPreNode::Teleport { x, x_set: true, y, y_set: true } => TrackerNode {
            node_dat: TrackerNodeData::Teleport(Point { x, y }),
            next: None,
        },
        PlacedPreNode::Conditional {
            op,
            op_set: true,
            var,
            var_set: true,
            goto,
            goto_set: true,
        } => TrackerNode {
            node_dat: TrackerNodeData::Conditional(
                Conditional {
                    op,
                    var,
                    stats: CondStats { seen: 0usize, trues: 0usize, falses: 0usize },
                    n: 0usize,
                    goto,
                },
            ),
            next: None,
        },
        _ => TrackerNode { node_dat: TrackerNodeData::Pattern(0usize), next: None },
    }
}

/// Convert a completed pre-node into the concrete node to be written into
/// the graph.
pub fn node_from_pre(pre: PlacedPreNode) -> (r: TrackerNode)
    ensures
        r == node_from_pre_spec(pre),
{
    match pre {
        PlacedPreNode::Pattern(Some(i)) => TrackerNode {
            node_dat: TrackerNodeData::Pattern(i),
            next: None,
        },
        PlacedPreNode::Teleport { x, x_set: true, y, y_set: true } => TrackerNode {
            node_dat: TrackerNodeData::Teleport(Point { x, y }),
            next: None,
        },
        PlacedPreNode::Conditional {
            op,
            op_set: true,
            var,
            var_set: true,
            goto,
            goto_set: true,
        } => TrackerNode {
            node_dat: TrackerNodeData::Conditional(Conditional::new(op, var, 0, goto)),
            next: None,
        },
        _ => TrackerNode { node_dat: TrackerNodeData::Pattern(0), next: None },
    }
}

/// A node in the cursor's hand: fully concrete, a bare kind still being
/// chosen, or a partially-specified node being filled in.
#[derive(Clone, Copy, Debug, PartialEq, Eq, Structural)]
pub enum MaybeTrackerNode {
    ConcreteNode(TrackerNode),
    PreNode(TrackerNodeType),
    PlacedPreNode(PlacedPreNode),
}

impl MaybeTrackerNode {
    /// True when the hand holds a bare kind still being chosen.
    pub fn is_pre(&self) -> (r: bool)
        ensures
            r == (*self matches MaybeTrackerNode::PreNode(_)),
    {
        match self {
            MaybeTrackerNode::PreNode(_) => true,
            _ => false,
        }
    }

    /// True when the hand holds a fully concrete node.
    pub fn is_set(&self) -> (r: bool)
        ensures
            r == (*self matches MaybeTrackerNode::ConcreteNode(_)),
    {
        match self {
            MaybeTrackerNode::ConcreteNode(_) => true,
            _ => false,
        }
    }
}

/// What the authoring cursor is doing: idle, holding a node in some stage of
/// construction, or connecting from a stored point (reserved for explicit
/// link authoring).
#[derive(Clone, Copy, Debug, PartialEq, Eq, Structural)]
pub enum CursorState {
    Connecting(Point),
    Holding(MaybeTrackerNode),
    Idle,
}

impl CursorState {
    /// True when the cursor holds nothing.
    pub fn is_idle(&self) -> (r: bool)
        ensures
            r == (*self is Idle),
    {
        match self {
            CursorState::Idle => true,
            _ => false,
        }
    }
}

/// The graph-authoring cursor: its logical edit point, the point shown while
/// selecting a goto target, and what it holds.
#[derive(Clone, Copy, Debug, PartialEq, Eq, Structural)]
pub struct Cursor {
    pub pos: Point,
    pub display: Point,
    pub state: CursorState,
}

impl Cursor {
    /// Both points stay inside the graph.
    pub open spec fn wf(self) -> bool {
        self.pos.in_bounds() && self.display.in_bounds()
    }

    /// The cursor of a fresh editing session.
    pub fn new() -> (r: Cursor)
        ensures
            r == (Cursor {
                pos: Point { x: 0usize, y: 0usize },
                display: Point { x: 0usize, y: 0usize },
                state: CursorState::Idle,
            }),
    {
        Cursor {
            pos: Point { x: 0, y: 0 },
            display: Point { x: 0, y: 0 },
            state: CursorState::Idle,
        }
    }
}

/// A scroll range of the viewport along one axis.
#[derive(Clone, Copy, Debug, PartialEq, Eq, Structural)]
pub struct Range {
    pub min: isize,
    pub max: isize,
}

/// The visible sub-rectangle of the graph, scrolled in lockstep with the
/// display cursor.
#[derive(Clone, Copy, Debug, PartialEq, Eq, Structural)]
pub struct DisplayWindow {
    pub x: Range,
    pub y: Range,
}

/// The width of the viewport along x.
pub const WINDOW_SPAN_X: isize = 24;

/// The width of the viewport along y.
pub const WINDOW_SPAN_Y: isize = 16;

/// The viewport anchored at a display point.
pub open spec fn window_at(display: Point) -> DisplayWindow {
    DisplayWindow {
        x: Range { min: display.x as isize, max: (display.x + WINDOW_SPAN_X) as isize },
        y: Range { min: display.y as isize, max: (display.y + WINDOW_SPAN_Y) as isize },
    }
}

/// The direction last accepted by movement rate limiting, and when.
#[derive(Clone, Copy, Debug, PartialEq, Eq, Structural)]
pub struct LastMove {
    pub dir: Option<Direction>,
    pub at_ms: u64,
}

/// The movement cooldown, in milliseconds: a repeat in the same direction is
/// accepted only after this much time; a direction change is accepted at
/// once.
pub const MOVE_COOLDOWN_MS: u64 = 200;

/// Whether a movement input is accepted now: the same direction only after
/// the cooldown, a different direction (or the first ever) immediately.
pub open spec fn move_accepted(last: LastMove, dir: Direction, now_ms: u64) -> bool {
    last.dir != Some(dir) || now_ms - last.at_ms > MOVE_COOLDOWN_MS
}

/// The whole graph-editing state: the graph, the authoring cursor, the
/// viewport, and the movement rate limiter.
#[derive(Debug)]
pub struct GraphEditor {
    pub graph: Graph,
    pub cursor: Cursor,
    pub window: DisplayWindow,
    pub last_move: LastMove,
}

impl GraphEditor {
    /// The editor invariant: the graph has its full size, both cursor points
    /// are in bounds, and the viewport is anchored at the display point.
    pub open spec fn wf(self) -> bool {
        &&& self.graph.wf()
        &&& self.cursor.wf()
        &&& self.window == window_at(self.cursor.display)
    }

    /// A fresh editing session over an empty graph.
    pub fn new() -> (r: GraphEditor)
        ensures
            r.wf(),
            forall|p: Point| p.in_bounds() ==> r.graph.cell(p) is None,
            r.cursor == (Cursor {
                pos: Point { x: 0usize, y: 0usize },
                display: Point { x: 0usize, y: 0usize },
                state: CursorState::Idle,
            }),
            r.last_move == (LastMove { dir: None::<Direction>, at_ms: 0u64 }),
    {
        GraphEditor {
            graph: Graph::new(),
            cursor: Cursor::new(),
            window: DisplayWindow {
                x: Range { min: 0, max: WINDOW_SPAN_X },
                y: Range { min: 0, max: WINDOW_SPAN_Y },
            },
            last_move: LastMove { dir: None, at_ms: 0 },
        }
    }

    /// Whether a move one cell in `dir` is possible: the display point stays
    /// in bounds, and so does the edit point when it moves too.
    pub open spec fn can_move(self, dir: Direction, move_pos: bool) -> bool {
        match dir {
            Direction::Up => self.cursor.display.y > 0 && (!move_pos || self.cursor.pos.y > 0),
            Direction::Down => self.cursor.display.y + 1 < GRAPH_Y && (!move_pos
                || self.cursor.pos.y + 1 < GRAPH_Y),
            Direction::Left => self.cursor.display.x > 0 && (!move_pos || self.cursor.pos.x > 0),
            Direction::Right => self.cursor.display.x + 1 < GRAPH_X && (!move_pos
                || self.cursor.pos.x + 1 < GRAPH_X),
        }
    }

    /// The editor after one movement step: the display point (and, when
    /// `move_pos`, the edit point) shifted one cell, the viewport shifted in
    /// lockstep; unchanged when the move would leave the graph.
    pub open spec fn moved(self, dir: Direction, move_pos: bool) -> GraphEditor {
        if self.can_move(dir, move_pos) {
            let d = self.cursor.display;
            let p = self.cursor.pos;
            let new_display = match dir {
                Direction::Up => Point { y: (d.y - 1) as usize, ..d },
                Direction::Down => Point { y: (d.y + 1) as usize, ..d },
                Direction::Left => Point { x: (d.x - 1) as usize, ..d },
                Direction::Right => Point { x: (d.x + 1) as usize, ..d },
            };
            let new_pos = if move_pos {
                match dir {
                    Direction::Up => Point { y: (p.y - 1) as usize, ..p },
                    Direction::Down => Point { y: (p.y + 1) as usize, ..p },
                    Direction::Left => Point { x: (p.x - 1) as usize, ..p },
                    Direction::Right => Point { x: (p.x + 1) as usize, ..p },
                }
            } else {
                p
            };
            GraphEditor {
                cursor: Cursor { pos: new_pos, display: new_display, ..self.cursor },
                window: window_at(new_display),
                ..self
            }
        } else {
            self
        }
    }

    /// Move one cell up (`move_pos` moves the edit point along with the
    /// display point); a move that would leave the graph is a no-op.
    pub fn move_up(&mut self, move_pos: bool)
        requires
            old(self).wf(),
        ensures
            final(self).wf(),
            *final(self) == old(self).moved(Direction::Up, move_pos),
    {
        if self.cursor.display.y > 0 && (!move_pos || self.cursor.pos.y > 0) {
            self.window.y.min = self.window.y.min - 1;
            self.window.y.max = self.window.y.max - 1;
            if move_pos {
                self.cursor.pos.y = self.cursor.pos.y - 1;
            }
            self.cursor.display.y = self.cursor.display.y - 1;
        }
    }

    /// Move one cell down; a move that would leave the graph is a no-op.
    pub fn move_down(&mut self, move_pos: bool)
        requires
            old(self).wf(),
        ensures
            final(self).wf(),
            *final(self) == old(self).moved(Direction::Down, move_pos),
    {
        if self.cursor.display.y + 1 < GRAPH_Y && (!move_pos || self.cursor.pos.y + 1 < GRAPH_Y) {
            self.window.y.min = self.window.y.min + 1;
            self.window.y.max = self.window.y.max + 1;
            if move_pos {
                self.cursor.pos.y = self.cursor.pos.y + 1;
            }
            self.cursor.display.y = self.cursor.display.y + 1;
        }
    }

    /// Move one cell left; a move that would leave the graph is a no-op.
    pub fn move_left(&mut self, move_pos: bool)
        requires
            old(self).wf(),
        ensures
            final(self).wf(),
            *final(self) == old(self).moved(Direction::Left, move_pos),
    {
        if self.cursor.display.x > 0 && (!move_pos || self.cursor.pos.x > 0) {
            self.window.x.min = self.window.x.min - 1;
            self.window.x.max = self.window.x.max - 1;
            if move_pos {
                self.cursor.pos.x = self.cursor.pos.x - 1;
            }
            self.cursor.display.x = self.cursor.display.x - 1;
        }
    }

    /// Move one cell right; a move that would leave the graph is a no-op.
    pub fn move_right(&mut self, move_pos: bool)
        requires
            old(self).wf(),
        ensures
            final(self).wf(),
            *final(self) == old(self).moved(Direction::Right, move_pos),
    {
        if self.cursor.display.x + 1 < GRAPH_X && (!move_pos || self.cursor.pos.x + 1 < GRAPH_X) {
            self.window.x.min = self.window.x.min + 1;
            self.window.x.max = self.window.x.max + 1;
            if move_pos {
                self.cursor.pos.x = self.cursor.pos.x + 1;
            }
            self.cursor.display.x = self.cursor.display.x + 1;
        }
    }

    /// Pin the display point back onto the logical edit point and re-anchor
    /// the viewport there, as happens when an authoring sub-state ends.
    pub fn reset_display_cursor(&mut self)
        requires
            old(self).wf(),
        ensures
            final(self).wf(),
            *final(self) == (GraphEditor {
                cursor: Cursor { display: old(self).cursor.pos, ..old(self).cursor },
                window: window_at(old(self).cursor.pos),
                ..*old(self)
            }),
    {
        self.cursor.display.x = self.cursor.pos.x;
        self.cursor.display.y = self.cursor.pos.y;
        self.window.x.min = self.cursor.pos.x as isize;
        self.window.x.max = self.cursor.pos.x as isize + WINDOW_SPAN_X;
        self.window.y.min = self.cursor.pos.y as isize;
        self.window.y.max = self.cursor.pos.y as isize + WINDOW_SPAN_Y;
    }

    /// Empty the cursor's hand, as happens on entering the graph screen.
    pub fn default_cursor_state(&mut self)
        ensures
            *final(self) == (GraphEditor {
                cursor: Cursor { state: CursorState::Idle, ..old(self).cursor },
                ..*old(self)
            }),
    {
        self.cursor.state = CursorState::Idle;
    }

    /// True while the cursor holds a partially-specified node, i.e. while
    /// field filling (not cursor movement) consumes directional input.
    pub fn node_placed(&self) -> (r: bool)
        ensures
            r == (self.cursor.state matches CursorState::Holding(
                MaybeTrackerNode::PlacedPreNode(_),
            )),
    {
        match self.cursor.state {
            CursorState::Holding(MaybeTrackerNode::PlacedPreNode(_)) => true,
            _ => false,
        }
    }

    /// True while a conditional pre-node waits for its goto target, i.e.
    /// while directional input moves the display cursor instead of nudging a
    /// field.
    pub open spec fn selecting_goto_spec(self) -> bool {
        self.cursor.state matches CursorState::Holding(
            MaybeTrackerNode::PlacedPreNode(
                PlacedPreNode::Conditional { op_set: true, var_set: true, goto_set: false, .. },
            ),
        )
    }

    /// True while a conditional pre-node waits for its goto target.
    pub fn selecting_goto(&self) -> (r: bool)
        ensures
            r == self.selecting_goto_spec(),
    {
        match self.cursor.state {
            CursorState::Holding(
                MaybeTrackerNode::PlacedPreNode(
                    PlacedPreNode::Conditional { op_set: true, var_set: true, goto_set: false, .. },
                ),
            ) => true,
            _ => false,
        }
    }
}


/// The next or previous node kind in the circular order Pattern,
/// Conditional, Teleport.
pub open spec fn type_cycled(t: TrackerNodeType, next: bool) -> TrackerNodeType {
    if next {
        match t {
            TrackerNodeType::Pattern => TrackerNodeType::Conditional,
            TrackerNodeType::Conditional => TrackerNodeType::Teleport,
            TrackerNodeType::Teleport => TrackerNodeType::Pattern,
        }
    } else {
        match t {
            TrackerNodeType::Pattern => TrackerNodeType::Teleport,
            TrackerNodeType::Conditional => TrackerNodeType::Pattern,
            TrackerNodeType::Teleport => TrackerNodeType::Conditional,
        }
    }
}

/// A raw index (pattern index or teleport coordinate) after one directional
/// nudge: up and down move by one, right and left by sixteen; the value
/// never leaves `usize` and never drops below zero.
pub open spec fn index_nudged(i: usize, dir: Direction) -> usize {
    match dir {
        Direction::Up => if i < usize::MAX {
            (i + 1) as usize
        } else {
            i
        },
        Direction::Down => if i > 0 {
            (i - 1) as usize
        } else {
            i
        },
        Direction::Left => if i > 15 {
            (i - 16) as usize
        } else {
            i
        },
        Direction::Right => if i <= usize::MAX - 16 {
            (i + 16) as usize
        } else {
            i
        },
    }
}

/// Apply one directional nudge to a raw index.
pub fn nudge_index(i: usize, dir: Direction) -> (r: usize)
    ensures
        r == index_nudged(i, dir),
{
    match dir {
        Direction::Up => if i < usize::MAX {
            i + 1
        } else {
            i
        },
        Direction::Down => if i > 0 {
            i - 1
        } else {
            i
        },
        Direction::Left => if i > 15 {
            i - 16
        } else {
            i
        },
        Direction::Right => if i <= usize::MAX - 16 {
            i + 16
        } else {
            i
        },
    }
}

/// A pre-node after one directional nudge of the field currently being
/// filled: the pattern index (first touch starts it at 0), the first
/// unconfirmed teleport coordinate, or the conditional's operation or
/// variable (up and down step once, left and right take a big step). A
/// conditional waiting for its goto target ignores field nudges.
pub open spec fn pre_nudged(pre: PlacedPreNode, dir: Direction) -> PlacedPreNode {
    match pre {
        PlacedPreNode::Pattern(i) => {
            let base = match i {
                Some(v) => v,
                None => 0usize,
            };
            PlacedPreNode::Pattern(Some(index_nudged(base, dir)))
        },
        PlacedPreNode::Teleport { x, x_set, y, y_set } => {
            if !x_set {
                PlacedPreNode::Teleport { x: index_nudged(x, dir), x_set, y, y_set }
            } else if !y_set {
                PlacedPreNode::Teleport { x, x_set, y: index_nudged(y, dir), y_set }
            } else {
                pre
            }
        },
        PlacedPreNode::Conditional { op, op_set, var, var_set, goto, goto_set } => {
            if !op_set {
                let op2 = match dir {
                    Direction::Up => op.inc_spec(),
                    Direction::Down => op.dec_spec(),
                    Direction::Right => inc_n(op, 16),
                    Direction::Left => dec_n(op, 16),
                };
                PlacedPreNode::Conditional { op: op2, op_set, var, var_set, goto, goto_set }
            } else if !var_set {
                let var2 = match dir {
                    Direction::Up => var.inc_spec(),
                    Direction::Down => var.dec_spec(),
                    Direction::Right => inc_n(var, 16),
                    Direction::Left => dec_n(var, 16),
                };
                PlacedPreNode::Conditional { op, op_set, var: var2, var_set, goto, goto_set }
            } else {
                pre
            }
        },
    }
}

/// Apply one directional nudge to the field of a pre-node currently being
/// filled.
pub fn nudge_pre(pre: PlacedPreNode, dir: Direction) -> (r: PlacedPreNode)
    ensures
        r == pre_nudged(pre, dir),
{
    match pre {
        PlacedPreNode::Pattern(i) => {
            let base = match i {
                Some(v) => v,
                None => 0,
            };
            PlacedPreNode::Pattern(Some(nudge_index(base, dir)))
        },
        PlacedPreNode::Teleport { x, x_set, y, y_set } => {
            if !x_set {
                PlacedPreNode::Teleport { x: nudge_index(x, dir), x_set, y, y_set }
            } else if !y_set {
                PlacedPreNode::Teleport { x, x_set, y: nudge_index(y, dir), y_set }
            } else {
                pre
            }
        },
        PlacedPreNode::Conditional { op, op_set, var, var_set, goto, goto_set } => {
            if !op_set {
                let mut op2 = op;
                match dir {
                    Direction::Up => op2.small_inc(),
                    Direction::Down => op2.small_dec(),
                    Direction::Right => big_inc(&mut op2),
                    Direction::Left => big_dec(&mut op2),
                }
                PlacedPreNode::Conditional { op: op2, op_set, var, var_set, goto, goto_set }
            } else if !var_set {
                let mut var2 = var;
                match dir {
                    Direction::Up => var2.small_inc(),
                    Direction::Down => var2.small_dec(),
                    Direction::Right => big_inc(&mut var2),
                    Direction::Left => big_dec(&mut var2),
                }
                PlacedPreNode::Conditional { op, op_set, var: var2, var_set, goto, goto_set }
            } else {
                pre
            }
        },
    }
}

/// A pre-node after one confirm press: the field currently being filled is
/// marked complete, in its fixed order. Confirming a pattern index that was
/// never nudged completes it at 0; confirming a conditional's goto takes the
/// display cursor's point as the target.
pub open spec fn pre_confirmed(pre: PlacedPreNode, display: Point) -> PlacedPreNode {
    match pre {
        PlacedPreNode::Pattern(i) => {
            let base = match i {
                Some(v) => v,
                None => 0usize,
            };
            PlacedPreNode::Pattern(Some(base))
        },
        PlacedPreNode::Teleport { x, x_set, y, y_set } => {
            if !x_set {
                PlacedPreNode::Teleport { x, x_set: true, y, y_set }
            } else {
                PlacedPreNode::Teleport { x, x_set, y, y_set: true }
            }
        },
        PlacedPreNode::Conditional { op, op_set, var, var_set, goto, goto_set } => {
            if !op_set {
                PlacedPreNode::Conditional { op, op_set: true, var, var_set, goto, goto_set }
            } else if !var_set {
                PlacedPreNode::Conditional { op, op_set, var, var_set: true, goto, goto_set }
            } else {
                PlacedPreNode::Conditional { op, op_set, var, var_set, goto: display, goto_set: true }
            }
        },
    }
}

/// Apply one confirm press to a pre-node.
pub fn confirm_pre(pre: PlacedPreNode, display: Point) -> (r: PlacedPreNode)
    ensures
        r == pre_confirmed(pre, display),
{
    match pre {
        PlacedPreNode::Pattern(i) => {
            let base = match i {
                Some(v) => v,
                None => 0,
            };
            PlacedPreNode::Pattern(Some(base))
        },
        PlacedPreNode::Teleport { x, x_set, y, y_set } => {
            if !x_set {
                PlacedPreNode::Teleport { x, x_set: true, y, y_set }
            } else {
                PlacedPreNode::Teleport { x, x_set, y, y_set: true }
            }
        },
        PlacedPreNode::Conditional { op, op_set, var, var_set, goto, goto_set } => {
            if !op_set {
                PlacedPreNode::Conditional { op, op_set: true, var, var_set, goto, goto_set }
            } else if !var_set {
                PlacedPreNode::Conditional { op, op_set, var, var_set: true, goto, goto_set }
            } else {
                PlacedPreNode::Conditional { op, op_set, var, var_set, goto: display, goto_set: true }
            }
        },
    }
}

/// How a cycle press transforms the editor: while choosing a node kind the
/// kind steps through the circular order; any other state is untouched.
pub open spec fn pick_tracker_node_rel(a: GraphEditor, b: GraphEditor, next: bool) -> bool {
    match a.cursor.state {
        CursorState::Holding(MaybeTrackerNode::PreNode(t)) => b == (GraphEditor {
            cursor: Cursor {
                state: CursorState::Holding(MaybeTrackerNode::PreNode(type_cycled(t, next))),
                ..a.cursor
            },
            ..a
        }),
        _ => b == a,
    }
}

/// How a confirm press transforms an idle editor or one holding a concrete
/// node: over an empty cell an idle cursor begins authoring (Pattern first),
/// and a held concrete node is written into the cell; an occupied cell is
/// never overwritten. Any other state is untouched.
pub open spec fn add_tracker_node_rel(a: GraphEditor, b: GraphEditor) -> bool {
    match a.cursor.state {
        CursorState::Idle => if a.graph.cell(a.cursor.pos) is None {
            b == (GraphEditor {
                cursor: Cursor {
                    state: CursorState::Holding(
                        MaybeTrackerNode::PreNode(TrackerNodeType::Pattern),
                    ),
                    ..a.cursor
                },
                ..a
            })
        } else {
            b == a
        },
        CursorState::Holding(MaybeTrackerNode::ConcreteNode(node)) => {
            if a.graph.cell(a.cursor.pos) is None {
                &&& b.cursor == (Cursor { state: CursorState::Idle, ..a.cursor })
                &&& b.window == a.window
                &&& b.last_move == a.last_move
                &&& b.graph.cell(a.cursor.pos) == Some(node)
                &&& forall|q: Point|
                    q.in_bounds() && crate::graph::cell_index(q) != crate::graph::cell_index(
                        a.cursor.pos,
                    ) ==> b.graph.cell(q) == a.graph.cell(q)
            } else {
                b == a
            }
        },
        _ => b == a,
    }
}

/// How a confirm press transforms an editor still choosing a node kind: it
/// starts filling that kind's fields, all completion flags cleared. Any
/// other state is untouched.
pub open spec fn place_tracker_node_rel(a: GraphEditor, b: GraphEditor) -> bool {
    match a.cursor.state {
        CursorState::Holding(MaybeTrackerNode::PreNode(t)) => b == (GraphEditor {
            cursor: Cursor {
                state: CursorState::Holding(
                    MaybeTrackerNode::PlacedPreNode(PlacedPreNode::default_for_spec(t)),
                ),
                ..a.cursor
            },
            ..a
        }),
        _ => b == a,
    }
}

/// How a released directional press transforms an editor filling fields: the
/// field currently being filled is nudged. Any other state is untouched.
pub open spec fn nudge_field_rel(a: GraphEditor, b: GraphEditor, dir: Direction) -> bool {
    match a.cursor.state {
        CursorState::Holding(MaybeTrackerNode::PlacedPreNode(pre)) => b == (GraphEditor {
            cursor: Cursor {
                state: CursorState::Holding(MaybeTrackerNode::PlacedPreNode(pre_nudged(pre, dir))),
                ..a.cursor
            },
            ..a
        }),
        _ => b == a,
    }
}

/// How a confirm press transforms an editor filling fields: the current
/// field is marked complete (a conditional's goto takes the display point);
/// once every field is complete the node is committed into the cell under
/// the edit point -- only if that cell is empty; an occupied cell keeps its
/// node and the pre-node is discarded -- and the cursor returns to idle with
/// the display point pinned back. Any other state is untouched.
pub open spec fn set_tracker_node_args_rel(a: GraphEditor, b: GraphEditor) -> bool {
    match a.cursor.state {
        CursorState::Holding(MaybeTrackerNode::PlacedPreNode(pre)) => {
            let pre2 = pre_confirmed(pre, a.cursor.display);
            if pre2.should_set_spec() {
                &&& b.cursor == (Cursor {
                    state: CursorState::Idle,
                    display: a.cursor.pos,
                    ..a.cursor
                })
                &&& b.window == window_at(a.cursor.pos)
                &&& b.last_move == a.last_move
                &&& if a.graph.cell(a.cursor.pos) is None {
                    &&& b.graph.cell(a.cursor.pos) == Some(node_from_pre_spec(pre2))
                    &&& forall|q: Point|
                        q.in_bounds() && crate::graph::cell_index(q) != crate::graph::cell_index(
                            a.cursor.pos,
                        ) ==> b.graph.cell(q) == a.graph.cell(q)
                } else {
                    b.graph == a.graph
                }
            } else {
                b == (GraphEditor {
                    cursor: Cursor {
                        state: CursorState::Holding(MaybeTrackerNode::PlacedPreNode(pre2)),
                        ..a.cursor
                    },
                    ..a
                })
            }
        },
        _ => b == a,
    }
}

/// How a cancel press transforms an editor filling fields: the pre-node is
/// discarded, the cursor returns to idle and the display point is pinned
/// back onto the edit point. Any other state is untouched.
pub open spec fn escape_tracker_node_args_set_rel(a: GraphEditor, b: GraphEditor) -> bool {
    match a.cursor.state {
        CursorState::Holding(MaybeTrackerNode::PlacedPreNode(_)) => b == (GraphEditor {
            cursor: Cursor { state: CursorState::Idle, display: a.cursor.pos, ..a.cursor },
            window: window_at(a.cursor.pos),
            ..a
        }),
        _ => b == a,
    }
}

/// How a held directional press transforms the editor: nothing while
/// ordinary fields are being filled; a rate-limited display-only move while
/// a goto target is selected; a rate-limited cursor move otherwise.
pub open spec fn move_cursor_rel(a: GraphEditor, b: GraphEditor, dir: Direction, now_ms: u64) -> bool {
    let placed = a.cursor.state matches CursorState::Holding(MaybeTrackerNode::PlacedPreNode(_));
    let goto_mode = a.selecting_goto_spec();
    if placed && !goto_mode {
        b == a
    } else if move_accepted(a.last_move, dir, now_ms) {
        b == (GraphEditor {
            last_move: LastMove { dir: Some(dir), at_ms: now_ms },
            ..a.moved(dir, !goto_mode)
        })
    } else {
        b == a
    }
}

impl GraphEditor {
    /// While choosing a node kind, cycle it circularly through the ordered
    /// list Pattern, Conditional, Teleport; in any other state this does
    /// nothing.
    pub fn pick_tracker_node(&mut self, next: bool)
        requires
            old(self).wf(),
        ensures
            final(self).wf(),
            pick_tracker_node_rel(*old(self), *final(self), next),
    {
        match self.cursor.state {
            CursorState::Holding(MaybeTrackerNode::PreNode(t)) => {
                let t2 = if next {
                    match t {
                        TrackerNodeType::Pattern => TrackerNodeType::Conditional,
                        TrackerNodeType::Conditional => TrackerNodeType::Teleport,
                        TrackerNodeType::Teleport => TrackerNodeType::Pattern,
                    }
                } else {
                    match t {
                        TrackerNodeType::Pattern => TrackerNodeType::Teleport,
                        TrackerNodeType::Conditional => TrackerNodeType::Pattern,
                        TrackerNodeType::Teleport => TrackerNodeType::Conditional,
                    }
                };
                self.cursor.state = CursorState::Holding(MaybeTrackerNode::PreNode(t2));
            },
            _ => {},
        }
    }

    /// Confirm with an idle cursor over an empty cell: begin authoring, with
    /// Pattern as the default starting kind. Confirm while holding a concrete
    /// node: place it into the cell, but only if that cell is empty -- an
    /// occupied cell is never overwritten. Any other state is untouched.
    pub fn add_tracker_node(&mut self)
        requires
            old(self).wf(),
        ensures
            final(self).wf(),
            add_tracker_node_rel(*old(self), *final(self)),
    {
        match self.cursor.state {
            CursorState::Idle => {
                if self.graph.get(self.cursor.pos).is_none() {
                    self.cursor.state = CursorState::Holding(
                        MaybeTrackerNode::PreNode(TrackerNodeType::Pattern),
                    );
                }
            },
            CursorState::Holding(MaybeTrackerNode::ConcreteNode(node)) => {
                if self.graph.get(self.cursor.pos).is_none() {
                    self.graph.set(self.cursor.pos, Some(node));
                    self.cursor.state = CursorState::Idle;
                }
            },
            _ => {},
        }
    }

    /// Confirm while choosing a node kind: start filling that kind's fields,
    /// all completion flags cleared. Any other state is untouched.
    pub fn place_tracker_node(&mut self)
        requires
            old(self).wf(),
        ensures
            final(self).wf(),
            place_tracker_node_rel(*old(self), *final(self)),
    {
        match self.cursor.state {
            CursorState::Holding(MaybeTrackerNode::PreNode(t)) => {
                self.cursor.state = CursorState::Holding(
                    MaybeTrackerNode::PlacedPreNode(PlacedPreNode::default_for(t)),
                );
            },
            _ => {},
        }
    }

    /// A directional press released while filling fields: nudge the field
    /// currently being filled. In any other state (including goto selection,
    /// where directions move the display cursor instead) this does nothing.
    pub fn nudge_field(&mut self, dir: Direction)
        requires
            old(self).wf(),
        ensures
            final(self).wf(),
            nudge_field_rel(*old(self), *final(self), dir),
    {
        match self.cursor.state {
            CursorState::Holding(MaybeTrackerNode::PlacedPreNode(pre)) => {
                self.cursor.state = CursorState::Holding(
                    MaybeTrackerNode::PlacedPreNode(nudge_pre(pre, dir)),
                );
            },
            _ => {},
        }
    }

    /// Confirm while filling fields: mark the field currently being filled
    /// complete (a conditional's goto takes the display cursor's point).
    /// Once every required field is complete, convert the pre-node into a
    /// concrete node and write it into the graph at the cursor's edit point
    /// -- only if that cell is currently empty; an occupied cell is never
    /// overwritten and the pre-node is discarded. Either way the cursor
    /// returns to idle and the display point is pinned back onto the edit
    /// point. Any other state is untouched.
    pub fn set_tracker_node_args(&mut self)
        requires
            old(self).wf(),
        ensures
            final(self).wf(),
            set_tracker_node_args_rel(*old(self), *final(self)),
    {
        match self.cursor.state {
            CursorState::Holding(MaybeTrackerNode::PlacedPreNode(pre)) => {
                let pre2 = confirm_pre(pre, self.cursor.display);
                if pre2.should_set() {
                    if self.graph.get(self.cursor.pos).is_none() {
                        let node = node_from_pre(pre2);
                        self.graph.set(self.cursor.pos, Some(node));
                    }
                    self.cursor.state = CursorState::Idle;
                    self.reset_display_cursor();
                } else {
                    self.cursor.state = CursorState::Holding(
                        MaybeTrackerNode::PlacedPreNode(pre2),
                    );
                }
            },
            _ => {},
        }
    }

    /// Cancel while filling fields: discard the pre-node, return to idle and
    /// pin the display point back onto the edit point. Any other state is
    /// untouched.
    pub fn escape_tracker_node_args_set(&mut self)
        requires
            old(self).wf(),
        ensures
            final(self).wf(),
            escape_tracker_node_args_set_rel(*old(self), *final(self)),
    {
        match self.cursor.state {
            CursorState::Holding(MaybeTrackerNode::PlacedPreNode(_)) => {
                self.cursor.state = CursorState::Idle;
                self.reset_display_cursor();
            },
            _ => {},
        }
    }

    /// A directional press held this tick. While a pre-node's ordinary
    /// fields are being filled nothing moves (released presses nudge fields
    /// instead); while a conditional waits for its goto target the display
    /// cursor moves with the edit point pinned; otherwise the cursor moves.
    /// Movement is rate-limited: a repeat in the same direction is accepted
    /// only after the cooldown, a direction change at once.
    pub fn move_cursor(&mut self, dir: Direction, now_ms: u64)
        requires
            old(self).wf(),
            now_ms >= old(self).last_move.at_ms,
        ensures
            final(self).wf(),
            final(self).last_move.at_ms <= now_ms,
            move_cursor_rel(*old(self), *final(self), dir, now_ms),
    {
        let placed = self.node_placed();
        let goto_mode = self.selecting_goto();
        if placed && !goto_mode {
            return ;
        }
        let accepted = match self.last_move.dir {
            Some(d) => d != dir || now_ms - self.last_move.at_ms > MOVE_COOLDOWN_MS,
            None => true,
        };
        if !accepted {
            return ;
        }
        self.last_move = LastMove { dir: Some(dir), at_ms: now_ms };
        let move_pos = !goto_mode;
        match dir {
            Direction::Up => self.move_up(move_pos),
            Direction::Down => self.move_down(move_pos),
            Direction::Left => self.move_left(move_pos),
            Direction::Right => self.move_right(move_pos),
        }
    }
}


/// Movement never produces an out-of-range point: from a well-formed editor,
/// any movement step leaves both cursor points inside the graph, so graph
/// access through the cursor is always in bounds.
pub proof fn lemma_movement_clamped(e: GraphEditor, dir: Direction, move_pos: bool)
    requires
        e.wf(),
    ensures
        e.moved(dir, move_pos).wf(),
        e.moved(dir, move_pos).cursor.pos.in_bounds(),
        e.moved(dir, move_pos).cursor.display.in_bounds(),
{
}

} // verus!
