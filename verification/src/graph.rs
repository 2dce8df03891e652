//! The arrangement graph: a fixed-size 2D table of optional tracker nodes,
//! indexed by `Point`, with stateful conditional branch evaluation.

use vstd::prelude::*;

use crate::{PatternIndex, GRAPH_X, GRAPH_Y};

verus! {

/// An unsigned grid coordinate into the arrangement graph.
#[derive(Clone, Copy, Debug, PartialEq, Eq, Structural)]
pub struct Point {
    pub x: usize,
    pub y: usize,
}

impl Point {
    /// True when the point addresses a cell of the graph.
    pub open spec fn in_bounds(self) -> bool {
        self.x < GRAPH_X && self.y < GRAPH_Y
    }
}

/// Cyclic stepping over a value: one logical step at a time, or a "big" step
/// of `big_n_spec()` repetitions of the small step.
pub trait Incrementable: Sized + Copy {
    /// The value one small step up.
    spec fn inc_spec(self) -> Self;

    /// The value one small step down.
    spec fn dec_spec(self) -> Self;

    /// How many small steps a big step takes.
    spec fn big_n_spec() -> nat;

    fn get_big_n(&self) -> (n: usize)
        ensures
            n as nat == Self::big_n_spec(),
    ;

    fn small_inc(&mut self)
        ensures
            *final(self) == old(self).inc_spec(),
    ;

    fn small_dec(&mut self)
        ensures
            *final(self) == old(self).dec_spec(),
    ;
}

/// A big step up: exactly `big_n_spec()` applications of the small step.
pub fn big_inc<T: Incrementable>(x: &mut T)
    ensures
        *final(x) == inc_n(*old(x), T::big_n_spec()),
{
    let ghost orig = *x;
    let n = x.get_big_n();
    let mut i: usize = 0;
    while i < n
        invariant
            i <= n,
            n as nat == T::big_n_spec(),
            *x == inc_n(orig, i as nat),
        decreases n - i,
    {
        x.small_inc();
        i = i + 1;
    }
}

/// A big step down: exactly `big_n_spec()` applications of the small step.
pub fn big_dec<T: Incrementable>(x: &mut T)
    ensures
        *final(x) == dec_n(*old(x), T::big_n_spec()),
{
    let ghost orig = *x;
    let n = x.get_big_n();
    let mut i: usize = 0;
    while i < n
        invariant
            i <= n,
            n as nat == T::big_n_spec(),
            *x == dec_n(orig, i as nat),
        decreases n - i,
    {
        x.small_dec();
        i = i + 1;
    }
}

/// `n` applications of the small upward step.
pub open spec fn inc_n<T: Incrementable>(x: T, n: nat) -> T
    decreases n,
{
    if n == 0 {
        x
    } else {
        inc_n(x, (n - 1) as nat).inc_spec()
    }
}

/// `n` applications of the small downward step.
pub open spec fn dec_n<T: Incrementable>(x: T, n: nat) -> T
    decreases n,
{
    if n == 0 {
        x
    } else {
        dec_n(x, (n - 1) as nat).dec_spec()
    }
}

/// Which counter of a conditional's statistics is compared against `n`.
#[derive(Clone, Copy, Debug, PartialEq, Eq, Structural)]
pub enum NodeVar {
    SeenSinceStart,
    NTrues,
    NFalses,
}

impl Incrementable for NodeVar {
    open spec fn inc_spec(self) -> NodeVar {
        match self {
            NodeVar::SeenSinceStart => NodeVar::NTrues,
            NodeVar::NTrues => NodeVar::NFalses,
            NodeVar::NFalses => NodeVar::SeenSinceStart,
        }
    }

    open spec fn dec_spec(self) -> NodeVar {
        match self {
            NodeVar::SeenSinceStart => NodeVar::NFalses,
            NodeVar::NTrues => NodeVar::SeenSinceStart,
            NodeVar::NFalses => NodeVar::NTrues,
        }
    }

    open spec fn big_n_spec() -> nat {
        16
    }

    fn get_big_n(&self) -> usize {
        16
    }

    fn small_inc(&mut self) {
        *self = match *self {
            NodeVar::SeenSinceStart => NodeVar::NTrues,
            NodeVar::NTrues => NodeVar::NFalses,
            NodeVar::NFalses => NodeVar::SeenSinceStart,
        };
    }

    fn small_dec(&mut self) {
        *self = match *self {
            NodeVar::SeenSinceStart => NodeVar::NFalses,
            NodeVar::NTrues => NodeVar::SeenSinceStart,
            NodeVar::NFalses => NodeVar::NTrues,
        };
    }
}

/// The comparison a conditional node applies to the selected counter.
#[derive(Clone, Copy, Debug, PartialEq, Eq, Structural)]
pub enum Operation {
    Mod,
    Lt,
    Gt,
    IntDiv,
}

impl Incrementable for Operation {
    open spec fn inc_spec(self) -> Operation {
        match self {
            Operation::Mod => Operation::Lt,
            Operation::Lt => Operation::Gt,
            Operation::Gt => Operation::IntDiv,
            Operation::IntDiv => Operation::Mod,
        }
    }

    open spec fn dec_spec(self) -> Operation {
        match self {
            Operation::Mod => Operation::IntDiv,
            Operation::Lt => Operation::Mod,
            Operation::Gt => Operation::Lt,
            Operation::IntDiv => Operation::Gt,
        }
    }

    open spec fn big_n_spec() -> nat {
        16
    }

    fn get_big_n(&self) -> usize {
        16
    }

    fn small_inc(&mut self) {
        *self = match *self {
            Operation::Mod => Operation::Lt,
            Operation::Lt => Operation::Gt,
            Operation::Gt => Operation::IntDiv,
            Operation::IntDiv => Operation::Mod,
        };
    }

    fn small_dec(&mut self) {
        *self = match *self {
            Operation::Mod => Operation::IntDiv,
            Operation::Lt => Operation::Mod,
            Operation::Gt => Operation::Lt,
            Operation::IntDiv => Operation::Gt,
        };
    }
}

/// One small step up and then one small step down (or the reverse) returns
/// every `Operation` to where it started.
pub proof fn lemma_operation_round_trip(op: Operation)
    ensures
        op.inc_spec().dec_spec() == op,
        op.dec_spec().inc_spec() == op,
{
}

/// One small step up and then one small step down (or the reverse) returns
/// every `NodeVar` to where it started.
pub proof fn lemma_node_var_round_trip(var: NodeVar)
    ensures
        var.inc_spec().dec_spec() == var,
        var.dec_spec().inc_spec() == var,
{
}

/// A big step over operations and node variables takes sixteen small steps,
/// so `big_inc` on either equals sixteen applications of `small_inc`.
pub proof fn lemma_big_step_is_sixteen()
    ensures
        <Operation as Incrementable>::big_n_spec() == 16,
        <NodeVar as Incrementable>::big_n_spec() == 16,
{
}

/// The counters a conditional node keeps about its own past evaluations.
#[derive(Clone, Copy, Debug, PartialEq, Eq, Structural)]
pub struct CondStats {
    pub seen: usize,
    pub trues: usize,
    pub falses: usize,
}

impl CondStats {
    /// Fresh statistics: nothing evaluated yet.
    pub fn new() -> (r: CondStats)
        ensures
            r == (CondStats { seen: 0, trues: 0, falses: 0 }),
    {
        CondStats { seen: 0, trues: 0, falses: 0 }
    }

    /// The counter selected by `var`.
    pub open spec fn stat(self, var: NodeVar) -> usize {
        match var {
            NodeVar::SeenSinceStart => self.seen,
            NodeVar::NTrues => self.trues,
            NodeVar::NFalses => self.falses,
        }
    }

    /// The counter selected by `var`.
    pub fn get(&self, var: NodeVar) -> (r: usize)
        ensures
            r == self.stat(var),
    {
        match var {
            NodeVar::SeenSinceStart => self.seen,
            NodeVar::NTrues => self.trues,
            NodeVar::NFalses => self.falses,
        }
    }
}

/// A conditional branch: compares the counter selected by `var` against `n`
/// using `op`; when the comparison is false, control jumps to `goto`.
#[derive(Clone, Copy, Debug, PartialEq, Eq, Structural)]
pub struct Conditional {
    pub op: Operation,
    pub var: NodeVar,
    pub stats: CondStats,
    pub n: usize,
    pub goto: Point,
}

impl Conditional {
    /// A conditional with fresh (all-zero) statistics.
    pub fn new(op: Operation, var: NodeVar, n: usize, goto: Point) -> (r: Conditional)
        ensures
            r == (Conditional { op, var, stats: CondStats { seen: 0, trues: 0, falses: 0 }, n, goto }),
    {
        Conditional { op, var, stats: CondStats { seen: 0, trues: 0, falses: 0 }, n, goto }
    }

    /// What this conditional evaluates to right now, before any counter moves.
    pub open spec fn eval_spec(self) -> bool {
        let v = self.stats.stat(self.var);
        match self.op {
            Operation::Gt => v > self.n,
            Operation::Lt => v < self.n,
            Operation::Mod => v as int % self.n as int > 0,
            Operation::IntDiv => v as int / self.n as int > 0,
        }
    }

    /// Evaluating a conditional is defined only when `Mod` and `IntDiv` have a
    /// non-zero divisor and no counter is saturated.
    pub open spec fn can_eval(self) -> bool {
        &&& (self.op is Mod || self.op is IntDiv) ==> self.n > 0
        &&& self.stats.seen < usize::MAX
        &&& self.stats.trues < usize::MAX
        &&& self.stats.falses < usize::MAX
    }

    /// The conditional after one evaluation: `seen` is up by one and exactly
    /// one of `trues` / `falses` is up by one, depending on the outcome.
    pub open spec fn after_eval(self) -> Conditional {
        Conditional {
            stats: CondStats {
                seen: (self.stats.seen + 1) as usize,
                trues: if self.eval_spec() {
                    (self.stats.trues + 1) as usize
                } else {
                    self.stats.trues
                },
                falses: if self.eval_spec() {
                    self.stats.falses
                } else {
                    (self.stats.falses + 1) as usize
                },
            },
            ..self
        }
    }

    /// Evaluate the conditional and record the outcome: `seen` always goes up
    /// by one, and exactly one of `trues` / `falses` goes up by one.
    pub fn is_true(&mut self) -> (res: bool)
        requires
            old(self).can_eval(),
        ensures
            res == old(self).eval_spec(),
            *final(self) == old(self).after_eval(),
    {
        let v = self.stats.get(self.var);

        let res = match self.op {
            Operation::Gt => v > self.n,
            Operation::Lt => v < self.n,
            Operation::Mod => v % self.n > 0,
            Operation::IntDiv => v / self.n > 0,
        };

        if res {
            self.stats.trues = self.stats.trues + 1;
        } else {
            self.stats.falses = self.stats.falses + 1;
        }

        self.stats.seen = self.stats.seen + 1;

        res
    }
}

/// What a node does when playback reaches it.
#[derive(Clone, Copy, Debug, PartialEq, Eq, Structural)]
pub enum TrackerNodeData {
    Pattern(PatternIndex),
    Conditional(Conditional),
    Teleport(Point),
}

/// The kind of a node, used while choosing what to author.
#[derive(Clone, Copy, Debug, PartialEq, Eq, Structural)]
pub enum TrackerNodeType {
    Pattern,
    Conditional,
    Teleport,
}

/// A unit of the arrangement graph: its payload plus the point linearly
/// reached after it, unless overridden by branch logic.
#[derive(Clone, Copy, Debug, PartialEq, Eq, Structural)]
pub struct TrackerNode {
    pub node_dat: TrackerNodeData,
    pub next: Option<Point>,
}

impl TrackerNode {
    /// True when `get_next` may be called on this node.
    pub open spec fn can_step(self) -> bool {
        self.node_dat matches TrackerNodeData::Conditional(c) ==> c.can_eval()
    }

    /// The node after one `get_next`: only a conditional payload changes, by
    /// one evaluation of its statistics.
    pub open spec fn after_step(self) -> TrackerNode {
        match self.node_dat {
            TrackerNodeData::Conditional(c) => TrackerNode {
                node_dat: TrackerNodeData::Conditional(c.after_eval()),
                ..self
            },
            _ => self,
        }
    }

    /// Where playback goes after this node: the branch target `goto` exactly
    /// when the node is conditional and its evaluation is false this call;
    /// otherwise the stored `next`.
    pub open spec fn next_of(self) -> Option<Point> {
        match self.node_dat {
            TrackerNodeData::Conditional(c) => if !c.eval_spec() {
                Some(c.goto)
            } else {
                self.next
            },
            _ => self.next,
        }
    }

    /// Advance past this node, evaluating and recording a conditional's
    /// outcome. Returns `goto` iff the node is conditional and the evaluation
    /// is false this call; otherwise returns the stored `next`.
    pub fn get_next(&mut self) -> (r: Option<Point>)
        requires
            old(self).can_step(),
        ensures
            r == old(self).next_of(),
            *final(self) == old(self).after_step(),
    {
        if let TrackerNodeData::Conditional(ref mut cond) = self.node_dat {
            if !cond.is_true() {
                return Some(cond.goto);
            }
        }
        self.next
    }

    /// Set the node's linear successor. This performs no validation: chaining
    /// to an out-of-range or nonexistent point is the caller's responsibility.
    pub fn connect_to(&mut self, next: Option<Point>)
        ensures
            *final(self) == (TrackerNode { next, ..*old(self) }),
    {
        self.next = next;
    }
}

/// The arrangement graph: a `GRAPH_X` x `GRAPH_Y` table of optional nodes,
/// stored as one flat row-major arena.
#[derive(Debug)]
pub struct Graph {
    pub cells: Vec<Option<TrackerNode>>,
}

/// The arena index of an in-bounds point.
pub open spec fn cell_index(p: Point) -> int {
    p.x * GRAPH_Y + p.y
}

impl Graph {
    /// A graph holds exactly one cell per point.
    pub open spec fn wf(self) -> bool {
        self.cells@.len() == GRAPH_X * GRAPH_Y
    }

    /// The cell at an in-bounds point.
    pub open spec fn cell(self, p: Point) -> Option<TrackerNode> {
        self.cells@[cell_index(p)]
    }

    /// An all-empty graph.
    pub fn new() -> (r: Graph)
        ensures
            r.wf(),
            forall|p: Point| p.in_bounds() ==> r.cell(p) is None,
    {
        let mut cells: Vec<Option<TrackerNode>> = Vec::new();
        let mut i: usize = 0;
        while i < GRAPH_X * GRAPH_Y
            invariant
                i <= GRAPH_X * GRAPH_Y,
                cells@.len() == i,
                forall|k: int| 0 <= k < i ==> cells@[k] is None,
            decreases GRAPH_X * GRAPH_Y - i,
        {
            cells.push(None);
            i = i + 1;
        }
        let r = Graph { cells };
        proof {
            assert forall|p: Point| p.in_bounds() implies r.cell(p) is None by {
                assert(cell_index(p) < 256 * 256) by {
                    assert(p.x * 256 <= 255 * 256);
                }
            }
        }
        r
    }

    /// Read the cell at `p`.
    pub fn get(&self, p: Point) -> (r: Option<TrackerNode>)
        requires
            self.wf(),
            p.in_bounds(),
        ensures
            r == self.cell(p),
    {
        proof {
            assert(p.x * 256 + p.y < 256 * 256) by {
                assert(p.x * 256 <= 255 * 256);
            }
        }
        self.cells[p.x * GRAPH_Y + p.y]
    }

    /// Overwrite the cell at `p`, leaving every other cell as it was.
    pub fn set(&mut self, p: Point, node: Option<TrackerNode>)
        requires
            old(self).wf(),
            p.in_bounds(),
        ensures
            final(self).wf(),
            final(self).cell(p) == node,
            forall|q: Point|
                q.in_bounds() && cell_index(q) != cell_index(p) ==> final(self).cell(q) == old(
                    self,
                ).cell(q),
    {
        proof {
            assert(p.x * 256 + p.y < 256 * 256) by {
                assert(p.x * 256 <= 255 * 256);
            }
        }
        let i = p.x * GRAPH_Y + p.y;
        self.cells.set(i, node);
    }
}

} // verus!
