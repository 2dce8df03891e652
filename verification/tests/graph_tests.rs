use tracker_core::graph::{
    big_dec, big_inc, CondStats, Conditional, Graph, Incrementable, NodeVar, Operation, Point,
    TrackerNode, TrackerNodeData,
};

#[test]
fn simple_operation_incrementable() {
    let mut op = Operation::Mod;
    op.small_inc();

    assert_eq!(
        op,
        Operation::Lt,
        "operation started as '{:?}' and ended as {op:?}. ({:?} was expected)",
        Operation::Mod,
        Operation::Lt
    );
    op.small_dec();
    assert_eq!(
        op,
        Operation::Mod,
        "operation started as '{:?}' and ended as {op:?}. ({:?} was expected)",
        Operation::Lt,
        Operation::Mod
    );
}

#[test]
fn operation_incrementable() {
    let operations: Vec<Operation> =
        vec![Operation::Mod, Operation::Lt, Operation::Gt, Operation::IntDiv];

    for i in 0..operations.len() {
        let op_bak = operations[i].clone();
        let mut op = operations[i].clone();
        op.small_inc();
        let should_be = operations[(i + 1) % operations.len()].clone();

        assert_eq!(op, should_be, "[INCREMENT FAILED] operation started as '{op_bak:?}' and ended as {op:?}. ({should_be:?} was expected)");
        let op_sav = op.clone();
        op.small_dec();
        assert_eq!(op, op_bak, "[RETURN DECREMENT FAILED] operation started as '{op_sav:?}' and ended as {op:?}. ({:?} was expected)", operations[i].clone());

        let mut op = operations[i].clone();
        op.small_dec();
        let should_be = operations[if i > 0 { i - 1 } else { operations.len() - 1 }].clone();

        assert_eq!(op, should_be, "[DECREMENT FAILED] operation started as '{op_bak:?}' and ended as {op:?}. ({should_be:?} was expected)");
        let op_sav = op.clone();
        op.small_inc();
        assert_eq!(op, op_bak, "[RETURN INCREMENT FAILED] operation started as '{op_sav:?}' and ended as {op:?}. ({:?} was expected)", operations[i].clone());
    }
}

#[test]
fn node_var_incrementable_round_trip() {
    let vars: Vec<NodeVar> = vec![NodeVar::SeenSinceStart, NodeVar::NTrues, NodeVar::NFalses];

    for i in 0..vars.len() {
        let mut v = vars[i];
        v.small_inc();
        assert_eq!(v, vars[(i + 1) % vars.len()]);
        v.small_dec();
        assert_eq!(v, vars[i]);
    }
}

#[test]
fn big_inc_is_sixteen_small_incs() {
    // 16 steps around a 4-variant cycle land back on the start.
    let mut op = Operation::Lt;
    big_inc(&mut op);
    assert_eq!(op, Operation::Lt);
    big_dec(&mut op);
    assert_eq!(op, Operation::Lt);

    // 16 steps around a 3-variant cycle land one past the start.
    let mut var = NodeVar::SeenSinceStart;
    big_inc(&mut var);
    let mut expect = NodeVar::SeenSinceStart;
    for _ in 0..16 {
        expect.small_inc();
    }
    assert_eq!(var, expect);
    assert_eq!(var, NodeVar::NTrues);
}

#[test]
fn is_true_increments_seen_and_exactly_one_counter() {
    let goto = Point { x: 7, y: 7 };

    // 0 < 5 is true: trues goes up.
    let mut c = Conditional::new(Operation::Lt, NodeVar::SeenSinceStart, 5, goto);
    let res = c.is_true();
    assert!(res);
    assert_eq!(c.stats, CondStats { seen: 1, trues: 1, falses: 0 });

    // 0 > 0 is false: falses goes up.
    let mut c = Conditional::new(Operation::Gt, NodeVar::SeenSinceStart, 0, goto);
    let res = c.is_true();
    assert!(!res);
    assert_eq!(c.stats, CondStats { seen: 1, trues: 0, falses: 1 });

    // Repeated evaluation: seen always climbs, and trues + falses == seen.
    let mut c = Conditional::new(Operation::Lt, NodeVar::SeenSinceStart, 2, goto);
    for _ in 0..5 {
        c.is_true();
    }
    assert_eq!(c.stats.seen, 5);
    assert_eq!(c.stats.trues + c.stats.falses, c.stats.seen);
    // seen is 0, then 1 (< 2 twice true), after that false.
    assert_eq!(c.stats.trues, 2);
    assert_eq!(c.stats.falses, 3);
}

#[test]
fn mod_and_int_div_operations() {
    let goto = Point { x: 0, y: 0 };

    // seen % 2 > 0 with seen == 3.
    let mut c = Conditional {
        op: Operation::Mod,
        var: NodeVar::SeenSinceStart,
        stats: CondStats { seen: 3, trues: 0, falses: 0 },
        n: 2,
        goto,
    };
    assert!(c.is_true());

    // seen / 4 > 0 with seen == 3 is false.
    let mut c = Conditional {
        op: Operation::IntDiv,
        var: NodeVar::SeenSinceStart,
        stats: CondStats { seen: 3, trues: 0, falses: 0 },
        n: 4,
        goto,
    };
    assert!(!c.is_true());
}

#[test]
fn get_next_returns_goto_iff_evaluation_is_false() {
    let goto = Point { x: 9, y: 4 };
    let next = Some(Point { x: 1, y: 1 });

    // Evaluation true: the stored next is returned.
    let mut node = TrackerNode {
        node_dat: TrackerNodeData::Conditional(Conditional::new(
            Operation::Lt,
            NodeVar::SeenSinceStart,
            5,
            goto,
        )),
        next,
    };
    assert_eq!(node.get_next(), next);

    // Evaluation false: goto is returned.
    let mut node = TrackerNode {
        node_dat: TrackerNodeData::Conditional(Conditional::new(
            Operation::Gt,
            NodeVar::SeenSinceStart,
            0,
            goto,
        )),
        next,
    };
    assert_eq!(node.get_next(), Some(goto));

    // Non-conditional nodes are pass-through.
    let mut node = TrackerNode { node_dat: TrackerNodeData::Pattern(3), next };
    assert_eq!(node.get_next(), next);
    let mut node = TrackerNode {
        node_dat: TrackerNodeData::Teleport(Point { x: 2, y: 2 }),
        next: None,
    };
    assert_eq!(node.get_next(), None);
}

#[test]
fn get_next_updates_the_counters() {
    let goto = Point { x: 9, y: 4 };
    let mut node = TrackerNode {
        node_dat: TrackerNodeData::Conditional(Conditional::new(
            Operation::Lt,
            NodeVar::NTrues,
            1,
            goto,
        )),
        next: Some(Point { x: 1, y: 1 }),
    };
    // trues == 0 < 1: true, next returned, trues becomes 1.
    assert_eq!(node.get_next(), Some(Point { x: 1, y: 1 }));
    // trues == 1 < 1 is now false: goto returned.
    assert_eq!(node.get_next(), Some(goto));
    match node.node_dat {
        TrackerNodeData::Conditional(c) => {
            assert_eq!(c.stats, CondStats { seen: 2, trues: 1, falses: 1 });
        }
        _ => unreachable!(),
    }
}

#[test]
fn connect_to_sets_the_successor() {
    let mut node = TrackerNode { node_dat: TrackerNodeData::Pattern(0), next: None };
    node.connect_to(Some(Point { x: 3, y: 4 }));
    assert_eq!(node.next, Some(Point { x: 3, y: 4 }));
    node.connect_to(None);
    assert_eq!(node.next, None);
}

#[test]
fn graph_starts_empty_and_stores_nodes() {
    let mut g = Graph::new();
    let p = Point { x: 255, y: 255 };
    assert_eq!(g.get(p), None);
    assert_eq!(g.get(Point { x: 0, y: 0 }), None);

    let node = TrackerNode { node_dat: TrackerNodeData::Pattern(12), next: None };
    g.set(p, Some(node));
    assert_eq!(g.get(p), Some(node));
    // A neighbouring cell is untouched.
    assert_eq!(g.get(Point { x: 255, y: 254 }), None);
    assert_eq!(g.get(Point { x: 254, y: 255 }), None);
}
