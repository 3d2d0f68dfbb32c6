use lumina::langgraph::constants::{END, START};
use lumina::langgraph::error::{GraphError, Interrupt, ResumeCommand};
use lumina::langgraph::executor::{Awaiting, Checkpoint, Event, ExecutionResult, Outcome};
use lumina::langgraph::graph::{Branch, CompiledGraph, Hop, StateGraph};
use lumina::langgraph::trace::ExecutionTrace;

#[derive(Clone, Debug, PartialEq)]
struct State {
    log: Vec<String>,
    next: Option<String>,
}

fn state() -> State {
    State { log: Vec::new(), next: None }
}

fn s(x: &str) -> String {
    x.to_string()
}

/// Runs a pending outcome to its end, executing nodes and branches with the
/// given closures. Counts node executions.
fn drive(
    g: &CompiledGraph,
    mut out: Outcome,
    mut st: State,
    node: &mut dyn FnMut(&str, State) -> Result<State, GraphError>,
    branch: &dyn Fn(&str, &State) -> Result<String, GraphError>,
    executions: &mut usize,
) -> Result<ExecutionResult<State>, GraphError> {
    loop {
        match out {
            Outcome::Complete => return Ok(ExecutionResult::Complete(st)),
            Outcome::Failed(e) => return Err(e),
            Outcome::Suspended(sus) => return Ok(ExecutionResult::suspended(st, sus)),
            Outcome::Pending(run) => {
                let event = match &run.awaiting {
                    Awaiting::Node => {
                        *executions += 1;
                        match node(&run.node, st.clone()) {
                            Ok(ns) => {
                                st = ns;
                                Event::Executed { result: Ok(()), next: st.next.clone() }
                            }
                            Err(e) => Event::Executed { result: Err(e), next: st.next.clone() },
                        }
                    }
                    Awaiting::Branch(b) => Event::Evaluated(branch(b, &st)),
                };
                out = g.step(run, event);
            }
        }
    }
}

fn no_branch(_: &str, _: &State) -> Result<String, GraphError> {
    Err(GraphError::ExecutionError { node: s("?"), message: s("no branch expected") })
}

fn invoke(
    g: &CompiledGraph,
    st: State,
    node: &mut dyn FnMut(&str, State) -> Result<State, GraphError>,
    executions: &mut usize,
) -> Result<State, GraphError> {
    let out = g.start(st.next.clone(), false);
    match drive(g, out, st, node, &no_branch, executions)? {
        ExecutionResult::Complete(st) => Ok(st),
        ExecutionResult::Interrupted { .. } => panic!("a plain run never pauses"),
    }
}

fn chain(names: &[&str]) -> StateGraph {
    let mut g = StateGraph::new();
    for n in names {
        assert!(g.add_node(s(n)));
    }
    g.add_edge(s(START), s(names[0]));
    for w in names.windows(2) {
        g.add_edge(s(w[0]), s(w[1]));
    }
    g.add_edge(s(names[names.len() - 1]), s(END));
    g
}

#[test]
fn two_nodes_append_in_order() {
    let g = chain(&["start_task", "finish"]).compile();
    let mut execs = 0;
    let mut node = |name: &str, mut st: State| {
        match name {
            "start_task" => st.log.push(s("A")),
            "finish" => st.log.push(s("B")),
            _ => panic!("unexpected node"),
        }
        Ok(st)
    };
    let out = invoke(&g, state(), &mut node, &mut execs).unwrap();
    assert_eq!(out.log, vec![s("A"), s("B")]);
    assert_eq!(execs, 2);
}

#[test]
fn self_loop_fails_on_fourth_iteration() {
    let mut b = StateGraph::new();
    b.add_node(s("spin"));
    b.add_edge(s(START), s("spin"));
    let g = b.compile().with_max_iterations(3);
    let mut execs = 0;
    let mut node = |_: &str, mut st: State| {
        st.next = Some(s("spin"));
        Ok(st)
    };
    let r = invoke(&g, state(), &mut node, &mut execs);
    assert!(matches!(r, Err(GraphError::MaxIterationsExceeded)));
    assert_eq!(execs, 3);
}

#[test]
fn run_of_exactly_the_bound_completes() {
    let g = chain(&["a", "b", "c"]).compile().with_max_iterations(3);
    let mut execs = 0;
    let mut node = |n: &str, mut st: State| {
        st.log.push(n.to_string());
        Ok(st)
    };
    let out = invoke(&g, state(), &mut node, &mut execs).unwrap();
    assert_eq!(out.log.len(), 3);
    assert_eq!(execs, 3);
}

#[test]
fn cycle_through_branch_stays_bounded() {
    let mut b = StateGraph::new();
    b.add_node(s("x"));
    b.add_edge(s(START), s("x"));
    b.add_conditional_edge(s("x"), s("again"));
    b.add_branch(s("again"), Branch { path_map: None });
    let g = b.compile().with_max_iterations(5);
    let mut execs = 0;
    let mut node = |_: &str, st: State| Ok(st);
    let branch = |_: &str, _: &State| Ok(s("x"));
    let out = g.start(None, false);
    let r = drive(&g, out, state(), &mut node, &branch, &mut execs);
    assert!(matches!(r, Err(GraphError::MaxIterationsExceeded)));
    assert_eq!(execs, 5);
}

#[test]
fn checkpoint_round_trip() {
    let g = chain(&["A", "B"]).compile();
    let mut calls = 0;
    let mut node = |n: &str, mut st: State| {
        if n == "A" {
            calls += 1;
            if calls == 1 {
                return Err(GraphError::Interrupted(vec![Interrupt::new(
                    s("q1"),
                    serde_json::Value::String(s("approve?")),
                )]));
            }
        }
        st.log.push(n.to_string());
        Ok(st)
    };
    let mut execs = 0;
    let out = g.start(None, true);
    let first = drive(&g, out, state(), &mut node, &no_branch, &mut execs).unwrap();
    let (cp, interrupts): (Checkpoint<State>, Vec<Interrupt>) = match first {
        ExecutionResult::Interrupted { checkpoint, interrupts } => (checkpoint, interrupts),
        ExecutionResult::Complete(_) => panic!("expected a pause"),
    };
    assert_eq!(cp.next_node, "A");
    assert_eq!(cp.pending_interrupts.len(), 1);
    assert_eq!(interrupts.len(), 1);
    assert_eq!(interrupts[0].id, "q1");
    assert_eq!(cp.iterations, 1);
    assert!(cp.state.log.is_empty());
    let paused_at = cp.iterations;
    let cmd = ResumeCommand { interrupt_id: Some(s("q1")), value: serde_json::Value::Bool(true) };
    let (st, out) = g.resume(cp, cmd, None);
    match &out {
        Outcome::Pending(run) => {
            assert!(run.iterations >= paused_at);
            assert_eq!(run.resume_values.len(), 1);
            assert_eq!(run.resume_values[0].0, "q1");
            assert_eq!(run.resume_values[0].1, serde_json::Value::Bool(true));
            assert_eq!(run.answer("q1"), Some(&serde_json::Value::Bool(true)));
            assert_eq!(run.answer("q2"), None);
        }
        _ => panic!("expected the run to go on"),
    }
    let done = drive(&g, out, st, &mut node, &no_branch, &mut execs).unwrap();
    match done {
        ExecutionResult::Complete(st) => assert_eq!(st.log, vec![s("A"), s("B")]),
        _ => panic!("expected completion"),
    }
}

#[test]
fn resume_without_id_answers_first_pending() {
    let g = chain(&["A"]).compile();
    let cp = Checkpoint {
        state: state(),
        next_node: s("A"),
        pending_interrupts: vec![
            Interrupt::new(s("first"), serde_json::Value::Null),
            Interrupt::new(s("second"), serde_json::Value::Null),
        ],
        iterations: 4,
        resume_values: vec![(s("old"), serde_json::Value::Null)],
    };
    let cmd = ResumeCommand { interrupt_id: None, value: serde_json::Value::from(7) };
    let (_, out) = g.resume(cp, cmd, None);
    match out {
        Outcome::Pending(run) => {
            assert_eq!(run.iterations, 5);
            assert_eq!(run.resume_values.len(), 2);
            assert_eq!(run.resume_values[0].0, "first");
            assert_eq!(run.resume_values[1].0, "old");
        }
        _ => panic!("expected the run to go on"),
    }
}

#[test]
fn answer_keyed_by_node_lets_interrupt_pass() {
    let g = chain(&["ask", "after"]).compile();
    let cp = Checkpoint {
        state: state(),
        next_node: s("ask"),
        pending_interrupts: vec![],
        iterations: 0,
        resume_values: vec![],
    };
    let cmd = ResumeCommand { interrupt_id: Some(s("ask")), value: serde_json::Value::Null };
    let (st, out) = g.resume(cp, cmd, None);
    let mut execs = 0;
    let mut node = |n: &str, mut st: State| {
        if n == "ask" {
            return Err(GraphError::Interrupted(vec![Interrupt::new(s("q"), serde_json::Value::Null)]));
        }
        st.log.push(n.to_string());
        Ok(st)
    };
    let r = drive(&g, out, st, &mut node, &no_branch, &mut execs).unwrap();
    match r {
        ExecutionResult::Complete(st) => assert_eq!(st.log, vec![s("after")]),
        _ => panic!("expected completion"),
    }
    assert_eq!(execs, 2);
}

#[test]
fn checkpoint_at_start_routes_from_start() {
    let g = chain(&["A", "B"]).compile();
    let cp = Checkpoint {
        state: state(),
        next_node: s(START),
        pending_interrupts: vec![],
        iterations: 2,
        resume_values: vec![],
    };
    let cmd = ResumeCommand { interrupt_id: None, value: serde_json::Value::Null };
    match g.resume(cp, cmd, Some(s("B"))).1 {
        Outcome::Pending(run) => {
            assert_eq!(run.node, "B");
            assert_eq!(run.iterations, 3);
            assert!(run.resume_values.is_empty());
        }
        _ => panic!("expected the run to go on"),
    }
}

#[test]
fn interrupt_is_an_error_in_a_plain_run() {
    let g = chain(&["A"]).compile();
    let mut execs = 0;
    let mut node = |_: &str, _: State| {
        Err(GraphError::Interrupted(vec![Interrupt::new(s("q"), serde_json::Value::Null)]))
    };
    let r = invoke(&g, state(), &mut node, &mut execs);
    match r {
        Err(GraphError::Interrupted(v)) => assert_eq!(v[0].id, "q"),
        _ => panic!("expected the interrupt as an error"),
    }
}

#[test]
fn node_failure_aborts() {
    let g = chain(&["A", "B"]).compile();
    let mut execs = 0;
    let mut node = |_: &str, _: State| {
        Err(GraphError::ExecutionError { node: s("A"), message: s("boom") })
    };
    let r = invoke(&g, state(), &mut node, &mut execs);
    assert!(matches!(r, Err(GraphError::ExecutionError { .. })));
    assert_eq!(execs, 1);
}

#[test]
fn explicit_next_overrides_edges() {
    let g = chain(&["A", "B", "X"]).compile();
    match g.get_next_node(&s("A"), Some(s("X"))) {
        Hop::Goto(t) => assert_eq!(t, "X"),
        other => panic!("unexpected {:?}", other),
    }
}

#[test]
fn routing_twice_gives_the_same_node() {
    let g = chain(&["A", "B"]).compile();
    for _ in 0..2 {
        match g.get_next_node(&s("A"), None) {
            Hop::Goto(t) => assert_eq!(t, "B"),
            other => panic!("unexpected {:?}", other),
        }
    }
}

#[test]
fn missing_branch_is_a_branch_error() {
    let mut b = StateGraph::new();
    b.add_node(s("A"));
    b.add_edge(s(START), s("A"));
    b.add_conditional_edge(s("A"), s("nowhere"));
    let g = b.compile();
    match g.get_next_node(&s("A"), None) {
        Hop::Fail(GraphError::BranchError { node, message }) => {
            assert_eq!(node, "A");
            assert_eq!(message, "Branch 'nowhere' not found");
        }
        other => panic!("unexpected {:?}", other),
    }
    let mut execs = 0;
    let mut node = |_: &str, st: State| Ok(st);
    let r = invoke(&g, state(), &mut node, &mut execs);
    assert!(matches!(r, Err(GraphError::BranchError { .. })));
    assert_eq!(execs, 1);
}

#[test]
fn node_without_edges_routes_to_end() {
    let mut b = StateGraph::new();
    b.add_node(s("A"));
    let g = b.compile();
    match g.get_next_node(&s("A"), None) {
        Hop::Goto(t) => assert_eq!(t, END),
        other => panic!("unexpected {:?}", other),
    }
    // nothing leaves START either: the run completes without executing anything
    let mut execs = 0;
    let mut node = |_: &str, st: State| Ok(st);
    assert_eq!(invoke(&g, state(), &mut node, &mut execs).unwrap(), state());
    assert_eq!(execs, 0);
}

#[test]
fn only_the_first_edge_counts() {
    let mut b = chain(&["A", "B", "C"]);
    b.add_edge(s("A"), s("C"));
    let g = b.compile();
    match g.get_next_node(&s("A"), None) {
        Hop::Goto(t) => assert_eq!(t, "B"),
        other => panic!("unexpected {:?}", other),
    }
}

#[test]
fn branch_labels_resolve_through_path_map() {
    let mut b = StateGraph::new();
    b.add_node(s("A"));
    b.add_node(s("yes"));
    b.add_edge(s(START), s("A"));
    b.add_conditional_edge(s("A"), s("decide"));
    assert!(b.add_branch(
        s("decide"),
        Branch { path_map: Some(vec![(s("ok"), s("yes")), (s("stop"), s(END))]) }
    ));
    assert!(!b.add_branch(s("decide"), Branch { path_map: None }));
    let g = b.compile();
    match g.get_next_node(&s("A"), None) {
        Hop::Evaluate(name) => assert_eq!(name, "decide"),
        other => panic!("unexpected {:?}", other),
    }
    assert_eq!(g.resolve_branch(&s("A"), &s("decide"), &s("ok")).unwrap(), "yes");
    match g.resolve_branch(&s("A"), &s("decide"), &s("maybe")) {
        Err(GraphError::BranchError { node, message }) => {
            assert_eq!(node, "A");
            assert_eq!(message, "Branch 'decide' has no route for label 'maybe'");
        }
        other => panic!("unexpected {:?}", other),
    }
    let mut execs = 0;
    let mut node = |n: &str, mut st: State| {
        st.log.push(n.to_string());
        Ok(st)
    };
    let branch = |_: &str, st: &State| Ok(if st.log.len() == 1 { s("ok") } else { s("stop") });
    let out = g.start(None, false);
    let r = drive(&g, out, state(), &mut node, &branch, &mut execs).unwrap();
    match r {
        ExecutionResult::Complete(st) => assert_eq!(st.log, vec![s("A"), s("yes")]),
        _ => panic!("expected completion"),
    }
}

#[test]
fn routing_to_unknown_node_fails() {
    let mut b = StateGraph::new();
    b.add_node(s("A"));
    b.add_edge(s(START), s("A"));
    b.add_edge(s("A"), s("ghost"));
    let g = b.compile();
    let mut execs = 0;
    let mut node = |_: &str, st: State| Ok(st);
    match invoke(&g, state(), &mut node, &mut execs) {
        Err(GraphError::NodeNotFound(n)) => assert_eq!(n, "ghost"),
        other => panic!("unexpected {:?}", other),
    }
}

#[test]
fn builder_refuses_reserved_duplicate_and_empty_names() {
    let mut b = StateGraph::new();
    assert!(b.add_node(s("a")));
    assert!(!b.add_node(s("a")));
    assert!(!b.add_node(s(START)));
    assert!(!b.add_node(s(END)));
    assert!(!b.add_node(s("")));
    let g = b.compile().with_debug(true);
    assert!(g.has_node("a"));
    assert!(!g.has_node("b"));
    assert_eq!(g.get_nodes(), vec![s("a")]);
    assert!(g.config.debug);
    assert_eq!(g.config.max_iterations, 100);
}

#[test]
fn trace_records_steps() {
    let mut t = ExecutionTrace::new();
    t.add_step(s("a"), 5);
    t.add_step(s("b"), 7);
    assert_eq!(t.steps.len(), 2);
    assert_eq!(t.steps[1].node, "b");
    assert_eq!(t.steps[1].duration_ms, 7);
    assert!(t.steps[0].timestamp <= t.steps[1].timestamp);
}
