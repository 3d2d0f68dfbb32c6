use vstd::prelude::*;
use crate::langgraph::constants::{end_name, end_string, start_name, start_string};
use crate::langgraph::error::{GraphError, Interrupt, ResumeCommand};
use crate::langgraph::graph::{CompiledGraph, Hop, hop_spec, opt_view, resolve_spec};
use crate::langgraph::table::{assoc, find_key, has_name};

verus! {

/// What a pending run waits for.
#[derive(Debug)]
pub enum Awaiting {
    /// The caller must execute `Run::node` on the current state.
    Node,
    /// The caller must evaluate the named branch on the current state.
    Branch(String),
}

/// A run between two steps of outside work.
#[derive(Debug)]
pub struct Run {
    /// The node to execute, or the node just executed when a branch is awaited.
    pub node: String,
    /// Node executions counted so far, the awaited one included.
    pub iterations: usize,
    /// Answers to interrupts, newest first.
    pub resume_values: Vec<(String, serde_json::Value)>,
    /// Whether an interrupt suspends the run (true) or fails it (false).
    pub resumable: bool,
    pub awaiting: Awaiting,
}

impl Run {
    /// The answer given for `key` (an interrupt id, or a node name), newest
    /// first; a node that resumes reads its earlier answer here.
    pub fn answer(&self, key: &str) -> (r: Option<&serde_json::Value>)
        ensures
            match assoc(self.resume_values@, key@) {
                Some(v) => r matches Some(x) && *x == v,
                None => r is None,
            },
    {
        let k = String::from_str(key);
        match find_key(&self.resume_values, &k) {
            Some(i) => Some(&self.resume_values[i].1),
            None => None,
        }
    }
}

/// What the caller reports after doing the work a run awaits.
#[derive(Debug)]
pub enum Event {
    /// The node ran. On `Ok` the caller adopted the new state; on `Err` it
    /// kept the state it had. `next` is the explicit override of the state
    /// the caller now holds.
    Executed { result: Result<(), GraphError>, next: Option<String> },
    /// The awaited branch produced a label, or failed.
    Evaluated(Result<String, GraphError>),
}

/// A run paused before re-attempting `next_node`.
#[derive(Debug)]
pub struct Suspension {
    pub next_node: String,
    pub pending_interrupts: Vec<Interrupt>,
    pub iterations: usize,
    pub resume_values: Vec<(String, serde_json::Value)>,
}

/// Where a run stands after a step.
#[derive(Debug)]
pub enum Outcome {
    /// More outside work is needed.
    Pending(Run),
    /// The terminal sentinel was reached; the caller's state is the result.
    Complete,
    /// A node interrupted and no answer was available for it.
    Suspended(Suspension),
    /// The run failed.
    Failed(GraphError),
}

/// Entering `target`: stop at the end, refuse past the bound, refuse an
/// unknown node, else count one more iteration and await its execution.
pub open spec fn enter_spec(
    g: CompiledGraph,
    target: Seq<char>,
    iterations: usize,
    rv: Seq<(String, serde_json::Value)>,
    resumable: bool,
    r: Outcome,
) -> bool {
    if target == end_name() {
        r is Complete
    } else if iterations >= g.config.max_iterations {
        r matches Outcome::Failed(GraphError::MaxIterationsExceeded)
    } else if !has_name(g.nodes@, target) {
        r matches Outcome::Failed(GraphError::NodeNotFound(n)) && n@ == target
    } else {
        r matches Outcome::Pending(run) && run.node@ == target && run.iterations == iterations
            + 1 && run.resume_values@ == rv && run.resumable == resumable && run.awaiting is Node
    }
}

/// Acting on a routing decision taken after `from`.
pub open spec fn follow_spec(
    g: CompiledGraph,
    from: Seq<char>,
    hop: Hop,
    iterations: usize,
    rv: Seq<(String, serde_json::Value)>,
    resumable: bool,
    r: Outcome,
) -> bool {
    match hop {
        Hop::Goto(t) => enter_spec(g, t@, iterations, rv, resumable, r),
        Hop::Evaluate(b) => r matches Outcome::Pending(run) && run.node@ == from
            && run.iterations == iterations && run.resume_values@ == rv && run.resumable
            == resumable && (run.awaiting matches Awaiting::Branch(name) && name@ == b@),
        Hop::Fail(e) => r == Outcome::Failed(e),
    }
}

/// Routing after `from` from a state whose override is `next`, then acting on it.
pub open spec fn route_spec(
    g: CompiledGraph,
    from: Seq<char>,
    next: Option<Seq<char>>,
    iterations: usize,
    rv: Seq<(String, serde_json::Value)>,
    resumable: bool,
    r: Outcome,
) -> bool {
    exists|hop: Hop|
        hop_spec(g, from, next, hop) && #[trigger] follow_spec(
            g,
            from,
            hop,
            iterations,
            rv,
            resumable,
            r,
        )
}

/// How a pending outcome counts iterations from `iterations`: one more for a
/// node to execute, within the bound; none while a branch is awaited.
pub open spec fn counted(g: CompiledGraph, iterations: usize, r: Outcome) -> bool {
    r matches Outcome::Pending(n) ==> (n.awaiting is Node && n.iterations == iterations + 1
        && iterations < g.config.max_iterations) || (n.awaiting is Branch && n.iterations
        == iterations)
}

/// Whether the answers hold one keyed by `k`.
pub open spec fn has_answer(rv: Seq<(String, serde_json::Value)>, k: Seq<char>) -> bool {
    assoc(rv, k) is Some
}

/// The event kind that a run awaits.
pub open spec fn fits(run: Run, event: Event) -> bool {
    (run.awaiting is Node) == (event is Executed)
}

/// One step of a pending run on the event that the caller reports.
pub open spec fn step_spec(g: CompiledGraph, run: Run, event: Event, r: Outcome) -> bool {
    match event {
        Event::Executed { result, next } => match result {
            Ok(()) => route_spec(
                g,
                run.node@,
                opt_view(next),
                run.iterations,
                run.resume_values@,
                run.resumable,
                r,
            ),
            Err(GraphError::Interrupted(list)) => if !run.resumable {
                r matches Outcome::Failed(GraphError::Interrupted(l)) && l@ == list@
            } else if has_answer(run.resume_values@, run.node@) {
                route_spec(
                    g,
                    run.node@,
                    opt_view(next),
                    run.iterations,
                    run.resume_values@,
                    run.resumable,
                    r,
                )
            } else {
                r matches Outcome::Suspended(s) && s.next_node@ == run.node@
                    && s.pending_interrupts@ == list@ && s.iterations == run.iterations
                    && s.resume_values@ == run.resume_values@
            },
            Err(e) => r == Outcome::Failed(e),
        },
        Event::Evaluated(label) => match label {
            Err(e) => r == Outcome::Failed(e),
            Ok(l) => match run.awaiting {
                Awaiting::Branch(b) => exists|t: Result<String, GraphError>|
                    #[trigger] resolve_spec(g, run.node@, b@, l@, t) && match t {
                        Ok(target) => enter_spec(
                            g,
                            target@,
                            run.iterations,
                            run.resume_values@,
                            run.resumable,
                            r,
                        ),
                        Err(e) => r == Outcome::Failed(e),
                    },
                Awaiting::Node => false,
            },
        },
    }
}

/// Steps still possible for a run: two per iteration left, plus one while
/// its node awaits execution.
pub open spec fn budget(g: CompiledGraph, run: Run) -> int {
    2 * (g.config.max_iterations - run.iterations) + if run.awaiting is Node {
        1int
    } else {
        0int
    }
}

/// The answers after a resume: the new value goes in front, keyed by the
/// named interrupt, else by the first pending one; with neither it is dropped.
pub open spec fn merged_answers(
    rv: Seq<(String, serde_json::Value)>,
    pending: Seq<Interrupt>,
    command: ResumeCommand,
) -> Seq<(String, serde_json::Value)> {
    match command.interrupt_id {
        Some(id) => seq![(id, command.value)] + rv,
        None => if pending.len() > 0 {
            seq![(pending[0].id, command.value)] + rv
        } else {
            rv
        },
    }
}

impl CompiledGraph {
    fn enter(
        &self,
        target: String,
        iterations: usize,
        rv: Vec<(String, serde_json::Value)>,
        resumable: bool,
    ) -> (r: Outcome)
        ensures
            enter_spec(*self, target@, iterations, rv@, resumable, r),
            counted(*self, iterations, r),
    {
        let end = end_string();
        if target == end {
            return Outcome::Complete;
        }
        if iterations >= self.config.max_iterations {
            return Outcome::Failed(GraphError::MaxIterationsExceeded);
        }
        if !crate::langgraph::table::contains_name(&self.nodes, &target) {
            return Outcome::Failed(GraphError::NodeNotFound(target));
        }
        Outcome::Pending(
            Run {
                node: target,
                iterations: iterations + 1,
                resume_values: rv,
                resumable,
                awaiting: Awaiting::Node,
            },
        )
    }

    fn follow(
        &self,
        from: String,
        hop: Hop,
        iterations: usize,
        rv: Vec<(String, serde_json::Value)>,
        resumable: bool,
    ) -> (r: Outcome)
        ensures
            follow_spec(*self, from@, hop, iterations, rv@, resumable, r),
            counted(*self, iterations, r),
    {
        match hop {
            Hop::Goto(t) => self.enter(t, iterations, rv, resumable),
            Hop::Evaluate(b) => Outcome::Pending(
                Run {
                    node: from,
                    iterations,
                    resume_values: rv,
                    resumable,
                    awaiting: Awaiting::Branch(b),
                },
            ),
            Hop::Fail(e) => Outcome::Failed(e),
        }
    }

    fn route(
        &self,
        from: String,
        next: Option<String>,
        iterations: usize,
        rv: Vec<(String, serde_json::Value)>,
        resumable: bool,
    ) -> (r: Outcome)
        ensures
            route_spec(*self, from@, opt_view(next), iterations, rv@, resumable, r),
            counted(*self, iterations, r),
    {
        let ghost f = from@;
        let ghost v = rv@;
        let hop = self.get_next_node(&from, next);
        let ghost h = hop;
        let r = self.follow(from, hop, iterations, rv, resumable);
        assert(follow_spec(*self, f, h, iterations, v, resumable, r));
        r
    }

    /// Begins a run at the entry sentinel. `explicit_next` is the override of
    /// the initial state; `resumable` chooses whether interrupts suspend.
    pub fn start(&self, explicit_next: Option<String>, resumable: bool) -> (r: Outcome)
        ensures
            route_spec(*self, start_name(), opt_view(explicit_next), 0, seq![], resumable, r),
            r matches Outcome::Pending(run) ==> run.iterations <= self.config.max_iterations,
    {
        let from = start_string();
        let rv: Vec<(String, serde_json::Value)> = Vec::new();
        assert(rv@ =~= seq![]);
        self.route(from, explicit_next, 0, rv, resumable)
    }
}


/// A paused run: the state to retry `next_node` from, the interrupts that
/// paused it, the iterations counted so far and the answers gathered.
#[derive(Debug)]
pub struct Checkpoint<S> {
    pub state: S,
    pub next_node: String,
    pub pending_interrupts: Vec<Interrupt>,
    pub iterations: usize,
    pub resume_values: Vec<(String, serde_json::Value)>,
}

/// How a resumable run ended: complete, or paused for outside input.
#[derive(Debug)]
pub enum ExecutionResult<S> {
    Complete(S),
    Interrupted { checkpoint: Checkpoint<S>, interrupts: Vec<Interrupt> },
}

impl<S> ExecutionResult<S> {
    /// The paused result for a suspension, with the state the caller holds.
    pub fn suspended(state: S, s: Suspension) -> (r: Self)
        ensures
            r matches ExecutionResult::Interrupted { checkpoint, interrupts } && checkpoint.state
                == state && checkpoint.next_node@ == s.next_node@
                && checkpoint.pending_interrupts@ == s.pending_interrupts@ && checkpoint.iterations
                == s.iterations && checkpoint.resume_values@ == s.resume_values@ && interrupts@
                == s.pending_interrupts@,
    {
        let interrupts = s.pending_interrupts.clone();
        assert(interrupts@ =~= s.pending_interrupts@);
        ExecutionResult::Interrupted {
            checkpoint: Checkpoint {
                state,
                next_node: s.next_node,
                pending_interrupts: s.pending_interrupts,
                iterations: s.iterations,
                resume_values: s.resume_values,
            },
            interrupts,
        }
    }
}

impl CompiledGraph {
    /// Advances a pending run by the event that the caller reports.
    pub fn step(&self, run: Run, event: Event) -> (r: Outcome)
        requires
            fits(run, event),
        ensures
            step_spec(*self, run, event, r),
            r matches Outcome::Pending(n) ==> budget(*self, n) < budget(*self, run),
            r matches Outcome::Pending(n) ==> n.iterations <= self.config.max_iterations
                || n.iterations == run.iterations,
    {
        let ghost run0 = run;
        match event {
            Event::Executed { result, next } => match result {
                Ok(()) => self.route(
                    run.node,
                    next,
                    run.iterations,
                    run.resume_values,
                    run.resumable,
                ),
                Err(GraphError::Interrupted(list)) => {
                    if !run.resumable {
                        return Outcome::Failed(GraphError::Interrupted(list));
                    }
                    match find_key(&run.resume_values, &run.node) {
                        Some(_) => self.route(
                            run.node,
                            next,
                            run.iterations,
                            run.resume_values,
                            run.resumable,
                        ),
                        None => Outcome::Suspended(
                            Suspension {
                                next_node: run.node,
                                pending_interrupts: list,
                                iterations: run.iterations,
                                resume_values: run.resume_values,
                            },
                        ),
                    }
                },
                Err(e) => Outcome::Failed(e),
            },
            Event::Evaluated(label) => match label {
                Err(e) => Outcome::Failed(e),
                Ok(l) => match run.awaiting {
                    Awaiting::Branch(b) => {
                        let t = self.resolve_branch(&run.node, &b, &l);
                        let ghost t0 = t;
                        let r = match t {
                            Ok(target) => self.enter(
                                target,
                                run.iterations,
                                run.resume_values,
                                run.resumable,
                            ),
                            Err(e) => Outcome::Failed(e),
                        };
                        assert(resolve_spec(*self, run0.node@, b@, l@, t0));
                        r
                    },
                    Awaiting::Node => {
                        assert(false);
                        Outcome::Complete
                    },
                },
            },
        }
    }

    /// Continues a paused run: the answer joins the checkpoint's answers, and
    /// `next_node` is entered again with the iterations counted so far. A
    /// checkpoint at the entry sentinel routes from it first, with
    /// `explicit_next`, the override of the checkpoint's state.
    pub fn resume<S>(&self, checkpoint: Checkpoint<S>, command: ResumeCommand, explicit_next: Option<String>) -> (r: (S, Outcome))
        ensures
            r.0 == checkpoint.state,
            checkpoint.next_node@ != start_name() ==> enter_spec(
                *self,
                checkpoint.next_node@,
                checkpoint.iterations,
                merged_answers(checkpoint.resume_values@, checkpoint.pending_interrupts@, command),
                true,
                r.1,
            ),
            checkpoint.next_node@ == start_name() ==> route_spec(
                *self,
                start_name(),
                opt_view(explicit_next),
                checkpoint.iterations,
                merged_answers(checkpoint.resume_values@, checkpoint.pending_interrupts@, command),
                true,
                r.1,
            ),
            r.1 matches Outcome::Pending(n) ==> (n.awaiting is Node ==> n.iterations
                == checkpoint.iterations + 1 && n.iterations <= self.config.max_iterations),
            r.1 matches Outcome::Pending(n) ==> (n.awaiting is Branch ==> n.iterations
                == checkpoint.iterations),
    {
        let Checkpoint { state, next_node, pending_interrupts, iterations, resume_values } =
            checkpoint;
        let mut rv = resume_values;
        let ResumeCommand { interrupt_id, value } = command;
        match interrupt_id {
            Some(id) => {
                rv.insert(0, (id, value));
            },
            None => {
                if pending_interrupts.len() > 0 {
                    let id = pending_interrupts[0].id.clone();
                    rv.insert(0, (id, value));
                }
            },
        }
        assert(rv@ =~= merged_answers(resume_values@, pending_interrupts@, command));
        let start = start_string();
        let out = if next_node == start {
            self.route(next_node, explicit_next, iterations, rv, true)
        } else {
            self.enter(next_node, iterations, rv, true)
        };
        (state, out)
    }
}


/// Runs are bounded: each step of a pending run lowers its budget, and a
/// run that is within the iteration bound stays within it, so the budget
/// never goes below zero. A run therefore takes at most
/// `2 * max_iterations + 1` steps, and executes at most `max_iterations` nodes.
pub proof fn lemma_step_lowers_budget(g: CompiledGraph, run: Run, event: Event, r: Outcome)
    requires
        fits(run, event),
        step_spec(g, run, event, r),
    ensures
        r matches Outcome::Pending(n) ==> budget(g, n) < budget(g, run),
        r matches Outcome::Pending(n) ==> (run.iterations <= g.config.max_iterations ==> 0
            <= budget(g, n)),
{
    match event {
        Event::Executed { result, next } => {
            if route_spec(
                g,
                run.node@,
                opt_view(next),
                run.iterations,
                run.resume_values@,
                run.resumable,
                r,
            ) {
                let hop = choose|hop: Hop|
                    hop_spec(g, run.node@, opt_view(next), hop) && #[trigger] follow_spec(
                        g,
                        run.node@,
                        hop,
                        run.iterations,
                        run.resume_values@,
                        run.resumable,
                        r,
                    );
                match hop {
                    Hop::Goto(t) => {},
                    Hop::Evaluate(b) => {},
                    Hop::Fail(e) => {},
                }
            }
        },
        Event::Evaluated(label) => {},
    }
}

/// A run pauses only before a registered node: when the node a run awaits is
/// registered (as for every run that `start`, `step` and `resume` hand out),
/// so is the node its checkpoint will retry, and that node is not the end.
pub proof fn lemma_suspension_targets_a_node(g: CompiledGraph, run: Run, event: Event, r: Outcome)
    requires
        fits(run, event),
        run.awaiting is Node,
        has_name(g.nodes@, run.node@),
        run.node@ != end_name(),
        step_spec(g, run, event, r),
    ensures
        r matches Outcome::Suspended(s) ==> has_name(g.nodes@, s.next_node@) && s.next_node@
            != end_name(),
{
}

/// A fresh run starts within the bound, so its budget is at most
/// `2 * max_iterations + 1` and never negative.
pub proof fn lemma_start_within_bound(
    g: CompiledGraph,
    explicit: Option<Seq<char>>,
    resumable: bool,
    r: Outcome,
)
    requires
        route_spec(g, start_name(), explicit, 0, seq![], resumable, r),
    ensures
        r matches Outcome::Pending(n) ==> 0 <= budget(g, n) <= 2 * g.config.max_iterations + 1,
{
    let hop = choose|hop: Hop|
        hop_spec(g, start_name(), explicit, hop) && #[trigger] follow_spec(
            g,
            start_name(),
            hop,
            0,
            seq![],
            resumable,
            r,
        );
    match hop {
        Hop::Goto(t) => {},
        Hop::Evaluate(b) => {},
        Hop::Fail(e) => {},
    }
}

/// Answers only accumulate across a resume: every earlier answer is still
/// there, and the named interrupt now has the new value.
pub proof fn lemma_answers_only_grow(
    rv: Seq<(String, serde_json::Value)>,
    pending: Seq<Interrupt>,
    command: ResumeCommand,
    k: Seq<char>,
)
    ensures
        has_answer(rv, k) ==> has_answer(merged_answers(rv, pending, command), k),
        command.interrupt_id matches Some(id) ==> assoc(merged_answers(rv, pending, command), id@)
            == Some(command.value),
        (command.interrupt_id is None && pending.len() > 0) ==> assoc(
            merged_answers(rv, pending, command),
            pending[0].id@,
        ) == Some(command.value),
{
    let m = merged_answers(rv, pending, command);
    if m.len() > rv.len() {
        assert(m.drop_first() =~= rv);
    }
}

} // verus!
