use vstd::prelude::*;
use crate::langgraph::constants::{
    MAX_ITERATIONS, RECURSION_LIMIT, end_name, end_string, is_node_name, start_string,
};
use crate::langgraph::error::GraphError;
use crate::langgraph::table::{assoc, contains_name, find_key, has_name};

verus! {

/// Outgoing routing from a node.
#[derive(Debug)]
pub enum Edge {
    /// Always continue at the named node.
    Direct(String),
    /// Ask the named branch where to continue.
    Conditional(String),
}

/// A named dynamic router. Its evaluation (state to label) belongs to the
/// caller; the graph maps the label to the node that follows.
#[derive(Debug)]
pub struct Branch {
    /// Label to target node. When absent, a label is itself the target's name.
    pub path_map: Option<Vec<(String, String)>>,
}

/// Knobs of a run.
#[derive(Debug)]
pub struct ExecutionConfig {
    /// Most node executions that one run may perform.
    pub max_iterations: usize,
    /// Diagnostic output only; never changes a decision.
    pub debug: bool,
    /// Kept for callers that nest graphs; the run loop does not read it.
    pub recursion_limit: usize,
}

impl Default for ExecutionConfig {
    fn default() -> (r: Self)
        ensures
            r.max_iterations == MAX_ITERATIONS,
            !r.debug,
            r.recursion_limit == RECURSION_LIMIT,
    {
        ExecutionConfig {
            max_iterations: MAX_ITERATIONS,
            debug: false,
            recursion_limit: RECURSION_LIMIT,
        }
    }
}

/// A graph under construction.
#[derive(Debug)]
pub struct StateGraph {
    pub nodes: Vec<String>,
    /// Edges in the order they were added, keyed by their source node.
    pub edges: Vec<(String, Edge)>,
    pub branches: Vec<(String, Branch)>,
}

/// An immutable graph, ready to run.
#[derive(Debug)]
pub struct CompiledGraph {
    pub nodes: Vec<String>,
    pub edges: Vec<(String, Edge)>,
    pub branches: Vec<(String, Branch)>,
    pub config: ExecutionConfig,
}

impl StateGraph {
    pub fn new() -> (r: Self)
        ensures
            r.nodes@.len() == 0,
            r.edges@.len() == 0,
            r.branches@.len() == 0,
    {
        StateGraph { nodes: Vec::new(), edges: Vec::new(), branches: Vec::new() }
    }

    /// Registers a node. Refused (false, nothing changes) for an empty
    /// name, a sentinel, or a name already registered.
    pub fn add_node(&mut self, name: String) -> (added: bool)
        ensures
            added == (is_node_name(name@) && !has_name(old(self).nodes@, name@)),
            final(self).nodes@ == (if added {
                old(self).nodes@.push(name)
            } else {
                old(self).nodes@
            }),
            final(self).edges == old(self).edges,
            final(self).branches == old(self).branches,
    {
        let s = start_string();
        let e = end_string();
        if name.as_str().unicode_len() == 0 || name == s || name == e {
            return false;
        }
        if contains_name(&self.nodes, &name) {
            return false;
        }
        self.nodes.push(name);
        true
    }

    /// Adds a direct edge `from -> to`.
    pub fn add_edge(&mut self, from: String, to: String)
        ensures
            final(self).edges@ == old(self).edges@.push((from, Edge::Direct(to))),
            final(self).nodes == old(self).nodes,
            final(self).branches == old(self).branches,
    {
        self.edges.push((from, Edge::Direct(to)));
    }

    /// Adds a conditional edge from `from` through the branch named `branch`.
    pub fn add_conditional_edge(&mut self, from: String, branch: String)
        ensures
            final(self).edges@ == old(self).edges@.push((from, Edge::Conditional(branch))),
            final(self).nodes == old(self).nodes,
            final(self).branches == old(self).branches,
    {
        self.edges.push((from, Edge::Conditional(branch)));
    }

    /// Registers a branch. Refused (false) when the name is taken.
    pub fn add_branch(&mut self, name: String, branch: Branch) -> (added: bool)
        ensures
            added == (assoc(old(self).branches@, name@) is None),
            final(self).branches@ == (if added {
                old(self).branches@.push((name, branch))
            } else {
                old(self).branches@
            }),
            final(self).nodes == old(self).nodes,
            final(self).edges == old(self).edges,
    {
        match find_key(&self.branches, &name) {
            Some(_) => false,
            None => {
                self.branches.push((name, branch));
                true
            },
        }
    }

    /// Freezes the graph, with the default configuration. Nothing is refused
    /// here: a conditional edge whose branch is missing fails with a branch
    /// error when routing first follows it.
    pub fn compile(self) -> (r: CompiledGraph)
        ensures
            r.nodes == self.nodes,
            r.edges == self.edges,
            r.branches == self.branches,
            r.config.max_iterations == MAX_ITERATIONS,
            !r.config.debug,
            r.config.recursion_limit == RECURSION_LIMIT,
    {
        CompiledGraph::new(self)
    }
}


/// What routing decided after a node: a next name (possibly the terminal
/// sentinel), a branch that must first be evaluated on the state, or a failure.
#[derive(Debug)]
pub enum Hop {
    Goto(String),
    Evaluate(String),
    Fail(GraphError),
}

/// The characters of an optional name.
pub open spec fn opt_view(o: Option<String>) -> Option<Seq<char>> {
    match o {
        Some(s) => Some(s@),
        None => None,
    }
}

/// Message of the error for a conditional edge whose branch is missing.
pub open spec fn missing_branch_message(b: Seq<char>) -> Seq<char> {
    "Branch '"@ + b + "' not found"@
}

/// Message of the error for a label that a branch's path map does not know.
pub open spec fn unknown_label_message(b: Seq<char>, label: Seq<char>) -> Seq<char> {
    "Branch '"@ + b + "' has no route for label '"@ + label + "'"@
}

/// The routing decision from `cur`, where `explicit` is the state's override.
pub open spec fn hop_spec(
    g: CompiledGraph,
    cur: Seq<char>,
    explicit: Option<Seq<char>>,
    r: Hop,
) -> bool {
    match explicit {
        Some(x) => r matches Hop::Goto(t) && t@ == x,
        None => match assoc(g.edges@, cur) {
            None => r matches Hop::Goto(t) && t@ == end_name(),
            Some(Edge::Direct(to)) => r matches Hop::Goto(t) && t@ == to@,
            Some(Edge::Conditional(b)) => if assoc(g.branches@, b@) is Some {
                r matches Hop::Evaluate(name) && name@ == b@
            } else {
                r matches Hop::Fail(GraphError::BranchError { node, message }) && node@ == cur
                    && message@ == missing_branch_message(b@)
            },
        },
    }
}

/// The target that a branch's label resolves to.
pub open spec fn resolve_spec(
    g: CompiledGraph,
    cur: Seq<char>,
    b: Seq<char>,
    label: Seq<char>,
    r: Result<String, GraphError>,
) -> bool {
    match assoc(g.branches@, b) {
        None => r matches Err(GraphError::BranchError { node, message }) && node@ == cur
            && message@ == missing_branch_message(b),
        Some(br) => match br.path_map {
            None => r matches Ok(t) && t@ == label,
            Some(pm) => match assoc(pm@, label) {
                Some(t) => r matches Ok(x) && x@ == t@,
                None => r matches Err(GraphError::BranchError { node, message }) && node@
                    == cur && message@ == unknown_label_message(b, label),
            },
        },
    }
}

fn branch_missing_error(cur: &String, b: &String) -> (r: GraphError)
    ensures
        r matches GraphError::BranchError { node, message } && node@ == cur@ && message@
            == missing_branch_message(b@),
{
    let mut m = String::from_str("Branch '");
    m.append(b.as_str());
    m.append("' not found");
    GraphError::BranchError { node: cur.clone(), message: m }
}

fn unknown_label_error(cur: &String, b: &String, label: &String) -> (r: GraphError)
    ensures
        r matches GraphError::BranchError { node, message } && node@ == cur@ && message@
            == unknown_label_message(b@, label@),
{
    let mut m = String::from_str("Branch '");
    m.append(b.as_str());
    m.append("' has no route for label '");
    m.append(label.as_str());
    m.append("'");
    GraphError::BranchError { node: cur.clone(), message: m }
}

impl CompiledGraph {
    pub(crate) fn new(graph: StateGraph) -> (r: Self)
        ensures
            r.nodes == graph.nodes,
            r.edges == graph.edges,
            r.branches == graph.branches,
            r.config.max_iterations == MAX_ITERATIONS,
            !r.config.debug,
            r.config.recursion_limit == RECURSION_LIMIT,
    {
        CompiledGraph {
            nodes: graph.nodes,
            edges: graph.edges,
            branches: graph.branches,
            config: ExecutionConfig::default(),
        }
    }

    pub fn with_config(self, config: ExecutionConfig) -> (r: Self)
        ensures
            r.config == config,
            r.nodes == self.nodes,
            r.edges == self.edges,
            r.branches == self.branches,
    {
        CompiledGraph { config, ..self }
    }

    pub fn with_max_iterations(self, max: usize) -> (r: Self)
        ensures
            r.config.max_iterations == max,
            r.config.debug == self.config.debug,
            r.config.recursion_limit == self.config.recursion_limit,
            r.nodes == self.nodes,
            r.edges == self.edges,
            r.branches == self.branches,
    {
        let mut g = self;
        g.config.max_iterations = max;
        g
    }

    pub fn with_debug(self, debug: bool) -> (r: Self)
        ensures
            r.config.debug == debug,
            r.config.max_iterations == self.config.max_iterations,
            r.config.recursion_limit == self.config.recursion_limit,
            r.nodes == self.nodes,
            r.edges == self.edges,
            r.branches == self.branches,
    {
        let mut g = self;
        g.config.debug = debug;
        g
    }

    /// Names of all registered nodes, in registration order.
    pub fn get_nodes(&self) -> (r: Vec<String>)
        ensures
            r@ == self.nodes@,
    {
        let r = self.nodes.clone();
        assert(r@ =~= self.nodes@);
        r
    }

    /// Whether a node of this name is registered.
    pub fn has_node(&self, name: &str) -> (r: bool)
        ensures
            r == has_name(self.nodes@, name@),
    {
        let k = String::from_str(name);
        contains_name(&self.nodes, &k)
    }

    /// Routing after `current`: the explicit override wins; otherwise only the
    /// first edge registered from `current` counts, and none means the end.
    pub fn get_next_node(&self, current: &String, explicit_next: Option<String>) -> (r: Hop)
        ensures
            hop_spec(*self, current@, opt_view(explicit_next), r),
    {
        if let Some(next) = explicit_next {
            return Hop::Goto(next);
        }
        match find_key(&self.edges, current) {
            None => Hop::Goto(end_string()),
            Some(i) => match &self.edges[i].1 {
                Edge::Direct(to) => Hop::Goto(to.clone()),
                Edge::Conditional(b) => match find_key(&self.branches, b) {
                    Some(_) => Hop::Evaluate(b.clone()),
                    None => Hop::Fail(branch_missing_error(current, b)),
                },
            },
        }
    }

    /// Maps the label that branch `branch` produced to the node that follows.
    pub fn resolve_branch(&self, current: &String, branch: &String, label: &String) -> (r: Result<
        String,
        GraphError,
    >)
        ensures
            resolve_spec(*self, current@, branch@, label@, r),
    {
        match find_key(&self.branches, branch) {
            None => Err(branch_missing_error(current, branch)),
            Some(i) => match &self.branches[i].1.path_map {
                None => Ok(label.clone()),
                Some(pm) => match find_key(pm, label) {
                    Some(j) => Ok(pm[j].1.clone()),
                    None => Err(unknown_label_error(current, branch, label)),
                },
            },
        }
    }
}


/// Routing has no hidden state: two decisions taken from the same node and
/// the same override agree on where they lead.
pub proof fn lemma_routing_is_deterministic(
    g: CompiledGraph,
    cur: Seq<char>,
    explicit: Option<Seq<char>>,
    r1: Hop,
    r2: Hop,
)
    requires
        hop_spec(g, cur, explicit, r1),
        hop_spec(g, cur, explicit, r2),
    ensures
        r1 matches Hop::Goto(a) ==> (r2 matches Hop::Goto(b) && a@ == b@),
        r1 matches Hop::Evaluate(a) ==> (r2 matches Hop::Evaluate(b) && a@ == b@),
        r1 is Fail <==> r2 is Fail,
{
}

/// A state's explicit override decides the next node, whatever edges or
/// branches leave the current node.
pub proof fn lemma_explicit_next_wins(g: CompiledGraph, cur: Seq<char>, x: Seq<char>, r: Hop)
    requires
        hop_spec(g, cur, Some(x), r),
    ensures
        r matches Hop::Goto(t) && t@ == x,
{
}

/// A conditional edge that names an unregistered branch fails with a branch
/// error for that node the first time it is followed.
pub proof fn lemma_missing_branch_fails(g: CompiledGraph, cur: Seq<char>, b: String, r: Hop)
    requires
        assoc(g.edges@, cur) == Some(Edge::Conditional(b)),
        assoc(g.branches@, b@) is None,
        hop_spec(g, cur, None, r),
    ensures
        r matches Hop::Fail(GraphError::BranchError { node, .. }) && node@ == cur,
{
}

/// A node with no outgoing edge, and no override in its state, leads to the end.
pub proof fn lemma_no_edge_leads_to_end(g: CompiledGraph, cur: Seq<char>, r: Hop)
    requires
        assoc(g.edges@, cur) is None,
        hop_spec(g, cur, None, r),
    ensures
        r matches Hop::Goto(t) && t@ == end_name(),
{
}

} // verus!
