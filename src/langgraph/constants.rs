use vstd::prelude::*;

verus! {

/// Name of the virtual entry node.
pub const START: &'static str = "__start__";

/// Name of the virtual terminal node.
pub const END: &'static str = "__end__";

/// Default bound on node executions in one run.
pub const MAX_ITERATIONS: usize = 100;

/// Default recursion limit (kept in the configuration, not enforced by the loop).
pub const RECURSION_LIMIT: usize = 25;

/// The entry sentinel as a character sequence.
pub open spec fn start_name() -> Seq<char> {
    seq!['_', '_', 's', 't', 'a', 'r', 't', '_', '_']
}

/// The terminal sentinel as a character sequence.
pub open spec fn end_name() -> Seq<char> {
    seq!['_', '_', 'e', 'n', 'd', '_', '_']
}

/// A name that a real node may carry: non-empty and not a sentinel.
pub open spec fn is_node_name(n: Seq<char>) -> bool {
    n.len() > 0 && n != start_name() && n != end_name()
}

/// The entry sentinel as an owned string.
pub fn start_string() -> (r: String)
    ensures
        r@ == start_name(),
{
    let r = String::from_str(START);
    proof {
        reveal_strlit("__start__");
        assert(r@ =~= start_name());
    }
    r
}

/// The terminal sentinel as an owned string.
pub fn end_string() -> (r: String)
    ensures
        r@ == end_name(),
{
    let r = String::from_str(END);
    proof {
        reveal_strlit("__end__");
        assert(r@ =~= end_name());
    }
    r
}

} // verus!
