use vstd::prelude::*;

verus! {

/// Structured data carried by interrupts and resume answers.
#[verifier::external_type_specification]
#[verifier::external_body]
pub struct ExJsonValue(serde_json::Value);

/// Relies on serde_json's derived `Clone` for `Value`: the copy is the same value.
pub assume_specification[ <serde_json::Value as Clone>::clone ](v: &serde_json::Value) -> (r:
    serde_json::Value)
    ensures
        r == *v,
;

/// A request for outside input, raised by a node.
#[derive(Debug)]
pub struct Interrupt {
    pub id: String,
    pub payload: serde_json::Value,
}

impl Clone for Interrupt {
    fn clone(&self) -> (r: Self)
        ensures
            r == *self,
    {
        Interrupt { id: self.id.clone(), payload: self.payload.clone() }
    }
}

impl Interrupt {
    pub fn new(id: String, payload: serde_json::Value) -> (r: Self)
        ensures
            r.id == id,
            r.payload == payload,
    {
        Interrupt { id, payload }
    }
}

/// An answer supplied from outside when a suspended run is resumed.
#[derive(Debug)]
pub struct ResumeCommand {
    /// The interrupt answered; when absent, the first pending one.
    pub interrupt_id: Option<String>,
    pub value: serde_json::Value,
}

/// Why a run stopped short of its end, or paused.
#[derive(Debug)]
pub enum GraphError {
    /// Routing reached a name that is not a registered node.
    NodeNotFound(String),
    /// A conditional edge names a missing branch, or the branch failed.
    BranchError { node: String, message: String },
    /// The iteration bound would have been exceeded.
    MaxIterationsExceeded,
    /// A node asks for outside input before it can go on.
    Interrupted(Vec<Interrupt>),
    /// A node's own work failed.
    ExecutionError { node: String, message: String },
}

} // verus!
