use vstd::prelude::*;

verus! {

/// An observer that reports node events to the tracing log.
pub struct LangSmithObserver {}

fn framed(head: &str, node_name: &str, tail: &str) -> (r: String)
    ensures
        r@ == head@ + node_name@ + tail@,
{
    let mut s = head.to_string();
    s.append(node_name);
    s.append(tail);
    s
}

impl LangSmithObserver {
    pub fn new() -> (r: LangSmithObserver) {
        LangSmithObserver {  }
    }

    /// The line reported when a node starts.
    pub fn start_message(&self, node_name: &str) -> (r: String)
        ensures
            r@ == "LangSmithObserver: Node '"@ + node_name@ + "' started"@,
    {
        framed("LangSmithObserver: Node '", node_name, "' started")
    }

    /// The line reported when a node completes.
    pub fn end_message(&self, node_name: &str) -> (r: String)
        ensures
            r@ == "LangSmithObserver: Node '"@ + node_name@ + "' completed"@,
    {
        framed("LangSmithObserver: Node '", node_name, "' completed")
    }

    /// The line reported when a node fails with `error`.
    pub fn error_message(&self, node_name: &str, error: &str) -> (r: String)
        ensures
            r@ == "LangSmithObserver: Node '"@ + node_name@ + "' error: "@ + error@,
    {
        let mut s = framed("LangSmithObserver: Node '", node_name, "' error: ");
        s.append(error);
        s
    }
}

} // verus!
