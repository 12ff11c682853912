use vstd::prelude::*;
use crate::ids::RunId;

verus! {

/// A snapshot of a run's place in a trace, to carry a trace across a task or
/// process boundary.
pub struct TraceContext {
    pub trace_id: RunId,
    pub parent_run_id: Option<RunId>,
    pub dotted_order: Option<String>,
    pub thread_id: Option<String>,
    pub session_name: Option<String>,
}

impl TraceContext {
    pub fn new(trace_id: RunId) -> (r: TraceContext)
        ensures
            r.trace_id == trace_id,
            r.parent_run_id is None,
            r.dotted_order is None,
            r.thread_id is None,
            r.session_name is None,
    {
        TraceContext {
            trace_id,
            parent_run_id: None,
            dotted_order: None,
            thread_id: None,
            session_name: None,
        }
    }

    pub fn with_parent(self, parent_run_id: RunId) -> (r: TraceContext)
        ensures
            r == (TraceContext { parent_run_id: Some(parent_run_id), ..self }),
    {
        TraceContext { parent_run_id: Some(parent_run_id), ..self }
    }

    pub fn with_dotted_order(self, dotted_order: String) -> (r: TraceContext)
        ensures
            r == (TraceContext { dotted_order: Some(dotted_order), ..self }),
    {
        TraceContext { dotted_order: Some(dotted_order), ..self }
    }

    pub fn with_thread_id(self, thread_id: String) -> (r: TraceContext)
        ensures
            r == (TraceContext { thread_id: Some(thread_id), ..self }),
    {
        TraceContext { thread_id: Some(thread_id), ..self }
    }

    pub fn with_session_name(self, session_name: String) -> (r: TraceContext)
        ensures
            r == (TraceContext { session_name: Some(session_name), ..self }),
    {
        TraceContext { session_name: Some(session_name), ..self }
    }
}

} // verus!
