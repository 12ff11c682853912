use vstd::prelude::*;
use crate::context::TraceContext;
use crate::json::Json;
use crate::run::{ordering_key, string_opt_view, RunType};
use crate::tracer::Tracer;

verus! {

/// Ready-made ways to make a tracer.
pub struct TracerFactory {}

impl TracerFactory {
    pub fn create(name: String, run_type: RunType, inputs: Json) -> (r: Tracer)
        ensures
            r.run.name@ == name@,
            r.run.run_type == run_type,
            r.run.inputs@ == inputs@,
            r.run.is_fresh(),
    {
        Tracer::new(name, run_type, inputs)
    }

    pub fn create_with_thread(name: String, run_type: RunType, inputs: Json, thread_id: String) -> (r: Tracer)
        ensures
            r.run.name@ == name@,
            r.run.run_type == run_type,
            r.run.inputs@ == inputs@,
            r.run.thread_id == Some(thread_id),
            r.run.trace_id is None,
    {
        Tracer::new(name, run_type, inputs).with_thread_id(thread_id)
    }

    pub fn create_with_context(name: String, run_type: RunType, inputs: Json, context: &TraceContext) -> (r: Tracer)
        ensures
            r.run.name@ == name@,
            r.run.run_type == run_type,
            r.run.inputs@ == inputs@,
            r.run.trace_id == Some(context.trace_id),
            r.run.parent_run_id == context.parent_run_id,
            string_opt_view(r.run.dotted_order) == string_opt_view(context.dotted_order),
            string_opt_view(r.run.thread_id) == string_opt_view(context.thread_id),
            string_opt_view(r.run.session_name) == string_opt_view(context.session_name),
    {
        Tracer::new(name, run_type, inputs).with_context(context)
    }

    /// A tracer of the root of a new trace: the trace is the run's own and
    /// its key its own segment.
    pub fn create_root(name: String, run_type: RunType, inputs: Json) -> (r: Tracer)
        ensures
            r.run.name@ == name@,
            r.run.run_type == run_type,
            r.run.inputs@ == inputs@,
            r.run.trace_id == Some(r.run.id),
            r.run.parent_run_id is None,
            r.run.dotted_order matches Some(k) && k@ == ordering_key(r.run.start_time, r.run.id, None),
    {
        let mut t = Tracer::new(name, run_type, inputs);
        t.ensure_root();
        t
    }

    /// A tracer for a graph node: in the given context, or as the root of a
    /// new trace when there is none.
    pub fn create_for_node(
        node_name: String,
        run_type: RunType,
        inputs: Json,
        parent_context: Option<&TraceContext>,
    ) -> (r: Tracer)
        ensures
            r.run.name@ == node_name@,
            r.run.run_type == run_type,
            r.run.inputs@ == inputs@,
            match parent_context {
                Some(c) => r.run.trace_id == Some(c.trace_id) && r.run.parent_run_id == c.parent_run_id
                    && string_opt_view(r.run.dotted_order) == string_opt_view(c.dotted_order),
                None => r.run.trace_id == Some(r.run.id) && r.run.parent_run_id is None && r.run.dotted_order
                    is Some && r.run.dotted_order->Some_0@ == ordering_key(
                    r.run.start_time,
                    r.run.id,
                    None,
                ),
            },
    {
        match parent_context {
            Some(c) => TracerFactory::create_with_context(node_name, run_type, inputs, c),
            None => TracerFactory::create_root(node_name, run_type, inputs),
        }
    }
}

} // verus!
