use vstd::prelude::*;
use crate::error::LangSmithError;
use crate::json::{as_object_under, upsert, Json, JsonView};
use crate::run::{str_opt_view, update_of, Run, RunType};
use crate::scope::{sent_end, RunScope};
use crate::strategies::{Request, TracingStrategy, Transport};
use crate::tracer::{trace_of, Tracer};

verus! {

/// The inputs of a model call with the model's name added under `"model"`
/// when one is given and the inputs form an object.
pub open spec fn with_model(inputs: JsonView, model_name: Option<Seq<char>>) -> JsonView {
    match model_name {
        Some(m) => if inputs is Object {
            JsonView::Object(upsert(inputs->Object_0, "model"@, JsonView::Str(m)))
        } else {
            inputs
        },
        None => inputs,
    }
}

/// See `with_model`.
pub fn llm_inputs(inputs: Json, model_name: Option<&str>) -> (r: Json)
    ensures
        r@ == with_model(inputs@, str_opt_view(model_name)),
{
    let mut llm = inputs;
    if let Some(model) = model_name {
        llm.insert("model".to_string(), Json::text(model));
    }
    llm
}

/// The run name of a tool call: `tool/` and the tool's name.
pub fn tool_run_name(tool_name: &str) -> (r: String)
    ensures
        r@ == "tool/"@ + tool_name@,
{
    let mut s = "tool/".to_string();
    s.append(tool_name);
    s
}

/// `run` is a finished run named `name` of kind `run_type`, directly below
/// `parent` in its trace, ended with `outputs` (bare outputs under
/// `"output"`).
pub open spec fn finished_below(run: Run, parent: Run, name: Seq<char>, run_type: RunType, outputs: JsonView) -> bool {
    &&& run.name@ == name
    &&& run.run_type == run_type
    &&& run.parent_run_id == Some(parent.id)
    &&& run.trace_id == Some(trace_of(parent))
    &&& run.outputs matches Some(o) && o@ == as_object_under(outputs, "output"@)
    &&& run.end_time is Some
    &&& run.error is None
}

/// A graph-shaped trace: a root run named `Graph`, step runs below it, and
/// model, decision and tool runs below the steps.
pub struct GraphTrace {
    pub root: RunScope,
}

/// `after` is `before` with one more request: the start of some run.
pub open spec fn sent_one_start(before: Seq<Request>, after: Seq<Request>) -> bool {
    &&& after.len() == before.len() + 1
    &&& after.subrange(0, before.len() as int) == before
    &&& after.last() is Start
}

/// `after` is `before` with two more requests: the start of `run`, as it was
/// before it ended, then its end, carrying its terminal fields.
pub open spec fn sent_start_then_end(before: Seq<Request>, after: Seq<Request>, run: Run) -> bool {
    &&& after.len() == before.len() + 2
    &&& after.subrange(0, before.len() as int) == before
    &&& after[before.len() as int] == Request::Start(
        Run { outputs: None, end_time: None, ..run },
    )
    &&& after.last() matches Request::End(id, u) && id == run.id && update_of(u, run)
}

impl GraphTrace {
    /// Starts the root run (`Graph`, a chain) and sends its start. A
    /// configuration failure of the strategy is passed on.
    pub fn start_root<S: TracingStrategy>(strategy: &mut Transport<S>, inputs: Json, thread_id: Option<String>) -> (r: Result<GraphTrace, LangSmithError>)
        ensures
            r matches Err(e) ==> e is Config && sent_one_start(old(strategy).sent@, final(strategy).sent@),
            r is Ok ==> {
                &&& r->Ok_0.root.tracer.run.name@ == "Graph"@
                &&& r->Ok_0.root.tracer.run.run_type == RunType::Chain
                &&& r->Ok_0.root.tracer.run.inputs@ == inputs@
                &&& r->Ok_0.root.tracer.run.trace_id == Some(r->Ok_0.root.tracer.run.id)
                &&& r->Ok_0.root.tracer.run.parent_run_id is None
                &&& r->Ok_0.root.tracer.run.thread_id == thread_id
                &&& r->Ok_0.root.tracer.run.end_time is None
                &&& r->Ok_0.root.posted
                &&& final(strategy).sent@ == old(strategy).sent@.push(
                    Request::Start(r->Ok_0.root.tracer.run),
                )
            },
    {
        let mut root = RunScope::root_value("Graph", RunType::Chain, inputs);
        if let Some(tid) = thread_id {
            root = root.with_thread_id(tid);
        }
        let ghost before = strategy.sent@;
        let r = root.post_start(strategy);
        assert(strategy.sent@.subrange(0, before.len() as int) =~= before);
        match r {
            Ok(()) => Ok(GraphTrace { root }),
            Err(e) => Err(e),
        }
    }

    pub fn root_scope(&self) -> (r: &RunScope)
        ensures
            *r == self.root,
    {
        &self.root
    }

    pub fn root_tracer(&self) -> (r: &Tracer)
        ensures
            *r == self.root.tracer,
    {
        self.root.tracer()
    }

    /// Starts a step (a chain) below the root and sends its start. A
    /// configuration failure of the strategy is passed on.
    pub fn start_node_iteration<S: TracingStrategy>(&self, strategy: &mut Transport<S>, node_name: &str, inputs: Json) -> (r: Result<RunScope, LangSmithError>)
        ensures
            r matches Err(e) ==> e is Config && sent_one_start(old(strategy).sent@, final(strategy).sent@),
            r is Ok ==> {
                &&& r->Ok_0.tracer.run.name@ == node_name@
                &&& r->Ok_0.tracer.run.run_type == RunType::Chain
                &&& r->Ok_0.tracer.run.inputs@ == inputs@
                &&& r->Ok_0.tracer.run.parent_run_id == Some(self.root.tracer.run.id)
                &&& r->Ok_0.tracer.run.trace_id == Some(trace_of(self.root.tracer.run))
                &&& r->Ok_0.tracer.run.end_time is None
                &&& r->Ok_0.posted
                &&& final(strategy).sent@ == old(strategy).sent@.push(
                    Request::Start(r->Ok_0.tracer.run),
                )
            },
    {
        let mut step = self.root.child_value(node_name, RunType::Chain, inputs);
        let ghost before = strategy.sent@;
        let r = step.post_start(strategy);
        assert(strategy.sent@.subrange(0, before.len() as int) =~= before);
        match r {
            Ok(()) => Ok(step),
            Err(e) => Err(e),
        }
    }

    /// Traces a finished model call below `parent_node`: its start, then its
    /// end. A configuration failure of the strategy is passed on.
    pub fn trace_llm_call<S: TracingStrategy>(
        &self,
        strategy: &mut Transport<S>,
        parent_node: &RunScope,
        llm_name: &str,
        inputs: Json,
        outputs: Json,
        model_name: Option<&str>,
    ) -> (r: Result<Run, LangSmithError>)
        ensures
            r matches Err(e) ==> e is Config && sent_one_start(old(strategy).sent@, final(strategy).sent@),
            r is Ok ==> {
                &&& finished_below(r->Ok_0, parent_node.tracer.run, llm_name@, RunType::Llm, outputs@)
                &&& r->Ok_0.inputs@ == with_model(inputs@, str_opt_view(model_name))
                &&& sent_start_then_end(old(strategy).sent@, final(strategy).sent@, r->Ok_0)
            },
    {
        let llm = parent_node.child_value(llm_name, RunType::Llm, llm_inputs(inputs, model_name));
        finish_child(strategy, llm, outputs)
    }

    /// Traces a finished routing decision below `parent_node`: its start,
    /// then its end. A configuration failure of the strategy is passed on.
    pub fn trace_decision<S: TracingStrategy>(
        &self,
        strategy: &mut Transport<S>,
        parent_node: &RunScope,
        decision_name: &str,
        inputs: Json,
        outputs: Json,
    ) -> (r: Result<Run, LangSmithError>)
        ensures
            r matches Err(e) ==> e is Config && sent_one_start(old(strategy).sent@, final(strategy).sent@),
            r is Ok ==> {
                &&& finished_below(r->Ok_0, parent_node.tracer.run, decision_name@, RunType::Chain, outputs@)
                &&& r->Ok_0.inputs@ == inputs@
                &&& sent_start_then_end(old(strategy).sent@, final(strategy).sent@, r->Ok_0)
            },
    {
        let decision = parent_node.child_value(decision_name, RunType::Chain, inputs);
        finish_child(strategy, decision, outputs)
    }

    /// Traces a finished tool call below `parent_node`, as `tool/<name>`: its
    /// start, then its end. A configuration failure of the strategy is passed
    /// on.
    pub fn trace_tool_call<S: TracingStrategy>(
        &self,
        strategy: &mut Transport<S>,
        parent_node: &RunScope,
        tool_name: &str,
        inputs: Json,
        outputs: Json,
    ) -> (r: Result<Run, LangSmithError>)
        ensures
            r matches Err(e) ==> e is Config && sent_one_start(old(strategy).sent@, final(strategy).sent@),
            r is Ok ==> {
                &&& finished_below(r->Ok_0, parent_node.tracer.run, "tool/"@ + tool_name@, RunType::Tool, outputs@)
                &&& r->Ok_0.inputs@ == inputs@
                &&& sent_start_then_end(old(strategy).sent@, final(strategy).sent@, r->Ok_0)
            },
    {
        let name = tool_run_name(tool_name);
        let tool = parent_node.child_value(name.as_str(), RunType::Tool, inputs);
        finish_child(strategy, tool, outputs)
    }

    /// Ends the root run with `outputs` and sends the end (see
    /// `RunScope::end_ok`).
    pub fn end_root<S: TracingStrategy>(self, strategy: &mut Transport<S>, outputs: Json) -> (r: Result<Run, LangSmithError>)
        ensures
            self.root.tracer.run.end_time is Some ==> r == Err::<Run, LangSmithError>(
                LangSmithError::AlreadyEnded,
            ) && final(strategy).sent@ == old(strategy).sent@,
            self.root.tracer.run.end_time is None ==> {
                &&& r is Ok
                &&& r->Ok_0.outputs matches Some(o) && o@ == as_object_under(outputs@, "output"@)
                &&& r->Ok_0.end_time is Some
                &&& r->Ok_0 == (Run {
                    outputs: r->Ok_0.outputs,
                    end_time: r->Ok_0.end_time,
                    ..self.root.tracer.run
                })
                &&& sent_end(old(strategy).sent@, final(strategy).sent@, r->Ok_0)
            },
    {
        self.root.end_ok(strategy, outputs)
    }
}

/// Starts a new, unposted child scope and, when that goes through, ends it
/// with `outputs`.
fn finish_child<S: TracingStrategy>(strategy: &mut Transport<S>, child: RunScope, outputs: Json) -> (r: Result<Run, LangSmithError>)
    requires
        !child.posted,
        child.tracer.run.trace_id is Some,
        child.tracer.run.end_time is None,
        child.tracer.run.outputs is None,
    ensures
        r matches Err(e) ==> e is Config && sent_one_start(old(strategy).sent@, final(strategy).sent@),
        r is Ok ==> {
            &&& r->Ok_0.outputs matches Some(o) && o@ == as_object_under(outputs@, "output"@)
            &&& r->Ok_0.end_time is Some
            &&& r->Ok_0 == (Run {
                outputs: r->Ok_0.outputs,
                end_time: r->Ok_0.end_time,
                ..child.tracer.run
            })
            &&& sent_start_then_end(old(strategy).sent@, final(strategy).sent@, r->Ok_0)
        },
{
    let mut scope = child;
    let ghost started = scope.tracer.run;
    let ghost before = strategy.sent@;
    let posted = scope.post_start(strategy);
    assert(strategy.sent@.subrange(0, before.len() as int) =~= before);
    match posted {
        Ok(()) => {},
        Err(e) => {
            return Err(e);
        },
    }
    let ghost mid = strategy.sent@;
    let r = scope.end_ok(strategy, outputs);
    proof {
        let run = r->Ok_0;
        let after = strategy.sent@;
        assert(Run { outputs: None, end_time: None, ..run } == started);
        assert(after.subrange(0, mid.len() as int) == mid);
        assert(after[before.len() as int] == mid[before.len() as int]);
        assert(after.subrange(0, before.len() as int) =~= before);
    }
    r
}

} // verus!
