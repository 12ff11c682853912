use vstd::prelude::*;
use crate::context::TraceContext;
use crate::error::LangSmithError;
use crate::json::{as_object_under, ensure_inputs_object, ensure_outputs_object, Json, JsonView};
use crate::run::{ordering_key, string_opt_view, update_of, Run, RunType};
use crate::strategies::{Request, TracingStrategy, Transport};
use crate::tracer::{trace_of, Tracer};

verus! {

/// A tracer that is started at most once and ended exactly once: a repeated
/// start does nothing, and ending consumes the scope.
pub struct RunScope {
    pub tracer: Tracer,
    pub posted: bool,
}

impl RunScope {
    /// A root scope; bare inputs go under `"input"`.
    pub fn root(name: &str, run_type: RunType, inputs: Json) -> (r: RunScope)
        ensures
            r.tracer.run.name@ == name@,
            r.tracer.run.run_type == run_type,
            r.tracer.run.inputs@ == as_object_under(inputs@, "input"@),
            r.tracer.run.is_fresh(),
            !r.posted,
    {
        RunScope::root_value(name, run_type, ensure_inputs_object(inputs))
    }

    /// A root scope with the inputs as they are.
    pub fn root_value(name: &str, run_type: RunType, inputs: Json) -> (r: RunScope)
        ensures
            r.tracer.run.name@ == name@,
            r.tracer.run.run_type == run_type,
            r.tracer.run.inputs@ == inputs@,
            r.tracer.run.is_fresh(),
            !r.posted,
    {
        RunScope { tracer: Tracer::new(name.to_string(), run_type, inputs), posted: false }
    }

    pub fn with_thread_id(self, thread_id: String) -> (r: RunScope)
        ensures
            r.tracer.run == (Run { thread_id: Some(thread_id), ..self.tracer.run }),
            r.posted == self.posted,
    {
        RunScope { tracer: self.tracer.with_thread_id(thread_id), posted: self.posted }
    }

    pub fn with_context(self, ctx: &TraceContext) -> (r: RunScope)
        ensures
            r.tracer.run.trace_id == Some(ctx.trace_id),
            r.tracer.run.parent_run_id == match ctx.parent_run_id {
                Some(p) => Some(p),
                None => self.tracer.run.parent_run_id,
            },
            string_opt_view(r.tracer.run.dotted_order) == match ctx.dotted_order {
                Some(d) => Some(d@),
                None => string_opt_view(self.tracer.run.dotted_order),
            },
            string_opt_view(r.tracer.run.thread_id) == match ctx.thread_id {
                Some(d) => Some(d@),
                None => string_opt_view(self.tracer.run.thread_id),
            },
            string_opt_view(r.tracer.run.session_name) == match ctx.session_name {
                Some(d) => Some(d@),
                None => string_opt_view(self.tracer.run.session_name),
            },
            r.posted == self.posted,
    {
        RunScope { tracer: self.tracer.with_context(ctx), posted: self.posted }
    }

    pub fn tracer(&self) -> (r: &Tracer)
        ensures
            *r == self.tracer,
    {
        &self.tracer
    }

    pub fn tracer_mut(&mut self) -> (r: &mut Tracer)
        ensures
            *r == old(self).tracer,
            *final(r) == final(self).tracer,
            final(self).posted == old(self).posted,
    {
        &mut self.tracer
    }

    /// A child scope (see `Tracer::create_child`); bare inputs go under
    /// `"input"`.
    pub fn child(&self, name: &str, run_type: RunType, inputs: Json) -> (r: RunScope)
        ensures
            r.tracer.run.parent_run_id == Some(self.tracer.run.id),
            r.tracer.run.trace_id == Some(trace_of(self.tracer.run)),
            r.tracer.run.dotted_order matches Some(k) && k@ == ordering_key(
                r.tracer.run.start_time,
                r.tracer.run.id,
                string_opt_view(self.tracer.run.dotted_order),
            ),
            r.tracer.run.name@ == name@,
            r.tracer.run.run_type == run_type,
            r.tracer.run.inputs@ == as_object_under(inputs@, "input"@),
            r.tracer.run.end_time is None,
            r.tracer.run.error is None,
            !r.posted,
    {
        self.child_value(name, run_type, ensure_inputs_object(inputs))
    }

    /// A child scope with the inputs as they are.
    pub fn child_value(&self, name: &str, run_type: RunType, inputs: Json) -> (r: RunScope)
        ensures
            r.tracer.run.parent_run_id == Some(self.tracer.run.id),
            r.tracer.run.trace_id == Some(trace_of(self.tracer.run)),
            r.tracer.run.dotted_order matches Some(k) && k@ == ordering_key(
                r.tracer.run.start_time,
                r.tracer.run.id,
                string_opt_view(self.tracer.run.dotted_order),
            ),
            r.tracer.run.name@ == name@,
            r.tracer.run.run_type == run_type,
            r.tracer.run.inputs@ == inputs@,
            r.tracer.run.end_time is None,
            r.tracer.run.outputs is None,
            r.tracer.run.error is None,
            !r.posted,
    {
        RunScope { tracer: self.tracer.create_child(name.to_string(), run_type, inputs), posted: false }
    }

    /// Starts the run (see `Tracer::post`) until a start has gone through:
    /// after that, a start does nothing and sends nothing. A start that meets
    /// a configuration failure leaves the scope unposted, to be tried again.
    pub fn post_start<S: TracingStrategy>(&mut self, strategy: &mut Transport<S>) -> (r: Result<(), LangSmithError>)
        ensures
            old(self).posted ==> *final(self) == *old(self) && final(strategy).sent@ == old(strategy).sent@
                && r is Ok,
            !old(self).posted ==> {
                &&& final(strategy).sent@ == old(strategy).sent@.push(
                    Request::Start(final(self).tracer.run),
                )
                &&& final(self).posted == r is Ok
                &&& r matches Err(e) ==> e is Config
                &&& old(self).tracer.run.trace_id is Some ==> final(self).tracer == old(self).tracer
                &&& old(self).tracer.run.trace_id is None ==> {
                    &&& final(self).tracer.run.trace_id == Some(old(self).tracer.run.id)
                    &&& final(self).tracer.run.dotted_order matches Some(k) && k@ == ordering_key(
                        old(self).tracer.run.start_time,
                        old(self).tracer.run.id,
                        None,
                    )
                    &&& final(self).tracer.run == (Run {
                        trace_id: final(self).tracer.run.trace_id,
                        dotted_order: final(self).tracer.run.dotted_order,
                        ..old(self).tracer.run
                    })
                }
            },
    {
        if self.posted {
            return Ok(());
        }
        let r = self.tracer.post(strategy);
        self.posted = r.is_ok();
        r
    }

    /// Ends the run with `outputs` (bare outputs go under `"output"`), sends
    /// the end once, and returns the ended run; the scope is used up. A run
    /// that has already ended is refused and nothing is sent.
    pub fn end_ok<S: TracingStrategy>(self, strategy: &mut Transport<S>, outputs: Json) -> (r: Result<Run, LangSmithError>)
        ensures
            self.tracer.run.end_time is Some ==> r == Err::<Run, LangSmithError>(
                LangSmithError::AlreadyEnded,
            ) && final(strategy).sent@ == old(strategy).sent@,
            self.tracer.run.end_time is None ==> {
                &&& r is Ok
                &&& r->Ok_0.outputs matches Some(o) && o@ == as_object_under(outputs@, "output"@)
                &&& r->Ok_0.end_time is Some
                &&& r->Ok_0 == (Run {
                    outputs: r->Ok_0.outputs,
                    end_time: r->Ok_0.end_time,
                    ..self.tracer.run
                })
                &&& sent_end(old(strategy).sent@, final(strategy).sent@, r->Ok_0)
            },
    {
        let mut t = self.tracer;
        match t.end(ensure_outputs_object(outputs)) {
            Ok(()) => {
                let ghost before = strategy.sent@;
                let _ = t.patch(strategy);
                assert(strategy.sent@.subrange(0, before.len() as int) =~= before);
                Ok(t.run)
            },
            Err(e) => Err(e),
        }
    }

    /// Records `error`, ends the run with `outputs` (an empty object when
    /// there are none), sends the end once, and returns the ended run; the
    /// scope is used up. A run that has already ended is refused and nothing
    /// is sent.
    pub fn end_error<S: TracingStrategy>(self, strategy: &mut Transport<S>, error: &str, outputs: Option<Json>) -> (r: Result<Run, LangSmithError>)
        ensures
            self.tracer.run.end_time is Some ==> r == Err::<Run, LangSmithError>(
                LangSmithError::AlreadyEnded,
            ) && final(strategy).sent@ == old(strategy).sent@,
            self.tracer.run.end_time is None ==> {
                &&& r is Ok
                &&& r->Ok_0.error matches Some(e) && e@ == error@
                &&& r->Ok_0.outputs matches Some(o) && o@ == match outputs {
                    Some(given) => given@,
                    None => JsonView::Object(Seq::empty()),
                }
                &&& r->Ok_0.end_time is Some
                &&& r->Ok_0 == (Run {
                    outputs: r->Ok_0.outputs,
                    end_time: r->Ok_0.end_time,
                    error: r->Ok_0.error,
                    ..self.tracer.run
                })
                &&& sent_end(old(strategy).sent@, final(strategy).sent@, r->Ok_0)
            },
    {
        if self.tracer.run.end_time.is_some() {
            return Err(LangSmithError::AlreadyEnded);
        }
        let mut t = self.tracer;
        t.set_error(error);
        let out = match outputs {
            Some(o) => o,
            None => Json::empty_object(),
        };
        match t.end(out) {
            Ok(()) => {
                let ghost before = strategy.sent@;
                let _ = t.patch(strategy);
                assert(strategy.sent@.subrange(0, before.len() as int) =~= before);
                Ok(t.run)
            },
            Err(e) => Err(e),
        }
    }
}

/// `after` is `before` with one more request: the end of `run`, carrying its
/// terminal fields.
pub open spec fn sent_end(before: Seq<Request>, after: Seq<Request>, run: Run) -> bool {
    &&& after.len() == before.len() + 1
    &&& after.subrange(0, before.len() as int) == before
    &&& after.last() matches Request::End(id, u) && id == run.id && update_of(u, run)
}

} // verus!
