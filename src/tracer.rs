use vstd::prelude::*;
use crate::context::TraceContext;
use crate::error::LangSmithError;
use crate::ids::RunId;
use crate::json::Json;
use crate::lineage::{extends_key, lemma_child_key_extends};
use crate::run::{copy_opt_string, ordering_key, same_run, string_opt_view, update_of, Run, RunType, RunUpdate};
use crate::strategies::{Request, TracingStrategy, Transport};

verus! {

/// The trace a run belongs to: the one it was given, or its own when it has
/// none yet.
pub open spec fn trace_of(run: Run) -> RunId {
    match run.trace_id {
        Some(t) => t,
        None => run.id,
    }
}

/// The handle that drives one run: it derives children from it and saves it
/// in two phases, a start and an end.
pub struct Tracer {
    pub run: Run,
}

impl Clone for Tracer {
    fn clone(&self) -> (r: Self)
        ensures
            same_run(r.run, self.run),
    {
        Tracer { run: self.run.clone() }
    }
}

impl Tracer {
    /// A tracer of a new run; nothing is sent.
    pub fn new(name: String, run_type: RunType, inputs: Json) -> (r: Tracer)
        ensures
            r.run.name@ == name@,
            r.run.run_type == run_type,
            r.run.inputs@ == inputs@,
            r.run.start_time.wf(),
            r.run.is_fresh(),
    {
        Tracer { run: Run::new(name, run_type, inputs) }
    }

    pub fn with_thread_id(self, thread_id: String) -> (r: Tracer)
        ensures
            r.run == (Run { thread_id: Some(thread_id), ..self.run }),
    {
        let mut t = self;
        t.run.thread_id = Some(thread_id);
        t
    }

    pub fn with_session_name(self, session_name: String) -> (r: Tracer)
        ensures
            r.run == (Run { session_name: Some(session_name), ..self.run }),
    {
        let mut t = self;
        t.run.session_name = Some(session_name);
        t
    }

    /// Resumes a trace that began elsewhere: the run joins the context's
    /// trace, and takes each of its other fields that is set.
    pub fn with_context(self, context: &TraceContext) -> (r: Tracer)
        ensures
            r.run.trace_id == Some(context.trace_id),
            r.run.parent_run_id == match context.parent_run_id {
                Some(p) => Some(p),
                None => self.run.parent_run_id,
            },
            string_opt_view(r.run.dotted_order) == match context.dotted_order {
                Some(d) => Some(d@),
                None => string_opt_view(self.run.dotted_order),
            },
            string_opt_view(r.run.thread_id) == match context.thread_id {
                Some(d) => Some(d@),
                None => string_opt_view(self.run.thread_id),
            },
            string_opt_view(r.run.session_name) == match context.session_name {
                Some(d) => Some(d@),
                None => string_opt_view(self.run.session_name),
            },
            r.run == (Run {
                trace_id: r.run.trace_id,
                parent_run_id: r.run.parent_run_id,
                dotted_order: r.run.dotted_order,
                thread_id: r.run.thread_id,
                session_name: r.run.session_name,
                ..self.run
            }),
    {
        let mut t = self;
        t.run.trace_id = Some(context.trace_id);
        if let Some(p) = context.parent_run_id {
            t.run.parent_run_id = Some(p);
        }
        if let Some(d) = &context.dotted_order {
            t.run.dotted_order = Some(d.clone());
        }
        if let Some(d) = &context.thread_id {
            t.run.thread_id = Some(d.clone());
        }
        if let Some(d) = &context.session_name {
            t.run.session_name = Some(d.clone());
        }
        t
    }

    /// A tracer of a new run below this one: same trace, this run as parent,
    /// an ordering key under this run's key (its own segment alone when this
    /// run has no key yet), and this run's thread and session.
    pub fn create_child(&self, name: String, run_type: RunType, inputs: Json) -> (r: Tracer)
        ensures
            r.run.parent_run_id == Some(self.run.id),
            r.run.trace_id == Some(trace_of(self.run)),
            r.run.dotted_order matches Some(k) && k@ == ordering_key(
                r.run.start_time,
                r.run.id,
                string_opt_view(self.run.dotted_order),
            ),
            self.run.dotted_order matches Some(p) ==> (r.run.dotted_order matches Some(k)
                && extends_key(k@, p@)),
            string_opt_view(r.run.thread_id) == string_opt_view(self.run.thread_id),
            string_opt_view(r.run.session_name) == string_opt_view(self.run.session_name),
            r.run.name@ == name@,
            r.run.run_type == run_type,
            r.run.inputs@ == inputs@,
            r.run.start_time.wf(),
            r.run.outputs is None,
            r.run.end_time is None,
            r.run.error is None,
            r.run.session_id is None,
            r.run.tags@.len() == 0,
            r.run.extra@.len() == 0,
            r.run.prompt_tokens is None,
            r.run.completion_tokens is None,
            r.run.total_tokens is None,
    {
        let mut child = Tracer::new(name, run_type, inputs);
        child.run.parent_run_id = Some(self.run.id);
        child.run.trace_id = match self.run.trace_id {
            Some(t) => Some(t),
            None => Some(self.run.id),
        };
        let key = match &self.run.dotted_order {
            Some(p) => child.run.generate_dotted_order(Some(p.as_str())),
            None => child.run.generate_dotted_order(None),
        };
        proof {
            if self.run.dotted_order is Some {
                lemma_child_key_extends(
                    self.run.dotted_order->Some_0@,
                    child.run.start_time,
                    child.run.id,
                );
            }
        }
        child.run.dotted_order = Some(key);
        child.run.thread_id = copy_opt_string(&self.run.thread_id);
        child.run.session_name = copy_opt_string(&self.run.session_name);
        child
    }

    /// Makes this run the root of its own trace when it belongs to none yet:
    /// the trace is then its own, and its key its own segment.
    pub fn ensure_root(&mut self)
        ensures
            old(self).run.trace_id is Some ==> *final(self) == *old(self),
            old(self).run.trace_id is None ==> {
                &&& final(self).run.trace_id == Some(old(self).run.id)
                &&& final(self).run.dotted_order matches Some(k) && k@ == ordering_key(
                    old(self).run.start_time,
                    old(self).run.id,
                    None,
                )
                &&& final(self).run == (Run {
                    trace_id: final(self).run.trace_id,
                    dotted_order: final(self).run.dotted_order,
                    ..old(self).run
                })
            },
    {
        if self.run.trace_id.is_none() {
            self.run.trace_id = Some(self.run.id);
            let key = self.run.generate_dotted_order(None);
            self.run.dotted_order = Some(key);
        }
    }

    /// The start phase: takes its place as a root if it has none, then hands
    /// the run, once, to `strategy`. A configuration failure of the strategy
    /// (it cannot reach a collector at all) is passed on; any other failure
    /// is not.
    pub fn post<S: TracingStrategy>(&mut self, strategy: &mut Transport<S>) -> (r: Result<(), LangSmithError>)
        ensures
            final(strategy).sent@ == old(strategy).sent@.push(Request::Start(final(self).run)),
            r matches Err(e) ==> e is Config,
            old(self).run.trace_id is Some ==> *final(self) == *old(self),
            old(self).run.trace_id is None ==> {
                &&& final(self).run.trace_id == Some(old(self).run.id)
                &&& final(self).run.dotted_order matches Some(k) && k@ == ordering_key(
                    old(self).run.start_time,
                    old(self).run.id,
                    None,
                )
                &&& final(self).run == (Run {
                    trace_id: final(self).run.trace_id,
                    dotted_order: final(self).run.dotted_order,
                    ..old(self).run
                })
            },
    {
        self.ensure_root();
        match strategy.start(&self.run) {
            Err(LangSmithError::Config(m)) => Err(LangSmithError::Config(m)),
            _ => Ok(()),
        }
    }

    /// The end phase: hands the terminal part of the run, as it stands, to
    /// `strategy`, once, and returns it. A failure of the strategy is not
    /// passed on.
    pub fn patch<S: TracingStrategy>(&self, strategy: &mut Transport<S>) -> (r: RunUpdate)
        ensures
            update_of(r, self.run),
            final(strategy).sent@ == old(strategy).sent@.push(Request::End(self.run.id, r)),
    {
        let update = RunUpdate::from(&self.run);
        let _ = strategy.end(self.run.id, &update);
        update
    }

    /// Ends the run with `outputs` (see `Run::end`).
    pub fn end(&mut self, outputs: Json) -> (r: Result<(), LangSmithError>)
        ensures
            old(self).run.end_time is Some ==> r == Err::<(), LangSmithError>(
                LangSmithError::AlreadyEnded,
            ) && *final(self) == *old(self),
            old(self).run.end_time is None ==> {
                &&& r is Ok
                &&& final(self).run.outputs matches Some(o) && o@ == outputs@
                &&& final(self).run.end_time matches Some(t) && t.wf()
                &&& final(self).run == (Run {
                    outputs: final(self).run.outputs,
                    end_time: final(self).run.end_time,
                    ..old(self).run
                })
            },
    {
        self.run.end(outputs)
    }

    pub fn set_error(&mut self, error: &str)
        ensures
            final(self).run.error matches Some(e) && e@ == error@,
            final(self).run == (Run { error: final(self).run.error, ..old(self).run }),
    {
        self.run.set_error(error)
    }

    pub fn run_id(&self) -> (r: RunId)
        ensures
            r == self.run.id,
    {
        self.run.id
    }

    pub fn trace_id(&self) -> (r: Option<RunId>)
        ensures
            r == self.run.trace_id,
    {
        self.run.trace_id
    }

    pub fn name(&self) -> (r: &str)
        ensures
            r@ == self.run.name@,
    {
        self.run.name.as_str()
    }

    pub fn run_type(&self) -> (r: &RunType)
        ensures
            *r == self.run.run_type,
    {
        &self.run.run_type
    }

    pub fn parent_run_id(&self) -> (r: Option<RunId>)
        ensures
            r == self.run.parent_run_id,
    {
        self.run.parent_run_id
    }

    pub fn dotted_order(&self) -> (r: Option<&String>)
        ensures
            r == match self.run.dotted_order {
                Some(s) => Some(&s),
                None => None,
            },
    {
        match &self.run.dotted_order {
            Some(s) => Some(s),
            None => None,
        }
    }

    pub fn thread_id(&self) -> (r: Option<&String>)
        ensures
            r == match self.run.thread_id {
                Some(s) => Some(&s),
                None => None,
            },
    {
        match &self.run.thread_id {
            Some(s) => Some(s),
            None => None,
        }
    }

    pub fn session_name(&self) -> (r: Option<&String>)
        ensures
            r == match self.run.session_name {
                Some(s) => Some(&s),
                None => None,
            },
    {
        match &self.run.session_name {
            Some(s) => Some(s),
            None => None,
        }
    }

    /// A snapshot of this run's place in its trace; the trace is the run's own
    /// when it has none yet.
    pub fn context(&self) -> (r: TraceContext)
        ensures
            r.trace_id == trace_of(self.run),
            r.parent_run_id == self.run.parent_run_id,
            string_opt_view(r.dotted_order) == string_opt_view(self.run.dotted_order),
            string_opt_view(r.thread_id) == string_opt_view(self.run.thread_id),
            string_opt_view(r.session_name) == string_opt_view(self.run.session_name),
    {
        TraceContext {
            trace_id: match self.run.trace_id {
                Some(t) => t,
                None => self.run.id,
            },
            parent_run_id: self.run.parent_run_id,
            dotted_order: copy_opt_string(&self.run.dotted_order),
            thread_id: copy_opt_string(&self.run.thread_id),
            session_name: copy_opt_string(&self.run.session_name),
        }
    }
}

} // verus!
