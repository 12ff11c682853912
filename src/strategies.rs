use vstd::prelude::*;
use crate::error::LangSmithError;
use crate::ids::RunId;
use crate::json::{as_object_under, ensure_object, Json};
use crate::run::{json_opt_view, string_opt_view, Run, RunUpdate};

verus! {

/// A request handed to a tracing strategy.
pub enum Request {
    /// A run has started, as it stands.
    Start(Run),
    /// A run has ended, with these terminal fields.
    End(RunId, RunUpdate),
    /// A run has failed with this message.
    Failure(RunId, Seq<char>),
}

/// Where runs are sent: the collector, or anything that stands for it.
///
/// A failure that a method reports is the transport's own; the tracing code
/// of this library never lets it reach the traced work.
pub trait TracingStrategy {
    /// A run has started.
    fn trace_start(&mut self, run: &Run) -> Result<(), LangSmithError>;

    /// The run `run_id` has ended, with the terminal fields in `update`.
    fn trace_end(&mut self, run_id: RunId, update: &RunUpdate) -> Result<(), LangSmithError>;

    /// A run has failed with `error`.
    fn trace_error(&mut self, run: &Run, error: &str) -> Result<(), LangSmithError>;
}

/// A strategy together with the record of the requests handed to it through
/// this value, oldest first: each method hands its request to the strategy
/// once and records it.
pub struct Transport<S> {
    pub strategy: S,
    pub sent: Ghost<Seq<Request>>,
}

impl<S: TracingStrategy> Transport<S> {
    /// `strategy`, with nothing sent yet.
    pub fn new(strategy: S) -> (r: Transport<S>)
        ensures
            r.strategy == strategy,
            r.sent@ == Seq::<Request>::empty(),
    {
        Transport { strategy, sent: Ghost(Seq::empty()) }
    }

    /// Hands the start of `run` to the strategy.
    pub fn start(&mut self, run: &Run) -> (r: Result<(), LangSmithError>)
        ensures
            final(self).sent@ == old(self).sent@.push(Request::Start(*run)),
    {
        let r = self.strategy.trace_start(run);
        self.sent = Ghost(self.sent@.push(Request::Start(*run)));
        r
    }

    /// Hands the end of the run `run_id`, with `update`, to the strategy.
    pub fn end(&mut self, run_id: RunId, update: &RunUpdate) -> (r: Result<(), LangSmithError>)
        ensures
            final(self).sent@ == old(self).sent@.push(Request::End(run_id, *update)),
    {
        let r = self.strategy.trace_end(run_id, update);
        self.sent = Ghost(self.sent@.push(Request::End(run_id, *update)));
        r
    }

    /// Hands the failure of `run` with `error` to the strategy.
    pub fn failure(&mut self, run: &Run, error: &str) -> (r: Result<(), LangSmithError>)
        ensures
            final(self).sent@ == old(self).sent@.push(Request::Failure(run.id, error@)),
    {
        let r = self.strategy.trace_error(run, error);
        self.sent = Ghost(self.sent@.push(Request::Failure(run.id, error@)));
        r
    }
}

/// The collector's strategy for async callers.
pub struct AsyncTracingStrategy {}

/// The collector's strategy for callers that cannot be async; it drives
/// the same requests on a runtime of its own.
pub struct SyncTracingStrategy {}

/// The update that tells the collector that `run` failed with `error`.
pub fn error_update(run: &Run, error: &str) -> (r: RunUpdate)
    ensures
        json_opt_view(r.outputs) == json_opt_view(run.outputs),
        r.end_time == run.end_time,
        string_opt_view(r.error) == Some(error@),
        r.prompt_tokens == run.prompt_tokens,
        r.completion_tokens == run.completion_tokens,
        r.total_tokens == run.total_tokens,
{
    let mut u = RunUpdate::from(run);
    u.error = Some(error.to_string());
    u
}

impl AsyncTracingStrategy {
    pub fn new() -> (r: AsyncTracingStrategy) {
        AsyncTracingStrategy {  }
    }

    /// What `trace_end` sends for `run`.
    pub fn end_update(&self, run: &Run) -> (r: RunUpdate)
        ensures
            json_opt_view(r.outputs) == json_opt_view(run.outputs),
            r.end_time == run.end_time,
            string_opt_view(r.error) == string_opt_view(run.error),
    {
        RunUpdate::from(run)
    }

    /// What `trace_error` sends for `run` and `error`.
    pub fn error_update(&self, run: &Run, error: &str) -> (r: RunUpdate)
        ensures
            json_opt_view(r.outputs) == json_opt_view(run.outputs),
            r.end_time == run.end_time,
            string_opt_view(r.error) == Some(error@),
    {
        error_update(run, error)
    }
}

impl SyncTracingStrategy {
    pub fn new() -> (r: SyncTracingStrategy) {
        SyncTracingStrategy {  }
    }

    /// What `trace_end` sends for `run`.
    pub fn end_update(&self, run: &Run) -> (r: RunUpdate)
        ensures
            json_opt_view(r.outputs) == json_opt_view(run.outputs),
            r.end_time == run.end_time,
            string_opt_view(r.error) == string_opt_view(run.error),
    {
        RunUpdate::from(run)
    }

    /// What `trace_error` sends for `run` and `error`.
    pub fn error_update(&self, run: &Run, error: &str) -> (r: RunUpdate)
        ensures
            json_opt_view(r.outputs) == json_opt_view(run.outputs),
            r.end_time == run.end_time,
            string_opt_view(r.error) == Some(error@),
    {
        error_update(run, error)
    }
}

/// Turns the payloads of a run into objects.
pub trait SerializationStrategy {
    fn serialize_inputs(&self, value: Json) -> (r: Json)
        ensures
            r@ is Object,
    ;

    fn serialize_outputs(&self, value: Json) -> (r: Json)
        ensures
            r@ is Object,
    ;
}

/// Turns payloads into objects, putting a bare input or output under a key
/// of its own.
pub struct DefaultSerializationStrategy {
    pub input_key: String,
    pub output_key: String,
}

impl DefaultSerializationStrategy {
    /// Bare inputs go under `"input"`, bare outputs under `"output"`.
    pub fn new() -> (r: DefaultSerializationStrategy)
        ensures
            r.input_key@ == "input"@,
            r.output_key@ == "output"@,
    {
        DefaultSerializationStrategy { input_key: "input".to_string(), output_key: "output".to_string() }
    }

    pub fn with_keys(input_key: String, output_key: String) -> (r: DefaultSerializationStrategy)
        ensures
            r.input_key == input_key,
            r.output_key == output_key,
    {
        DefaultSerializationStrategy { input_key, output_key }
    }

    pub fn serialize_inputs(&self, value: Json) -> (r: Json)
        ensures
            r@ == as_object_under(value@, self.input_key@),
    {
        ensure_object(value, self.input_key.as_str())
    }

    pub fn serialize_outputs(&self, value: Json) -> (r: Json)
        ensures
            r@ == as_object_under(value@, self.output_key@),
    {
        ensure_object(value, self.output_key.as_str())
    }
}

impl SerializationStrategy for DefaultSerializationStrategy {
    fn serialize_inputs(&self, value: Json) -> (r: Json) {
        DefaultSerializationStrategy::serialize_inputs(self, value)
    }

    fn serialize_outputs(&self, value: Json) -> (r: Json) {
        DefaultSerializationStrategy::serialize_outputs(self, value)
    }
}

} // verus!
