use vstd::prelude::*;
use crate::error::LangSmithError;
use crate::ids::{uuid_text, RunId};
use crate::json::{entries_view, unique_keys, upsert, upsert_entry, Json, JsonView};
use crate::time::{stamp_text, Timestamp};

verus! {

/// The kind of work a run stands for.
#[derive(Debug, PartialEq)]
pub enum RunType {
    Chain,
    Llm,
    Tool,
    Retriever,
    Embedding,
    Prompt,
    Runnable,
    Custom(String),
}

/// The name of a kind, as the collector knows it.
pub open spec fn run_type_name(t: RunType) -> Seq<char> {
    match t {
        RunType::Chain => "chain"@,
        RunType::Llm => "llm"@,
        RunType::Tool => "tool"@,
        RunType::Retriever => "retriever"@,
        RunType::Embedding => "embedding"@,
        RunType::Prompt => "prompt"@,
        RunType::Runnable => "runnable"@,
        RunType::Custom(s) => s@,
    }
}

impl Clone for RunType {
    fn clone(&self) -> (r: Self)
        ensures
            r == *self,
    {
        match self {
            RunType::Chain => RunType::Chain,
            RunType::Llm => RunType::Llm,
            RunType::Tool => RunType::Tool,
            RunType::Retriever => RunType::Retriever,
            RunType::Embedding => RunType::Embedding,
            RunType::Prompt => RunType::Prompt,
            RunType::Runnable => RunType::Runnable,
            RunType::Custom(s) => RunType::Custom(s.clone()),
        }
    }
}

impl RunType {
    pub fn as_str(&self) -> (r: &str)
        ensures
            r@ == run_type_name(*self),
    {
        match self {
            RunType::Chain => "chain",
            RunType::Llm => "llm",
            RunType::Tool => "tool",
            RunType::Retriever => "retriever",
            RunType::Embedding => "embedding",
            RunType::Prompt => "prompt",
            RunType::Runnable => "runnable",
            RunType::Custom(s) => s.as_str(),
        }
    }
}

/// A run's own part of an ordering key: its start instant, `Z`, and its
/// identifier in canonical form.
pub open spec fn key_segment(start: Timestamp, id: RunId) -> Seq<char> {
    stamp_text(start) + (seq!['Z'] + uuid_text(id.value))
}

/// The ordering key of a run that started at `start` with identifier `id`:
/// its own segment, after the parent's key and a dot when there is one.
pub open spec fn ordering_key(start: Timestamp, id: RunId, parent: Option<Seq<char>>) -> Seq<char> {
    match parent {
        Some(p) => p + (seq!['.'] + key_segment(start, id)),
        None => key_segment(start, id),
    }
}

pub open spec fn str_opt_view(o: Option<&str>) -> Option<Seq<char>> {
    match o {
        Some(s) => Some(s@),
        None => None,
    }
}

pub open spec fn string_opt_view(o: Option<String>) -> Option<Seq<char>> {
    match o {
        Some(s) => Some(s@),
        None => None,
    }
}

pub open spec fn json_opt_view(o: Option<Json>) -> Option<JsonView> {
    match o {
        Some(j) => Some(j@),
        None => None,
    }
}

pub fn copy_opt_string(o: &Option<String>) -> (r: Option<String>)
    ensures
        string_opt_view(r) == string_opt_view(*o),
{
    match o {
        Some(s) => Some(s.clone()),
        None => None,
    }
}

/// One traced unit of work.
///
/// `trace_id` is the identifier of the root of the run's hierarchy, and
/// `dotted_order` its ordering key; both stay unset until the run's place in
/// a hierarchy is known. `outputs` and `end_time` are set together, once,
/// when the run ends.
pub struct Run {
    pub id: RunId,
    pub name: String,
    pub run_type: RunType,
    pub inputs: Json,
    pub outputs: Option<Json>,
    pub start_time: Timestamp,
    pub end_time: Option<Timestamp>,
    pub parent_run_id: Option<RunId>,
    pub trace_id: Option<RunId>,
    pub dotted_order: Option<String>,
    pub session_id: Option<String>,
    pub session_name: Option<String>,
    pub thread_id: Option<String>,
    pub error: Option<String>,
    pub tags: Vec<String>,
    pub extra: Vec<(String, Json)>,
    pub prompt_tokens: Option<u64>,
    pub completion_tokens: Option<u64>,
    pub total_tokens: Option<u64>,
}

impl Run {
    /// The metadata in `extra` has distinct keys, as in a map.
    pub open spec fn wf(&self) -> bool {
        unique_keys(entries_view(self.extra))
    }

    /// Binds `key` to `value` in the run's metadata (see `upsert`).
    pub fn insert_extra(&mut self, key: String, value: Json)
        ensures
            entries_view(final(self).extra) == upsert(entries_view(old(self).extra), key@, value@),
            old(self).wf() ==> final(self).wf(),
            *final(self) == (Run { extra: final(self).extra, ..*old(self) }),
    {
        upsert_entry(&mut self.extra, key, value);
    }

    /// A run with no place in a hierarchy yet, nothing ended and no metadata.
    pub open spec fn is_fresh(&self) -> bool {
        &&& self.outputs is None
        &&& self.end_time is None
        &&& self.parent_run_id is None
        &&& self.trace_id is None
        &&& self.dotted_order is None
        &&& self.session_id is None
        &&& self.session_name is None
        &&& self.thread_id is None
        &&& self.error is None
        &&& self.tags@.len() == 0
        &&& self.extra@.len() == 0
        &&& self.prompt_tokens is None
        &&& self.completion_tokens is None
        &&& self.total_tokens is None
    }

    /// A new run with a fresh identifier, started now.
    pub fn new(name: String, run_type: RunType, inputs: Json) -> (r: Run)
        ensures
            r.name@ == name@,
            r.run_type == run_type,
            r.inputs@ == inputs@,
            r.start_time.wf(),
            r.is_fresh(),
            r.wf(),
    {
        Run::with_identity(RunId::new_v4(), Timestamp::now(), name, run_type, inputs)
    }

    /// A new run with the given identifier and start instant.
    pub fn with_identity(id: RunId, start_time: Timestamp, name: String, run_type: RunType, inputs: Json) -> (r: Run)
        ensures
            r.id == id,
            r.start_time == start_time,
            r.name == name,
            r.run_type == run_type,
            r.inputs == inputs,
            r.is_fresh(),
            r.wf(),
    {
        let extra: Vec<(String, Json)> = Vec::new();
        assert(entries_view(extra) =~= Seq::<(Seq<char>, JsonView)>::empty());
        Run {
            id,
            name,
            run_type,
            inputs,
            outputs: None,
            start_time,
            end_time: None,
            parent_run_id: None,
            trace_id: None,
            dotted_order: None,
            session_id: None,
            session_name: None,
            thread_id: None,
            error: None,
            tags: Vec::new(),
            extra,
            prompt_tokens: None,
            completion_tokens: None,
            total_tokens: None,
        }
    }

    /// The ordering key of this run under a parent with key `parent_dotted_order`,
    /// or as a root when there is none.
    pub fn generate_dotted_order(&self, parent_dotted_order: Option<&str>) -> (r: String)
        ensures
            r@ == ordering_key(self.start_time, self.id, str_opt_view(parent_dotted_order)),
    {
        let mut s = String::new();
        if let Some(p) = parent_dotted_order {
            s.append(p);
            s.append(".");
        }
        let stamp = self.start_time.compact();
        s.append(stamp.as_str());
        s.append("Z");
        let id = self.id.to_text();
        s.append(id.as_str());
        proof {
            reveal_strlit(".");
            reveal_strlit("Z");
        }
        assert(s@ =~= ordering_key(self.start_time, self.id, str_opt_view(parent_dotted_order)));
        s
    }

    /// Records a failure message; nothing else changes.
    pub fn set_error(&mut self, error: &str)
        ensures
            final(self).error matches Some(e) && e@ == error@,
            *final(self) == (Run { error: final(self).error, ..*old(self) }),
    {
        self.error = Some(error.to_string());
    }

    /// Ends the run now with `outputs`. A run ends once: on a run that has
    /// already ended this fails with `AlreadyEnded` and changes nothing.
    pub fn end(&mut self, outputs: Json) -> (r: Result<(), LangSmithError>)
        ensures
            old(self).end_time is Some ==> r == Err::<(), LangSmithError>(LangSmithError::AlreadyEnded)
                && *final(self) == *old(self),
            old(self).end_time is None ==> {
                &&& r is Ok
                &&& final(self).outputs matches Some(o) && o@ == outputs@
                &&& final(self).end_time matches Some(t) && t.wf()
                &&& *final(self) == (Run {
                    outputs: final(self).outputs,
                    end_time: final(self).end_time,
                    ..*old(self)
                })
            },
    {
        if self.end_time.is_some() {
            return Err(LangSmithError::AlreadyEnded);
        }
        self.outputs = Some(outputs);
        self.end_time = Some(Timestamp::now());
        Ok(())
    }
}

/// `a` and `b` hold the same run: equal fields, payloads equal as JSON.
pub open spec fn same_run(a: Run, b: Run) -> bool {
    &&& a.id == b.id
    &&& a.name@ == b.name@
    &&& a.run_type == b.run_type
    &&& a.inputs@ == b.inputs@
    &&& json_opt_view(a.outputs) == json_opt_view(b.outputs)
    &&& a.start_time == b.start_time
    &&& a.end_time == b.end_time
    &&& a.parent_run_id == b.parent_run_id
    &&& a.trace_id == b.trace_id
    &&& string_opt_view(a.dotted_order) == string_opt_view(b.dotted_order)
    &&& string_opt_view(a.session_id) == string_opt_view(b.session_id)
    &&& string_opt_view(a.session_name) == string_opt_view(b.session_name)
    &&& string_opt_view(a.thread_id) == string_opt_view(b.thread_id)
    &&& string_opt_view(a.error) == string_opt_view(b.error)
    &&& a.tags@ == b.tags@
    &&& a.extra@.len() == b.extra@.len()
    &&& forall|i: int|
        0 <= i < a.extra@.len() ==> (#[trigger] a.extra@[i]).0@ == b.extra@[i].0@ && a.extra@[i].1@
            == b.extra@[i].1@
    &&& a.prompt_tokens == b.prompt_tokens
    &&& a.completion_tokens == b.completion_tokens
    &&& a.total_tokens == b.total_tokens
}

fn copy_opt_json(o: &Option<Json>) -> (r: Option<Json>)
    ensures
        json_opt_view(r) == json_opt_view(*o),
{
    match o {
        Some(j) => Some(j.clone()),
        None => None,
    }
}

impl Clone for Run {
    fn clone(&self) -> (r: Self)
        ensures
            same_run(r, *self),
    {
        let mut tags: Vec<String> = Vec::new();
        let mut i: usize = 0;
        while i < self.tags.len()
            invariant
                i <= self.tags@.len(),
                tags@ == self.tags@.subrange(0, i as int),
            decreases self.tags@.len() - i,
        {
            tags.push(self.tags[i].clone());
            i = i + 1;
            assert(tags@ =~= self.tags@.subrange(0, i as int));
        }
        assert(self.tags@.subrange(0, self.tags@.len() as int) =~= self.tags@);
        let mut extra: Vec<(String, Json)> = Vec::new();
        let mut j: usize = 0;
        while j < self.extra.len()
            invariant
                j <= self.extra@.len(),
                extra@.len() == j,
                forall|k: int|
                    0 <= k < j ==> (#[trigger] extra@[k]).0@ == self.extra@[k].0@ && extra@[k].1@
                        == self.extra@[k].1@,
            decreases self.extra@.len() - j,
        {
            extra.push((self.extra[j].0.clone(), self.extra[j].1.clone()));
            j = j + 1;
        }
        Run {
            id: self.id,
            name: self.name.clone(),
            run_type: self.run_type.clone(),
            inputs: self.inputs.clone(),
            outputs: copy_opt_json(&self.outputs),
            start_time: self.start_time,
            end_time: self.end_time,
            parent_run_id: self.parent_run_id,
            trace_id: self.trace_id,
            dotted_order: copy_opt_string(&self.dotted_order),
            session_id: copy_opt_string(&self.session_id),
            session_name: copy_opt_string(&self.session_name),
            thread_id: copy_opt_string(&self.thread_id),
            error: copy_opt_string(&self.error),
            tags,
            extra,
            prompt_tokens: self.prompt_tokens,
            completion_tokens: self.completion_tokens,
            total_tokens: self.total_tokens,
        }
    }
}

/// What the collector is told when a run ends.
pub struct RunUpdate {
    pub outputs: Option<Json>,
    pub end_time: Option<Timestamp>,
    pub error: Option<String>,
    pub prompt_tokens: Option<u64>,
    pub completion_tokens: Option<u64>,
    pub total_tokens: Option<u64>,
}

/// `u` carries the terminal part of `run`: its outputs, end time, error and
/// token counts.
pub open spec fn update_of(u: RunUpdate, run: Run) -> bool {
    &&& json_opt_view(u.outputs) == json_opt_view(run.outputs)
    &&& u.end_time == run.end_time
    &&& string_opt_view(u.error) == string_opt_view(run.error)
    &&& u.prompt_tokens == run.prompt_tokens
    &&& u.completion_tokens == run.completion_tokens
    &&& u.total_tokens == run.total_tokens
}

impl RunUpdate {
    /// The terminal part of a run: outputs, end time, error and token counts.
    pub fn from(run: &Run) -> (r: RunUpdate)
        ensures
            update_of(r, *run),
    {
        RunUpdate {
            outputs: copy_opt_json(&run.outputs),
            end_time: run.end_time,
            error: copy_opt_string(&run.error),
            prompt_tokens: run.prompt_tokens,
            completion_tokens: run.completion_tokens,
            total_tokens: run.total_tokens,
        }
    }
}

/// Token counts of a model call.
pub struct Metrics {
    pub prompt_tokens: Option<u64>,
    pub completion_tokens: Option<u64>,
    pub total_tokens: Option<u64>,
}

impl Metrics {
    /// No counts.
    pub fn new() -> (r: Metrics)
        ensures
            r.prompt_tokens is None,
            r.completion_tokens is None,
            r.total_tokens is None,
    {
        Metrics { prompt_tokens: None, completion_tokens: None, total_tokens: None }
    }

    /// These counts, with their sum as the total.
    pub fn with_tokens(self, prompt: u64, completion: u64) -> (r: Metrics)
        requires
            prompt + completion <= u64::MAX,
        ensures
            r.prompt_tokens == Some(prompt),
            r.completion_tokens == Some(completion),
            r.total_tokens == Some((prompt + completion) as u64),
    {
        let mut m = self;
        m.prompt_tokens = Some(prompt);
        m.completion_tokens = Some(completion);
        m.total_tokens = Some(prompt + completion);
        m
    }
}

/// Checks what a run must satisfy before it is sent: a name, and inputs that
/// form an object.
pub fn validate_run(run: &Run) -> (r: Result<(), LangSmithError>)
    ensures
        run.name@.len() == 0 ==> (r matches Err(LangSmithError::Config(m)) && m@
            == "Run name cannot be empty"@),
        run.name@.len() != 0 && !(run.inputs@ is Object) ==> (r matches Err(
            LangSmithError::Config(m),
        ) && m@ == "Run inputs must be an object"@),
        run.name@.len() != 0 && run.inputs@ is Object ==> r is Ok,
{
    if run.name.as_str().is_empty() {
        return Err(LangSmithError::Config("Run name cannot be empty".to_string()));
    }
    if !run.inputs.is_object() {
        return Err(LangSmithError::Config("Run inputs must be an object".to_string()));
    }
    Ok(())
}

} // verus!
