use std::cell::RefCell;

use langsmith_rust::error::LangSmithError;
use langsmith_rust::graph::{llm_inputs, tool_run_name, GraphTrace};
use langsmith_rust::json::Json;
use langsmith_rust::observer::LangSmithObserver;
use langsmith_rust::ids::RunId;
use langsmith_rust::run::{Run, RunType, RunUpdate};
use langsmith_rust::scope::RunScope;
use langsmith_rust::strategies::{TracingStrategy, Transport};

/// Records the name and phase of every run it is handed.
struct Recorder {
    seen: RefCell<Vec<String>>,
    names: RefCell<Vec<(RunId, String)>>,
}

impl Recorder {
    fn new() -> Recorder {
        Recorder { seen: RefCell::new(Vec::new()), names: RefCell::new(Vec::new()) }
    }
}

impl TracingStrategy for Recorder {
    fn trace_start(&mut self, run: &Run) -> Result<(), LangSmithError> {
        self.names.borrow_mut().push((run.id, run.name.clone()));
        self.seen.borrow_mut().push(format!("start {}", run.name));
        Ok(())
    }

    fn trace_end(&mut self, run_id: RunId, _update: &RunUpdate) -> Result<(), LangSmithError> {
        let name = self.names.borrow().iter().find(|(id, _)| *id == run_id).map(|(_, n)| n.clone()).unwrap_or_default();
        self.seen.borrow_mut().push(format!("end {}", name));
        Ok(())
    }

    fn trace_error(&mut self, run: &Run, _error: &str) -> Result<(), LangSmithError> {
        self.seen.borrow_mut().push(format!("error {}", run.name));
        Ok(())
    }
}

fn obj(entries: Vec<(&str, Json)>) -> Json {
    Json::Object(entries.into_iter().map(|(k, v)| (k.to_string(), v)).collect())
}

#[test]
fn graph_trace_sends_each_phase() {
    let mut rec = Transport::new(Recorder::new());
    let graph = GraphTrace::start_root(&mut rec, Json::empty_object(), Some("t".to_string())).unwrap();
    assert_eq!(graph.root_tracer().name(), "Graph");
    assert_eq!(graph.root_tracer().thread_id(), Some(&"t".to_string()));
    let step = graph.start_node_iteration(&mut rec, "chatbot", Json::empty_object()).unwrap();
    assert_eq!(step.tracer().parent_run_id(), Some(graph.root_tracer().run_id()));
    let llm = graph.trace_llm_call(&mut rec, &step, "ChatOpenAI", Json::empty_object(), Json::empty_object(), Some("gpt")).unwrap();
    assert_eq!(llm.inputs.get("model"), Some(&Json::text("gpt")));
    assert_eq!(llm.parent_run_id, Some(step.tracer().run_id()));
    let tool = graph.trace_tool_call(&mut rec, &step, "calculator", Json::empty_object(), Json::Null).unwrap();
    assert_eq!(tool.name, "tool/calculator");
    assert_eq!(tool.outputs, Some(obj(vec![("output", Json::Null)])));
    let decision = graph.trace_decision(&mut rec, &step, "should_continue", Json::empty_object(), Json::text("end")).unwrap();
    assert_eq!(decision.run_type, RunType::Chain);
    let root = graph.end_root(&mut rec, Json::empty_object()).unwrap();
    assert!(root.end_time.is_some());
    assert_eq!(
        rec.strategy.seen.borrow().clone(),
        vec![
            "start Graph", "start chatbot", "start ChatOpenAI", "end ChatOpenAI", "start tool/calculator",
            "end tool/calculator", "start should_continue", "end should_continue", "end Graph",
        ]
    );
}

#[test]
fn scope_posts_once() {
    let mut rec = Transport::new(Recorder::new());
    let mut scope = RunScope::root("Root", RunType::Chain, Json::Number("1".to_string()));
    assert_eq!(scope.tracer().run.inputs, obj(vec![("input", Json::Number("1".to_string()))]));
    assert_eq!(scope.post_start(&mut rec), Ok(()));
    assert_eq!(scope.post_start(&mut rec), Ok(()));
    assert_eq!(rec.strategy.seen.borrow().len(), 1);
    assert_eq!(scope.tracer().trace_id(), Some(scope.tracer().run_id()));
    let child = scope.child("Step", RunType::Tool, Json::Bool(true));
    assert_eq!(child.tracer().run.inputs, obj(vec![("input", Json::Bool(true))]));
    let failed = child.end_error(&mut rec, "bad", None).unwrap();
    assert_eq!(failed.error, Some("bad".to_string()));
    assert_eq!(failed.outputs, Some(Json::empty_object()));
    let ended = scope.end_ok(&mut rec, Json::text("ok")).unwrap();
    assert_eq!(ended.outputs, Some(obj(vec![("output", Json::text("ok"))])));
    assert!(ended.end_time.is_some());
    assert_eq!(rec.strategy.seen.borrow().len(), 3);
}

#[test]
fn model_name_is_added_to_object_inputs() {
    let with = llm_inputs(obj(vec![("messages", Json::Array(Vec::new()))]), Some("gpt-4o-mini"));
    assert_eq!(with, obj(vec![("messages", Json::Array(Vec::new())), ("model", Json::text("gpt-4o-mini"))]));
    assert_eq!(llm_inputs(Json::Null, Some("m")), Json::Null);
    assert_eq!(llm_inputs(Json::empty_object(), None), Json::empty_object());
    assert_eq!(tool_run_name("calculator"), "tool/calculator");
}

#[test]
fn observer_messages() {
    let o = LangSmithObserver::new();
    assert_eq!(o.start_message("n"), "LangSmithObserver: Node 'n' started");
    assert_eq!(o.end_message("n"), "LangSmithObserver: Node 'n' completed");
    assert_eq!(o.error_message("n", "e"), "LangSmithObserver: Node 'n' error: e");
}

#[test]
fn ending_an_ended_scope_is_refused() {
    let mut rec = Transport::new(Recorder::new());
    let mut scope = RunScope::root_value("Root", RunType::Chain, Json::empty_object());
    let _ = scope.tracer_mut().end(Json::Null);
    assert_eq!(scope.end_ok(&mut rec, Json::Null).err(), Some(LangSmithError::AlreadyEnded));
    let mut other = RunScope::root_value("Root", RunType::Chain, Json::empty_object());
    let _ = other.tracer_mut().end(Json::Null);
    assert_eq!(other.end_error(&mut rec, "x", Some(Json::Null)).err(), Some(LangSmithError::AlreadyEnded));
    assert!(rec.strategy.seen.borrow().is_empty());
}

/// A strategy that cannot reach a collector at all.
struct Unconfigured {
    tries: u32,
}

impl TracingStrategy for Unconfigured {
    fn trace_start(&mut self, _run: &Run) -> Result<(), LangSmithError> {
        self.tries += 1;
        Err(LangSmithError::Config("LANGSMITH_API_KEY not set".to_string()))
    }

    fn trace_end(&mut self, _run_id: RunId, _update: &RunUpdate) -> Result<(), LangSmithError> {
        Ok(())
    }

    fn trace_error(&mut self, _run: &Run, _error: &str) -> Result<(), LangSmithError> {
        Ok(())
    }
}

#[test]
fn start_is_retried_after_a_configuration_failure() {
    let mut broken = Transport::new(Unconfigured { tries: 0 });
    let mut scope = RunScope::root_value("Root", RunType::Chain, Json::empty_object());
    assert!(matches!(scope.post_start(&mut broken), Err(LangSmithError::Config(_))));
    assert!(!scope.posted);
    assert!(scope.post_start(&mut broken).is_err());
    assert_eq!(broken.strategy.tries, 2);
    let mut rec = Transport::new(Recorder::new());
    assert_eq!(scope.post_start(&mut rec), Ok(()));
    assert!(scope.posted);
}
