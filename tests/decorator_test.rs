use std::cell::Cell;

use langsmith_rust::decorator::{finish_err, finish_ok, settle, start_trace, trace_node_sync, WorkOutcome};
use langsmith_rust::error::LangSmithError;
use langsmith_rust::json::Json;
use langsmith_rust::ids::RunId;
use langsmith_rust::run::{Run, RunType, RunUpdate};
use langsmith_rust::strategies::{TracingStrategy, Transport};

/// Counts the calls it receives and answers each with a fixed outcome.
struct Counting {
    calls: Cell<u32>,
    fail: bool,
}

impl Counting {
    fn new(fail: bool) -> Counting {
        Counting { calls: Cell::new(0), fail }
    }

    fn answer(&self) -> Result<(), LangSmithError> {
        self.calls.set(self.calls.get() + 1);
        if self.fail {
            Err(LangSmithError::Http("unreachable collector".to_string()))
        } else {
            Ok(())
        }
    }
}

impl TracingStrategy for Counting {
    fn trace_start(&mut self, _run: &Run) -> Result<(), LangSmithError> {
        self.answer()
    }

    fn trace_end(&mut self, _run_id: RunId, _update: &RunUpdate) -> Result<(), LangSmithError> {
        self.answer()
    }

    fn trace_error(&mut self, _run: &Run, _error: &str) -> Result<(), LangSmithError> {
        self.answer()
    }
}

fn number(n: &i32) -> Result<Json, LangSmithError> {
    Ok(Json::Number(n.to_string()))
}

fn test_function(input: i32) -> Result<i32, LangSmithError> {
    Ok(input * 2)
}

fn test_function_error(_input: i32) -> Result<i32, LangSmithError> {
    Err(LangSmithError::Other("Test error".to_string()))
}

#[test]
fn test_trace_node_success() {
    let mut strategy = Transport::new(Counting::new(false));
    let (result, _) = trace_node_sync(&mut strategy, false, "test_node", RunType::Runnable, None, 5, number, number, test_function);

    assert!(result.is_ok());
    assert_eq!(result.unwrap(), 10);
}

#[test]
fn test_trace_node_error() {
    let mut strategy = Transport::new(Counting::new(false));
    let (result, _) = trace_node_sync(&mut strategy, false, "test_node", RunType::Runnable, None, 5, number, number, test_function_error);

    assert!(result.is_err());
}

#[test]
fn test_trace_node_sync() {
    fn sync_function(input: i32) -> Result<i32, LangSmithError> {
        Ok(input * 3)
    }

    let mut strategy = Transport::new(Counting::new(false));
    let (result, _) = trace_node_sync(&mut strategy, false, "sync_node", RunType::Runnable, None, 4, number, number, sync_function);

    assert!(result.is_ok());
    assert_eq!(result.unwrap(), 12);
}

#[test]
fn disabled_tracing_makes_no_transport_call() {
    let mut strategy = Transport::new(Counting::new(false));
    let (result, _) = trace_node_sync(&mut strategy, false, "test_node", RunType::Runnable, None, 5, number, number, test_function);
    assert_eq!(result, Ok(10));
    assert_eq!(strategy.strategy.calls.get(), 0);
    assert!(start_trace(false, "n", RunType::Chain, Json::Null, None).is_none());
}

#[test]
fn enabled_tracing_starts_and_ends_once() {
    let mut strategy = Transport::new(Counting::new(false));
    let (result, _) = trace_node_sync(&mut strategy, true, "test_node", RunType::Runnable, None, 5, number, number, test_function);
    assert_eq!(result, Ok(10));
    assert_eq!(strategy.strategy.calls.get(), 2);
}

#[test]
fn failure_is_returned_unchanged_whatever_the_transport_does() {
    fn boom(_input: i32) -> Result<i32, LangSmithError> {
        Err(LangSmithError::Other("boom".to_string()))
    }
    for fail in [false, true] {
        let mut strategy = Transport::new(Counting::new(fail));
        let (result, _) = trace_node_sync(&mut strategy, true, "test_node", RunType::Runnable, None, 5, number, number, boom);
        assert_eq!(result, Err(LangSmithError::Other("boom".to_string())));
        assert_eq!(strategy.strategy.calls.get(), 2);
    }
    let mut quiet = Transport::new(Counting::new(false));
    let (disabled, _) = trace_node_sync(&mut quiet, false, "test_node", RunType::Runnable, None, 5, number, number, boom);
    assert_eq!(disabled, Err(LangSmithError::Other("boom".to_string())));
}

#[test]
fn transport_failure_does_not_reach_the_caller() {
    let mut strategy = Transport::new(Counting::new(true));
    let (result, _) = trace_node_sync(&mut strategy, true, "test_node", RunType::Runnable, None, 5, number, number, test_function);
    assert_eq!(result, Ok(10));
}

#[test]
fn input_serialization_failure_skips_the_work() {
    fn refuse(_n: &i32) -> Result<Json, LangSmithError> {
        Err(LangSmithError::Serialization("not representable".to_string()))
    }
    let ran = Cell::new(false);
    let mut strategy = Transport::new(Counting::new(false));
    let (result, _) = trace_node_sync(&mut strategy, true, "test_node", RunType::Runnable, None, 5, refuse, number, |x: i32| {
        ran.set(true);
        Ok(x)
    });
    assert_eq!(result, Err(LangSmithError::Serialization("not representable".to_string())));
    assert!(!ran.get());
    assert_eq!(strategy.strategy.calls.get(), 0);
}

#[test]
fn finishing_records_outputs_or_error() {
    let mut t = start_trace(true, "n", RunType::Chain, Json::Number("5".to_string()), Some("proj".to_string())).unwrap();
    assert_eq!(t.run.session_name, Some("proj".to_string()));
    assert_eq!(t.run.inputs.get("input"), Some(&Json::Number("5".to_string())));
    assert_eq!(finish_ok(&mut t, Json::Bool(true)), Ok(()));
    assert_eq!(t.run.outputs.as_ref().and_then(|o| o.get("output")), Some(&Json::Bool(true)));
    assert_eq!(finish_ok(&mut t, Json::Null), Err(LangSmithError::AlreadyEnded));
    finish_err(&mut t, "boom");
    assert_eq!(t.run.error, Some("boom".to_string()));
}

#[test]
fn traced_run_carries_inputs_outputs_and_session() {
    let mut strategy = Transport::new(Counting::new(false));
    let (result, run) = trace_node_sync(
        &mut strategy,
        true,
        "test_node",
        RunType::Runnable,
        Some("proj".to_string()),
        5,
        number,
        number,
        test_function,
    );
    assert_eq!(result, Ok(10));
    let run = run.unwrap();
    assert_eq!(run.name, "test_node");
    assert_eq!(run.session_name, Some("proj".to_string()));
    assert_eq!(run.trace_id, Some(run.id));
    assert_eq!(run.inputs.get("input"), Some(&Json::Number("5".to_string())));
    assert_eq!(run.outputs.as_ref().and_then(|o| o.get("output")), Some(&Json::Number("10".to_string())));
    assert!(run.end_time.is_some());
    assert_eq!(run.error, None);
}

#[test]
fn traced_failure_records_its_message() {
    let mut strategy = Transport::new(Counting::new(false));
    let (result, run) = trace_node_sync(&mut strategy, true, "n", RunType::Tool, None, 5, number, number, test_function_error);
    assert_eq!(result, Err(LangSmithError::Other("Test error".to_string())));
    let run = run.unwrap();
    assert_eq!(run.error, Some("Other error: Test error".to_string()));
    assert!(run.outputs.is_none());
    assert!(run.end_time.is_none());
}

#[test]
fn output_serialization_failure_is_returned_without_an_end() {
    fn refuse(_n: &i32) -> Result<Json, LangSmithError> {
        Err(LangSmithError::Serialization("no output".to_string()))
    }
    let mut strategy = Transport::new(Counting::new(false));
    let (result, run) = trace_node_sync(&mut strategy, true, "n", RunType::Tool, None, 5, number, refuse, test_function);
    assert_eq!(result, Err(LangSmithError::Serialization("no output".to_string())));
    assert!(run.unwrap().end_time.is_none());
    assert_eq!(strategy.strategy.calls.get(), 1);
}

#[test]
fn settle_decides_what_the_caller_gets() {
    let mut t = start_trace(true, "n", RunType::Chain, Json::Null, None).unwrap();
    let (r, send) = settle::<i32, String>(&mut t, WorkOutcome::OutputUnserializable("bad".to_string()));
    assert_eq!(r, Err("bad".to_string()));
    assert!(!send);
    assert!(t.run.end_time.is_none());
    let (r, send) = settle::<i32, String>(&mut t, WorkOutcome::Failed("e".to_string(), "failed: e".to_string()));
    assert_eq!(r, Err("e".to_string()));
    assert!(send);
    assert_eq!(t.run.error, Some("failed: e".to_string()));
    let (r, send) = settle::<i32, String>(&mut t, WorkOutcome::Succeeded(7, Json::Number("7".to_string())));
    assert_eq!(r, Ok(7));
    assert!(send);
    assert_eq!(t.run.outputs.as_ref().and_then(|o| o.get("output")), Some(&Json::Number("7".to_string())));
}
