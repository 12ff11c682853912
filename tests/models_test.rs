use langsmith_rust::error::LangSmithError;
use langsmith_rust::ids::RunId;
use langsmith_rust::json::Json;
use langsmith_rust::run::{validate_run, Metrics, Run, RunType, RunUpdate};
use langsmith_rust::time::Timestamp;

fn obj(entries: Vec<(&str, Json)>) -> Json {
    Json::Object(entries.into_iter().map(|(k, v)| (k.to_string(), v)).collect())
}

fn stamp(year: u32, month: u32, day: u32, hour: u32, minute: u32, second: u32, micros: u32) -> Timestamp {
    Timestamp { year, month, day, hour, minute, second, micros }
}

#[test]
fn test_run_creation() {
    let run = Run::new("Test Run".to_string(), RunType::Chain, obj(vec![("input", Json::text("test"))]));

    assert_eq!(run.name, "Test Run");
    assert_eq!(run.run_type, RunType::Chain);
    assert_eq!(run.inputs, obj(vec![("input", Json::text("test"))]));
    assert!(run.outputs.is_none());
    assert!(run.trace_id.is_none());
}

#[test]
fn test_run_type_as_str() {
    assert_eq!(RunType::Chain.as_str(), "chain");
    assert_eq!(RunType::Llm.as_str(), "llm");
    assert_eq!(RunType::Tool.as_str(), "tool");
    assert_eq!(RunType::Custom("custom_type".to_string()).as_str(), "custom_type");
}

#[test]
fn run_type_names_of_the_other_kinds() {
    assert_eq!(RunType::Retriever.as_str(), "retriever");
    assert_eq!(RunType::Embedding.as_str(), "embedding");
    assert_eq!(RunType::Prompt.as_str(), "prompt");
    assert_eq!(RunType::Runnable.as_str(), "runnable");
}

#[test]
fn test_run_generate_dotted_order() {
    let run = Run::new("Test".to_string(), RunType::Chain, Json::empty_object());
    let dotted_order = run.generate_dotted_order(None);

    assert!(dotted_order.contains('Z'));
    assert!(dotted_order.len() > 20);
}

#[test]
fn test_run_generate_dotted_order_with_parent() {
    let parent = Run::new("Parent".to_string(), RunType::Chain, Json::empty_object());
    let parent_dotted = parent.generate_dotted_order(None);

    let child = Run::new("Child".to_string(), RunType::Llm, Json::empty_object());
    let child_dotted = child.generate_dotted_order(Some(&parent_dotted));

    assert!(child_dotted.starts_with(&parent_dotted));
    assert!(child_dotted.contains('.'));
}

#[test]
fn dotted_order_exact_text() {
    let id = RunId { value: 0x0e01bf50_474d_4536_810f_67d3ee7ea3e7 };
    let run = Run::with_identity(id, stamp(2024, 9, 19, 17, 16, 48, 521691), "Test".to_string(), RunType::Chain, Json::empty_object());
    assert_eq!(
        run.generate_dotted_order(None),
        "20240919T171648521691Z0e01bf50-474d-4536-810f-67d3ee7ea3e7"
    );
    assert_eq!(
        run.generate_dotted_order(Some("P")),
        "P.20240919T171648521691Z0e01bf50-474d-4536-810f-67d3ee7ea3e7"
    );
}

#[test]
fn dotted_order_pads_small_fields() {
    let run = Run::with_identity(RunId { value: 1 }, stamp(7, 1, 2, 3, 4, 5, 6), "T".to_string(), RunType::Tool, Json::Null);
    assert_eq!(
        run.generate_dotted_order(None),
        "00070102T030405000006Z00000000-0000-0000-0000-000000000001"
    );
}

#[test]
fn dotted_order_signs_five_digit_years() {
    let run = Run::with_identity(RunId { value: 0 }, stamp(12345, 12, 31, 23, 59, 59, 999999), "T".to_string(), RunType::Tool, Json::Null);
    assert_eq!(
        run.generate_dotted_order(None),
        "+123451231T235959999999Z00000000-0000-0000-0000-000000000000"
    );
}

#[test]
fn test_run_set_error() {
    let mut run = Run::new("Test".to_string(), RunType::Chain, Json::empty_object());
    run.set_error("Test error");

    assert_eq!(run.error, Some("Test error".to_string()));
}

#[test]
fn test_run_end() {
    let mut run = Run::new("Test".to_string(), RunType::Chain, Json::empty_object());
    let _ = run.end(obj(vec![("result", Json::text("success"))]));

    assert!(run.outputs.is_some());
    assert!(run.end_time.is_some());
}

#[test]
fn ending_twice_is_refused() {
    let mut run = Run::new("Test".to_string(), RunType::Chain, Json::empty_object());
    assert_eq!(run.end(Json::text("first")), Ok(()));
    assert_eq!(run.end(Json::text("second")), Err(LangSmithError::AlreadyEnded));
    assert_eq!(run.outputs, Some(Json::text("first")));
}

#[test]
fn test_run_update_from_run() {
    let mut run = Run::new("Test".to_string(), RunType::Chain, Json::empty_object());
    let _ = run.end(obj(vec![("result", Json::text("success"))]));
    run.set_error("Error");

    let update = RunUpdate::from(&run);

    assert!(update.outputs.is_some());
    assert!(update.end_time.is_some());
    assert_eq!(update.error, Some("Error".to_string()));
    assert_eq!(update.outputs, Some(obj(vec![("result", Json::text("success"))])));
}

#[test]
fn validate_run_reports_each_problem() {
    let empty_name = Run::new(String::new(), RunType::Chain, Json::empty_object());
    assert_eq!(
        validate_run(&empty_name),
        Err(LangSmithError::Config("Run name cannot be empty".to_string()))
    );
    let bare_inputs = Run::new("n".to_string(), RunType::Chain, Json::Number("5".to_string()));
    assert_eq!(
        validate_run(&bare_inputs),
        Err(LangSmithError::Config("Run inputs must be an object".to_string()))
    );
    let fine = Run::new("n".to_string(), RunType::Chain, Json::empty_object());
    assert_eq!(validate_run(&fine), Ok(()));
}

#[test]
fn metrics_total_is_the_sum() {
    let m = Metrics::new().with_tokens(3, 4);
    assert_eq!(m.prompt_tokens, Some(3));
    assert_eq!(m.completion_tokens, Some(4));
    assert_eq!(m.total_tokens, Some(7));
    let empty = Metrics::new();
    assert_eq!(empty.total_tokens, None);
}

#[test]
fn error_messages() {
    assert_eq!(LangSmithError::Other("boom".to_string()).message(), "Other error: boom");
    assert_eq!(LangSmithError::Config("x".to_string()).message(), "Configuration error: x");
    assert_eq!(LangSmithError::TracingDisabled.message(), "Tracing is disabled");
    assert_eq!(LangSmithError::AlreadyEnded.message(), "Run has already ended");
}

#[test]
fn run_ids_render_in_canonical_form() {
    let id = RunId { value: 0x0e01bf50_474d_4536_810f_67d3ee7ea3e7 };
    assert_eq!(id.to_text(), "0e01bf50-474d-4536-810f-67d3ee7ea3e7");
    let a = RunId::new_v4();
    let b = RunId::new_v4();
    assert_ne!(a, b);
    assert_eq!(a.to_text().len(), 36);
}

#[test]
fn clock_gives_calendar_fields() {
    let now = Timestamp::now();
    assert!(now.year >= 2000);
    assert!((1..=12).contains(&now.month));
    assert!((1..=31).contains(&now.day));
    assert!(now.micros < 1_000_000);
    assert_eq!(now.compact().len(), 21);
}
