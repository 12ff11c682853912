use langsmith_rust::json::{ensure_inputs_object, ensure_object, ensure_outputs_object, Json};
use langsmith_rust::run::{Run, RunType};
use langsmith_rust::strategies::{AsyncTracingStrategy, DefaultSerializationStrategy, SyncTracingStrategy};

fn obj(entries: Vec<(&str, Json)>) -> Json {
    Json::Object(entries.into_iter().map(|(k, v)| (k.to_string(), v)).collect())
}

#[test]
fn test_serialization_strategy_wraps_primitive() {
    let strategy = DefaultSerializationStrategy::new();

    let input_value = strategy.serialize_inputs(Json::text("test"));
    assert!(input_value.is_object());
    assert_eq!(input_value.get("input"), Some(&Json::text("test")));

    let output_value = strategy.serialize_outputs(Json::Number("42".to_string()));
    assert!(output_value.is_object());
    assert_eq!(output_value.get("output"), Some(&Json::Number("42".to_string())));
}

#[test]
fn test_serialization_strategy_preserves_object() {
    let strategy = DefaultSerializationStrategy::new();

    let input_obj = obj(vec![("key", Json::text("value"))]);
    let result = strategy.serialize_inputs(input_obj.clone());

    assert_eq!(result, input_obj);
}

#[test]
fn test_serialization_strategy_custom_keys() {
    let strategy = DefaultSerializationStrategy::with_keys("data".to_string(), "result".to_string());

    let input_value = strategy.serialize_inputs(Json::text("test"));
    assert_eq!(input_value.get("data"), Some(&Json::text("test")));

    let output_value = strategy.serialize_outputs(Json::text("result"));
    assert_eq!(output_value.get("result"), Some(&Json::text("result")));
}

#[test]
fn bare_integer_is_wrapped_under_input() {
    let wrapped = ensure_inputs_object(Json::Number("5".to_string()));
    assert_eq!(wrapped, obj(vec![("input", Json::Number("5".to_string()))]));
    let again = ensure_inputs_object(wrapped.clone());
    assert_eq!(again, wrapped);
}

#[test]
fn object_input_is_returned_unchanged() {
    let o = obj(vec![("a", Json::Bool(true)), ("b", Json::Array(vec![Json::Null]))]);
    assert_eq!(ensure_inputs_object(o.clone()), o);
    assert_eq!(ensure_outputs_object(o.clone()), o);
}

#[test]
fn arrays_and_null_are_wrapped_too() {
    let arr = Json::Array(vec![Json::Number("1".to_string())]);
    assert_eq!(ensure_outputs_object(arr.clone()), obj(vec![("output", arr)]));
    assert_eq!(ensure_object(Json::Null, "k"), obj(vec![("k", Json::Null)]));
}

#[test]
fn object_insert_replaces_or_appends() {
    let mut o = obj(vec![("a", Json::Null), ("b", Json::Null)]);
    o.insert("a".to_string(), Json::text("x"));
    assert_eq!(o, obj(vec![("a", Json::text("x")), ("b", Json::Null)]));
    o.insert("c".to_string(), Json::Bool(false));
    assert_eq!(o, obj(vec![("a", Json::text("x")), ("b", Json::Null), ("c", Json::Bool(false))]));
    let mut s = Json::text("bare");
    s.insert("a".to_string(), Json::Null);
    assert_eq!(s, Json::text("bare"));
}

#[test]
fn deep_clone_is_equal() {
    let o = obj(vec![("nested", obj(vec![("list", Json::Array(vec![Json::text("x"), Json::Number("2.5".to_string())]))]))]);
    assert_eq!(o.clone(), o);
}

#[test]
fn strategies_build_updates() {
    let mut run = Run::new("r".to_string(), RunType::Chain, Json::empty_object());
    let _ = run.end(Json::text("done"));
    let a = AsyncTracingStrategy::new();
    let s = SyncTracingStrategy::new();
    let end = a.end_update(&run);
    assert_eq!(end.outputs, Some(Json::text("done")));
    assert_eq!(end.error, None);
    let err = s.error_update(&run, "bad");
    assert_eq!(err.error, Some("bad".to_string()));
    assert_eq!(err.end_time, run.end_time);
    assert_eq!(s.end_update(&run).outputs, Some(Json::text("done")));
    assert_eq!(a.error_update(&run, "worse").error, Some("worse".to_string()));
}
