use langsmith_rust::config::{parse_flag, Config};
use langsmith_rust::error::LangSmithError;

fn some(s: &str) -> Option<String> {
    Some(s.to_string())
}

#[test]
fn config_from_values() {
    let config = Config::from_values(
        some("true"),
        some("https://test.api.smith.langchain.com"),
        some("test-api-key"),
        some("test-project"),
        None,
    )
    .unwrap();
    assert!(config.tracing_enabled);
    assert_eq!(config.endpoint, "https://test.api.smith.langchain.com");
    assert_eq!(config.api_key, "test-api-key");
    assert_eq!(config.project, Some("test-project".to_string()));
    assert_eq!(config.tenant_id, None);
}

#[test]
fn config_value_defaults() {
    let config = Config::from_values(None, None, some("test-key"), None, None).unwrap();
    assert!(!config.tracing_enabled);
    assert_eq!(config.endpoint, "https://api.smith.langchain.com");
}

#[test]
fn config_requires_api_key() {
    let err = Config::from_values(some("true"), None, None, None, None).err().unwrap();
    assert_eq!(err, LangSmithError::Config("LANGSMITH_API_KEY not set".to_string()));
    assert!(err.message().contains("LANGSMITH_API_KEY"));
}

#[test]
fn tracing_flag_ignores_case() {
    let on = Config::from_values(some("TRUE"), None, some("k"), None, None).unwrap();
    assert!(on.tracing_enabled);
    let off = Config::from_values(some("yes"), None, some("k"), None, None).unwrap();
    assert!(!off.tracing_enabled);
    assert!(parse_flag("true"));
    assert!(!parse_flag("True"));
    assert!(!parse_flag("false"));
}

#[test]
fn tracing_is_off_without_config() {
    let loaded = Config::from_values(some("true"), None, some("k"), None, None);
    assert!(Config::is_tracing_enabled(&loaded));
    let missing = Config::from_values(some("true"), None, None, None, None);
    assert!(!Config::is_tracing_enabled(&missing));
}
