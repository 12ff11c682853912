use langsmith_rust::run::RunType;

#[test]
fn test_module_compiles() {
    assert!(true);
    assert_eq!(RunType::Chain.as_str(), "chain");
}
