use slidershim::orchestrator::Orchestrator;

#[test]
fn startup_installs_default_configuration() {
    let o = Orchestrator::startup();
    assert_eq!(o.get_current_configuration_text(), "{}");
}

#[test]
fn startup_builds_engine_from_default_configuration() {
    let o = Orchestrator::startup();
    assert_eq!(o.engine_source_text(), "{}");
}

#[test]
fn repeated_reads_return_identical_text() {
    let o = Orchestrator::startup();
    let first = o.get_current_configuration_text();
    let second = o.get_current_configuration_text();
    assert_eq!(first, second);
}

#[test]
fn replace_with_valid_text_succeeds() {
    let mut o = Orchestrator::startup();
    let ok = o.replace_configuration("{\"led\":\"rainbow\"}");
    assert!(ok);
    assert_eq!(o.get_current_configuration_text(), "{\"led\":\"rainbow\"}");
}

#[test]
fn replace_rebuilds_engine_from_new_snapshot() {
    let mut o = Orchestrator::startup();
    assert!(o.replace_configuration("{\"led\":\"rainbow\"}"));
    assert_eq!(o.engine_source_text(), "{\"led\":\"rainbow\"}");
}

#[test]
fn successive_replacements_keep_latest_text() {
    let mut o = Orchestrator::startup();
    assert!(o.replace_configuration("{\"a\":1}"));
    assert!(o.replace_configuration("{\"b\":2}"));
    assert_eq!(o.get_current_configuration_text(), "{\"b\":2}");
    assert_eq!(o.engine_source_text(), "{\"b\":2}");
}

#[test]
fn replace_with_invalid_text_is_a_no_op() {
    let mut o = Orchestrator::startup();
    assert!(o.replace_configuration("{\"a\":1}"));
    let ok = o.replace_configuration("garbage");
    assert!(!ok);
    assert_eq!(o.get_current_configuration_text(), "{\"a\":1}");
    assert_eq!(o.engine_source_text(), "{\"a\":1}");
}
