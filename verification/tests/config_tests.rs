use slidershim::config::Config;

#[test]
fn default_config_is_empty_object() {
    let c: Config = Default::default();
    assert_eq!(c.to_text(), "{}");
}

#[test]
fn parse_accepts_empty_object() {
    let c = Config::parse("{}");
    assert!(c.is_some());
    assert_eq!(c.unwrap().to_text(), "{}");
}

#[test]
fn parse_accepts_nested_object() {
    let text = "{\"device\":{\"mode\":\"tasoller\"},\"polling\":60}";
    let c = Config::parse(text);
    assert!(c.is_some());
    assert_eq!(c.unwrap().to_text(), text);
}

#[test]
fn parse_keeps_text_canonical() {
    let text = "{\"a\":1}";
    let c = Config::parse(text).unwrap();
    assert_eq!(c.to_text(), text);
}

#[test]
fn parse_rejects_empty_text() {
    assert!(Config::parse("").is_none());
}

#[test]
fn parse_rejects_garbage() {
    assert!(Config::parse("garbage").is_none());
}

#[test]
fn parse_rejects_unclosed_object() {
    assert!(Config::parse("{").is_none());
    assert!(Config::parse("{\"a\":1").is_none());
    assert!(Config::parse("{{}").is_none());
}

#[test]
fn parse_rejects_trailing_close() {
    assert!(Config::parse("{}}").is_none());
    assert!(Config::parse("}{").is_none());
}

#[test]
fn parse_rejects_two_adjacent_objects() {
    assert!(Config::parse("{}{}").is_none());
}

#[test]
fn clone_preserves_text() {
    let c = Config::parse("{\"a\":1}").unwrap();
    let d = c.clone();
    assert_eq!(c.to_text(), d.to_text());
}
