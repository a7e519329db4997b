use srvcs_harmonicmean::config::Config;

fn some(text: &str) -> Option<String> {
    Some(text.to_string())
}

fn with_bind(bind: &str) -> Config {
    Config::from_vars(some(bind), None, None, None, None, None)
}

#[test]
fn defaults_are_sane() {
    let c = Config::from_vars(None, None, None, None, None, None);
    assert_eq!(c.bind_port(), Some(8080));
    assert_eq!(c.reciprocal_url, "http://127.0.0.1:8090");
    assert_eq!(c.floatadd_url, "http://127.0.0.1:8091");
    assert_eq!(c.floatdivide_url, "http://127.0.0.1:8092");
}

#[test]
fn parses_explicit_bind_addr() {
    let c = Config::from_vars(Some("127.0.0.1:9000".into()), None, None, None, None, None);
    assert_eq!(c.bind_port(), Some(9000));
}

#[test]
fn remaining_defaults() {
    let c = Config::from_vars(None, None, None, None, None, None);
    assert_eq!(c.bind_addr, "0.0.0.0:8080");
    assert_eq!(c.log_level, "info,tower_http=info");
    assert_eq!(c.environment, "development");
}

#[test]
fn given_values_win() {
    let c = Config::from_vars(
        some("[::1]:7000"),
        some("debug"),
        some("production"),
        some("http://r:1"),
        some("http://a:2"),
        some("http://d:3"),
    );
    assert_eq!(c.bind_addr, "[::1]:7000");
    assert_eq!(c.log_level, "debug");
    assert_eq!(c.environment, "production");
    assert_eq!(c.reciprocal_url, "http://r:1");
    assert_eq!(c.floatadd_url, "http://a:2");
    assert_eq!(c.floatdivide_url, "http://d:3");
    assert_eq!(c.bind_port(), Some(7000));
}

#[test]
fn bind_port_edge_cases() {
    assert_eq!(with_bind("localhost").bind_port(), None);
    assert_eq!(with_bind("host:").bind_port(), None);
    assert_eq!(with_bind("host:8a").bind_port(), None);
    assert_eq!(with_bind("host:65535").bind_port(), Some(65535));
    assert_eq!(with_bind("host:65536").bind_port(), None);
    assert_eq!(with_bind("host:99999999999").bind_port(), None);
    assert_eq!(with_bind("host:080").bind_port(), Some(80));
    assert_eq!(with_bind("a:b:12").bind_port(), Some(12));
    assert_eq!(with_bind(":0").bind_port(), Some(0));
}
