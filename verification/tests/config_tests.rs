use sideways::{EnvSnapshot, TelemetryConfig};

fn empty_env() -> EnvSnapshot {
    EnvSnapshot {
        dd_trace_enabled: None,
        metrics_enabled: None,
        dd_service: None,
        dd_env: None,
        dd_trace_agent_url: None,
        rust_log: None,
        statsd_host: None,
        statsd_port: None,
        metrics_prefix: None,
    }
}

#[test]
fn default_record_values() {
    let c = TelemetryConfig::default();
    assert!(c.datadog_enabled);
    assert_eq!(c.dd_service, "sideways-service");
    assert_eq!(c.dd_env, "development");
    assert_eq!(c.dd_trace_agent_url, "http://localhost:8126");
    assert_eq!(c.rust_log, "info");
    assert!(c.metrics_enabled);
    assert_eq!(c.statsd_host, "localhost");
    assert_eq!(c.statsd_port, 8125);
    assert_eq!(c.metrics_prefix, "sideways");
    assert!(c.global_tags.is_empty());
}

#[test]
fn resolve_empty_env_is_default() {
    let c = TelemetryConfig::resolve(&empty_env());
    let d = TelemetryConfig::default();
    assert_eq!(c.datadog_enabled, d.datadog_enabled);
    assert_eq!(c.dd_service, d.dd_service);
    assert_eq!(c.dd_env, d.dd_env);
    assert_eq!(c.dd_trace_agent_url, d.dd_trace_agent_url);
    assert_eq!(c.rust_log, d.rust_log);
    assert_eq!(c.metrics_enabled, d.metrics_enabled);
    assert_eq!(c.statsd_host, d.statsd_host);
    assert_eq!(c.statsd_port, d.statsd_port);
    assert_eq!(c.metrics_prefix, d.metrics_prefix);
    assert!(c.global_tags.is_empty());
}

#[test]
fn resolve_string_overrides_adopted_exactly() {
    let mut env = empty_env();
    env.dd_service = Some("orders".to_string());
    env.dd_env = Some("staging".to_string());
    env.dd_trace_agent_url = Some("http://agent:8126".to_string());
    env.rust_log = Some("debug".to_string());
    env.statsd_host = Some("statsd.internal".to_string());
    env.metrics_prefix = Some("orders-svc".to_string());
    let c = TelemetryConfig::resolve(&env);
    assert_eq!(c.dd_service, "orders");
    assert_eq!(c.dd_env, "staging");
    assert_eq!(c.dd_trace_agent_url, "http://agent:8126");
    assert_eq!(c.rust_log, "debug");
    assert_eq!(c.statsd_host, "statsd.internal");
    assert_eq!(c.metrics_prefix, "orders-svc");
}

#[test]
fn resolve_port_valid_adopted() {
    let mut env = empty_env();
    env.statsd_port = Some("8126".to_string());
    assert_eq!(TelemetryConfig::resolve(&env).statsd_port, 8126);
    env.statsd_port = Some("65535".to_string());
    assert_eq!(TelemetryConfig::resolve(&env).statsd_port, 65535);
    env.statsd_port = Some("0".to_string());
    assert_eq!(TelemetryConfig::resolve(&env).statsd_port, 0);
    env.statsd_port = Some("+80".to_string());
    assert_eq!(TelemetryConfig::resolve(&env).statsd_port, 80);
}

#[test]
fn resolve_port_invalid_ignored() {
    let mut env = empty_env();
    env.statsd_port = Some("abc".to_string());
    assert_eq!(TelemetryConfig::resolve(&env).statsd_port, 8125);
    env.statsd_port = Some("70000".to_string());
    assert_eq!(TelemetryConfig::resolve(&env).statsd_port, 8125);
    env.statsd_port = Some("".to_string());
    assert_eq!(TelemetryConfig::resolve(&env).statsd_port, 8125);
    env.statsd_port = Some("-1".to_string());
    assert_eq!(TelemetryConfig::resolve(&env).statsd_port, 8125);
    env.statsd_port = Some("80x".to_string());
    assert_eq!(TelemetryConfig::resolve(&env).statsd_port, 8125);
    env.statsd_port = Some("+".to_string());
    assert_eq!(TelemetryConfig::resolve(&env).statsd_port, 8125);
}

#[test]
fn disable_only_on_case_insensitive_false() {
    let mut env = empty_env();
    env.dd_trace_enabled = Some("False".to_string());
    assert!(!TelemetryConfig::resolve(&env).datadog_enabled);
    env.dd_trace_enabled = Some("FALSE".to_string());
    assert!(!TelemetryConfig::resolve(&env).datadog_enabled);
    env.dd_trace_enabled = Some("false".to_string());
    assert!(!TelemetryConfig::resolve(&env).datadog_enabled);
    env.dd_trace_enabled = Some("0".to_string());
    assert!(TelemetryConfig::resolve(&env).datadog_enabled);
    env.dd_trace_enabled = Some("no".to_string());
    assert!(TelemetryConfig::resolve(&env).datadog_enabled);
    env.dd_trace_enabled = Some("".to_string());
    assert!(TelemetryConfig::resolve(&env).datadog_enabled);
    env.dd_trace_enabled = None;
    assert!(TelemetryConfig::resolve(&env).datadog_enabled);

    let mut env = empty_env();
    env.metrics_enabled = Some("False".to_string());
    assert!(!TelemetryConfig::resolve(&env).metrics_enabled);
    env.metrics_enabled = Some("0".to_string());
    assert!(TelemetryConfig::resolve(&env).metrics_enabled);
    env.metrics_enabled = None;
    assert!(TelemetryConfig::resolve(&env).metrics_enabled);
}

#[test]
fn resolve_twice_is_field_by_field_equal() {
    let mut env = empty_env();
    env.dd_service = Some("orders".to_string());
    env.dd_trace_enabled = Some("FALSE".to_string());
    env.statsd_port = Some("9125".to_string());
    let a = TelemetryConfig::resolve(&env);
    let b = TelemetryConfig::resolve(&env);
    assert_eq!(a.datadog_enabled, b.datadog_enabled);
    assert_eq!(a.dd_service, b.dd_service);
    assert_eq!(a.dd_env, b.dd_env);
    assert_eq!(a.dd_trace_agent_url, b.dd_trace_agent_url);
    assert_eq!(a.rust_log, b.rust_log);
    assert_eq!(a.metrics_enabled, b.metrics_enabled);
    assert_eq!(a.statsd_host, b.statsd_host);
    assert_eq!(a.statsd_port, b.statsd_port);
    assert_eq!(a.metrics_prefix, b.metrics_prefix);
    assert_eq!(a.global_tags, b.global_tags);
}
