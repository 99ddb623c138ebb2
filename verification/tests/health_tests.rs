use sideways::health_check_admits;

#[test]
fn tonic_health_target_rejected() {
    assert!(!health_check_admits("tonic_health.v1", "serve"));
}

#[test]
fn grpc_health_service_target_rejected() {
    assert!(!health_check_admits("grpc.health.v1.Health", "serve"));
}

#[test]
fn health_check_span_name_rejected() {
    assert!(!health_check_admits("my_app::handlers", "DoHealthCheck"));
}

#[test]
fn unrelated_span_admitted() {
    assert!(health_check_admits("my_app::handlers", "ProcessOrder"));
}

#[test]
fn check_healthy_span_name_rejected() {
    assert!(!health_check_admits("my_app::handlers", "CheckHealthy"));
}

#[test]
fn lowercase_checkhealthy_rejected_by_lowercase_health_rule() {
    // Not caught by the case-sensitive "Health"/"Check" matches, but the name
    // contains "health" in lowercase.
    assert!(!health_check_admits("my_app::handlers", "checkhealthy"));
}

#[test]
fn lowercase_check_alone_admitted() {
    // "check" alone matches neither "Check" (case-sensitive) nor "health".
    assert!(health_check_admits("my_app::handlers", "checkpoint"));
}

#[test]
fn target_containing_capital_health_rejected() {
    assert!(!health_check_admits("my_app::HealthService", "serve"));
}

#[test]
fn tonic_health_only_rejects_as_target_prefix() {
    // The target rules match "tonic_health" at the start, and "grpc.health"
    // or "Health" anywhere; "x.tonic_health" trips none of them, and the
    // lowercase "health" rule applies to the span name only.
    assert!(health_check_admits("x.tonic_health", "serve"));
}
