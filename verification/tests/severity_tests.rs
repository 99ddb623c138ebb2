use sideways::resolve_filter_directives;

#[test]
fn valid_external_expression_wins() {
    let external = Some("debug".to_string());
    assert_eq!(resolve_filter_directives(&external, "info"), "debug");
}

#[test]
fn invalid_external_falls_through_to_config() {
    let external = Some("foo=notalevel".to_string());
    assert_eq!(resolve_filter_directives(&external, "warn"), "warn");
}

#[test]
fn absent_external_uses_config() {
    assert_eq!(resolve_filter_directives(&None, "my_app=trace"), "my_app=trace");
}

#[test]
fn invalid_config_falls_through_to_info_floor() {
    assert_eq!(resolve_filter_directives(&None, "foo=notalevel"), "info");
}

#[test]
fn both_invalid_fall_through_to_info_floor() {
    let external = Some("bar=notalevel".to_string());
    assert_eq!(resolve_filter_directives(&external, "foo=notalevel"), "info");
}

#[test]
fn non_ascii_external_falls_through_without_panicking() {
    // Inputs like these make the underlying directive parser slice a
    // character in half; resolution treats them as failing to parse.
    let external = Some(" é=info".to_string());
    assert_eq!(resolve_filter_directives(&external, "warn"), "warn");
    let external = Some("info, é=debug".to_string());
    assert_eq!(resolve_filter_directives(&external, "warn"), "warn");
}

#[test]
fn non_ascii_config_falls_through_to_info_floor() {
    assert_eq!(resolve_filter_directives(&None, " é=info"), "info");
    assert_eq!(resolve_filter_directives(&None, "módulo=debug"), "info");
}
