//! The configuration record and its resolver. Resolution starts from a fixed
//! default record and overlays environment-variable overrides field by field;
//! a typed field (the port, the enable flags) is overridden only when its
//! value parses, and a malformed value is silently ignored. The builder
//! overlays explicit per-field choices on top of the defaults.

use crate::parse::parse_u16;
use crate::parse::parse_u16_spec;
use crate::text::lower_of;
use crate::text::lowercase;
use vstd::prelude::*;

verus! {

/// Mathematical model of a configuration record.
#[verifier::ext_equal]
pub ghost struct ConfigView {
    pub datadog_enabled: bool,
    pub dd_service: Seq<char>,
    pub dd_env: Seq<char>,
    pub dd_trace_agent_url: Seq<char>,
    pub rust_log: Seq<char>,
    pub metrics_enabled: bool,
    pub statsd_host: Seq<char>,
    pub statsd_port: u16,
    pub metrics_prefix: Seq<char>,
    pub global_tags: Seq<(Seq<char>, Seq<char>)>,
}

/// Configuration for telemetry initialization.
#[derive(Debug, Clone)]
pub struct TelemetryConfig {
    /// Enable/disable the trace-export path (default: enabled).
    pub datadog_enabled: bool,
    /// Service name reported with exported traces.
    pub dd_service: String,
    /// Deployment environment label.
    pub dd_env: String,
    /// Trace-collector agent address.
    pub dd_trace_agent_url: String,
    /// Log-severity filter expression.
    pub rust_log: String,
    /// Enable/disable metrics (default: enabled).
    pub metrics_enabled: bool,
    /// Metrics transport host.
    pub statsd_host: String,
    /// Metrics transport port.
    pub statsd_port: u16,
    /// Metrics namespace prefix.
    pub metrics_prefix: String,
    /// Static tags attached to every emitted metric.
    pub global_tags: Vec<(String, String)>,
}

impl View for TelemetryConfig {
    type V = ConfigView;

    open spec fn view(&self) -> ConfigView {
        ConfigView {
            datadog_enabled: self.datadog_enabled,
            dd_service: self.dd_service@,
            dd_env: self.dd_env@,
            dd_trace_agent_url: self.dd_trace_agent_url@,
            rust_log: self.rust_log@,
            metrics_enabled: self.metrics_enabled,
            statsd_host: self.statsd_host@,
            statsd_port: self.statsd_port,
            metrics_prefix: self.metrics_prefix@,
            global_tags: self.global_tags.deep_view(),
        }
    }
}

/// The hardcoded default record: every field immediately usable.
pub open spec fn spec_default_config() -> ConfigView {
    ConfigView {
        datadog_enabled: true,
        dd_service: "sideways-service"@,
        dd_env: "development"@,
        dd_trace_agent_url: "http://localhost:8126"@,
        rust_log: "info"@,
        metrics_enabled: true,
        statsd_host: "localhost"@,
        statsd_port: 8125,
        metrics_prefix: "sideways"@,
        global_tags: Seq::empty(),
    }
}

impl Default for TelemetryConfig {
    /// The default record.
    fn default() -> (r: Self)
        ensures
            r@ == spec_default_config(),
    {
        let r = TelemetryConfig {
            datadog_enabled: true,
            dd_service: "sideways-service".to_owned(),
            dd_env: "development".to_owned(),
            dd_trace_agent_url: "http://localhost:8126".to_owned(),
            rust_log: "info".to_owned(),
            metrics_enabled: true,
            statsd_host: "localhost".to_owned(),
            statsd_port: 8125,
            metrics_prefix: "sideways".to_owned(),
            global_tags: Vec::new(),
        };
        proof {
            assert(r@ =~= spec_default_config());
        }
        r
    }
}

/// The values of the recognized environment variables, captured as one
/// snapshot; a `None` field means the variable is unset.
pub struct EnvSnapshot {
    /// DD_TRACE_ENABLED
    pub dd_trace_enabled: Option<String>,
    /// METRICS_ENABLED
    pub metrics_enabled: Option<String>,
    /// DD_SERVICE
    pub dd_service: Option<String>,
    /// DD_ENV
    pub dd_env: Option<String>,
    /// DD_TRACE_AGENT_URL
    pub dd_trace_agent_url: Option<String>,
    /// RUST_LOG
    pub rust_log: Option<String>,
    /// STATSD_HOST
    pub statsd_host: Option<String>,
    /// STATSD_PORT
    pub statsd_port: Option<String>,
    /// METRICS_PREFIX
    pub metrics_prefix: Option<String>,
}

/// Mathematical model of an environment snapshot.
pub ghost struct EnvView {
    pub dd_trace_enabled: Option<Seq<char>>,
    pub metrics_enabled: Option<Seq<char>>,
    pub dd_service: Option<Seq<char>>,
    pub dd_env: Option<Seq<char>>,
    pub dd_trace_agent_url: Option<Seq<char>>,
    pub rust_log: Option<Seq<char>>,
    pub statsd_host: Option<Seq<char>>,
    pub statsd_port: Option<Seq<char>>,
    pub metrics_prefix: Option<Seq<char>>,
}

impl View for EnvSnapshot {
    type V = EnvView;

    open spec fn view(&self) -> EnvView {
        EnvView {
            dd_trace_enabled: self.dd_trace_enabled.deep_view(),
            metrics_enabled: self.metrics_enabled.deep_view(),
            dd_service: self.dd_service.deep_view(),
            dd_env: self.dd_env.deep_view(),
            dd_trace_agent_url: self.dd_trace_agent_url.deep_view(),
            rust_log: self.rust_log.deep_view(),
            statsd_host: self.statsd_host.deep_view(),
            statsd_port: self.statsd_port.deep_view(),
            metrics_prefix: self.metrics_prefix.deep_view(),
        }
    }
}

/// An unset snapshot: no recognized variable present.
pub open spec fn spec_empty_env() -> EnvView {
    EnvView {
        dd_trace_enabled: None,
        metrics_enabled: None,
        dd_service: None,
        dd_env: None,
        dd_trace_agent_url: None,
        rust_log: None,
        statsd_host: None,
        statsd_port: None,
        metrics_prefix: None,
    }
}

/// A feature stays enabled unless its variable is present and, lower-cased,
/// equals exactly "false".
pub open spec fn spec_feature_enabled(v: Option<Seq<char>>) -> bool {
    match v {
        Some(s) => !(lower_of(s) == "false"@),
        None => true,
    }
}

/// A string field takes the variable's value whenever it is present.
pub open spec fn spec_override_string(v: Option<Seq<char>>, default: Seq<char>) -> Seq<char> {
    match v {
        Some(s) => s,
        None => default,
    }
}

/// The port takes the variable's value only when it parses; a malformed or
/// out-of-range value leaves the prior value untouched.
pub open spec fn spec_override_port(v: Option<Seq<char>>, default: u16) -> u16 {
    match v {
        Some(s) => match parse_u16_spec(s) {
            Some(p) => p,
            None => default,
        },
        None => default,
    }
}

/// What resolution from an environment snapshot yields: the default record
/// with each recognized variable overlaid field by field.
pub open spec fn spec_resolve(e: EnvView) -> ConfigView {
    ConfigView {
        datadog_enabled: spec_feature_enabled(e.dd_trace_enabled),
        dd_service: spec_override_string(e.dd_service, spec_default_config().dd_service),
        dd_env: spec_override_string(e.dd_env, spec_default_config().dd_env),
        dd_trace_agent_url: spec_override_string(
            e.dd_trace_agent_url,
            spec_default_config().dd_trace_agent_url,
        ),
        rust_log: spec_override_string(e.rust_log, spec_default_config().rust_log),
        metrics_enabled: spec_feature_enabled(e.metrics_enabled),
        statsd_host: spec_override_string(e.statsd_host, spec_default_config().statsd_host),
        statsd_port: spec_override_port(e.statsd_port, spec_default_config().statsd_port),
        metrics_prefix: spec_override_string(
            e.metrics_prefix,
            spec_default_config().metrics_prefix,
        ),
        global_tags: Seq::empty(),
    }
}

/// Whether this value, lower-cased, is exactly "false".
fn is_false_value(v: &String) -> (r: bool)
    ensures
        r == (lower_of(v@) == "false"@),
{
    let low = lowercase(v.as_str());
    let f: String = "false".to_owned();
    low.eq(&f)
}

impl TelemetryConfig {
    /// Builds the configuration record from an environment snapshot: defaults
    /// first, then each recognized variable overlaid, with malformed typed
    /// values silently ignored. Total: every snapshot yields a valid record.
    pub fn resolve(env: &EnvSnapshot) -> (r: TelemetryConfig)
        ensures
            r@ == spec_resolve(env@),
    {
        let mut config = TelemetryConfig::default();

        if let Some(v) = &env.dd_trace_enabled {
            if is_false_value(v) {
                config.datadog_enabled = false;
            }
        }
        if let Some(v) = &env.metrics_enabled {
            if is_false_value(v) {
                config.metrics_enabled = false;
            }
        }
        if let Some(v) = &env.dd_service {
            config.dd_service = v.clone();
        }
        if let Some(v) = &env.dd_env {
            config.dd_env = v.clone();
        }
        if let Some(v) = &env.dd_trace_agent_url {
            config.dd_trace_agent_url = v.clone();
        }
        if let Some(v) = &env.rust_log {
            config.rust_log = v.clone();
        }
        if let Some(v) = &env.statsd_host {
            config.statsd_host = v.clone();
        }
        if let Some(v) = &env.statsd_port {
            if let Some(p) = parse_u16(v.as_str()) {
                config.statsd_port = p;
            }
        }
        if let Some(v) = &env.metrics_prefix {
            config.metrics_prefix = v.clone();
        }
        proof {
            assert(config@ =~= spec_resolve(env@));
        }
        config
    }

    /// Create a builder for custom configuration.
    pub fn builder() -> (r: TelemetryConfigBuilder)
        ensures
            r@ == spec_default_config(),
    {
        TelemetryConfigBuilder { config: TelemetryConfig::default() }
    }
}

/// Builder for `TelemetryConfig`: starts from the default record, and every
/// setter overwrites exactly one field.
#[derive(Debug)]
pub struct TelemetryConfigBuilder {
    config: TelemetryConfig,
}

impl View for TelemetryConfigBuilder {
    type V = ConfigView;

    closed spec fn view(&self) -> ConfigView {
        self.config@
    }
}

impl Default for TelemetryConfigBuilder {
    /// A builder holding the default record.
    fn default() -> (r: Self)
        ensures
            r@ == spec_default_config(),
    {
        TelemetryConfigBuilder { config: TelemetryConfig::default() }
    }
}

impl TelemetryConfigBuilder {
    pub fn datadog_enabled(self, enabled: bool) -> (r: Self)
        ensures
            r@ == (ConfigView { datadog_enabled: enabled, ..self@ }),
    {
        let mut config = self.config;
        config.datadog_enabled = enabled;
        TelemetryConfigBuilder { config }
    }

    pub fn dd_service(self, service: String) -> (r: Self)
        ensures
            r@ == (ConfigView { dd_service: service@, ..self@ }),
    {
        let mut config = self.config;
        config.dd_service = service;
        TelemetryConfigBuilder { config }
    }

    pub fn dd_env(self, env: String) -> (r: Self)
        ensures
            r@ == (ConfigView { dd_env: env@, ..self@ }),
    {
        let mut config = self.config;
        config.dd_env = env;
        TelemetryConfigBuilder { config }
    }

    pub fn dd_trace_agent_url(self, url: String) -> (r: Self)
        ensures
            r@ == (ConfigView { dd_trace_agent_url: url@, ..self@ }),
    {
        let mut config = self.config;
        config.dd_trace_agent_url = url;
        TelemetryConfigBuilder { config }
    }

    pub fn rust_log(self, filter: String) -> (r: Self)
        ensures
            r@ == (ConfigView { rust_log: filter@, ..self@ }),
    {
        let mut config = self.config;
        config.rust_log = filter;
        TelemetryConfigBuilder { config }
    }

    pub fn metrics_enabled(self, enabled: bool) -> (r: Self)
        ensures
            r@ == (ConfigView { metrics_enabled: enabled, ..self@ }),
    {
        let mut config = self.config;
        config.metrics_enabled = enabled;
        TelemetryConfigBuilder { config }
    }

    pub fn statsd_host(self, host: String) -> (r: Self)
        ensures
            r@ == (ConfigView { statsd_host: host@, ..self@ }),
    {
        let mut config = self.config;
        config.statsd_host = host;
        TelemetryConfigBuilder { config }
    }

    pub fn statsd_port(self, port: u16) -> (r: Self)
        ensures
            r@ == (ConfigView { statsd_port: port, ..self@ }),
    {
        let mut config = self.config;
        config.statsd_port = port;
        TelemetryConfigBuilder { config }
    }

    pub fn metrics_prefix(self, prefix: String) -> (r: Self)
        ensures
            r@ == (ConfigView { metrics_prefix: prefix@, ..self@ }),
    {
        let mut config = self.config;
        config.metrics_prefix = prefix;
        TelemetryConfigBuilder { config }
    }

    /// Appends one static tag; every emitted metric will carry it.
    pub fn global_tag(self, key: String, value: String) -> (r: Self)
        ensures
            r@ == (ConfigView { global_tags: self@.global_tags.push((key@, value@)), ..self@ }),
    {
        let ghost prev = self@.global_tags;
        let mut config = self.config;
        config.global_tags.push((key, value));
        proof {
            assert(config.global_tags.deep_view() =~= prev.push((key@, value@)));
        }
        TelemetryConfigBuilder { config }
    }

    pub fn build(self) -> (r: TelemetryConfig)
        ensures
            r@ == self@,
    {
        self.config
    }
}

/// An environment snapshot with no recognized variable present resolves to
/// exactly the hardcoded default record.
pub proof fn lemma_resolve_empty_env(e: EnvView)
    requires
        e == spec_empty_env(),
    ensures
        spec_resolve(e) == spec_default_config(),
{
    assert(spec_resolve(e) =~= spec_default_config());
}

/// A recognized string variable that is present with a non-empty value is
/// adopted exactly as the corresponding field.
pub proof fn lemma_string_overrides_adopted(e: EnvView, v: Seq<char>)
    requires
        v.len() > 0,
    ensures
        e.dd_service == Some(v) ==> spec_resolve(e).dd_service == v,
        e.dd_env == Some(v) ==> spec_resolve(e).dd_env == v,
        e.dd_trace_agent_url == Some(v) ==> spec_resolve(e).dd_trace_agent_url == v,
        e.rust_log == Some(v) ==> spec_resolve(e).rust_log == v,
        e.statsd_host == Some(v) ==> spec_resolve(e).statsd_host == v,
        e.metrics_prefix == Some(v) ==> spec_resolve(e).metrics_prefix == v,
{
}

/// A port value that parses and is in range is adopted exactly.
pub proof fn lemma_port_valid_adopted(e: EnvView, v: Seq<char>, p: u16)
    requires
        e.statsd_port == Some(v),
        crate::parse::parse_u16_spec(v) == Some(p),
    ensures
        spec_resolve(e).statsd_port == p,
{
}

/// A port value that fails parsing, or falls out of range, leaves the field
/// at its prior value.
pub proof fn lemma_port_invalid_ignored(e: EnvView, v: Seq<char>)
    requires
        e.statsd_port == Some(v),
        crate::parse::parse_u16_spec(v) is None,
    ensures
        spec_resolve(e).statsd_port == spec_default_config().statsd_port,
{
}

/// A disable variable suppresses its feature if and only if its value,
/// lower-cased, equals exactly "false"; an unset variable leaves the feature
/// enabled.
pub proof fn lemma_disable_exact(e: EnvView, v: Seq<char>)
    ensures
        e.dd_trace_enabled == Some(v) ==> (!spec_resolve(e).datadog_enabled <==> lower_of(v)
            == "false"@),
        e.dd_trace_enabled is None ==> spec_resolve(e).datadog_enabled,
        e.metrics_enabled == Some(v) ==> (!spec_resolve(e).metrics_enabled <==> lower_of(v)
            == "false"@),
        e.metrics_enabled is None ==> spec_resolve(e).metrics_enabled,
{
}

/// Resolving twice from an unchanged environment yields two records that are
/// equal field by field.
pub proof fn lemma_resolve_deterministic(e: EnvView, c1: ConfigView, c2: ConfigView)
    requires
        c1 == spec_resolve(e),
        c2 == spec_resolve(e),
    ensures
        c1 == c2,
        c1.datadog_enabled == c2.datadog_enabled,
        c1.dd_service == c2.dd_service,
        c1.dd_env == c2.dd_env,
        c1.dd_trace_agent_url == c2.dd_trace_agent_url,
        c1.rust_log == c2.rust_log,
        c1.metrics_enabled == c2.metrics_enabled,
        c1.statsd_host == c2.statsd_host,
        c1.statsd_port == c2.statsd_port,
        c1.metrics_prefix == c2.metrics_prefix,
        c1.global_tags == c2.global_tags,
{
}

} // verus!
