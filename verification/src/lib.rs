//! Initialization and configuration layer for service telemetry: a
//! configuration record resolved from defaults and environment overrides, a
//! health-check span filter, severity-filter fallback resolution, and the
//! plan that the process-startup glue follows when installing the global
//! tracing subscriber and metrics client.

pub mod config;
pub mod errors;
pub mod health;
pub mod init;
pub mod metrics;
pub mod parse;
pub mod severity;
pub mod text;

pub use config::EnvSnapshot;
pub use config::TelemetryConfig;
pub use config::TelemetryConfigBuilder;
pub use errors::TelemetryError;
pub use health::health_check_admits;
pub use init::Telemetry;
pub use init::TelemetryPlan;
pub use init::TracingPlan;
pub use init::plan_init;
pub use metrics::build_metrics_client;
pub use severity::resolve_filter_directives;
