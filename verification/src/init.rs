//! The initialization plan: which subsystems the combined entry point brings
//! up for a given configuration, and the handle that must be kept alive and
//! shut down on exit. The startup glue performs the installs and follows the
//! plan; each subsystem may fail without blocking the other.

use crate::config::TelemetryConfig;
use vstd::prelude::*;

verus! {

/// The tracer provider type of the wrapped tracing SDK, carried opaquely.
#[verifier::external_type_specification]
#[verifier::external_body]
pub struct ExSdkTracerProvider(opentelemetry_sdk::trace::SdkTracerProvider);

/// Telemetry components that must be kept alive for the life of the process.
pub struct Telemetry {
    /// The trace-export provider, present when the export path came up; its
    /// shutdown call flushes buffered spans and must run on exit.
    pub tracer_provider: Option<opentelemetry_sdk::trace::SdkTracerProvider>,
}

/// How the tracing subsystem is to be initialized.
#[derive(Debug, PartialEq, Eq, Structural, Clone, Copy)]
pub enum TracingPlan {
    /// Console layer plus the span-export layer.
    Export,
    /// Console layer only: export disabled by configuration.
    ConsoleOnly,
}

/// What the combined initialization entry point does for a configuration.
#[derive(Debug, PartialEq, Eq, Structural, Clone, Copy)]
pub struct TelemetryPlan {
    /// Which tracing path to bring up.
    pub tracing: TracingPlan,
    /// Whether to bring up the metrics client.
    pub metrics: bool,
}

/// Decides what initialization does: the export path exactly when tracing is
/// enabled, the metrics client exactly when metrics are enabled. The two
/// subsystems are independent; a failure of one never suppresses the other.
pub fn plan_init(config: &TelemetryConfig) -> (p: TelemetryPlan)
    ensures
        (p.tracing == TracingPlan::Export) == config.datadog_enabled,
        (p.tracing == TracingPlan::ConsoleOnly) == !config.datadog_enabled,
        p.metrics == config.metrics_enabled,
{
    let tracing_plan = if config.datadog_enabled {
        TracingPlan::Export
    } else {
        TracingPlan::ConsoleOnly
    };
    TelemetryPlan { tracing: tracing_plan, metrics: config.metrics_enabled }
}

} // verus!
