//! Typed initialization errors. Configuration parsing never errors (malformed
//! values fall back silently); only initialization steps surface these, and
//! the top-level entry point degrades gracefully instead of propagating them.

use vstd::prelude::*;
use vstd::string::StringExecFns;

verus! {

/// Why a telemetry subsystem did not come up.
#[derive(Debug)]
pub enum TelemetryError {
    /// Trace export disabled via DD_TRACE_ENABLED=false.
    DatadogDisabled,
    /// A global subscriber was already installed; the detail string is the
    /// installer's own report.
    SubscriberInit(String),
    /// Metrics disabled via METRICS_ENABLED=false.
    MetricsDisabled,
    /// Binding the local transport endpoint failed.
    SocketBind(String),
    /// Constructing the metric sink failed.
    SinkCreation(String),
}

/// The human-readable line each error renders to.
pub open spec fn spec_error_message(e: TelemetryError) -> Seq<char> {
    match e {
        TelemetryError::DatadogDisabled => "Datadog tracing disabled via DD_TRACE_ENABLED=false"@,
        TelemetryError::SubscriberInit(m) => "Failed to set global subscriber: "@ + m@,
        TelemetryError::MetricsDisabled => "Metrics disabled via METRICS_ENABLED=false"@,
        TelemetryError::SocketBind(m) => "Failed to bind UDP socket: "@ + m@,
        TelemetryError::SinkCreation(m) => "Failed to create metric sink: "@ + m@,
    }
}

impl TelemetryError {
    /// Renders the error as its human-readable diagnostic line.
    pub fn message(&self) -> (r: String)
        ensures
            r@ == spec_error_message(*self),
    {
        match self {
            TelemetryError::DatadogDisabled => "Datadog tracing disabled via DD_TRACE_ENABLED=false".to_owned(),
            TelemetryError::SubscriberInit(m) => {
                let mut s: String = "Failed to set global subscriber: ".to_owned();
                s.append(m.as_str());
                s
            },
            TelemetryError::MetricsDisabled => "Metrics disabled via METRICS_ENABLED=false".to_owned(),
            TelemetryError::SocketBind(m) => {
                let mut s: String = "Failed to bind UDP socket: ".to_owned();
                s.append(m.as_str());
                s
            },
            TelemetryError::SinkCreation(m) => {
                let mut s: String = "Failed to create metric sink: ".to_owned();
                s.append(m.as_str());
                s
            },
        }
    }
}

} // verus!
