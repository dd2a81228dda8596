//! Observation points for the introspection client, no-ops by default.
//!
//! Timing hooks take the start of the observed span as milliseconds since the
//! Unix epoch, as handed out by a clock of the caller's choosing.
use vstd::prelude::*;

verus! {

/// Collects metrics for token introspection.
pub trait MetricsCollector {
    /// An incoming request for token introspection.
    fn incoming_introspection_request(&self);

    /// The complete introspection workflow finished, regardless of the
    /// result.
    fn introspection_request(&self, request_started_ms: u64);

    /// The complete introspection workflow finished and was successful.
    fn introspection_request_success(&self, request_started_ms: u64);

    /// The complete introspection workflow finished and failed.
    fn introspection_request_failure(&self, request_started_ms: u64);

    /// The introspection endpoint was called, regardless of the result.
    fn introspection_service_call(&self, request_started_ms: u64);

    /// The introspection endpoint was called and the call failed.
    fn introspection_service_call_failure(&self, request_started_ms: u64);

    /// The introspection endpoint was called and the call succeeded.
    fn introspection_service_call_success(&self, request_started_ms: u64);
}

/// A `MetricsCollector` that discards every observation.
pub struct DevNullMetricsCollector;

impl MetricsCollector for DevNullMetricsCollector {
    fn incoming_introspection_request(&self) {
    }

    fn introspection_request(&self, _request_started_ms: u64) {
    }

    fn introspection_request_success(&self, _request_started_ms: u64) {
    }

    fn introspection_request_failure(&self, _request_started_ms: u64) {
    }

    fn introspection_service_call(&self, _request_started_ms: u64) {
    }

    fn introspection_service_call_failure(&self, _request_started_ms: u64) {
    }

    fn introspection_service_call_success(&self, _request_started_ms: u64) {
    }
}

} // verus!
