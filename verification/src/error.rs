//! Errors of the service.

use substrate_prometheus_endpoint::PrometheusError;
use vstd::prelude::*;

verus! {

/// The error that the Prometheus crate reports. It is carried along unread.
#[verifier::external_type_specification]
#[verifier::external_body]
pub struct ExPrometheusError(PrometheusError);

/// Why a service is not put together.
#[derive(Debug)]
pub enum ServiceError {
    /// The metrics registry is refused.
    Prometheus(PrometheusError),
    /// Any other reason, in words.
    Other(String),
}

impl ServiceError {
    /// Whether the error is the reason `words`, given in words.
    pub open spec fn says(self, words: Seq<char>) -> bool {
        self matches ServiceError::Other(reason) && reason@ == words
    }
}

} // verus!
