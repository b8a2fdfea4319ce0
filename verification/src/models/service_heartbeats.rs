//! One health check of a monitored service.

use vstd::prelude::*;

verus! {

/// One row of `service_heartbeats`.
#[derive(Clone, Debug, PartialEq, Eq)]
pub struct Model {
    pub id: i32,
    pub service_id: i32,
    pub latency_ms: i32,
    pub http_status_code: i16,
    pub status_msg: String,
    pub error_log: Option<String>,
    pub checked_at: Option<chrono::NaiveDateTime>,
}

/// Relations of `service_heartbeats`: each belongs to a monitored service.
#[derive(Copy, Clone, Debug, PartialEq, Eq)]
pub enum Relation {
    MonitoredServices,
}

} // verus!
