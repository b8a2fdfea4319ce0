//! A service whose health the monitor checks periodically.

use vstd::prelude::*;

verus! {

/// One row of `monitored_services`.
#[derive(Clone, Debug, PartialEq, Eq)]
pub struct Model {
    pub id: i32,
    pub name: String,
    pub target_url: String,
    pub expected_status: i16,
    pub ping_interval_seconds: i32,
    pub current_status: String,
    pub updated_at: Option<chrono::NaiveDateTime>,
}

/// Relations of `monitored_services`: a service has many heartbeats.
#[derive(Copy, Clone, Debug, PartialEq, Eq)]
pub enum Relation {
    ServiceHeartbeats,
}

/// The row with its `current_status` replaced and every other column kept.
pub fn with_current_status(service: Model, status: &str) -> (updated: Model)
    ensures
        updated.current_status@ == status@,
        updated.id == service.id,
        updated.name == service.name,
        updated.target_url == service.target_url,
        updated.expected_status == service.expected_status,
        updated.ping_interval_seconds == service.ping_interval_seconds,
        updated.updated_at == service.updated_at,
{
    Model { current_status: status.to_owned(), ..service }
}

} // verus!
