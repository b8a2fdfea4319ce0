//! The administrative commands of the control API.

use vstd::prelude::*;

verus! {

/// Milliseconds the shutdown waits so that its reply can reach the client.
pub const SHUTDOWN_DELAY_MS: u64 = 500;

/// The exit status of the process after an emergency shutdown.
pub const SHUTDOWN_EXIT_CODE: i32 = 0;

/// The JSON reply of an administrative command: `{"status": .., "message": ..}`.
pub struct ControlReply {
    pub status: &'static str,
    pub message: &'static str,
}

/// The values the telemetry registers hold.
#[derive(Copy, Clone, Debug, PartialEq, Eq)]
pub struct TelemetryCounters {
    pub active_connections: u64,
    pub total_blocked_ips: u64,
    pub total_rate_limited_reqs: u64,
}

/// The registers after a flush: all back to zero.
pub fn flushed_counters() -> (c: TelemetryCounters)
    ensures
        c.active_connections == 0,
        c.total_blocked_ips == 0,
        c.total_rate_limited_reqs == 0,
{
    TelemetryCounters { active_connections: 0, total_blocked_ips: 0, total_rate_limited_reqs: 0 }
}

/// The reply to a counter flush.
pub fn flush_counters_reply() -> (r: ControlReply)
    ensures
        r.status@ == "success"@,
        r.message@ == "Telemetry counters reset successfully."@,
{
    ControlReply { status: "success", message: "Telemetry counters reset successfully." }
}

/// The reply to an emergency shutdown, sent before the process exits.
pub fn shutdown_reply() -> (r: ControlReply)
    ensures
        r.status@ == "success"@,
        r.message@ == "Emergency shutdown sequence initialized."@,
{
    ControlReply { status: "success", message: "Emergency shutdown sequence initialized." }
}

} // verus!
