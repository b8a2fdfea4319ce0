//! The live telemetry stream pushed to operators over a websocket: what each
//! frame carries and when the stream ends.

use vstd::prelude::*;

verus! {

/// Seconds between two frames.
pub const FRAME_INTERVAL_SECS: u64 = 1;

/// The resident memory reported in every frame: a fixed 42 MiB.
pub fn sysinfo_memory_lookup() -> (bytes: u64)
    ensures
        bytes == 42 * 1024 * 1024,
{
    42 * 1024 * 1024
}

/// One frame of live metrics.
#[derive(Copy, Clone, Debug, PartialEq, Eq)]
pub struct LiveMetricsPayload {
    pub active_connections: u64,
    pub total_blocked_ips: u64,
    pub cpu_worker_latency_ms: u128,
    pub memory_usage_bytes: u64,
}

impl LiveMetricsPayload {
    /// The frame for the current counter readings and the time elapsed since
    /// the request started.
    pub fn sample(active_connections: u64, total_blocked_ips: u64, elapsed_ms: u128) -> (p: LiveMetricsPayload)
        ensures
            p.active_connections == active_connections,
            p.total_blocked_ips == total_blocked_ips,
            p.cpu_worker_latency_ms == elapsed_ms,
            p.memory_usage_bytes == 42 * 1024 * 1024,
    {
        LiveMetricsPayload {
            active_connections,
            total_blocked_ips,
            cpu_worker_latency_ms: elapsed_ms,
            memory_usage_bytes: sysinfo_memory_lookup(),
        }
    }
}

/// What the stream does after a frame.
#[derive(Copy, Clone, Debug, PartialEq, Eq)]
pub enum StreamAction {
    /// Wait this many seconds, then sample and send the next frame.
    SleepThenSample { seconds: u64 },
    /// The peer is gone: end the stream.
    Close,
}

/// The decision after a frame: `sent` is `None` when the frame could not be
/// serialised (nothing was sent), otherwise whether sending succeeded. The
/// stream ends exactly when a send failed.
pub fn after_frame(sent: Option<bool>) -> (a: StreamAction)
    ensures
        a == (if sent == Some(false) {
            StreamAction::Close
        } else {
            StreamAction::SleepThenSample { seconds: FRAME_INTERVAL_SECS }
        }),
{
    match sent {
        Some(false) => StreamAction::Close,
        _ => StreamAction::SleepThenSample { seconds: FRAME_INTERVAL_SECS },
    }
}

} // verus!
