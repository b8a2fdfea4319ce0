use command_center::control::{flush_counters_reply, flushed_counters, shutdown_reply, SHUTDOWN_DELAY_MS, SHUTDOWN_EXIT_CODE};
use command_center::models::monitored_services;
use command_center::monitor::{
    build_heartbeat, classify_probe, MonitorAction, MonitorEvent, MonitorPhase, ProbeOutcome,
    ServiceMonitor, ServiceStatus, POLL_INTERVAL_SECS,
};
use command_center::routes::{public_paths, static_file_path};
use command_center::telemetry::{after_frame, sysinfo_memory_lookup, LiveMetricsPayload, StreamAction};
use command_center::text::{signed_to_decimal, trim, unsigned_to_decimal};

fn service(id: i32, url: &str) -> monitored_services::Model {
    monitored_services::Model {
        id,
        name: format!("svc{}", id),
        target_url: url.to_string(),
        expected_status: 200,
        ping_interval_seconds: 30,
        current_status: "UNKNOWN".to_string(),
        updated_at: None,
    }
}

#[test]
fn probe_classification() {
    let (s, c, e) = classify_probe(&ProbeOutcome::Responded(200));
    assert_eq!((s, c, e), (ServiceStatus::Up, 200, None));
    let (s, c, e) = classify_probe(&ProbeOutcome::Responded(503));
    assert_eq!((s, c, e), (ServiceStatus::Degraded, 503, Some("Returned status 503".to_string())));
    let (s, c, e) = classify_probe(&ProbeOutcome::Failed("connection refused".to_string()));
    assert_eq!((s, c, e), (ServiceStatus::Down, 0, Some("connection refused".to_string())));
    assert_eq!(ServiceStatus::Up.label(), "UP");
    assert_eq!(ServiceStatus::Degraded.label(), "DEGRADED");
    assert_eq!(ServiceStatus::Down.label(), "DOWN");
}

#[test]
fn heartbeat_rows() {
    let hb = build_heartbeat(3, 125, &ProbeOutcome::Responded(404));
    assert_eq!(hb.service_id, 3);
    assert_eq!(hb.latency_ms, 125);
    assert_eq!(hb.http_status_code, 404);
    assert_eq!(hb.status_msg, "DEGRADED");
    assert_eq!(hb.error_log, Some("Returned status 404".to_string()));
    let hb = build_heartbeat(3, (1u128 << 32) + 7, &ProbeOutcome::Responded(65535));
    assert_eq!(hb.latency_ms, 7);
    assert_eq!(hb.http_status_code, -1);
}

#[test]
fn monitor_round() {
    let (m, a) = ServiceMonitor::start();
    assert!(matches!(a, MonitorAction::FetchServices));
    let (m, a) = m.step(MonitorEvent::ServicesFetched(Some(vec![service(1, "http://a"), service(2, "http://b")])));
    match a {
        Some(MonitorAction::Probe { service_id, target_url }) => {
            assert_eq!(service_id, 1);
            assert_eq!(target_url, "http://a");
        }
        _ => panic!("expected a probe"),
    }
    let (m, a) = m.step(MonitorEvent::ProbeFinished { elapsed_ms: 10, outcome: ProbeOutcome::Responded(200) });
    match a {
        Some(MonitorAction::RecordHeartbeat(hb)) => {
            assert_eq!(hb.service_id, 1);
            assert_eq!(hb.status_msg, "UP");
        }
        _ => panic!("expected a record"),
    }
    let (m, a) = m.step(MonitorEvent::HeartbeatRecorded);
    match a {
        Some(MonitorAction::Probe { service_id, .. }) => assert_eq!(service_id, 2),
        _ => panic!("expected a probe"),
    }
    let (m, a) = m.step(MonitorEvent::Woke);
    assert!(a.is_none());
    assert_eq!(m.phase(), MonitorPhase::AwaitingProbe);
    let (m, a) = m.step(MonitorEvent::ProbeFinished { elapsed_ms: 5, outcome: ProbeOutcome::Failed("timeout".into()) });
    match a {
        Some(MonitorAction::RecordHeartbeat(hb)) => {
            assert_eq!(hb.service_id, 2);
            assert_eq!(hb.status_msg, "DOWN");
            assert_eq!(hb.http_status_code, 0);
        }
        _ => panic!("expected a record"),
    }
    let (m, a) = m.step(MonitorEvent::HeartbeatRecorded);
    assert!(matches!(a, Some(MonitorAction::Sleep { seconds }) if seconds == POLL_INTERVAL_SECS));
    let (_m, a) = m.step(MonitorEvent::Woke);
    assert!(matches!(a, Some(MonitorAction::FetchServices)));
}

#[test]
fn failed_or_empty_fetch_sleeps() {
    let (m, _) = ServiceMonitor::start();
    let (m, a) = m.step(MonitorEvent::ServicesFetched(None));
    assert!(matches!(a, Some(MonitorAction::Sleep { seconds: 30 })));
    assert_eq!(m.phase(), MonitorPhase::Sleeping);
    let (m, _) = m.step(MonitorEvent::Woke);
    let (m, a) = m.step(MonitorEvent::ServicesFetched(Some(vec![])));
    assert!(matches!(a, Some(MonitorAction::Sleep { seconds: 30 })));
    assert_eq!(m.phase(), MonitorPhase::Sleeping);
}

#[test]
fn service_status_update_keeps_other_columns() {
    let s = service(9, "http://z");
    let u = monitored_services::with_current_status(s, "UP");
    assert_eq!(u.current_status, "UP");
    assert_eq!(u.id, 9);
    assert_eq!(u.target_url, "http://z");
    assert_eq!(u.name, "svc9");
}

#[test]
fn telemetry_frames() {
    assert_eq!(sysinfo_memory_lookup(), 44040192);
    let p = LiveMetricsPayload::sample(3, 4, 1500);
    assert_eq!(p.active_connections, 3);
    assert_eq!(p.total_blocked_ips, 4);
    assert_eq!(p.cpu_worker_latency_ms, 1500);
    assert_eq!(p.memory_usage_bytes, 44040192);
    assert_eq!(after_frame(Some(false)), StreamAction::Close);
    assert_eq!(after_frame(Some(true)), StreamAction::SleepThenSample { seconds: 1 });
    assert_eq!(after_frame(None), StreamAction::SleepThenSample { seconds: 1 });
}

#[test]
fn control_commands() {
    let c = flushed_counters();
    assert_eq!((c.active_connections, c.total_blocked_ips, c.total_rate_limited_reqs), (0, 0, 0));
    let r = flush_counters_reply();
    assert_eq!((r.status, r.message), ("success", "Telemetry counters reset successfully."));
    let r = shutdown_reply();
    assert_eq!((r.status, r.message), ("success", "Emergency shutdown sequence initialized."));
    assert_eq!(SHUTDOWN_DELAY_MS, 500);
    assert_eq!(SHUTDOWN_EXIT_CODE, 0);
}

#[test]
fn routes() {
    assert_eq!(static_file_path("css/style.css"), "static/css/style.css");
    assert_eq!(public_paths(), vec!["/static/:*path".to_string(), "/dashboard".to_string()]);
}

#[test]
fn text_helpers() {
    assert_eq!(trim("  a b \n\t"), "a b");
    assert_eq!(trim("\u{3000}x\u{a0}"), "x");
    assert_eq!(trim("   "), "");
    assert_eq!(trim(""), "");
    assert_eq!(unsigned_to_decimal(0), "0");
    assert_eq!(unsigned_to_decimal(u64::MAX), u64::MAX.to_string());
    assert_eq!(signed_to_decimal(-1203), "-1203");
    assert_eq!(signed_to_decimal(i64::MIN), i64::MIN.to_string());
}

#[test]
fn trimming_twice_changes_nothing() {
    for s in ["  a  ", "\t\nb c\r\n", "", "   ", "x"] {
        let once = trim(s);
        assert_eq!(trim(&once), once);
    }
}
