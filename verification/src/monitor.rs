//! The upstream health monitor: how a probe of a service is judged, what
//! heartbeat is recorded for it, and the order in which a polling round
//! fetches the services, probes each, records each result and sleeps.

use vstd::prelude::*;
use crate::models::monitored_services;
use crate::text::{concat, decimal, unsigned_to_decimal};

verus! {

/// Seconds the HTTP client waits for a service before giving up.
pub const PROBE_TIMEOUT_SECS: u64 = 5;

/// Seconds between two polling rounds.
pub const POLL_INTERVAL_SECS: u64 = 30;

/// The health of a service as judged from one probe.
#[derive(Copy, Clone, Debug, PartialEq, Eq)]
pub enum ServiceStatus {
    Up,
    Degraded,
    Down,
}

impl ServiceStatus {
    /// The label stored in the database for this status.
    pub open spec fn spec_label(self) -> Seq<char> {
        match self {
            ServiceStatus::Up => "UP"@,
            ServiceStatus::Degraded => "DEGRADED"@,
            ServiceStatus::Down => "DOWN"@,
        }
    }

    /// The label stored in the database for this status.
    pub fn label(&self) -> (s: &'static str)
        ensures
            s@ == self.spec_label(),
    {
        match self {
            ServiceStatus::Up => "UP",
            ServiceStatus::Degraded => "DEGRADED",
            ServiceStatus::Down => "DOWN",
        }
    }
}

/// What came back from probing a service: an HTTP status code, or the text of
/// the transport error.
pub enum ProbeOutcome {
    Responded(u16),
    Failed(String),
}

/// A probe outcome as plain values.
pub enum ProbeView {
    Responded(u16),
    Failed(Seq<char>),
}

impl View for ProbeOutcome {
    type V = ProbeView;

    open spec fn view(&self) -> ProbeView {
        match self {
            ProbeOutcome::Responded(c) => ProbeView::Responded(*c),
            ProbeOutcome::Failed(e) => ProbeView::Failed(e@),
        }
    }
}

/// The status a probe outcome stands for: `UP` for HTTP 200, `DEGRADED` for any
/// other response, `DOWN` when no response came.
pub open spec fn probe_status(outcome: ProbeView) -> ServiceStatus {
    match outcome {
        ProbeView::Responded(c) => if c == 200 { ServiceStatus::Up } else { ServiceStatus::Degraded },
        ProbeView::Failed(_) => ServiceStatus::Down,
    }
}

/// The HTTP code recorded for a probe outcome (0 when no response came).
pub open spec fn probe_code(outcome: ProbeView) -> u16 {
    match outcome {
        ProbeView::Responded(c) => c,
        ProbeView::Failed(_) => 0,
    }
}

/// The error text recorded for a probe outcome.
pub open spec fn probe_error(outcome: ProbeView) -> Option<Seq<char>> {
    match outcome {
        ProbeView::Responded(c) => if c == 200 { None } else { Some("Returned status "@ + decimal(c as int)) },
        ProbeView::Failed(e) => Some(e),
    }
}

/// An optional string as plain values.
pub open spec fn opt_view(s: Option<String>) -> Option<Seq<char>> {
    match s {
        Some(t) => Some(t@),
        None => None,
    }
}

/// Judges one probe: its status, the HTTP code to record, and the error text.
pub fn classify_probe(outcome: &ProbeOutcome) -> (r: (ServiceStatus, u16, Option<String>))
    ensures
        r.0 == probe_status(outcome@),
        r.1 == probe_code(outcome@),
        opt_view(r.2) == probe_error(outcome@),
{
    match outcome {
        ProbeOutcome::Responded(code) => {
            if *code == 200 {
                (ServiceStatus::Up, *code, None)
            } else {
                let digits = unsigned_to_decimal(*code as u64);
                (ServiceStatus::Degraded, *code, Some(concat("Returned status ", digits.as_str())))
            }
        },
        ProbeOutcome::Failed(err) => (ServiceStatus::Down, 0, Some(err.clone())),
    }
}

/// A heartbeat row to insert (its id and check time are filled in by the database).
pub struct NewHeartbeat {
    pub service_id: i32,
    pub latency_ms: i32,
    pub http_status_code: i16,
    pub status_msg: String,
    pub error_log: Option<String>,
}

/// A heartbeat row as plain values.
pub struct HeartbeatView {
    pub service_id: i32,
    pub latency_ms: i32,
    pub http_status_code: i16,
    pub status_msg: Seq<char>,
    pub error_log: Option<Seq<char>>,
}

impl View for NewHeartbeat {
    type V = HeartbeatView;

    open spec fn view(&self) -> HeartbeatView {
        HeartbeatView {
            service_id: self.service_id,
            latency_ms: self.latency_ms,
            http_status_code: self.http_status_code,
            status_msg: self.status_msg@,
            error_log: opt_view(self.error_log),
        }
    }
}

/// The heartbeat recorded for a probe of `service_id` that took `elapsed_ms`:
/// the latency and the code are narrowed to the column types as `as` casts do.
pub open spec fn heartbeat_for(service_id: i32, elapsed_ms: u128, outcome: ProbeView) -> HeartbeatView {
    HeartbeatView {
        service_id,
        latency_ms: elapsed_ms as i32,
        http_status_code: probe_code(outcome) as i16,
        status_msg: probe_status(outcome).spec_label(),
        error_log: probe_error(outcome),
    }
}

/// Builds the heartbeat row for one probe.
pub fn build_heartbeat(service_id: i32, elapsed_ms: u128, outcome: &ProbeOutcome) -> (hb: NewHeartbeat)
    ensures
        hb@ == heartbeat_for(service_id, elapsed_ms, outcome@),
{
    let (status, code, error_log) = classify_probe(outcome);
    NewHeartbeat {
        service_id,
        latency_ms: elapsed_ms as i32,
        http_status_code: code as i16,
        status_msg: status.label().to_owned(),
        error_log,
    }
}

/// What the monitor is waiting for.
#[derive(Copy, Clone, Debug, PartialEq, Eq)]
pub enum MonitorPhase {
    /// The list of services to probe.
    AwaitingServices,
    /// The result of probing the current service.
    AwaitingProbe,
    /// Confirmation that the current heartbeat was recorded.
    AwaitingRecord,
    /// The end of the pause between two rounds.
    Sleeping,
}

/// What the monitor asks its driver to do next.
pub enum MonitorAction {
    /// Load every row of `monitored_services`.
    FetchServices,
    /// Send an HTTP GET to the service's URL and time it.
    Probe { service_id: i32, target_url: String },
    /// Insert the heartbeat, then set the service's `current_status` to the
    /// heartbeat's status message.
    RecordHeartbeat(NewHeartbeat),
    /// Wait this many seconds.
    Sleep { seconds: u64 },
}

/// What the driver reports back.
pub enum MonitorEvent {
    /// The pause is over.
    Woke,
    /// The services were loaded (`None` when the query failed).
    ServicesFetched(Option<Vec<monitored_services::Model>>),
    /// A probe finished after `elapsed_ms` milliseconds.
    ProbeFinished { elapsed_ms: u128, outcome: ProbeOutcome },
    /// The heartbeat was handled (written or reported as failed).
    HeartbeatRecorded,
}

/// An action as plain values.
pub enum ActionView {
    FetchServices,
    Probe(i32, Seq<char>),
    RecordHeartbeat(HeartbeatView),
    Sleep(u64),
}

/// An event as plain values; a service is its id and its URL.
pub enum EventView {
    Woke,
    ServicesFetched(Option<Seq<(i32, Seq<char>)>>),
    ProbeFinished(u128, ProbeView),
    HeartbeatRecorded,
}

impl View for MonitorAction {
    type V = ActionView;

    open spec fn view(&self) -> ActionView {
        match self {
            MonitorAction::FetchServices => ActionView::FetchServices,
            MonitorAction::Probe { service_id, target_url } => ActionView::Probe(*service_id, target_url@),
            MonitorAction::RecordHeartbeat(hb) => ActionView::RecordHeartbeat(hb@),
            MonitorAction::Sleep { seconds } => ActionView::Sleep(*seconds),
        }
    }
}

/// The id and URL of each service row, in order.
pub open spec fn service_targets(services: Seq<monitored_services::Model>) -> Seq<(i32, Seq<char>)> {
    services.map_values(|m: monitored_services::Model| (m.id, m.target_url@))
}

impl View for MonitorEvent {
    type V = EventView;

    open spec fn view(&self) -> EventView {
        match self {
            MonitorEvent::Woke => EventView::Woke,
            MonitorEvent::ServicesFetched(None) => EventView::ServicesFetched(None),
            MonitorEvent::ServicesFetched(Some(v)) => EventView::ServicesFetched(Some(service_targets(v@))),
            MonitorEvent::ProbeFinished { elapsed_ms, outcome } => EventView::ProbeFinished(*elapsed_ms, outcome@),
            MonitorEvent::HeartbeatRecorded => EventView::HeartbeatRecorded,
        }
    }
}

/// The monitor's state as plain values: the phase, the services of the current
/// round, and how many of them have been handed out for probing.
pub struct MonitorView {
    pub phase: MonitorPhase,
    pub round: Seq<(i32, Seq<char>)>,
    pub probed: nat,
}

/// The invariant of the monitor: while a probe or a record is pending, the
/// service concerned is `round[probed - 1]`.
pub open spec fn monitor_wf(m: MonitorView) -> bool {
    &&& m.probed <= m.round.len()
    &&& (m.phase == MonitorPhase::AwaitingProbe || m.phase == MonitorPhase::AwaitingRecord) ==> m.probed >= 1
}

/// The state the monitor starts in.
pub open spec fn monitor_initial() -> MonitorView {
    MonitorView { phase: MonitorPhase::AwaitingServices, round: Seq::empty(), probed: 0 }
}

/// Probe the next service of the round, or sleep when the round is done.
pub open spec fn advance(round: Seq<(i32, Seq<char>)>, probed: nat) -> (MonitorView, Option<ActionView>) {
    if probed < round.len() {
        (
            MonitorView { phase: MonitorPhase::AwaitingProbe, round, probed: probed + 1 },
            Some(ActionView::Probe(round[probed as int].0, round[probed as int].1)),
        )
    } else {
        (
            MonitorView { phase: MonitorPhase::Sleeping, round, probed },
            Some(ActionView::Sleep(POLL_INTERVAL_SECS)),
        )
    }
}

/// One transition: the next state and the action asked for, or no action when
/// the event is not the one the monitor waits for (the state is then kept).
pub open spec fn monitor_next(m: MonitorView, e: EventView) -> (MonitorView, Option<ActionView>) {
    match (m.phase, e) {
        (MonitorPhase::AwaitingServices, EventView::ServicesFetched(Some(round))) => advance(round, 0),
        (MonitorPhase::AwaitingServices, EventView::ServicesFetched(None)) => advance(Seq::empty(), 0),
        (MonitorPhase::AwaitingProbe, EventView::ProbeFinished(elapsed, outcome)) => (
            MonitorView { phase: MonitorPhase::AwaitingRecord, ..m },
            Some(ActionView::RecordHeartbeat(heartbeat_for(m.round[m.probed - 1].0, elapsed, outcome))),
        ),
        (MonitorPhase::AwaitingRecord, EventView::HeartbeatRecorded) => advance(m.round, m.probed),
        (MonitorPhase::Sleeping, EventView::Woke) => (
            MonitorView { phase: MonitorPhase::AwaitingServices, round: Seq::empty(), probed: 0 },
            Some(ActionView::FetchServices),
        ),
        _ => (m, None),
    }
}

/// An optional action as plain values.
pub open spec fn opt_action_view(a: Option<MonitorAction>) -> Option<ActionView> {
    match a {
        Some(x) => Some(x@),
        None => None,
    }
}

/// The polling loop of the health monitor, driven one event at a time.
pub struct ServiceMonitor {
    phase: MonitorPhase,
    round: Vec<monitored_services::Model>,
    probed: usize,
}

impl View for ServiceMonitor {
    type V = MonitorView;

    closed spec fn view(&self) -> MonitorView {
        MonitorView { phase: self.phase, round: service_targets(self.round@), probed: self.probed as nat }
    }
}

impl ServiceMonitor {
    #[verifier::type_invariant]
    closed spec fn well_formed(self) -> bool {
        monitor_wf(self@)
    }

    /// A monitor about to start its first round, and the first action: fetch the services.
    pub fn start() -> (r: (ServiceMonitor, MonitorAction))
        ensures
            r.0@ == monitor_initial(),
            r.1@ == ActionView::FetchServices,
    {
        let m = ServiceMonitor { phase: MonitorPhase::AwaitingServices, round: Vec::new(), probed: 0 };
        assert(m@.round =~= Seq::<(i32, Seq<char>)>::empty());
        (m, MonitorAction::FetchServices)
    }

    /// The current state, for inspection.
    pub fn phase(&self) -> (p: MonitorPhase)
        ensures
            p == self@.phase,
    {
        self.phase
    }

    fn advance_exec(round: Vec<monitored_services::Model>, probed: usize) -> (r: (ServiceMonitor, MonitorAction))
        requires
            probed <= round@.len(),
        ensures
            (r.0@, Some(r.1@)) == advance(service_targets(round@), probed as nat),
    {
        if probed < round.len() {
            let action = MonitorAction::Probe {
                service_id: round[probed].id,
                target_url: round[probed].target_url.clone(),
            };
            (ServiceMonitor { phase: MonitorPhase::AwaitingProbe, round, probed: probed + 1 }, action)
        } else {
            (ServiceMonitor { phase: MonitorPhase::Sleeping, round, probed }, MonitorAction::Sleep { seconds: POLL_INTERVAL_SECS })
        }
    }

    /// Feeds one event to the monitor and returns the next action, if the event
    /// was the one awaited.
    pub fn step(self, event: MonitorEvent) -> (r: (ServiceMonitor, Option<MonitorAction>))
        ensures
            (r.0@, opt_action_view(r.1)) == monitor_next(self@, event@),
    {
        proof {
            use_type_invariant(&self);
        }
        let ghost old_view = self@;
        let ghost ev = event@;
        match (self.phase, event) {
            (MonitorPhase::AwaitingServices, MonitorEvent::ServicesFetched(Some(round))) => {
                let (m, a) = Self::advance_exec(round, 0);
                (m, Some(a))
            },
            (MonitorPhase::AwaitingServices, MonitorEvent::ServicesFetched(None)) => {
                let (m, a) = Self::advance_exec(Vec::new(), 0);
                proof {
                    assert(service_targets(Seq::<monitored_services::Model>::empty()) =~= Seq::empty());
                }
                (m, Some(a))
            },
            (MonitorPhase::AwaitingProbe, MonitorEvent::ProbeFinished { elapsed_ms, outcome }) => {
                let id = self.round[self.probed - 1].id;
                let hb = build_heartbeat(id, elapsed_ms, &outcome);
                let ServiceMonitor { phase: _, round, probed } = self;
                (ServiceMonitor { phase: MonitorPhase::AwaitingRecord, round, probed }, Some(MonitorAction::RecordHeartbeat(hb)))
            },
            (MonitorPhase::AwaitingRecord, MonitorEvent::HeartbeatRecorded) => {
                let ServiceMonitor { phase: _, round, probed } = self;
                let (m, a) = Self::advance_exec(round, probed);
                (m, Some(a))
            },
            (MonitorPhase::Sleeping, MonitorEvent::Woke) => {
                let m = ServiceMonitor { phase: MonitorPhase::AwaitingServices, round: Vec::new(), probed: 0 };
                assert(m@.round =~= Seq::<(i32, Seq<char>)>::empty());
                (m, Some(MonitorAction::FetchServices))
            },
            (_, _) => (self, None),
        }
    }
}

/// Runs the monitor over a sequence of events: the final state and the
/// action answered to each event.
pub open spec fn monitor_run(m: MonitorView, events: Seq<EventView>) -> (MonitorView, Seq<Option<ActionView>>)
    decreases events.len(),
{
    if events.len() == 0 {
        (m, Seq::empty())
    } else {
        let (m1, a) = monitor_next(m, events[0]);
        let (m2, rest) = monitor_run(m1, events.drop_first());
        (m2, seq![a] + rest)
    }
}

/// The events of a round after its services were fetched: for each service in
/// turn, the end of its probe, then the confirmation that its heartbeat was recorded.
pub open spec fn round_events(results: Seq<(u128, ProbeView)>) -> Seq<EventView>
    decreases results.len(),
{
    if results.len() == 0 {
        Seq::empty()
    } else {
        seq![EventView::ProbeFinished(results[0].0, results[0].1), EventView::HeartbeatRecorded]
            + round_events(results.drop_first())
    }
}

proof fn lemma_round_from(round: Seq<(i32, Seq<char>)>, k: nat, results: Seq<(u128, ProbeView)>)
    requires
        k < round.len(),
        results.len() == round.len() - k,
    ensures
        ({
            let (last, acts) = monitor_run(
                MonitorView { phase: MonitorPhase::AwaitingProbe, round, probed: k + 1 },
                round_events(results),
            );
            &&& acts.len() == 2 * results.len()
            &&& last == MonitorView { phase: MonitorPhase::Sleeping, round, probed: round.len() }
            &&& forall|j: int| #![trigger results[j]] 0 <= j < results.len() ==> {
                &&& acts[2 * j] == Some(ActionView::RecordHeartbeat(
                    heartbeat_for(round[k + j].0, results[j].0, results[j].1),
                ))
                &&& acts[2 * j + 1] == if k + j + 1 < round.len() {
                    Some(ActionView::Probe(round[k + j + 1].0, round[k + j + 1].1))
                } else {
                    Some(ActionView::Sleep(POLL_INTERVAL_SECS))
                }
            }
        }),
    decreases results.len(),
{
    let m = MonitorView { phase: MonitorPhase::AwaitingProbe, round, probed: k + 1 };
    let evs = round_events(results);
    let tail = round_events(results.drop_first());
    assert(evs.drop_first() =~= seq![EventView::HeartbeatRecorded] + tail);
    assert((seq![EventView::HeartbeatRecorded] + tail).drop_first() =~= tail);
    let (m1, a1) = monitor_next(m, evs[0]);
    let (m2, a2) = monitor_next(m1, EventView::HeartbeatRecorded);
    assert(a1 == Some(ActionView::RecordHeartbeat(heartbeat_for(round[k as int].0, results[0].0, results[0].1))));
    if k + 1 < round.len() {
        lemma_round_from(round, k + 1, results.drop_first());
        let (last, rest) = monitor_run(m2, tail);
        let acts = seq![a1] + (seq![a2] + rest);
        let e1 = evs.drop_first();
        assert(e1[0] == EventView::HeartbeatRecorded);
        assert(e1.drop_first() =~= tail);
        assert(monitor_run(m1, e1) == (last, seq![a2] + rest));
        assert(monitor_run(m, evs) == (last, acts));
        assert forall|j: int| #![trigger results[j]] 0 <= j < results.len() implies {
            &&& acts[2 * j] == Some(ActionView::RecordHeartbeat(
                heartbeat_for(round[k + j].0, results[j].0, results[j].1),
            ))
            &&& acts[2 * j + 1] == if k + j + 1 < round.len() {
                Some(ActionView::Probe(round[k + j + 1].0, round[k + j + 1].1))
            } else {
                Some(ActionView::Sleep(POLL_INTERVAL_SECS))
            }
        } by {
            if j > 0 {
                let r = results.drop_first();
                assert(r[j - 1] == results[j]);
                assert(acts[2 * j] == rest[2 * (j - 1)]);
                assert(acts[2 * j + 1] == rest[2 * (j - 1) + 1]);
            }
        }
    } else {
        assert(tail =~= Seq::<EventView>::empty()) by {
            assert(results.drop_first().len() == 0);
        }
        let acts = seq![a1] + (seq![a2] + Seq::<Option<ActionView>>::empty());
        let e1 = evs.drop_first();
        assert(e1[0] == EventView::HeartbeatRecorded);
        assert(e1.drop_first() =~= tail);
        assert(monitor_run(m2, tail) == (m2, Seq::<Option<ActionView>>::empty()));
        assert(monitor_run(m1, e1) == (m2, seq![a2] + Seq::<Option<ActionView>>::empty()));
        assert(monitor_run(m, evs) == (m2, acts));
    }
}

/// A polling round handles every fetched service once and in order: after the
/// services are fetched, each is probed, its heartbeat is recorded with the
/// result of that probe, then the next one is probed; after the last the
/// monitor sleeps for the poll interval.
pub proof fn lemma_round_covers_every_service(
    m: MonitorView,
    round: Seq<(i32, Seq<char>)>,
    results: Seq<(u128, ProbeView)>,
)
    requires
        m.phase == MonitorPhase::AwaitingServices,
        results.len() == round.len(),
    ensures
        ({
            let (last, acts) = monitor_run(m, seq![EventView::ServicesFetched(Some(round))] + round_events(results));
            &&& acts.len() == 2 * round.len() + 1
            &&& forall|i: int| #![trigger round[i]] 0 <= i < round.len() ==> {
                &&& acts[2 * i] == Some(ActionView::Probe(round[i].0, round[i].1))
                &&& acts[2 * i + 1] == Some(ActionView::RecordHeartbeat(
                    heartbeat_for(round[i].0, results[i].0, results[i].1),
                ))
            }
            &&& acts[2 * round.len() as int] == Some(ActionView::Sleep(POLL_INTERVAL_SECS))
            &&& last.phase == MonitorPhase::Sleeping
        }),
{
    let evs = seq![EventView::ServicesFetched(Some(round))] + round_events(results);
    assert(evs.drop_first() =~= round_events(results));
    let (m1, a0) = monitor_next(m, evs[0]);
    if round.len() == 0 {
        assert(round_events(results) =~= Seq::<EventView>::empty());
        assert(monitor_run(m1, evs.drop_first()) == (m1, Seq::<Option<ActionView>>::empty()));
        assert(monitor_run(m, evs) == (m1, seq![a0] + Seq::<Option<ActionView>>::empty()));
    } else {
        lemma_round_from(round, 0, results);
        let (last, rest) = monitor_run(m1, round_events(results));
        let acts = seq![a0] + rest;
        assert(monitor_run(m, evs) == (last, acts));
        assert forall|i: int| #![trigger round[i]] 0 <= i < round.len() implies {
            &&& acts[2 * i] == Some(ActionView::Probe(round[i].0, round[i].1))
            &&& acts[2 * i + 1] == Some(ActionView::RecordHeartbeat(
                heartbeat_for(round[i].0, results[i].0, results[i].1),
            ))
        } by {
            // the probe result of service i, and of the one before it, as
            // `lemma_round_from` describes them
            let this_probe = results[i];
            assert(acts[2 * i + 1] == rest[2 * i]);
            if i > 0 {
                let previous_probe = results[i - 1];
                assert(acts[2 * i] == rest[2 * (i - 1) + 1]);
            }
        }
        let last_probe = results[round.len() - 1];
        assert(acts[2 * round.len() as int] == rest[2 * (round.len() - 1) + 1]);
    }
}

/// Any HTTP response means the service is reachable: code 200 is `UP`, every
/// other code is `DEGRADED`, and `DOWN` is recorded only when no response came
/// at all. The recorded code is the response's code (0 without a response);
/// an error text is recorded exactly when the status is not `UP`: the
/// transport error, or "Returned status <code>".
pub proof fn lemma_probe_judgement(outcome: ProbeView)
    ensures
        probe_status(outcome) == ServiceStatus::Down <==> outcome is Failed,
        outcome matches ProbeView::Responded(c) ==> (probe_status(outcome) == ServiceStatus::Up <==> c == 200),
        outcome matches ProbeView::Responded(c) ==> (probe_status(outcome) == ServiceStatus::Degraded <==> c != 200),
        outcome matches ProbeView::Responded(c) ==> probe_code(outcome) == c,
        outcome is Failed ==> probe_code(outcome) == 0,
        probe_error(outcome) is None <==> probe_status(outcome) == ServiceStatus::Up,
        outcome matches ProbeView::Responded(c)
            ==> (c != 200 ==> probe_error(outcome) == Some("Returned status "@ + decimal(c as int))),
        outcome matches ProbeView::Failed(e) ==> probe_error(outcome) == Some(e),
{
}

/// The heartbeat row of a probe: it belongs to the probed service, its latency
/// is the elapsed milliseconds (narrowed only to `i32`, so unchanged up to
/// `i32::MAX`), its code is the response code, and its status message is
/// "UP" for HTTP 200, "DOWN" without a response and "DEGRADED" otherwise.
pub proof fn lemma_heartbeat_row(service_id: i32, elapsed_ms: u128, outcome: ProbeView)
    ensures
        ({
            let hb = heartbeat_for(service_id, elapsed_ms, outcome);
            &&& hb.service_id == service_id
            &&& hb.latency_ms == elapsed_ms as i32
            &&& elapsed_ms <= i32::MAX ==> hb.latency_ms == elapsed_ms
            &&& (outcome matches ProbeView::Responded(c) ==> (c <= i16::MAX ==> hb.http_status_code == c))
            &&& outcome is Failed ==> hb.http_status_code == 0
            &&& hb.status_msg == if outcome is Failed {
                "DOWN"@
            } else if outcome == ProbeView::Responded(200) {
                "UP"@
            } else {
                "DEGRADED"@
            }
            &&& hb.error_log == probe_error(outcome)
        }),
{
}

/// When the services cannot be loaded, nothing is probed: from any state that
/// waits for the services, a failed query sends the monitor straight to sleep
/// for the poll interval with an empty round; an empty list does the same.
pub proof fn lemma_failed_fetch_sleeps(m: MonitorView)
    requires
        m.phase == MonitorPhase::AwaitingServices,
    ensures
        monitor_next(m, EventView::ServicesFetched(None)) == (
            MonitorView { phase: MonitorPhase::Sleeping, round: Seq::empty(), probed: 0 },
            Some(ActionView::Sleep(30)),
        ),
        monitor_next(m, EventView::ServicesFetched(Some(Seq::empty()))) == (
            MonitorView { phase: MonitorPhase::Sleeping, round: Seq::empty(), probed: 0 },
            Some(ActionView::Sleep(30)),
        ),
{
}

/// Waking up starts a fresh round: the services are fetched again and nothing
/// of the previous round is kept.
pub proof fn lemma_wake_starts_fresh_round(m: MonitorView)
    requires
        m.phase == MonitorPhase::Sleeping,
    ensures
        monitor_next(m, EventView::Woke) == (
            MonitorView { phase: MonitorPhase::AwaitingServices, round: Seq::empty(), probed: 0 },
            Some(ActionView::FetchServices),
        ),
{
}

/// A round whose services query fails probes nothing: from any sleeping state,
/// waking and then failing to load the services answers "fetch" then "sleep 30 s"
/// and ends asleep again, whatever the previous round held.
pub proof fn lemma_failed_round_probes_nothing(m: MonitorView)
    requires
        m.phase == MonitorPhase::Sleeping,
    ensures
        monitor_run(m, seq![EventView::Woke, EventView::ServicesFetched(None)]) == (
            MonitorView { phase: MonitorPhase::Sleeping, round: Seq::empty(), probed: 0 },
            seq![Some(ActionView::FetchServices), Some(ActionView::Sleep(30))],
        ),
{
    let evs = seq![EventView::Woke, EventView::ServicesFetched(None)];
    let m1 = MonitorView { phase: MonitorPhase::AwaitingServices, round: Seq::empty(), probed: 0 };
    let m2 = MonitorView { phase: MonitorPhase::Sleeping, round: Seq::empty(), probed: 0 };
    assert(evs.drop_first() =~= seq![EventView::ServicesFetched(None)]);
    assert(evs.drop_first().drop_first() =~= Seq::<EventView>::empty());
    assert(monitor_run(m2, Seq::empty()) == (m2, Seq::<Option<ActionView>>::empty()));
    assert(monitor_run(m1, evs.drop_first()) == (m2, seq![Some(ActionView::Sleep(30))]));
    assert(seq![Some(ActionView::FetchServices)] + seq![Some(ActionView::Sleep(30))]
        =~= seq![Some(ActionView::FetchServices), Some(ActionView::Sleep(30))]);
}

} // verus!
