use st_supervisor::config::{default_config, ServiceConfig};
use st_supervisor::handoff::{handoff_steps, HandoffStep};
use st_supervisor::probe::{classify_attempt, ReadinessOutcome};
use st_supervisor::supervisor::{
    ProbeAction, ShutdownDecision, Supervisor, SupervisorState, WindowEventKind, WindowLabel,
};

fn small_config(max_attempts: u32) -> ServiceConfig {
    ServiceConfig {
        url: "http://localhost:8501".to_string(),
        port: 8501,
        max_attempts,
        interval_ms: 500,
        settle_ms: 500,
        load_ms: 250,
    }
}

#[test]
fn default_config_values() {
    let c = default_config();
    assert_eq!(c.url, "http://localhost:8501");
    assert_eq!(c.port, 8501);
    assert_eq!(c.max_attempts, 60);
    assert_eq!(c.interval_ms, 500);
    assert_eq!(c.settle_ms, 500);
    assert_eq!(c.load_ms, 250);
}

#[test]
fn classify_success_is_ready() {
    assert_eq!(classify_attempt(1, 60, true), ReadinessOutcome::Ready);
    assert_eq!(classify_attempt(60, 60, true), ReadinessOutcome::Ready);
}

#[test]
fn classify_failure_mid_run_is_pending() {
    assert_eq!(
        classify_attempt(7, 60, false),
        ReadinessOutcome::Pending { attempt: 7, max_attempts: 60 }
    );
}

#[test]
fn classify_failure_at_bound_is_timeout() {
    assert_eq!(classify_attempt(60, 60, false), ReadinessOutcome::Timeout);
}

#[test]
fn timeout_after_exactly_max_attempts() {
    let mut sup = Supervisor::new(default_config());
    sup.on_spawned();
    let results = vec![false; 60];
    let log = sup.run_probe_sequence(&results);
    assert_eq!(log.len(), 60);
    for (i, action) in log.iter().enumerate().take(59) {
        assert_eq!(
            *action,
            ProbeAction::Retry {
                outcome: ReadinessOutcome::Pending {
                    attempt: (i + 1) as u32,
                    max_attempts: 60,
                },
                interval_ms: 500,
            }
        );
    }
    assert_eq!(
        log[59],
        ProbeAction::BeginHandoff { outcome: ReadinessOutcome::Timeout }
    );
    assert_eq!(sup.state, SupervisorState::HandoffComplete);
}

#[test]
fn probing_stops_at_first_success() {
    let mut sup = Supervisor::new(small_config(5));
    sup.on_spawned();
    let results = vec![false, false, true, false, false];
    let log = sup.run_probe_sequence(&results);
    assert_eq!(log.len(), 3);
    assert_eq!(
        log[0],
        ProbeAction::Retry {
            outcome: ReadinessOutcome::Pending { attempt: 1, max_attempts: 5 },
            interval_ms: 500,
        }
    );
    assert_eq!(
        log[1],
        ProbeAction::Retry {
            outcome: ReadinessOutcome::Pending { attempt: 2, max_attempts: 5 },
            interval_ms: 500,
        }
    );
    assert_eq!(
        log[2],
        ProbeAction::BeginHandoff { outcome: ReadinessOutcome::Ready }
    );
    assert_eq!(sup.attempts, 3);
    assert_eq!(sup.state, SupervisorState::HandoffComplete);
}

#[test]
fn immediate_success_issues_one_probe() {
    let mut sup = Supervisor::new(small_config(5));
    sup.on_spawned();
    let results = vec![true, true, true, true, true];
    let log = sup.run_probe_sequence(&results);
    assert_eq!(log.len(), 1);
    assert_eq!(
        log[0],
        ProbeAction::BeginHandoff { outcome: ReadinessOutcome::Ready }
    );
}

#[test]
fn handoff_plan_is_the_fixed_sequence() {
    let plan = handoff_steps(&default_config());
    assert_eq!(
        plan,
        vec![
            HandoffStep::Delay { ms: 500 },
            HandoffStep::Redirect,
            HandoffStep::Delay { ms: 250 },
            HandoffStep::HidePlaceholder,
            HandoffStep::ShowPrimary,
        ]
    );
}

#[test]
fn handoff_redirect_precedes_hide_and_show() {
    let plan = handoff_steps(&default_config());
    let redirect = plan.iter().position(|s| *s == HandoffStep::Redirect).unwrap();
    let hide = plan.iter().position(|s| *s == HandoffStep::HidePlaceholder).unwrap();
    let show = plan.iter().position(|s| *s == HandoffStep::ShowPrimary).unwrap();
    assert!(redirect < hide);
    assert!(redirect < show);
    assert!(hide < show);
}

#[test]
fn two_shutdown_triggers_run_the_sweep_once() {
    let mut sup = Supervisor::new(default_config());
    let first = sup.on_window_event(WindowLabel::Placeholder, WindowEventKind::CloseRequested);
    let second = sup.on_window_event(WindowLabel::Primary, WindowEventKind::Destroyed);
    assert_eq!(first, ShutdownDecision::RunSweepAndExit);
    assert_eq!(second, ShutdownDecision::Ignore);
}

#[test]
fn two_shutdown_triggers_other_order_run_the_sweep_once() {
    let mut sup = Supervisor::new(default_config());
    let first = sup.on_window_event(WindowLabel::Primary, WindowEventKind::Destroyed);
    let second = sup.on_window_event(WindowLabel::Placeholder, WindowEventKind::CloseRequested);
    assert_eq!(first, ShutdownDecision::RunSweepAndExit);
    assert_eq!(second, ShutdownDecision::Ignore);
}

#[test]
fn non_trigger_events_are_ignored() {
    let mut sup = Supervisor::new(default_config());
    assert_eq!(
        sup.on_window_event(WindowLabel::Primary, WindowEventKind::CloseRequested),
        ShutdownDecision::Ignore
    );
    assert_eq!(
        sup.on_window_event(WindowLabel::Placeholder, WindowEventKind::Destroyed),
        ShutdownDecision::Ignore
    );
    assert_eq!(
        sup.on_window_event(WindowLabel::Other, WindowEventKind::Other),
        ShutdownDecision::Ignore
    );
    assert_eq!(sup.state, SupervisorState::Starting);
}

#[test]
fn full_lifecycle_reaches_terminated_with_success_code() {
    let mut sup = Supervisor::new(small_config(2));
    assert_eq!(sup.state, SupervisorState::Starting);
    sup.on_spawned();
    assert_eq!(sup.state, SupervisorState::Probing);
    let log = sup.run_probe_sequence(&vec![false, false]);
    assert_eq!(log.len(), 2);
    assert_eq!(sup.state, SupervisorState::HandoffComplete);
    let d = sup.on_window_event(WindowLabel::Placeholder, WindowEventKind::CloseRequested);
    assert_eq!(d, ShutdownDecision::RunSweepAndExit);
    assert_eq!(sup.state, SupervisorState::ShuttingDown);
    let code = sup.on_sweep_complete();
    assert_eq!(code, 0);
    assert_eq!(sup.state, SupervisorState::Terminated);
}

#[test]
fn shutdown_trigger_before_handoff_still_runs_sweep() {
    let mut sup = Supervisor::new(default_config());
    sup.on_spawned();
    let d = sup.on_window_event(WindowLabel::Placeholder, WindowEventKind::CloseRequested);
    assert_eq!(d, ShutdownDecision::RunSweepAndExit);
    assert_eq!(sup.state, SupervisorState::ShuttingDown);
}
