use killport::signal::KillportSignal;
use st_supervisor::policy::{contains_bytes, default_policy, SignalKind};
use st_supervisor::sweep::{plan_sweep, signal_for, EnumerationFailure, KillableRecord, SweepAction};

fn bytes(s: &str) -> Vec<u8> {
    s.as_bytes().to_vec()
}

#[test]
fn contains_bytes_finds_inner_needle() {
    assert!(contains_bytes(&bytes("streamlit-server"), &bytes("streamlit")));
    assert!(contains_bytes(&bytes("run_entrypoint_v2"), &bytes("entrypoint")));
    assert!(contains_bytes(&bytes("abc"), &bytes("abc")));
    assert!(contains_bytes(&bytes("abc"), &bytes("c")));
}

#[test]
fn contains_bytes_rejects_absent_needle() {
    assert!(!contains_bytes(&bytes("unrelated-app"), &bytes("streamlit")));
    assert!(!contains_bytes(&bytes("abc"), &bytes("abd")));
    assert!(!contains_bytes(&bytes("Streamlit"), &bytes("streamlit")));
}

#[test]
fn contains_bytes_empty_needle_always_matches() {
    assert!(contains_bytes(&bytes("anything"), &bytes("")));
    assert!(contains_bytes(&bytes(""), &bytes("")));
}

#[test]
fn contains_bytes_needle_longer_than_haystack() {
    assert!(!contains_bytes(&bytes("st"), &bytes("streamlit")));
    assert!(!contains_bytes(&bytes(""), &bytes("a")));
}

#[test]
fn default_policy_substrings_and_signal() {
    let p = default_policy();
    assert_eq!(p.substrings.len(), 3);
    assert_eq!(p.substrings[0], bytes("st_score_analyzer"));
    assert_eq!(p.substrings[1], bytes("entrypoint"));
    assert_eq!(p.substrings[2], bytes("streamlit"));
    assert_eq!(p.signal, SignalKind::ForceKill);
}

#[test]
fn policy_spares_unrelated_and_matches_service() {
    let p = default_policy();
    assert!(!p.matches_name(&bytes("unrelated-app")));
    assert!(p.matches_name(&bytes("streamlit-server")));
    assert!(p.matches_name(&bytes("st_score_analyzer")));
    assert!(p.matches_name(&bytes("python entrypoint.py")));
}

#[test]
fn sweep_signals_only_the_matching_process() {
    let p = default_policy();
    let records = vec![
        KillableRecord { name: bytes("entrypoint"), pid: 100 },
        KillableRecord { name: bytes("unrelated-app"), pid: 200 },
    ];
    let plan = plan_sweep(&p, &Ok(records));
    assert_eq!(
        plan,
        vec![SweepAction::Signal { pid: 100 }, SweepAction::Exit { code: 0 }]
    );
}

#[test]
fn sweep_keeps_enumeration_order_of_matches() {
    let p = default_policy();
    let records = vec![
        KillableRecord { name: bytes("streamlit"), pid: 7 },
        KillableRecord { name: bytes("other"), pid: 8 },
        KillableRecord { name: bytes("st_score_analyzer"), pid: 9 },
    ];
    let plan = plan_sweep(&p, &Ok(records));
    assert_eq!(
        plan,
        vec![
            SweepAction::Signal { pid: 7 },
            SweepAction::Signal { pid: 9 },
            SweepAction::Exit { code: 0 },
        ]
    );
}

#[test]
fn sweep_with_no_bound_processes_still_exits() {
    let p = default_policy();
    let plan = plan_sweep(&p, &Ok(Vec::new()));
    assert_eq!(plan, vec![SweepAction::Exit { code: 0 }]);
}

#[test]
fn enumeration_error_is_logged_and_process_exits() {
    let p = default_policy();
    let plan = plan_sweep(&p, &Err(EnumerationFailure {}));
    assert_eq!(
        plan,
        vec![SweepAction::LogEnumerationFailure, SweepAction::Exit { code: 0 }]
    );
}

#[test]
fn force_kill_signal_is_sigkill() {
    let expected: KillportSignal = "SIGKILL".parse().unwrap();
    assert_eq!(signal_for(SignalKind::ForceKill), expected);
    let not_expected: KillportSignal = "SIGTERM".parse().unwrap();
    assert_ne!(signal_for(SignalKind::ForceKill), not_expected);
}
