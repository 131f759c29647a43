use cloud_profiler_rust::control::ControlState;
use cloud_profiler_rust::control::DeploymentInfo;
use cloud_profiler_rust::control::GateAction;
use cloud_profiler_rust::control::ProfileSession;
use cloud_profiler_rust::control::SessionAction;
use cloud_profiler_rust::control::IDLE_SLEEP_MS;

fn session(duration_ms: Option<u64>) -> ProfileSession {
    ProfileSession { duration_ms, name: Some("projects/p/profiles/1".to_string()) }
}

#[test]
fn gate_off_idles_without_remote_calls() {
    let mut s = ControlState::new(60_000, 3_600_000, 13, 10);
    // A gate that alternates false/true: every off iteration only sleeps the
    // fixed idle interval and leaves the state alone.
    let mut remote_calls = 0;
    for round in 0..6 {
        let gate = round % 2 == 1;
        match s.on_gate(gate) {
            GateAction::SleepIdle(ms) => {
                assert!(!gate);
                assert_eq!(ms, IDLE_SLEEP_MS);
                assert_eq!(ms, 60_000);
                assert_eq!(s.pending_retry_ms, None);
                assert_eq!(s.backoff.current_envelope_ms, 60_000);
            }
            GateAction::Run(wait) => {
                assert!(gate);
                // The cycle resumes promptly: no retry wait is pending.
                assert_eq!(wait, None);
                remote_calls += 1;
                // The remote create succeeds; the cycle runs to completion.
                let act = s.on_session_response(&session(Some(1_000)));
                assert!(matches!(act, SessionAction::Sample(1_000)));
                s.on_cycle_success();
            }
        }
    }
    assert_eq!(remote_calls, 3);
}

#[test]
fn create_failing_n_times_retries_with_nondecreasing_bounds() {
    let n = 5;
    let mut s = ControlState::new(60_000, 3_600_000, 13, 10);
    let mut create_attempts = 0;
    let mut last_bound = 0u64;
    loop {
        match s.on_gate(true) {
            GateAction::SleepIdle(_) => unreachable!(),
            GateAction::Run(wait) => {
                if create_attempts == 0 {
                    assert_eq!(wait, None);
                }
                create_attempts += 1;
                if create_attempts <= n {
                    // The remote create fails; the loop backs off.
                    let bound_before = s.backoff.current_envelope_ms;
                    assert!(bound_before >= last_bound);
                    let w = s.on_stage_failure();
                    assert!(w < bound_before);
                    assert_eq!(s.pending_retry_ms, Some(w));
                    last_bound = bound_before;
                } else {
                    // The remote create succeeds; sampling proceeds.
                    let act = s.on_session_response(&session(Some(10_000)));
                    assert!(matches!(act, SessionAction::Sample(10_000)));
                    break;
                }
            }
        }
    }
    assert_eq!(create_attempts, n + 1);
}

#[test]
fn zero_duration_session_samples_immediately() {
    let mut s = ControlState::new(60_000, 3_600_000, 13, 10);
    assert!(matches!(s.on_gate(true), GateAction::Run(None)));
    let act = s.on_session_response(&session(Some(0)));
    assert!(matches!(act, SessionAction::Sample(0)));
    s.on_cycle_success();
    assert_eq!(s.pending_retry_ms, None);
}

#[test]
fn missing_duration_is_a_failure_and_retries() {
    let mut s = ControlState::new(60_000, 3_600_000, 13, 10);
    assert!(matches!(s.on_gate(true), GateAction::Run(None)));
    let act = s.on_session_response(&session(None));
    match act {
        SessionAction::Retry(w) => {
            assert!(w < 60_000);
            assert_eq!(s.pending_retry_ms, Some(w));
        }
        SessionAction::Sample(_) => panic!("missing duration must not sample"),
    }
    // The loop keeps going: the next iteration waits out the delay and retries.
    match s.on_gate(true) {
        GateAction::Run(Some(w)) => assert_eq!(Some(w), s.pending_retry_ms),
        _ => panic!("expected a retry wait"),
    }
}

#[test]
fn upload_failure_once_then_success_resets_backoff_to_floor() {
    // Gate always true, floor 60 s, ceiling 3600 s, growth 1.3; the session
    // always comes back with a 5 s duration; the upload fails once.
    let mut s = ControlState::new(60_000, 3_600_000, 13, 10);

    // First cycle: create and sampling succeed, the upload fails.
    assert!(matches!(s.on_gate(true), GateAction::Run(None)));
    assert!(matches!(s.on_session_response(&session(Some(5_000))), SessionAction::Sample(5_000)));
    let w = s.on_stage_failure();
    assert!(w < 60_000);

    // Second cycle: one backoff wait in [0, 60 s), then the upload succeeds.
    match s.on_gate(true) {
        GateAction::Run(Some(wait)) => assert!(wait < 60_000 && wait == w),
        _ => panic!("expected a retry wait before the second attempt"),
    }
    assert!(matches!(s.on_session_response(&session(Some(5_000))), SessionAction::Sample(5_000)));
    s.on_cycle_success();

    // Next cycle: the backoff generator is back at its floor.
    assert!(matches!(s.on_gate(true), GateAction::Run(None)));
    assert_eq!(s.backoff.current_envelope_ms, 60_000);
}

#[test]
fn deployment_info_carries_language_and_version_labels() {
    let d = DeploymentInfo::new("my-project".to_string(), "my-service".to_string(), "v7".to_string());
    assert_eq!(d.project_id, "my-project");
    assert_eq!(d.target, "my-service");
    assert_eq!(d.labels.len(), 2);
    assert_eq!(d.labels[0], ("language".to_string(), "go".to_string()));
    assert_eq!(d.labels[1], ("version".to_string(), "v7".to_string()));
}
