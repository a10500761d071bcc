use systembridge::backend::{
    base_url, check_backend, is_backend_process, keep_backend_alive, probe_url, run_supervisor,
    start_round, stop_backend, BackendDown, ProcessInfo, RecoveryStep, SupervisorAction,
    SupervisorContext, SupervisorEvent, SupervisorState, BACKEND_HOST, BACKEND_PATH,
    KEEP_ALIVE_INTERVAL_SECS, PROBE_TIMEOUT_SECS,
};

const CHECKING: SupervisorState = SupervisorState::Checking { recovered: false };
const RECHECKING: SupervisorState = SupervisorState::Checking { recovered: true };
const STOPPING: SupervisorState = SupervisorState::Recovering { step: RecoveryStep::Stopping };
const STARTING: SupervisorState = SupervisorState::Recovering { step: RecoveryStep::Starting };

#[test]
fn urls() {
    assert_eq!(base_url(9170), "http://127.0.0.1:9170");
    assert_eq!(base_url(0), "http://127.0.0.1:0");
    assert_eq!(base_url(-5), "http://127.0.0.1:-5");
    assert_eq!(probe_url(&base_url(80)), "http://127.0.0.1:80/");
    assert_eq!(BACKEND_HOST, "127.0.0.1");
    assert_eq!(BACKEND_PATH, "_up_/dist/systembridgebackend/systembridgebackend");
    assert_eq!(PROBE_TIMEOUT_SECS, 5);
    assert!(30 <= KEEP_ALIVE_INTERVAL_SECS && KEEP_ALIVE_INTERVAL_SECS <= 60);
}

#[test]
fn a_probe_passes_on_a_success_status() {
    assert_eq!(check_backend(Some(200)), Ok(()));
    assert_eq!(check_backend(Some(204)), Ok(()));
    assert_eq!(check_backend(Some(299)), Ok(()));
    assert_eq!(check_backend(Some(199)), Err(BackendDown::BadStatus { status: 199 }));
    assert_eq!(check_backend(Some(300)), Err(BackendDown::BadStatus { status: 300 }));
    assert_eq!(check_backend(Some(404)), Err(BackendDown::BadStatus { status: 404 }));
    assert_eq!(check_backend(Some(500)), Err(BackendDown::BadStatus { status: 500 }));
    assert_eq!(check_backend(None), Err(BackendDown::NoAnswer));
}

#[test]
fn worker_processes_are_told_by_name() {
    assert!(is_backend_process("systembridgebackend"));
    assert!(is_backend_process("systembridgebac"));
    assert!(is_backend_process("/usr/bin/systembridgebackend --x"));
    assert!(is_backend_process("xsystembridgebacx"));
    assert!(!is_backend_process("systembridge"));
    assert!(!is_backend_process("systembridgeba"));
    assert!(!is_backend_process("SystemBridgeBackend"));
    assert!(!is_backend_process(""));
}

#[test]
fn stop_picks_the_worker_processes() {
    let processes = vec![
        ProcessInfo { pid: 1, name: "init".to_string() },
        ProcessInfo { pid: 20, name: "systembridgebackend".to_string() },
        ProcessInfo { pid: 21, name: "systembridge".to_string() },
        ProcessInfo { pid: 22, name: "systembridgebac".to_string() },
    ];
    assert_eq!(stop_backend(&processes), vec![20, 22]);
    assert_eq!(stop_backend(&vec![]), Vec::<u32>::new());
}

#[test]
fn a_passing_probe_kills_and_starts_nothing() {
    assert_eq!(start_round(), (CHECKING, SupervisorAction::Probe));
    assert_eq!(
        keep_backend_alive(SupervisorContext::KeepAlive, CHECKING, SupervisorEvent::ProbeSucceeded),
        (SupervisorState::Alive, SupervisorAction::Sleep)
    );
    assert_eq!(
        keep_backend_alive(SupervisorContext::Bootstrap, CHECKING, SupervisorEvent::ProbeSucceeded),
        (SupervisorState::Alive, SupervisorAction::Proceed)
    );
    let (state, actions) = run_supervisor(
        SupervisorContext::KeepAlive,
        CHECKING,
        &vec![SupervisorEvent::ProbeSucceeded],
    );
    assert_eq!(state, SupervisorState::Alive);
    assert!(!actions.contains(&SupervisorAction::Stop));
    assert!(!actions.contains(&SupervisorAction::Start));
}

#[test]
fn a_failing_probe_stops_then_starts_once() {
    for context in [SupervisorContext::Bootstrap, SupervisorContext::KeepAlive] {
        let events = vec![
            SupervisorEvent::ProbeFailed,
            SupervisorEvent::Stopped,
            SupervisorEvent::Started,
        ];
        let (state, actions) = run_supervisor(context, CHECKING, &events);
        assert_eq!(state, RECHECKING);
        assert_eq!(
            actions,
            vec![SupervisorAction::Stop, SupervisorAction::Start, SupervisorAction::Probe]
        );
    }
    assert_eq!(
        keep_backend_alive(SupervisorContext::KeepAlive, CHECKING, SupervisorEvent::ProbeFailed),
        (STOPPING, SupervisorAction::Stop)
    );
    assert_eq!(
        keep_backend_alive(SupervisorContext::KeepAlive, STOPPING, SupervisorEvent::Stopped),
        (STARTING, SupervisorAction::Start)
    );
}

#[test]
fn a_recovered_worker_settles() {
    let events = vec![
        SupervisorEvent::ProbeFailed,
        SupervisorEvent::Stopped,
        SupervisorEvent::Started,
        SupervisorEvent::ProbeSucceeded,
    ];
    let (state, actions) = run_supervisor(SupervisorContext::Bootstrap, CHECKING, &events);
    assert_eq!(state, SupervisorState::Alive);
    assert_eq!(actions.last(), Some(&SupervisorAction::Proceed));
}

#[test]
fn a_still_failing_probe_is_fatal_at_bootstrap() {
    let events = vec![
        SupervisorEvent::ProbeFailed,
        SupervisorEvent::Stopped,
        SupervisorEvent::Started,
        SupervisorEvent::ProbeFailed,
        SupervisorEvent::IntervalElapsed,
        SupervisorEvent::ProbeSucceeded,
    ];
    let (state, actions) = run_supervisor(SupervisorContext::Bootstrap, CHECKING, &events);
    assert_eq!(state, SupervisorState::Exited);
    assert_eq!(
        actions,
        vec![
            SupervisorAction::Stop,
            SupervisorAction::Start,
            SupervisorAction::Probe,
            SupervisorAction::Exit,
            SupervisorAction::Ignore,
            SupervisorAction::Ignore,
        ]
    );
    assert_eq!(
        keep_backend_alive(SupervisorContext::Bootstrap, STARTING, SupervisorEvent::StartFailed),
        (SupervisorState::Exited, SupervisorAction::Exit)
    );
}

#[test]
fn a_still_failing_probe_is_reported_in_the_keep_alive_loop() {
    let events = vec![
        SupervisorEvent::ProbeFailed,
        SupervisorEvent::Stopped,
        SupervisorEvent::Started,
        SupervisorEvent::ProbeFailed,
        SupervisorEvent::IntervalElapsed,
        SupervisorEvent::ProbeFailed,
        SupervisorEvent::Stopped,
        SupervisorEvent::StartFailed,
        SupervisorEvent::IntervalElapsed,
        SupervisorEvent::ProbeSucceeded,
    ];
    let (state, actions) = run_supervisor(SupervisorContext::KeepAlive, CHECKING, &events);
    assert_eq!(state, SupervisorState::Alive);
    assert_eq!(
        actions,
        vec![
            SupervisorAction::Stop,
            SupervisorAction::Start,
            SupervisorAction::Probe,
            SupervisorAction::Report,
            SupervisorAction::Probe,
            SupervisorAction::Stop,
            SupervisorAction::Start,
            SupervisorAction::Report,
            SupervisorAction::Probe,
            SupervisorAction::Sleep,
        ]
    );
    assert!(!actions.contains(&SupervisorAction::Exit));
}

#[test]
fn the_next_round_starts_when_the_interval_has_passed() {
    for state in [SupervisorState::Alive, SupervisorState::Down] {
        assert_eq!(
            keep_backend_alive(SupervisorContext::KeepAlive, state, SupervisorEvent::IntervalElapsed),
            (CHECKING, SupervisorAction::Probe)
        );
    }
}

#[test]
fn events_that_a_state_does_not_wait_for_change_nothing() {
    let cases = [
        (CHECKING, SupervisorEvent::Stopped),
        (CHECKING, SupervisorEvent::Started),
        (CHECKING, SupervisorEvent::IntervalElapsed),
        (STOPPING, SupervisorEvent::ProbeFailed),
        (STOPPING, SupervisorEvent::Started),
        (STARTING, SupervisorEvent::Stopped),
        (STARTING, SupervisorEvent::ProbeSucceeded),
        (SupervisorState::Alive, SupervisorEvent::ProbeFailed),
        (SupervisorState::Down, SupervisorEvent::Started),
        (SupervisorState::Exited, SupervisorEvent::IntervalElapsed),
        (SupervisorState::Exited, SupervisorEvent::ProbeSucceeded),
    ];
    for (state, event) in cases {
        for context in [SupervisorContext::Bootstrap, SupervisorContext::KeepAlive] {
            assert_eq!(
                keep_backend_alive(context, state, event),
                (state, SupervisorAction::Ignore)
            );
        }
    }
}
