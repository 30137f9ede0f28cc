use std::cell::{Cell, RefCell};
use std::collections::VecDeque;

use codex_switch_daemon::boundary_phase::{
    boundary_panic, classify_initial_launch_mechanism, finalize_installer_boundary_result,
    finalize_prior_restart_restoration, installer_boundary_finalization,
    installer_daemon_boundary_marker, installer_state_line,
    publish_installer_daemon_boundary_state, require_plain_installer_state,
    FailedStopRestoration, InitialGenerationStopState, InitialLaunchMechanism,
    InstallerBoundaryFinalization, InstallerBoundaryPhase, InstallerUninstallState,
};
use codex_switch_daemon::daemon_identity::{
    require_running_daemon_executable, require_started_service_daemon_identity,
    validate_running_daemon_executable, validate_started_service_daemon_identity,
    wait_for_daemon_absence_after_service_stop, wait_for_daemon_presence_after_service_start,
    AbsenceStep, DaemonSight, PresenceStep,
};
use codex_switch_daemon::fault::Fault;
use codex_switch_daemon::fs_ops::FileToken;
use codex_switch_daemon::host_path::{HostPath, PathComponent, Platform};
use codex_switch_daemon::lifecycle::{
    require_captured_executable_state, ExecutableLook, InitialExecutableState,
};
use codex_switch_daemon::settlement::{
    contender_after_acquire, contender_after_identify, observe_requested_generation,
    settle_for_lifecycle, stop_request_outcome, wait_for_requested_generation_stop,
    wait_for_requested_generation_to_settle, ContenderStep, ContendingDaemonIdentity,
    DaemonGeneration, InstallerContenderResolution, InstallerContenderSettlement,
    RequestedGenerationObservation, RequestedGenerationSettlement, SettleStep, SettleWait,
    StopWaitStep, TransientDiagnostics, DAEMON_TRANSITION_TIMEOUT_NANOS,
};
use codex_switch_daemon::state::{DaemonState, PendingSwitch, SwitchRecord};
use codex_switch_daemon::status::{
    bounded_status_last_error, daemon_start_supported, daemon_state_word, format_unix,
    service_install_supported, service_manager_name, status, status_lines, status_metadata_lines,
    status_plan, suspension_line, DaemonConfig, StatusContext, StatusPlan, StatusReply,
    StatusSnapshot, StatusStage, StatusStep, STATUS_LAST_ERROR_MAX_CHARS,
};

const POLL_NANOS: u64 = 100_000_000;

fn generation(pid: u32, name: &str) -> DaemonGeneration {
    DaemonGeneration {
        pid,
        generation: name.to_string(),
    }
}

fn host(path: &str) -> HostPath {
    let mut components = vec![PathComponent::Root];
    for name in path.split('/').filter(|name| !name.is_empty()) {
        components.push(PathComponent::Normal(name.to_string()));
    }
    HostPath {
        unicode: Some(path.to_string()),
        display: path.to_string(),
        absolute: path.starts_with('/'),
        components,
        parent: Some("/".to_string()),
        file_name: path.rsplit('/').next().map(str::to_string),
    }
}

fn token(low: u64, byte: u8) -> FileToken {
    FileToken {
        identity_high: 1,
        identity_low: low,
        digest: [byte; 32],
    }
}

fn wait_for_stop(
    pid: u32,
    samples: &mut VecDeque<Result<RequestedGenerationObservation, Fault>>,
    elapsed: &mut u64,
) -> Result<(), Fault> {
    let mut diagnostics = TransientDiagnostics::new();
    loop {
        let observation = samples.pop_front().unwrap();
        match wait_for_requested_generation_stop(pid, diagnostics, observation, *elapsed) {
            StopWaitStep::Stopped => return Ok(()),
            StopWaitStep::Failed(fault) => return Err(fault),
            StopWaitStep::Again(next) => diagnostics = next,
        }
        *elapsed += POLL_NANOS;
    }
}

fn settle(
    samples: &mut VecDeque<Result<RequestedGenerationObservation, Fault>>,
    elapsed: &mut u64,
    step_nanos: u64,
) -> (RequestedGenerationSettlement, usize, usize) {
    let mut wait = SettleWait::new();
    let mut observations = 0;
    let mut reports = 0;
    loop {
        observations += 1;
        let observation = samples.pop_front().unwrap();
        match wait_for_requested_generation_to_settle(4242, wait, observation, *elapsed) {
            SettleStep::Settled(settlement) => return (settlement, observations, reports),
            SettleStep::Again { wait: next, report } => {
                wait = next;
                if report {
                    reports += 1;
                }
            }
        }
        *elapsed += step_nanos;
    }
}

fn resolve(
    acquisitions: &mut VecDeque<Result<bool, Fault>>,
    identities: &mut VecDeque<Result<ContendingDaemonIdentity, Fault>>,
    elapsed: &mut u64,
    step_nanos: u64,
) -> InstallerContenderSettlement {
    let mut wait = SettleWait::new();
    loop {
        wait = match contender_after_acquire(wait, acquisitions.pop_front().unwrap()) {
            ContenderStep::Resolved(settlement) => return settlement,
            ContenderStep::Identify(next) => next,
            ContenderStep::Again { .. } => panic!("an acquisition does not end a round"),
        };
        wait = match contender_after_identify(wait, identities.pop_front().unwrap(), *elapsed) {
            ContenderStep::Resolved(settlement) => return settlement,
            ContenderStep::Again { wait: next, .. } => next,
            ContenderStep::Identify(_) => panic!("an identification ends its round"),
        };
        *elapsed += step_nanos;
    }
}

#[test]
fn persisted_last_error_is_control_free_and_bounded_at_terminal_boundary() {
    let persisted = format!(
        "upstream\u{1b}]52;clipboard\u{7}\n{}",
        "x".repeat(STATUS_LAST_ERROR_MAX_CHARS + 100)
    );

    let rendered = bounded_status_last_error(&persisted);

    assert!(rendered.chars().all(|ch| !ch.is_control()));
    assert_eq!(rendered.chars().count(), STATUS_LAST_ERROR_MAX_CHARS);
    assert!(rendered.starts_with("upstream]52;clipboard"));
}

fn default_config() -> DaemonConfig {
    DaemonConfig {
        poll_interval_secs: 60,
        cache_refresh_interval_secs: 300,
        auto_warmup: false,
        token_check_interval_secs: 300,
        switch_threshold: "80".to_string(),
        notify: true,
        defer_switch_while_codex_running: true,
        log_level: "error".to_string(),
    }
}

#[test]
fn human_status_metadata_includes_service_manager_and_complete_config() {
    let cfg = default_config();

    let lines = status_metadata_lines(Platform::Linux, false, &cfg);

    assert_eq!(
        lines[0],
        format!(
            "Service: not installed (manager: {})",
            service_manager_name(Platform::Linux)
        )
    );
    assert_eq!(lines[1], "Config:");
    assert!(lines.iter().any(|line| line == "  poll_interval_secs: 60"));
    assert!(lines
        .iter()
        .any(|line| line == "  defer_switch_while_codex_running: true"));
    assert!(lines.iter().any(|line| line == "  log_level: error"));
    assert_eq!(lines.len(), 10);
}

#[test]
fn exact_prior_restart_is_not_stopped_again_for_historical_diagnostics() {
    let diagnostic_checks = Cell::new(0usize);
    let absence_reestablishments = Cell::new(0usize);
    let restoration = finalize_prior_restart_restoration(
        Ok(()),
        || {
            diagnostic_checks.set(diagnostic_checks.get() + 1);
            Err(Fault::of("injected earlier stop-observation diagnostic"))
        },
        || {
            absence_reestablishments.set(absence_reestablishments.get() + 1);
            Ok(())
        },
    )
    .expect("historical diagnostics must not erase exact restoration");

    assert_eq!(diagnostic_checks.get(), 1);
    assert_eq!(
        absence_reestablishments.get(),
        0,
        "an exactly restored prior daemon must not be stopped again"
    );
    let FailedStopRestoration::ExactWithDiagnostics(error) = restoration else {
        panic!("the exact restoration must retain its historical diagnostic")
    };
    let message = error.detail();
    assert!(message.contains("remains running"), "{message}");
    assert!(message.contains("earlier stop-observation"), "{message}");
}

#[test]
fn bounded_generation_stop_rechecks_a_transient_cleanup_observation() {
    let mut samples = VecDeque::from([
        Ok(RequestedGenerationObservation::TargetRunning),
        Err(Fault::of("injected held-lock identity-removal transition")),
        Ok(RequestedGenerationObservation::Settled(None)),
    ]);
    let mut elapsed = 0;
    wait_for_stop(4242, &mut samples, &mut elapsed)
        .expect("the exact stop must settle after the PID cleanup transition");

    assert!(samples.is_empty());
    assert_eq!(elapsed, 200_000_000);
}

#[test]
fn bounded_generation_stop_retains_transient_diagnostics_at_its_deadline() {
    let mut samples = VecDeque::from([Err(Fault::of("injected unreadable PID identity"))]);
    let mut elapsed = DAEMON_TRANSITION_TIMEOUT_NANOS;
    let error = wait_for_stop(4242, &mut samples, &mut elapsed)
        .expect_err("an unclassified daemon state must never count as stopped");
    let message = error.detail();

    assert!(message.contains("Daemon did not stop within"), "{message}");
    assert!(
        message.contains("injected unreadable PID identity"),
        "{message}"
    );
    assert_eq!(elapsed, DAEMON_TRANSITION_TIMEOUT_NANOS);
}

#[test]
fn bounded_generation_stop_rejects_a_successor_immediately() {
    let mut samples = VecDeque::from([Ok(RequestedGenerationObservation::Settled(Some(
        generation(4242, "successor"),
    )))]);
    let mut elapsed = 0;
    let error = wait_for_stop(4242, &mut samples, &mut elapsed)
        .expect_err("a successor generation must not be reported as stopped");
    let message = error.detail();

    assert!(message.contains("different generation"), "{message}");
    assert!(message.contains("current PID 4242"), "{message}");
    assert_eq!(elapsed, 0);
}

#[test]
fn requested_generation_settle_retains_authority_past_every_transition_deadline() {
    let mut samples = VecDeque::from([
        Ok(RequestedGenerationObservation::TargetRunning),
        Err(Fault::of("injected transient PID probe failure")),
        Ok(RequestedGenerationObservation::TargetRunning),
        Ok(RequestedGenerationObservation::TargetRunning),
        Ok(RequestedGenerationObservation::Settled(None)),
    ]);
    let mut elapsed = 0;
    let (settled, observations, reports) = settle(
        &mut samples,
        &mut elapsed,
        POLL_NANOS + DAEMON_TRANSITION_TIMEOUT_NANOS,
    );

    assert_eq!(settled.observed_generation, None);
    assert_eq!(settled.diagnostics.len(), 1);
    assert!(settled.diagnostics[0].contains("injected transient PID probe failure"));
    assert_eq!(observations, 5);
    assert!(elapsed > DAEMON_TRANSITION_TIMEOUT_NANOS * 2);
    assert!(reports >= 2);
}

#[test]
fn requested_generation_settle_returns_only_after_the_exact_generation_changes() {
    let mut samples = VecDeque::from([
        Ok(RequestedGenerationObservation::TargetRunning),
        Ok(RequestedGenerationObservation::TargetRunning),
        Ok(RequestedGenerationObservation::Settled(Some(generation(
            9001,
            "successor",
        )))),
    ]);
    let mut elapsed = 0;
    let (settled, _, _) = settle(&mut samples, &mut elapsed, 0);

    assert_eq!(settled.observed_generation.map(|found| found.pid), Some(9001));
    assert!(settled.diagnostics.is_empty());
    assert!(samples.is_empty());
}

#[test]
fn contender_settlement_reacquires_absence_after_prepublication_exit() {
    let mut acquisitions = VecDeque::from([
        Err(Fault::of("injected transient acquire failure")),
        Ok(false),
        Ok(true),
    ]);
    let mut identities = VecDeque::from([
        Ok(ContendingDaemonIdentity::Pending),
        Ok(ContendingDaemonIdentity::Pending),
    ]);
    let mut elapsed = 0;
    let settlement = resolve(
        &mut acquisitions,
        &mut identities,
        &mut elapsed,
        POLL_NANOS + DAEMON_TRANSITION_TIMEOUT_NANOS,
    );

    assert_eq!(
        settlement.resolution,
        InstallerContenderResolution::Absence,
        "a contender that exited before publication must yield exact absence"
    );
    assert_eq!(settlement.diagnostics.len(), 1);
    assert!(settlement.diagnostics[0].contains("transient acquire failure"));
    assert!(acquisitions.is_empty());
    assert!(identities.is_empty());
    assert!(elapsed > DAEMON_TRANSITION_TIMEOUT_NANOS);
}

#[test]
fn contender_settlement_returns_the_exact_published_generation() {
    let mut acquisitions = VecDeque::from([Ok(false), Ok(false)]);
    let mut identities = VecDeque::from([
        Err(Fault::of("injected transient identity failure")),
        Ok(ContendingDaemonIdentity::Published(generation(
            4242,
            "published-generation",
        ))),
    ]);
    let mut elapsed = 0;
    let settlement = resolve(&mut acquisitions, &mut identities, &mut elapsed, 0);

    assert_eq!(
        settlement.resolution,
        InstallerContenderResolution::Published(generation(4242, "published-generation")),
        "a published contender must retain its exact generation"
    );
    assert_eq!(settlement.diagnostics.len(), 1);
    assert!(settlement.diagnostics[0].contains("transient identity failure"));
    assert!(identities.is_empty());
}

#[test]
fn launch_mechanism_comes_from_exact_manager_ownership_not_installation() {
    assert_eq!(
        classify_initial_launch_mechanism(None, None).unwrap(),
        InitialLaunchMechanism::Stopped
    );
    assert_eq!(
        classify_initial_launch_mechanism(Some(42), None).unwrap(),
        InitialLaunchMechanism::Detached,
        "an installed but inactive manager must not claim a foreground generation"
    );
    assert_eq!(
        classify_initial_launch_mechanism(Some(42), Some(42)).unwrap(),
        InitialLaunchMechanism::ServiceManager
    );
    assert!(classify_initial_launch_mechanism(None, Some(42)).is_err());
    assert!(classify_initial_launch_mechanism(Some(42), Some(43)).is_err());
}

#[test]
fn initially_stopped_transaction_keeps_the_exact_executable_identity() {
    let captured = token(10, 1);
    let state = InitialExecutableState::Present(captured);

    require_captured_executable_state("/exe", &state, false, ExecutableLook::Token(Ok(captured)))
        .expect("unchanged stopped executable must verify");
    require_captured_executable_state(
        "/exe",
        &state,
        false,
        ExecutableLook::Token(Ok(token(10, 2))),
    )
    .expect_err("rollback/final verification must reject changed stopped bytes");
    require_captured_executable_state(
        "/exe",
        &state,
        false,
        ExecutableLook::Token(Err(Fault::of("no such file"))),
    )
    .expect_err("rollback/final verification must reject a missing stopped executable");
    require_captured_executable_state(
        "/exe",
        &state,
        false,
        ExecutableLook::Token(Ok(token(11, 1))),
    )
    .expect("the same bytes in another file are the same contents");
    require_captured_executable_state("/exe", &state, true, ExecutableLook::Token(Ok(token(11, 1))))
        .expect_err("another file is another identity");
    require_captured_executable_state(
        "/exe",
        &InitialExecutableState::Absent,
        true,
        ExecutableLook::Presence(Ok(true)),
    )
    .expect_err("an executable that appeared is refused");
}

#[test]
fn caught_unwind_keeps_the_applied_phase_and_invokes_one_finalizer() {
    for (publish_stopped, expected_finalization) in [
        (false, InstallerBoundaryFinalization::RestoreFailedStop),
        (true, InstallerBoundaryFinalization::RestorePrior),
    ] {
        let phase = Cell::new(InstallerBoundaryPhase::Stopping);
        if publish_stopped {
            phase.set(InstallerBoundaryPhase::Stopped);
        }
        let caught: Result<(), Fault> = Err(boundary_panic(Some("injected lifecycle unwind")));
        let finalizer_calls = Cell::new(0usize);
        let result = finalize_installer_boundary_result(caught, |error| {
            finalizer_calls.set(finalizer_calls.get() + 1);
            assert_eq!(
                installer_boundary_finalization(phase.get()),
                expected_finalization
            );
            Fault::from_text(format!(
                "injected exact phase finalization: {}",
                error.detail()
            ))
        });
        let error = result.expect_err("the panic must become a recoverable boundary error");
        assert!(error.headline().contains("exact phase finalization"));
        assert!(error.headline().contains("injected lifecycle unwind"));
        assert_eq!(finalizer_calls.get(), 1);
    }
}

#[test]
fn installer_state_has_only_four_exact_single_line_payloads() {
    assert_eq!(
        installer_state_line(true, true),
        "running=true service_installed=true"
    );
    assert_eq!(
        installer_state_line(true, false),
        "running=true service_installed=false"
    );
    assert_eq!(
        installer_state_line(false, true),
        "running=false service_installed=true"
    );
    assert_eq!(
        installer_state_line(false, false),
        "running=false service_installed=false"
    );
    for output in [
        installer_state_line(true, true),
        installer_state_line(true, false),
        installer_state_line(false, true),
        installer_state_line(false, false),
    ] {
        assert!(!output.contains(['\r', '\n']));
    }
}

#[test]
fn installer_state_rejects_json_before_any_state_probe() {
    let error = require_plain_installer_state(true)
        .expect_err("installer state must not enter either JSON output mode");
    assert_eq!(
        error.headline(),
        "--installer-state cannot be combined with a JSON output mode"
    );
    require_plain_installer_state(false).unwrap();
}

#[test]
fn boundary_finalization_is_phase_aware_and_never_restarts_a_failed_transition() {
    assert_eq!(
        installer_boundary_finalization(InstallerBoundaryPhase::Stopping),
        InstallerBoundaryFinalization::RestoreFailedStop
    );
    assert_eq!(
        installer_boundary_finalization(InstallerBoundaryPhase::Stopped),
        InstallerBoundaryFinalization::RestorePrior
    );
    for phase in [
        InstallerBoundaryPhase::ReplacementTransition,
        InstallerBoundaryPhase::RollbackTransition,
    ] {
        assert_eq!(
            installer_boundary_finalization(phase),
            InstallerBoundaryFinalization::ReestablishStopped
        );
    }
    for phase in [
        InstallerBoundaryPhase::ReplacementFailedStopped,
        InstallerBoundaryPhase::RollbackFailedStopped,
    ] {
        assert_eq!(
            installer_boundary_finalization(phase),
            InstallerBoundaryFinalization::VerifyStopped
        );
    }
    assert_eq!(
        installer_boundary_finalization(InstallerBoundaryPhase::UninstallTransition),
        InstallerBoundaryFinalization::ClassifyUninstall
    );
    for phase in [
        InstallerBoundaryPhase::NewReady,
        InstallerBoundaryPhase::UninstallReady,
        InstallerBoundaryPhase::PriorRestored,
        InstallerBoundaryPhase::FinalConfirmed,
    ] {
        assert_eq!(
            installer_boundary_finalization(phase),
            InstallerBoundaryFinalization::VerifyFinal
        );
    }
}

#[test]
fn stop_request_state_changes_only_after_request_publication() {
    let mut state = InitialGenerationStopState::NotRequested;
    let injected_pre_request_error: Result<(), Fault> =
        Err(Fault::of("injected request publication failure"));
    state
        .record_issued(injected_pre_request_error)
        .expect_err("pre-request failure must remain distinguishable");
    assert_eq!(state, InitialGenerationStopState::NotRequested);
    assert!(state.can_reuse_observed_generation());

    state
        .record_issued(Ok(()))
        .expect("fixture request was published");
    assert_eq!(state, InitialGenerationStopState::MayHaveBeenRequested);
    assert!(
        !state.can_reuse_observed_generation(),
        "an issued stop may complete later, so the observed generation must settle and restart"
    );
}

#[test]
fn uninstall_applied_state_survives_a_later_probe_failure() {
    let mut state = InstallerUninstallState::NotApplied;
    state
        .record_applied_and_verify(|| Err(Fault::of("injected post-removal probe failure")))
        .expect_err("the injected post-removal probe must fail");
    assert_eq!(state, InstallerUninstallState::AppliedPendingVerification);
    assert!(
        state.is_applied(),
        "a probe error must not make an already-applied removal look like the prior stopped state"
    );

    state.mark_ready();
    assert_eq!(state, InstallerUninstallState::Ready);
}

#[test]
fn marker_failure_keeps_the_already_applied_phase_for_finalization() {
    for published_phase in [
        InstallerBoundaryPhase::Stopped,
        InstallerBoundaryPhase::ReplacementFailedStopped,
        InstallerBoundaryPhase::PriorRestored,
        InstallerBoundaryPhase::FinalConfirmed,
    ] {
        let mut phase = InstallerBoundaryPhase::ReplacementTransition;
        let written = RefCell::new(String::new());
        let error = publish_installer_daemon_boundary_state(
            |line: String| {
                *written.borrow_mut() = line;
                Err(Fault::of("fixture closed the marker pipe"))
            },
            &mut phase,
            published_phase,
            "fixture marker",
        )
        .expect_err("the fixture marker pipe is closed");
        assert_eq!(error, Fault::of("fixture closed the marker pipe"));
        assert_eq!(
            written.into_inner(),
            installer_daemon_boundary_marker("fixture marker")
        );
        assert_eq!(phase, published_phase);
    }
}

#[test]
fn installer_capture_rejects_a_daemon_from_another_public_copy() {
    let expected = host("/opt/expected");
    let other = host("/opt/other");
    let same = validate_running_daemon_executable(
        &expected,
        4242,
        &expected,
        Ok(token(1, 7)),
        Ok(token(1, 7)),
    );
    assert_eq!(same, Ok(token(1, 7)));
    validate_running_daemon_executable(
        &expected,
        4242,
        &other,
        Ok(token(1, 7)),
        Ok(token(2, 7)),
    )
    .expect_err("a daemon of another copy with the same bytes is refused");
    validate_running_daemon_executable(
        &expected,
        4242,
        &other,
        Err(Fault::of("unreadable")),
        Ok(token(2, 7)),
    )
    .expect_err("an executable that cannot be read proves nothing");
}

#[test]
fn service_readiness_rejects_a_foreground_winner_from_another_file() {
    let validation = validate_running_daemon_executable(
        &host("/opt/expected"),
        4242,
        &host("/opt/contender"),
        Ok(token(1, 7)),
        Ok(token(2, 7)),
    );
    let error = validate_started_service_daemon_identity("fixture service", validation)
        .expect_err("service readiness requires the exact expected executable file");
    assert!(
        error.headline().contains("unexpected executable"),
        "{}",
        error.detail()
    );
    validate_started_service_daemon_identity("fixture service", Ok(token(1, 7))).unwrap();
}

#[test]
fn a_daemon_must_be_seen_and_run_the_expected_executable() {
    let sight = |validation| {
        Ok(Some(DaemonSight {
            pid: 99,
            validation,
        }))
    };
    assert_eq!(
        require_running_daemon_executable("gone", sight(Ok(token(1, 1)))),
        Ok(99)
    );
    assert_eq!(
        require_running_daemon_executable("gone", Ok(None)),
        Err(Fault::of("gone"))
    );
    assert_eq!(
        require_running_daemon_executable("gone", sight(Err(Fault::of("other file")))),
        Err(Fault::of("other file"))
    );
    assert_eq!(
        require_started_service_daemon_identity("start", sight(Ok(token(1, 1)))),
        Ok(99)
    );
    assert!(require_started_service_daemon_identity("start", Ok(None)).is_err());
}

#[test]
fn a_stopped_service_must_leave_no_daemon_before_the_deadline() {
    assert_eq!(
        wait_for_daemon_absence_after_service_stop("unit", Ok(None), 0),
        AbsenceStep::Absent
    );
    assert_eq!(
        wait_for_daemon_absence_after_service_stop("unit", Ok(Some(5)), 0),
        AbsenceStep::Again
    );
    assert!(matches!(
        wait_for_daemon_absence_after_service_stop(
            "unit",
            Ok(Some(5)),
            DAEMON_TRANSITION_TIMEOUT_NANOS
        ),
        AbsenceStep::Failed(_)
    ));
    assert!(matches!(
        wait_for_daemon_absence_after_service_stop("unit", Err(Fault::of("unreadable")), 0),
        AbsenceStep::Failed(_)
    ));
}

#[test]
fn a_started_service_must_publish_its_daemon_before_the_deadline() {
    let seen = Some(Ok(Some(DaemonSight {
        pid: 5,
        validation: Ok(token(1, 1)),
    })));
    assert_eq!(
        wait_for_daemon_presence_after_service_start("unit", None, seen),
        PresenceStep::Present
    );
    assert_eq!(
        wait_for_daemon_presence_after_service_start("unit", None, Some(Ok(None))),
        PresenceStep::Again(None)
    );
    let PresenceStep::Failed(fault) =
        wait_for_daemon_presence_after_service_start("unit", Some(Fault::of("unreadable")), None)
    else {
        panic!("the deadline ends the wait")
    };
    assert!(fault.detail().contains("unreadable"), "{}", fault.detail());
}

#[test]
fn a_stop_request_reports_what_was_not_confirmed() {
    assert_eq!(stop_request_outcome(Ok(()), Ok(())), Ok(()));
    let unconfirmed = stop_request_outcome(Ok(()), Err(Fault::of("no sync"))).unwrap_err();
    assert!(unconfirmed.detail().contains("durability was not confirmed"));
    let both = stop_request_outcome(Err(Fault::of("no stop")), Err(Fault::of("no sync")));
    let detail = both.unwrap_err().detail();
    assert!(detail.contains("no stop") && detail.contains("no sync"), "{detail}");
    let settled = settle_for_lifecycle(
        7,
        RequestedGenerationSettlement {
            observed_generation: None,
            diagnostics: Vec::new(),
        },
        Err(Fault::of("no sync")),
    );
    assert_eq!(settled.diagnostics.len(), 1);
    assert!(settled.diagnostics[0].contains("no sync"));
}

#[test]
fn the_target_generation_is_known_by_process_and_nonce() {
    let target = generation(7, "a");
    assert_eq!(
        observe_requested_generation(&target, Some(generation(7, "a"))),
        RequestedGenerationObservation::TargetRunning
    );
    assert_eq!(
        observe_requested_generation(&target, Some(generation(7, "b"))),
        RequestedGenerationObservation::Settled(Some(generation(7, "b")))
    );
    assert_eq!(
        observe_requested_generation(&target, None),
        RequestedGenerationObservation::Settled(None)
    );
}

#[test]
fn repeated_diagnostics_keep_the_first_the_last_and_their_number() {
    let mut diagnostics = TransientDiagnostics::new();
    for message in ["first", "middle", "last"] {
        diagnostics.record(message.to_string());
    }
    let messages = diagnostics.into_messages();
    assert_eq!(
        messages,
        vec![
            "first".to_string(),
            "last transient observation: last".to_string(),
            "3 transient lifecycle observation failures occurred while authority remained held"
                .to_string(),
        ]
    );
    let mut once = TransientDiagnostics::new();
    once.record("only".to_string());
    assert_eq!(once.into_summary("failure"), Some("1 failure: only".to_string()));
    assert_eq!(TransientDiagnostics::new().into_summary("failure"), None);
}

#[test]
fn times_are_shown_as_calendar_times_in_utc() {
    assert_eq!(format_unix(0), "1970-01-01 00:00:00 UTC");
    assert_eq!(format_unix(1_700_000_000), "2023-11-14 22:13:20 UTC");
    assert_eq!(format_unix(i64::MAX), i64::MAX.to_string());
}

#[test]
fn status_tells_what_the_daemon_does() {
    let mut snapshot = DaemonState::started(7, 0);
    snapshot.last_poll_at = Some(0);
    snapshot.last_switch = Some(SwitchRecord {
        from: "a".to_string(),
        to: "b".to_string(),
        at: 60,
    });
    snapshot.pending_switch = Some(PendingSwitch {
        to: "c".to_string(),
        since: 120,
    });
    snapshot.last_error = Some("bad\u{1b} things".to_string());
    snapshot.consecutive_failures = 2;
    snapshot.backoff_until = Some(500);
    let seen = Some(StatusSnapshot {
        state: snapshot,
        score: "12".to_string(),
    });
    assert_eq!(
        status_lines(Some(7), true, &seen),
        vec![
            "Daemon is running (PID 7)".to_string(),
            "  Last poll: 1970-01-01 00:00:00 UTC".to_string(),
            "  Last switch: 'a' -> 'b' at 1970-01-01 00:01:00 UTC (score 12)".to_string(),
            "  Pending switch to 'c' since 1970-01-01 00:02:00 UTC (waiting for Codex session to end)"
                .to_string(),
            "  Last error (2 consecutive): bad things".to_string(),
        ]
    );
    assert_eq!(
        suspension_line(500, 380),
        Ok(Some(
            "  Polling suspended for another 120s (until 1970-01-01 00:08:20 UTC) after repeated failures; `daemon stop` then `daemon start` resumes it immediately"
                .to_string()
        ))
    );
    assert_eq!(suspension_line(380, 380), Ok(None));
    assert_eq!(
        suspension_line(i64::MIN, 1),
        Err(Fault::of(
            "daemon backoff timestamp exceeds the signed time range"
        ))
    );
    assert_eq!(
        status_lines(Some(7), false, &None),
        vec!["Daemon is not running (stale PID 7)".to_string()]
    );
    assert_eq!(
        status_lines(None, false, &None),
        vec!["Daemon is not running".to_string()]
    );
    assert_eq!(daemon_state_word(Some(7), false), "stale");
}

#[test]
fn the_pid_file_counts_only_where_nothing_runs() {
    assert_eq!(
        status_plan(Some(7), Some(9)),
        StatusPlan {
            pid: Some(7),
            running: true,
            reads_snapshot: true,
            cleans_up: false,
        }
    );
    assert_eq!(
        status_plan(None, Some(9)),
        StatusPlan {
            pid: Some(9),
            running: false,
            reads_snapshot: false,
            cleans_up: true,
        }
    );
    assert_eq!(status_plan(None, Some(9)).word(), "stale");
    assert_eq!(status_plan(Some(7), None).word(), "running");
    assert_eq!(status_plan(None, None).word(), "stopped");
    assert!(!status_plan(None, None).cleans_up);
}

#[test]
fn windows_starts_daemons_and_installs_services() {
    assert!(daemon_start_supported(Platform::Windows));
    assert!(service_install_supported(Platform::Windows));
    assert!(daemon_start_supported(Platform::OtherUnix));
    assert!(!service_install_supported(Platform::OtherUnix));
    assert!(!daemon_start_supported(Platform::Other));
}

struct StatusRun {
    running: Option<u32>,
    pidfile: Option<u32>,
    suspended_until: Option<i64>,
    now: i64,
}

/// Shows the state on Linux: the operations that were asked for, the lines that
/// were printed, and the outcome.
fn show_status(json: bool, run: StatusRun) -> (Vec<&'static str>, Vec<String>, Result<(), Fault>) {
    let context = StatusContext {
        json,
        platform: Platform::Linux,
        os: "linux".to_string(),
        config: default_config(),
    };
    let mut asked = Vec::new();
    let mut printed = Vec::new();
    let mut stage = StatusStage::LocatePidfile;
    loop {
        let (word, reply) = match &stage {
            StatusStage::LocatePidfile => ("locate", StatusReply::Done(Ok(()))),
            StatusStage::LookRunning => ("running", StatusReply::Pid(Ok(run.running))),
            StatusStage::ReadPidfile => ("pidfile", StatusReply::Pidfile(run.pidfile)),
            StatusStage::ReadSnapshot { .. } => {
                let mut state = DaemonState::started(7, 0);
                state.backoff_until = run.suspended_until;
                let found = StatusSnapshot {
                    state,
                    score: String::new(),
                };
                ("snapshot", StatusReply::Snapshot(Ok(Some(found))))
            }
            StatusStage::LookService { .. } => ("service", StatusReply::Installed(Ok(true))),
            StatusStage::PrintJson { .. } => ("json", StatusReply::Done(Ok(()))),
            StatusStage::Print { lines, .. } => {
                printed.extend(lines.iter().cloned());
                ("print", StatusReply::Done(Ok(())))
            }
            StatusStage::ReadTime { .. } => ("time", StatusReply::Time(Ok(run.now))),
            StatusStage::PrintSuspension { line, .. } => {
                printed.push(line.clone());
                ("suspension", StatusReply::Done(Ok(())))
            }
            StatusStage::CleanUp { .. } => ("clean", StatusReply::Done(Ok(()))),
            StatusStage::PrintMetadata { .. } => ("metadata", StatusReply::Done(Ok(()))),
        };
        asked.push(word);
        match status(&context, stage, reply) {
            StatusStep::Await(next) => stage = next,
            StatusStep::Finished(outcome) => return (asked, printed, outcome),
        }
    }
}

#[test]
fn the_snapshot_is_read_only_while_the_daemon_runs() {
    let (asked, printed, outcome) = show_status(
        false,
        StatusRun {
            running: Some(7),
            pidfile: Some(9),
            suspended_until: Some(500),
            now: 380,
        },
    );
    assert_eq!(
        asked,
        [
            "locate", "running", "snapshot", "service", "print", "time", "suspension", "metadata"
        ]
    );
    assert_eq!(printed[0], "Daemon is running (PID 7)");
    assert!(printed[1].starts_with("  Polling suspended for another 120s"));
    assert_eq!(outcome, Ok(()));
    let (asked, printed, _) = show_status(
        false,
        StatusRun {
            running: None,
            pidfile: None,
            suspended_until: Some(500),
            now: 380,
        },
    );
    assert_eq!(
        asked,
        ["locate", "running", "pidfile", "service", "print", "metadata"]
    );
    assert_eq!(printed, ["Daemon is not running"]);
}

#[test]
fn a_stale_pid_file_is_removed_after_it_was_reported() {
    let stale = || StatusRun {
        running: None,
        pidfile: Some(9),
        suspended_until: None,
        now: 0,
    };
    let (asked, printed, outcome) = show_status(false, stale());
    assert_eq!(
        asked,
        ["locate", "running", "pidfile", "service", "print", "clean", "metadata"]
    );
    assert_eq!(printed, ["Daemon is not running (stale PID 9)"]);
    assert_eq!(outcome, Ok(()));
    let (asked, _, outcome) = show_status(true, stale());
    assert_eq!(
        asked,
        ["locate", "running", "pidfile", "service", "json", "clean"]
    );
    assert_eq!(outcome, Ok(()));
    let running = StatusRun {
        running: Some(9),
        pidfile: Some(9),
        suspended_until: None,
        now: 0,
    };
    let (asked, _, _) = show_status(true, running);
    assert_eq!(asked, ["locate", "running", "snapshot", "service", "json"]);
}

#[test]
fn a_suspension_out_of_range_ends_the_report() {
    let (asked, _, outcome) = show_status(
        false,
        StatusRun {
            running: Some(7),
            pidfile: None,
            suspended_until: Some(i64::MIN),
            now: 1,
        },
    );
    assert_eq!(asked.last(), Some(&"time"));
    assert_eq!(
        outcome,
        Err(Fault::of(
            "daemon backoff timestamp exceeds the signed time range"
        ))
    );
}
