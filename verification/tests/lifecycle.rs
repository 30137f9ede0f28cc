use codex_switch_daemon::boundary_phase::{
    FailedStopRestoration, InitialGenerationStopState, InitialLaunchMechanism,
    InstallerUninstallState,
};
use codex_switch_daemon::boundary_protocol::{
    InstallerRollbackTransition, InstallerUninstallTransition, UninstallBoundaryState,
};
use codex_switch_daemon::daemon_identity::DaemonSight;
use codex_switch_daemon::fault::Fault;
use codex_switch_daemon::fs_ops::FileToken;
use codex_switch_daemon::host_path::{HostPath, PathComponent, Platform};
use codex_switch_daemon::lifecycle::{
    CaptureLooks, ExecutableLook, InitialExecutableState, Owner, SelfUpdateDaemonRestart,
};
use codex_switch_daemon::lifecycle_checks::{
    finish_final_verification, FinalLooks, FinalStep, StoppedLooks,
};
use codex_switch_daemon::lifecycle_looks::{captured_daemon, FileLook, ServiceLook};
use codex_switch_daemon::lifecycle_restart::{RollbackRestartStage, StartWay, UpdateRestartStage};
use codex_switch_daemon::lifecycle_restore::{FailedStopStage, PriorStage, RestoreStage};
use codex_switch_daemon::lifecycle_steps::{
    AbsenceStage, LifecycleReply, LifecycleStep, ReestablishStage, StopStage,
};
use codex_switch_daemon::lifecycle_uninstall::PrepareStage;
use codex_switch_daemon::service_state::{
    ExactServiceUninstallOutcome, ServiceDefinition, ServiceStateSnapshot,
};
use codex_switch_daemon::settlement::{
    DaemonGeneration, InstallerContenderResolution, InstallerContenderSettlement,
    RequestedGenerationSettlement,
};

fn host(path: &str) -> HostPath {
    let (parent, name) = path.rsplit_once('/').unwrap();
    HostPath {
        unicode: Some(path.to_string()),
        display: path.to_string(),
        absolute: true,
        components: vec![
            PathComponent::Root,
            PathComponent::Normal(parent.trim_start_matches('/').to_string()),
            PathComponent::Normal(name.to_string()),
        ],
        parent: Some(parent.to_string()),
        file_name: Some(name.to_string()),
    }
}

fn token(low: u64) -> FileToken {
    FileToken {
        identity_high: 1,
        identity_low: low,
        digest: [low as u8; 32],
    }
}

fn generation(pid: u32) -> DaemonGeneration {
    DaemonGeneration {
        pid,
        generation: format!("generation-{pid}"),
    }
}

fn sight(pid: u32, low: u64) -> DaemonSight {
    DaemonSight {
        pid,
        validation: Ok(token(low)),
    }
}

fn no_service() -> ServiceStateSnapshot {
    ServiceStateSnapshot {
        definition: None,
        loaded: false,
        enabled: false,
        active: false,
        manager_pid: None,
    }
}

fn service(manager_pid: Option<u32>) -> ServiceStateSnapshot {
    ServiceStateSnapshot {
        definition: Some(ServiceDefinition {
            contents: b"unit".to_vec(),
            token: token(50),
            scheduler_xml: None,
        }),
        loaded: false,
        enabled: true,
        active: manager_pid.is_some(),
        manager_pid,
    }
}

fn looks(daemon: Option<u32>, snapshot: fn() -> ServiceStateSnapshot) -> CaptureLooks {
    CaptureLooks {
        token: Ok(Some(token(1))),
        identity: Ok(daemon.map(|pid| sight(pid, 1))),
        generation: Ok(daemon.map(generation)),
        service: Ok(snapshot()),
        identity_after: Ok(daemon.map(|pid| sight(pid, 1))),
        generation_after: Ok(daemon.map(generation)),
        token_after: Ok(Some(token(1))),
    }
}

fn capture(looks: CaptureLooks) -> Result<SelfUpdateDaemonRestart, Fault> {
    SelfUpdateDaemonRestart::capture_for_executable(
        host("/opt/old"),
        host("/opt/new"),
        false,
        looks,
    )
}

fn stopped() -> SelfUpdateDaemonRestart {
    capture(looks(None, no_service)).unwrap()
}

fn detached() -> SelfUpdateDaemonRestart {
    capture(looks(Some(7), no_service)).unwrap()
}

fn managed() -> SelfUpdateDaemonRestart {
    capture(looks(Some(7), || service(Some(7)))).unwrap()
}

fn ok() -> LifecycleReply {
    LifecycleReply::Done(Ok(()))
}

fn failed(text: &str) -> LifecycleReply {
    LifecycleReply::Done(Err(Fault::of(text)))
}

fn settled(diagnostics: &[&str]) -> RequestedGenerationSettlement {
    RequestedGenerationSettlement {
        observed_generation: None,
        diagnostics: diagnostics.iter().map(|text| text.to_string()).collect(),
    }
}

fn stopped_looks(snapshot: ServiceStateSnapshot) -> StoppedLooks {
    StoppedLooks {
        service: Ok(snapshot),
        running: Ok(None),
        absence: Ok(()),
    }
}

#[test]
fn a_capture_knows_the_launch_mechanism() {
    assert_eq!(
        stopped().initial_launch_mechanism,
        InitialLaunchMechanism::Stopped
    );
    let detached = detached();
    assert_eq!(
        detached.initial_launch_mechanism,
        InitialLaunchMechanism::Detached
    );
    assert_eq!(detached.initial_pid, Some(7));
    assert_eq!(
        detached.initial_executable_state,
        InitialExecutableState::Present(token(1))
    );
    assert!(!detached.absence_held && !detached.service_installed);
    assert!(detached.paths_differ(Owner::Initial, Owner::Replacement));
    assert_eq!(detached.path(Owner::Replacement).display, "/opt/new");
    let managed = managed();
    assert_eq!(
        managed.initial_launch_mechanism,
        InitialLaunchMechanism::ServiceManager
    );
    assert!(managed.service_installed);
}

#[test]
fn a_capture_refuses_what_changes_under_it() {
    let refused = |change: fn(&mut CaptureLooks)| {
        let mut looks = looks(Some(7), no_service);
        change(&mut looks);
        capture(looks).unwrap_err().headline()
    };
    assert_eq!(
        refused(|looks| looks.identity = Ok(Some(sight(7, 2)))),
        "running daemon executable changed while its initial public identity was captured"
    );
    assert_eq!(
        refused(|looks| looks.generation = Ok(Some(generation(8)))),
        "daemon generation changed while its executable identity was captured"
    );
    assert_eq!(
        refused(|looks| looks.generation_after = Ok(None)),
        "daemon generation changed while its exact launch mechanism was captured"
    );
    assert_eq!(
        refused(|looks| looks.token_after = Ok(Some(token(2)))),
        "initial executable identity changed while daemon/service state was captured: /opt/old"
    );
    assert_eq!(
        refused(|looks| looks.identity_after = Ok(None)),
        "daemon PID identity changed while its exact launch mechanism was captured"
    );
    assert_eq!(
        refused(|looks| looks.identity_after = Ok(Some(sight(7, 2)))),
        "daemon executable identity changed while its exact launch mechanism was captured"
    );
    assert_eq!(refused(|looks| looks.token = Err(Fault::of("io"))), "io");
}

#[test]
fn an_acquired_absence_is_held() {
    let mut state = stopped();
    let stage = state.begin_absence(None);
    assert_eq!(stage, AbsenceStage::Contend { expected: None });
    let published = LifecycleReply::Contender(InstallerContenderSettlement {
        resolution: InstallerContenderResolution::Published(generation(9)),
        diagnostics: vec!["seen".to_string()],
    });
    assert_eq!(
        state.reacquire_absence_after_foreground_contenders(stage, published),
        LifecycleStep::Await(AbsenceStage::Stop {
            target: generation(9)
        })
    );
    assert_eq!(
        state.reacquire_absence_after_foreground_contenders(
            AbsenceStage::Stop {
                target: generation(9)
            },
            LifecycleReply::Stopped(Ok(settled(&[])))
        ),
        LifecycleStep::Await(AbsenceStage::Contend {
            expected: Some(generation(9))
        })
    );
    assert!(!state.absence_held);
    let absent = LifecycleReply::Contender(InstallerContenderSettlement {
        resolution: InstallerContenderResolution::Absence,
        diagnostics: Vec::new(),
    });
    assert_eq!(
        state.reacquire_absence_after_foreground_contenders(
            AbsenceStage::Contend {
                expected: Some(generation(9))
            },
            absent
        ),
        LifecycleStep::Finished(Ok(()))
    );
    assert!(state.absence_held);
    assert_eq!(state.lifecycle_stop_diagnostics, ["seen"]);
    assert_eq!(state.begin_absence(None), AbsenceStage::VerifyHeld);
}

#[test]
fn a_stop_that_was_requested_is_remembered() {
    let mut state = detached();
    assert_eq!(
        state.begin_stop_before_update(Platform::Linux),
        LifecycleStep::Await(StopStage::IssueStop)
    );
    assert_eq!(
        state.initial_stop_state,
        InitialGenerationStopState::NotRequested
    );
    assert_eq!(
        state.stop_before_update_inner(StopStage::IssueStop, ok()),
        LifecycleStep::Await(StopStage::SettleIssued)
    );
    assert_eq!(
        state.initial_stop_state,
        InitialGenerationStopState::MayHaveBeenRequested
    );
    assert_eq!(
        state.stop_before_update_inner(
            StopStage::SettleIssued,
            LifecycleReply::Settled(settled(&[]))
        ),
        LifecycleStep::Await(StopStage::Reacquire)
    );
    assert_eq!(
        state.stop_before_update_inner(StopStage::Reacquire, ok()),
        LifecycleStep::Await(StopStage::Record)
    );
    assert_eq!(
        state.stop_before_update_inner(
            StopStage::Record,
            LifecycleReply::Services {
                ready: Ok(no_service()),
                observed: Ok(no_service())
            }
        ),
        LifecycleStep::Finished(Ok(()))
    );
    assert_eq!(state.stopped_service_snapshot, Some(no_service()));
}

#[test]
fn a_stop_with_unreliable_looks_ends_in_a_failure() {
    let mut state = detached();
    state.record_diagnostics(vec!["a".to_string(), "b".to_string()]);
    let LifecycleStep::Finished(Err(error)) = state.stop_before_update_inner(
        StopStage::Record,
        LifecycleReply::Services {
            ready: Ok(no_service()),
            observed: Ok(no_service()),
        },
    ) else {
        panic!("the looks were unreliable");
    };
    assert_eq!(
        error.headline(),
        "daemon stop settled to an exact state, but one or more lifecycle observations were unreliable: a; b"
    );
    assert!(state.lifecycle_stop_diagnostics.is_empty());
}

#[test]
fn a_managed_daemon_is_stopped_through_its_manager() {
    let mut state = managed();
    assert_eq!(
        state.begin_stop_before_update(Platform::Linux),
        LifecycleStep::Await(StopStage::StopManager)
    );
    assert_eq!(
        managed().begin_stop_before_update(Platform::Windows),
        LifecycleStep::Await(StopStage::IssueStop)
    );
    assert_eq!(
        state.stop_before_update_inner(
            StopStage::StopManager,
            LifecycleReply::ManagerStop {
                requested: true,
                stopped: Ok(true)
            }
        ),
        LifecycleStep::Await(StopStage::SettleManager { stopped: Ok(true) })
    );
    assert_eq!(
        state.initial_stop_state,
        InitialGenerationStopState::MayHaveBeenRequested
    );
}

#[test]
fn absence_is_reestablished_after_a_failed_restart() {
    let mut state = detached();
    let stage = state.begin_reestablish_absence(None);
    assert_eq!(
        state.reestablish_absence_after_failed_restart_with_alternative(
            Platform::Linux,
            stage,
            LifecycleReply::Generation(Ok(Some(generation(8))))
        ),
        LifecycleStep::Await(ReestablishStage::StopObserved {
            target: generation(8)
        })
    );
    assert_eq!(
        state.reestablish_absence_after_failed_restart_with_alternative(
            Platform::Linux,
            ReestablishStage::StopObserved {
                target: generation(8)
            },
            LifecycleReply::Stopped(Ok(settled(&[])))
        ),
        LifecycleStep::Await(ReestablishStage::Reacquire {
            expected: Some(generation(8))
        })
    );
    assert_eq!(
        state.reestablish_absence_after_failed_restart_with_alternative(
            Platform::Linux,
            ReestablishStage::Reacquire {
                expected: Some(generation(8))
            },
            ok()
        ),
        LifecycleStep::Await(ReestablishStage::Record)
    );
    state.restarted_pid = Some(8);
    assert_eq!(
        state.reestablish_absence_after_failed_restart_with_alternative(
            Platform::Linux,
            ReestablishStage::Record,
            LifecycleReply::Service(Ok(no_service()))
        ),
        LifecycleStep::Finished(Ok(()))
    );
    assert_eq!(state.restarted_pid, None);
}

#[test]
fn a_replacement_is_started_from_absence_and_verified() {
    let mut state = detached();
    state.absence_held = true;
    assert_eq!(
        state.begin_restart_after_installer_update(),
        LifecycleStep::Await(UpdateRestartStage::BindReplacement)
    );
    let mut step = LifecycleStep::Await(UpdateRestartStage::BindReplacement);
    for (reply, expected) in [
        (
            LifecycleReply::Token(Ok(token(2))),
            UpdateRestartStage::Release { token: token(2) },
        ),
        (
            ok(),
            UpdateRestartStage::Start {
                way: StartWay::Detached,
                token: token(2),
            },
        ),
        (ok(), UpdateRestartStage::LookStarted { token: token(2) }),
        (
            LifecycleReply::Sight(Ok(Some(sight(9, 2)))),
            UpdateRestartStage::Rebind {
                pid: 9,
                token: token(2),
            },
        ),
        (
            LifecycleReply::Token(Ok(token(2))),
            UpdateRestartStage::RecordService { pid: 9 },
        ),
        (
            LifecycleReply::Service(Ok(no_service())),
            UpdateRestartStage::VerifyFinal,
        ),
    ] {
        let LifecycleStep::Await(stage) = step else {
            panic!("{step:?}");
        };
        step = state.restart_after_installer_update(Platform::Linux, stage, reply);
        assert_eq!(step, LifecycleStep::Await(expected));
    }
    assert!(!state.absence_held);
    assert_eq!(state.executable, Owner::Replacement);
    assert_eq!(state.restarted_pid, Some(9));
    assert_eq!(state.expected_executable_token, Some(token(2)));
    assert_eq!(
        state.restart_after_installer_update(
            Platform::Linux,
            UpdateRestartStage::VerifyFinal,
            ok()
        ),
        LifecycleStep::Finished(Ok(()))
    );
}

#[test]
fn a_replacement_is_not_started_without_absence() {
    let mut state = detached();
    assert_eq!(
        state.restart_after_installer_update(
            Platform::Linux,
            UpdateRestartStage::Release { token: token(2) },
            ok()
        ),
        LifecycleStep::Finished(Err(Fault::of(
            "daemon absence lease was not held before installer restart"
        )))
    );
    let mut state = detached();
    assert_eq!(
        state.restart_after_installer_update(
            Platform::Linux,
            UpdateRestartStage::Rebind {
                pid: 9,
                token: token(2)
            },
            LifecycleReply::Token(Ok(token(3)))
        ),
        LifecycleStep::Finished(Err(Fault::of(
            "replacement executable identity changed while its daemon generation started: /opt/new"
        )))
    );
}

#[test]
fn a_managed_daemon_is_installed_anew_for_another_path() {
    let mut state = managed();
    state.absence_held = true;
    assert_eq!(
        state.restart_after_installer_update(
            Platform::Linux,
            UpdateRestartStage::Release { token: token(2) },
            ok()
        ),
        LifecycleStep::Await(UpdateRestartStage::Start {
            way: StartWay::Install,
            token: token(2)
        })
    );
    let mut state = managed();
    let step = state.restart_after_installer_update(
        Platform::Windows,
        UpdateRestartStage::BindReplacement,
        LifecycleReply::Token(Ok(token(2))),
    );
    assert_eq!(
        step,
        LifecycleStep::Finished(Err(Fault::of(
            "Windows scheduled-task executable migration from /opt/old to /opt/new is not supported; the daemon remains stopped under the PID absence lease"
        )))
    );
}

#[test]
fn a_rollback_restores_the_initial_daemon() {
    let mut state = detached();
    state.absence_held = true;
    state.executable = Owner::Replacement;
    let mut step = state.begin_restart_after_installer_rollback();
    for (reply, expected) in [
        (
            LifecycleReply::Executable(ExecutableLook::Token(Ok(token(1)))),
            RollbackRestartStage::BindInitial,
        ),
        (
            LifecycleReply::Present(Ok(Some(token(1)))),
            RollbackRestartStage::Release,
        ),
        (
            ok(),
            RollbackRestartStage::Start {
                way: StartWay::Detached,
            },
        ),
        (ok(), RollbackRestartStage::LookStarted),
        (
            LifecycleReply::Sight(Ok(Some(sight(9, 1)))),
            RollbackRestartStage::RecordService { pid: 9 },
        ),
        (
            LifecycleReply::Service(Ok(no_service())),
            RollbackRestartStage::VerifyFinal,
        ),
    ] {
        let LifecycleStep::Await(stage) = step else {
            panic!("{step:?}");
        };
        step = state.restart_after_installer_rollback(Platform::Linux, stage, reply);
        assert_eq!(step, LifecycleStep::Await(expected));
    }
    assert_eq!(state.executable, Owner::Initial);
    assert_eq!(state.restarted_pid, Some(9));

    let mut changed = detached();
    let LifecycleStep::Finished(Err(error)) = changed.restart_after_installer_rollback(
        Platform::Linux,
        RollbackRestartStage::CheckContents,
        LifecycleReply::Executable(ExecutableLook::Token(Ok(token(2)))),
    ) else {
        panic!("the contents changed");
    };
    assert_eq!(
        error.headline(),
        "installer rollback did not restore the exact initial executable contents"
    );
}

#[test]
fn an_applied_uninstall_is_neither_restarted_nor_rolled_back() {
    let mut state = stopped();
    state.uninstall_state = InstallerUninstallState::Ready;
    assert_eq!(
        state.begin_restart_after_installer_update(),
        LifecycleStep::Finished(Err(Fault::of(
            "an applied installer uninstall cannot enter replacement restart"
        )))
    );
    assert_eq!(
        state.begin_restart_after_installer_rollback(),
        LifecycleStep::Finished(Err(Fault::of(
            "an applied installer uninstall cannot be rolled back after its ready boundary"
        )))
    );
}

#[test]
fn a_failed_stop_restores_a_generation_that_was_not_asked_to_stop() {
    let mut state = detached();
    let stage = SelfUpdateDaemonRestart::begin_restore_after_failed_stop();
    let step = state.restore_after_failed_stop(
        stage,
        LifecycleReply::Generation(Ok(Some(generation(7)))),
    );
    assert_eq!(step, LifecycleStep::Await(FailedStopStage::CheckService));
    assert_eq!(
        state.restore_after_failed_stop(
            FailedStopStage::CheckService,
            LifecycleReply::Service(Ok(no_service()))
        ),
        LifecycleStep::Await(FailedStopStage::CheckExecutable)
    );
    assert_eq!(
        state.restore_after_failed_stop(
            FailedStopStage::CheckExecutable,
            LifecycleReply::Executable(ExecutableLook::Token(Ok(token(1))))
        ),
        LifecycleStep::Finished(Ok(FailedStopRestoration::Exact))
    );
    let mut requested = detached();
    requested.initial_stop_state = InitialGenerationStopState::MayHaveBeenRequested;
    assert_eq!(
        requested.restore_after_failed_stop(
            FailedStopStage::LookGeneration,
            LifecycleReply::Generation(Ok(Some(generation(7))))
        ),
        LifecycleStep::Await(FailedStopStage::Settle)
    );
}

#[test]
fn the_prior_daemon_is_started_from_absence() {
    let mut state = detached();
    state.absence_held = true;
    state.initial_stop_state = InitialGenerationStopState::MayHaveBeenRequested;
    state.record_diagnostics(vec!["seen".to_string()]);
    let mut stage = SelfUpdateDaemonRestart::begin_restart_initial_generation(None);
    assert_eq!(stage, RestoreStage::Reacquire { expected: None });
    for reply in [
        ok(),
        LifecycleReply::Service(Ok(no_service())),
        LifecycleReply::Executable(ExecutableLook::Token(Ok(token(1)))),
        ok(),
        ok(),
        LifecycleReply::Sight(Ok(Some(sight(9, 1)))),
    ] {
        match state.restart_initial_generation_after_failed_stop(stage, reply) {
            LifecycleStep::Await(next) => stage = next,
            LifecycleStep::Finished(r) => panic!("{r:?}"),
        }
    }
    assert_eq!(stage, RestoreStage::RecordService { pid: 9 });
    let LifecycleStep::Finished(Ok(FailedStopRestoration::ExactWithDiagnostics(said))) = state
        .restart_initial_generation_after_failed_stop(
            stage,
            LifecycleReply::Service(Ok(no_service())),
        )
    else {
        panic!("the daemon is back");
    };
    assert!(said.headline().starts_with("the exact prior daemon state was restored and remains running"));
    assert!(said.detail().ends_with("seen"));
    assert_eq!(state.restarted_pid, Some(9));
    assert_eq!(
        state.initial_stop_state,
        InitialGenerationStopState::NotRequested
    );
}

#[test]
fn a_failed_rollback_ends_in_absence() {
    let mut state = detached();
    let stage = SelfUpdateDaemonRestart::begin_restore_installer_prior_state();
    let step = state.restore_installer_prior_state(stage, failed("no start"));
    assert_eq!(
        step,
        LifecycleStep::Await(PriorStage::Reestablish {
            error: Fault::of("no start")
        })
    );
    assert_eq!(
        state.restore_installer_prior_state(
            PriorStage::Reestablish {
                error: Fault::of("no start")
            },
            ok()
        ),
        LifecycleStep::Finished(Ok(InstallerRollbackTransition::FailedStopped(Fault::of(
            "no start"
        ))))
    );
    assert_eq!(
        state.restore_installer_prior_state(PriorStage::Rollback, ok()),
        LifecycleStep::Finished(Ok(InstallerRollbackTransition::Restored))
    );
}

fn ready_to_uninstall() -> SelfUpdateDaemonRestart {
    let mut state = capture(looks(None, || service(None))).unwrap();
    state.absence_held = true;
    state.stopped_service_snapshot = Some(service(None));
    state
}

#[test]
fn a_service_is_removed_under_absence() {
    let mut state = ready_to_uninstall();
    let mut step = state.begin_installer_uninstall();
    for (reply, expected) in [
        (ok(), PrepareStage::LookPid),
        (LifecycleReply::Pid(Ok(None)), PrepareStage::Uninstall),
        (
            LifecycleReply::Uninstalled(Ok(ExactServiceUninstallOutcome::Applied {
                operation_error: None,
            })),
            PrepareStage::VerifyUninstalled {
                operation_error: None,
            },
        ),
    ] {
        let LifecycleStep::Await(stage) = step else {
            panic!("{step:?}");
        };
        step = state.prepare_installer_uninstall(stage, reply);
        assert_eq!(step, LifecycleStep::Await(expected));
    }
    assert_eq!(
        state.uninstall_state,
        InstallerUninstallState::AppliedPendingVerification
    );
    assert_eq!(
        state.prepare_installer_uninstall(
            PrepareStage::VerifyUninstalled {
                operation_error: None
            },
            LifecycleReply::Boundary(stopped_looks(no_service()))
        ),
        LifecycleStep::Finished(Ok(InstallerUninstallTransition::Ready))
    );
    assert_eq!(state.uninstall_state, InstallerUninstallState::Ready);
}

#[test]
fn a_removal_without_absence_or_beside_a_daemon_is_refused() {
    let mut free = ready_to_uninstall();
    free.absence_held = false;
    assert_eq!(
        free.begin_installer_uninstall(),
        LifecycleStep::Finished(Err(Fault::of(
            "daemon absence lease was not held before installer uninstall"
        )))
    );
    let mut state = ready_to_uninstall();
    assert_eq!(
        state.prepare_installer_uninstall(
            PrepareStage::LookPid,
            LifecycleReply::Pid(Ok(Some(7)))
        ),
        LifecycleStep::Finished(Err(Fault::of(
            "a daemon generation appeared before installer uninstall"
        )))
    );
    assert_eq!(
        state.prepare_installer_uninstall(
            PrepareStage::Uninstall,
            LifecycleReply::Uninstalled(Ok(ExactServiceUninstallOutcome::PriorExact {
                operation_error: Fault::of("busy")
            }))
        ),
        LifecycleStep::Await(PrepareStage::VerifyStopped {
            operation_error: Fault::of("busy")
        })
    );
    assert_eq!(state.uninstall_state, InstallerUninstallState::NotApplied);
    assert_eq!(
        state.prepare_installer_uninstall(
            PrepareStage::VerifyStopped {
                operation_error: Fault::of("busy")
            },
            LifecycleReply::Boundary(stopped_looks(service(None)))
        ),
        LifecycleStep::Finished(Ok(InstallerUninstallTransition::RestoredStopped(
            Fault::of("busy")
        )))
    );
}

#[test]
fn an_interrupted_removal_is_found_applied_or_not() {
    let mut state = ready_to_uninstall();
    assert_eq!(
        state.classify_uninstall_boundary_state(
            Ok(service(None)),
            stopped_looks(service(None))
        ),
        Ok(UninstallBoundaryState::PriorStopped)
    );
    assert_eq!(state.uninstall_state, InstallerUninstallState::NotApplied);
    assert_eq!(
        state.classify_uninstall_boundary_state(Ok(no_service()), stopped_looks(no_service())),
        Ok(UninstallBoundaryState::Applied)
    );
    assert!(state.uninstall_state.is_applied());
}

fn final_looks(pid: Option<u32>) -> FinalLooks {
    FinalLooks {
        service: Ok(no_service()),
        running: Ok(pid),
        absence: Ok(()),
        executable: ExecutableLook::Token(Ok(token(2))),
        sight: Ok(pid.map(|pid| sight(pid, 2))),
    }
}

fn restarted() -> SelfUpdateDaemonRestart {
    let mut state = detached();
    state.executable = Owner::Replacement;
    state.expected_executable_token = Some(token(2));
    state.expected_service_snapshot = Some(no_service());
    state.restarted_pid = Some(9);
    state
}

#[test]
fn the_final_state_is_exact() {
    let mut state = restarted();
    state.verify_final_state_snapshot(final_looks(Some(9))).unwrap();
    assert_eq!(
        state.verify_final_state(final_looks(Some(9))),
        FinalStep::Finished(Ok(()))
    );
    let mut other_file = final_looks(Some(9));
    other_file.executable = ExecutableLook::Token(Ok(token(3)));
    assert_eq!(
        state.verify_final_state_snapshot(other_file),
        Err(Fault::of(
            "executable identity changed before the final daemon boundary: /opt/new"
        ))
    );
    let mut other_service = final_looks(Some(9));
    other_service.service = Ok(service(None));
    assert!(state.verify_final_state_snapshot(other_service).is_err());
    assert_eq!(
        state.verify_final_state_snapshot(final_looks(Some(10))),
        Err(Fault::of(
            "restarted daemon PID identity changed before self-update commit (expected 9, observed 10)"
        ))
    );
    assert!(matches!(
        restarted().verify_final_state(final_looks(None)),
        FinalStep::Reestablish(_)
    ));
    assert!(finish_final_verification(Fault::of("wrong"), Err(Fault::of("stuck")))
        .detail()
        .contains("stuck"));
}

#[test]
fn the_stopped_boundary_is_exact() {
    let mut state = ready_to_uninstall();
    state.verify_stopped_boundary_state(stopped_looks(service(None))).unwrap();
    assert!(state.verify_stopped_boundary_state(stopped_looks(no_service())).is_err());
    let mut running = stopped_looks(service(None));
    running.running = Ok(Some(7));
    assert!(state.verify_stopped_boundary_state(running).is_err());
    let mut lost = stopped_looks(service(None));
    lost.absence = Err(Fault::of("lost"));
    assert_eq!(
        state.verify_stopped_boundary_state(lost),
        Err(Fault::of("lost"))
    );
    state.absence_held = false;
    assert!(state.verify_stopped_boundary_state(stopped_looks(service(None))).is_err());
}

#[test]
fn the_owner_of_a_service_is_the_one_executable_that_it_names() {
    let mut state = managed();
    state
        .classify_service_executable(
            Owner::Replacement,
            Err(Fault::of("other owner")),
            Ok(()),
        )
        .unwrap();
    assert_eq!(state.service_executable, Owner::Replacement);
    assert!(state
        .classify_service_executable(
            Owner::Initial,
            Err(Fault::of("a")),
            Err(Fault::of("b")),
        )
        .is_err());
    assert_eq!(state.service_executable, Owner::Replacement);
}

#[test]
fn each_look_asks_for_the_daemon_that_may_run() {
    let initial = |daemon: Option<u32>| ServiceLook {
        owner: Owner::Initial,
        daemon,
    };
    assert_eq!(managed().look_at_captured_service(), initial(Some(7)));
    assert_eq!(managed().look_at_ready_service(), initial(None));
    assert_eq!(detached().look_at_captured_service(), initial(None));
    assert_eq!(managed().look_at_idle_service(), initial(None));
    assert_eq!(managed().look_at_stopped_service(), initial(None));
    assert_eq!(managed().look_at_restarted_service(8), initial(Some(8)));
    assert_eq!(managed().look_at_final_service(), initial(Some(7)));
    let mut removed = managed();
    removed.uninstall_state = InstallerUninstallState::AppliedPendingVerification;
    assert_eq!(removed.look_at_final_service(), initial(None));
    let mut updated = managed();
    updated.expected_service_snapshot = Some(service(Some(9)));
    updated.service_executable = Owner::Replacement;
    assert_eq!(
        updated.look_at_final_service(),
        ServiceLook {
            owner: Owner::Replacement,
            daemon: Some(9),
        }
    );
    assert_eq!(captured_daemon(&Ok(Some(sight(7, 1)))), Some(7));
    assert_eq!(captured_daemon(&Err(Fault::of("unreadable"))), None);
}

#[test]
fn an_executable_is_read_where_one_is_expected() {
    let look = |token: bool| FileLook {
        owner: Owner::Initial,
        token,
    };
    let mut state = stopped();
    assert_eq!(state.look_at_initial_executable(), look(true));
    assert_eq!(state.look_at_final_executable(), look(true));
    state.initial_executable_state = InitialExecutableState::Absent;
    state.expected_executable_token = None;
    assert_eq!(state.look_at_initial_executable(), look(false));
    assert_eq!(state.look_at_final_executable(), look(false));
}
