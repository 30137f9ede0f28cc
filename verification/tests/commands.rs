use codex_switch_daemon::commands::{
    begin_start, begin_stop_windows_installer_owned, begin_uninstall, dispatch,
    prepare_verified_background_spawn, read_holder_arguments, start, stop, stop_detached_locked,
    stop_windows_installer_owned, uninstall, unsupported_platform_line, verify_holder_executable,
    CommandPlan, CommandReply, DaemonCommand, DetachedStage, OwnedStopStage, PriorRun,
    SpawnLooks, StartKind, StartStage, StopCommandStage, UninstallStage,
};
use codex_switch_daemon::fault::Fault;
use codex_switch_daemon::fs_ops::FileToken;
use codex_switch_daemon::host_path::{HostPath, PathComponent, Platform};
use codex_switch_daemon::lifecycle_steps::LifecycleStep;
use codex_switch_daemon::settlement::DaemonGeneration;

const NONCE: &str = "00112233445566778899aabbccddeeff";

fn host(path: &str) -> HostPath {
    let (parent, name) = path.rsplit_once('/').unwrap();
    HostPath {
        unicode: Some(path.to_string()),
        display: path.to_string(),
        absolute: path.starts_with('/'),
        components: vec![
            PathComponent::Root,
            PathComponent::Normal(parent.trim_start_matches('/').to_string()),
            PathComponent::Normal(name.to_string()),
        ],
        parent: Some(parent.to_string()),
        file_name: Some(name.to_string()),
    }
}

fn token(low: u64) -> FileToken {
    FileToken {
        identity_high: 1,
        identity_low: low,
        digest: [5; 32],
    }
}

fn ok() -> CommandReply {
    CommandReply::Done(Ok(()))
}

fn failed(text: &str) -> CommandReply {
    CommandReply::Done(Err(Fault::of(text)))
}

fn pid(pid: Option<u32>) -> CommandReply {
    CommandReply::Pid(Ok(pid))
}

#[test]
fn commands_become_plans() {
    let plan = |platform, command| dispatch(platform, command, false);
    let start = |foreground, expected| DaemonCommand::Start {
        foreground,
        expected,
    };
    assert_eq!(
        plan(Platform::Linux, start(true, false)),
        Ok(CommandPlan::StartForeground)
    );
    assert_eq!(
        plan(Platform::Linux, start(false, false)),
        Ok(CommandPlan::StartBackground)
    );
    assert_eq!(
        plan(Platform::Windows, start(false, true)),
        Ok(CommandPlan::StartOwned)
    );
    assert_eq!(
        plan(Platform::Linux, start(false, true)),
        Err(Fault::of(
            "--expected-executable is supported only on Windows"
        ))
    );
    assert_eq!(
        plan(Platform::Windows, start(true, true)),
        Err(Fault::of(
            "--expected-executable cannot be combined with --foreground"
        ))
    );
    assert_eq!(
        plan(Platform::Other, start(false, false)),
        Err(Fault::of(
            "The background daemon is not supported on this platform."
        ))
    );
    assert_eq!(
        plan(Platform::MacOs, DaemonCommand::Stop { expected: true }),
        Err(Fault::of(
            "--expected-service-executable is supported only on Windows"
        ))
    );
    assert_eq!(
        plan(Platform::Windows, DaemonCommand::Stop { expected: true }),
        Ok(CommandPlan::StopOwned)
    );
    assert_eq!(
        plan(Platform::Linux, DaemonCommand::Stop { expected: false }),
        Ok(CommandPlan::Stop)
    );
    let state = DaemonCommand::Status {
        installer_state: true,
    };
    assert_eq!(
        dispatch(Platform::Linux, state, false),
        Ok(CommandPlan::InstallerState)
    );
    assert!(dispatch(Platform::Linux, state, true).is_err());
    let status = DaemonCommand::Status {
        installer_state: false,
    };
    assert_eq!(
        dispatch(Platform::Linux, status, true),
        Ok(CommandPlan::Status { json: true })
    );
    assert_eq!(
        plan(Platform::Linux, DaemonCommand::Install),
        Ok(CommandPlan::Install)
    );
    assert_eq!(
        plan(
            Platform::Linux,
            DaemonCommand::Uninstall { check_owner: true }
        ),
        Ok(CommandPlan::CheckOwner)
    );
    assert_eq!(
        unsupported_platform_line("haiku"),
        "Daemon is not supported on this platform (haiku)"
    );
}

fn run_start(kind: StartKind, replies: Vec<CommandReply>) -> Result<StartStage, Result<(), Fault>> {
    let exe = host("/opt/codex-switch");
    let mut step = begin_start(kind, Some(&exe));
    for reply in replies {
        match step {
            LifecycleStep::Await(stage) => step = start(kind, stage, reply),
            LifecycleStep::Finished(r) => return Err(r),
        }
    }
    match step {
        LifecycleStep::Await(stage) => Ok(stage),
        LifecycleStep::Finished(r) => Err(r),
    }
}

#[test]
fn a_start_leads_to_the_installed_service_or_a_child() {
    let looks = |installed| {
        vec![
            ok(),
            pid(None),
            ok(),
            CommandReply::Answer(Ok(installed)),
            ok(),
            ok(),
        ]
    };
    assert_eq!(
        run_start(StartKind::Background, looks(true)),
        Ok(StartStage::StartInstalled)
    );
    assert_eq!(
        run_start(StartKind::Background, looks(false)),
        Ok(StartStage::StartDetached)
    );
    assert_eq!(
        run_start(StartKind::Foreground, vec![pid(None), ok(), ok()]),
        Ok(StartStage::RunForeground)
    );
    assert_eq!(
        run_start(
            StartKind::Owned,
            vec![
                ok(),
                pid(None),
                CommandReply::Answer(Ok(false)),
                ok(),
                ok(),
                ok()
            ]
        ),
        Err(Ok(()))
    );
}

#[test]
fn a_running_daemon_is_not_started_again() {
    assert_eq!(
        run_start(StartKind::Background, vec![ok(), pid(Some(7))]),
        Err(Err(Fault::of("Daemon is already running (PID 7)")))
    );
    assert_eq!(
        run_start(StartKind::Owned, vec![ok(), pid(Some(7))]),
        Err(Err(Fault::of("Daemon is already running")))
    );
    let refused = run_start(StartKind::Foreground, vec![pid(None), failed("read-only")]);
    assert_eq!(
        refused.unwrap_err().unwrap_err().detail(),
        "initializing secure file logging before daemon readiness: read-only"
    );
}

#[test]
fn an_owned_start_needs_an_absolute_executable() {
    let mut relative = host("/opt/codex-switch");
    relative.absolute = false;
    assert!(matches!(
        begin_start(StartKind::Owned, Some(&relative)),
        LifecycleStep::Finished(Err(_))
    ));
}

#[test]
fn a_detached_daemon_is_stopped_or_its_stale_file_removed() {
    let target = || DaemonGeneration {
        pid: 7,
        generation: "g".to_string(),
    };
    let look = |observed| DetachedStage::LookGeneration { observed };
    assert_eq!(
        stop_detached_locked(look(None), CommandReply::Generation(Ok(None))),
        LifecycleStep::Finished(Err(Fault::of(
            "No daemon PID file found; daemon may not be running"
        )))
    );
    assert_eq!(
        stop_detached_locked(look(Some(7)), CommandReply::Generation(Ok(None))),
        LifecycleStep::Await(DetachedStage::CleanupStale)
    );
    assert_eq!(
        stop_detached_locked(DetachedStage::CleanupStale, ok()),
        LifecycleStep::Finished(Ok(
            "Daemon was not running (stale PID file cleaned up)".to_string()
        ))
    );
    assert_eq!(
        stop_detached_locked(look(None), CommandReply::Generation(Ok(Some(target())))),
        LifecycleStep::Await(DetachedStage::Stop { target: target() })
    );
    assert_eq!(
        stop_detached_locked(DetachedStage::Stop { target: target() }, ok()),
        LifecycleStep::Await(DetachedStage::Cleanup { pid: 7 })
    );
    assert_eq!(
        stop_detached_locked(DetachedStage::Cleanup { pid: 7 }, ok()),
        LifecycleStep::Finished(Ok("Stopped daemon (PID 7)".to_string()))
    );
}

fn run_stop(platform: Platform, replies: Vec<CommandReply>) -> LifecycleStep<StopCommandStage, ()> {
    let mut step = LifecycleStep::Await(StopCommandStage::Lease);
    for reply in replies {
        let LifecycleStep::Await(stage) = step else {
            panic!("the stop has ended");
        };
        step = stop(platform, stage, reply);
    }
    step
}

#[test]
fn a_stop_goes_through_the_service_where_there_is_one() {
    let located = || CommandReply::Located(Ok(host("/opt/codex-switch")));
    assert_eq!(
        run_stop(
            Platform::Linux,
            vec![
                ok(),
                located(),
                CommandReply::Answer(Ok(true)),
                ok(),
                ok()
            ]
        ),
        LifecycleStep::Finished(Ok(()))
    );
    assert_eq!(
        run_stop(
            Platform::Linux,
            vec![ok(), located(), CommandReply::Answer(Ok(false))]
        ),
        LifecycleStep::Await(StopCommandStage::StopDetached)
    );
    assert_eq!(
        run_stop(Platform::Windows, vec![ok(), located(), pid(Some(7))]),
        LifecycleStep::Await(StopCommandStage::StopDetached)
    );
    assert_eq!(
        run_stop(Platform::Windows, vec![ok(), located(), pid(None), ok()]),
        LifecycleStep::Await(StopCommandStage::LookInstalled)
    );
    let LifecycleStep::Finished(Err(error)) = run_stop(
        Platform::Linux,
        vec![ok(), CommandReply::Located(Err(Fault::of("gone")))],
    ) else {
        panic!("the executable is unknown");
    };
    assert_eq!(error.detail(), "locating daemon executable for stop: gone");
}

fn run_owned(replies: Vec<CommandReply>) -> LifecycleStep<OwnedStopStage, ()> {
    let mut step = begin_stop_windows_installer_owned(&host("/opt/codex-switch"));
    for reply in replies {
        let LifecycleStep::Await(stage) = step else {
            panic!("the stop has ended");
        };
        step = stop_windows_installer_owned(stage, reply);
    }
    step
}

#[test]
fn a_failed_owned_stop_restores_what_ran() {
    let until_stopped = || vec![ok(), ok(), CommandReply::Answer(Ok(false)), pid(Some(7))];
    let mut clean = until_stopped();
    clean.extend([ok(), pid(None)]);
    assert_eq!(run_owned(clean), LifecycleStep::Finished(Ok(())));

    let mut restored = until_stopped();
    restored.extend([failed("stuck"), pid(None), ok(), pid(Some(8))]);
    let LifecycleStep::Finished(Err(error)) = run_owned(restored) else {
        panic!("the stop has failed");
    };
    assert_eq!(
        error.detail(),
        "installer stop failed; prior daemon state was restored: stuck"
    );

    let mut incomplete = until_stopped();
    incomplete.extend([failed("stuck"), pid(None), failed("no start")]);
    let LifecycleStep::Finished(Err(error)) = run_owned(incomplete) else {
        panic!("the stop has failed");
    };
    assert_eq!(
        error.detail(),
        "installer stop failed and prior daemon state restoration was incomplete: no start: stuck"
    );

    let mut installed = vec![ok(), ok(), CommandReply::Answer(Ok(true)), pid(None), ok()];
    assert_eq!(
        run_owned(std::mem::take(&mut installed)),
        LifecycleStep::Await(OwnedStopStage::StopInstalled {
            prior: PriorRun {
                installed: true,
                running: false
            }
        })
    );
}

fn run_uninstall(
    platform: Platform,
    check_only: bool,
    replies: Vec<CommandReply>,
) -> LifecycleStep<UninstallStage, ()> {
    let mut step = begin_uninstall(Ok(host("/opt/codex-switch")), check_only);
    for reply in replies {
        let LifecycleStep::Await(stage) = step else {
            panic!("the removal has ended");
        };
        step = uninstall(platform, stage, reply);
    }
    step
}

#[test]
fn an_uninstallation_removes_only_once_no_daemon_is_left() {
    assert_eq!(
        run_uninstall(Platform::Linux, true, vec![ok()]),
        LifecycleStep::Finished(Ok(()))
    );
    assert_eq!(
        run_uninstall(
            Platform::Linux,
            false,
            vec![ok(), ok(), ok(), pid(Some(7)), ok()]
        ),
        LifecycleStep::Finished(Ok(()))
    );
    assert_eq!(
        run_uninstall(
            Platform::Windows,
            false,
            vec![ok(), ok(), ok(), pid(Some(7)), ok(), pid(None)]
        ),
        LifecycleStep::Await(UninstallStage::Remove { running: true })
    );
    let LifecycleStep::Finished(Err(error)) = run_uninstall(
        Platform::Windows,
        false,
        vec![ok(), ok(), ok(), pid(Some(7)), ok(), pid(Some(7)), ok()],
    ) else {
        panic!("the daemon still runs");
    };
    assert_eq!(
        error.detail(),
        "Windows scheduled-task uninstall failed; the prior daemon running state was restored: Daemon PID 7 still owns the PID lock after the graceful stop request; refusing to force-terminate it during uninstall"
    );
    let LifecycleStep::Finished(Err(error)) =
        begin_uninstall(Err(Fault::of("gone")), false)
    else {
        panic!("the executable is unknown");
    };
    assert_eq!(
        error.detail(),
        "locating the daemon executable for uninstall: gone"
    );
}

#[test]
fn a_holder_begins_with_both_or_none_of_its_proofs() {
    let exe = host("/opt/codex-switch");
    let text = token(3).to_text();
    assert_eq!(read_holder_arguments(&exe, None, None), Ok(None));
    assert_eq!(
        read_holder_arguments(&exe, Some(&text), Some(NONCE)),
        Ok(Some(token(3)))
    );
    assert!(read_holder_arguments(&exe, Some(&text), None).is_err());
    assert!(read_holder_arguments(&exe, None, Some(NONCE)).is_err());
    assert!(read_holder_arguments(&exe, Some("no token"), Some(NONCE)).is_err());
    assert!(read_holder_arguments(&exe, Some(&text), Some("00")).is_err());

    verify_holder_executable(&token(3), Ok(host("/opt/codex-switch")), Ok(token(3))).unwrap();
    assert_eq!(
        verify_holder_executable(&token(3), Ok(exe), Ok(token(4))),
        Err(Fault::of(
            "self-update lifecycle holder executable changed before readiness: /opt/codex-switch"
        ))
    );
}

#[test]
fn a_background_child_runs_only_the_expected_file() {
    let looks = |direct: bool, low: u64| SpawnLooks {
        direct: Ok(direct),
        pinned: Ok(()),
        observed: Ok(token(low)),
    };
    let nonce = prepare_verified_background_spawn("/exe", &token(3), looks(true, 3)).unwrap();
    assert_eq!(nonce.len(), 32);
    assert_ne!(
        prepare_verified_background_spawn("/exe", &token(3), looks(true, 3)).unwrap(),
        nonce
    );
    assert!(prepare_verified_background_spawn("/exe", &token(3), looks(true, 4)).is_err());
    assert_eq!(
        prepare_verified_background_spawn("/exe", &token(3), looks(false, 3)),
        Err(Fault::of(
            "verified background executable is not a direct regular file: /exe"
        ))
    );
}
