use codex_switch_daemon::definition_read::{
    begin_definition_snapshot, definition_snapshot, DefinitionKind, ReadReply, ReadStage, ReadStep,
};
use codex_switch_daemon::fault::Fault;
use codex_switch_daemon::fs_ops::{token_for_file, CreateExactOutcome, FileSnapshot, FileToken};
use codex_switch_daemon::host_path::{HostPath, PathComponent};
use codex_switch_daemon::launchd_service::{
    install_launchd, launchd_activation, launchd_preparation, require_restorable_launch_agent,
    restore_launchd_after_prepublication_stop, rollback_launchd_install,
    rollback_launchd_uninstall, start_launchd, stop_launchd, uninstall_launchd,
};
use codex_switch_daemon::service_admission::{
    admit_installation, Admission, AdmissionContext, AdmissionReply, AdmissionStage,
    AdmissionStep, UserServiceManager, Validation,
};
use codex_switch_daemon::service_install::{
    create_service_file_copy_durable, definition_was_moved,
    install_step, require_service_transaction_path_absent, service_transaction_path,
    uninstall_error, uninstall_step, DurableCopyReply, DurableCopyStage, DurableCopyStep,
    InstallPhase, InstallStep, NameSight, UninstallStep,
};
use codex_switch_daemon::service_operation::{
    advance, beginning, create_scheduled_task, launchctl_require_loaded_state, launchctl_start,
    pending, schtasks, schtasks_arguments, systemctl_arguments, systemctl_require, Check,
    CheckReply, CommandRun, Cursor, Expectation, Part, Progress, SchtasksCommand,
    ServiceOperation, SystemctlCommand, TaskState,
};
use codex_switch_daemon::service_publication::{
    ServiceFileCleanupOutcome, ServiceFilePublication, ServiceFileTransactionState,
};
use codex_switch_daemon::service_state::{
    definition_snapshot_matches, optional_task_definition, require_service_snapshot,
    DefinitionLook, ServiceDefinition,
};
use codex_switch_daemon::service_transaction::{
    begin_service_file_removal, commit_removal, commit_removal_step, rollback_publication,
    rollback_publication_step, rollback_removal, rollback_removal_step, MoveAwayStage,
    MoveAwayStep, PublishedPlace, RemovalCommitStep, RemovalEndStage, RemovalNames,
    RemovalRollbackStep, RollbackStage, RollbackStep, ServiceFileRemovalCommit, TransactionReply,
};
use codex_switch_daemon::service_publication::PublicationNames;
use codex_switch_daemon::service_render::{systemd_unit, LAUNCHD_LABEL, SYSTEMD_UNIT_NAME};
use codex_switch_daemon::systemd_service::{
    install_systemd, require_restorable_systemd_unit,
    require_valid_systemd_unit, restore_systemd_after_prepublication_stop,
    rollback_systemd_install, rollback_systemd_uninstall, start_systemd, stop_systemd,
    systemd_activation, systemd_install_texts, systemd_preparation, systemd_uninstall_texts,
    uninstall_systemd,
};
use codex_switch_daemon::task_service::{
    after_failed_task_start, install_task_scheduler, require_task_definition_snapshot,
    restoration_of, restore_scheduled_task, staged_task_name, start_task_scheduler,
    uninstall_task_scheduler, TaskInstallPhase, TaskInstallStep,
};

fn token(low: u64) -> FileToken {
    FileToken {
        identity_high: 1,
        identity_low: low,
        digest: [low as u8; 32],
    }
}

fn host(path: &str) -> HostPath {
    let (parent, name) = path.rsplit_once('/').unwrap();
    HostPath {
        unicode: Some(path.to_string()),
        display: path.to_string(),
        absolute: true,
        components: vec![PathComponent::Root, PathComponent::Normal(name.to_string())],
        parent: Some(parent.to_string()),
        file_name: Some(name.to_string()),
    }
}

fn operations(script: &[Check]) -> Vec<ServiceOperation> {
    script.iter().map(|check| check.operation).collect()
}

fn favourable(check: &Check) -> CheckReply {
    match check.expectation {
        Expectation::Is { value, .. } => CheckReply::Answer(value),
        Expectation::Vacant { .. } => CheckReply::Pid(None),
        Expectation::Look => CheckReply::Answer(false),
        _ => CheckReply::Done,
    }
}

fn systemctl(command: SystemctlCommand) -> ServiceOperation {
    ServiceOperation::Systemctl(command)
}

fn run<'a>(script: impl Fn(Part) -> Vec<Check<'a>>) -> Result<usize, Fault> {
    let mut cursor = beginning();
    let mut count = 0;
    loop {
        let checks = script(cursor.part);
        let Some(check) = pending(&checks, cursor) else {
            return Ok(count);
        };
        count += 1;
        match advance(check, cursor, favourable(check)) {
            Progress::Go(next) => cursor = next,
            Progress::Failed(fault) => return Err(fault),
        }
    }
}

#[test]
fn a_check_holds_or_says_why_not() {
    let script = systemd_preparation(true);
    let at = |at| Cursor {
        part: Part::First,
        at,
    };
    assert_eq!(
        advance(&script[0], at(0), CheckReply::Done),
        Progress::Go(at(1))
    );
    assert_eq!(
        advance(&script[1], at(1), CheckReply::Answer(true)),
        Progress::Failed(Fault::of(
            "systemctl stop returned while the existing service remained active"
        ))
    );
    let vacant = systemd_preparation(false);
    assert_eq!(
        advance(&vacant[0], at(0), CheckReply::Pid(Some(7))),
        Progress::Failed(Fault::of(
            "daemon PID 7 is running outside the inactive systemd service; stop it before installing the service"
        ))
    );
    let Progress::Failed(fault) =
        advance(&vacant[0], at(0), CheckReply::Failed(Fault::of("unreadable")))
    else {
        panic!("the look failed");
    };
    assert_eq!(
        fault.detail(),
        "checking for a detached daemon before systemd installation: unreadable"
    );
    assert!(matches!(
        advance(&vacant[0], at(0), CheckReply::Done),
        Progress::Failed(_)
    ));
}

#[test]
fn every_procedure_ends_where_each_check_holds() {
    for flag in [false, true] {
        for other in [false, true] {
            let runs = [
                run(|_| systemd_preparation(flag)),
                run(|part| restore_systemd_after_prepublication_stop(flag, other, part)),
                run(|_| systemd_activation()),
                run(|_| rollback_systemd_install(flag, other, true)),
                run(|part| rollback_systemd_uninstall(true, flag, other, "restoring", part)),
                run(|_| start_systemd(true)),
                run(|part| stop_systemd(true, part)),
                run(|_| uninstall_systemd(flag)),
                run(|_| launchd_preparation(flag)),
                run(|part| restore_launchd_after_prepublication_stop(flag, part)),
                run(|_| launchd_activation()),
                run(|part| rollback_launchd_install(flag, "restoring", part)),
                run(|part| rollback_launchd_uninstall(true, flag, "restoring", part)),
                run(|part| start_launchd(true, part)),
                run(|part| stop_launchd(true, part)),
                run(|_| uninstall_launchd(flag, other)),
                run(|_| start_task_scheduler()),
            ];
            for (number, outcome) in runs.iter().enumerate() {
                assert!(outcome.is_ok(), "{number}: {outcome:?}");
            }
        }
    }
    for absent in [
        run(|_| start_systemd(false)),
        run(|part| stop_systemd(false, part)),
    ] {
        assert_eq!(absent, Err(Fault::of("systemd service not installed")));
    }
}

#[test]
fn a_systemd_unit_is_replaced_only_unchanged_and_without_a_daemon() {
    assert_eq!(
        operations(&systemd_preparation(true)),
        [
            systemctl(SystemctlCommand::Stop),
            ServiceOperation::AskActive,
            ServiceOperation::AwaitAbsence,
            ServiceOperation::RequireUnchanged,
        ]
    );
    assert_eq!(
        operations(&systemd_preparation(false)),
        [
            ServiceOperation::RunningPid,
            ServiceOperation::RequireUnchanged
        ]
    );
    assert_eq!(
        operations(&install_systemd(
            &InstallPhase::Activate,
            true,
            true,
            true,
            Part::First
        )),
        operations(&systemd_activation())
    );
}

#[test]
fn a_rollback_starts_no_second_generation() {
    let script = rollback_systemd_install(true, true, true);
    let start = script
        .iter()
        .position(|check| check.operation == systemctl(SystemctlCommand::Start))
        .unwrap();
    assert!(matches!(
        script[start - 1].expectation,
        Expectation::Vacant { .. }
    ));
    let restored = restore_launchd_after_prepublication_stop(true, Part::Second(false));
    let load = restored
        .iter()
        .position(|check| check.operation == ServiceOperation::Load)
        .unwrap();
    assert!(matches!(
        restored[load - 1].expectation,
        Expectation::Vacant { .. }
    ));
}

#[test]
fn a_definition_is_removed_only_once_its_daemon_is_gone() {
    assert_eq!(
        operations(&uninstall_systemd(true))[..5],
        [
            systemctl(SystemctlCommand::DisableNow),
            ServiceOperation::AskActive,
            ServiceOperation::AskEnabled,
            ServiceOperation::AwaitAbsence,
            ServiceOperation::MoveAway,
        ]
    );
    assert_eq!(
        operations(&uninstall_launchd(true, true))[..3],
        [
            ServiceOperation::Unload,
            ServiceOperation::AwaitAbsence,
            ServiceOperation::MoveAway,
        ]
    );
    let script = uninstall_task_scheduler(true, "reading", "changed", "remains");
    assert_eq!(
        operations(&script)[1..5],
        [
            ServiceOperation::AwaitAbsence,
            ServiceOperation::AskTaskFileUnchanged,
            ServiceOperation::RequireTaskXml(TaskState::Previous),
            ServiceOperation::Schtasks(SchtasksCommand::Delete),
        ]
    );
    let moved = uninstall_systemd(true);
    assert!(!definition_was_moved(&moved, 4));
    assert!(definition_was_moved(&moved, 5));
}

#[test]
fn an_installation_commits_only_what_runs() {
    let texts = systemd_install_texts();
    let step = |phase, outcome| install_step(&texts, true, phase, outcome);
    assert_eq!(
        step(InstallPhase::Prepare, Ok(())),
        InstallStep::Enter(InstallPhase::Publish)
    );
    assert_eq!(
        step(InstallPhase::Publish, Ok(())),
        InstallStep::Enter(InstallPhase::Activate)
    );
    assert_eq!(
        step(InstallPhase::Activate, Ok(())),
        InstallStep::Enter(InstallPhase::Commit)
    );
    assert_eq!(
        step(InstallPhase::Commit, Ok(())),
        InstallStep::Finished(Ok(()))
    );
    assert_eq!(
        step(InstallPhase::Activate, Err(Fault::of("dead"))),
        InstallStep::Enter(InstallPhase::RollBack(Fault::of("dead")))
    );
    let InstallStep::Finished(Err(fault)) =
        step(InstallPhase::RollBack(Fault::of("dead")), Ok(()))
    else {
        panic!("the installation failed");
    };
    assert_eq!(
        fault.detail(),
        "new systemd service failed; previous definition was restored: dead"
    );
    let InstallStep::Finished(Err(fault)) = install_step(
        &texts,
        false,
        InstallPhase::Prepare,
        Err(Fault::of("busy")),
    ) else {
        panic!("the installation failed");
    };
    assert_eq!(
        fault.detail(),
        "systemd installation preparation failed before any service state was changed: busy"
    );
    assert_eq!(
        step(InstallPhase::Publish, Err(Fault::of("full"))),
        InstallStep::Enter(InstallPhase::RestartUnchanged(Fault::of("full")))
    );
    assert_eq!(
        step(InstallPhase::Prepare, Err(Fault::of("busy"))),
        InstallStep::Enter(InstallPhase::RestorePrepared(Fault::of("busy")))
    );
    assert!(!install_launchd(&InstallPhase::Prepare, true, "restoring", Part::First).is_empty());
}

#[test]
fn a_failed_uninstallation_is_rolled_back() {
    let texts = systemd_uninstall_texts();
    assert_eq!(
        uninstall_step(&texts, Err(Fault::of("stuck")), None),
        UninstallStep::RollBack(Fault::of("stuck"))
    );
    assert_eq!(
        uninstall_step(&texts, Ok(()), None),
        UninstallStep::Finished(Ok(()))
    );
    assert!(matches!(
        uninstall_step(&texts, Ok(()), Some(Fault::of("no sync"))),
        UninstallStep::Finished(Err(_))
    ));
    assert!(uninstall_error(&texts, Fault::of("stuck"), Err(Fault::of("worse")))
        .detail()
        .contains("worse"));
}

#[test]
fn a_task_is_staged_before_the_live_one_changes() {
    let step = |phase, outcome| install_task_scheduler("stage", true, phase, outcome);
    for (phase, next) in [
        (TaskInstallPhase::Stage, TaskInstallPhase::Unstage),
        (TaskInstallPhase::Unstage, TaskInstallPhase::Prepare),
        (TaskInstallPhase::Prepare, TaskInstallPhase::Create),
        (TaskInstallPhase::Create, TaskInstallPhase::Inspect),
        (TaskInstallPhase::Inspect, TaskInstallPhase::Activate),
    ] {
        assert_eq!(step(phase, Ok(())), TaskInstallStep::Enter(next));
    }
    assert_eq!(
        step(TaskInstallPhase::Activate, Ok(())),
        TaskInstallStep::Finished(Ok(()))
    );
    assert_eq!(
        step(TaskInstallPhase::Create, Err(Fault::of("denied"))),
        TaskInstallStep::Enter(TaskInstallPhase::RestoreUncertain(Fault::of("denied")))
    );
    assert_eq!(
        step(TaskInstallPhase::Inspect, Err(Fault::of("odd"))),
        TaskInstallStep::Enter(TaskInstallPhase::RestoreUninspected(Fault::of("odd")))
    );
    assert_eq!(
        step(TaskInstallPhase::Activate, Err(Fault::of("dead"))),
        TaskInstallStep::Enter(TaskInstallPhase::RollBack(Fault::of("dead")))
    );
    assert_eq!(
        staged_task_name(42, u128::MAX),
        format!(r"\codex-switch-global-pace-daemon-install-42-{}", u128::MAX)
    );
}

#[test]
fn a_task_is_replaced_only_as_it_was_classified() {
    let changed = restoration_of(Some(b"new"), Some(b"old"), true, false, true);
    assert!(!changed.unchanged && changed.previous_present);
    let script = restore_scheduled_task(changed, Part::First);
    let create = script
        .iter()
        .position(|check| check.operation == ServiceOperation::CreateFromXml)
        .unwrap();
    assert_eq!(
        operations(&script)[create - 2..create],
        [
            ServiceOperation::RequireTaskFile(TaskState::Current),
            ServiceOperation::RequireTaskXml(TaskState::Current),
        ]
    );
    assert!(restoration_of(Some(b"x"), Some(b"x"), true, false, true).unchanged);
    assert!(after_failed_task_start(Fault::of("no start"), Err(Fault::of("no stop")))
        .detail()
        .contains("no stop"));
    require_task_definition_snapshot("/t", Some(b"x"), Some(b"x")).unwrap();
    assert!(require_task_definition_snapshot("/t", Some(b"x"), None).is_err());
}

#[test]
fn manager_commands_have_exact_arguments() {
    assert_eq!(
        systemctl_arguments(SystemctlCommand::EnableNow),
        ["enable", "--now", SYSTEMD_UNIT_NAME]
    );
    assert_eq!(
        systemctl_arguments(SystemctlCommand::DaemonReload),
        ["daemon-reload"]
    );
    assert_eq!(schtasks_arguments(SchtasksCommand::Delete)[0], "/Delete");
    let create = create_scheduled_task("name", "run", true);
    assert!(create.contains(&"/F".to_string()));
    assert!(!create_scheduled_task("name", "run", false).contains(&"/F".to_string()));
    let ended = |success| CommandRun::Ended {
        success,
        detail: "why".to_string(),
    };
    systemctl_require("stop it", ended(true)).unwrap();
    assert!(systemctl_require("stop it", ended(false))
        .unwrap_err()
        .detail()
        .contains("why"));
    schtasks("run it", true, "", "").unwrap();
    assert!(schtasks("run it", false, "denied", "").is_err());
    launchctl_require_loaded_state("load", true, ended(true), Ok(true)).unwrap();
    assert!(launchctl_require_loaded_state("load", true, ended(true), Ok(false)).is_err());
    launchctl_start(ended(true), Ok(true)).unwrap();
    assert!(launchctl_start(ended(true), Ok(false)).is_err());
}

#[test]
fn an_inactive_service_without_a_definition_cannot_be_restored() {
    require_restorable_systemd_unit("/u", true, true, true).unwrap();
    assert!(require_restorable_systemd_unit("/u", false, true, false).is_err());
    require_restorable_launch_agent("/p", false, false).unwrap();
    assert!(require_restorable_launch_agent("/p", false, true).is_err());
    require_valid_systemd_unit(true, "").unwrap();
    assert!(require_valid_systemd_unit(false, "line 3").is_err());
}

#[test]
fn a_failed_service_is_restored_only_once_it_is_known_to_be_stopped() {
    let script = rollback_systemd_install(true, true, true);
    assert_eq!(script[0].operation, ServiceOperation::StopUnit);
    assert_eq!(script[0].action, "stop failed new systemd service");
    let after = |active| {
        let reply = CheckReply::NotStopped {
            error: Fault::of("no bus"),
            active,
        };
        advance(&script[0], beginning(), reply)
    };
    let next = Progress::Go(Cursor {
        part: Part::First,
        at: 1,
    });
    assert_eq!(advance(&script[0], beginning(), CheckReply::Done), next);
    assert_eq!(after(Ok(false)), next);
    let refused = |progress| match progress {
        Progress::Failed(fault) => fault.detail(),
        progress => panic!("{progress:?}"),
    };
    assert_eq!(
        refused(after(Ok(true))),
        "failed new systemd service is still active; refusing to restore its definition underneath the running process: no bus"
    );
    assert_eq!(
        refused(after(Err(Fault::of("timeout").within("asking")))),
        "could not verify that the failed new systemd service stopped: asking: no bus"
    );
}

#[test]
fn transaction_names_are_hidden_siblings() {
    assert_eq!(
        service_transaction_path(&host("/d/unit.service"), ".backup"),
        Ok("/d/.unit.service.backup".to_string())
    );
    let mut nameless = host("/d/unit.service");
    nameless.file_name = None;
    assert_eq!(
        service_transaction_path(&nameless, ".backup"),
        Err(Fault::of(
            "service definition has no file name: /d/unit.service"
        ))
    );
    require_service_transaction_path_absent("/d/x", "candidate", NameSight::Free).unwrap();
    assert!(
        require_service_transaction_path_absent("/d/x", "candidate", NameSight::Taken).is_err()
    );
}

#[test]
fn a_durable_copy_that_cannot_be_flushed_is_removed() {
    let step = |stage, reply| create_service_file_copy_durable("/d/x", "backup", stage, reply);
    assert_eq!(
        step(
            DurableCopyStage::Create,
            DurableCopyReply::Created(Ok(CreateExactOutcome::Created(token(1))))
        ),
        DurableCopyStep::Finished(Ok(token(1)))
    );
    assert_eq!(
        step(
            DurableCopyStage::Create,
            DurableCopyReply::Created(Ok(
                CreateExactOutcome::CreatedNamespaceDurabilityUnconfirmed(token(1))
            ))
        ),
        DurableCopyStep::Await(DurableCopyStage::Sync(token(1)))
    );
    assert_eq!(
        step(
            DurableCopyStage::Sync(token(1)),
            DurableCopyReply::Synced(Ok(()))
        ),
        DurableCopyStep::Finished(Ok(token(1)))
    );
    assert!(matches!(
        step(
            DurableCopyStage::Sync(token(1)),
            DurableCopyReply::Synced(Err(Fault::of("io")))
        ),
        DurableCopyStep::Await(DurableCopyStage::CleanUp { .. })
    ));
}

fn names() -> PublicationNames {
    PublicationNames {
        path: "/d/unit".to_string(),
        candidate: "/d/candidate".to_string(),
        backup: "/d/backup".to_string(),
        previous: Some(token(1)),
    }
}

#[test]
fn a_rollback_restores_before_it_removes() {
    let publication = ServiceFilePublication {
        published: token(2),
        displaced: Some(token(1)),
        backup: Some(token(3)),
        state: ServiceFileTransactionState::Pending,
    };
    let mut step = rollback_publication(&publication);
    let mut stages = Vec::new();
    for reply in [
        TransactionReply::Token(token(2)),
        TransactionReply::Token(token(1)),
        TransactionReply::Moved {
            boundary: None,
            live: Some(token(1)),
            other: Some(token(2)),
        },
        TransactionReply::Done,
        TransactionReply::Cleaned(Ok(ServiceFileCleanupOutcome::Durable)),
        TransactionReply::Cleaned(Ok(ServiceFileCleanupOutcome::Durable)),
    ] {
        let RollbackStep::Await(stage) = step else {
            break;
        };
        stages.push(format!("{stage:?}"));
        step = rollback_publication_step(&names(), &publication, stage, reply);
    }
    assert!(
        matches!(
            &step,
            RollbackStep::Finished {
                state: ServiceFileTransactionState::Finished,
                result: Ok(()),
            }
        ),
        "{step:?} after {stages:?}"
    );
    assert_eq!(
        PublishedPlace::Candidate.purpose(),
        "rolled-back service candidate"
    );
    let fresh = ServiceFilePublication {
        published: token(2),
        displaced: None,
        backup: None,
        state: ServiceFileTransactionState::Pending,
    };
    assert_eq!(
        rollback_publication_step(
            &names(),
            &fresh,
            RollbackStage::BindLive,
            TransactionReply::Token(token(2)),
        ),
        RollbackStep::Await(RollbackStage::RemovePublished {
            from: PublishedPlace::Path
        })
    );
    let RollbackStep::Finished { result, .. } = rollback_publication_step(
        &names(),
        &publication,
        RollbackStage::BindLive,
        TransactionReply::Token(token(9)),
    ) else {
        panic!("another writer owns the definition");
    };
    assert!(result.is_err());
}

fn removal() -> RemovalNames {
    RemovalNames {
        path: "/d/unit".to_string(),
        removed: "/d/removed".to_string(),
        token: token(1),
    }
}

#[test]
fn only_the_captured_definition_is_moved_away() {
    let moved = |live, other| TransactionReply::Moved {
        boundary: None,
        live,
        other,
    };
    let step = begin_service_file_removal(
        &removal(),
        MoveAwayStage::Move,
        moved(None, Some(token(1))),
    );
    assert!(
        matches!(
            step,
            MoveAwayStep::Finished(Ok(())) | MoveAwayStep::Await(MoveAwayStage::Confirm { .. })
        ),
        "{step:?}"
    );
    let step = begin_service_file_removal(
        &removal(),
        MoveAwayStage::Move,
        moved(None, Some(token(9))),
    );
    assert_eq!(
        step,
        MoveAwayStep::Await(MoveAwayStage::PutBack {
            displaced: token(9)
        })
    );
}

#[test]
fn a_removal_is_committed_or_taken_back() {
    assert_eq!(
        commit_removal(ServiceFileTransactionState::Pending),
        RemovalCommitStep::Await(RemovalEndStage::LookLive)
    );
    let looked = commit_removal_step(
        &removal(),
        RemovalEndStage::LookLive,
        TransactionReply::Sight(None),
    );
    assert_eq!(looked, RemovalCommitStep::Await(RemovalEndStage::Remove));
    assert_eq!(
        commit_removal_step(
            &removal(),
            RemovalEndStage::Remove,
            TransactionReply::Cleaned(Ok(ServiceFileCleanupOutcome::Durable))
        ),
        RemovalCommitStep::Finished {
            state: ServiceFileTransactionState::Finished,
            result: Ok(ServiceFileRemovalCommit::Durable),
        }
    );
    let RemovalRollbackStep::Await(stage) =
        rollback_removal(ServiceFileTransactionState::Pending)
    else {
        panic!("the definition is away");
    };
    assert!(matches!(
        rollback_removal_step(
            &removal(),
            stage,
            TransactionReply::Sight(Some(token(9)))
        ),
        RemovalRollbackStep::Finished { result: Err(_), .. }
    ));
}

#[test]
fn a_failed_cleanup_is_classified_by_one_look_after_the_other() {
    let cause = || Fault::of("busy");
    let removed = || RemovalEndStage::ClassifyRemoved { cause: cause() };
    let live = || RemovalEndStage::ClassifyLive { cause: cause() };
    let commit = |stage, reply| commit_removal_step(&removal(), stage, reply);
    let ended = |step| match step {
        RemovalCommitStep::Finished { state, result } => (state, result.unwrap_err().detail()),
        step => panic!("{step:?}"),
    };
    assert_eq!(
        commit(
            RemovalEndStage::Remove,
            TransactionReply::Cleaned(Err(cause()))
        ),
        RemovalCommitStep::Await(removed())
    );
    assert_eq!(
        commit(removed(), TransactionReply::Sight(Some(token(1)))),
        RemovalCommitStep::Await(live())
    );
    let uncommitted = "committing service uninstall at /d/unit: busy".to_string();
    assert_eq!(
        ended(commit(removed(), TransactionReply::Sight(Some(token(2))))),
        (ServiceFileTransactionState::Preserved, uncommitted.clone())
    );
    assert_eq!(
        ended(commit(live(), TransactionReply::Sight(None))),
        (ServiceFileTransactionState::Pending, uncommitted.clone())
    );
    assert_eq!(
        ended(commit(live(), TransactionReply::Sight(Some(token(1))))),
        (ServiceFileTransactionState::Preserved, uncommitted)
    );
    assert_eq!(
        ended(commit(removed(), TransactionReply::Failed(Fault::of("denied")))),
        (
            ServiceFileTransactionState::Pending,
            "classifying preserved service-uninstall recovery path after cleanup failure: /d/removed: denied"
                .to_string()
        )
    );
    assert_eq!(
        ended(commit(live(), TransactionReply::Failed(Fault::of("denied")))),
        (ServiceFileTransactionState::Pending, "denied".to_string())
    );
}

#[test]
fn a_snapshot_is_of_one_unchanged_file() {
    let sight = |low| FileSnapshot {
        identity_high: 1,
        identity_low: low,
        length: 4,
        changed_high: 0,
        changed_low: 0,
    };
    let shown = |low| token_for_file(sight(low), b"unit", sight(low)).unwrap();
    let read = |tokens: [FileToken; 4], contents: &[u8]| -> Result<ServiceDefinition, Fault> {
        let kind = DefinitionKind::ServiceFile;
        let mut stage = begin_definition_snapshot(kind);
        loop {
            let reply = match &stage {
                ReadStage::LookPath { .. } => ReadReply::Sight(Ok(Some(tokens[0]))),
                ReadStage::Open { .. } => ReadReply::Done(Ok(())),
                ReadStage::BindOpened { .. } => ReadReply::Token(Ok(tokens[1])),
                ReadStage::ReadContents { .. } => ReadReply::Bytes(Ok(contents.to_vec())),
                ReadStage::BindAfter { .. } => ReadReply::Token(Ok(tokens[2])),
                ReadStage::RebindPath { .. } => ReadReply::Token(Ok(tokens[3])),
                stage => panic!("{stage:?}"),
            };
            match definition_snapshot(kind, "/u", stage, reply) {
                ReadStep::Await(next) => stage = next,
                ReadStep::Finished(outcome) => return outcome.map(|found| found.unwrap()),
            }
        }
    };
    assert_eq!(
        definition_snapshot(
            DefinitionKind::ServiceFile,
            "/u",
            ReadStage::LookPath { xml: None },
            ReadReply::Sight(Ok(None))
        ),
        ReadStep::Finished(Ok(None))
    );
    let unreadable = definition_snapshot(
        DefinitionKind::ServiceFile,
        "/u",
        ReadStage::ReadContents {
            token: shown(1),
            xml: None,
        },
        ReadReply::Bytes(Err(Fault::of("denied"))),
    );
    let ReadStep::Finished(Err(fault)) = unreadable else {
        panic!("nothing was read");
    };
    assert_eq!(fault.detail(), "reading service definition /u: denied");
    assert_eq!(read([shown(1); 4], b"unit").unwrap().contents, b"unit");
    for changed in 0..4 {
        let mut tokens = [shown(1); 4];
        tokens[changed] = shown(2);
        assert!(read(tokens, b"unit").is_err());
    }
    assert_eq!(
        read([shown(1); 4], b"other"),
        Err(Fault::of("service definition changed while it was read: /u"))
    );
    let by_token = |outcome| DefinitionLook::Token(outcome);
    require_service_snapshot("/u", Some(&token(1)), by_token(Ok(token(1)))).unwrap();
    assert!(require_service_snapshot("/u", Some(&token(1)), by_token(Ok(token(2)))).is_err());
    assert_eq!(
        require_service_snapshot("/u", Some(&token(1)), by_token(Err(Fault::of("missing"))))
            .unwrap_err()
            .detail(),
        "binding service definition /u: missing"
    );
    require_service_snapshot("/u", None, DefinitionLook::Sight(Ok(None))).unwrap();
    assert_eq!(
        require_service_snapshot("/u", None, DefinitionLook::Sight(Ok(Some(token(1))))),
        Err(Fault::of(
            "service definition /u appeared during the operation; refusing to replace it"
        ))
    );
    assert!(definition_snapshot_matches(None, None));
    assert_eq!(optional_task_definition("/t", false, None), Ok(None));
    assert!(optional_task_definition("/t", true, None).is_err());
}

const OWNER: &str = "/opt/bin/codex-switch-global-pace";

fn context(manager: UserServiceManager, migration: bool) -> AdmissionContext {
    AdmissionContext {
        manager,
        path: "/d/unit".to_string(),
        migration,
        owner: host(OWNER),
    }
}

fn unit_of(executable: &str) -> Vec<u8> {
    systemd_unit(executable, "/h", "/h/.codex", "/h/.s").into_bytes()
}

fn agent_of(executable: &str) -> Vec<u8> {
    format!(
        r#"{{"Label":"{LAUNCHD_LABEL}","ProgramArguments":["{executable}","daemon","start","--foreground"]}}"#
    )
    .into_bytes()
}

fn admitted(
    manager: UserServiceManager,
    defined: bool,
    running: bool,
    enabled: bool,
) -> Result<(Admission, Option<String>), Fault> {
    let context = context(manager, false);
    let mut stage = AdmissionStage::Definition;
    let mut shown = None;
    loop {
        let reply = match stage {
            AdmissionStage::Definition => {
                AdmissionReply::Definition(Ok(if defined { Some(unit_of(OWNER)) } else { None }))
            }
            AdmissionStage::Convert => AdmissionReply::Document(Ok(agent_of(OWNER))),
            AdmissionStage::Validate { .. } => AdmissionReply::Validated(Ok(Validation {
                valid: true,
                detail: String::new(),
            })),
            AdmissionStage::AskRunning { .. } => AdmissionReply::Answer(Ok(running)),
            AdmissionStage::AskEnabled { .. } => AdmissionReply::Answer(Ok(enabled)),
            AdmissionStage::Stage { .. } | AdmissionStage::RequireUnchanged { .. } => {
                AdmissionReply::Done(Ok(()))
            }
        };
        match admit_installation(&context, stage, reply) {
            AdmissionStep::Await {
                stage: next,
                warning,
            } => {
                shown = shown.or(warning);
                stage = next;
            }
            AdmissionStep::Finished(outcome) => return outcome.map(|admission| (admission, shown)),
        }
    }
}

#[test]
fn only_a_service_that_could_be_restored_is_admitted() {
    let (admission, warning) = admitted(UserServiceManager::Systemd, true, true, false).unwrap();
    assert_eq!(
        admission,
        Admission {
            defined: true,
            running: true,
            enabled: false
        }
    );
    assert_eq!(
        warning.unwrap(),
        "Warning: overwriting existing systemd service at /d/unit"
    );
    assert_eq!(
        admitted(UserServiceManager::Systemd, false, false, true)
            .unwrap_err()
            .headline(),
        format!("systemd unit {SYSTEMD_UNIT_NAME} is active or enabled without a restorable definition at /d/unit; refusing to replace it")
    );
    assert!(admitted(UserServiceManager::Launchd, false, true, false).is_err());
    let (agent, warning) = admitted(UserServiceManager::Launchd, true, true, false).unwrap();
    assert!(agent.defined && agent.running);
    assert_eq!(
        warning.unwrap(),
        "Warning: overwriting existing LaunchAgent at /d/unit"
    );
    let (fresh, warning) = admitted(UserServiceManager::Launchd, false, false, true).unwrap();
    assert!(!fresh.enabled && warning.is_none());
}

#[test]
fn a_refused_installation_says_why() {
    let refusal = |manager, migration, stage, reply| match admit_installation(
        &context(manager, migration),
        stage,
        reply,
    ) {
        AdmissionStep::Finished(Err(fault)) => fault.detail(),
        other => panic!("{other:?}"),
    };
    assert_eq!(
        refusal(
            UserServiceManager::Launchd,
            true,
            AdmissionStage::Definition,
            AdmissionReply::Definition(Ok(None))
        ),
        "an existing LaunchAgent was required for executable migration, but no definition is installed"
    );
    let owner = |stage, reply, manager| refusal(manager, false, stage, reply);
    for foreign in [
        owner(
            AdmissionStage::Definition,
            AdmissionReply::Definition(Ok(Some(unit_of("/tmp/other")))),
            UserServiceManager::Systemd,
        ),
        owner(
            AdmissionStage::Convert,
            AdmissionReply::Document(Ok(agent_of("/tmp/other"))),
            UserServiceManager::Launchd,
        ),
    ] {
        assert!(foreign.contains(OWNER), "{foreign}");
    }
    assert_eq!(
        owner(
            AdmissionStage::Convert,
            AdmissionReply::Document(Err(Fault::of("no plutil"))),
            UserServiceManager::Launchd,
        ),
        "no plutil"
    );
    assert_eq!(
        refusal(
            UserServiceManager::Systemd,
            false,
            AdmissionStage::Validate { defined: true },
            AdmissionReply::Validated(Ok(Validation {
                valid: false,
                detail: "line 3".to_string()
            }))
        ),
        "generated systemd user service failed validation: line 3"
    );
    assert_eq!(
        refusal(
            UserServiceManager::Launchd,
            false,
            AdmissionStage::Validate { defined: true },
            AdmissionReply::Validated(Ok(Validation {
                valid: false,
                detail: "line 3".to_string()
            }))
        ),
        "generated LaunchAgent failed plutil validation: line 3"
    );
}
