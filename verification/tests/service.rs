use std::cell::{Cell, RefCell};
use std::collections::VecDeque;

use codex_switch_daemon::boundary_phase::InstallerUninstallState;
use codex_switch_daemon::fault::Fault;
use codex_switch_daemon::fs_ops::{FileToken, RemoveExactOutcome};
use codex_switch_daemon::host_path::{HostPath, PathComponent, Platform};
use codex_switch_daemon::service_capture::{
    begin_capture, begin_service_action, capture_service_state_snapshot, service_action,
    ActionReply, ActionStage, ActionStep, CaptureReply, CaptureStage, CaptureStep,
};
use codex_switch_daemon::service_listing::{
    launchd_job_pid, launchd_list_contains_label, service_command_failure_detail,
    systemctl_query, systemd_main_pid, task_listing_contains_name, SystemdQuestion,
};
use codex_switch_daemon::service_owner::{
    decode_task_definition_xml, decode_xml_text, require_service_support, validate_expected_executable,
    validate_install_migration_authority, validate_launchd_definition_owner,
    validate_launchd_definition_value, validate_systemd_definition_owner,
    validate_task_scheduler_definition_owner, validate_uninstall_owner, OwnerLook, ServiceAction,
};
use codex_switch_daemon::service_publication::{
    publish_service_file, remove_service_file_exact, PublicationNames, PublicationReply,
    PublicationStage, PublicationStep, ServiceFileCleanupOutcome, ServiceFilePublication,
    ServiceFileTransactionState,
};
use codex_switch_daemon::service_render::{
    launchd_plist, systemd_exec_quote, systemd_quote, systemd_unit, task_scheduler_command,
    task_scheduler_failure_message, xml_escape, LAUNCHD_LABEL, SYSTEMD_UNIT_NAME,
    WINDOWS_TASK_NAME,
};
use codex_switch_daemon::service_state::{
    capture_launchd_runtime_for_snapshot_with, classify_exact_uninstall_transition,
    classify_observed_service_state, classify_scheduled_daemon_stop_completion,
    definition_snapshot_matches, require_manager_runtime_consistency,
    require_service_absent_state, require_service_manager_stopped_state,
    stop_exact_scheduled_daemon_generation, transaction_error_with_restoration,
    uninstall_locked_exact_with, ExactServiceBoundaryState, ExactServiceUninstallOutcome,
    LaunchdRuntimeSnapshot, ScheduledStopStep, ServiceDefinition, ServiceStateSnapshot,
};
use codex_switch_daemon::service_transaction::{
    commit_publication, commit_publication_step, commit_removal_step, finish_commit,
    rollback_publication, rollback_removal, CommitStage, CommitStep, RemovalCommitStep,
    RemovalEndStage, RemovalNames, RemovalRollbackStep, RollbackStage, RollbackStep,
    ServiceFileRemovalCommit, TransactionReply,
};
use codex_switch_daemon::settlement::{TransientDiagnostics, DAEMON_TRANSITION_TIMEOUT_NANOS};
use codex_switch_daemon::task_proof::parse_task_scheduler_manager_proof_output;

fn unix_path(path: &str) -> HostPath {
    let mut components = Vec::new();
    if path.starts_with('/') {
        components.push(PathComponent::Root);
    }
    for name in path.split('/').filter(|name| !name.is_empty()) {
        components.push(match name {
            ".." => PathComponent::Parent,
            "." => PathComponent::Current,
            plain => PathComponent::Normal(plain.to_string()),
        });
    }
    HostPath {
        unicode: Some(path.to_string()),
        display: path.to_string(),
        absolute: path.starts_with('/'),
        components,
        parent: path.rsplit_once('/').map(|(parent, _)| parent.to_string()),
        file_name: path.rsplit('/').next().map(str::to_string),
    }
}

fn windows_path(path: &str) -> HostPath {
    let mut components = vec![PathComponent::Prefix, PathComponent::Root];
    for name in path.split('\\').skip(1) {
        components.push(PathComponent::Normal(name.to_string()));
    }
    HostPath {
        unicode: Some(path.to_string()),
        display: path.to_string(),
        absolute: true,
        components,
        parent: path.rsplit_once('\\').map(|(parent, _)| parent.to_string()),
        file_name: path.rsplit('\\').next().map(str::to_string),
    }
}

fn token(low: u64, byte: u8) -> FileToken {
    FileToken {
        identity_high: 1,
        identity_low: low,
        digest: [byte; 32],
    }
}

#[test]
fn exact_uninstall_transition_preserves_applied_prior_and_ambiguous_states() {
    let ExactServiceUninstallOutcome::Applied { operation_error } =
        classify_exact_uninstall_transition(
            Err(Fault::of("injected lost uninstall response")),
            true,
            false,
        )
        .unwrap()
    else {
        panic!("exact absence must classify an applied uninstall");
    };
    assert!(operation_error
        .unwrap()
        .headline()
        .contains("lost uninstall response"));

    let ExactServiceUninstallOutcome::PriorExact { operation_error } =
        classify_exact_uninstall_transition(
            Err(Fault::of("injected preserved prior state")),
            false,
            true,
        )
        .unwrap()
    else {
        panic!("the exact prior snapshot must remain distinguishable");
    };
    assert!(operation_error.headline().contains("preserved prior state"));

    assert!(classify_exact_uninstall_transition(Ok(()), false, true).is_err());
    assert!(classify_exact_uninstall_transition(
        Err(Fault::of("injected ambiguous state")),
        false,
        false,
    )
    .is_err());
}

#[test]
fn successful_exact_uninstall_with_failed_post_state_capture_remains_applied() {
    let calls = RefCell::new(Vec::new());
    let outcome = uninstall_locked_exact_with(
        || {
            calls.borrow_mut().push("uninstall");
            Ok(())
        },
        || {
            assert_eq!(calls.borrow().as_slice(), ["uninstall"]);
            calls.borrow_mut().push("capture");
            Err(Fault::of("injected post-state capture failure"))
        },
    )
    .unwrap();
    let mut caller_state = InstallerUninstallState::NotApplied;
    let post_state_error = match outcome {
        ExactServiceUninstallOutcome::AppliedPendingVerification { post_state_error } => {
            caller_state.mark_applied();
            post_state_error
        }
        _ => panic!("a successful destructive uninstall must remain typed as applied"),
    };
    let message = post_state_error.detail();
    assert!(message.contains("returned success"));
    assert!(message.contains("injected post-state capture failure"));
    assert_eq!(
        caller_state,
        InstallerUninstallState::AppliedPendingVerification
    );
    assert_eq!(calls.into_inner(), ["uninstall", "capture"]);

    let failed_operation = uninstall_locked_exact_with(
        || Err(Fault::of("injected uninstall failure")),
        || Err(Fault::of("injected post-state capture failure")),
    )
    .unwrap_err();
    let message = failed_operation.detail();
    assert!(message.contains("injected uninstall failure"));
    assert!(message.contains("injected post-state capture failure"));
}

#[test]
fn service_manager_runtime_state_requires_exact_pid_consistency() {
    assert!(
        require_manager_runtime_consistency("launchd", "loaded", true, "PID", None)
            .unwrap_err()
            .headline()
            .contains("loaded=true")
    );
    assert!(
        require_manager_runtime_consistency("launchd", "loaded", false, "PID", Some(42))
            .unwrap_err()
            .headline()
            .contains("PID=Some(42)")
    );
    require_manager_runtime_consistency("launchd", "loaded", true, "PID", Some(42)).unwrap();
    require_manager_runtime_consistency("launchd", "loaded", false, "PID", None).unwrap();
}

#[test]
fn launchd_snapshot_capture_rejects_loaded_job_without_manager_pid() {
    let loaded_probes = Cell::new(0_u32);
    let pid_probes = Cell::new(0_u32);
    let snapshot_returned = Cell::new(false);
    let result = capture_launchd_runtime_for_snapshot_with(
        || {
            loaded_probes.set(loaded_probes.get() + 1);
            Ok(true)
        },
        |loaded| {
            assert!(loaded);
            pid_probes.set(pid_probes.get() + 1);
            Ok(None)
        },
    )
    .inspect(|_| {
        snapshot_returned.set(true);
    });

    let error = result.expect_err("loaded=true with no PID must not produce a snapshot");
    assert!(error.detail().contains("loaded=true"));
    assert_eq!(loaded_probes.get(), 1);
    assert_eq!(pid_probes.get(), 1);
    assert!(!snapshot_returned.get());
}

#[test]
fn scheduled_rollback_stop_requests_and_finalizes_once_after_exact_settlement() {
    let mut observations = VecDeque::from([
        Ok(true),
        Err(Fault::of("injected first transient generation probe failure")),
        Ok(true),
        Err(Fault::of("injected middle transient generation probe failure")),
        Ok(true),
        Err(Fault::of("injected last transient generation probe failure")),
        Ok(true),
        Ok(false),
    ]);
    let mut elapsed = 0u64;
    let mut wait_count = 0;
    let mut finalization_count = 0;
    let mut diagnostics = TransientDiagnostics::new();
    let result = loop {
        let observation = observations.pop_front().expect("one injected observation");
        match stop_exact_scheduled_daemon_generation(4242, diagnostics, observation) {
            ScheduledStopStep::Finalize(recorded) => {
                finalization_count += 1;
                break classify_scheduled_daemon_stop_completion(Ok(()), Ok(()), recorded);
            }
            ScheduledStopStep::Again(next) => diagnostics = next,
        }
        wait_count += 1;
        elapsed += 50_000_000 + DAEMON_TRANSITION_TIMEOUT_NANOS;
    };

    let error = result.expect_err(
        "transient exact-generation probe failures must be reported after safe finalization",
    );
    let message = error.detail();
    assert!(message.contains("3 transient authority-probe failures"), "{message}");
    assert!(message.contains("injected first transient generation probe failure"));
    assert!(message.contains("injected last transient generation probe failure"));
    assert!(!message.contains("injected middle transient generation probe failure"));
    assert_eq!(finalization_count, 1);
    assert!(elapsed > DAEMON_TRANSITION_TIMEOUT_NANOS * 2);
    assert_eq!(wait_count, 7);
    assert!(observations.is_empty());
}

fn snapshot(contents: &[u8], token: FileToken) -> ServiceStateSnapshot {
    ServiceStateSnapshot {
        definition: Some(ServiceDefinition {
            contents: contents.to_vec(),
            token,
            scheduler_xml: None,
        }),
        loaded: false,
        enabled: true,
        active: false,
        manager_pid: None,
    }
}

#[test]
fn exact_service_snapshot_compares_definition_bytes_and_runtime_not_recreated_file_ids() {
    let first = snapshot(b"exact owned definition", token(1, 9));
    let mut recreated = snapshot(b"exact owned definition", token(2, 9));
    assert!(recreated.matches_exact_state(&first));
    assert!(recreated.matches_snapshot_with_manager(&first, None));
    recreated.active = true;
    assert!(!recreated.matches_exact_state(&first));
    let changed = snapshot(b"other definition", token(1, 9));
    assert!(!changed.matches_snapshot_with_manager(&first, None));
}

#[test]
fn a_boundary_state_is_absent_prior_or_ambiguous() {
    let prior = snapshot(b"unit", token(1, 1));
    let absent = ServiceStateSnapshot {
        definition: None,
        loaded: false,
        enabled: false,
        active: false,
        manager_pid: None,
    };
    assert_eq!(
        classify_observed_service_state(&absent, &prior),
        ExactServiceBoundaryState::Absent
    );
    assert_eq!(
        classify_observed_service_state(&snapshot(b"unit", token(7, 1)), &prior),
        ExactServiceBoundaryState::PriorExact
    );
    assert_eq!(
        classify_observed_service_state(&snapshot(b"changed", token(1, 1)), &prior),
        ExactServiceBoundaryState::Ambiguous
    );
    require_service_absent_state(&absent).unwrap();
    assert!(require_service_absent_state(&prior).is_err());
    require_service_manager_stopped_state(&prior, &prior).unwrap();
}

#[test]
fn service_manager_pid_parsers_require_one_exact_generation() {
    assert_eq!(
        parse_task_scheduler_manager_proof_output(b"none\r\n", None).unwrap(),
        None
    );
    assert_eq!(
        launchd_job_pid(b"{\n    \"PID\" = 4242;\n}\n").unwrap(),
        Some(4242)
    );
    assert_eq!(
        launchd_job_pid(b"{\n    \"LastExitStatus\" = 0;\n}\n").unwrap(),
        None
    );
    assert!(launchd_job_pid(b"PID = 42;\nPID = 43;\n").is_err());
}

#[test]
fn systemd_main_process_is_read_from_one_property() {
    assert_eq!(systemd_main_pid(b"4242\n").unwrap(), Some(4242));
    assert_eq!(systemd_main_pid(b"0\n").unwrap(), None);
    assert!(systemd_main_pid(b"many\n").is_err());
    assert!(systemd_main_pid(&[0xff]).is_err());
}

#[test]
fn systemctl_answers_are_taken_by_their_words() {
    assert_eq!(
        systemctl_query(SystemdQuestion::IsActive, true, "active", "").unwrap(),
        true
    );
    assert_eq!(
        systemctl_query(SystemdQuestion::IsActive, false, "inactive", "").unwrap(),
        false
    );
    assert_eq!(
        systemctl_query(SystemdQuestion::IsEnabled, false, "disabled", "").unwrap(),
        false
    );
    assert!(systemctl_query(SystemdQuestion::IsActive, false, "", "no bus").is_err());
    assert_eq!(
        service_command_failure_detail("no bus", "out", "exit 1"),
        "no bus"
    );
}

fn task_scheduler_proof_fixture(
    start_instance: (&str, u32),
    start_processes: &[(u32, u32, u64)],
    end_processes: &[(u32, u32, u64)],
    end_instance: (&str, u32),
) -> Vec<u8> {
    let mut rows = vec![format!(
        "instance-start\t{}\t{}",
        start_instance.0, start_instance.1
    )];
    rows.extend(
        start_processes
            .iter()
            .map(|(pid, parent_pid, creation_ticks)| {
                format!("process-start\t{pid}\t{parent_pid}\t{creation_ticks}")
            }),
    );
    rows.extend(
        end_processes
            .iter()
            .map(|(pid, parent_pid, creation_ticks)| {
                format!("process-end\t{pid}\t{parent_pid}\t{creation_ticks}")
            }),
    );
    rows.push(format!(
        "instance-end\t{}\t{}",
        end_instance.0, end_instance.1
    ));
    rows.join("\r\n").into_bytes()
}

const INSTANCE: &str = "11111111-2222-3333-4444-555555555555";

#[test]
fn task_scheduler_manager_proof_requires_a_stable_instance_and_process_generations() {
    let generations = [(200, 250, 3_000), (250, 300, 2_000), (300, 4, 1_000)];
    let proof = task_scheduler_proof_fixture(
        (INSTANCE, 300),
        &generations,
        &generations,
        (INSTANCE, 300),
    );
    assert_eq!(
        parse_task_scheduler_manager_proof_output(&proof, Some(200)).unwrap(),
        Some(200)
    );
    assert!(parse_task_scheduler_manager_proof_output(&proof, None).is_err());

    let changed_instance = task_scheduler_proof_fixture(
        (INSTANCE, 300),
        &generations,
        &generations,
        ("aaaaaaaa-bbbb-cccc-dddd-eeeeeeeeeeee", 300),
    );
    assert!(parse_task_scheduler_manager_proof_output(&changed_instance, Some(200)).is_err());
    let changed_engine = task_scheduler_proof_fixture(
        (INSTANCE, 300),
        &generations,
        &generations,
        (INSTANCE, 301),
    );
    assert!(parse_task_scheduler_manager_proof_output(&changed_engine, Some(200)).is_err());

    let reused_engine_pid = task_scheduler_proof_fixture(
        (INSTANCE, 300),
        &generations,
        &[(200, 250, 3_000), (250, 300, 2_000), (300, 4, 9_000)],
        (INSTANCE, 300),
    );
    assert!(parse_task_scheduler_manager_proof_output(&reused_engine_pid, Some(200)).is_err());
    let changed_parent = task_scheduler_proof_fixture(
        (INSTANCE, 300),
        &generations,
        &[(200, 251, 3_000), (250, 300, 2_000), (300, 4, 1_000)],
        (INSTANCE, 300),
    );
    assert!(parse_task_scheduler_manager_proof_output(&changed_parent, Some(200)).is_err());
    let disappeared_process = task_scheduler_proof_fixture(
        (INSTANCE, 300),
        &generations,
        &[(200, 250, 3_000), (250, 300, 2_000)],
        (INSTANCE, 300),
    );
    assert!(parse_task_scheduler_manager_proof_output(&disappeared_process, Some(200)).is_err());
}

#[test]
fn task_scheduler_manager_proof_rejects_cycles_and_newer_parents() {
    let cycle = [(200, 250, 3_000), (250, 200, 2_000), (200, 250, 3_000)];
    let cyclic_proof =
        task_scheduler_proof_fixture((INSTANCE, 300), &cycle, &cycle, (INSTANCE, 300));
    assert!(
        parse_task_scheduler_manager_proof_output(&cyclic_proof, Some(200))
            .unwrap_err()
            .headline()
            .contains("cycle")
    );

    let newer_parent = [(200, 250, 3_000), (250, 300, 4_000), (300, 4, 1_000)];
    let newer_parent_proof = task_scheduler_proof_fixture(
        (INSTANCE, 300),
        &newer_parent,
        &newer_parent,
        (INSTANCE, 300),
    );
    assert!(
        parse_task_scheduler_manager_proof_output(&newer_parent_proof, Some(200))
            .unwrap_err()
            .headline()
            .contains("newer than its child")
    );

    let invalid_instance = task_scheduler_proof_fixture(
        ("not-a-guid", 300),
        &[(300, 4, 1_000)],
        &[(300, 4, 1_000)],
        ("not-a-guid", 300),
    );
    assert!(parse_task_scheduler_manager_proof_output(&invalid_instance, Some(300)).is_err());
}

#[test]
fn service_identifiers_are_project_specific() {
    assert_eq!(WINDOWS_TASK_NAME, r"\codex-switch-global-pace-daemon");
    assert_eq!(LAUNCHD_LABEL, "com.codex-switch-global-pace.daemon");
    assert_eq!(SYSTEMD_UNIT_NAME, "codex-switch-global-pace-daemon");
}

#[test]
fn definition_snapshot_guard_accepts_only_exact_same_presence_and_bytes() {
    assert!(definition_snapshot_matches(Some(b"same"), Some(b"same")));
    assert!(definition_snapshot_matches(None, None));
    assert!(!definition_snapshot_matches(Some(b"old"), Some(b"new")));
    assert!(!definition_snapshot_matches(Some(b"unexpected"), None));
    assert!(!definition_snapshot_matches(None, Some(b"missing")));
}

#[test]
fn transaction_failure_reports_both_the_original_and_restoration_errors() {
    let error = transaction_error_with_restoration(
        Fault::of("original stop-followup failure"),
        Err(Fault::of("exact restoration failure")),
        "prior state restored",
        "prior state restoration incomplete",
    );
    let detail = error.detail();
    assert!(detail.contains("original stop-followup failure"));
    assert!(detail.contains("prior state restoration incomplete"));
    assert!(detail.contains("exact restoration failure"));
}

fn publication_names(previous: Option<FileToken>) -> PublicationNames {
    PublicationNames {
        path: "/etc/daemon.service".to_string(),
        candidate: "/etc/daemon.service.candidate".to_string(),
        backup: "/etc/daemon.service.backup".to_string(),
        previous,
    }
}

#[test]
fn service_definition_publication_rolls_back_and_commits_exact_files() {
    let old = token(1, 1);
    let staged = token(2, 2);
    let candidate = token(3, 2);
    let backup = token(4, 1);
    let names = publication_names(Some(old));
    let mut stage = PublicationStage::Prepare;
    let mut publication = None;
    for reply in [
        PublicationReply::Token(staged),
        PublicationReply::Token(candidate),
        PublicationReply::Token(backup),
        PublicationReply::Done,
        PublicationReply::Moved {
            boundary: None,
            live: Some(candidate),
            other: Some(old),
        },
        PublicationReply::Done,
    ] {
        match publish_service_file(&names, stage, reply) {
            PublicationStep::Await(next) => stage = next,
            PublicationStep::Finished(r) => {
                publication = Some(r.expect("an exchange of the expected files is exact"));
                stage = PublicationStage::Prepare;
                break;
            }
        }
    }
    assert_eq!(stage, PublicationStage::Prepare);
    let publication = publication.expect("the exchange ends the publication");
    assert_eq!(publication.published, candidate);
    assert_eq!(publication.displaced, Some(old));
    assert_eq!(publication.backup, Some(backup));

    assert_eq!(
        commit_publication(&publication),
        CommitStep::Await(CommitStage::BindLive)
    );
    assert_eq!(
        commit_publication_step(
            &names,
            &publication,
            CommitStage::BindLive,
            TransactionReply::Token(candidate)
        ),
        CommitStep::Await(CommitStage::RemoveDisplaced)
    );
    assert_eq!(
        rollback_publication(&publication),
        RollbackStep::Await(RollbackStage::BindLive)
    );
}

#[test]
fn service_definition_commit_never_deletes_a_concurrent_writer() {
    let publication = ServiceFilePublication {
        published: token(3, 2),
        displaced: Some(token(1, 1)),
        backup: Some(token(4, 1)),
        state: ServiceFileTransactionState::Pending,
    };
    let step = commit_publication_step(
        &publication_names(Some(token(1, 1))),
        &publication,
        CommitStage::BindLive,
        TransactionReply::Token(token(9, 9)),
    );
    assert!(
        matches!(step, CommitStep::Finished { result: Err(_), .. }),
        "{step:?}"
    );
}

#[test]
fn applied_service_removal_cleanup_failure_is_not_rolled_back() {
    let outcome = finish_commit(ServiceFileCleanupOutcome::DurabilityUnconfirmed(
        "injected post-unlink sync failure".to_string(),
    ));
    let ServiceFileRemovalCommit::AppliedCleanupUnconfirmed(error) = outcome else {
        panic!("an explicit unconfirmed cleanup must remain classified as applied");
    };
    assert!(error.detail().contains("injected post-unlink sync failure"));
    let names = RemovalNames {
        path: "/etc/daemon.service".to_string(),
        removed: "/etc/daemon.service.removed".to_string(),
        token: token(1, 1),
    };
    let step = commit_removal_step(
        &names,
        RemovalEndStage::Remove,
        TransactionReply::Cleaned(Ok(ServiceFileCleanupOutcome::DurabilityUnconfirmed(
            "injected post-unlink sync failure".to_string(),
        ))),
    );
    let RemovalCommitStep::Finished { state, .. } = step else {
        panic!("a removal ends the commit")
    };
    assert_eq!(state, ServiceFileTransactionState::Finished);
    assert_eq!(
        rollback_removal(state),
        RemovalRollbackStep::Finished {
            state: ServiceFileTransactionState::Finished,
            result: Ok(())
        },
        "an applied removal must not attempt to recreate the definition"
    );
}

#[test]
fn a_removed_file_is_durable_once_its_directory_was_flushed() {
    assert_eq!(
        remove_service_file_exact("/f", "unit", Ok(RemoveExactOutcome::Removed), Ok(())),
        Ok(ServiceFileCleanupOutcome::Durable)
    );
    let unconfirmed = Ok(RemoveExactOutcome::RemovedNamespaceDurabilityUnconfirmed);
    assert_eq!(
        remove_service_file_exact("/f", "unit", unconfirmed, Err(Fault::of("no sync"))),
        Ok(ServiceFileCleanupOutcome::DurabilityUnconfirmed(
            "the exact unit was removed from /f, but retrying parent-directory durability failed: no sync"
                .to_string()
        ))
    );
    assert_eq!(
        remove_service_file_exact("/f", "unit", Err(Fault::of("busy")), Ok(()))
            .unwrap_err()
            .detail(),
        "removing unit at /f: busy"
    );
}

#[test]
fn task_scheduler_listing_uses_one_exact_task_name_field() {
    let listing = b"\"\\other\",\"N/A\",\"Ready\"\r\n\
\"\\CODEX-SWITCH-GLOBAL-PACE-DAEMON\",\"N/A\",\"Ready\"\r\n";
    assert!(task_listing_contains_name(listing, WINDOWS_TASK_NAME).unwrap());
    assert!(!task_listing_contains_name(
        b"\"\\codex-switch-global-pace-daemon-other\",\"N/A\",\"Ready\"\r\n",
        WINDOWS_TASK_NAME
    )
    .unwrap());
    assert!(task_listing_contains_name(b"localized error\r\n", WINDOWS_TASK_NAME).is_err());
    let duplicate = format!(
        "\"{WINDOWS_TASK_NAME}\",\"N/A\",\"Ready\"\r\n\"{WINDOWS_TASK_NAME}\",\"N/A\",\"Ready\"\r\n"
    );
    assert!(task_listing_contains_name(duplicate.as_bytes(), WINDOWS_TASK_NAME).is_err());
}

#[test]
fn expected_service_executable_must_be_absolute_and_lexically_normal() {
    validate_expected_executable(&unix_path("/usr/local/bin/codex-switch")).unwrap();
    assert!(validate_expected_executable(&unix_path("relative/binary")).is_err());
    assert!(validate_expected_executable(&unix_path("/usr/local/bin/../codex-switch")).is_err());
}

#[test]
fn service_migration_authority_is_explicit_and_platform_scoped() {
    let absolute = unix_path("/usr/local/bin/codex-switch");
    assert!(
        validate_install_migration_authority(Platform::Windows, Some(&absolute))
            .unwrap_err()
            .headline()
            .contains("not supported on Windows")
    );
    validate_install_migration_authority(Platform::Linux, Some(&absolute)).unwrap();
    validate_install_migration_authority(Platform::Linux, None).unwrap();
    assert!(validate_install_migration_authority(
        Platform::Linux,
        Some(&unix_path("relative/service"))
    )
    .is_err());
}

#[test]
fn launchd_plist_runs_foreground_daemon() {
    let plist = launchd_plist(
        "/usr/local/bin/codex-switch-global-pace",
        "/Users/alice",
        "/Users/alice/.codex",
        "/Volumes/private/codex-switch",
    );
    assert!(plist.contains("<string>/usr/local/bin/codex-switch-global-pace</string>"));
    assert!(plist.contains("<string>daemon</string>"));
    assert!(plist.contains("<string>start</string>"));
    assert!(plist.contains("<string>--foreground</string>"));
    assert!(plist.contains("<key>KeepAlive</key>"));
    assert!(plist.contains("<key>CODEX_HOME</key>"));
    assert!(plist.contains("<string>/Users/alice/.codex</string>"));
    assert!(plist.contains("<key>CODEX_SWITCH_HOME</key>"));
    assert!(plist.contains("<string>/Volumes/private/codex-switch</string>"));
}

#[test]
fn launchd_plist_escapes_paths() {
    let plist = launchd_plist(
        "/Applications/A & B/codex-switch-global-pace",
        "/Users/a<b",
        "/Users/a&b/.codex",
        "/Users/a&b/private",
    );
    assert!(plist.contains("/Applications/A &amp; B/codex-switch-global-pace"));
    assert!(plist.contains("/Users/a&lt;b"));
    assert!(plist.contains("/Users/a&amp;b/.codex"));
    assert!(plist.contains("/Users/a&amp;b/private"));
}

#[test]
fn escaped_xml_text_is_decoded_to_itself() {
    for text in ["", "plain", "a & b < c > d \" e ' f", "&amp;", "ä & 漢"] {
        let escaped: Vec<char> = xml_escape(text).chars().collect();
        let decoded: String = decode_xml_text(&escaped).unwrap().into_iter().collect();
        assert_eq!(decoded, text);
    }
    let numbered: Vec<char> = "&#65;&#x42;".chars().collect();
    assert_eq!(decode_xml_text(&numbered).unwrap(), vec!['A', 'B']);
    for wrong in ["&nope;", "&#xD800;", "&amp"] {
        let chars: Vec<char> = wrong.chars().collect();
        assert!(decode_xml_text(&chars).is_err(), "{wrong}");
    }
}

#[test]
fn launchd_loaded_state_uses_an_exact_label_from_a_successful_listing() {
    let listing = format!("PID\tStatus\tLabel\n-\t0\tother.agent\n4242\t0\t{LAUNCHD_LABEL}\n");
    assert!(launchd_list_contains_label(listing.as_bytes()).unwrap());
    assert!(!launchd_list_contains_label(
        format!("PID\tStatus\tLabel\n-\t0\t{LAUNCHD_LABEL}.other\n").as_bytes()
    )
    .unwrap());
    assert!(launchd_list_contains_label(&[0xff]).is_err());
}

#[test]
fn launchd_ownership_requires_the_exact_executable_and_daemon_arguments() {
    let path = "/usr/local/bin/codex-switch-global-pace";
    let expected = unix_path(path);
    let definition = format!(
        r#"{{"Label":"{LAUNCHD_LABEL}","ProgramArguments":["{path}","daemon","start","--foreground"]}}"#
    );
    validate_launchd_definition_owner(definition.as_bytes(), &expected).unwrap();
    assert!(validate_launchd_definition_owner(
        definition.as_bytes(),
        &unix_path("/tmp/codex-switch-global-pace")
    )
    .is_err());
    let wrong_arguments = definition.replace("\"daemon\"", "\"other\"");
    assert!(validate_launchd_definition_owner(wrong_arguments.as_bytes(), &expected).is_err());
    let error = validate_launchd_definition_owner(b"not JSON", &expected).unwrap_err();
    assert_eq!(error.headline(), "parsing plutil LaunchAgent JSON output");
    let arguments: Vec<Option<String>> = [path, "daemon", "start", "--foreground"]
        .iter()
        .map(|word| Some(word.to_string()))
        .collect();
    validate_launchd_definition_value(Some(LAUNCHD_LABEL), Some(&arguments), &expected).unwrap();
    assert!(validate_launchd_definition_value(None, Some(&arguments), &expected).is_err());
    assert!(validate_launchd_definition_value(Some(LAUNCHD_LABEL), None, &expected).is_err());
}

#[test]
fn systemd_unit_runs_foreground_daemon() {
    let unit = systemd_unit(
        "/usr/local/bin/codex-switch-global-pace",
        "/home/alice",
        "/home/alice/.codex",
        "/mnt/private/codex-switch",
    );
    assert!(unit.contains(
        "ExecStart=\"/usr/local/bin/codex-switch-global-pace\" daemon start --foreground"
    ));
    assert!(unit.contains("Restart=on-failure"));
    assert!(unit.contains("Environment=\"HOME=/home/alice\""));
    assert!(unit.contains("Environment=\"CODEX_HOME=/home/alice/.codex\""));
    assert!(unit.contains("Environment=\"CODEX_SWITCH_HOME=/mnt/private/codex-switch\""));
}

#[test]
fn systemd_unit_quotes_special_paths() {
    let unit = systemd_unit(
        r#"/opt/$release/Codex & Tools\\codex-switch-global-pace"#,
        "/home/$USER/a & b",
        r#"/home/$USER/a & b/.codex\\custom"#,
        r#"/home/$USER/a & b/private\\custom"#,
    );
    assert!(unit.contains(
        r#"ExecStart="/opt/$$release/Codex & Tools\\\\codex-switch-global-pace" daemon start --foreground"#
    ));
    assert!(unit.contains(r#"Environment="HOME=/home/$USER/a & b""#));
    assert!(unit.contains(r#"Environment="CODEX_HOME=/home/$USER/a & b/.codex\\\\custom""#));
    assert!(
        unit.contains(r#"Environment="CODEX_SWITCH_HOME=/home/$USER/a & b/private\\\\custom""#)
    );
    assert!(!unit.contains(r#"Environment="HOME=/home/$$USER"#));
}

#[test]
fn systemd_ownership_requires_the_exact_exec_start() {
    let path = "/usr/local/bin/codex-switch-global-pace";
    let expected = unix_path(path);
    let unit = systemd_unit(
        path,
        "/home/alice",
        "/home/alice/.codex",
        "/home/alice/.codex-switch",
    );
    validate_systemd_definition_owner(unit.as_bytes(), &expected).unwrap();
    assert!(validate_systemd_definition_owner(
        unit.as_bytes(),
        &unix_path("/tmp/codex-switch-global-pace")
    )
    .is_err());
    let duplicated = format!("{unit}ExecStart=/tmp/other daemon start --foreground\n");
    assert!(validate_systemd_definition_owner(duplicated.as_bytes(), &expected).is_err());
}

#[test]
fn systemd_ownership_matches_a_literal_dollar_in_the_executable_path() {
    let path = "/opt/$release/codex-switch-global-pace";
    let expected = unix_path(path);
    let unit = systemd_unit(
        path,
        "/home/alice",
        "/home/alice/.codex",
        "/home/alice/.codex-switch",
    );

    validate_systemd_definition_owner(unit.as_bytes(), &expected).unwrap();
    let expanding = unit.replace("/opt/$$release/", "/opt/$release/");
    assert!(validate_systemd_definition_owner(expanding.as_bytes(), &expected).is_err());
}

#[test]
fn systemd_unit_values_use_c_style_control_escapes() {
    let value = "line\ncarriage\rreturn\ttab\u{7}\u{8}\u{b}\u{c}\u{1}\u{85}$value";

    assert_eq!(
        systemd_quote(value),
        r#""line\ncarriage\rreturn\ttab\a\b\v\f\x01\xc2\x85$value""#
    );
    assert_eq!(
        systemd_exec_quote(value),
        r#""line\ncarriage\rreturn\ttab\a\b\v\f\x01\xc2\x85$$value""#
    );
}

#[test]
fn windows_task_scheduler_command_quotes_supported_paths() {
    let command = task_scheduler_command(
        &windows_path(r"C:\Program Files\codex-switch-global-pace.exe"),
        &windows_path(r"C:\Users\A & B\.codex"),
        &windows_path(r"D:\Private & Pace\state"),
    )
    .unwrap();

    assert_eq!(
        command,
        r#"cmd.exe /D /V:OFF /S /C set CODEX_HOME=C:\Users\A ^& B\.codex&& set CODEX_SWITCH_HOME=D:\Private ^& Pace\state&& "C:\Program Files\codex-switch-global-pace.exe" daemon start --foreground"#
    );
}

#[test]
fn windows_task_scheduler_rejects_expanding_or_overlong_paths() {
    let percent_error = task_scheduler_command(
        &windows_path(r"C:\bin\codex-switch-global-pace.exe"),
        &windows_path(r"C:\Users\A\%TEMP%\.codex"),
        &windows_path(r"C:\Users\A\.codex-switch"),
    )
    .unwrap_err();
    assert!(percent_error.headline().contains("contains '%'"));

    let long_home = format!(r"C:\{}", "x".repeat(300));
    let length_error = task_scheduler_command(
        &windows_path(r"C:\bin\codex-switch-global-pace.exe"),
        &windows_path(r"C:\Users\A\.codex"),
        &windows_path(&long_home),
    )
    .unwrap_err();
    assert!(length_error.headline().contains("262-character limit"));
}

#[test]
fn scheduled_task_ownership_requires_the_exact_embedded_executable() {
    let path = r"C:\Program Files\codex-switch-global-pace.exe";
    let expected = windows_path(path);
    let task_run = task_scheduler_command(
        &expected,
        &windows_path(r"C:\Users\Alice & Bob\.codex"),
        &windows_path(r"C:\Users\Alice & Bob\.codex-switch"),
    )
    .unwrap();
    let arguments = task_run.strip_prefix("cmd.exe ").unwrap();
    let escaped_arguments = arguments
        .replace('&', "&amp;")
        .replace('<', "&lt;")
        .replace('>', "&gt;")
        .replace('"', "&quot;");
    let xml = format!(
        "<?xml version=\"1.0\"?><Task><Actions><Exec><Command>cmd.exe</Command><Arguments>{escaped_arguments}</Arguments></Exec></Actions></Task>"
    );
    validate_task_scheduler_definition_owner(xml.as_bytes(), &expected).unwrap();

    let mut utf16 = vec![0xff, 0xfe];
    utf16.extend(xml.encode_utf16().flat_map(u16::to_le_bytes));
    validate_task_scheduler_definition_owner(&utf16, &expected).unwrap();
    assert!(validate_task_scheduler_definition_owner(
        xml.as_bytes(),
        &windows_path(r"C:\Other\codex-switch-global-pace.exe")
    )
    .is_err());

    let injected_arguments = format!(
        r#"/D /V:OFF /S /C set CODEX_HOME=C:\Users\Alice&& calc.exe&& set CODEX_SWITCH_HOME=C:\state&& \"{}\" daemon start --foreground"#,
        path
    )
    .replace('&', "&amp;")
    .replace('"', "&quot;");
    let injected_xml = format!(
        "<?xml version=\"1.0\"?><Task><Actions><Exec><Command>cmd.exe</Command><Arguments>{injected_arguments}</Arguments></Exec></Actions></Task>"
    );
    assert!(
        validate_task_scheduler_definition_owner(injected_xml.as_bytes(), &expected).is_err(),
        "ownership parsing must reject commands inserted between the exact environment assignments"
    );
}

#[test]
fn windows_task_scheduler_create_error_includes_elevation_guidance() {
    assert_eq!(
        task_scheduler_failure_message("create scheduled task", "ERROR: Access is denied."),
        "failed to create scheduled task: ERROR: Access is denied. Re-run `codex-switch-global-pace daemon install` from an elevated PowerShell session."
    );
}

#[test]
fn only_the_owner_of_a_definition_may_remove_it() {
    let path = "/usr/local/bin/codex-switch-global-pace";
    let owner = unix_path(path);
    let stranger = unix_path("/tmp/codex-switch-global-pace");
    let unit = || OwnerLook::Unit(systemd_unit(path, "/h", "/h/.codex", "/h/.s").into_bytes());
    validate_uninstall_owner(&owner, unit()).unwrap();
    assert!(validate_uninstall_owner(&stranger, unit()).is_err());
    validate_uninstall_owner(&stranger, OwnerLook::Absent(Ok(()))).unwrap();
    assert_eq!(
        validate_uninstall_owner(&owner, OwnerLook::Absent(Err(Fault::of("still loaded")))),
        Err(Fault::of("still loaded"))
    );
    assert_eq!(
        validate_uninstall_owner(&owner, OwnerLook::Unreadable(Fault::of("denied"))),
        Err(Fault::of("denied"))
    );
}

#[test]
fn services_need_a_supported_manager() {
    for action in [
        ServiceAction::Install,
        ServiceAction::Uninstall,
        ServiceAction::Start,
        ServiceAction::Stop,
        ServiceAction::Snapshot,
    ] {
        require_service_support(Platform::Linux, action).unwrap();
        assert!(require_service_support(Platform::OtherUnix, action).is_err());
    }
    assert_eq!(
        require_service_support(Platform::Other, ServiceAction::Install),
        Err(Fault::of("Service install is not supported on this platform"))
    );
}

/// Captures the state: the operations that were asked for, and the outcome.
fn capture(
    platform: Platform,
    expected: &HostPath,
    contents: Option<Vec<u8>>,
    active: bool,
    pid: Option<u32>,
) -> (Vec<&'static str>, Result<ServiceStateSnapshot, Fault>) {
    let mut asked = Vec::new();
    let mut step = begin_capture(platform, expected);
    loop {
        let stage = match step {
            CaptureStep::Await(stage) => stage,
            CaptureStep::Finished(outcome) => return (asked, outcome),
        };
        let (word, reply) = match &stage {
            CaptureStage::ReadDefinition => (
                "definition",
                CaptureReply::Definition(Ok(contents.clone().map(|contents| ServiceDefinition {
                    token: token(1, 1),
                    scheduler_xml: None,
                    contents,
                }))),
            ),
            CaptureStage::Convert { definition } => (
                "convert",
                CaptureReply::Document(Ok(definition.contents.clone())),
            ),
            CaptureStage::LookRuntime { .. } => (
                "runtime",
                CaptureReply::Runtime(Ok(LaunchdRuntimeSnapshot {
                    loaded: active,
                    manager_pid: pid,
                })),
            ),
            CaptureStage::AskActive { .. } => ("active", CaptureReply::Answer(Ok(active))),
            CaptureStage::AskEnabled { .. } => ("enabled", CaptureReply::Answer(Ok(true))),
            CaptureStage::AskMainPid { .. } => ("pid", CaptureReply::Pid(Ok(pid))),
            CaptureStage::LookTaskManager { .. } => ("task", CaptureReply::Pid(Ok(pid))),
        };
        asked.push(word);
        step = capture_service_state_snapshot(platform, expected, stage, reply);
    }
}

#[test]
fn the_manager_is_asked_only_after_the_owner_was_checked() {
    let path = "/usr/local/bin/codex-switch-global-pace";
    let unit = systemd_unit(path, "/h", "/h/.codex", "/h/.s").into_bytes();
    let (asked, state) = capture(
        Platform::Linux,
        &unix_path(path),
        Some(unit.clone()),
        true,
        Some(9),
    );
    assert_eq!(asked, ["definition", "active", "enabled", "pid"]);
    let state = state.unwrap();
    assert_eq!(state.manager_pid(), Some(9));
    assert!(state.is_installed() && state.active && state.enabled && !state.loaded);
    let (asked, foreign) = capture(
        Platform::Linux,
        &unix_path("/tmp/codex-switch-global-pace"),
        Some(unit.clone()),
        true,
        Some(9),
    );
    assert_eq!(asked, ["definition"]);
    assert!(foreign.is_err());
    let (_, inconsistent) = capture(Platform::Linux, &unix_path(path), Some(unit), true, None);
    assert!(inconsistent.is_err());
    let agent = format!(
        r#"{{"Label":"{LAUNCHD_LABEL}","ProgramArguments":["{path}","daemon","start","--foreground"]}}"#
    );
    let (asked, _) = capture(
        Platform::MacOs,
        &unix_path("/tmp/codex-switch-global-pace"),
        Some(agent.clone().into_bytes()),
        true,
        Some(9),
    );
    assert_eq!(asked, ["definition", "convert"]);
    let (asked, state) = capture(
        Platform::MacOs,
        &unix_path(path),
        Some(agent.into_bytes()),
        true,
        Some(9),
    );
    assert_eq!(asked, ["definition", "convert", "runtime"]);
    assert!(state.unwrap().loaded);
    let (_, undefined) = capture(Platform::MacOs, &unix_path(path), None, true, Some(9));
    assert!(undefined.is_err());
    let (asked, unsupported) = capture(Platform::Other, &unix_path(path), None, false, None);
    assert!(asked.is_empty() && unsupported.is_err());
}

#[test]
fn a_service_is_touched_only_by_its_owner() {
    let path = "/usr/local/bin/codex-switch-global-pace";
    let owner = unix_path(path);
    let stranger = unix_path("/tmp/codex-switch-global-pace");
    let unit = || OwnerLook::Unit(systemd_unit(path, "/h", "/h/.codex", "/h/.s").into_bytes());
    for action in [
        ServiceAction::Start,
        ServiceAction::Stop,
        ServiceAction::Uninstall,
    ] {
        assert_eq!(
            begin_service_action(Platform::Linux, action, &owner, None),
            ActionStep::Await(ActionStage::LookOwner)
        );
        assert_eq!(
            service_action(
                Platform::Linux,
                action,
                &owner,
                ActionStage::LookOwner,
                ActionReply::Look(unit())
            ),
            ActionStep::Await(ActionStage::Act)
        );
        assert!(matches!(
            service_action(
                Platform::Linux,
                action,
                &stranger,
                ActionStage::LookOwner,
                ActionReply::Look(unit())
            ),
            ActionStep::Finished(Err(_))
        ));
        assert!(matches!(
            service_action(
                Platform::Other,
                action,
                &owner,
                ActionStage::LookOwner,
                ActionReply::Look(OwnerLook::Absent(Ok(())))
            ),
            ActionStep::Finished(Err(_))
        ));
    }
    assert_eq!(
        begin_service_action(Platform::Linux, ServiceAction::Install, &owner, None),
        ActionStep::Await(ActionStage::Act)
    );
    assert!(matches!(
        begin_service_action(
            Platform::Linux,
            ServiceAction::Install,
            &unix_path("relative"),
            None
        ),
        ActionStep::Finished(Err(_))
    ));
    assert_eq!(
        service_action(
            Platform::Linux,
            ServiceAction::Install,
            &owner,
            ActionStage::Act,
            ActionReply::Done(Err(Fault::of("no bus")))
        ),
        ActionStep::Finished(Err(Fault::of("no bus")))
    );
}

#[test]
fn a_unit_belongs_to_one_executable_however_its_path_is_written() {
    let paths = [
        "/opt/a b/daemon",
        "/opt/$a/daemon",
        "/opt/$$a/daemon",
        "/opt/100%/daemon",
        "/opt/100%%/daemon",
        "/opt/\"q\"/daemon",
        "/opt/\\q/daemon",
    ];
    for path in paths {
        let unit = systemd_unit(path, "/h", "/h/.codex", "/h/.s");
        for other in paths {
            assert_eq!(
                validate_systemd_definition_owner(unit.as_bytes(), &unix_path(other)).is_ok(),
                path == other,
                "{path} {other}"
            );
        }
    }
}

#[test]
fn a_task_belongs_to_one_executable_in_every_encoding() {
    let path = r"C:\Program Files\codex-switch-global-pace.exe";
    let command = task_scheduler_command(
        &windows_path(path),
        &windows_path(r"C:\Users\A & B\.codex"),
        &windows_path(r"C:\Users\A & B\.codex-switch"),
    )
    .unwrap();
    let xml = format!(
        "<?xml version=\"1.0\"?><Task><Actions><Exec><Command>cmd.exe</Command><Arguments>{}</Arguments></Exec></Actions></Task>",
        xml_escape(command.strip_prefix("cmd.exe ").unwrap())
    );
    let mut marked = vec![0xef, 0xbb, 0xbf];
    marked.extend(xml.as_bytes());
    let mut little = vec![0xff, 0xfe];
    little.extend(xml.encode_utf16().flat_map(u16::to_le_bytes));
    let mut big = vec![0xfe, 0xff];
    big.extend(xml.encode_utf16().flat_map(u16::to_be_bytes));
    for document in [xml.into_bytes(), marked, little, big] {
        validate_task_scheduler_definition_owner(&document, &windows_path(path)).unwrap();
        assert!(validate_task_scheduler_definition_owner(
            &document,
            &windows_path(r"C:\Program Files\codex-switch-global-pac.exe")
        )
        .is_err());
    }
}

#[test]
fn unreadable_reports_keep_the_cause() {
    let broken = "invalid utf-8 sequence of 1 bytes from index 0";
    let digit = "invalid digit found in string";
    assert_eq!(
        launchd_list_contains_label(b"\xff").unwrap_err().messages,
        ["launchctl list output is not UTF-8", broken]
    );
    assert_eq!(
        launchd_job_pid(b"\xff").unwrap_err().messages,
        ["launchctl job output is not UTF-8", broken]
    );
    assert_eq!(
        launchd_job_pid(b"\"PID\" = x1;").unwrap_err().messages,
        ["launchctl reported invalid job PID 'x1'", digit]
    );
    assert_eq!(
        systemd_main_pid(b"\xff").unwrap_err().messages,
        ["systemctl MainPID output is not UTF-8", broken]
    );
    assert_eq!(
        systemd_main_pid(b"-4\n").unwrap_err().messages,
        ["systemctl reported invalid MainPID '-4'", digit]
    );
    assert_eq!(
        parse_task_scheduler_manager_proof_output(b"\xff", Some(1))
            .unwrap_err()
            .messages,
        ["Task Scheduler ownership proof output is not UTF-8", broken]
    );
    let rows = "instance-start\t01234567-89ab-cdef-0123-456789abcdef\t4294967296\na\nb\nc\n";
    assert_eq!(
        parse_task_scheduler_manager_proof_output(rows.as_bytes(), Some(1))
            .unwrap_err()
            .messages,
        [
            "Task Scheduler reported an invalid engine PID '4294967296'",
            "number too large to fit in target type",
        ]
    );
}

#[test]
fn undecodable_definitions_keep_the_cause() {
    let decoded = |text: &str| decode_xml_text(&text.chars().collect::<Vec<_>>());
    assert_eq!(
        decoded("&#xfg;").unwrap_err().messages,
        [
            "invalid hexadecimal XML entity",
            "invalid digit found in string"
        ]
    );
    assert_eq!(
        decoded("&#;").unwrap_err().messages,
        [
            "invalid decimal XML entity",
            "cannot parse integer from empty string",
        ]
    );
    assert_eq!(
        decode_task_definition_xml(&[0xff, 0xfe, 0x00, 0xd8])
            .unwrap_err()
            .messages,
        [
            "scheduled-task XML contains invalid UTF-16",
            "invalid utf-16: lone surrogate found",
        ]
    );
    assert_eq!(
        decode_task_definition_xml(&[0x61, 0xff]).unwrap_err().messages,
        [
            "scheduled-task XML is neither valid UTF-8 nor BOM-marked UTF-16",
            "invalid utf-8 sequence of 1 bytes from index 1",
        ]
    );
}
