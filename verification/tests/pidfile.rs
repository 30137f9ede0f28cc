use codex_switch_daemon::fault::Fault;
use codex_switch_daemon::host_path::{HostPath, PathComponent, Platform};
use codex_switch_daemon::pidfile::{
    acquire_pidfile_lock_at, acquire_service_operation_lease_at,
    classify_contending_daemon_identity, daemon_generation, legacy_pidfile_lock_is_held_checked,
    new_pid_identity, parse_pid_identity, pidfile_lock_path_for, pidfile_path,
    read_pid_from_raw, running_pid_identity_checked_at, shutdown_request_matches,
    shutdown_request_path, shutdown_requested_at, IdentityText, LegacyLock, LockAttempt,
    ParentSight, PidIdentity, RunningReply, RunningStage, RunningStep, ShutdownRequest,
};
use codex_switch_daemon::settlement::{ContendingDaemonIdentity, DaemonGeneration};

fn executable() -> HostPath {
    HostPath {
        unicode: Some("/tmp/codex-switch".to_string()),
        display: "/tmp/codex-switch".to_string(),
        absolute: true,
        components: vec![
            PathComponent::Root,
            PathComponent::Normal("tmp".to_string()),
            PathComponent::Normal("codex-switch".to_string()),
        ],
        parent: Some("/tmp".to_string()),
        file_name: Some("codex-switch".to_string()),
    }
}

fn identity(version: u8, generation: &str) -> PidIdentity {
    PidIdentity {
        version,
        pid: 4242,
        executable: executable(),
        generation: generation.to_string(),
    }
}

fn request(generation: &str) -> ShutdownRequest {
    ShutdownRequest {
        version: 1,
        pid: 4242,
        generation: generation.to_string(),
    }
}

fn found(raw: &str, document: Option<PidIdentity>) -> RunningReply {
    RunningReply::Text(IdentityText::Found {
        raw: raw.to_string(),
        document,
    })
}

fn run(mut replies: Vec<RunningReply>) -> Result<Option<PidIdentity>, Fault> {
    let mut stage = RunningStage::Read;
    replies.reverse();
    loop {
        let reply = replies.pop().expect("one reply for each operation");
        match running_pid_identity_checked_at("/state/daemon.pid", stage, reply) {
            RunningStep::Await(next) => stage = next,
            RunningStep::Finished(r) => {
                assert!(replies.is_empty());
                return r;
            }
        }
    }
}

#[test]
fn legacy_pidfile_is_not_trusted() {
    assert!(parse_pid_identity(None).is_none());
    assert_eq!(read_pid_from_raw("4242", None), Some(4242));
}

#[test]
fn version_one_pid_identity_remains_trusted_during_upgrade() {
    let identity =
        parse_pid_identity(Some(identity(1, ""))).expect("v1 daemon pidfile remains readable");
    assert_eq!(identity.pid, 4242);
    assert!(identity.generation.is_empty());
}

#[test]
fn an_identity_of_a_later_version_is_not_trusted() {
    assert!(parse_pid_identity(Some(identity(3, "x"))).is_none());
    assert!(parse_pid_identity(Some(identity(2, ""))).is_none());
}

#[test]
fn shutdown_request_must_match_pid_and_generation() {
    let identity = identity(2, "old-generation");
    assert!(shutdown_request_matches(&identity, &request("old-generation")));
    assert!(!shutdown_request_matches(&identity, &request("new-generation")));
}

#[test]
fn shutdown_monitor_uses_its_published_generation_without_a_pidfile_reread() {
    let target = DaemonGeneration {
        pid: 4242,
        generation: "published-generation".to_string(),
    };
    assert!(shutdown_requested_at(
        Some(&request("published-generation")),
        &target
    ));
    assert!(!shutdown_requested_at(
        Some(&request("stale-generation")),
        &target
    ));
    assert!(!shutdown_requested_at(None, &target));
}

#[test]
fn checked_running_pid_treats_a_missing_state_directory_as_stopped_without_creating_it() {
    let r = run(vec![
        RunningReply::Text(IdentityText::Missing("not found".to_string())),
        RunningReply::Parent(ParentSight::Missing),
    ]);
    assert_eq!(r, Ok(None));
}

#[test]
fn checked_running_pid_uses_the_lock_without_a_process_list_probe() {
    let held = run(vec![
        found("{}", Some(identity(2, "g"))),
        RunningReply::Lock(LockAttempt::Held),
        found("{}", Some(identity(2, "g"))),
    ]);
    assert_eq!(held, Ok(Some(identity(2, "g"))));
}

#[test]
fn checked_running_pid_never_folds_a_malformed_locked_file_into_stopped() {
    let error = run(vec![
        found("{not-valid-json", None),
        RunningReply::Lock(LockAttempt::Held),
        found("{not-valid-json", None),
    ])
    .expect_err("a malformed PID identity must fail closed");
    assert!(error.headline().contains("malformed"), "{}", error.detail());
}

#[test]
fn contender_exit_before_pid_publication_becomes_exact_absence() {
    let error = acquire_pidfile_lock_at("/state/daemon.pid", LockAttempt::Held)
        .expect_err("a contender holds the lock");
    assert!(error.headline().contains("another daemon is running"));
    acquire_pidfile_lock_at("/state/daemon.pid", LockAttempt::Taken).unwrap();
}

#[test]
fn same_pid_with_a_different_generation_is_a_published_contender() {
    let expected = DaemonGeneration {
        pid: 4242,
        generation: "stopped-generation".to_string(),
    };
    match classify_contending_daemon_identity(
        Some(identity(2, "successor-generation")),
        Some(&expected),
    ) {
        ContendingDaemonIdentity::Published(observed) => {
            assert_eq!(observed.pid, expected.pid);
            assert_eq!(observed.generation, "successor-generation");
        }
        ContendingDaemonIdentity::Pending => {
            panic!("PID reuse with a different generation must not remain pending")
        }
    }
    assert_eq!(
        classify_contending_daemon_identity(
            Some(identity(2, "stopped-generation")),
            Some(&expected)
        ),
        ContendingDaemonIdentity::Pending
    );
}

#[test]
fn unix_service_operation_lease_rejects_a_concurrent_lifecycle_entry() {
    let error = acquire_service_operation_lease_at("/state/lock", LockAttempt::Held)
        .expect_err("a concurrent daemon start must not enter the held lifecycle lease");
    assert!(
        error.headline().contains("already in progress"),
        "{}",
        error.detail()
    );
    acquire_service_operation_lease_at("/state/lock", LockAttempt::Taken).unwrap();
}

#[test]
fn a_lock_on_the_identity_itself_is_a_live_daemon() {
    assert_eq!(
        legacy_pidfile_lock_is_held_checked("/p", LegacyLock::Attempt(LockAttempt::Held)),
        Ok(true)
    );
    assert_eq!(
        legacy_pidfile_lock_is_held_checked("/p", LegacyLock::Attempt(LockAttempt::Taken)),
        Ok(false)
    );
    assert_eq!(
        legacy_pidfile_lock_is_held_checked("/p", LegacyLock::Missing),
        Ok(false)
    );
    assert!(legacy_pidfile_lock_is_held_checked(
        "/p",
        LegacyLock::Attempt(LockAttempt::Failed("io".to_string()))
    )
    .is_err());
}

#[test]
fn the_daemon_keeps_its_files_below_the_home() {
    assert_eq!(pidfile_path(Platform::Linux, "/home/a"), "/home/a/daemon.pid");
    assert_eq!(
        pidfile_lock_path_for("/home/a/daemon.pid"),
        "/home/a/daemon.pid.lock"
    );
    assert_eq!(
        shutdown_request_path(Platform::Windows, r"C:\state"),
        r"C:\state\daemon.shutdown"
    );
}

#[test]
fn every_run_has_a_generation_of_its_own() {
    let first = daemon_generation();
    let second = daemon_generation();
    assert_eq!(first.len(), 32);
    assert!(first.chars().all(|c| c.is_ascii_hexdigit()));
    assert_ne!(first, second);
    let fresh = new_pid_identity(7, executable());
    assert_eq!(fresh.pid, 7);
    assert!(parse_pid_identity(Some(fresh)).is_some());
}
