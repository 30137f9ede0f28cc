use codex_switch_daemon::fault::Fault;
use codex_switch_daemon::fs_ops::{token_for_file, FileSnapshot, FileToken, RemoveExactOutcome};
use codex_switch_daemon::host_path::{HostPath, PathComponent, Platform};
use codex_switch_daemon::monitor::{
    batch_failure, collect_workers, refresh_profile, refresh_summary, CacheRefreshSummary, ProfileRefresh,
    RefreshReply, RefreshStage, RefreshStep, WorkerFailure, WorkerOutcome,
};
use codex_switch_daemon::pid_transaction::{
    cleanup_failed_pid_publication, cleanup_pidfile,
    cleanup_stale_shutdown_request_before_publication, foreground_end, publish_pid_identity_at,
    request_durability, request_shutdown, stale_request_removed,
    try_acquire_daemon_absence_lease_at, verify_daemon_absence, AbsenceReply, AbsenceStage,
    AbsenceTakingStep, CleanupReply, CleanupStage, CleanupStep, CreateAttempt,
    DaemonAbsenceAcquire, PidGuard, PublishReply, PublishStage, PublishStep, ShownGeneration,
    StaleRequest,
};
use codex_switch_daemon::pidfile::{LockAttempt, PidIdentity, ShutdownRequest};
use codex_switch_daemon::settlement::DaemonGeneration;
use codex_switch_daemon::state::{state_path, DaemonState};

fn host(path: &str) -> HostPath {
    HostPath {
        unicode: Some(path.to_string()),
        display: path.to_string(),
        absolute: true,
        components: vec![PathComponent::Root],
        parent: None,
        file_name: None,
    }
}

fn token_of(bytes: &[u8]) -> FileToken {
    let sight = FileSnapshot {
        identity_high: 1,
        identity_low: 2,
        length: bytes.len() as u64,
        changed_high: 3,
        changed_low: 4,
    };
    token_for_file(sight, bytes, sight).unwrap()
}

fn identity(pid: u32, generation: &str) -> PidIdentity {
    PidIdentity {
        version: 2,
        pid,
        executable: host("/opt/exe"),
        generation: generation.to_string(),
    }
}

fn generation(pid: u32, generation: &str) -> DaemonGeneration {
    DaemonGeneration {
        pid,
        generation: generation.to_string(),
    }
}

fn run_cleanup(replies: Vec<CleanupReply>) -> Result<(), Fault> {
    let mut stage = CleanupStage::Lock;
    for reply in replies {
        match cleanup_pidfile("/r/d.pid", stage, reply) {
            CleanupStep::Await(next) => stage = next,
            CleanupStep::Finished(r) => return r,
        }
    }
    panic!("the cleanup still waits for {stage:?}");
}

#[test]
fn an_identity_is_removed_only_under_its_lock() {
    let token = token_of(b"7");
    let removed = |outcome| {
        vec![
            CleanupReply::Lock(LockAttempt::Taken),
            CleanupReply::Legacy(Ok(false)),
            CleanupReply::Token(Ok(Some(token))),
            CleanupReply::Removed(outcome),
            CleanupReply::Unlocked(Ok(())),
        ]
    };
    run_cleanup(removed(Ok(RemoveExactOutcome::Removed))).unwrap();
    assert_eq!(
        run_cleanup(removed(Ok(
            RemoveExactOutcome::RemovedNamespaceDurabilityUnconfirmed
        ))),
        Err(Fault::of(
            "daemon PID identity was removed, but parent-directory durability is unconfirmed: /r/d.pid"
        ))
    );
    assert_eq!(
        run_cleanup(vec![CleanupReply::Lock(LockAttempt::Held)]),
        Err(Fault::of(
            "Refusing to remove PID file /r/d.pid: locked by a running daemon"
        ))
    );
    assert_eq!(
        run_cleanup(vec![
            CleanupReply::Lock(LockAttempt::Taken),
            CleanupReply::Legacy(Ok(true)),
        ]),
        Err(Fault::of(
            "Refusing to remove PID file /r/d.pid: locked by a running legacy daemon"
        ))
    );
    let both = run_cleanup(vec![
        CleanupReply::Lock(LockAttempt::Taken),
        CleanupReply::Legacy(Ok(false)),
        CleanupReply::Token(Err(Fault::of("io"))),
        CleanupReply::Unlocked(Err("stuck".to_string())),
    ]);
    assert_eq!(
        both.unwrap_err().detail(),
        "PID cleanup failed and releasing its authority lock also failed: unlocking daemon PID lock /r/d.pid.lock: stuck: io"
    );
}

#[test]
fn a_guard_cleans_up_once() {
    let (guard, cleaned) = PidGuard::new().cleanup(|| Ok(()));
    cleaned.unwrap();
    assert!(!guard.armed);
    let (guard, cleaned) = PidGuard::new().cleanup(|| Err(Fault::of("io")));
    assert_eq!(cleaned, Err(Fault::of("io")));
    assert!(guard.unwound(Err(Fault::of("io"))).is_some() == guard.armed);
    foreground_end(Ok(()), Ok(())).unwrap();
    assert!(foreground_end(Err(Fault::of("run")), Err(Fault::of("clean")))
        .unwrap_err()
        .detail()
        .contains("clean"));
    verify_daemon_absence("/r/d.pid", Ok(false), Ok(false)).unwrap();
    assert!(verify_daemon_absence("/r/d.pid", Ok(true), Ok(false)).is_err());
    assert!(verify_daemon_absence("/r/d.pid", Ok(false), Ok(true)).is_err());
}

fn take_absence(
    expected: Option<&ShownGeneration>,
    replies: Vec<AbsenceReply>,
) -> Result<DaemonAbsenceAcquire, Fault> {
    let mut stage = AbsenceStage::MakeDirectory;
    for reply in replies {
        match try_acquire_daemon_absence_lease_at("/r/d.pid", expected, stage, reply) {
            AbsenceTakingStep::Await(next) => stage = next,
            AbsenceTakingStep::Finished(r) => return r,
        }
    }
    panic!("the lease still waits for {stage:?}");
}

fn until_document(bytes: &[u8], seen: &[u8]) -> Vec<AbsenceReply> {
    vec![
        AbsenceReply::Directory {
            path: "/r".to_string(),
            made: Ok(()),
        },
        AbsenceReply::Lock(LockAttempt::Taken),
        AbsenceReply::Legacy(Ok(false)),
        AbsenceReply::Token(Ok(Some(token_of(seen)))),
        AbsenceReply::Bytes(Ok(bytes.to_vec())),
    ]
}

#[test]
fn absence_is_taken_over_the_expected_stale_identity_only() {
    let expected = ShownGeneration {
        generation: generation(7, "g"),
        shown: "g".to_string(),
    };
    let document = |identity: PidIdentity| AbsenceReply::Document {
        shown: identity.generation.clone(),
        document: Some(identity),
    };
    let mut stale = until_document(b"{}", b"{}");
    stale.extend([
        document(identity(7, "g")),
        AbsenceReply::Removed(Ok(RemoveExactOutcome::Removed)),
        AbsenceReply::Verified(Ok(())),
    ]);
    assert_eq!(
        take_absence(Some(&expected), stale),
        Ok(DaemonAbsenceAcquire::Acquired)
    );
    let mut other = until_document(b"{}", b"{}");
    other.push(document(identity(7, "h")));
    assert!(take_absence(Some(&expected), other).is_err());
    assert_eq!(
        take_absence(Some(&expected), until_document(b"{} ", b"{}")),
        Err(Fault::of(
            "daemon PID identity changed while acquiring its absence lease: /r/d.pid"
        ))
    );
    assert_eq!(
        take_absence(Some(&expected), until_document(b"\xff", b"\xff")),
        Err(Fault::of("daemon PID file is malformed: /r/d.pid"))
    );
    assert_eq!(
        take_absence(
            None,
            vec![
                AbsenceReply::Directory {
                    path: "/r".to_string(),
                    made: Ok(()),
                },
                AbsenceReply::Lock(LockAttempt::Held),
            ]
        ),
        Ok(DaemonAbsenceAcquire::Contended)
    );
}

fn publish(replies: Vec<PublishReply>) -> Result<(), Fault> {
    let mut stage = PublishStage::Lock;
    for reply in replies {
        match publish_pid_identity_at("/r/d.pid", stage, reply) {
            PublishStep::Await(next) => stage = next,
            PublishStep::Finished(r) => return r,
        }
    }
    panic!("the publication still waits for {stage:?}");
}

#[test]
fn an_identity_is_published_whole_or_not_at_all() {
    let until_written = || {
        vec![
            PublishReply::Lock(LockAttempt::Taken),
            PublishReply::Outcome(Ok(())),
            PublishReply::Outcome(Ok(())),
            PublishReply::Create(CreateAttempt::Created),
            PublishReply::Written(Ok(())),
        ]
    };
    let mut whole = until_written();
    whole.push(PublishReply::Written(Ok(())));
    publish(whole).unwrap();
    let mut partial = until_written();
    partial.extend([
        PublishReply::Written(Err("disk full".to_string())),
        PublishReply::Outcome(Ok(())),
    ]);
    assert_eq!(
        publish(partial).unwrap_err().detail(),
        "PID identity publication failed; its exact partial artifact was removed: Failed to sync PID file /r/d.pid: disk full"
    );
    let mut taken = until_written();
    taken.truncate(3);
    taken.push(PublishReply::Create(CreateAttempt::Exists));
    assert_eq!(
        publish(taken),
        Err(Fault::of(
            "PID file already exists at /r/d.pid; another daemon may be running"
        ))
    );
    assert_eq!(
        publish(vec![PublishReply::Lock(LockAttempt::Held)]),
        Err(Fault::of(
            "daemon PID lock is already held at /r/d.pid.lock; another daemon is running"
        ))
    );
    cleanup_failed_pid_publication("/r/d.pid", Ok(RemoveExactOutcome::Removed)).unwrap();
    assert!(cleanup_failed_pid_publication(
        "/r/d.pid",
        Ok(RemoveExactOutcome::RemovedNamespaceDurabilityUnconfirmed)
    )
    .is_err());
}

#[test]
fn a_request_for_an_earlier_run_is_cleared() {
    let request = |pid, generation: &str| ShutdownRequest {
        version: 1,
        pid,
        generation: generation.to_string(),
    };
    let clear = |request| {
        cleanup_stale_shutdown_request_before_publication(
            "/r/d.stop",
            &identity(7, "g"),
            token_of(b"{}"),
            Ok(b"{}".to_vec()),
            Ok(request),
        )
    };
    assert_eq!(clear(request(7, "g")), Ok(StaleRequest::Keep));
    assert_eq!(
        clear(request(7, "h")),
        Ok(StaleRequest::Remove(token_of(b"{}")))
    );
    stale_request_removed("/r/d.stop", Ok(RemoveExactOutcome::Removed)).unwrap();
    assert!(cleanup_stale_shutdown_request_before_publication(
        "/r/d.stop",
        &identity(7, "g"),
        token_of(b"{}"),
        Ok(b"other".to_vec()),
        Ok(request(7, "h")),
    )
    .is_err());
}

#[test]
fn a_shutdown_is_requested_of_one_generation() {
    let asked = request_shutdown(&generation(7, "g"), Ok(Some(identity(7, "g")))).unwrap();
    assert_eq!((asked.pid, asked.generation.as_str()), (7, "g"));
    assert!(request_shutdown(&generation(7, "g"), Ok(Some(identity(7, "h")))).is_err());
    assert!(request_shutdown(&generation(7, "g"), Ok(None)).is_err());
    request_durability("/r/d.stop", None).unwrap();
    assert!(request_durability("/r/d.stop", Some(Fault::of("no sync"))).is_err());
}

#[test]
fn candidates_come_from_complete_fetches_only() {
    let fetched = |alias: &str| WorkerOutcome::Fetched {
        alias: alias.to_string(),
    };
    let unfetched = WorkerOutcome::FetchFailed {
        alias: "b".to_string(),
    };
    assert_eq!(
        collect_workers(&[fetched("a"), unfetched, fetched("c")]),
        Ok(vec![0, 2])
    );
    let lost = WorkerOutcome::WorkerFailed {
        alias: "b".to_string(),
        detail: "panicked".to_string(),
    };
    assert_eq!(
        collect_workers(&[fetched("a"), lost]),
        Err(vec![WorkerFailure {
            alias: "b".to_string(),
            detail: "panicked".to_string(),
        }])
    );
}

fn end(refreshed: bool, warmed: bool, failure: Option<&str>) -> ProfileRefresh {
    ProfileRefresh {
        refreshed,
        warmed,
        failure: failure.map(str::to_string),
    }
}

#[test]
fn a_profile_is_warmed_up_only_where_no_window_is_active() {
    let fetched = |auto, active| {
        refresh_profile(auto, RefreshStage::Fetch, RefreshReply::Fetched(Ok(active)))
    };
    assert_eq!(
        fetched(false, false),
        RefreshStep::Finished(end(true, false, None))
    );
    assert_eq!(
        fetched(true, true),
        RefreshStep::Finished(end(true, false, None))
    );
    assert_eq!(fetched(true, false), RefreshStep::Await(RefreshStage::Warmup));
    assert_eq!(
        refresh_profile(
            true,
            RefreshStage::Warmup,
            RefreshReply::Warmed(Err("limit".to_string()))
        ),
        RefreshStep::Finished(end(true, false, Some("warmup failed: limit")))
    );
    assert_eq!(
        refresh_profile(true, RefreshStage::Refetch, RefreshReply::Refetched),
        RefreshStep::Finished(end(true, true, None))
    );
    assert_eq!(
        refresh_profile(true, RefreshStage::Permit, RefreshReply::Permit(false)),
        RefreshStep::Finished(end(false, false, Some("usage limiter closed")))
    );
    assert_eq!(
        refresh_summary(&[
            Some(end(true, true, None)),
            Some(end(true, false, Some("warmup failed: limit"))),
            Some(end(false, false, Some("offline"))),
            None,
        ]),
        CacheRefreshSummary {
            refreshed: 2,
            warmed: 1,
            failed: 3,
        }
    );
}

#[test]
fn the_state_is_kept_below_the_home() {
    assert!(state_path(Platform::Linux, "/home/me/.app").starts_with("/home/me/.app/"));
    let mut state = DaemonState::started(7, 100);
    state.touched(105);
    assert_eq!((state.started_at, state.updated_at), (100, 105));
    state.cache_refreshed(110);
    assert_eq!(state.last_cache_refresh_at, Some(110));
}

#[test]
fn a_failed_selection_names_each_worker() {
    let failure = |alias: &str, detail: &str| WorkerFailure {
        alias: alias.to_string(),
        detail: detail.to_string(),
    };
    assert_eq!(
        batch_failure(&[failure("alice", "panicked"), failure("bob", "timed out")]),
        Fault::of(
            "one or more automatic-selection candidate workers failed: [alice] panicked; [bob] timed out"
        )
    );
}
