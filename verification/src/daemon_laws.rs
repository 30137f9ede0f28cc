//! What finding, starting, publishing, awaiting and ending a daemon come to, and what
//! a failure on the way says.
use vstd::prelude::*;
use vstd::utf8::{decode_utf8, valid_utf8};

use crate::background_marker::{
    await_daemon_ready, await_expected_background_marker, background_marker_failure,
    read_bounded_background_marker, terminate_and_reap_background_child,
    terminate_background_child_on_error, terminate_failed_daemon_child,
    validate_background_ready_nonce, MarkerWaitStep, ReapReply, ReapStage, ReapStep, StartupReply,
    StartupStage, StartupStep,
};
use crate::cause::stems_from;
use crate::daemon_identity::{
    require_running_daemon_executable, require_started_service_daemon_identity,
    validate_running_daemon_executable, validate_started_service_daemon_identity,
    wait_for_daemon_absence_after_service_stop, wait_for_daemon_presence_after_service_start,
    AbsenceStep, DaemonSight, PresenceStep,
};
use crate::fault::Fault;
use crate::fs_ops::{lemma_hex_round_trip, FileToken, RemoveExactOutcome};
use crate::host_path::HostPath;
use crate::outside::{hex_text, sha256};
use crate::pid_transaction::{
    cleanup_failed_pid_publication, cleanup_pidfile,
    cleanup_stale_shutdown_request_before_publication, foreground_end, publish_pid_identity_at,
    request_durability, request_shutdown, stale_request_removed,
    try_acquire_daemon_absence_lease_at, verify_daemon_absence, AbsenceReply, AbsenceStage,
    AbsenceTakingStep, CleanupReply, CleanupStage, CleanupStep, DaemonAbsenceAcquire, PublishReply,
    PublishStage, PublishStep, ShownGeneration, StaleRequest,
};
use crate::pidfile::{
    acquire_pidfile_lock_at, acquire_service_operation_lease_at,
    classify_contending_daemon_identity, legacy_pidfile_lock_is_held_checked, new_pid_identity,
    parse_pid_identity, read_pid_from_raw, running_pid_identity_checked_at,
    shutdown_request_matches, shutdown_requested_at, IdentityDocument, IdentityText, LegacyLock,
    LockAttempt, PidIdentity, RunningReply, RunningStage, RunningStep, ShutdownRequest,
};
use crate::service_owner::executable_problem;
use crate::settlement::{
    contender_after_acquire, contender_after_identify, observe_requested_generation,
    settle_for_lifecycle, stop_request_outcome, wait_for_requested_generation_stop,
    wait_for_requested_generation_to_settle, ContenderStep, ContendingDaemonIdentity,
    DaemonGeneration, InstallerContenderResolution, RequestedGenerationObservation,
    RequestedGenerationSettlement, SettleStep, SettleWait, StopWaitStep, TransientDiagnostics,
};

verus! {

// -- Identities --

/// An identity is trusted exactly in the two forms that daemons write: the earlier
/// without a nonce, the later with one, each with a process and an executable.
pub proof fn law_only_written_identities_are_trusted(
    document: Option<PidIdentity>,
    r: Option<PidIdentity>,
)
    requires
        call_ensures(parse_pid_identity, (document,), r),
    ensures
        r matches Some(identity) ==> document == Some(identity),
        document matches Some(identity) ==> (r is Some <==> identity.pid != 0
            && identity.executable.display@.len() != 0 && (identity.version == 1
            && identity.generation@ == Seq::<char>::empty() || identity.version == 2
            && identity.generation@ != Seq::<char>::empty())),
{
    if let Some(identity) = document {
        assert(identity.generation@.len() == 0 <==> identity.generation@ =~= Seq::<char>::empty());
    }
}

/// What a new daemon publishes is trusted, names its process, and is what a request for
/// it must name.
pub proof fn law_a_new_identity_is_read_back(
    pid: u32,
    executable: HostPath,
    identity: PidIdentity,
    read: Option<PidIdentity>,
    raw: &str,
    named: Option<u32>,
)
    requires
        call_ensures(new_pid_identity, (pid, executable), identity),
        call_ensures(parse_pid_identity, (Some(identity),), read),
        call_ensures(read_pid_from_raw, (raw, Some(identity)), named),
        pid > 0,
        executable.display@.len() > 0,
    ensures
        read == Some(identity),
        named == Some(pid),
        identity.executable == executable,
{
}

/// A request is for a run exactly if it names its process and its nonce; for the run
/// and for its identity alike.
pub proof fn law_a_request_names_its_run(
    identity: &PidIdentity,
    request: &ShutdownRequest,
    target: &DaemonGeneration,
    matches_identity: bool,
    found: bool,
    without: bool,
)
    requires
        call_ensures(shutdown_request_matches, (identity, request), matches_identity),
        call_ensures(shutdown_requested_at, (Some(request), target), found),
        call_ensures(shutdown_requested_at, (None, target), without),
    ensures
        found <==> request.version == 1 && request.pid == target.pid && request.generation@
            == target.generation@,
        identity.pid == target.pid && identity.generation@ == target.generation@ ==> (found
            <==> matches_identity),
        !without,
{
}

/// A request that is made is one that its run takes for itself, and is made exactly for
/// the run that holds the lock and knows requests.
pub proof fn law_a_running_daemon_can_be_asked(
    expected: &DaemonGeneration,
    running: Result<Option<PidIdentity>, Fault>,
    r: Result<ShutdownRequest, Fault>,
    request: &ShutdownRequest,
    heard: bool,
)
    requires
        call_ensures(request_shutdown, (expected, running), r),
        call_ensures(shutdown_requested_at, (Some(request), expected), heard),
        r matches Ok(made) ==> made == *request,
    ensures
        r is Ok ==> heard,
        r is Ok <==> expected.generation@.len() > 0 && (running matches Ok(Some(identity))
            && identity.pid == expected.pid && identity.generation@ == expected.generation@),
        running matches Err(error) ==> (r matches Err(fault) && stems_from(fault@, error@)),
{
}

/// Whoever holds the lock under a trusted identity is a contender, unless it is the
/// stale run itself.
pub proof fn law_a_contender_is_told_by_its_identity(
    document: Option<PidIdentity>,
    stale: Option<&DaemonGeneration>,
    read: Option<PidIdentity>,
    r: ContendingDaemonIdentity,
)
    requires
        call_ensures(classify_contending_daemon_identity, (document, stale), r),
        call_ensures(parse_pid_identity, (document,), read),
    ensures
        read is None ==> r is Pending,
        read matches Some(identity) ==> {
            &&& (stale matches Some(s) && s.pid == identity.pid && s.generation@
                == identity.generation@) <==> r is Pending
            &&& r matches ContendingDaemonIdentity::Published(found) ==> found.pid == identity.pid
                && found.generation@ == identity.generation@
        },
{
}

// -- Locks --

/// A lock is had exactly if it was taken.
pub proof fn law_a_lock_is_had_once_taken(
    path: &str,
    attempt: LockAttempt,
    daemon: Result<(), Fault>,
    lease: Result<(), Fault>,
)
    requires
        call_ensures(acquire_pidfile_lock_at, (path, attempt), daemon),
        call_ensures(acquire_service_operation_lease_at, (path, attempt), lease),
    ensures
        daemon is Ok <==> attempt is Taken,
        lease is Ok <==> attempt is Taken,
{
}

/// The identity file counts as locked exactly if its lock was found held.
pub proof fn law_a_legacy_lock_is_held_as_found(
    path: &str,
    lock: LegacyLock,
    r: Result<bool, Fault>,
)
    requires
        call_ensures(legacy_pidfile_lock_is_held_checked, (path, lock), r),
    ensures
        r == Ok::<bool, Fault>(true) <==> lock == LegacyLock::Attempt(LockAttempt::Held),
        r == Ok::<bool, Fault>(false) <==> lock is Missing || lock == LegacyLock::Attempt(
            LockAttempt::Taken,
        ),
{
}

/// Looking for the running daemon finds it: where the lock is held it is the trusted
/// identity that is then read; where it is free it is a daemon of the previous release
/// that locks the identity itself, or nobody.
pub proof fn law_the_running_daemon_is_found(
    path: &str,
    stage: RunningStage,
    reply: RunningReply,
    step: RunningStep,
)
    requires
        call_ensures(running_pid_identity_checked_at, (path, stage, reply), step),
    ensures
        stage is Read ==> {
            &&& reply matches RunningReply::Text(IdentityText::Found { raw, document }) ==> step
                == RunningStep::Await(
                RunningStage::Lock { initial: Some(IdentityDocument { raw, document }) },
            )
            &&& (reply matches RunningReply::Text(IdentityText::Missing(_))) ==> step
                == RunningStep::Await(RunningStage::Parent)
            &&& (reply matches RunningReply::Text(IdentityText::Failed(_))) ==> (step matches
                RunningStep::Finished(Err(_)))
        },
        stage is Parent ==> (reply matches RunningReply::Parent(sight) ==> {
            &&& sight is NoParent || sight is Missing ==> step == RunningStep::Finished(Ok(None))
            &&& sight is Directory ==> step == RunningStep::Await(
                RunningStage::Lock { initial: None },
            )
            &&& sight is NotDirectory || sight is Failed ==> (step matches RunningStep::Finished(
                Err(_),
            ))
        }),
        stage is Lock && reply == RunningReply::Lock(LockAttempt::Held) ==> step
            == RunningStep::Await(RunningStage::Reread),
        stage == (RunningStage::Lock { initial: None }) && reply == RunningReply::Lock(
            LockAttempt::Taken,
        ) ==> step == RunningStep::Await(RunningStage::Unlock { running: None }),
        stage matches RunningStage::Legacy { identity } ==> {
            &&& reply == RunningReply::Legacy(Ok(true)) ==> (identity matches Some(found) ==> step
                == RunningStep::Await(RunningStage::Unlock { running: Some(found) }))
            &&& reply == RunningReply::Legacy(Ok(true)) && identity is None ==> (step matches
                RunningStep::Finished(Err(_)))
            &&& reply == RunningReply::Legacy(Ok(false)) ==> step == RunningStep::Await(
                RunningStage::Unlock { running: None },
            )
            &&& reply matches RunningReply::Legacy(Err(error)) ==> (step matches
                RunningStep::Finished(Err(fault)) && stems_from(fault@, error@))
        },
        stage matches RunningStage::Unlock { running } ==> {
            &&& (reply matches RunningReply::Unlocked(Ok(_))) ==> step == RunningStep::Finished(
                Ok(running),
            )
            &&& (reply matches RunningReply::Unlocked(Err(_))) ==> (step matches
                RunningStep::Finished(Err(_)))
        },
{
}

/// What is read of a held lock decides: a trusted identity is the running daemon, and
/// anything else is a failure. What a free lock leaves must at least name a process.
pub proof fn law_a_held_lock_has_its_identity(
    path: &str,
    raw: &str,
    text: String,
    document: Option<PidIdentity>,
    read: Option<PidIdentity>,
    named: Option<u32>,
    held: RunningStep,
    free: RunningStep,
)
    requires
        raw@ == text@,
        call_ensures(parse_pid_identity, (document,), read),
        call_ensures(read_pid_from_raw, (raw, document), named),
        call_ensures(
            running_pid_identity_checked_at,
            (
                path,
                RunningStage::Reread,
                RunningReply::Text(IdentityText::Found { raw: text, document }),
            ),
            held,
        ),
        call_ensures(
            running_pid_identity_checked_at,
            (
                path,
                RunningStage::Lock { initial: Some(IdentityDocument { raw: text, document }) },
                RunningReply::Lock(LockAttempt::Taken),
            ),
            free,
        ),
    ensures
        read is Some ==> held == RunningStep::Finished(Ok(read)),
        read is None ==> (held matches RunningStep::Finished(Err(_))),
        named is Some ==> free == RunningStep::Await(RunningStage::Legacy { identity: read }),
        named is None ==> (free matches RunningStep::Finished(Err(_))),
{
}

// -- Publishing --

/// An identity is published: under the lock, after stale requests were cleared, encoded,
/// created, written and flushed.
pub proof fn law_an_identity_is_published(
    path: &str,
    stage: PublishStage,
    reply: PublishReply,
    step: PublishStep,
)
    requires
        call_ensures(publish_pid_identity_at, (path, stage, reply), step),
    ensures
        stage is MakeDirectory && (reply matches PublishReply::Directory { made: Ok(_), .. })
            ==> step == PublishStep::Await(PublishStage::Lock),
        stage is Lock ==> (reply matches PublishReply::Lock(attempt) ==> if attempt is Taken {
            step == PublishStep::Await(PublishStage::ClearRequest)
        } else {
            step matches PublishStep::Finished(Err(_))
        }),
        stage is ClearRequest && (reply matches PublishReply::Outcome(Ok(_))) ==> step
            == PublishStep::Await(PublishStage::Encode),
        stage is Encode && (reply matches PublishReply::Outcome(Ok(_))) ==> step
            == PublishStep::Await(PublishStage::Create),
        stage is Create ==> (reply matches PublishReply::Create(attempt) ==> if attempt is Created {
            step == PublishStep::Await(PublishStage::Write)
        } else {
            step matches PublishStep::Finished(Err(_))
        }),
        stage is Write && (reply matches PublishReply::Written(Ok(_))) ==> step
            == PublishStep::Await(PublishStage::Sync),
        stage is Write || stage is Sync ==> ((reply matches PublishReply::Written(Err(_))) ==> (step
            matches PublishStep::Await(PublishStage::CleanUp(_)))),
        stage is Sync && (reply matches PublishReply::Written(Ok(_))) <==> (step matches
            PublishStep::Finished(Ok(_))),
        stage matches PublishStage::CleanUp(cause) ==> (reply is Outcome ==> (step matches
            PublishStep::Finished(Err(fault)) && stems_from(fault@, cause@))),
        stage is MakeDirectory ==> (reply matches PublishReply::Directory { made: Err(error), .. }
            ==> (step matches PublishStep::Finished(Err(fault)) && stems_from(fault@, error@))),
        stage is ClearRequest || stage is Encode ==> (reply matches PublishReply::Outcome(Err(error))
            ==> (step matches PublishStep::Finished(Err(fault)) && stems_from(fault@, error@))),
{
}

/// A request that is there before an identity is published is kept exactly if it is for
/// that identity, and removed exactly if it is for another.
pub proof fn law_an_earlier_request_is_cleared(
    path: &str,
    identity: &PidIdentity,
    token: FileToken,
    raw: Result<Vec<u8>, Fault>,
    request: Result<ShutdownRequest, Fault>,
    found: &ShutdownRequest,
    own: bool,
    r: Result<StaleRequest, Fault>,
)
    requires
        call_ensures(
            cleanup_stale_shutdown_request_before_publication,
            (path, identity, token, raw, request),
            r,
        ),
        call_ensures(shutdown_request_matches, (identity, found), own),
        request matches Ok(q) ==> q == *found,
    ensures
        r is Ok <==> request is Ok && (raw matches Ok(bytes) && token.digest@ == sha256(bytes@)),
        r is Ok ==> if own {
            r == Ok::<StaleRequest, Fault>(StaleRequest::Keep)
        } else {
            r == Ok::<StaleRequest, Fault>(StaleRequest::Remove(token))
        },
        raw matches Err(error) ==> (r matches Err(fault) && stems_from(fault@, error@)),
{
}

/// A removal counts exactly if it is known to last, and a request exactly if nothing of
/// it is in doubt.
pub proof fn law_what_lasts_is_done(
    path: &str,
    outcome: Result<RemoveExactOutcome, Fault>,
    unconfirmed: Option<Fault>,
    partial: Result<(), Fault>,
    stale: Result<(), Fault>,
    requested: Result<(), Fault>,
)
    requires
        call_ensures(cleanup_failed_pid_publication, (path, outcome), partial),
        call_ensures(stale_request_removed, (path, outcome), stale),
        call_ensures(request_durability, (path, unconfirmed), requested),
    ensures
        partial is Ok <==> outcome == Ok::<RemoveExactOutcome, Fault>(RemoveExactOutcome::Removed),
        stale is Ok <==> outcome == Ok::<RemoveExactOutcome, Fault>(RemoveExactOutcome::Removed),
        requested is Ok <==> unconfirmed is None,
        outcome matches Err(error) ==> (partial matches Err(fault) && stems_from(fault@, error@)),
        outcome matches Err(error) ==> (stale matches Err(fault) && stems_from(fault@, error@)),
        unconfirmed matches Some(error) ==> (requested matches Err(fault) && stems_from(
            fault@,
            error@,
        )),
{
}

// -- Taking the identity away --

/// An identity is taken away: the lock is given back and taken again, and what is there
/// is removed and the lock given back. It succeeds exactly if both did.
pub proof fn law_an_identity_is_taken_away(
    path: &str,
    stage: CleanupStage,
    reply: CleanupReply,
    step: CleanupStep,
)
    requires
        call_ensures(cleanup_pidfile, (path, stage, reply), step),
    ensures
        stage is Release && (reply matches CleanupReply::Released(Ok(_))) ==> step
            == CleanupStep::Await(CleanupStage::Lock),
        stage is Lock ==> (reply matches CleanupReply::Lock(attempt) ==> if attempt is Taken {
            step == CleanupStep::Await(CleanupStage::Legacy)
        } else {
            step matches CleanupStep::Finished(Err(_))
        }),
        stage is Legacy ==> {
            &&& reply == CleanupReply::Legacy(Ok(false)) ==> step == CleanupStep::Await(
                CleanupStage::Token,
            )
            &&& reply == CleanupReply::Legacy(Ok(true)) ==> (step matches CleanupStep::Finished(
                Err(_),
            ))
        },
        stage is Token ==> {
            &&& reply matches CleanupReply::Token(Ok(Some(token))) ==> step == CleanupStep::Await(
                CleanupStage::Remove(token),
            )
            &&& reply == CleanupReply::Token(Ok(None)) ==> (step matches CleanupStep::Await(
                CleanupStage::Unlock { removed: Ok(_) },
            ))
            &&& reply matches CleanupReply::Token(Err(error)) ==> (step matches CleanupStep::Await(
                CleanupStage::Unlock { removed: Err(fault) },
            ) && stems_from(fault@, error@))
        },
        stage is Remove ==> {
            &&& reply == CleanupReply::Removed(Ok(RemoveExactOutcome::Removed)) ==> (step matches
                CleanupStep::Await(CleanupStage::Unlock { removed: Ok(_) }))
            &&& reply matches CleanupReply::Removed(outcome) ==> (outcome != Ok::<
                RemoveExactOutcome,
                Fault,
            >(RemoveExactOutcome::Removed) ==> (step matches CleanupStep::Await(
                CleanupStage::Unlock { removed: Err(_) },
            )))
        },
        stage matches CleanupStage::Unlock { removed } ==> (reply matches CleanupReply::Unlocked(
            unlocked,
        ) ==> (step matches CleanupStep::Finished(r) && r is Ok == (removed is Ok && unlocked
            is Ok) && (removed matches Err(error) ==> (r matches Err(fault) && stems_from(
            fault@,
            error@,
        ))))),
        step matches CleanupStep::Finished(Ok(_)) ==> stage is Unlock,
{
}

/// A daemon in the foreground ends well exactly if it ran well and took its identity
/// away; a failure of the run comes first.
pub proof fn law_a_foreground_daemon_ends_as_it_ran(
    run: Result<(), Fault>,
    cleanup: Result<(), Fault>,
    r: Result<(), Fault>,
)
    requires
        call_ensures(foreground_end, (run, cleanup), r),
    ensures
        r is Ok <==> run is Ok && cleanup is Ok,
        run matches Err(error) ==> (r matches Err(fault) && stems_from(fault@, error@)),
        run is Ok ==> (cleanup matches Err(error) ==> (r matches Err(fault) && stems_from(
            fault@,
            error@,
        ))),
{
}

// -- Holding the absence --

/// An absence is taken: under the lock, the stale identity is read and removed, and
/// what is left is verified. A lock that is held is a contender and no failure.
pub proof fn law_an_absence_is_taken(
    path: &str,
    expected: Option<&ShownGeneration>,
    stage: AbsenceStage,
    reply: AbsenceReply,
    step: AbsenceTakingStep,
)
    requires
        call_ensures(try_acquire_daemon_absence_lease_at, (path, expected, stage, reply), step),
    ensures
        stage is MakeDirectory && (reply matches AbsenceReply::Directory { made: Ok(_), .. })
            ==> step == AbsenceTakingStep::Await(AbsenceStage::Lock),
        stage is Lock ==> (reply matches AbsenceReply::Lock(attempt) ==> {
            &&& attempt is Taken <==> step == AbsenceTakingStep::Await(AbsenceStage::Legacy)
            &&& attempt is Held <==> step == AbsenceTakingStep::Finished(
                Ok(DaemonAbsenceAcquire::Contended),
            )
        }),
        stage is Legacy ==> {
            &&& reply == AbsenceReply::Legacy(Ok(false)) ==> step == AbsenceTakingStep::Await(
                AbsenceStage::Token,
            )
            &&& reply == AbsenceReply::Legacy(Ok(true)) ==> (step matches
                AbsenceTakingStep::Finished(Err(_)))
        },
        stage is Token ==> {
            &&& reply == AbsenceReply::Token(Ok(None)) ==> step == AbsenceTakingStep::Await(
                AbsenceStage::Verify,
            )
            &&& reply matches AbsenceReply::Token(Ok(Some(token))) ==> step
                == AbsenceTakingStep::Await(AbsenceStage::Read(token))
        },
        stage matches AbsenceStage::Read(token) ==> (reply matches AbsenceReply::Bytes(Ok(bytes))
            ==> if token.digest@ == sha256(bytes@) && valid_utf8(bytes@) {
            step matches AbsenceTakingStep::Await(AbsenceStage::Document { token: t, raw }) && t
                == token && raw@ == decode_utf8(bytes@)
        } else {
            step matches AbsenceTakingStep::Finished(Err(_))
        }),
        stage is Remove && (reply matches AbsenceReply::Removed(Ok(_))) ==> step
            == AbsenceTakingStep::Await(AbsenceStage::Verify),
        stage is Verify && (reply matches AbsenceReply::Verified(Ok(_))) <==> step
            == AbsenceTakingStep::Finished(Ok(DaemonAbsenceAcquire::Acquired)),
        stage is Legacy ==> (reply matches AbsenceReply::Legacy(Err(error)) ==> (step matches
            AbsenceTakingStep::Finished(Err(fault)) && stems_from(fault@, error@))),
        stage is Token ==> (reply matches AbsenceReply::Token(Err(error)) ==> (step matches
            AbsenceTakingStep::Finished(Err(fault)) && stems_from(fault@, error@))),
        stage is Read ==> (reply matches AbsenceReply::Bytes(Err(error)) ==> (step matches
            AbsenceTakingStep::Finished(Err(fault)) && stems_from(fault@, error@))),
        stage is Remove ==> (reply matches AbsenceReply::Removed(Err(error)) ==> (step matches
            AbsenceTakingStep::Finished(Err(fault)) && stems_from(fault@, error@))),
        stage is Verify ==> (reply matches AbsenceReply::Verified(Err(error)) ==> (step matches
            AbsenceTakingStep::Finished(Err(fault)) && stems_from(fault@, error@))),
{
}

/// A stale identity is removed exactly if it is the expected run, or where none is
/// expected, if it names a process.
pub proof fn law_a_stale_identity_is_removed(
    path: &str,
    expected: Option<&ShownGeneration>,
    token: FileToken,
    raw: String,
    text: &str,
    document: Option<PidIdentity>,
    shown: String,
    read: Option<PidIdentity>,
    named: Option<u32>,
    step: AbsenceTakingStep,
)
    requires
        text@ == raw@,
        call_ensures(parse_pid_identity, (document,), read),
        call_ensures(read_pid_from_raw, (text, document), named),
        call_ensures(
            try_acquire_daemon_absence_lease_at,
            (
                path,
                expected,
                AbsenceStage::Document { token, raw },
                AbsenceReply::Document { document, shown },
            ),
            step,
        ),
    ensures
        expected matches Some(wanted) ==> (step == AbsenceTakingStep::Await(
            AbsenceStage::Remove(token),
        ) <==> (read matches Some(identity) && identity.pid == wanted.generation.pid
            && identity.generation@ == wanted.generation.generation@)),
        expected is None ==> (step == AbsenceTakingStep::Await(AbsenceStage::Remove(token))
            <==> named is Some),
        step != AbsenceTakingStep::Await(AbsenceStage::Remove(token)) ==> (step matches
            AbsenceTakingStep::Finished(Err(_))),
{
}

/// An absence holds exactly if there is no identity and nobody locks its file.
pub proof fn law_an_absence_holds_exactly(
    path: &str,
    identity: Result<bool, Fault>,
    legacy: Result<bool, Fault>,
    r: Result<(), Fault>,
)
    requires
        call_ensures(verify_daemon_absence, (path, identity, legacy), r),
    ensures
        r is Ok <==> identity == Ok::<bool, Fault>(false) && legacy == Ok::<bool, Fault>(false),
        identity matches Err(error) ==> (r matches Err(fault) && stems_from(fault@, error@)),
{
}

// -- Waiting for a stop --

/// The run that was asked to stop still runs exactly if it is the one that is found.
pub proof fn law_a_stopped_run_is_told_from_its_successor(
    target: &DaemonGeneration,
    running: Option<DaemonGeneration>,
    r: RequestedGenerationObservation,
)
    requires
        call_ensures(observe_requested_generation, (target, running), r),
    ensures
        r is TargetRunning <==> (running matches Some(found) && found.pid == target.pid
            && found.generation@ == target.generation@),
        r matches RequestedGenerationObservation::Settled(seen) ==> seen == running,
{
}

/// A bounded wait ends well exactly where nothing runs any more, fails at once where
/// another run took over, and otherwise goes on until its time is over.
pub proof fn law_a_bounded_wait_ends_in_time(
    pid: u32,
    diagnostics: TransientDiagnostics,
    observation: Result<RequestedGenerationObservation, Fault>,
    elapsed_nanos: u64,
    r: StopWaitStep,
)
    requires
        call_ensures(
            wait_for_requested_generation_stop,
            (pid, diagnostics, observation, elapsed_nanos),
            r,
        ),
        diagnostics.wf(),
    ensures
        r is Stopped <==> observation == Ok::<RequestedGenerationObservation, Fault>(
            RequestedGenerationObservation::Settled(None),
        ),
        (observation matches Ok(RequestedGenerationObservation::Settled(Some(_)))) ==> r is Failed,
        elapsed_nanos < 10_000_000_000 && !(observation matches Ok(
            RequestedGenerationObservation::Settled(_),
        )) ==> r is Again,
        elapsed_nanos >= 10_000_000_000 ==> !(r is Again),
        observation is Err ==> (r matches StopWaitStep::Again(after) ==> after.count
            > diagnostics.count || diagnostics.count == usize::MAX),
        observation == Ok::<RequestedGenerationObservation, Fault>(
            RequestedGenerationObservation::TargetRunning,
        ) ==> (r matches StopWaitStep::Again(after) ==> after == diagnostics),
{
}

/// An unbounded wait ends exactly where its target is gone, with what runs instead, and
/// reports at most once in every interval.
pub proof fn law_an_unbounded_wait_ends_with_its_target(
    pid: u32,
    wait: SettleWait,
    observation: Result<RequestedGenerationObservation, Fault>,
    elapsed_nanos: u64,
    r: SettleStep,
)
    requires
        call_ensures(
            wait_for_requested_generation_to_settle,
            (pid, wait, observation, elapsed_nanos),
            r,
        ),
        wait.diagnostics.wf(),
    ensures
        r is Settled <==> (observation matches Ok(RequestedGenerationObservation::Settled(_))),
        r matches SettleStep::Settled(settlement) ==> observation == Ok::<
            RequestedGenerationObservation,
            Fault,
        >(RequestedGenerationObservation::Settled(settlement.observed_generation)),
        r matches SettleStep::Again { wait: after, report } ==> {
            &&& report <==> elapsed_nanos >= wait.next_report_nanos
            &&& !report ==> after.next_report_nanos == wait.next_report_nanos
            &&& report && elapsed_nanos + 10_000_000_000 <= u64::MAX ==> after.next_report_nanos
                == elapsed_nanos + 10_000_000_000
            &&& observation is Ok ==> after.diagnostics == wait.diagnostics
            &&& observation is Err && wait.diagnostics.count < usize::MAX
                ==> after.diagnostics.count == wait.diagnostics.count + 1
        },
        r matches SettleStep::Settled(settlement) ==> (wait.diagnostics.count == 0 <==> settlement.diagnostics@.len()
            == 0),
{
    if let SettleStep::Settled(settlement) = r {
        assert(crate::text::texts(settlement.diagnostics@).len() == settlement.diagnostics@.len());
    }
}

/// A stop is known to be complete exactly if the daemon stopped and the request for it
/// lasts.
pub proof fn law_a_stop_is_complete_once_it_lasts(
    stopped: Result<(), Fault>,
    durable: Result<(), Fault>,
    r: Result<(), Fault>,
)
    requires
        call_ensures(stop_request_outcome, (stopped, durable), r),
    ensures
        r is Ok <==> stopped is Ok && durable is Ok,
{
}

/// A settlement keeps what was seen and what was noted; a request that may not last
/// adds one note.
pub proof fn law_a_settlement_is_noted(
    pid: u32,
    settlement: RequestedGenerationSettlement,
    durable: Result<(), Fault>,
    r: RequestedGenerationSettlement,
)
    requires
        call_ensures(settle_for_lifecycle, (pid, settlement, durable), r),
    ensures
        r.observed_generation == settlement.observed_generation,
        r.diagnostics@.len() == settlement.diagnostics@.len() + (if durable is Ok {
            0int
        } else {
            1int
        }),
        forall|i: int|
            0 <= i < settlement.diagnostics@.len() ==> (#[trigger] r.diagnostics@[i])@
                == settlement.diagnostics@[i]@,
{
    let before = crate::text::texts(settlement.diagnostics@);
    let after = crate::text::texts(r.diagnostics@);
    assert(after.len() == r.diagnostics@.len() && before.len() == settlement.diagnostics@.len());
    assert forall|i: int| 0 <= i < settlement.diagnostics@.len() implies (
    #[trigger] r.diagnostics@[i])@ == settlement.diagnostics@[i]@ by {
        assert(after[i] == before[i]);
    }
}

/// A wait for a contender ends with the absence once it is had, and with the contender
/// once it is known; until then it goes on.
pub proof fn law_a_contender_is_awaited(
    wait: SettleWait,
    acquired: Result<bool, Fault>,
    identity: Result<ContendingDaemonIdentity, Fault>,
    elapsed_nanos: u64,
    first: ContenderStep,
    second: ContenderStep,
)
    requires
        wait.diagnostics.wf(),
        call_ensures(contender_after_acquire, (wait, acquired), first),
        call_ensures(contender_after_identify, (wait, identity, elapsed_nanos), second),
    ensures
        acquired == Ok::<bool, Fault>(true) <==> first is Resolved,
        acquired != Ok::<bool, Fault>(true) <==> first is Identify,
        first matches ContenderStep::Resolved(settlement) ==> settlement.resolution
            == InstallerContenderResolution::Absence,
        first matches ContenderStep::Identify(after) ==> after.next_report_nanos
            == wait.next_report_nanos && (acquired is Ok ==> after == wait) && (acquired is Err
            && wait.diagnostics.count < usize::MAX ==> after.diagnostics.count
            == wait.diagnostics.count + 1),
        second is Resolved <==> (identity matches Ok(ContendingDaemonIdentity::Published(_))),
        second matches ContenderStep::Resolved(settlement) ==> (identity matches Ok(
            ContendingDaemonIdentity::Published(target),
        ) && settlement.resolution == InstallerContenderResolution::Published(target)),
        second matches ContenderStep::Again { report, .. } ==> report == (elapsed_nanos
            >= wait.next_report_nanos),
{
}

// -- Executables --

/// A running daemon passes exactly if its executable can be named and is, token for
/// token, the expected one; the token is handed on.
pub proof fn law_only_the_expected_executable_runs(
    expected: &HostPath,
    pid: u32,
    running: &HostPath,
    expected_token: Result<FileToken, Fault>,
    running_token: Result<FileToken, Fault>,
    r: Result<FileToken, Fault>,
)
    requires
        call_ensures(
            validate_running_daemon_executable,
            (expected, pid, running, expected_token, running_token),
            r,
        ),
    ensures
        r is Ok <==> executable_problem(*running) is None && (expected_token matches Ok(a)
            && running_token matches Ok(b) && a@ == b@),
        r matches Ok(token) ==> token@ == expected_token->Ok_0@,
        executable_problem(*running) is None ==> (expected_token matches Err(error) ==> (r matches
            Err(fault) && stems_from(fault@, error@))),
        executable_problem(*running) is None && expected_token is Ok ==> (running_token matches Err(
            error,
        ) ==> (r matches Err(fault) && stems_from(fault@, error@))),
{
}

/// A daemon that must run is known by its process exactly if it was seen and runs the
/// expected executable.
pub proof fn law_a_required_daemon_is_named(
    missing: &str,
    action: &str,
    sight: Result<Option<DaemonSight>, Fault>,
    running: Result<u32, Fault>,
    started: Result<u32, Fault>,
)
    requires
        call_ensures(require_running_daemon_executable, (missing, sight), running),
        call_ensures(require_started_service_daemon_identity, (action, sight), started),
    ensures
        running is Ok <==> (sight matches Ok(Some(seen)) && seen.validation is Ok),
        started is Ok <==> (sight matches Ok(Some(seen)) && seen.validation is Ok),
        sight matches Ok(Some(seen)) ==> {
            &&& running matches Ok(pid) ==> pid == seen.pid
            &&& started matches Ok(pid) ==> pid == seen.pid
            &&& seen.validation matches Err(error) ==> (running matches Err(fault) && stems_from(
                fault@,
                error@,
            )) && (started matches Err(fault) && stems_from(fault@, error@))
        },
        sight matches Err(error) ==> (running matches Err(fault) && stems_from(fault@, error@)) && (
        started matches Err(fault) && stems_from(fault@, error@)),
{
}

/// A started daemon passes exactly if its executable did.
pub proof fn law_a_started_daemon_passes_as_validated(
    action: &str,
    validation: Result<FileToken, Fault>,
    r: Result<(), Fault>,
)
    requires
        call_ensures(validate_started_service_daemon_identity, (action, validation), r),
    ensures
        r is Ok <==> validation is Ok,
        validation matches Err(error) ==> (r matches Err(fault) && stems_from(fault@, error@)),
{
}

/// A wait for the absence ends well exactly where nobody holds the lock, goes on while
/// there is time, and fails then.
pub proof fn law_an_absence_is_awaited_in_time(
    action: &str,
    running: Result<Option<u32>, Fault>,
    elapsed_nanos: u64,
    r: AbsenceStep,
)
    requires
        call_ensures(
            wait_for_daemon_absence_after_service_stop,
            (action, running, elapsed_nanos),
            r,
        ),
    ensures
        r is Absent <==> running == Ok::<Option<u32>, Fault>(None),
        r is Again <==> (running matches Ok(Some(_))) && elapsed_nanos < 10_000_000_000,
        running matches Err(error) ==> (r matches AbsenceStep::Failed(fault) && stems_from(
            fault@,
            error@,
        )),
{
}

/// A wait for the presence ends well exactly where the daemon is seen with the expected
/// executable, fails where it has another or the time is over, and else goes on.
pub proof fn law_a_presence_is_awaited_in_time(
    action: &str,
    last: Option<Fault>,
    look: Option<Result<Option<DaemonSight>, Fault>>,
    r: PresenceStep,
)
    requires
        call_ensures(wait_for_daemon_presence_after_service_start, (action, last, look), r),
    ensures
        r is Present <==> (look matches Some(Ok(Some(sight))) && sight.validation is Ok),
        look is None ==> r is Failed,
        look matches Some(Ok(Some(sight))) ==> (sight.validation is Err ==> r is Failed),
        look == Some(Ok::<Option<DaemonSight>, Fault>(None)) ==> r is Again,
        (look matches Some(Err(_))) ==> r is Again,
        look matches Some(Err(error)) ==> (r matches PresenceStep::Again(Some(kept)) && kept
            == error),
{
}

// -- Background children --

/// A nonce that is written is accepted, and every accepted one is as long.
pub proof fn law_a_written_nonce_is_accepted(
    nonce: Seq<u8>,
    text: &str,
    r: Result<(), Fault>,
)
    requires
        nonce.len() == 16,
        text@ == hex_text(nonce),
        call_ensures(validate_background_ready_nonce, (text,), r),
    ensures
        r is Ok,
{
    lemma_hex_round_trip(nonce);
}

/// A line is read: what was written with a line end behind it, at most as long as the
/// limit allows, comes back without it.
pub proof fn law_a_written_marker_is_read_back(
    purpose: &str,
    text: Seq<char>,
    line: Vec<u8>,
    r: Result<(String, usize), Fault>,
)
    requires
        call_ensures(read_bounded_background_marker, (purpose, Ok::<Vec<u8>, Fault>(line)), r),
        valid_utf8(vstd::utf8::encode_utf8(text)),
        line@ == vstd::utf8::encode_utf8(text).push(0x0a),
        line@.len() <= 512,
        vstd::utf8::encode_utf8(text).len() > 0 ==> vstd::utf8::encode_utf8(text).last() != 0x0a
            && vstd::utf8::encode_utf8(text).last() != 0x0d,
    ensures
        r matches Ok((marker, bytes)) && marker@ == decode_utf8(vstd::utf8::encode_utf8(text))
            && bytes == line@.len(),
{
    let encoded = vstd::utf8::encode_utf8(text);
    assert(line@.drop_last() =~= encoded);
    reveal_with_fuel(crate::background_marker::without_line_ends, 3);
}

/// A line is refused where it is empty, too long or not ended.
pub proof fn law_a_broken_marker_is_refused(
    purpose: &str,
    line: Vec<u8>,
    r: Result<(String, usize), Fault>,
)
    requires
        call_ensures(read_bounded_background_marker, (purpose, Ok::<Vec<u8>, Fault>(line)), r),
        line@.len() == 0 || line@.len() > 512 || line@.last() != 0x0a,
    ensures
        r is Err,
{
}

/// The expected line is found exactly where it comes within the limit on all lines.
pub proof fn law_an_expected_marker_is_found(
    purpose: &str,
    expected: &str,
    limit: usize,
    before: usize,
    marker: &str,
    bytes: usize,
    r: MarkerWaitStep,
)
    requires
        call_ensures(
            await_expected_background_marker,
            (purpose, expected, limit, before, marker, bytes),
            r,
        ),
    ensures
        r is Found <==> marker@ == expected@ && before + bytes <= limit,
        r is Refused <==> before + bytes > limit,
        r matches MarkerWaitStep::Again(total) ==> total == before + bytes && marker@ != expected@,
{
}

/// A child is ended: one that has exited is left, another is killed and waited for; one
/// that cannot be killed must have exited.
pub proof fn law_a_child_is_ended(stage: ReapStage, reply: ReapReply, step: ReapStep)
    requires
        call_ensures(terminate_and_reap_background_child, (stage, reply), step),
    ensures
        stage is Check || stage is Recheck ==> (reply matches ReapReply::Exited(Ok(Some(status)))
            ==> step == ReapStep::Finished(Ok(status))),
        stage is Check && reply == ReapReply::Exited(Ok(None)) ==> step == ReapStep::Await(
            ReapStage::Kill,
        ),
        stage is Kill && (reply matches ReapReply::Killed(Ok(_))) ==> step == ReapStep::Await(
            ReapStage::Wait,
        ),
        stage is Kill ==> (reply matches ReapReply::Killed(Err(error)) ==> step == ReapStep::Await(
            ReapStage::Recheck(error),
        )),
        stage is Wait ==> (reply matches ReapReply::Waited(Ok(status)) ==> step
            == ReapStep::Finished(Ok(status))),
        stage matches ReapStage::Recheck(cause) ==> (reply == ReapReply::Exited(Ok(None)) ==> (step
            matches ReapStep::Finished(Err(fault)) && stems_from(fault@, cause@))),
        stage is Check || stage is Recheck ==> (reply matches ReapReply::Exited(Err(error)) ==> (
        step matches ReapStep::Finished(Err(fault)) && stems_from(fault@, error@))),
        stage is Wait ==> (reply matches ReapReply::Waited(Err(error)) ==> (step matches
            ReapStep::Finished(Err(fault)) && stems_from(fault@, error@))),
        step matches ReapStep::Finished(Ok(_)) ==> !(stage is Kill),
{
}

/// What a child failed with stays what it failed with, whatever became of it.
pub proof fn law_a_failed_child_keeps_its_cause(
    error: Fault,
    reap: Result<String, Fault>,
    reader_joined: bool,
    a: Fault,
    b: Fault,
)
    requires
        call_ensures(background_marker_failure, (error, reap, reader_joined), a),
        call_ensures(terminate_background_child_on_error, (error, reap), b),
    ensures
        stems_from(a@, error@) && stems_from(b@, error@),
        a@.len() == error@.len() + 1 && b@.len() == error@.len() + 1,
        reader_joined ==> a@ == b@,
{
}

/// A child that could not be used is gone exactly if it was killed and reaped, or could
/// not be killed because it had exited.
pub proof fn law_an_unused_child_is_gone(
    killed: Result<(), Fault>,
    reaped: Result<(), Fault>,
    exited: Result<bool, Fault>,
    r: Result<(), Fault>,
)
    requires
        call_ensures(terminate_failed_daemon_child, (killed, reaped, exited), r),
    ensures
        r is Ok <==> if killed is Ok {
            reaped is Ok
        } else {
            exited == Ok::<bool, Fault>(true)
        },
        killed is Ok ==> (reaped matches Err(error) ==> (r matches Err(fault) && stems_from(
            fault@,
            error@,
        ))),
        exited == Ok::<bool, Fault>(false) ==> (killed matches Err(error) ==> (r matches Err(fault)
            && stems_from(fault@, error@))),
{
}

/// A start is done once its own child holds the lock. A child that exited ends it, one
/// that lost the lock or ran out of time is ended, and else it looks again.
pub proof fn law_a_start_ends_with_its_child(
    pid: u32,
    stage: StartupStage,
    before: Option<Fault>,
    reply: StartupReply,
    step: StartupStep,
)
    requires
        call_ensures(await_daemon_ready, (pid, stage, before, reply), step),
    ensures
        stage is Child ==> {
            &&& reply == StartupReply::Exited(None) ==> step == StartupStep::Await(
                StartupStage::Lock { last_probe_error: before },
            )
            &&& (reply matches StartupReply::Exited(Some(_))) ==> (step matches
                StartupStep::Finished(Err(_)))
        },
        stage matches StartupStage::Lock { last_probe_error } ==> {
            &&& reply matches StartupReply::Lock { running: Ok(Some(holder)), .. } ==> if holder
                == pid {
                step == StartupStep::Finished(Ok(pid))
            } else {
                step matches StartupStep::Await(StartupStage::Cleanup { lost_to, .. }) && lost_to
            }
            &&& reply matches StartupReply::Lock { running: Ok(None), expired } ==> if expired {
                step matches StartupStep::Await(StartupStage::Cleanup { lost_to, error })
                    && !lost_to && (last_probe_error matches Some(probe) ==> stems_from(
                    error@,
                    probe@,
                ))
            } else {
                step == StartupStep::Again(last_probe_error)
            }
            &&& reply matches StartupReply::Lock { running: Err(probe), expired } ==> if expired {
                step matches StartupStep::Await(StartupStage::Cleanup { lost_to, error })
                    && !lost_to && stems_from(error@, probe@)
            } else {
                step == StartupStep::Again(Some(probe))
            }
        },
        stage matches StartupStage::Cleanup { error, .. } ==> (step matches StartupStep::Finished(
            Err(fault),
        ) && ((reply matches StartupReply::Cleanup(Err(_))) ==> stems_from(fault@, error@))),
{
}

} // verus!
