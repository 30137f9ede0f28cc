//! What the checks of an update record, and the looks that they need.
use vstd::prelude::*;

use crate::boundary_client::{
    ClientRequest, SelfUpdateBoundaryClientPhase, SelfUpdateDaemonBoundaryClient,
};
use crate::boundary_phase::{
    InitialGenerationStopState, InitialLaunchMechanism, InstallerBoundaryPhase,
    InstallerUninstallState,
};
use crate::boundary_protocol::{
    begin_installer_daemon_boundary, BoundaryMarker, BoundaryStage, UninstallBoundaryState,
};
use crate::cause::stems_from;
use crate::daemon_identity::DaemonSight;
use crate::fault::Fault;
use crate::fs_ops::FileToken;
use crate::lifecycle::{
    require_captured_executable_state, same_generation, CaptureLooks, ExecutableLook,
    InitialExecutableState, Owner, SelfUpdateDaemonRestart,
};
use crate::lifecycle_checks::{finish_final_verification, FinalLooks, FinalStep, StoppedLooks};
use crate::lifecycle_looks::{captured_daemon, FileLook, ServiceLook};
use crate::number::decimal;
use crate::service_state::ServiceStateSnapshot;
use crate::settlement::{DaemonGeneration, RequestedGenerationSettlement, TransientDiagnostics};
use crate::state::{DaemonState, PollOutcome, SwitchRecord};
use crate::text::{begins_with, finishes_with, owned_text, texts};

verus! {

// -- Records of an update --

/// Whether nothing but the absence and who is expected of the service differs.
pub open spec fn same_capture(a: SelfUpdateDaemonRestart, b: SelfUpdateDaemonRestart) -> bool {
    a.initial_pid == b.initial_pid && a.initial_generation == b.initial_generation
        && a.initial_executable == b.initial_executable && a.replacement_executable
        == b.replacement_executable && a.paths_match == b.paths_match && a.initial_executable_state
        == b.initial_executable_state && a.initial_service_snapshot == b.initial_service_snapshot
        && a.initial_launch_mechanism == b.initial_launch_mechanism && a.service_installed
        == b.service_installed
}

/// The absence is given up whatever its verification said; the failure is that of an
/// absence that was not held or was no longer one.
pub proof fn law_an_absence_is_given_up_for_a_start(
    state: &mut SelfUpdateDaemonRestart,
    verified: Result<(), Fault>,
    r: Result<(), Fault>,
)
    requires
        call_ensures(
            SelfUpdateDaemonRestart::release_absence_for_restart,
            (state, verified),
            r,
        ),
    ensures
        !final(state).absence_held,
        same_capture(*final(state), *old(state)) && final(state).said() == old(state).said(),
        r is Ok <==> old(state).absence_held && verified is Ok,
        verified matches Err(error) ==> (old(state).absence_held ==> (r matches Err(fault)
            && fault@ == error@)),
{
}

/// The service is recorded as stopped exactly if its manager owns no daemon, and where
/// the initial state is still asked for, that too is found.
pub proof fn law_only_a_stopped_service_is_recorded(
    state: &mut SelfUpdateDaemonRestart,
    ready: Option<Result<ServiceStateSnapshot, Fault>>,
    observed: Result<ServiceStateSnapshot, Fault>,
    first: Result<(), Fault>,
    r: Result<(), Fault>,
)
    requires
        call_ensures(
            SelfUpdateDaemonRestart::record_stopped_service_snapshot,
            (state, ready, observed),
            r,
        ),
        ready matches Some(look) ==> call_ensures(
            SelfUpdateDaemonRestart::verify_service_state_ready_for_initial_restart,
            (&*old(state), look),
            first,
        ),
    ensures
        r is Ok <==> (ready is Some ==> first is Ok) && (observed matches Ok(found)
            && found@.manager_pid is None),
        r is Ok ==> final(state).stopped_service_snapshot == Some(observed->Ok_0),
        r is Err ==> *final(state) == *old(state),
        same_capture(*final(state), *old(state)) && final(state).absence_held
            == old(state).absence_held,
{
}

/// The service that a restarted daemon runs with is recorded exactly if it is accepted.
pub proof fn law_the_restarted_service_is_recorded(
    state: &mut SelfUpdateDaemonRestart,
    pid: u32,
    observed: Result<ServiceStateSnapshot, Fault>,
    r: Result<(), Fault>,
)
    requires
        call_ensures(
            SelfUpdateDaemonRestart::record_expected_service_snapshot_after_restart,
            (state, pid, observed),
            r,
        ),
    ensures
        r is Ok ==> observed is Ok && final(state).expected_service_snapshot == Some(
            observed->Ok_0,
        ),
        r is Err ==> *final(state) == *old(state),
        same_capture(*final(state), *old(state)),
        old(state).initial_launch_mechanism == InitialLaunchMechanism::Stopped ==> r is Err,
        r is Ok && old(state).initial_launch_mechanism == InitialLaunchMechanism::ServiceManager
            ==> observed->Ok_0@.manager_pid == Some(pid) && observed->Ok_0@.definition is Some,
        r is Ok && old(state).initial_launch_mechanism == InitialLaunchMechanism::Detached
            ==> observed->Ok_0@.manager_pid is None && observed->Ok_0@.definition
            == old(state).initial_service_snapshot@.definition,
{
}

/// Exactly one of the two executables must own the service, and that one is recorded;
/// where the paths are the same, or no other may own it, it is the one that did.
pub proof fn law_the_one_owner_is_recorded(
    state: &mut SelfUpdateDaemonRestart,
    alternative: Owner,
    initial: Result<(), Fault>,
    replacement: Result<(), Fault>,
    r: Result<(), Fault>,
)
    requires
        call_ensures(
            SelfUpdateDaemonRestart::classify_service_executable,
            (state, alternative, initial, replacement),
            r,
        ),
    ensures
        r is Err ==> *final(state) == *old(state),
        r is Ok && final(state).service_executable == Owner::Initial ==> initial is Ok,
        r is Ok && final(state).service_executable == Owner::Replacement ==> replacement is Ok,
        initial is Err && replacement is Err ==> r is Err,
        r is Ok && old(state).paths_match ==> final(state).service_executable
            == old(state).service_executable,
        !old(state).paths_match && (alternative == Owner::Replacement || old(state).service_executable == Owner::Replacement) ==> (r is Ok <==> initial is Ok
            != replacement is Ok),
        same_capture(*final(state), *old(state)) && final(state).absence_held
            == old(state).absence_held,
{
}

/// A wrong final state is left as it is exactly where the service was removed; else
/// the daemon that runs is stopped first.
pub proof fn law_a_wrong_final_state_is_not_left(
    state: &mut SelfUpdateDaemonRestart,
    looks: FinalLooks,
    checked: Result<(), Fault>,
    r: FinalStep,
)
    requires
        call_ensures(SelfUpdateDaemonRestart::verify_final_state, (state, looks), r),
        call_ensures(
            SelfUpdateDaemonRestart::verify_final_state_snapshot,
            (&*old(state), looks),
            checked,
        ),
    ensures
        *final(state) == *old(state),
        checked is Ok ==> r == FinalStep::Finished(Ok(())),
        checked matches Err(error) ==> (old(state).uninstall_state
            == InstallerUninstallState::NotApplied ==> (r matches FinalStep::Reestablish(fault)
            && fault@ == error@)),
        checked matches Err(error) ==> (old(state).uninstall_state
            != InstallerUninstallState::NotApplied ==> (r matches FinalStep::Finished(Err(fault))
            && fault@ == error@)),
{
}

/// After an uninstallation the state is accepted exactly if the service is gone and no
/// daemon runs or can start.
pub proof fn law_a_removal_is_committed_exactly(
    state: &SelfUpdateDaemonRestart,
    looks: FinalLooks,
    r: Result<(), Fault>,
)
    requires
        call_ensures(SelfUpdateDaemonRestart::verify_final_state_snapshot, (state, looks), r),
        state.uninstall_state != InstallerUninstallState::NotApplied,
    ensures
        r is Ok <==> {
            &&& looks.service matches Ok(found) && found@.absent()
            &&& looks.running == Ok::<Option<u32>, Fault>(None)
            &&& state.absence_held && looks.absence is Ok
        },
{
}

/// A wrong final state keeps what was wrong, whether or not its daemon could be stopped.
pub proof fn law_a_failed_verification_keeps_its_cause(
    error: Fault,
    absence: Result<(), Fault>,
    r: Fault,
)
    requires
        call_ensures(finish_final_verification, (error, absence), r),
    ensures
        stems_from(r@, error@) && r@.len() == error@.len() + 1,
{
}

/// What an uninstallation left is told exactly: it is applied where the service is
/// gone, and nothing but the prior stopped state can stand in its place.
pub proof fn law_what_a_removal_left_is_told(
    state: &mut SelfUpdateDaemonRestart,
    service: Result<ServiceStateSnapshot, Fault>,
    looks: StoppedLooks,
    gone: Result<(), Fault>,
    stopped: Result<(), Fault>,
    r: Result<UninstallBoundaryState, Fault>,
)
    requires
        call_ensures(
            SelfUpdateDaemonRestart::classify_uninstall_boundary_state,
            (state, service, looks),
            r,
        ),
        call_ensures(
            SelfUpdateDaemonRestart::verify_uninstalled_boundary_state,
            (&*old(state), looks),
            gone,
        ),
        call_ensures(
            SelfUpdateDaemonRestart::verify_stopped_boundary_state,
            (&*old(state), looks),
            stopped,
        ),
    ensures
        r == Ok::<UninstallBoundaryState, Fault>(UninstallBoundaryState::Applied) ==> gone is Ok
            && final(state).uninstall_state != InstallerUninstallState::NotApplied,
        r == Ok::<UninstallBoundaryState, Fault>(UninstallBoundaryState::PriorStopped)
            ==> stopped is Ok && *final(state) == *old(state) && old(state).uninstall_state
            == InstallerUninstallState::NotApplied && (service matches Ok(found)
            && !found@.absent()),
        old(state).uninstall_state != InstallerUninstallState::NotApplied ==> *final(state) == *old(state) && (gone is Ok ==> r == Ok::<UninstallBoundaryState, Fault>(
            UninstallBoundaryState::Applied,
        )) && (gone is Err ==> r is Err),
        old(state).uninstall_state == InstallerUninstallState::NotApplied && old(state).stopped_service_snapshot is Some ==> (service matches Ok(found) ==> (found@.absent()
            ==> final(state).uninstall_state == InstallerUninstallState::AppliedPendingVerification
            && (gone is Ok ==> r == Ok::<UninstallBoundaryState, Fault>(
            UninstallBoundaryState::Applied,
        )))),
        old(state).uninstall_state == InstallerUninstallState::NotApplied ==> (old(state).stopped_service_snapshot matches Some(prior) ==> (service matches Ok(found) ==> (
        !found@.absent() && found@ == prior@ && stopped is Ok ==> r == Ok::<
            UninstallBoundaryState,
            Fault,
        >(UninstallBoundaryState::PriorStopped)))),
        old(state).uninstall_state == InstallerUninstallState::NotApplied ==> (old(state).stopped_service_snapshot matches Some(prior) ==> (service matches Ok(found) ==> (
        !found@.absent() && found@ != prior@ ==> r is Err && *final(state) == *old(state)))),
        old(state).uninstall_state == InstallerUninstallState::NotApplied && (old(state).stopped_service_snapshot is None || service is Err) ==> r is Err && *final(state) == *old(state),
{
}

// -- Diagnostics --

/// What is said is kept in order behind what was said before, and nothing else changes.
pub proof fn law_diagnostics_are_kept_in_order(
    state: &mut SelfUpdateDaemonRestart,
    other: &mut SelfUpdateDaemonRestart,
    settlement: RequestedGenerationSettlement,
    diagnostics: Vec<String>,
    r: Option<DaemonGeneration>,
    i: int,
)
    requires
        call_ensures(
            SelfUpdateDaemonRestart::record_lifecycle_settlement,
            (state, settlement),
            r,
        ),
        call_ensures(SelfUpdateDaemonRestart::record_diagnostics, (other, diagnostics), ()),
    ensures
        r == settlement.observed_generation,
        final(state).said().len() == old(state).said().len() + settlement.diagnostics@.len(),
        0 <= i < old(state).said().len() ==> final(state).said()[i] == old(state).said()[i],
        0 <= i < settlement.diagnostics@.len() ==> final(state).said()[old(state).said().len() + i]
            == settlement.diagnostics@[i]@,
        final(other).said().len() == old(other).said().len() + diagnostics@.len(),
        0 <= i < old(other).said().len() ==> final(other).said()[i] == old(other).said()[i],
        0 <= i < diagnostics@.len() ==> final(other).said()[old(other).said().len() + i]
            == diagnostics@[i]@,
        same_capture(*final(state), *old(state)) && same_capture(*final(other), *old(other)),
        final(state).absence_held == old(state).absence_held && final(other).absence_held == old(other).absence_held,
{
}

/// A transition is clean exactly if nothing was said, and afterwards nothing is kept;
/// one message is given in full behind its context.
pub proof fn law_a_clean_transition_said_nothing(
    state: &mut SelfUpdateDaemonRestart,
    context: &str,
    r: Result<(), Fault>,
)
    requires
        call_ensures(
            SelfUpdateDaemonRestart::require_clean_lifecycle_settlement,
            (state, context),
            r,
        ),
    ensures
        r is Ok <==> old(state).said().len() == 0,
        final(state).said().len() == 0,
        old(state).said().len() == 1 ==> (r matches Err(fault) && fault@.len() == 1 && fault@[0]
            == context@ + ": "@ + old(state).said()[0]),
        same_capture(*final(state), *old(state)) && final(state).absence_held == old(state).absence_held,
{
}

/// Of repeated failures the first and the last are kept, and how many there were.
pub proof fn law_repeated_failures_are_counted(
    diagnostics: &mut TransientDiagnostics,
    fresh: TransientDiagnostics,
    text: String,
    nothing: Vec<String>,
    said: Vec<String>,
    after: TransientDiagnostics,
)
    requires
        call_ensures(TransientDiagnostics::new, (), fresh),
        old(diagnostics).wf(),
        call_ensures(TransientDiagnostics::record, (diagnostics, text), ()),
        after == *final(diagnostics),
        call_ensures(TransientDiagnostics::into_messages, (fresh,), nothing),
        call_ensures(TransientDiagnostics::into_messages, (after,), said),
    ensures
        fresh.count == 0 && fresh.first is None && fresh.last is None && nothing@.len() == 0,
        old(diagnostics).count < usize::MAX ==> after.count == old(diagnostics).count + 1,
        old(diagnostics).count == usize::MAX ==> after.count == usize::MAX,
        old(diagnostics).count == 0 ==> owned_text(after.first) == Some(text@),
        old(diagnostics).count > 0 ==> owned_text(after.first) == owned_text(
            old(diagnostics).first,
        ),
        owned_text(after.last) == Some(text@),
        old(diagnostics).count == 0 ==> said@.len() == 1,
        said@.len() > 0 && said@[0]@ == after.first->0@,
        old(diagnostics).count > 0 && text@ != after.first->0@ ==> exists|k: int|
            0 < k < said@.len() && finishes_with(#[trigger] said@[k]@, text@),
{
    assert(texts(nothing@).len() == nothing@.len());
    assert(texts(said@).len() == said@.len());
    assert(forall|k: int| 0 <= k < said@.len() ==> #[trigger] said@[k]@ == texts(said@)[k]);
    if old(diagnostics).count > 0 && text@ != after.first->0@ {
        let front = "last transient observation: "@;
        assert(said@[1]@ == front + text@);
        assert(said@[1]@.skip(front.len() as int) =~= text@);
    }
}

/// A summary tells how many failures there were and what the last one was; there is one
/// exactly if there were failures.
pub proof fn law_failures_are_summed_up(
    diagnostics: TransientDiagnostics,
    label: &str,
    r: Option<String>,
)
    requires
        diagnostics.wf(),
        diagnostics.count == 1 ==> owned_text(diagnostics.first) == owned_text(diagnostics.last),
        call_ensures(TransientDiagnostics::into_summary, (diagnostics, label), r),
    ensures
        r is Some <==> diagnostics.count > 0,
        r matches Some(line) ==> begins_with(line@, decimal(diagnostics.count as nat)),
        r matches Some(line) ==> finishes_with(line@, diagnostics.last->0@),
{
    if let Some(line) = r {
        let last = diagnostics.last->0@;
        let number = decimal(diagnostics.count as nat);
        if diagnostics.count == 1 {
            reveal_strlit("1 ");
            assert(number =~= seq!['1']);
        }
        assert(line@.take(number.len() as int) =~= number);
        assert(line@.skip(line@.len() - last.len()) =~= last);
    }
}

// -- Looks --

/// Each look is at the executable that is meant, for the daemon that its manager may
/// own there: the one that ran for the captured service, none once it was stopped or
/// must be idle, and the one that was started.
pub proof fn law_a_look_is_at_what_is_meant(
    state: &SelfUpdateDaemonRestart,
    restarted: u32,
    captured: ServiceLook,
    ready: ServiceLook,
    stopped: ServiceLook,
    idle: ServiceLook,
    started: ServiceLook,
    last: ServiceLook,
)
    requires
        call_ensures(SelfUpdateDaemonRestart::look_at_captured_service, (state,), captured),
        call_ensures(SelfUpdateDaemonRestart::look_at_ready_service, (state,), ready),
        call_ensures(SelfUpdateDaemonRestart::look_at_stopped_service, (state,), stopped),
        call_ensures(SelfUpdateDaemonRestart::look_at_idle_service, (state,), idle),
        call_ensures(
            SelfUpdateDaemonRestart::look_at_restarted_service,
            (state, restarted),
            started,
        ),
        call_ensures(SelfUpdateDaemonRestart::look_at_final_service, (state,), last),
    ensures
        captured.owner == Owner::Initial && ready.owner == Owner::Initial,
        stopped.owner == state.service_executable && idle.owner == state.service_executable
            && started.owner == state.service_executable && last.owner == state.service_executable,
        state.initial_launch_mechanism == InitialLaunchMechanism::ServiceManager
            ==> captured.daemon == state.initial_pid && ready.daemon is None,
        state.initial_launch_mechanism != InitialLaunchMechanism::ServiceManager
            ==> captured.daemon is None && ready.daemon
            == state.initial_service_snapshot@.manager_pid,
        idle.daemon is None && started.daemon == Some(restarted),
        state.stopped_service_snapshot is None ==> stopped.daemon is None,
        state.stopped_service_snapshot matches Some(snapshot) ==> stopped.daemon
            == snapshot@.manager_pid,
        state.uninstall_state != InstallerUninstallState::NotApplied ==> last.daemon is None,
        state.uninstall_state == InstallerUninstallState::NotApplied ==> (
        state.expected_service_snapshot matches Some(snapshot) ==> last.daemon
            == snapshot@.manager_pid),
        state.uninstall_state == InstallerUninstallState::NotApplied
            && state.expected_service_snapshot is None ==> last.daemon
            == state.initial_service_snapshot@.manager_pid,
{
}

/// An executable is looked at by its token exactly where one is expected there.
pub proof fn law_an_expected_executable_is_read(
    state: &SelfUpdateDaemonRestart,
    initial: FileLook,
    last: FileLook,
)
    requires
        call_ensures(SelfUpdateDaemonRestart::look_at_initial_executable, (state,), initial),
        call_ensures(SelfUpdateDaemonRestart::look_at_final_executable, (state,), last),
    ensures
        initial.owner == Owner::Initial && last.owner == state.executable,
        initial.token <==> state.initial_executable_state is Present,
        last.token <==> state.expected_executable_token is Some,
{
}

/// While the state is captured, the manager may own the daemon that was just seen, and
/// no other.
pub proof fn law_the_seen_daemon_may_be_owned(
    identity: &Result<Option<DaemonSight>, Fault>,
    r: Option<u32>,
)
    requires
        call_ensures(captured_daemon, (identity,), r),
    ensures
        *identity matches Ok(Some(sight)) ==> r == Some(sight.pid),
        *identity is Err ==> r is None,
        *identity matches Ok(None) ==> r is None,
{
}

/// Two executables differ exactly if they are not the same one and lie at different
/// paths.
pub proof fn law_paths_differ_between_executables(
    state: &SelfUpdateDaemonRestart,
    a: Owner,
    b: Owner,
    ab: bool,
    ba: bool,
)
    requires
        call_ensures(SelfUpdateDaemonRestart::paths_differ, (state, a, b), ab),
        call_ensures(SelfUpdateDaemonRestart::paths_differ, (state, b, a), ba),
    ensures
        ab == ba,
        a == b ==> !ab,
        state.paths_match ==> !ab,
        a != b && !state.paths_match ==> ab,
{
}

/// Two generations are the same exactly if their process and their token are, or there
/// is none in both.
pub proof fn law_generations_are_compared_whole(
    a: &Option<DaemonGeneration>,
    b: &Option<DaemonGeneration>,
    r: bool,
)
    requires
        call_ensures(same_generation, (a, b), r),
    ensures
        *a is None && *b is None ==> r,
        a.is_some() != b.is_some() ==> !r,
        *a matches Some(x) ==> (*b matches Some(y) ==> (r <==> x.pid == y.pid && x.generation@
            == y.generation@)),
{
}

/// Where there was no executable, none may be there; where there was one, the very file
/// or the very bytes must be.
pub proof fn law_the_captured_executable_is_required(
    path: &str,
    expected: &InitialExecutableState,
    exact: bool,
    look: ExecutableLook,
    r: Result<(), Fault>,
)
    requires
        call_ensures(require_captured_executable_state, (path, expected, exact, look), r),
    ensures
        *expected == InitialExecutableState::Absent ==> (r is Ok <==> look
            == ExecutableLook::Presence(Ok(false))),
        *expected matches InitialExecutableState::Present(token) ==> (r is Ok <==> (look matches
            ExecutableLook::Token(Ok(found)) && found@.digest == token@.digest && (exact
            ==> found@ == token@))),
        look matches ExecutableLook::Token(Err(error)) ==> (*expected is Present ==> (r matches Err(
            fault,
        ) && stems_from(fault@, error@))),
{
}

/// A daemon whose looks all agree is captured.
pub proof fn law_an_agreeing_system_is_captured(
    executable: crate::host_path::HostPath,
    token: FileToken,
    sight: DaemonSight,
    generation: DaemonGeneration,
    service: ServiceStateSnapshot,
    looks: CaptureLooks,
)
    requires
        crate::service_owner::executable_problem(executable) is None,
        looks.token == Ok::<Option<FileToken>, Fault>(Some(token)),
        looks.token_after == looks.token,
        looks.identity == Ok::<Option<DaemonSight>, Fault>(Some(sight)),
        looks.identity_after == looks.identity,
        sight.validation matches Ok(running) && running@ == token@,
        looks.generation == Ok::<Option<DaemonGeneration>, Fault>(Some(generation)),
        looks.generation_after == looks.generation,
        generation.pid == sight.pid,
        looks.service == Ok::<ServiceStateSnapshot, Fault>(service),
        service@.manager_pid is None || service@.manager_pid == Some(sight.pid),
    ensures
        crate::lifecycle::capture_problem(executable, looks) is None,
{
}

// -- The boundary --

/// A request to stop counts exactly once it was issued.
pub proof fn law_an_issued_request_counts<T>(
    state: &mut InitialGenerationStopState,
    request: Result<T, Fault>,
    r: Result<T, Fault>,
    reusable: bool,
)
    requires
        call_ensures(InitialGenerationStopState::record_issued::<T>, (state, request), r),
        call_ensures(
            InitialGenerationStopState::can_reuse_observed_generation,
            (*final(state),),
            reusable,
        ),
    ensures
        r == request,
        reusable <==> *old(state) == InitialGenerationStopState::NotRequested && request is Err,
{
}

/// A removal counts as applied from when it is marked, before and after it is verified.
pub proof fn law_a_marked_removal_is_applied(
    state: &mut InstallerUninstallState,
    other: &mut InstallerUninstallState,
    applied: bool,
    verified: bool,
)
    requires
        call_ensures(InstallerUninstallState::mark_applied, (state,), ()),
        call_ensures(InstallerUninstallState::is_applied, (*final(state),), applied),
        call_ensures(InstallerUninstallState::mark_ready, (other,), ()),
        call_ensures(InstallerUninstallState::is_applied, (*final(other),), verified),
    ensures
        applied && verified,
        *final(state) != *final(other),
{
}

/// A conversation begins by reporting that the daemon is stopped.
pub proof fn law_a_conversation_begins_stopped(phase: &mut InstallerBoundaryPhase, r: BoundaryStage)
    requires
        call_ensures(begin_installer_daemon_boundary, (phase,), r),
    ensures
        *final(phase) == InstallerBoundaryPhase::Stopped,
        r matches BoundaryStage::Publish { marker, .. } && marker == BoundaryMarker::Ready,
{
}

/// An update starts its replacement from a stopped daemon, verifies it before it is
/// released, and can stop it until then; what was prior is restored only while no
/// replacement runs.
pub proof fn law_an_update_asks_in_order(
    client: &mut SelfUpdateDaemonBoundaryClient,
    request: ClientRequest,
    r: Result<&'static str, Fault>,
)
    requires
        call_ensures(SelfUpdateDaemonBoundaryClient::ask, (client, request), r),
    ensures
        r is Err ==> *final(client) == *old(client),
        request is RestartReplacement ==> (r is Ok <==> old(client).phase
            == SelfUpdateBoundaryClientPhase::Stopped),
        request is VerifyReplacement ==> (r is Ok <==> old(client).phase
            == SelfUpdateBoundaryClientPhase::NewReady),
        request is Release ==> (r is Ok <==> old(client).phase
            == SelfUpdateBoundaryClientPhase::FinalConfirmed),
        request is StopReplacement ==> (r is Ok <==> old(client).phase
            == SelfUpdateBoundaryClientPhase::NewReady || old(client).phase
            == SelfUpdateBoundaryClientPhase::FinalConfirmed),
        request is RestorePrior ==> (r is Ok <==> old(client).phase
            == SelfUpdateBoundaryClientPhase::Stopped || old(client).phase
            == SelfUpdateBoundaryClientPhase::ReplacementFailedStopped),
        r matches Ok(word) ==> {
            &&& request is RestartReplacement ==> word@ == "new"@
            &&& request is RestorePrior ==> word@ == "rollback"@
            &&& request is StopReplacement ==> word@ == "abort"@
            &&& request is VerifyReplacement ==> word@ == "finish"@
            &&& request is Release ==> word@ == "release"@
        },
{
}

/// What a client takes for running, verified, finished or open is told by its phase:
/// a replacement runs from when it is ready, and after it was asked for the state is
/// open until it is answered.
pub proof fn law_a_clients_phase_is_told(
    client: &SelfUpdateDaemonBoundaryClient,
    running: bool,
    verified: bool,
    finished: bool,
    open: bool,
)
    requires
        call_ensures(
            SelfUpdateDaemonBoundaryClient::replacement_is_running,
            (client,),
            running,
        ),
        call_ensures(
            SelfUpdateDaemonBoundaryClient::replacement_is_finally_verified,
            (client,),
            verified,
        ),
        call_ensures(SelfUpdateDaemonBoundaryClient::is_finished, (client,), finished),
        call_ensures(
            SelfUpdateDaemonBoundaryClient::transition_is_ambiguous,
            (client,),
            open,
        ),
    ensures
        client.phase == SelfUpdateBoundaryClientPhase::Stopped ==> !running && !verified
            && !finished && !open,
        client.phase == SelfUpdateBoundaryClientPhase::NewReady ==> running && !verified
            && !finished && !open,
        client.phase == SelfUpdateBoundaryClientPhase::FinalConfirmed ==> running && verified
            && !finished && !open,
        client.phase == SelfUpdateBoundaryClientPhase::Finished ==> !running && !verified
            && finished && !open,
        client.phase == SelfUpdateBoundaryClientPhase::ReplacementFailedStopped ==> !running
            && !verified && !finished && !open,
        client.phase == SelfUpdateBoundaryClientPhase::ReplacementTransition || client.phase
            == SelfUpdateBoundaryClientPhase::RollbackTransition || client.phase
            == SelfUpdateBoundaryClientPhase::AbortTransition || client.phase
            == SelfUpdateBoundaryClientPhase::FinishTransition || client.phase
            == SelfUpdateBoundaryClientPhase::ReleaseTransition ==> open,
{
}

// -- The daemon's state --

/// A poll is due exactly if no suspension lies ahead; a suspension that has ended is
/// forgotten, and nothing else changes.
pub proof fn law_a_poll_is_due_after_its_suspension(state: &mut DaemonState, now: i64, r: bool)
    requires
        call_ensures(DaemonState::begin_poll, (state, now), r),
    ensures
        r <==> (old(state).backoff_until matches Some(until) ==> until <= now),
        final(state).backoff_until == (if r {
            None
        } else {
            old(state).backoff_until
        }),
        final(state).consecutive_failures == old(state).consecutive_failures
            && final(state).last_error == old(state).last_error && final(state).last_poll_at == old(state).last_poll_at && final(state).last_switch == old(state).last_switch
            && final(state).pending_switch == old(state).pending_switch,
{
}

/// A poll that succeeded leaves no failure behind; a switch is recorded with its time,
/// and one that waits keeps the time since when it waits.
pub proof fn law_a_success_is_kept(
    state: &mut DaemonState,
    outcome: PollOutcome,
    polled_at: i64,
    now: i64,
)
    requires
        call_ensures(DaemonState::poll_succeeded, (state, outcome, polled_at, now), ()),
    ensures
        final(state).consecutive_failures == 0 && final(state).last_error is None
            && final(state).last_poll_at == Some(polled_at),
        outcome matches PollOutcome::Switched { from, to } ==> final(state).last_switch == Some(
            SwitchRecord { from, to, at: now },
        ) && final(state).pending_switch is None,
        outcome is NoAction ==> final(state).last_switch == old(state).last_switch
            && final(state).pending_switch is None,
        outcome matches PollOutcome::Deferred { to } ==> (final(state).pending_switch matches Some(
            pending,
        ) && pending.to == to && final(state).last_switch == old(state).last_switch && (old(state).pending_switch matches Some(before) ==> (before.to@ == to@ ==> pending.since
            == before.since) && (before.to@ != to@ ==> pending.since == now)) && (old(state).pending_switch is None ==> pending.since == now)),
{
}

/// What only marks a time changes nothing else.
pub proof fn law_marks_change_only_their_time(a: &mut DaemonState, b: &mut DaemonState, now: i64)
    requires
        call_ensures(DaemonState::cache_refreshed, (a, now), ()),
        call_ensures(DaemonState::touched, (b, now), ()),
    ensures
        final(a).last_cache_refresh_at == Some(now) && final(a).updated_at == old(a).updated_at,
        final(b).updated_at == now && final(b).last_cache_refresh_at == old(b).last_cache_refresh_at,
        final(a).backoff_until == old(a).backoff_until && final(b).backoff_until == old(b).backoff_until,
        final(a).consecutive_failures == old(a).consecutive_failures && final(b).consecutive_failures == old(b).consecutive_failures,
        final(a).pending_switch == old(a).pending_switch && final(b).pending_switch == old(b).pending_switch,
{
}

} // verus!
