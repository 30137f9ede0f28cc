//! What handing the daemon over across an update is for: it is stopped the way it
//! was launched, started again the same way, and brought back where that fails.
use vstd::prelude::*;

use crate::boundary_phase::{
    FailedStopRestoration, InitialGenerationStopState, InitialLaunchMechanism,
    InstallerUninstallState,
};
use crate::boundary_protocol::{InstallerRollbackTransition, InstallerUninstallTransition};
use crate::cause::fails_because;
use crate::daemon_identity::DaemonSight;
use crate::fault::Fault;
use crate::fs_ops::FileToken;
use crate::host_path::{HostPath, Platform};
use crate::lifecycle::{
    captured_executable_problem, CaptureLooks, ExecutableLook, InitialExecutableState, Owner,
    SelfUpdateDaemonRestart,
};
use crate::lifecycle_checks::{
    absent_service_problem, service_state_problem, service_stopped_problem, FinalLooks,
    StoppedLooks,
};
use crate::lifecycle_restart::{
    rollback_restart_next, start_way, update_restart_next, RollbackRestartStage, StartWay, UpdateRestartStage,
};
use crate::lifecycle_restore::{
    failed_stop_next, prior_next, restore_next, FailedStopStage, PriorStage,
    RestoreStage,
};
use crate::lifecycle_steps::{
    absence_next, reestablish_next, stop_next, AbsenceStage, LifecycleReply, LifecycleStep,
    ReestablishStage, StopStage,
};
use crate::lifecycle_uninstall::{prepare_next, PrepareStage};
use crate::service_owner::executable_problem;
use crate::service_state::{
    ExactServiceUninstallOutcome, ServiceStateSnapshot, ServiceStateView,
};
use crate::settlement::{
    optional_generation, DaemonGeneration, InstallerContenderResolution,
};

verus! {

// -- Stopping before the update --

/// A daemon that its manager runs is stopped by that manager on every system but
/// Windows, macOS as well as Linux: a manager that was not asked would bring the
/// daemon back. The daemon itself is asked only where no manager runs it, or on
/// Windows.
pub proof fn law_a_managed_daemon_is_stopped_by_its_manager(
    platform: Platform,
    state: &SelfUpdateDaemonRestart,
    step: LifecycleStep<StopStage, ()>,
)
    requires
        call_ensures(SelfUpdateDaemonRestart::begin_stop_before_update, (state, platform), step),
        !state.absence_held,
        state.initial_pid is Some,
    ensures
        platform != Platform::Windows && state.initial_launch_mechanism
            == InitialLaunchMechanism::ServiceManager <==> step == LifecycleStep::<
            StopStage,
            (),
        >::Await(StopStage::StopManager),
        step == LifecycleStep::<StopStage, ()>::Await(StopStage::IssueStop) ==> platform
            == Platform::Windows || state.initial_launch_mechanism
            != InitialLaunchMechanism::ServiceManager,
        (platform == Platform::Windows || state.initial_launch_mechanism
            != InitialLaunchMechanism::ServiceManager) && state.initial_generation is Some ==> step
            == LifecycleStep::<StopStage, ()>::Await(StopStage::IssueStop),
        !(step matches LifecycleStep::Finished(Ok(_))),
{
}

/// Which system other than Windows it is makes no difference to how the daemon is
/// stopped.
pub proof fn law_every_other_system_stops_alike(
    a: Platform,
    b: Platform,
    state: &SelfUpdateDaemonRestart,
    s: LifecycleStep<StopStage, ()>,
    t: LifecycleStep<StopStage, ()>,
)
    requires
        call_ensures(SelfUpdateDaemonRestart::begin_stop_before_update, (state, a), s),
        call_ensures(SelfUpdateDaemonRestart::begin_stop_before_update, (state, b), t),
        a != Platform::Windows,
        b != Platform::Windows,
    ensures
        s is Await == t is Await,
        s is Await ==> s->Await_0 == t->Await_0,
{
}

/// Nothing is stopped where nothing runs: an absence that is held ends the stop, and
/// without a daemon it goes straight on to acquire the absence.
pub proof fn law_nothing_is_stopped_where_nothing_runs(
    platform: Platform,
    state: &SelfUpdateDaemonRestart,
    step: LifecycleStep<StopStage, ()>,
)
    requires
        call_ensures(SelfUpdateDaemonRestart::begin_stop_before_update, (state, platform), step),
    ensures
        state.absence_held <==> (step matches LifecycleStep::Finished(Ok(_))),
        !state.absence_held && state.initial_pid is None ==> step == LifecycleStep::<
            StopStage,
            (),
        >::Await(StopStage::Reacquire),
{
}

/// A stop that is given what it asks for goes on until the absence is acquired and
/// the stopped service is recorded. It ends well only then, and with no doubt left.
pub proof fn law_a_stop_goes_on_to_absence(
    before: SelfUpdateDaemonRestart,
    stage: StopStage,
    reply: LifecycleReply,
    after: SelfUpdateDaemonRestart,
    step: LifecycleStep<StopStage, ()>,
)
    requires
        stop_next(before, stage, reply, after, step),
    ensures
        stage is StopManager ==> (reply matches LifecycleReply::ManagerStop { requested, stopped }
            ==> {
            &&& requested ==> after.initial_stop_state
                == InitialGenerationStopState::MayHaveBeenRequested
            &&& requested && before.initial_generation is Some ==> (step matches
                LifecycleStep::Await(StopStage::SettleManager { stopped: s }) && s == stopped)
            &&& !requested && stopped == Ok::<bool, Fault>(true) ==> step == LifecycleStep::<
                StopStage,
                (),
            >::Await(StopStage::Reacquire)
            &&& !requested && stopped != Ok::<bool, Fault>(true) ==> (step matches
                LifecycleStep::Finished(Err(_)))
        }),
        stage matches StopStage::SettleManager { stopped } ==> (reply is Settled ==> {
            &&& stopped == Ok::<bool, Fault>(true) ==> step == LifecycleStep::<
                StopStage,
                (),
            >::Await(StopStage::Reacquire)
            &&& stopped == Ok::<bool, Fault>(false) ==> (step matches LifecycleStep::Finished(
                Err(_),
            ))
            &&& stopped matches Err(error) ==> fails_because(step, error)
        }),
        stage is IssueStop && (reply matches LifecycleReply::Done(Ok(_))) ==> step
            == LifecycleStep::<StopStage, ()>::Await(StopStage::SettleIssued)
            && after.initial_stop_state == InitialGenerationStopState::MayHaveBeenRequested,
        stage is SettleIssued && reply is Settled ==> step == LifecycleStep::<
            StopStage,
            (),
        >::Await(StopStage::Reacquire),
        stage is Reacquire && (reply matches LifecycleReply::Done(Ok(_))) ==> step
            == LifecycleStep::<StopStage, ()>::Await(StopStage::Record),
        stage is Record ==> (reply matches LifecycleReply::Services { ready, observed } ==> (
        before.stopped_snapshot_problem(Some(ready), observed) is None ==> (observed matches Ok(
            snapshot,
        ) ==> after.stopped_service_snapshot == Some(snapshot)) && (before.said().len() == 0 ==> (
        step matches LifecycleStep::Finished(Ok(_)))) && (before.said().len() > 0 ==> (step matches
            LifecycleStep::Finished(Err(_)))))),
        step matches LifecycleStep::Finished(Ok(_)) ==> stage is Record,
        stage is IssueStop || stage is Reacquire ==> (reply matches LifecycleReply::Done(Err(error))
            ==> fails_because(step, error)),
        after.initial_pid == before.initial_pid && after.initial_generation
            == before.initial_generation,
{
}

// -- Acquiring absence --

/// Whoever contends for the daemon's place is stopped, exactly that one, and the
/// contention begins anew until none is left; the absence is then held.
pub proof fn law_contenders_are_stopped_until_none_is_left(
    before: SelfUpdateDaemonRestart,
    stage: AbsenceStage,
    reply: LifecycleReply,
    after: SelfUpdateDaemonRestart,
    step: LifecycleStep<AbsenceStage, ()>,
)
    requires
        absence_next(before, stage, reply, after, step),
    ensures
        stage is Contend ==> (reply matches LifecycleReply::Contender(settlement) ==> {
            &&& settlement.resolution is Absence ==> after.absence_held && (step matches
                LifecycleStep::Finished(Ok(_)))
            &&& settlement.resolution matches InstallerContenderResolution::Published(found) ==> (
            step matches LifecycleStep::Await(AbsenceStage::Stop { target }) && target == found)
                && after.absence_held == before.absence_held
        }),
        stage matches AbsenceStage::Stop { target } ==> {
            &&& (reply matches LifecycleReply::Stopped(Ok(_))) ==> (step matches
                LifecycleStep::Await(AbsenceStage::Contend { expected }) && expected == Some(
                target,
            ))
            &&& reply matches LifecycleReply::Stopped(Err(error)) ==> fails_because(step, error)
        },
        stage is VerifyHeld ==> {
            &&& (reply matches LifecycleReply::Done(Ok(_))) ==> (step matches
                LifecycleStep::Finished(Ok(_)))
            &&& reply matches LifecycleReply::Done(Err(error)) ==> fails_because(step, error)
        },
        before.absence_held ==> after.absence_held,
{
}

/// An absence that is held is only verified; otherwise contending begins.
pub proof fn law_a_held_absence_is_only_verified(
    state: &SelfUpdateDaemonRestart,
    expected: Option<DaemonGeneration>,
    stage: AbsenceStage,
)
    requires
        call_ensures(SelfUpdateDaemonRestart::begin_absence, (state, expected), stage),
    ensures
        stage is VerifyHeld <==> state.absence_held,
        stage matches AbsenceStage::Contend { expected: e } ==> e == expected,
        !(stage is Stop),
{
}

// -- Stopping after a failed restart --

/// After a failed restart whoever runs the daemon is told to stop it: the manager
/// where it was a managed one, in the way of the system, and the generation that was
/// seen itself otherwise. What the manager leaves running is stopped as well.
pub proof fn law_a_failed_restart_is_stopped_where_it_runs(
    platform: Platform,
    before: SelfUpdateDaemonRestart,
    stage: ReestablishStage,
    reply: LifecycleReply,
    after: SelfUpdateDaemonRestart,
    step: LifecycleStep<ReestablishStage, ()>,
)
    requires
        reestablish_next(platform, before, stage, reply, after, step),
    ensures
        stage == (ReestablishStage::LookGeneration { alternative: None }) ==> (reply matches
            LifecycleReply::Generation(Ok(seen)) ==> if before.initial_launch_mechanism
            == InitialLaunchMechanism::ServiceManager {
            match platform {
                Platform::Windows => step matches LifecycleStep::Await(
                    ReestablishStage::StopFailedStart { observed },
                ) && observed == seen,
                Platform::Other => step matches LifecycleStep::Await(
                    ReestablishStage::StopInstalled { observed },
                ) && observed == seen,
                _ => step matches LifecycleStep::Await(ReestablishStage::StopManager { observed })
                    && observed == seen,
            }
        } else {
            match seen {
                Some(found) => step matches LifecycleStep::Await(
                    ReestablishStage::StopObserved { target },
                ) && target == found,
                None => step == LifecycleStep::<ReestablishStage, ()>::Await(
                    ReestablishStage::Reacquire { expected: None },
                ),
            }
        }),
        stage matches ReestablishStage::LookGeneration { alternative: Some(owner) } ==> (reply
            matches LifecycleReply::Generation(Ok(seen)) ==> (before.initial_launch_mechanism
            == InitialLaunchMechanism::ServiceManager ==> (step matches LifecycleStep::Await(
            ReestablishStage::Classify { alternative, observed },
        ) && alternative == owner && observed == seen))),
        stage matches ReestablishStage::StopManager { observed } ==> ((reply matches
            LifecycleReply::Done(Ok(_))) ==> step == LifecycleStep::<ReestablishStage, ()>::Await(
            ReestablishStage::LookAgain { observed },
        )),
        stage matches ReestablishStage::LookAgain { observed } ==> (reply matches
            LifecycleReply::Generation(Ok(left)) ==> match left {
            Some(target) => step == LifecycleStep::<ReestablishStage, ()>::Await(
                ReestablishStage::StopAgain { target, observed },
            ),
            None => step == LifecycleStep::<ReestablishStage, ()>::Await(
                ReestablishStage::ValidateOwner { observed },
            ),
        }),
        stage matches ReestablishStage::StopAgain { target, observed } ==> ((reply matches
            LifecycleReply::Stopped(Ok(_))) ==> step == LifecycleStep::<
            ReestablishStage,
            (),
        >::Await(ReestablishStage::ValidateOwner { observed })),
        stage matches ReestablishStage::ValidateOwner { observed } ==> ((reply matches
            LifecycleReply::Done(Ok(_))) ==> step == LifecycleStep::<ReestablishStage, ()>::Await(
            ReestablishStage::Reacquire { expected: observed },
        )),
        stage matches ReestablishStage::StopFailedStart { observed } ==> ((reply matches
            LifecycleReply::Done(Ok(_))) ==> step == LifecycleStep::<ReestablishStage, ()>::Await(
            ReestablishStage::Reacquire { expected: observed },
        )),
        stage matches ReestablishStage::StopInstalled { observed } ==> ((reply matches
            LifecycleReply::Done(Ok(_))) ==> step == LifecycleStep::<ReestablishStage, ()>::Await(
            ReestablishStage::Reacquire { expected: observed },
        )),
        stage matches ReestablishStage::StopObserved { target } ==> ((reply matches
            LifecycleReply::Stopped(Ok(_))) ==> step == LifecycleStep::<
            ReestablishStage,
            (),
        >::Await(ReestablishStage::Reacquire { expected: Some(target) })),
        stage is Reacquire && (reply matches LifecycleReply::Done(Ok(_))) ==> step
            == LifecycleStep::<ReestablishStage, ()>::Await(ReestablishStage::Record),
        step matches LifecycleStep::Finished(Ok(_)) ==> stage is Record || stage is VerifyHeld,
        stage is Record && (step matches LifecycleStep::Finished(Ok(_))) ==> after.restarted_pid
            is None && after.stopped_service_snapshot is Some,
        stage is Record ==> (reply matches LifecycleReply::Service(observed) ==> (
        before.stopped_snapshot_problem(None, observed) is None && before.said().len() == 0 ==> (
        step matches LifecycleStep::Finished(Ok(_))))),
        stage is StopManager || stage is StopInstalled || stage is StopFailedStart
            || stage is ValidateOwner || stage is Reacquire || stage is VerifyHeld ==> (reply matches
            LifecycleReply::Done(Err(error)) ==> fails_because(step, error)),
        stage is StopAgain || stage is StopObserved ==> (reply matches LifecycleReply::Stopped(
            Err(error),
        ) ==> fails_because(step, error)),
        stage is LookGeneration || stage is LookAgain ==> (reply matches
            LifecycleReply::Generation(Err(error)) ==> fails_because(step, error)),
{
}

// -- Restarting after an update --

/// A daemon is started the way it was launched: outside the service exactly if it
/// ran there, and else as the service, which is installed anew exactly where it
/// belongs to another executable and the system can move it.
pub proof fn law_a_daemon_is_started_as_it_was_launched(
    platform: Platform,
    state: SelfUpdateDaemonRestart,
    executable: Owner,
)
    ensures
        start_way(platform, state, executable) == StartWay::Detached
            <==> state.initial_launch_mechanism != InitialLaunchMechanism::ServiceManager,
        start_way(platform, state, executable) == StartWay::Install
            <==> state.initial_launch_mechanism == InitialLaunchMechanism::ServiceManager
            && platform != Platform::Windows && state.service_executable != executable
            && !state.paths_match,
        start_way(platform, state, state.service_executable) != StartWay::Install,
{
}

/// A restart after an update begins unless the service is already being removed or
/// the replacement cannot be an executable.
pub proof fn law_a_restart_after_an_update_begins(
    state: &SelfUpdateDaemonRestart,
    step: LifecycleStep<UpdateRestartStage, ()>,
)
    requires
        call_ensures(
            SelfUpdateDaemonRestart::begin_restart_after_installer_update,
            (state,),
            step,
        ),
    ensures
        state.uninstall_state == InstallerUninstallState::NotApplied && executable_problem(
            state.replacement_executable,
        ) is None <==> step == LifecycleStep::<UpdateRestartStage, ()>::Await(
            UpdateRestartStage::BindReplacement,
        ),
        !(step matches LifecycleStep::Finished(Ok(_))),
{
}

/// A daemon that ran before an update runs again after it: its replacement is bound,
/// the absence given up, the replacement started, seen, recorded and verified. One
/// that did not run stays stopped, and the final state is verified all the same.
pub proof fn law_a_daemon_that_ran_is_restarted(
    platform: Platform,
    before: SelfUpdateDaemonRestart,
    stage: UpdateRestartStage,
    reply: LifecycleReply,
    after: SelfUpdateDaemonRestart,
    step: LifecycleStep<UpdateRestartStage, ()>,
)
    requires
        update_restart_next(platform, before, stage, reply, after, step),
    ensures
        stage is BindReplacement ==> (reply matches LifecycleReply::Token(Ok(token)) ==> {
            &&& after.executable == Owner::Replacement && after.expected_executable_token == Some(
                token,
            )
            &&& !(before.service_installed && before.service_executable != Owner::Replacement
                && !before.paths_match) ==> if before.initial_pid is Some && before.restarted_pid
                is None {
                step == LifecycleStep::<UpdateRestartStage, ()>::Await(
                    UpdateRestartStage::Release { token },
                )
            } else {
                step == LifecycleStep::<UpdateRestartStage, ()>::Await(
                    UpdateRestartStage::VerifyFinal,
                )
            }
            &&& before.initial_launch_mechanism == InitialLaunchMechanism::ServiceManager
                && platform != Platform::Windows && before.initial_pid is Some
                && before.restarted_pid is None ==> step == LifecycleStep::<
                UpdateRestartStage,
                (),
            >::Await(UpdateRestartStage::Release { token })
            &&& before.initial_pid is None ==> !(step matches LifecycleStep::Await(
                UpdateRestartStage::Release { .. },
            ))
        }),
        stage matches UpdateRestartStage::Release { token: bound } ==> {
            &&& reply is Done ==> !after.absence_held
            &&& before.absence_held && (reply matches LifecycleReply::Done(Ok(_))) ==> (step matches
                LifecycleStep::Await(UpdateRestartStage::Start { way, token }) && token == bound
                && way == start_way(platform, before, Owner::Replacement))
            &&& !before.absence_held ==> (step matches LifecycleStep::Finished(Err(_)))
        },
        stage matches UpdateRestartStage::Start { way, token } ==> ((reply matches
            LifecycleReply::Done(Ok(_))) ==> step == LifecycleStep::<UpdateRestartStage, ()>::Await(
            UpdateRestartStage::LookStarted { token },
        ) && (before.initial_launch_mechanism == InitialLaunchMechanism::ServiceManager
            ==> after.service_executable == Owner::Replacement)),
        stage matches UpdateRestartStage::LookStarted { token: bound } ==> (reply matches
            LifecycleReply::Sight(Ok(Some(sight))) ==> (sight.validation is Ok ==> (step matches
            LifecycleStep::Await(UpdateRestartStage::Rebind { pid, token }) && pid == sight.pid
            && token == bound))),
        stage matches UpdateRestartStage::LookStarted { token: bound } ==> (reply
            == LifecycleReply::Sight(Ok(None)) ==> (step matches LifecycleStep::Finished(Err(_)))),
        stage matches UpdateRestartStage::Rebind { pid, token } ==> (reply matches
            LifecycleReply::Token(Ok(again)) ==> if again@ == token@ {
            step == LifecycleStep::<UpdateRestartStage, ()>::Await(
                UpdateRestartStage::RecordService { pid },
            )
        } else {
            step matches LifecycleStep::Finished(Err(_))
        }),
        stage matches UpdateRestartStage::RecordService { pid } ==> (reply matches
            LifecycleReply::Service(observed) ==> (before.restarted_service_problem(pid, observed)
            is None ==> after.restarted_pid == Some(pid) && (observed matches Ok(snapshot)
            ==> after.expected_service_snapshot == Some(snapshot)) && step == LifecycleStep::<
            UpdateRestartStage,
            (),
        >::Await(UpdateRestartStage::VerifyFinal))),
        stage is VerifyFinal && (reply matches LifecycleReply::Done(Ok(_))) <==> (step matches
            LifecycleStep::Finished(Ok(_))),
        after.initial_pid == before.initial_pid && after.initial_launch_mechanism
            == before.initial_launch_mechanism,
{
}

/// A restart after an update fails with whatever failed; where a managed service
/// may have changed hands its owner is asked first.
pub proof fn law_a_failed_restart_says_why(
    platform: Platform,
    before: SelfUpdateDaemonRestart,
    stage: UpdateRestartStage,
    reply: LifecycleReply,
    after: SelfUpdateDaemonRestart,
    step: LifecycleStep<UpdateRestartStage, ()>,
)
    requires
        update_restart_next(platform, before, stage, reply, after, step),
    ensures
        stage is BindReplacement || stage is Rebind ==> (reply matches LifecycleReply::Token(
            Err(error),
        ) ==> fails_because(step, error)),
        stage is Release && before.absence_held ==> (reply matches LifecycleReply::Done(Err(error))
            ==> fails_because(step, error)),
        stage is Start ==> (reply matches LifecycleReply::Done(Err(cause)) ==> if before
            .initial_launch_mechanism == InitialLaunchMechanism::ServiceManager && before
            .service_executable != Owner::Replacement && !before.paths_match {
            step matches LifecycleStep::Await(UpdateRestartStage::ClassifyAfterFailure { error })
                && error == cause
        } else {
            fails_because(step, cause)
        }),
        stage matches UpdateRestartStage::ClassifyAfterFailure { error } ==> !(step matches
            LifecycleStep::Finished(Ok(_))) && !(step is Await),
        stage is LookStarted ==> (reply matches LifecycleReply::Sight(Err(error)) ==> fails_because(
            step,
            error,
        )),
        stage is VerifyFinal ==> (reply matches LifecycleReply::Done(Err(error)) ==> fails_because(
            step,
            error,
        )),
{
}

// -- Restarting after a rollback --

/// A daemon that ran before an update that was rolled back runs again, from exactly
/// the executable that was captured; one that did not run stays stopped.
pub proof fn law_a_rollback_restarts_the_original_daemon(
    platform: Platform,
    before: SelfUpdateDaemonRestart,
    stage: RollbackRestartStage,
    reply: LifecycleReply,
    after: SelfUpdateDaemonRestart,
    step: LifecycleStep<RollbackRestartStage, ()>,
)
    requires
        rollback_restart_next(platform, before, stage, reply, after, step),
    ensures
        stage is CheckContents ==> (reply matches LifecycleReply::Executable(look) ==> (
        captured_executable_problem(
            before.initial_executable.display@,
            before.initial_executable_state,
            false,
            look,
        ) is None <==> step == LifecycleStep::<RollbackRestartStage, ()>::Await(
            RollbackRestartStage::BindInitial,
        )) && (step is Await ==> after.executable == Owner::Initial)),
        stage is BindInitial ==> (reply matches LifecycleReply::Present(Ok(token)) ==> {
            &&& after.expected_executable_token == token && after.expected_service_snapshot is None
            &&& before.initial_pid is None ==> step == LifecycleStep::<
                RollbackRestartStage,
                (),
            >::Await(RollbackRestartStage::VerifyFinal)
            &&& before.initial_pid is Some && before.initial_launch_mechanism
                == InitialLaunchMechanism::ServiceManager ==> step == LifecycleStep::<
                RollbackRestartStage,
                (),
            >::Await(RollbackRestartStage::Classify)
            &&& before.initial_pid is Some && before.initial_launch_mechanism
                != InitialLaunchMechanism::ServiceManager ==> step == LifecycleStep::<
                RollbackRestartStage,
                (),
            >::Await(RollbackRestartStage::Release)
        }),
        stage is Classify && platform != Platform::Windows && step is Await ==> step
            == LifecycleStep::<RollbackRestartStage, ()>::Await(RollbackRestartStage::Release),
        stage is Release ==> {
            &&& reply is Done ==> !after.absence_held
            &&& before.absence_held && (reply matches LifecycleReply::Done(Ok(_))) ==> (step matches
                LifecycleStep::Await(RollbackRestartStage::Start { way }) && way == start_way(
                platform,
                before,
                Owner::Initial,
            ))
            &&& !before.absence_held ==> (step matches LifecycleStep::Finished(Err(_)))
        },
        stage is Start && (reply matches LifecycleReply::Done(Ok(_))) ==> step == LifecycleStep::<
            RollbackRestartStage,
            (),
        >::Await(RollbackRestartStage::LookStarted) && after.service_executable == Owner::Initial,
        stage is LookStarted ==> (reply matches LifecycleReply::Sight(Ok(Some(sight))) ==> (
        sight.validation is Ok ==> (step matches LifecycleStep::Await(
            RollbackRestartStage::RecordService { pid },
        ) && pid == sight.pid))),
        stage is LookStarted && reply == LifecycleReply::Sight(Ok(None)) ==> (step matches
            LifecycleStep::Finished(Err(_))),
        stage matches RollbackRestartStage::RecordService { pid } ==> (reply matches
            LifecycleReply::Service(observed) && before.restarted_service_problem(pid, observed)
            is None ==> after.restarted_pid == Some(pid) && step == LifecycleStep::<
            RollbackRestartStage,
            (),
        >::Await(RollbackRestartStage::VerifyFinal)),
        stage is VerifyFinal && (reply matches LifecycleReply::Done(Ok(_))) <==> (step matches
            LifecycleStep::Finished(Ok(_))),
        stage is BindInitial ==> (reply matches LifecycleReply::Present(Err(error))
            ==> fails_because(step, error)),
        stage is Start || stage is VerifyFinal ==> (reply matches LifecycleReply::Done(Err(error))
            ==> fails_because(step, error)),
        stage is LookStarted ==> (reply matches LifecycleReply::Sight(Err(error)) ==> fails_because(
            step,
            error,
        )),
{
}

/// A restart after a rollback begins with the contents of the executable, unless the
/// service is already being removed.
pub proof fn law_a_restart_after_a_rollback_begins(
    state: &SelfUpdateDaemonRestart,
    step: LifecycleStep<RollbackRestartStage, ()>,
)
    requires
        call_ensures(
            SelfUpdateDaemonRestart::begin_restart_after_installer_rollback,
            (state,),
            step,
        ),
    ensures
        state.uninstall_state == InstallerUninstallState::NotApplied <==> step == LifecycleStep::<
            RollbackRestartStage,
            (),
        >::Await(RollbackRestartStage::CheckContents),
        !(step matches LifecycleStep::Finished(Ok(_))),
{
}

// -- Removing the service --

/// The service is removed exactly where one is installed and nothing runs, and the
/// removal is ready only once it was verified; a removal that did not happen is
/// reported as such, with what prevented it.
pub proof fn law_an_installed_service_is_removed(
    before: SelfUpdateDaemonRestart,
    stage: PrepareStage,
    reply: LifecycleReply,
    after: SelfUpdateDaemonRestart,
    step: LifecycleStep<PrepareStage, InstallerUninstallTransition>,
)
    requires
        prepare_next(before, stage, reply, after, step),
    ensures
        stage is VerifyAbsence && (reply matches LifecycleReply::Done(Ok(_))) ==> step
            == LifecycleStep::<PrepareStage, InstallerUninstallTransition>::Await(
            PrepareStage::LookPid,
        ),
        stage is LookPid && reply == LifecycleReply::Pid(Ok(None))
            && before.stopped_service_snapshot is Some ==> if before.service_installed {
            step == LifecycleStep::<PrepareStage, InstallerUninstallTransition>::Await(
                PrepareStage::Uninstall,
            )
        } else {
            step == LifecycleStep::<PrepareStage, InstallerUninstallTransition>::Await(
                PrepareStage::CheckService,
            )
        },
        stage is LookPid && (reply matches LifecycleReply::Pid(Ok(Some(_)))) ==> (step matches
            LifecycleStep::Finished(Err(_))),
        stage is Uninstall ==> (reply matches LifecycleReply::Uninstalled(Ok(outcome)) ==> match outcome {
            ExactServiceUninstallOutcome::Applied { operation_error: e } => step matches
                LifecycleStep::Await(PrepareStage::VerifyUninstalled { operation_error })
                && operation_error == e && after.uninstall_state
                == InstallerUninstallState::AppliedPendingVerification,
            ExactServiceUninstallOutcome::AppliedPendingVerification { post_state_error } => {
                fails_because(step, post_state_error) && after.uninstall_state
                    == InstallerUninstallState::AppliedPendingVerification
            },
            ExactServiceUninstallOutcome::PriorExact { operation_error: e } => step matches
                LifecycleStep::Await(PrepareStage::VerifyStopped { operation_error })
                && operation_error == e && after == before,
        }),
        stage matches PrepareStage::VerifyUninstalled { operation_error } ==> (reply matches
            LifecycleReply::Boundary(looks) && before.uninstalled_boundary_problem(looks) is None
            ==> match operation_error {
            None => after.uninstall_state == InstallerUninstallState::Ready && (step matches
                LifecycleStep::Finished(Ok(InstallerUninstallTransition::Ready))),
            Some(error) => fails_because(step, error),
        }),
        stage matches PrepareStage::VerifyStopped { operation_error } ==> (reply matches
            LifecycleReply::Boundary(looks) && before.stopped_boundary_problem(looks) is None ==> (
        step matches LifecycleStep::Finished(
            Ok(InstallerUninstallTransition::RestoredStopped(fault)),
        ) && fault == operation_error)),
        step matches LifecycleStep::Finished(Ok(InstallerUninstallTransition::Ready)) ==> stage is VerifyUninstalled,
        stage is VerifyAbsence ==> (reply matches LifecycleReply::Done(Err(error))
            ==> fails_because(step, error)),
        stage is LookPid ==> (reply matches LifecycleReply::Pid(Err(error)) ==> fails_because(
            step,
            error,
        )),
        stage is Uninstall ==> (reply matches LifecycleReply::Uninstalled(Err(error))
            ==> fails_because(step, error) && after == before),
{
}

/// A removal begins only once, and only while the absence is held.
pub proof fn law_a_removal_begins_from_absence(
    state: &SelfUpdateDaemonRestart,
    step: LifecycleStep<PrepareStage, InstallerUninstallTransition>,
)
    requires
        call_ensures(SelfUpdateDaemonRestart::begin_installer_uninstall, (state,), step),
    ensures
        state.absence_held && state.uninstall_state == InstallerUninstallState::NotApplied <==> step
            == LifecycleStep::<PrepareStage, InstallerUninstallTransition>::Await(
            PrepareStage::VerifyAbsence,
        ),
        !(step matches LifecycleStep::Finished(Ok(_))),
{
}

// -- Starting the prior daemon again --

/// The daemon that ran before a stop that failed is brought back as it was launched:
/// whoever runs in its place is stopped, the executable must be the captured one, and
/// the daemon is then started, seen and recorded.
pub proof fn law_the_prior_daemon_is_brought_back(
    before: SelfUpdateDaemonRestart,
    stage: RestoreStage,
    reply: LifecycleReply,
    after: SelfUpdateDaemonRestart,
    step: LifecycleStep<RestoreStage, FailedStopRestoration>,
)
    requires
        restore_next(before, stage, reply, after, step),
    ensures
        stage matches RestoreStage::StopObserved { target } ==> {
            &&& (reply matches LifecycleReply::Stopped(Ok(_))) ==> step == LifecycleStep::<
                RestoreStage,
                FailedStopRestoration,
            >::Await(RestoreStage::Reacquire { expected: Some(target) })
            &&& reply matches LifecycleReply::Stopped(Err(error)) ==> fails_because(step, error)
        },
        stage is Reacquire ==> {
            &&& (reply matches LifecycleReply::Done(Ok(_))) ==> step == LifecycleStep::<
                RestoreStage,
                FailedStopRestoration,
            >::Await(RestoreStage::Ready)
            &&& reply matches LifecycleReply::Done(Err(error)) ==> fails_because(step, error)
        },
        stage is Ready ==> (reply matches LifecycleReply::Service(observed) ==> (
        before.restart_readiness_problem(observed) is None <==> step == LifecycleStep::<
            RestoreStage,
            FailedStopRestoration,
        >::Await(RestoreStage::CheckExecutable))),
        stage is CheckExecutable ==> (reply matches LifecycleReply::Executable(look) ==> (
        captured_executable_problem(
            before.initial_executable.display@,
            before.initial_executable_state,
            true,
            look,
        ) is None <==> step == LifecycleStep::<RestoreStage, FailedStopRestoration>::Await(
            RestoreStage::Release,
        ))),
        stage is Release && before.absence_held && (reply matches LifecycleReply::Done(Ok(_))) ==> {
            &&& before.initial_launch_mechanism == InitialLaunchMechanism::ServiceManager <==> step
                == LifecycleStep::<RestoreStage, FailedStopRestoration>::Await(
                RestoreStage::StartInstalled,
            )
            &&& before.initial_launch_mechanism == InitialLaunchMechanism::Detached <==> step
                == LifecycleStep::<RestoreStage, FailedStopRestoration>::Await(
                RestoreStage::StartDetached,
            )
        },
        stage is StartInstalled || stage is StartDetached ==> {
            &&& (reply matches LifecycleReply::Done(Ok(_))) ==> step == LifecycleStep::<
                RestoreStage,
                FailedStopRestoration,
            >::Await(RestoreStage::LookStarted)
            &&& reply matches LifecycleReply::Done(Err(cause)) ==> (step matches
                LifecycleStep::Await(RestoreStage::Reestablish { error }) && error@ == cause@)
        },
        stage is LookStarted ==> (reply matches LifecycleReply::Sight(Ok(Some(sight))) ==> (
        sight.validation is Ok ==> (step matches LifecycleStep::Await(
            RestoreStage::RecordService { pid },
        ) && pid == sight.pid && after.executable == Owner::Initial))),
        stage matches RestoreStage::RecordService { pid } ==> (reply matches
            LifecycleReply::Service(observed) && before.restarted_service_problem(pid, observed)
            is None ==> after.restarted_pid == Some(pid) && after.initial_stop_state
            == InitialGenerationStopState::NotRequested && (before.said().len() == 0 <==> (step
            matches LifecycleStep::Finished(Ok(FailedStopRestoration::Exact))))),
        step matches LifecycleStep::Finished(Ok(FailedStopRestoration::Exact)) ==> stage
            is RecordService,
{
}

/// Bringing a daemon back begins with stopping whoever was seen in its place.
pub proof fn law_bringing_back_begins_with_who_runs(
    observed: Option<DaemonGeneration>,
    stage: RestoreStage,
)
    requires
        call_ensures(
            SelfUpdateDaemonRestart::begin_restart_initial_generation,
            (observed,),
            stage,
        ),
    ensures
        observed matches Some(found) ==> (stage matches RestoreStage::StopObserved { target }
            && target == found),
        observed is None ==> stage == (RestoreStage::Reacquire { expected: None }),
{
}

// -- After a stop that failed --

/// After a stop that failed the prior state is restored: an initial daemon that was
/// never asked and still runs is left alone, one that may have been asked is settled
/// and started again, and what runs where nothing ran before is stopped.
pub proof fn law_a_failed_stop_restores_what_was(
    before: SelfUpdateDaemonRestart,
    stage: FailedStopStage,
    reply: LifecycleReply,
    after: SelfUpdateDaemonRestart,
    step: LifecycleStep<FailedStopStage, FailedStopRestoration>,
)
    requires
        failed_stop_next(before, stage, reply, after, step),
    ensures
        stage is LookGeneration ==> (reply matches LifecycleReply::Generation(Ok(seen)) ==> {
            &&& before.initial_pid is Some && before.initial_stop_state
                == InitialGenerationStopState::NotRequested && optional_generation(seen)
                == optional_generation(before.initial_generation) ==> step == LifecycleStep::<
                FailedStopStage,
                FailedStopRestoration,
            >::Await(FailedStopStage::CheckService)
            &&& before.initial_pid is Some && before.initial_stop_state
                == InitialGenerationStopState::NotRequested && optional_generation(seen)
                != optional_generation(before.initial_generation) ==> (step matches
                LifecycleStep::Await(FailedStopStage::Restart { observed }) && observed == seen)
            &&& before.initial_pid is Some && before.initial_stop_state
                == InitialGenerationStopState::MayHaveBeenRequested && before.initial_generation
                is Some ==> step == LifecycleStep::<FailedStopStage, FailedStopRestoration>::Await(
                FailedStopStage::Settle,
            )
            &&& before.initial_pid is None ==> match seen {
                Some(found) => step matches LifecycleStep::Await(
                    FailedStopStage::StopObserved { target },
                ) && target == found,
                None => step == LifecycleStep::<FailedStopStage, FailedStopRestoration>::Await(
                    FailedStopStage::Reacquire { expected: None },
                ),
            }
        }),
        stage is CheckService ==> (reply matches LifecycleReply::Service(observed) ==> (
        service_state_problem(
            observed,
            before.initial_service_snapshot@.with_manager_pid(before.initial_manager()),
        ) is None <==> step == LifecycleStep::<FailedStopStage, FailedStopRestoration>::Await(
            FailedStopStage::CheckExecutable,
        ))),
        stage is CheckExecutable ==> (reply matches LifecycleReply::Executable(look) ==> (
        captured_executable_problem(
            before.initial_executable.display@,
            before.initial_executable_state,
            true,
            look,
        ) is None <==> (step matches LifecycleStep::Finished(Ok(FailedStopRestoration::Exact))))),
        stage is Settle ==> (reply matches LifecycleReply::Settled(settlement) ==> (step matches
            LifecycleStep::Await(FailedStopStage::Restart { observed }) && observed
            == settlement.observed_generation)),
        stage is Restart ==> (reply matches LifecycleReply::Restored(r) ==> step
            == LifecycleStep::<FailedStopStage, FailedStopRestoration>::Finished(r)),
        stage matches FailedStopStage::StopObserved { target } ==> ((reply matches
            LifecycleReply::Stopped(Ok(_))) ==> step == LifecycleStep::<
            FailedStopStage,
            FailedStopRestoration,
        >::Await(FailedStopStage::Reacquire { expected: Some(target) })),
        stage is Reacquire && (reply matches LifecycleReply::Done(Ok(_))) ==> step
            == LifecycleStep::<FailedStopStage, FailedStopRestoration>::Await(
            FailedStopStage::CheckStoppedService,
        ),
        stage is CheckStoppedService && before.absence_held ==> (reply matches
            LifecycleReply::Service(observed) ==> (service_state_problem(
            observed,
            before.initial_service_snapshot@.with_manager_pid(before.initial_manager()),
        ) is None <==> step == LifecycleStep::<FailedStopStage, FailedStopRestoration>::Await(
            FailedStopStage::VerifyAbsence,
        ))),
        stage is VerifyAbsence && (reply matches LifecycleReply::Done(Ok(_))) && before.said().len()
            == 0 ==> (step matches LifecycleStep::Finished(Ok(FailedStopRestoration::Exact))),
        stage is LookGeneration ==> (reply matches LifecycleReply::Generation(Err(error))
            ==> fails_because(step, error)),
        stage is Reacquire || stage is VerifyAbsence ==> (reply matches LifecycleReply::Done(
            Err(error),
        ) ==> fails_because(step, error)),
        stage is StopObserved ==> (reply matches LifecycleReply::Stopped(Err(error))
            ==> fails_because(step, error)),
{
}

// -- Rolling back --

/// A rollback that restarts the original daemon is reported as such. One that fails
/// stops whatever runs, asks for the service's owner first where it is managed, and
/// reports what failed first.
pub proof fn law_a_rollback_restores_or_stops(
    before: SelfUpdateDaemonRestart,
    stage: PriorStage,
    reply: LifecycleReply,
    after: SelfUpdateDaemonRestart,
    step: LifecycleStep<PriorStage, InstallerRollbackTransition>,
)
    requires
        prior_next(before, stage, reply, after, step),
    ensures
        step matches LifecycleStep::Finished(Ok(InstallerRollbackTransition::Restored)) <==> stage
            is Rollback && (reply matches LifecycleReply::Done(Ok(_))),
        stage is Rollback ==> (reply matches LifecycleReply::Done(Err(cause)) ==> if before
            .initial_launch_mechanism == InitialLaunchMechanism::ServiceManager {
            step matches LifecycleStep::Await(PriorStage::Classify { error }) && error == cause
        } else {
            step matches LifecycleStep::Await(PriorStage::Reestablish { error }) && error == cause
        }),
        stage matches PriorStage::Classify { error: cause } ==> (reply is Owners ==> (step matches
            LifecycleStep::Await(PriorStage::Reestablish { error }) && error == cause)
            || fails_because(step, cause)),
        stage matches PriorStage::Reestablish { error } ==> {
            &&& (reply matches LifecycleReply::Done(Ok(_))) ==> (step matches
                LifecycleStep::Finished(Ok(InstallerRollbackTransition::FailedStopped(fault)))
                && fault == error)
            &&& (reply matches LifecycleReply::Done(Err(_))) ==> fails_because(step, error)
        },
{
}

// -- What is accepted --

/// A capture that saw one daemon, one executable and a service that agrees keeps what
/// it saw: a daemon that its manager runs is a managed one, any other is detached, and
/// without a daemon it is stopped. Nothing has happened to the daemon yet.
pub proof fn law_a_capture_keeps_what_it_saw(
    executable: HostPath,
    replacement: HostPath,
    paths_match: bool,
    looks: CaptureLooks,
    state: SelfUpdateDaemonRestart,
)
    requires
        call_ensures(
            SelfUpdateDaemonRestart::capture_for_executable,
            (executable, replacement, paths_match, looks),
            Ok::<SelfUpdateDaemonRestart, Fault>(state),
        ),
    ensures
        looks.identity is Ok && looks.generation is Ok && looks.token is Ok && looks.service is Ok,
        state.initial_executable == executable && state.replacement_executable == replacement,
        state.initial_generation == looks.generation->Ok_0,
        state.initial_service_snapshot == looks.service->Ok_0,
        looks.identity matches Ok(Some(sight)) ==> state.initial_pid == Some(sight.pid) && (
        looks.service->Ok_0@.manager_pid == Some(sight.pid) ==> state.initial_launch_mechanism
            == InitialLaunchMechanism::ServiceManager) && (looks.service->Ok_0@.manager_pid is None
            ==> state.initial_launch_mechanism == InitialLaunchMechanism::Detached) && (
        looks.service->Ok_0@.manager_pid is None || looks.service->Ok_0@.manager_pid == Some(
            sight.pid,
        )),
        looks.identity == Ok::<Option<DaemonSight>, Fault>(None) ==> state.initial_pid is None
            && state.initial_launch_mechanism == InitialLaunchMechanism::Stopped
            && looks.service->Ok_0@.manager_pid is None,
        !state.absence_held,
        state.restarted_pid is None,
        state.uninstall_state == InstallerUninstallState::NotApplied,
        state.initial_stop_state == InitialGenerationStopState::NotRequested,
        state.service_installed == (looks.service->Ok_0@.definition is Some),
        state.service_executable == Owner::Initial && state.executable == Owner::Initial,
{
}

/// A stopped system is captured: without a daemon, and with a service that says so,
/// nothing stands in the way.
pub proof fn law_a_stopped_system_is_captured(
    executable: HostPath,
    replacement: HostPath,
    paths_match: bool,
    looks: CaptureLooks,
    r: Result<SelfUpdateDaemonRestart, Fault>,
)
    requires
        call_ensures(
            SelfUpdateDaemonRestart::capture_for_executable,
            (executable, replacement, paths_match, looks),
            r,
        ),
        executable_problem(executable) is None,
        looks.identity == Ok::<Option<DaemonSight>, Fault>(None),
        looks.identity_after == Ok::<Option<DaemonSight>, Fault>(None),
        looks.generation == Ok::<Option<DaemonGeneration>, Fault>(None),
        looks.generation_after == Ok::<Option<DaemonGeneration>, Fault>(None),
        looks.service matches Ok(service) && service@.manager_pid is None,
        looks.token == Ok::<Option<FileToken>, Fault>(None),
        looks.token_after == Ok::<Option<FileToken>, Fault>(None),
    ensures
        r is Ok,
{
}

/// A service belongs to exactly one of the two executables: to the one that owns it
/// where the other does not, and to none that can be told where both or neither do.
pub proof fn law_the_owner_is_the_one_that_owns(
    state: SelfUpdateDaemonRestart,
    alternative: Owner,
    initial: Result<(), Fault>,
    replacement: Result<(), Fault>,
)
    requires
        !state.paths_match,
        alternative != state.service_executable,
    ensures
        initial is Ok && replacement is Err <==> state.classified_owner(
            alternative,
            initial,
            replacement,
        ) == Ok::<Owner, Seq<char>>(Owner::Initial),
        initial is Err && replacement is Ok <==> state.classified_owner(
            alternative,
            initial,
            replacement,
        ) == Ok::<Owner, Seq<char>>(Owner::Replacement),
{
}

/// A service is accepted exactly if it is in the expected state, and a stopped one
/// exactly if it is in that state without a running manager.
pub proof fn law_only_the_expected_service_is_accepted(
    observed: Result<ServiceStateSnapshot, Fault>,
    expected: ServiceStateView,
)
    ensures
        service_state_problem(observed, expected) is None <==> (observed matches Ok(found) && found@
            == expected),
        service_stopped_problem(observed, expected) is None <==> (observed matches Ok(found)
            && found@ == expected.with_manager_stopped()),
        absent_service_problem(observed) is None <==> (observed matches Ok(found) && found@.absent()),
        observed matches Err(error) ==> service_state_problem(observed, expected) == Some(error@)
            && service_stopped_problem(observed, expected) == Some(error@)
            && absent_service_problem(observed) == Some(error@),
{
}

/// An executable is accepted exactly if it is as it was captured: absent where it was
/// absent, and else the same file, or after a rollback the same bytes.
pub proof fn law_only_the_captured_executable_is_accepted(
    path: Seq<char>,
    token: FileToken,
    observed: FileToken,
    present: bool,
)
    ensures
        captured_executable_problem(
            path,
            InitialExecutableState::Present(token),
            true,
            ExecutableLook::Token(Ok(observed)),
        ) is None <==> observed@ == token@,
        captured_executable_problem(
            path,
            InitialExecutableState::Present(token),
            false,
            ExecutableLook::Token(Ok(observed)),
        ) is None <==> observed@.digest == token@.digest,
        captured_executable_problem(
            path,
            InitialExecutableState::Absent,
            true,
            ExecutableLook::Presence(Ok(present)),
        ) is None <==> !present,
        captured_executable_problem(
            path,
            InitialExecutableState::Absent,
            false,
            ExecutableLook::Presence(Ok(present)),
        ) is None <==> !present,
{
}

/// The boundary of a stop is passed exactly where the service is as it was recorded,
/// nothing runs, and the absence is held.
pub proof fn law_a_stopped_boundary_is_passed_exactly(
    state: &SelfUpdateDaemonRestart,
    looks: StoppedLooks,
    r: Result<(), Fault>,
)
    requires
        call_ensures(SelfUpdateDaemonRestart::verify_stopped_boundary_state, (state, looks), r),
    ensures
        r is Ok <==> {
            &&& state.stopped_service_snapshot matches Some(recorded) && (looks.service matches Ok(
                found,
            ) && found@ == recorded@)
            &&& looks.running == Ok::<Option<u32>, Fault>(None)
            &&& state.absence_held && looks.absence is Ok
        },
{
}

/// The boundary of a removal is passed exactly where the service is gone, nothing
/// runs, and the absence is held.
pub proof fn law_a_removal_boundary_is_passed_exactly(
    state: &SelfUpdateDaemonRestart,
    looks: StoppedLooks,
    r: Result<(), Fault>,
)
    requires
        call_ensures(SelfUpdateDaemonRestart::verify_uninstalled_boundary_state, (state, looks), r),
    ensures
        r is Ok <==> {
            &&& looks.service matches Ok(found) && found@.absent()
            &&& looks.running == Ok::<Option<u32>, Fault>(None)
            &&& state.absence_held && looks.absence is Ok
        },
{
}

/// An update is committed exactly in the state that it was for: the expected
/// executable is in place, the service is in its expected state, and the daemon runs
/// again exactly if it ran before.
pub proof fn law_an_update_is_committed_exactly(
    state: &SelfUpdateDaemonRestart,
    looks: FinalLooks,
    r: Result<(), Fault>,
)
    requires
        call_ensures(SelfUpdateDaemonRestart::verify_final_state_snapshot, (state, looks), r),
        state.uninstall_state == InstallerUninstallState::NotApplied,
    ensures
        r is Ok <==> {
            &&& match state.expected_executable_token {
                Some(token) => looks.executable matches ExecutableLook::Token(Ok(found)) && found@
                    == token@,
                None => looks.executable == ExecutableLook::Presence(Ok(false)),
            }
            &&& looks.service matches Ok(found) && found@ == state.expected_service()
            &&& if state.initial_pid is Some {
                looks.sight matches Ok(Some(sight)) && state.restarted_pid == Some(sight.pid)
                    && sight.validation is Ok
            } else {
                state.absence_held && looks.absence is Ok
            }
        },
{
}

/// A restarted daemon is accepted exactly where it runs the way it did before: as the
/// manager's own process where it was managed, and beside an unchanged service where
/// it was not.
pub proof fn law_a_restarted_daemon_runs_as_before(
    state: SelfUpdateDaemonRestart,
    pid: u32,
    found: ServiceStateSnapshot,
)
    ensures
        state.restarted_service_problem(pid, Ok(found)) is None && state.initial_launch_mechanism
            == InitialLaunchMechanism::ServiceManager ==> found@.manager_pid == Some(pid)
            && found@.definition is Some,
        state.initial_launch_mechanism == InitialLaunchMechanism::ServiceManager
            && state.service_executable == Owner::Initial && found@.definition is Some && found@
            == state.initial_service_snapshot@.with_manager_pid(Some(pid)) && found@.manager_pid
            == Some(pid) ==> state.restarted_service_problem(pid, Ok(found)) is None,
        state.initial_launch_mechanism == InitialLaunchMechanism::ServiceManager
            && state.service_executable == Owner::Replacement && !state.paths_match
            && found@.definition is Some && found@.manager_pid == Some(pid)
            ==> state.restarted_service_problem(pid, Ok(found)) is None,
        state.initial_launch_mechanism == InitialLaunchMechanism::Detached && state.service_executable
            == Owner::Initial ==> (state.restarted_service_problem(pid, Ok(found)) is None <==> found@
            == state.initial_service_snapshot@.with_manager_pid(None)),
        state.initial_launch_mechanism == InitialLaunchMechanism::Stopped
            ==> state.restarted_service_problem(pid, Ok(found)) is Some,
{
}

} // verus!
