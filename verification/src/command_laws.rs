//! What the commands are for: which plan a command comes to, and what starting,
//! stopping and removing the daemon bring about.
use vstd::prelude::*;

use crate::cause::fails_because;
use crate::commands::{
    begin_start, begin_stop_windows_installer_owned, begin_uninstall, dispatch, start, stop,
    stop_detached_locked, stop_windows_installer_owned, uninstall, CommandPlan, CommandReply,
    DaemonCommand, DetachedStage, OwnedStopStage, PriorRun, StartKind, StartStage,
    StopCommandStage, UninstallStage,
};
use crate::fault::Fault;
use crate::host_path::{HostPath, Platform};
use crate::lifecycle_steps::LifecycleStep;
use crate::service_owner::executable_problem;

verus! {

// -- Plans --

/// An uninstallation that was asked for is planned, on every platform and
/// whatever form the output has; only the ownership is checked exactly where
/// only that was asked for.
pub proof fn law_an_uninstallation_is_planned(
    platform: Platform,
    check_owner: bool,
    json: bool,
    r: Result<CommandPlan, Fault>,
)
    requires
        call_ensures(dispatch, (platform, DaemonCommand::Uninstall { check_owner }, json), r),
    ensures
        r is Ok,
        r->Ok_0 == CommandPlan::CheckOwner <==> check_owner,
        r->Ok_0 == CommandPlan::Uninstall <==> !check_owner,
{
}

/// A command comes to a plan of its own kind: what is installed, removed,
/// started, stopped or shown was asked for.
pub proof fn law_a_plan_is_of_its_commands_kind(
    platform: Platform,
    command: DaemonCommand,
    json: bool,
    plan: CommandPlan,
)
    requires
        call_ensures(dispatch, (platform, command, json), Ok::<CommandPlan, Fault>(plan)),
    ensures
        (plan == CommandPlan::Install) == (command is Install),
        (plan == CommandPlan::Uninstall || plan == CommandPlan::CheckOwner) == (command
            is Uninstall),
        (plan == CommandPlan::StartForeground || plan == CommandPlan::StartBackground || plan
            == CommandPlan::StartOwned) == (command is Start),
        (plan == CommandPlan::Stop || plan == CommandPlan::StopOwned) == (command is Stop),
        (plan is Status || plan == CommandPlan::InstallerState) == (command is Status),
        command matches DaemonCommand::Start { foreground, expected } ==> {
            &&& (plan == CommandPlan::StartForeground) == foreground
            &&& (plan == CommandPlan::StartOwned) == expected
        },
        command matches DaemonCommand::Stop { expected } ==> (plan == CommandPlan::StopOwned)
            == expected,
        command matches DaemonCommand::Status { installer_state } ==> (plan
            == CommandPlan::InstallerState) == installer_state,
        plan matches CommandPlan::Status { json: shown } ==> shown == json,
{
}

/// Two accepted commands come to the same plan only if they ask for the same.
pub proof fn law_a_plan_tells_its_command(
    platform: Platform,
    a: DaemonCommand,
    b: DaemonCommand,
    json: bool,
    plan: CommandPlan,
)
    requires
        call_ensures(dispatch, (platform, a, json), Ok::<CommandPlan, Fault>(plan)),
        call_ensures(dispatch, (platform, b, json), Ok::<CommandPlan, Fault>(plan)),
    ensures
        a == b,
{
}

/// A plain command is never refused, but for a start on a system that runs no
/// daemon. What names an executable is for Windows alone.
pub proof fn law_plain_commands_are_accepted(
    platform: Platform,
    command: DaemonCommand,
    json: bool,
    r: Result<CommandPlan, Fault>,
)
    requires
        call_ensures(dispatch, (platform, command, json), r),
    ensures
        command is Install || command is Uninstall ==> r is Ok,
        command == (DaemonCommand::Stop { expected: false }) ==> r is Ok,
        command == (DaemonCommand::Status { installer_state: false }) ==> r is Ok,
        command == (DaemonCommand::Status { installer_state: true }) ==> (r is Ok <==> !json),
        command matches DaemonCommand::Start { foreground, expected: false } ==> (r is Ok <==> (
        platform == Platform::Linux || platform == Platform::MacOs || platform
            == Platform::OtherUnix || platform == Platform::Windows)),
        command matches DaemonCommand::Start { foreground, expected: true } ==> (r is Ok <==> (
        platform == Platform::Windows && !foreground)),
        command == (DaemonCommand::Stop { expected: true }) ==> (r is Ok <==> platform
            == Platform::Windows),
{
}

// -- Starting --

/// Whether a reply is the one that a stage asks for, and a good one: nothing
/// failed and no daemon runs.
pub open spec fn start_goes_well(stage: StartStage, reply: CommandReply) -> bool {
    match stage {
        StartStage::LookPid => reply matches CommandReply::Pid(Ok(None)),
        StartStage::LookInstalled => reply matches CommandReply::Answer(Ok(_)),
        _ => reply matches CommandReply::Done(Ok(_)),
    }
}

/// How many operations a start still has before it.
pub open spec fn start_left(stage: StartStage) -> nat {
    match stage {
        StartStage::Lease => 6,
        StartStage::LookPid => 5,
        StartStage::Locate => 4,
        StartStage::LookInstalled => 3,
        StartStage::Logging { .. } => 2,
        StartStage::Cleanup { .. } => 1,
        _ => 0,
    }
}

/// A start begins, unless an executable that was named cannot be one.
pub proof fn law_a_start_begins(
    kind: StartKind,
    expected: Option<&HostPath>,
    step: LifecycleStep<StartStage, ()>,
)
    requires
        call_ensures(begin_start, (kind, expected), step),
        kind == StartKind::Owned ==> expected is Some && executable_problem(*expected->0) is None,
    ensures
        step is Await,
        kind == StartKind::Foreground <==> step->Await_0 == StartStage::LookPid,
        kind != StartKind::Foreground <==> step->Await_0 == StartStage::Lease,
{
}

/// A start that is given what it asks for goes on to start the daemon, and ends
/// well once that has succeeded: in the foreground where that was asked for, else
/// by the service where it is installed, else by itself.
pub proof fn law_a_start_starts_the_daemon(
    kind: StartKind,
    stage: StartStage,
    reply: CommandReply,
    step: LifecycleStep<StartStage, ()>,
)
    requires
        call_ensures(start, (kind, stage, reply), step),
        start_goes_well(stage, reply),
    ensures
        stage == StartStage::RunForeground || stage == StartStage::StartInstalled || stage
            == StartStage::StartDetached <==> (step matches LifecycleStep::Finished(Ok(_))),
        start_left(stage) > 0 ==> (step matches LifecycleStep::Await(next) && start_left(next)
            < start_left(stage)),
        step matches LifecycleStep::Await(StartStage::RunForeground) ==> kind
            == StartKind::Foreground,
        step matches LifecycleStep::Await(StartStage::StartInstalled) ==> kind
            != StartKind::Foreground && stage == (StartStage::Cleanup { installed: true }),
        step matches LifecycleStep::Await(StartStage::StartDetached) ==> kind
            != StartKind::Foreground && stage == (StartStage::Cleanup { installed: false }),
        stage == StartStage::LookInstalled ==> (reply matches CommandReply::Answer(Ok(installed))
            && step == LifecycleStep::<StartStage, ()>::Await(StartStage::Logging { installed })),
        stage matches StartStage::Logging { installed } ==> step == LifecycleStep::<
            StartStage,
            (),
        >::Await(StartStage::Cleanup { installed }),
        kind != StartKind::Foreground && stage == StartStage::LookPid ==> (step
            == LifecycleStep::<StartStage, ()>::Await(StartStage::Locate) || step
            == LifecycleStep::<StartStage, ()>::Await(StartStage::LookInstalled)),
{
}

/// A start ends with the failure of whatever failed.
pub proof fn law_a_failed_start_says_why(
    kind: StartKind,
    stage: StartStage,
    reply: CommandReply,
    step: LifecycleStep<StartStage, ()>,
)
    requires
        call_ensures(start, (kind, stage, reply), step),
    ensures
        stage == StartStage::LookPid && (reply matches CommandReply::Pid(Err(_))) ==> (reply
            matches CommandReply::Pid(Err(error)) && fails_because(step, error)),
        stage == StartStage::LookInstalled && (reply matches CommandReply::Answer(Err(_))) ==> (
        reply matches CommandReply::Answer(Err(error)) && fails_because(step, error)),
        stage != StartStage::LookPid && stage != StartStage::LookInstalled && (reply matches
            CommandReply::Done(Err(_))) ==> (reply matches CommandReply::Done(Err(error))
            && fails_because(step, error)),
{
}

// -- Stopping --

/// A stop of a daemon outside the service asks exactly the generation that was
/// found, removes its identity and says which process it stopped; where none runs
/// a stale identity is removed, and where there is none either the stop fails.
pub proof fn law_a_detached_stop_stops_what_was_found(
    stage: DetachedStage,
    reply: CommandReply,
    step: LifecycleStep<DetachedStage, String>,
)
    requires
        call_ensures(stop_detached_locked, (stage, reply), step),
    ensures
        stage is LookGeneration && (reply matches CommandReply::Generation(Ok(Some(_)))) ==> (reply
            matches CommandReply::Generation(Ok(Some(found))) && (step matches
            LifecycleStep::Await(DetachedStage::Stop { target }) && target == found)),
        stage matches DetachedStage::LookGeneration { observed } ==> (reply
            == CommandReply::Generation(Ok(None)) ==> if observed is Some {
            step == LifecycleStep::<DetachedStage, String>::Await(DetachedStage::CleanupStale)
        } else {
            step matches LifecycleStep::Finished(Err(_))
        }),
        stage matches DetachedStage::Stop { target } ==> ((reply matches CommandReply::Done(Ok(_)))
            ==> (step matches LifecycleStep::Await(DetachedStage::Cleanup { pid }) && pid
            == target.pid)),
        step matches LifecycleStep::Finished(Ok(_)) <==> (stage is Cleanup || stage
            is CleanupStale) && (reply matches CommandReply::Done(Ok(_))),
        !(stage is LookGeneration) && (reply matches CommandReply::Done(Err(_))) ==> (reply matches
            CommandReply::Done(Err(error)) && fails_because(step, error)),
        stage is LookGeneration && (reply matches CommandReply::Generation(Err(_))) ==> (reply
            matches CommandReply::Generation(Err(error)) && fails_because(step, error)),
{
}

/// A stop turns to the service exactly where it is installed, and to the daemon
/// itself elsewhere; on Windows a daemon that runs is always asked itself. It ends
/// well only once one of both was stopped.
pub proof fn law_a_stop_goes_to_who_runs_the_daemon(
    platform: Platform,
    stage: StopCommandStage,
    reply: CommandReply,
    step: LifecycleStep<StopCommandStage, ()>,
)
    requires
        call_ensures(stop, (platform, stage, reply), step),
    ensures
        stage == StopCommandStage::Lease && (reply matches CommandReply::Done(Ok(_))) ==> step
            == LifecycleStep::<StopCommandStage, ()>::Await(StopCommandStage::Locate),
        stage == StopCommandStage::Locate ==> (reply matches CommandReply::Located(Ok(path)) ==> (
        executable_problem(path) is None ==> if platform == Platform::Windows {
            step == LifecycleStep::<StopCommandStage, ()>::Await(StopCommandStage::LookPid)
        } else {
            step == LifecycleStep::<StopCommandStage, ()>::Await(StopCommandStage::LookInstalled)
        })),
        stage == StopCommandStage::LookPid ==> (reply matches CommandReply::Pid(Ok(pid)) ==> if pid
            is Some {
            step == LifecycleStep::<StopCommandStage, ()>::Await(StopCommandStage::StopDetached)
        } else {
            step == LifecycleStep::<StopCommandStage, ()>::Await(StopCommandStage::CleanupStale)
        }),
        stage == StopCommandStage::CleanupStale && (reply matches CommandReply::Done(Ok(_))) ==> step
            == LifecycleStep::<StopCommandStage, ()>::Await(StopCommandStage::LookInstalled),
        stage == StopCommandStage::LookInstalled ==> (reply matches CommandReply::Answer(
            Ok(installed),
        ) ==> if installed {
            step == LifecycleStep::<StopCommandStage, ()>::Await(StopCommandStage::StopInstalled)
        } else {
            step == LifecycleStep::<StopCommandStage, ()>::Await(StopCommandStage::StopDetached)
        }),
        stage == StopCommandStage::StopInstalled && (reply matches CommandReply::Done(Ok(_)))
            ==> step == LifecycleStep::<StopCommandStage, ()>::Await(
            StopCommandStage::CleanupStopped,
        ),
        step matches LifecycleStep::Finished(Ok(_)) <==> (stage == StopCommandStage::CleanupStopped
            || stage == StopCommandStage::StopDetached) && (reply matches CommandReply::Done(Ok(_))),
{
}

/// A stop ends with the failure of whatever failed.
pub proof fn law_a_failed_stop_says_why(
    platform: Platform,
    stage: StopCommandStage,
    reply: CommandReply,
    step: LifecycleStep<StopCommandStage, ()>,
)
    requires
        call_ensures(stop, (platform, stage, reply), step),
    ensures
        stage == StopCommandStage::Locate ==> (reply matches CommandReply::Located(Err(error))
            ==> fails_because(step, error)),
        stage == StopCommandStage::LookPid ==> (reply matches CommandReply::Pid(Err(error))
            ==> fails_because(step, error)),
        stage == StopCommandStage::LookInstalled ==> (reply matches CommandReply::Answer(Err(error))
            ==> fails_because(step, error)),
        stage != StopCommandStage::Locate && stage != StopCommandStage::LookPid && stage
            != StopCommandStage::LookInstalled ==> (reply matches CommandReply::Done(Err(error))
            ==> fails_because(step, error)),
{
}

/// An installer's stop keeps what it saw at its beginning, ends a daemon that runs
/// before it turns to an installed service, and ends well only where none is left.
pub proof fn law_an_installers_stop_stops_daemon_and_service(
    stage: OwnedStopStage,
    reply: CommandReply,
    step: LifecycleStep<OwnedStopStage, ()>,
)
    requires
        call_ensures(stop_windows_installer_owned, (stage, reply), step),
    ensures
        stage is Lease && (reply matches CommandReply::Done(Ok(_))) ==> step
            == LifecycleStep::<OwnedStopStage, ()>::Await(OwnedStopStage::ValidateOwner),
        stage is ValidateOwner && (reply matches CommandReply::Done(Ok(_))) ==> step
            == LifecycleStep::<OwnedStopStage, ()>::Await(OwnedStopStage::LookInstalled),
        stage is LookInstalled ==> (reply matches CommandReply::Answer(Ok(seen)) ==> (step matches
            LifecycleStep::Await(OwnedStopStage::LookPid { installed }) && installed == seen)),
        stage matches OwnedStopStage::LookPid { installed } ==> (reply matches CommandReply::Pid(
            Ok(pid),
        ) ==> if pid is Some {
            step matches LifecycleStep::Await(OwnedStopStage::StopDetached { prior }) && prior == (
            PriorRun { installed, running: true })
        } else {
            step matches LifecycleStep::Await(OwnedStopStage::Cleanup { prior }) && prior == (
            PriorRun { installed, running: false })
        }),
        stage matches OwnedStopStage::StopDetached { prior } ==> ((reply matches CommandReply::Done(
            Ok(_),
        )) ==> if prior.installed {
            step == LifecycleStep::<OwnedStopStage, ()>::Await(OwnedStopStage::StopInstalled { prior })
        } else {
            step == LifecycleStep::<OwnedStopStage, ()>::Await(OwnedStopStage::LookStill { prior })
        }),
        stage matches OwnedStopStage::Cleanup { prior } ==> ((reply matches CommandReply::Done(
            Ok(_),
        )) ==> if prior.installed {
            step == LifecycleStep::<OwnedStopStage, ()>::Await(OwnedStopStage::StopInstalled { prior })
        } else {
            step == LifecycleStep::<OwnedStopStage, ()>::Await(OwnedStopStage::LookStill { prior })
        }),
        stage matches OwnedStopStage::StopInstalled { prior } ==> ((reply matches
            CommandReply::Done(Ok(_))) ==> step == LifecycleStep::<OwnedStopStage, ()>::Await(
            OwnedStopStage::CleanupStopped { prior },
        )),
        stage matches OwnedStopStage::CleanupStopped { prior } ==> ((reply matches
            CommandReply::Done(Ok(_))) ==> step == LifecycleStep::<OwnedStopStage, ()>::Await(
            OwnedStopStage::LookStill { prior },
        )),
        step matches LifecycleStep::Finished(Ok(_)) <==> stage is LookStill && reply
            == CommandReply::Pid(Ok(None)),
{
}

/// A failed installer's stop brings a daemon back exactly where one ran and none
/// does now, and its failure always stems from what failed first.
pub proof fn law_a_failed_installers_stop_restores_the_daemon(
    stage: OwnedStopStage,
    reply: CommandReply,
    step: LifecycleStep<OwnedStopStage, ()>,
)
    requires
        call_ensures(stop_windows_installer_owned, (stage, reply), step),
    ensures
        stage is Lease || stage is ValidateOwner ==> (reply matches CommandReply::Done(Err(error))
            ==> fails_because(step, error)),
        stage is LookInstalled ==> (reply matches CommandReply::Answer(Err(error))
            ==> fails_because(step, error)),
        stage is LookPid ==> (reply matches CommandReply::Pid(Err(error)) ==> fails_because(
            step,
            error,
        )),
        step matches LifecycleStep::Await(OwnedStopStage::Restart { prior, error }) ==> prior.running
            && reply == CommandReply::Pid(Ok(None)),
        stage matches OwnedStopStage::LookAgain { prior, error } ==> {
            &&& prior.running && reply == CommandReply::Pid(Ok(None)) ==> step == LifecycleStep::<
                OwnedStopStage,
                (),
            >::Await(OwnedStopStage::Restart { prior, error })
            &&& prior.running && (reply matches CommandReply::Pid(Ok(Some(_)))) ==> step
                == LifecycleStep::<OwnedStopStage, ()>::Await(
                OwnedStopStage::LookRestored { prior, error },
            )
            &&& !prior.running && reply == CommandReply::Pid(Ok(None)) ==> step == LifecycleStep::<
                OwnedStopStage,
                (),
            >::Await(OwnedStopStage::LookRestored { prior, error })
            &&& reply is Pid && step is Finished ==> fails_because(step, error)
        },
        stage matches OwnedStopStage::Restart { prior, error } ==> {
            &&& (reply matches CommandReply::Done(Ok(_))) ==> step == LifecycleStep::<
                OwnedStopStage,
                (),
            >::Await(OwnedStopStage::LookRestored { prior, error })
            &&& (reply matches CommandReply::Done(Err(_))) ==> fails_because(step, error)
        },
        stage matches OwnedStopStage::LookRestored { prior, error } ==> (reply is Pid
            ==> fails_because(step, error)),
{
}

/// An installer's stop begins for every executable that can be named.
pub proof fn law_an_installers_stop_begins(
    expected: &HostPath,
    step: LifecycleStep<OwnedStopStage, ()>,
)
    requires
        call_ensures(begin_stop_windows_installer_owned, (expected,), step),
    ensures
        executable_problem(*expected) is None <==> step == LifecycleStep::<
            OwnedStopStage,
            (),
        >::Await(OwnedStopStage::Lease),
        executable_problem(*expected) is Some <==> (step matches LifecycleStep::Finished(Err(_))),
{
}

// -- Removing --

/// The owner is checked before anything else, for every executable that was
/// located.
pub proof fn law_a_removal_begins_with_the_owner(
    located: Result<HostPath, Fault>,
    check_only: bool,
    step: LifecycleStep<UninstallStage, ()>,
)
    requires
        call_ensures(begin_uninstall, (located, check_only), step),
    ensures
        located matches Ok(path) && executable_problem(path) is None <==> step == LifecycleStep::<
            UninstallStage,
            (),
        >::Await(UninstallStage::Preflight { check_only }),
        step is Await <==> (located matches Ok(path) && executable_problem(path) is None),
        !(step matches LifecycleStep::Finished(Ok(_))),
        located matches Err(error) ==> fails_because(step, error),
{
}

/// A removal whose owner was confirmed goes on until the service is removed, and
/// ends well only then; a mere check ends well without having changed anything.
pub proof fn law_a_removal_removes(
    platform: Platform,
    stage: UninstallStage,
    reply: CommandReply,
    step: LifecycleStep<UninstallStage, ()>,
)
    requires
        call_ensures(uninstall, (platform, stage, reply), step),
    ensures
        stage matches UninstallStage::Preflight { check_only } ==> ((reply matches
            CommandReply::Done(Ok(_))) ==> if check_only {
            step matches LifecycleStep::Finished(Ok(_))
        } else {
            step == LifecycleStep::<UninstallStage, ()>::Await(UninstallStage::Lease)
        }),
        stage is Lease && (reply matches CommandReply::Done(Ok(_))) ==> step
            == LifecycleStep::<UninstallStage, ()>::Await(UninstallStage::ValidateOwner),
        stage is ValidateOwner && (reply matches CommandReply::Done(Ok(_))) ==> step
            == LifecycleStep::<UninstallStage, ()>::Await(UninstallStage::LookPid),
        stage is LookPid ==> (reply matches CommandReply::Pid(Ok(pid)) ==> {
            &&& platform != Platform::Windows ==> (step matches LifecycleStep::Await(
                UninstallStage::Remove { running },
            ) && running == (pid is Some))
            &&& platform == Platform::Windows && pid is Some ==> step == LifecycleStep::<
                UninstallStage,
                (),
            >::Await(UninstallStage::StopDetached)
            &&& platform == Platform::Windows && pid is None ==> step == LifecycleStep::<
                UninstallStage,
                (),
            >::Await(UninstallStage::Cleanup)
        }),
        stage is StopDetached && (reply matches CommandReply::Done(Ok(_))) ==> (step matches
            LifecycleStep::Await(UninstallStage::LookStill { running }) && running),
        stage is Cleanup && (reply matches CommandReply::Done(Ok(_))) ==> (step matches
            LifecycleStep::Await(UninstallStage::LookStill { running }) && !running),
        stage matches UninstallStage::LookStill { running: before } ==> (reply
            == CommandReply::Pid(Ok(None)) ==> (step matches LifecycleStep::Await(
            UninstallStage::Remove { running },
        ) && running == before)),
        step matches LifecycleStep::Finished(Ok(_)) <==> (stage is Remove || stage == (
        UninstallStage::Preflight { check_only: true })) && (reply matches CommandReply::Done(
            Ok(_),
        )),
{
}

/// A removal that fails says why. On Windows, once a daemon may have been stopped,
/// the prior running state is restored first, and the failure is kept for it.
pub proof fn law_a_failed_removal_says_why(
    platform: Platform,
    stage: UninstallStage,
    reply: CommandReply,
    step: LifecycleStep<UninstallStage, ()>,
)
    requires
        call_ensures(uninstall, (platform, stage, reply), step),
    ensures
        stage is Preflight || stage is Lease || stage is ValidateOwner ==> (reply matches
            CommandReply::Done(Err(error)) ==> fails_because(step, error)),
        stage is LookPid ==> (reply matches CommandReply::Pid(Err(error)) ==> fails_because(
            step,
            error,
        )),
        stage is StopDetached || stage is Cleanup ==> (reply matches CommandReply::Done(Err(cause))
            ==> (step matches LifecycleStep::Await(UninstallStage::Restore { running, error })
            && error@ == cause@ && running == (stage is StopDetached))),
        stage matches UninstallStage::LookStill { running: before } ==> {
            &&& reply matches CommandReply::Pid(Err(cause)) ==> (step matches LifecycleStep::Await(
                UninstallStage::Restore { running, error },
            ) && error@ == cause@ && running == before)
            &&& (reply matches CommandReply::Pid(Ok(Some(_)))) ==> (step matches
                LifecycleStep::Await(UninstallStage::Restore { running, error }) && running
                == before)
        },
        stage matches UninstallStage::Remove { running: before } ==> (reply matches
            CommandReply::Done(Err(cause)) ==> if platform == Platform::Windows {
            step matches LifecycleStep::Await(UninstallStage::Restore { running, error }) && error@
                == cause@ && running == before
        } else {
            fails_because(step, cause)
        }),
        stage matches UninstallStage::Restore { running, error } ==> (reply is Done
            ==> fails_because(step, error)),
{
}

} // verus!
