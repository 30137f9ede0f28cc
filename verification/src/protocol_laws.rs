//! What a conversation over the update boundary brings about, and the words of it.
use vstd::prelude::*;

use crate::boundary_client::{
    abandoned_holder_report, answered, close_and_wait, may_ask, request_word, transition_of,
    ClientAnswer, ClientRequest, HolderExit, SelfUpdateBoundaryClientPhase,
    SelfUpdateBoundaryRestart,
};
use crate::boundary_laws::law_every_request_is_understood;
use crate::boundary_phase::{
    boundary_line, classify_initial_launch_mechanism, installer_boundary_finalization,
    installer_daemon_boundary_marker, installer_state_line, phase_name,
    require_plain_installer_state, InitialGenerationStopState, InitialLaunchMechanism,
    InstallerBoundaryFinalization, InstallerBoundaryPhase, InstallerUninstallState,
};
use crate::boundary_protocol::{
    boundary_next, commanded, finalize_installer_boundary_error, marker_line, BoundaryContext,
    BoundaryMarker, BoundaryReply, BoundaryStage, BoundaryStep, FinalizationResult,
    InstallerRollbackTransition, InstallerUninstallTransition,
};
use crate::cause::stems_from;
use crate::fault::Fault;
use crate::text::{trim_back, CharClass};

verus! {

// -- Words --

/// A flag as a line tells it.
pub open spec fn truth(flag: bool) -> Seq<char> {
    if flag {
        "true"@
    } else {
        "false"@
    }
}

/// A state line tells whether the daemon runs and whether its service is installed,
/// each under its own name.
pub proof fn law_a_state_line_tells_each_state(
    running: bool,
    service_installed: bool,
    line: &'static str,
)
    requires
        call_ensures(installer_state_line, (running, service_installed), line),
    ensures
        line@ == "running="@ + truth(running) + " service_installed="@ + truth(service_installed),
{
    reveal_strlit("running=");
    reveal_strlit("true");
    reveal_strlit("false");
    reveal_strlit(" service_installed=");
    reveal_strlit("running=true service_installed=true");
    reveal_strlit("running=true service_installed=false");
    reveal_strlit("running=false service_installed=true");
    reveal_strlit("running=false service_installed=false");
    assert("running=true service_installed=true"@ =~= "running="@ + "true"@
        + " service_installed="@ + "true"@);
    assert("running=true service_installed=false"@ =~= "running="@ + "true"@
        + " service_installed="@ + "false"@);
    assert("running=false service_installed=true"@ =~= "running="@ + "false"@
        + " service_installed="@ + "true"@);
    assert("running=false service_installed=false"@ =~= "running="@ + "false"@
        + " service_installed="@ + "false"@);
}

/// Every line of the boundary is the boundary's name, one space and the state.
pub proof fn law_a_boundary_line_names_the_boundary(state: &str, line: String)
    requires
        call_ensures(installer_daemon_boundary_marker, (state,), line),
    ensures
        line@ == "codex-switch-global-pace daemon update boundary"@ + " "@ + state@,
{
}

/// The line of each state, in the words that installers wait for.
pub proof fn law_states_are_reported_in_their_words(
    context: &BoundaryContext,
    marker: BoundaryMarker,
    line: String,
)
    requires
        call_ensures(marker_line, (context, marker), line),
    ensures
        marker is NewReady ==> line@ == boundary_line("new state ready"@),
        marker is NewFailed ==> line@ == boundary_line("new state failed"@),
        marker is NewStopped ==> line@ == boundary_line("new state stopped"@),
        marker is OldRestored ==> line@ == boundary_line("old state restored"@),
        marker is OldFailed ==> line@ == boundary_line("old state failed"@),
        marker is UninstallReady ==> line@ == boundary_line("uninstall state ready"@),
        marker is UninstallFailed ==> line@ == boundary_line("uninstall state failed"@),
        marker is FinalConfirmed ==> line@ == boundary_line("final state confirmed"@),
        marker is AuthorityReleased ==> line@ == boundary_line("lifecycle authority released"@),
{
}

/// The name of each phase.
pub proof fn law_phases_have_their_names(phase: InstallerBoundaryPhase, name: &'static str)
    requires
        call_ensures(phase_name, (phase,), name),
    ensures
        phase is Stopping ==> name@ == "Stopping"@,
        phase is Stopped ==> name@ == "Stopped"@,
        phase is ReplacementTransition ==> name@ == "ReplacementTransition"@,
        phase is ReplacementFailedStopped ==> name@ == "ReplacementFailedStopped"@,
        phase is RollbackTransition ==> name@ == "RollbackTransition"@,
        phase is RollbackFailedStopped ==> name@ == "RollbackFailedStopped"@,
        phase is UninstallTransition ==> name@ == "UninstallTransition"@,
        phase is NewReady ==> name@ == "NewReady"@,
        phase is UninstallReady ==> name@ == "UninstallReady"@,
        phase is PriorRestored ==> name@ == "PriorRestored"@,
        phase is FinalConfirmed ==> name@ == "FinalConfirmed"@,
{
}

/// A state line is refused exactly where JSON is asked for.
pub proof fn law_a_state_line_is_plain(json: bool, r: Result<(), Fault>)
    requires
        call_ensures(require_plain_installer_state, (json,), r),
    ensures
        r is Ok <==> !json,
{
}

// -- Phases --

/// A daemon is stopped where there is no process, the manager's where it is the
/// manager's own process, and detached where the manager has none; a manager's process
/// that is not the daemon's tells nothing.
pub proof fn law_a_launch_is_told_by_its_processes(
    daemon_pid: Option<u32>,
    manager_pid: Option<u32>,
    r: Result<InitialLaunchMechanism, Fault>,
)
    requires
        call_ensures(classify_initial_launch_mechanism, (daemon_pid, manager_pid), r),
    ensures
        r == Ok::<InitialLaunchMechanism, Fault>(InitialLaunchMechanism::Stopped) <==> daemon_pid
            is None && manager_pid is None,
        r == Ok::<InitialLaunchMechanism, Fault>(InitialLaunchMechanism::Detached) <==> daemon_pid
            is Some && manager_pid is None,
        r == Ok::<InitialLaunchMechanism, Fault>(InitialLaunchMechanism::ServiceManager)
            <==> daemon_pid is Some && manager_pid == daemon_pid,
        r is Err <==> manager_pid is Some && manager_pid != daemon_pid,
{
}

/// What a boundary that ends too early does, by how far it came.
pub proof fn law_a_broken_boundary_is_made_safe(
    phase: InstallerBoundaryPhase,
    r: InstallerBoundaryFinalization,
)
    requires
        call_ensures(installer_boundary_finalization, (phase,), r),
    ensures
        r is RestoreFailedStop <==> phase is Stopping,
        r is RestorePrior <==> phase is Stopped,
        r is ReestablishStopped <==> phase is ReplacementTransition || phase is RollbackTransition,
        r is VerifyStopped <==> phase is ReplacementFailedStopped || phase is RollbackFailedStopped,
        r is ClassifyUninstall <==> phase is UninstallTransition,
        r is VerifyFinal <==> phase is NewReady || phase is UninstallReady || phase is PriorRestored
            || phase is FinalConfirmed,
{
}

/// What a boundary broke with is always reported.
pub proof fn law_a_broken_boundary_says_why(
    phase: InstallerBoundaryPhase,
    result: FinalizationResult,
    error: Fault,
    r: Fault,
)
    requires
        call_ensures(finalize_installer_boundary_error, (phase, result, error), r),
    ensures
        stems_from(r@, error@) && r@.len() == error@.len() + 1,
{
}

/// A generation that is still seen stays exactly if nobody asked it to stop; a removal
/// counts as applied once it was made, verified or not.
pub proof fn law_what_was_asked_and_applied_is_known(
    stop: InitialGenerationStopState,
    uninstall: InstallerUninstallState,
    reusable: bool,
    applied: bool,
)
    requires
        call_ensures(InitialGenerationStopState::can_reuse_observed_generation, (stop,), reusable),
        call_ensures(InstallerUninstallState::is_applied, (uninstall,), applied),
    ensures
        reusable <==> stop == InitialGenerationStopState::NotRequested,
        applied <==> uninstall == InstallerUninstallState::AppliedPendingVerification || uninstall
            == InstallerUninstallState::Ready,
{
}

// -- The conversation --

/// A command is carried out in the phases that it is for: its transition is begun, and
/// in every other phase it is refused and nothing changes.
pub proof fn law_a_command_begins_its_transition(
    context: BoundaryContext,
    before: InstallerBoundaryPhase,
    line: String,
    after: InstallerBoundaryPhase,
    step: BoundaryStep,
)
    requires
        boundary_next(
            context,
            before,
            BoundaryStage::ReadCommand,
            BoundaryReply::Command(Ok(Some(line))),
            after,
            step,
        ),
    ensures
        ({
            let word = trim_back(line@, CharClass::LineEnd);
            &&& word == "new"@ && before is Stopped ==> after is ReplacementTransition && step == (
            BoundaryStep::Await { stage: BoundaryStage::RestartReplacement, diagnostic: None })
            &&& word == "rollback"@ && (before is Stopped || before is ReplacementFailedStopped)
                ==> after is RollbackTransition && step == (BoundaryStep::Await {
                stage: BoundaryStage::RestorePrior,
                diagnostic: None,
            })
            &&& word == "uninstall"@ && before is Stopped && context.uninstall_paths_match
                ==> after is UninstallTransition && step == (BoundaryStep::Await {
                stage: BoundaryStage::PrepareUninstall,
                diagnostic: None,
            })
            &&& word == "uninstall"@ && before is Stopped && !context.uninstall_paths_match ==> (
            step matches BoundaryStep::Finished(Err(_)))
            &&& word == "finish"@ && before is NewReady ==> after is ReplacementTransition && step
                == (BoundaryStep::Await { stage: BoundaryStage::ConfirmFinal, diagnostic: None })
            &&& word == "finish"@ && before is UninstallReady ==> after is UninstallReady && step
                == (BoundaryStep::Await { stage: BoundaryStage::ConfirmFinal, diagnostic: None })
            &&& word == "abort"@ && (before is NewReady || before is FinalConfirmed)
                ==> after is ReplacementTransition && step == (BoundaryStep::Await {
                stage: BoundaryStage::StopReplacement,
                diagnostic: None,
            })
            &&& word == "release"@ && before is FinalConfirmed ==> after is FinalConfirmed && step
                == (BoundaryStep::Await { stage: BoundaryStage::VerifyRelease, diagnostic: None })
            &&& before is Stopping || before is PriorRestored || before is RollbackFailedStopped
                || before is ReplacementTransition || before is RollbackTransition
                || before is UninstallTransition ==> (step matches BoundaryStep::Finished(Err(_)))
            &&& before is ReplacementFailedStopped && word != "rollback"@ ==> (step matches
                BoundaryStep::Finished(Err(_)))
            &&& before is UninstallReady && word != "finish"@ ==> (step matches
                BoundaryStep::Finished(Err(_)))
        }),
{
    reveal_strlit("new");
    reveal_strlit("uninstall");
    reveal_strlit("rollback");
    reveal_strlit("finish");
    reveal_strlit("abort");
    reveal_strlit("release");
    assert("new"@.len() == 3 && "uninstall"@.len() == 9 && "rollback"@.len() == 8);
    assert("finish"@.len() == 6 && "abort"@.len() == 5 && "release"@.len() == 7);
}

/// Whatever the asking side may ask for, the holder that stands where it was last told
/// carries out.
pub proof fn law_an_askable_request_is_carried_out(
    context: BoundaryContext,
    request: ClientRequest,
    client: SelfUpdateBoundaryClientPhase,
    holder: InstallerBoundaryPhase,
)
    requires
        may_ask(request, client),
        client is Stopped ==> holder is Stopped,
        client is NewReady ==> holder is NewReady,
        client is ReplacementFailedStopped ==> holder is ReplacementFailedStopped,
        client is FinalConfirmed ==> holder is FinalConfirmed,
    ensures
        commanded(context, holder, request_word(request)) matches Ok((phase, stage)) && match request {
            ClientRequest::RestartReplacement => stage is RestartReplacement,
            ClientRequest::RestorePrior => stage is RestorePrior,
            ClientRequest::StopReplacement => stage is StopReplacement,
            ClientRequest::VerifyReplacement => stage is ConfirmFinal,
            ClientRequest::Release => stage is VerifyRelease,
        },
{
    law_every_request_is_understood(request);
}

/// What can be asked for, and when: a replacement is started and a prior daemon brought
/// back while nothing runs, a replacement is stopped while it runs, verified once it is
/// ready, and released once it was verified.
pub proof fn law_requests_fit_what_runs(
    request: ClientRequest,
    phase: SelfUpdateBoundaryClientPhase,
)
    ensures
        may_ask(request, phase) <==> match phase {
            SelfUpdateBoundaryClientPhase::Stopped => request
                == ClientRequest::RestartReplacement || request == ClientRequest::RestorePrior,
            SelfUpdateBoundaryClientPhase::ReplacementFailedStopped => request
                == ClientRequest::RestorePrior,
            SelfUpdateBoundaryClientPhase::NewReady => request == ClientRequest::StopReplacement
                || request == ClientRequest::VerifyReplacement,
            SelfUpdateBoundaryClientPhase::FinalConfirmed => request
                == ClientRequest::StopReplacement || request == ClientRequest::Release,
            _ => false,
        },
        forall|other: ClientRequest|
            #![trigger transition_of(other)]
            transition_of(request) == transition_of(other) ==> request == other,
{
}

/// A transition that succeeded is reported as what it brought about, in its phase; one
/// that failed safely as its failure; and every other failure ends the conversation
/// with its cause.
pub proof fn law_a_transition_is_reported_as_it_went(
    context: BoundaryContext,
    before: InstallerBoundaryPhase,
    stage: BoundaryStage,
    reply: BoundaryReply,
    after: InstallerBoundaryPhase,
    step: BoundaryStep,
)
    requires
        boundary_next(context, before, stage, reply, after, step),
    ensures
        stage is RestartReplacement ==> {
            &&& (reply matches BoundaryReply::Outcome(Ok(_))) ==> after is NewReady && (step matches
                BoundaryStep::Await { stage: BoundaryStage::Publish { marker, last }, .. } && marker
                is NewReady && !last)
            &&& reply matches BoundaryReply::Outcome(Err(error)) ==> after == before && step == (
            BoundaryStep::Await {
                stage: BoundaryStage::ReestablishAbsence(error),
                diagnostic: None,
            })
        },
        stage matches BoundaryStage::ReestablishAbsence(cause) ==> {
            &&& (reply matches BoundaryReply::Outcome(Ok(_))) ==> after is ReplacementFailedStopped
                && (step matches BoundaryStep::Await {
                stage: BoundaryStage::Publish { marker, last },
                diagnostic: Some(_),
            } && marker is NewFailed && !last)
            &&& (reply matches BoundaryReply::Outcome(Err(_))) ==> (step matches
                BoundaryStep::Finished(Err(fault)) && stems_from(fault@, cause@))
        },
        stage is PrepareUninstall ==> {
            &&& reply == BoundaryReply::Uninstall(Ok(InstallerUninstallTransition::Ready))
                ==> after is UninstallReady && (step matches BoundaryStep::Await {
                stage: BoundaryStage::Publish { marker, last },
                ..
            } && marker is UninstallReady && !last)
            &&& (reply matches BoundaryReply::Uninstall(
                Ok(InstallerUninstallTransition::RestoredStopped(_)),
            )) ==> after is Stopped && (step matches BoundaryStep::Await {
                stage: BoundaryStage::Publish { marker, last },
                diagnostic: Some(_),
            } && marker is UninstallFailed && !last)
            &&& reply matches BoundaryReply::Uninstall(Err(error)) ==> (step matches
                BoundaryStep::Finished(Err(fault)) && stems_from(fault@, error@))
        },
        stage is RestorePrior ==> {
            &&& reply == BoundaryReply::Rollback(Ok(InstallerRollbackTransition::Restored))
                ==> after is PriorRestored && (step matches BoundaryStep::Await {
                stage: BoundaryStage::Publish { marker, last },
                ..
            } && marker is OldRestored && last)
            &&& (reply matches BoundaryReply::Rollback(
                Ok(InstallerRollbackTransition::FailedStopped(_)),
            )) ==> after is RollbackFailedStopped && (step matches BoundaryStep::Await {
                stage: BoundaryStage::Publish { marker, last },
                diagnostic: Some(_),
            } && marker is OldFailed && !last)
            &&& reply matches BoundaryReply::Rollback(Err(error)) ==> (step matches
                BoundaryStep::Finished(Err(fault)) && stems_from(fault@, error@))
        },
        stage is ConfirmFinal && (reply matches BoundaryReply::Outcome(Ok(_)))
            ==> after is FinalConfirmed && (step matches BoundaryStep::Await {
            stage: BoundaryStage::Publish { marker, last },
            ..
        } && marker is FinalConfirmed && !last),
        stage is StopReplacement && (reply matches BoundaryReply::Outcome(Ok(_)))
            ==> after is ReplacementFailedStopped && (step matches BoundaryStep::Await {
            stage: BoundaryStage::Publish { marker, last },
            ..
        } && marker is NewStopped && !last),
        stage is VerifyRelease && (reply matches BoundaryReply::Outcome(Ok(_)))
            ==> after is FinalConfirmed && (step matches BoundaryStep::Await {
            stage: BoundaryStage::Publish { marker, last },
            ..
        } && marker is AuthorityReleased && last),
        stage is ConfirmFinal || stage is StopReplacement || stage is VerifyRelease
            || stage is Publish ==> (reply matches BoundaryReply::Outcome(Err(error)) ==> (step
            matches BoundaryStep::Finished(Err(fault)) && stems_from(fault@, error@))),
        stage matches BoundaryStage::Publish { last, .. } ==> ((reply matches
            BoundaryReply::Outcome(Ok(_))) ==> after == before && if last {
            step matches BoundaryStep::Finished(Ok(_))
        } else {
            step == (BoundaryStep::Await { stage: BoundaryStage::ReadCommand, diagnostic: None })
        }),
        stage is ReadCommand ==> {
            &&& reply == BoundaryReply::Command(Ok(None)) ==> (step matches BoundaryStep::Finished(
                Err(_),
            ))
            &&& reply matches BoundaryReply::Command(Err(error)) ==> (step matches
                BoundaryStep::Finished(Err(fault)) && stems_from(fault@, error@))
        },
{
}

/// An answer that the asking side does not wait for is never taken for one that it
/// does.
pub proof fn law_an_answer_means_what_was_reported(request: ClientRequest, line: Seq<char>)
    ensures
        answered(request, line).1 == Ok::<ClientAnswer, Seq<char>>(
            ClientAnswer::Restarted(SelfUpdateBoundaryRestart::Ready),
        ) ==> request == ClientRequest::RestartReplacement && line == boundary_line(
            "new state ready"@,
        ) && answered(request, line).0 is NewReady,
        answered(request, line).1 == Ok::<ClientAnswer, Seq<char>>(
            ClientAnswer::Restarted(SelfUpdateBoundaryRestart::FailedStopped),
        ) ==> request == ClientRequest::RestartReplacement && line == boundary_line(
            "new state failed"@,
        ) && answered(request, line).0 is ReplacementFailedStopped,
        answered(request, line).1 == Ok::<ClientAnswer, Seq<char>>(ClientAnswer::Stopped)
            ==> request == ClientRequest::StopReplacement && line == boundary_line(
            "new state stopped"@,
        ) && answered(request, line).0 is ReplacementFailedStopped,
        answered(request, line).1 == Ok::<ClientAnswer, Seq<char>>(ClientAnswer::Verified)
            ==> request == ClientRequest::VerifyReplacement && line == boundary_line(
            "final state confirmed"@,
        ) && answered(request, line).0 is FinalConfirmed,
        answered(request, line).1 == Ok::<ClientAnswer, Seq<char>>(ClientAnswer::Close) ==> answered(
            request,
            line,
        ).0 is Finished && (request == ClientRequest::RestorePrior && line == boundary_line(
            "old state restored"@,
        ) || request == ClientRequest::Release && line == boundary_line(
            "lifecycle authority released"@,
        )),
{
}

/// A holder ended well exactly if its process was waited for and succeeded; one that
/// was left is reported exactly if it did not.
pub proof fn law_a_holder_ends_as_its_process(
    exit: HolderExit,
    closed: Result<(), Fault>,
    report: Option<String>,
)
    requires
        call_ensures(close_and_wait, (exit,), closed),
        call_ensures(abandoned_holder_report, (exit,), report),
    ensures
        closed is Ok <==> (exit matches HolderExit::Ended { success, .. } && success),
        report is Some <==> closed is Err && !(exit is Reaped),
        exit matches HolderExit::Lost(error) ==> (closed matches Err(fault) && stems_from(
            fault@,
            error@,
        )),
{
}

} // verus!
