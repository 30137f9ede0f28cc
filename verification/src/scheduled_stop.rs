//! Stopping the daemon of a scheduled task while an installation is rolled back.
use vstd::prelude::*;

use crate::fault::Fault;
use crate::removal::{misfit, misfit_fault};
use crate::service_state::{
    classify_scheduled_daemon_stop_completion, scheduled_inspection, scheduled_stop_report,
    stop_exact_scheduled_daemon_generation, ScheduledStopStep,
};
use crate::settlement::{recorded, DaemonGeneration, TransientDiagnostics};

verus! {

/// The operation that the stop waits for.
#[derive(Debug, PartialEq, Eq)]
pub enum RollbackStopStage {
    /// Looking for the daemon that runs.
    LookGeneration,
    /// Asking exactly this daemon to end.
    Request { target: DaemonGeneration },
    /// Looking whether it still runs.
    Observe { pid: u32, diagnostics: TransientDiagnostics },
    /// Telling the scheduler that the task ended; with what was seen of a daemon
    /// that was asked to end.
    EndTask { asked: Option<TransientDiagnostics> },
    /// Removing the PID file.
    CleanUp { asked: Option<TransientDiagnostics> },
    /// Confirming that the request to end was durable.
    RequireDurable { diagnostics: TransientDiagnostics, finalization: Result<(), Fault> },
}

/// What the operation gave.
#[derive(Debug, PartialEq, Eq)]
pub enum RollbackStopReply {
    Generation(Result<Option<DaemonGeneration>, Fault>),
    Running(Result<bool, Fault>),
    Done(Result<(), Fault>),
}

/// What the stop does next.
#[derive(Debug, PartialEq, Eq)]
pub enum RollbackStopStep {
    Await(RollbackStopStage),
    Finished(Result<(), Fault>),
}

/// Whether the stop ends with a failure.
pub open spec fn stop_fails(step: RollbackStopStep, messages: Seq<Seq<char>>) -> bool {
    step matches RollbackStopStep::Finished(Err(fault)) && fault@ == messages
}

/// Whether what was recorded is consistent.
pub open spec fn stop_wf(stage: RollbackStopStage) -> bool {
    match stage {
        RollbackStopStage::Observe { diagnostics, .. } => diagnostics.wf(),
        RollbackStopStage::EndTask { asked: Some(diagnostics) } => diagnostics.wf(),
        RollbackStopStage::CleanUp { asked: Some(diagnostics) } => diagnostics.wf(),
        RollbackStopStage::RequireDurable { diagnostics, .. } => diagnostics.wf(),
        _ => true,
    }
}

/// What follows once the scheduler was told, or could not be.
pub open spec fn finalized(
    asked: Option<TransientDiagnostics>,
    outcome: Result<(), Fault>,
    step: RollbackStopStep,
) -> bool {
    match asked {
        Some(diagnostics) => step == RollbackStopStep::Await(
            RollbackStopStage::RequireDurable { diagnostics, finalization: outcome },
        ),
        None => step == RollbackStopStep::Finished(outcome),
    }
}

/// What the stop does next. The daemon is asked to end once, and is then looked
/// at until it is gone; the scheduler is told after that.
pub open spec fn rollback_stop_next(
    stage: RollbackStopStage,
    reply: RollbackStopReply,
    step: RollbackStopStep,
) -> bool {
    match (stage, reply) {
        (RollbackStopStage::LookGeneration, RollbackStopReply::Generation(outcome)) => {
            match outcome {
                Err(error) => stop_fails(
                    step,
                    seq![
                        "checking the scheduled daemon generation before rollback cleanup"@,
                    ] + error@,
                ),
                Ok(None) => step == RollbackStopStep::Await(
                    RollbackStopStage::EndTask { asked: None },
                ),
                Ok(Some(target)) => step == RollbackStopStep::Await(
                    RollbackStopStage::Request { target },
                ),
            }
        },
        (RollbackStopStage::Request { target }, RollbackStopReply::Done(outcome)) => match outcome {
            Err(error) => stop_fails(
                step,
                seq!["requesting graceful shutdown of the scheduled daemon"@] + error@,
            ),
            Ok(_) => step matches RollbackStopStep::Await(
                RollbackStopStage::Observe { pid, diagnostics },
            ) && pid == target.pid && diagnostics.wf() && diagnostics.count == 0,
        },
        (RollbackStopStage::Observe { pid, diagnostics }, RollbackStopReply::Running(outcome)) => {
            match outcome {
                Ok(false) => step == RollbackStopStep::Await(
                    RollbackStopStage::EndTask { asked: Some(diagnostics) },
                ),
                Ok(true) => step == RollbackStopStep::Await(
                    RollbackStopStage::Observe { pid, diagnostics },
                ),
                Err(error) => step matches RollbackStopStep::Await(
                    RollbackStopStage::Observe { pid: p, diagnostics: after },
                ) && p == pid && recorded(
                    diagnostics,
                    scheduled_inspection(
                        pid,
                        seq!["checking the exact scheduled daemon shutdown target"@] + error@,
                    ),
                    after,
                ),
            }
        },
        (RollbackStopStage::EndTask { asked }, RollbackStopReply::Done(outcome)) => match outcome {
            Ok(_) => step == RollbackStopStep::Await(RollbackStopStage::CleanUp { asked }),
            Err(_) => finalized(asked, outcome, step),
        },
        (RollbackStopStage::CleanUp { asked }, RollbackStopReply::Done(outcome)) => finalized(
            asked,
            outcome,
            step,
        ),
        (
            RollbackStopStage::RequireDurable { diagnostics, finalization },
            RollbackStopReply::Done(durability),
        ) => match scheduled_stop_report(
            finalization,
            durability,
            diagnostics.summary("transient authority-probe failure"@),
        ) {
            None => step matches RollbackStopStep::Finished(Ok(_)),
            Some(messages) => stop_fails(step, messages),
        },
        _ => stop_fails(step, misfit()),
    }
}

fn stop_fault(fault: Fault) -> (r: RollbackStopStep)
    ensures
        stop_fails(r, fault@),
{
    RollbackStopStep::Finished(Err(fault))
}

fn finish_stop(asked: Option<TransientDiagnostics>, outcome: Result<(), Fault>) -> (r:
    RollbackStopStep)
    ensures
        finalized(asked, outcome, r),
{
    match asked {
        Some(diagnostics) => RollbackStopStep::Await(
            RollbackStopStage::RequireDurable { diagnostics, finalization: outcome },
        ),
        None => RollbackStopStep::Finished(outcome),
    }
}

/// What the stop does next. It starts with `RollbackStopStage::LookGeneration`.
pub fn stop_scheduled_daemon_for_rollback(stage: RollbackStopStage, reply: RollbackStopReply) -> (r:
    RollbackStopStep)
    requires
        stop_wf(stage),
    ensures
        rollback_stop_next(stage, reply, r),
        r matches RollbackStopStep::Await(next) ==> stop_wf(next),
{
    match (stage, reply) {
        (RollbackStopStage::LookGeneration, RollbackStopReply::Generation(outcome)) => {
            match outcome {
                Err(error) => stop_fault(
                    error.within("checking the scheduled daemon generation before rollback cleanup"),
                ),
                Ok(None) => RollbackStopStep::Await(RollbackStopStage::EndTask { asked: None }),
                Ok(Some(target)) => RollbackStopStep::Await(RollbackStopStage::Request { target }),
            }
        },
        (RollbackStopStage::Request { target }, RollbackStopReply::Done(outcome)) => match outcome {
            Err(error) => stop_fault(
                error.within("requesting graceful shutdown of the scheduled daemon"),
            ),
            Ok(()) => RollbackStopStep::Await(
                RollbackStopStage::Observe {
                    pid: target.pid,
                    diagnostics: TransientDiagnostics::new(),
                },
            ),
        },
        (RollbackStopStage::Observe { pid, diagnostics }, RollbackStopReply::Running(outcome)) => {
            let look = match outcome {
                Ok(running) => Ok(running),
                Err(error) => Err(
                    error.within("checking the exact scheduled daemon shutdown target"),
                ),
            };
            match stop_exact_scheduled_daemon_generation(pid, diagnostics, look) {
                ScheduledStopStep::Finalize(diagnostics) => RollbackStopStep::Await(
                    RollbackStopStage::EndTask { asked: Some(diagnostics) },
                ),
                ScheduledStopStep::Again(diagnostics) => RollbackStopStep::Await(
                    RollbackStopStage::Observe { pid, diagnostics },
                ),
            }
        },
        (RollbackStopStage::EndTask { asked }, RollbackStopReply::Done(outcome)) => match outcome {
            Ok(()) => RollbackStopStep::Await(RollbackStopStage::CleanUp { asked }),
            Err(fault) => finish_stop(asked, Err(fault)),
        },
        (RollbackStopStage::CleanUp { asked }, RollbackStopReply::Done(outcome)) => finish_stop(
            asked,
            outcome,
        ),
        (
            RollbackStopStage::RequireDurable { diagnostics, finalization },
            RollbackStopReply::Done(durability),
        ) => match classify_scheduled_daemon_stop_completion(finalization, durability, diagnostics) {
            Ok(()) => RollbackStopStep::Finished(Ok(())),
            Err(fault) => stop_fault(fault),
        },
        _ => stop_fault(misfit_fault()),
    }
}

/// A daemon that was asked to end is never given up while it may still run: the
/// scheduler is told only once it was seen to be gone, or where none ran from
/// the start, and the daemon is not asked a second time.
pub proof fn law_the_scheduler_is_told_only_of_an_ended_daemon(
    stage: RollbackStopStage,
    reply: RollbackStopReply,
    step: RollbackStopStep,
)
    requires
        rollback_stop_next(stage, reply, step),
    ensures
        step matches RollbackStopStep::Await(RollbackStopStage::EndTask { asked }) ==> (
        asked is Some && stage is Observe && reply == RollbackStopReply::Running(Ok(false)) || asked
            is None && stage == RollbackStopStage::LookGeneration && reply
            == RollbackStopReply::Generation(Ok(None))),
        step matches RollbackStopStep::Await(RollbackStopStage::Request { .. }) ==> stage
            == RollbackStopStage::LookGeneration,
        stage is Observe && reply is Running ==> step is Await,
        step matches RollbackStopStep::Finished(Ok(_)) ==> stage is RequireDurable
            || stage is CleanUp,
{
}

} // verus!
