//! Restoring the daemon that ran before an update that could not stop it, and
//! rolling an update back.
use vstd::prelude::*;

use crate::boundary_phase::{
    restart_restoration, FailedStopRestoration, InitialGenerationStopState, InitialLaunchMechanism,
};
use crate::boundary_protocol::InstallerRollbackTransition;
use crate::daemon_identity::{require_running_daemon_executable, required_sight_problem};
use crate::fault::{join2, joined, Fault};
use crate::lifecycle::{
    captured_executable_problem, same_generation, Owner, SelfUpdateDaemonRestart,
};
use crate::lifecycle_checks::{held_problem, service_state_problem};
use crate::lifecycle_steps::{
    clean_problem, lifecycle_fails, more_said, LifecycleReply, LifecycleStep,
};
use crate::removal::{misfit, misfit_fault};
use crate::settlement::{optional_generation, DaemonGeneration};
use crate::text::texts;

verus! {

// -- Starting the prior daemon again --

/// The operation that starting the prior daemon again waits for.
#[derive(Debug, PartialEq, Eq)]
pub enum RestoreStage {
    /// Stopping the generation that runs in its place.
    StopObserved { target: DaemonGeneration },
    /// Acquiring the absence.
    Reacquire { expected: Option<DaemonGeneration> },
    /// Looking at the service.
    Ready,
    /// Looking at the executable.
    CheckExecutable,
    /// Making sure that the absence that is to be given up is one.
    Release,
    /// Starting the installed service.
    StartInstalled,
    /// Starting the daemon outside the service.
    StartDetached,
    /// Looking at the daemon that was started.
    LookStarted,
    /// Looking at the service of that daemon.
    RecordService { pid: u32 },
    /// Stopping whatever runs after a failure.
    Reestablish { error: Fault },
}

/// How starting the prior daemon again ends.
pub open spec fn restored_at_last(
    before: SelfUpdateDaemonRestart,
    after: SelfUpdateDaemonRestart,
    step: LifecycleStep<RestoreStage, FailedStopRestoration>,
) -> bool {
    after.same_but_diagnostics(before) && after.said().len() == 0 && match clean_problem(
        before,
        "the exact prior daemon state was restored after a delayed stop, but lifecycle observation diagnostics remain"@,
    ) {
        None => step matches LifecycleStep::Finished(Ok(FailedStopRestoration::Exact)),
        Some(messages) => step matches LifecycleStep::Finished(
            Ok(FailedStopRestoration::ExactWithDiagnostics(fault)),
        ) && fault@ == seq![
            "the exact prior daemon state was restored and remains running; historical lifecycle observation diagnostics do not authorize stopping it again"@,
        ] + messages,
    }
}

/// Whether a failure leads to stopping whatever runs.
pub open spec fn stops_again(
    step: LifecycleStep<RestoreStage, FailedStopRestoration>,
    messages: Seq<Seq<char>>,
) -> bool {
    step matches LifecycleStep::Await(RestoreStage::Reestablish { error }) && error@ == messages
}

/// Whether a procedure waits for an operation.
pub open spec fn restore_awaits(
    step: LifecycleStep<RestoreStage, FailedStopRestoration>,
    stage: RestoreStage,
) -> bool {
    step == LifecycleStep::<RestoreStage, FailedStopRestoration>::Await(stage)
}

/// How starting the prior daemon again goes on. Until the absence is given up a
/// failure ends it; from there on whatever runs is stopped first.
pub open spec fn restore_next(
    before: SelfUpdateDaemonRestart,
    stage: RestoreStage,
    reply: LifecycleReply,
    after: SelfUpdateDaemonRestart,
    step: LifecycleStep<RestoreStage, FailedStopRestoration>,
) -> bool {
    match (stage, reply) {
        (RestoreStage::StopObserved { target }, LifecycleReply::Stopped(r)) => match r {
            Err(error) => after == before && lifecycle_fails(step, error@),
            Ok(settlement) => more_said(before, after, texts(settlement.diagnostics@))
                && restore_awaits(step, RestoreStage::Reacquire { expected: Some(target) }),
        },
        (RestoreStage::Reacquire { expected }, LifecycleReply::Done(r)) => after == before
            && match r {
            Err(error) => lifecycle_fails(step, error@),
            Ok(_) => restore_awaits(step, RestoreStage::Ready),
        },
        (RestoreStage::Ready, LifecycleReply::Service(observed)) => after == before
            && match before.restart_readiness_problem(observed) {
            Some(messages) => lifecycle_fails(step, messages),
            None => restore_awaits(step, RestoreStage::CheckExecutable),
        },
        (RestoreStage::CheckExecutable, LifecycleReply::Executable(look)) => after == before
            && match captured_executable_problem(
            before.initial_executable.display@,
            before.initial_executable_state,
            true,
            look,
        ) {
            Some(messages) => lifecycle_fails(
                step,
                seq![
                    "initial daemon executable changed before its running state could be restored"@,
                ] + messages,
            ),
            None => restore_awaits(step, RestoreStage::Release),
        },
        (RestoreStage::Release, LifecycleReply::Done(verified)) => after == (
        SelfUpdateDaemonRestart { absence_held: false, ..before }) && match held_problem(
            before.absence_held,
            "daemon absence lease was not held before installer restart"@,
            verified,
        ) {
            Some(messages) => lifecycle_fails(step, messages),
            None => match before.initial_launch_mechanism {
                InitialLaunchMechanism::ServiceManager => restore_awaits(
                    step,
                    RestoreStage::StartInstalled,
                ),
                InitialLaunchMechanism::Detached => restore_awaits(
                    step,
                    RestoreStage::StartDetached,
                ),
                InitialLaunchMechanism::Stopped => stops_again(
                    step,
                    seq!["an initially stopped daemon cannot enter running-state restoration"@],
                ),
            },
        },
        (RestoreStage::StartInstalled, LifecycleReply::Done(r)) => after == before && match r {
            Err(error) => stops_again(step, error@),
            Ok(_) => restore_awaits(step, RestoreStage::LookStarted),
        },
        (RestoreStage::StartDetached, LifecycleReply::Done(r)) => after == before && match r {
            Err(error) => stops_again(step, error@),
            Ok(_) => restore_awaits(step, RestoreStage::LookStarted),
        },
        (RestoreStage::LookStarted, LifecycleReply::Sight(sight)) => match required_sight_problem(
            "the prior running daemon state could not be restored"@,
            sight,
        ) {
            Some(messages) => after == before && stops_again(step, messages),
            None => after == (SelfUpdateDaemonRestart {
                executable: Owner::Initial,
                service_executable: Owner::Initial,
                ..before
            }) && restore_awaits(step, RestoreStage::RecordService { pid: sight->Ok_0->0.pid }),
        },
        (RestoreStage::RecordService { pid }, LifecycleReply::Service(observed)) => {
            match before.restarted_service_problem(pid, observed) {
                Some(messages) => after == before && stops_again(step, messages),
                None => restored_at_last(
                    (SelfUpdateDaemonRestart {
                        expected_service_snapshot: Some(observed->Ok_0),
                        restarted_pid: Some(pid),
                        initial_stop_state: InitialGenerationStopState::NotRequested,
                        ..before
                    }),
                    after,
                    step,
                ),
            }
        },
        (RestoreStage::Reestablish { error }, LifecycleReply::Done(absence)) => after == before && (
        step matches LifecycleStep::Finished(r) && restart_restoration(
            Err(error),
            Ok(()),
            absence,
            r,
        )),
        _ => after == before && lifecycle_fails(step, misfit()),
    }
}

impl SelfUpdateDaemonRestart {
    /// Begins to start the prior daemon again, in place of a generation that was
    /// seen running.
    pub fn begin_restart_initial_generation(observed: Option<DaemonGeneration>) -> (r: RestoreStage)
        ensures
            r == (match observed {
                Some(target) => RestoreStage::StopObserved { target },
                None => RestoreStage::Reacquire { expected: None },
            }),
    {
        match observed {
            Some(target) => RestoreStage::StopObserved { target },
            None => RestoreStage::Reacquire { expected: None },
        }
    }

    /// Goes on starting the prior daemon again.
    pub fn restart_initial_generation_after_failed_stop(
        &mut self,
        stage: RestoreStage,
        reply: LifecycleReply,
    ) -> (r: LifecycleStep<RestoreStage, FailedStopRestoration>)
        ensures
            restore_next(*old(self), stage, reply, *final(self), r),
    {
        match (stage, reply) {
            (RestoreStage::StopObserved { target }, LifecycleReply::Stopped(r)) => match r {
                Err(error) => LifecycleStep::Finished(Err(error)),
                Ok(settlement) => {
                    let _ = self.record_lifecycle_settlement(settlement);
                    LifecycleStep::Await(RestoreStage::Reacquire { expected: Some(target) })
                },
            },
            (RestoreStage::Reacquire { expected: _ }, LifecycleReply::Done(r)) => match r {
                Err(error) => LifecycleStep::Finished(Err(error)),
                Ok(()) => LifecycleStep::Await(RestoreStage::Ready),
            },
            (RestoreStage::Ready, LifecycleReply::Service(observed)) => {
                match self.verify_service_state_ready_for_initial_restart(observed) {
                    Err(fault) => LifecycleStep::Finished(Err(fault)),
                    Ok(()) => LifecycleStep::Await(RestoreStage::CheckExecutable),
                }
            },
            (RestoreStage::CheckExecutable, LifecycleReply::Executable(look)) => {
                match self.verify_initial_executable_unchanged(look) {
                    Err(fault) => LifecycleStep::Finished(Err(fault)),
                    Ok(()) => LifecycleStep::Await(RestoreStage::Release),
                }
            },
            (RestoreStage::Release, LifecycleReply::Done(verified)) => {
                match self.release_absence_for_restart(verified) {
                    Err(fault) => LifecycleStep::Finished(Err(fault)),
                    Ok(()) => match self.initial_launch_mechanism {
                        InitialLaunchMechanism::ServiceManager => LifecycleStep::Await(
                            RestoreStage::StartInstalled,
                        ),
                        InitialLaunchMechanism::Detached => LifecycleStep::Await(
                            RestoreStage::StartDetached,
                        ),
                        InitialLaunchMechanism::Stopped => LifecycleStep::Await(
                            RestoreStage::Reestablish {
                                error: Fault::of(
                                    "an initially stopped daemon cannot enter running-state restoration",
                                ),
                            },
                        ),
                    },
                }
            },
            (RestoreStage::StartInstalled, LifecycleReply::Done(r)) => match r {
                Err(error) => LifecycleStep::Await(RestoreStage::Reestablish { error }),
                Ok(()) => LifecycleStep::Await(RestoreStage::LookStarted),
            },
            (RestoreStage::StartDetached, LifecycleReply::Done(r)) => match r {
                Err(error) => LifecycleStep::Await(RestoreStage::Reestablish { error }),
                Ok(()) => LifecycleStep::Await(RestoreStage::LookStarted),
            },
            (RestoreStage::LookStarted, LifecycleReply::Sight(sight)) => {
                match require_running_daemon_executable(
                    "the prior running daemon state could not be restored",
                    sight,
                ) {
                    Err(error) => LifecycleStep::Await(RestoreStage::Reestablish { error }),
                    Ok(pid) => {
                        self.executable = Owner::Initial;
                        self.service_executable = Owner::Initial;
                        LifecycleStep::Await(RestoreStage::RecordService { pid })
                    },
                }
            },
            (RestoreStage::RecordService { pid }, LifecycleReply::Service(observed)) => {
                match self.record_expected_service_snapshot_after_restart(pid, observed) {
                    Err(error) => LifecycleStep::Await(RestoreStage::Reestablish { error }),
                    Ok(()) => {
                        self.restarted_pid = Some(pid);
                        self.initial_stop_state = InitialGenerationStopState::NotRequested;
                        match self.require_clean_lifecycle_settlement(
                            "the exact prior daemon state was restored after a delayed stop, but lifecycle observation diagnostics remain",
                        ) {
                            Ok(()) => LifecycleStep::Finished(Ok(FailedStopRestoration::Exact)),
                            Err(error) => LifecycleStep::Finished(
                                Ok(
                                    FailedStopRestoration::ExactWithDiagnostics(
                                        error.within(
                                            "the exact prior daemon state was restored and remains running; historical lifecycle observation diagnostics do not authorize stopping it again",
                                        ),
                                    ),
                                ),
                            ),
                        }
                    },
                }
            },
            (RestoreStage::Reestablish { error }, LifecycleReply::Done(absence)) => match absence {
                Ok(()) => LifecycleStep::Finished(
                    Err(
                        error.within(
                            "the prior daemon restart failed; exact daemon absence was re-established before lifecycle authority was released",
                        ),
                    ),
                ),
                Err(stop) => LifecycleStep::Finished(
                    Err(
                        error.context(
                            join2(
                                "the prior daemon restart failed and exact daemon absence could not be re-established: ",
                                stop.detail().as_str(),
                            ),
                        ),
                    ),
                ),
            },
            _ => LifecycleStep::Finished(Err(misfit_fault())),
        }
    }
}

/// The prior daemon is started only once the absence that was held has been
/// found to be one and has been given up.
pub proof fn law_prior_daemon_starts_from_absence(
    before: SelfUpdateDaemonRestart,
    stage: RestoreStage,
    reply: LifecycleReply,
    after: SelfUpdateDaemonRestart,
    step: LifecycleStep<RestoreStage, FailedStopRestoration>,
)
    requires
        restore_next(before, stage, reply, after, step),
        step matches LifecycleStep::Await(next) && (next is StartInstalled || next is StartDetached),
    ensures
        before.absence_held && !after.absence_held,
        reply matches LifecycleReply::Done(Ok(_)),
{
}

/// A daemon that runs again as it did before is not stopped because of earlier
/// diagnostics.
pub proof fn law_diagnostics_stop_no_restored_daemon(
    before: SelfUpdateDaemonRestart,
    pid: u32,
    reply: LifecycleReply,
    after: SelfUpdateDaemonRestart,
    step: LifecycleStep<RestoreStage, FailedStopRestoration>,
)
    requires
        restore_next(before, RestoreStage::RecordService { pid }, reply, after, step),
        reply matches LifecycleReply::Service(observed) && before.restarted_service_problem(
            pid,
            observed,
        ) is None,
    ensures
        step matches LifecycleStep::Finished(Ok(_)),
        after.restarted_pid == Some(pid),
{
}

// -- After a stop that failed --

/// The operation that restoring the state after a failed stop waits for.
#[derive(Debug, PartialEq, Eq)]
pub enum FailedStopStage {
    /// Looking for a running generation.
    LookGeneration,
    /// Looking at the service, where the initial daemon still runs.
    CheckService,
    /// Looking at the executable.
    CheckExecutable,
    /// Waiting for the initial generation that may have been asked to stop.
    Settle,
    /// Starting the prior daemon again.
    Restart { observed: Option<DaemonGeneration> },
    /// Stopping a generation where none ran before.
    StopObserved { target: DaemonGeneration },
    /// Acquiring the absence.
    Reacquire { expected: Option<DaemonGeneration> },
    /// Looking at the service, where no daemon ran before.
    CheckStoppedService,
    /// Making sure that the absence is one.
    VerifyAbsence,
}

/// Whether a procedure waits for an operation.
pub open spec fn failed_stop_awaits(
    step: LifecycleStep<FailedStopStage, FailedStopRestoration>,
    stage: FailedStopStage,
) -> bool {
    step == LifecycleStep::<FailedStopStage, FailedStopRestoration>::Await(stage)
}

/// How restoring the state goes on once the running generation is known. The
/// initial one may only be kept if it was not asked to stop.
pub open spec fn generation_seen(
    state: SelfUpdateDaemonRestart,
    observed: Option<DaemonGeneration>,
    step: LifecycleStep<FailedStopStage, FailedStopRestoration>,
) -> bool {
    if state.initial_pid is Some {
        if optional_generation(observed) == optional_generation(state.initial_generation)
            && state.initial_stop_state == InitialGenerationStopState::NotRequested {
            failed_stop_awaits(step, FailedStopStage::CheckService)
        } else if state.initial_stop_state == InitialGenerationStopState::MayHaveBeenRequested {
            if state.initial_generation is None {
                lifecycle_fails(
                    step,
                    seq!["an issued initial stop had no retained daemon generation token"@],
                )
            } else {
                failed_stop_awaits(step, FailedStopStage::Settle)
            }
        } else {
            failed_stop_awaits(step, FailedStopStage::Restart { observed })
        }
    } else {
        match observed {
            Some(target) => failed_stop_awaits(step, FailedStopStage::StopObserved { target }),
            None => failed_stop_awaits(step, FailedStopStage::Reacquire { expected: None }),
        }
    }
}

/// How restoring the state after a failed stop goes on.
pub open spec fn failed_stop_next(
    before: SelfUpdateDaemonRestart,
    stage: FailedStopStage,
    reply: LifecycleReply,
    after: SelfUpdateDaemonRestart,
    step: LifecycleStep<FailedStopStage, FailedStopRestoration>,
) -> bool {
    match (stage, reply) {
        (FailedStopStage::LookGeneration, LifecycleReply::Generation(r)) => after == before
            && match r {
            Err(error) => lifecycle_fails(step, error@),
            Ok(observed) => generation_seen(before, observed, step),
        },
        (FailedStopStage::CheckService, LifecycleReply::Service(observed)) => after == before
            && match service_state_problem(
            observed,
            before.initial_service_snapshot@.with_manager_pid(before.initial_manager()),
        ) {
            Some(messages) => lifecycle_fails(step, messages),
            None => failed_stop_awaits(step, FailedStopStage::CheckExecutable),
        },
        (FailedStopStage::CheckExecutable, LifecycleReply::Executable(look)) => after == before
            && match captured_executable_problem(
            before.initial_executable.display@,
            before.initial_executable_state,
            true,
            look,
        ) {
            Some(messages) => lifecycle_fails(
                step,
                seq![
                    "initial daemon executable changed before its running state could be restored"@,
                ] + messages,
            ),
            None => step matches LifecycleStep::Finished(Ok(FailedStopRestoration::Exact)),
        },
        (FailedStopStage::Settle, LifecycleReply::Settled(settlement)) => more_said(
            before,
            after,
            texts(settlement.diagnostics@),
        ) && failed_stop_awaits(
            step,
            FailedStopStage::Restart { observed: settlement.observed_generation },
        ),
        (FailedStopStage::Restart { observed }, LifecycleReply::Restored(r)) => after == before
            && step == LifecycleStep::<FailedStopStage, FailedStopRestoration>::Finished(r),
        (FailedStopStage::StopObserved { target }, LifecycleReply::Stopped(r)) => match r {
            Err(error) => after == before && lifecycle_fails(step, error@),
            Ok(settlement) => more_said(before, after, texts(settlement.diagnostics@))
                && failed_stop_awaits(
                step,
                FailedStopStage::Reacquire { expected: Some(target) },
            ),
        },
        (FailedStopStage::Reacquire { expected }, LifecycleReply::Done(r)) => after == before
            && match r {
            Err(error) => lifecycle_fails(step, error@),
            Ok(_) => failed_stop_awaits(step, FailedStopStage::CheckStoppedService),
        },
        (FailedStopStage::CheckStoppedService, LifecycleReply::Service(observed)) => after == before
            && match service_state_problem(
            observed,
            before.initial_service_snapshot@.with_manager_pid(before.initial_manager()),
        ) {
            Some(messages) => lifecycle_fails(step, messages),
            None => if before.absence_held {
                failed_stop_awaits(step, FailedStopStage::VerifyAbsence)
            } else {
                lifecycle_fails(step, seq!["prior daemon absence was not restored"@])
            },
        },
        (FailedStopStage::VerifyAbsence, LifecycleReply::Done(r)) => match r {
            Err(error) => after == before && lifecycle_fails(step, error@),
            Ok(_) => after.same_but_diagnostics(before) && after.said().len() == 0
                && match clean_problem(
                before,
                "the prior stopped state was restored, but lifecycle observation diagnostics remain"@,
            ) {
                None => step matches LifecycleStep::Finished(Ok(FailedStopRestoration::Exact)),
                Some(messages) => step matches LifecycleStep::Finished(
                    Ok(FailedStopRestoration::ExactWithDiagnostics(fault)),
                ) && fault@ == messages,
            },
        },
        _ => after == before && lifecycle_fails(step, misfit()),
    }
}

impl SelfUpdateDaemonRestart {
    fn after_generation(&self, observed: Option<DaemonGeneration>) -> (r: LifecycleStep<
        FailedStopStage,
        FailedStopRestoration,
    >)
        ensures
            generation_seen(*self, observed, r),
    {
        if self.initial_pid.is_some() {
            if same_generation(&observed, &self.initial_generation)
                && self.initial_stop_state.can_reuse_observed_generation() {
                return LifecycleStep::Await(FailedStopStage::CheckService);
            }
            if self.initial_stop_state == InitialGenerationStopState::MayHaveBeenRequested {
                if self.initial_generation.is_none() {
                    return LifecycleStep::Finished(
                        Err(
                            Fault::of(
                                "an issued initial stop had no retained daemon generation token",
                            ),
                        ),
                    );
                }
                return LifecycleStep::Await(FailedStopStage::Settle);
            }
            return LifecycleStep::Await(FailedStopStage::Restart { observed });
        }
        match observed {
            Some(target) => LifecycleStep::Await(FailedStopStage::StopObserved { target }),
            None => LifecycleStep::Await(FailedStopStage::Reacquire { expected: None }),
        }
    }

    /// Begins to restore the state after a failed stop.
    pub fn begin_restore_after_failed_stop() -> (r: FailedStopStage)
        ensures
            r == FailedStopStage::LookGeneration,
    {
        FailedStopStage::LookGeneration
    }

    /// Goes on restoring the state after a failed stop.
    pub fn restore_after_failed_stop(&mut self, stage: FailedStopStage, reply: LifecycleReply) -> (r:
        LifecycleStep<FailedStopStage, FailedStopRestoration>)
        ensures
            failed_stop_next(*old(self), stage, reply, *final(self), r),
    {
        match (stage, reply) {
            (FailedStopStage::LookGeneration, LifecycleReply::Generation(r)) => match r {
                Err(error) => LifecycleStep::Finished(Err(error)),
                Ok(observed) => self.after_generation(observed),
            },
            (FailedStopStage::CheckService, LifecycleReply::Service(observed)) => {
                match self.verify_initial_service_state_unchanged(observed) {
                    Err(fault) => LifecycleStep::Finished(Err(fault)),
                    Ok(()) => LifecycleStep::Await(FailedStopStage::CheckExecutable),
                }
            },
            (FailedStopStage::CheckExecutable, LifecycleReply::Executable(look)) => {
                match self.verify_initial_executable_unchanged(look) {
                    Err(fault) => LifecycleStep::Finished(Err(fault)),
                    Ok(()) => LifecycleStep::Finished(Ok(FailedStopRestoration::Exact)),
                }
            },
            (FailedStopStage::Settle, LifecycleReply::Settled(settlement)) => {
                let observed = self.record_lifecycle_settlement(settlement);
                LifecycleStep::Await(FailedStopStage::Restart { observed })
            },
            (FailedStopStage::Restart { observed: _ }, LifecycleReply::Restored(r)) => {
                LifecycleStep::Finished(r)
            },
            (FailedStopStage::StopObserved { target }, LifecycleReply::Stopped(r)) => match r {
                Err(error) => LifecycleStep::Finished(Err(error)),
                Ok(settlement) => {
                    let _ = self.record_lifecycle_settlement(settlement);
                    LifecycleStep::Await(FailedStopStage::Reacquire { expected: Some(target) })
                },
            },
            (FailedStopStage::Reacquire { expected: _ }, LifecycleReply::Done(r)) => match r {
                Err(error) => LifecycleStep::Finished(Err(error)),
                Ok(()) => LifecycleStep::Await(FailedStopStage::CheckStoppedService),
            },
            (FailedStopStage::CheckStoppedService, LifecycleReply::Service(observed)) => {
                match self.verify_initial_service_state_unchanged(observed) {
                    Err(fault) => LifecycleStep::Finished(Err(fault)),
                    Ok(()) => if self.absence_held {
                        LifecycleStep::Await(FailedStopStage::VerifyAbsence)
                    } else {
                        LifecycleStep::Finished(
                            Err(Fault::of("prior daemon absence was not restored")),
                        )
                    },
                }
            },
            (FailedStopStage::VerifyAbsence, LifecycleReply::Done(r)) => match r {
                Err(error) => LifecycleStep::Finished(Err(error)),
                Ok(()) => match self.require_clean_lifecycle_settlement(
                    "the prior stopped state was restored, but lifecycle observation diagnostics remain",
                ) {
                    Ok(()) => LifecycleStep::Finished(Ok(FailedStopRestoration::Exact)),
                    Err(error) => LifecycleStep::Finished(
                        Ok(FailedStopRestoration::ExactWithDiagnostics(error)),
                    ),
                },
            },
            _ => LifecycleStep::Finished(Err(misfit_fault())),
        }
    }
}

/// A generation that may have been asked to stop is never taken for a stable
/// one: it has to settle first.
pub proof fn law_requested_generation_is_not_reused(
    state: SelfUpdateDaemonRestart,
    observed: Option<DaemonGeneration>,
    step: LifecycleStep<FailedStopStage, FailedStopRestoration>,
)
    requires
        generation_seen(state, observed, step),
        state.initial_pid is Some,
        state.initial_stop_state == InitialGenerationStopState::MayHaveBeenRequested,
    ensures
        !failed_stop_awaits(step, FailedStopStage::CheckService),
        state.initial_generation is Some ==> failed_stop_awaits(step, FailedStopStage::Settle),
{
}

// -- Rolling back --

/// The operation that restoring the prior state waits for.
#[derive(Debug, PartialEq, Eq)]
pub enum PriorStage {
    /// Restarting the original daemon.
    Rollback,
    /// Asking which executable owns the service.
    Classify { error: Fault },
    /// Stopping whatever runs.
    Reestablish { error: Fault },
}

/// How restoring the prior state goes on: a daemon that could not be restarted
/// is stopped.
pub open spec fn prior_next(
    before: SelfUpdateDaemonRestart,
    stage: PriorStage,
    reply: LifecycleReply,
    after: SelfUpdateDaemonRestart,
    step: LifecycleStep<PriorStage, InstallerRollbackTransition>,
) -> bool {
    match (stage, reply) {
        (PriorStage::Rollback, LifecycleReply::Done(Ok(_))) => after == before && (step matches
            LifecycleStep::Finished(Ok(InstallerRollbackTransition::Restored))),
        (PriorStage::Rollback, LifecycleReply::Done(Err(error))) => after == before && step
            == LifecycleStep::<PriorStage, InstallerRollbackTransition>::Await(
            if before.initial_launch_mechanism == InitialLaunchMechanism::ServiceManager {
                PriorStage::Classify { error }
            } else {
                PriorStage::Reestablish { error }
            },
        ),
        (PriorStage::Classify { error }, LifecycleReply::Owners { initial, replacement }) => {
            match before.classified_owner(Owner::Initial, initial, replacement) {
                Err(message) => after == before && lifecycle_fails(
                    step,
                    seq![
                        "original daemon restart failed and the stopped service owner could not be classified: "@
                            + joined(seq![message]),
                    ] + error@,
                ),
                Ok(owner) => after == (SelfUpdateDaemonRestart {
                    service_executable: owner,
                    ..before
                }) && step == LifecycleStep::<PriorStage, InstallerRollbackTransition>::Await(
                    PriorStage::Reestablish { error },
                ),
            }
        },
        (PriorStage::Reestablish { error }, LifecycleReply::Done(Ok(_))) => after == before && (
        step matches LifecycleStep::Finished(Ok(InstallerRollbackTransition::FailedStopped(fault)))
            && fault == error),
        (PriorStage::Reestablish { error }, LifecycleReply::Done(Err(stop))) => after == before
            && lifecycle_fails(
            step,
            seq![
                "original daemon restart failed and daemon absence could not be re-established: "@
                    + joined(stop@),
            ] + error@,
        ),
        _ => after == before && lifecycle_fails(step, misfit()),
    }
}

impl SelfUpdateDaemonRestart {
    /// Begins to restore the prior state.
    pub fn begin_restore_installer_prior_state() -> (r: PriorStage)
        ensures
            r == PriorStage::Rollback,
    {
        PriorStage::Rollback
    }

    /// Goes on restoring the prior state.
    pub fn restore_installer_prior_state(&mut self, stage: PriorStage, reply: LifecycleReply) -> (r:
        LifecycleStep<PriorStage, InstallerRollbackTransition>)
        ensures
            prior_next(*old(self), stage, reply, *final(self), r),
    {
        match (stage, reply) {
            (PriorStage::Rollback, LifecycleReply::Done(Ok(()))) => LifecycleStep::Finished(
                Ok(InstallerRollbackTransition::Restored),
            ),
            (PriorStage::Rollback, LifecycleReply::Done(Err(error))) => {
                if self.initial_launch_mechanism == InitialLaunchMechanism::ServiceManager {
                    LifecycleStep::Await(PriorStage::Classify { error })
                } else {
                    LifecycleStep::Await(PriorStage::Reestablish { error })
                }
            },
            (PriorStage::Classify { error }, LifecycleReply::Owners { initial, replacement }) => {
                match self.classify_service_executable(Owner::Initial, initial, replacement) {
                    Err(fault) => LifecycleStep::Finished(
                        Err(
                            error.context(
                                join2(
                                    "original daemon restart failed and the stopped service owner could not be classified: ",
                                    fault.detail().as_str(),
                                ),
                            ),
                        ),
                    ),
                    Ok(()) => LifecycleStep::Await(PriorStage::Reestablish { error }),
                }
            },
            (PriorStage::Reestablish { error }, LifecycleReply::Done(Ok(()))) => {
                LifecycleStep::Finished(Ok(InstallerRollbackTransition::FailedStopped(error)))
            },
            (PriorStage::Reestablish { error }, LifecycleReply::Done(Err(stop))) => {
                LifecycleStep::Finished(
                    Err(
                        error.context(
                            join2(
                                "original daemon restart failed and daemon absence could not be re-established: ",
                                stop.detail().as_str(),
                            ),
                        ),
                    ),
                )
            },
            _ => LifecycleStep::Finished(Err(misfit_fault())),
        }
    }
}

} // verus!
