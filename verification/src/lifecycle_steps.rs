//! Stopping the daemon around an update, and making sure that it is gone.
//!
//! Each procedure is a function from its state, the operation that it waited for
//! and that operation's reply to the next operation or to its end.
use vstd::prelude::*;

use crate::boundary_phase::{
    FailedStopRestoration, InitialGenerationStopState, InitialLaunchMechanism,
};
use crate::daemon_identity::DaemonSight;
use crate::fault::Fault;
use crate::fs_ops::FileToken;
use crate::host_path::Platform;
use crate::lifecycle::{ExecutableLook, Owner, SelfUpdateDaemonRestart};
use crate::lifecycle_checks::{separated, StoppedLooks};
use crate::removal::{misfit, misfit_fault};
use crate::service_state::{ExactServiceUninstallOutcome, ServiceStateSnapshot};
use crate::settlement::{
    DaemonGeneration, InstallerContenderResolution, InstallerContenderSettlement,
    RequestedGenerationSettlement,
};
use crate::text::texts;

verus! {

/// The reply to an operation.
#[derive(Debug, PartialEq, Eq)]
pub enum LifecycleReply {
    /// How an operation or a whole procedure ended.
    Done(Result<(), Fault>),
    /// How the manager stopped the service, and whether it was asked to before
    /// that ended.
    ManagerStop { requested: bool, stopped: Result<bool, Fault> },
    /// How a generation settled that was asked to stop.
    Settled(RequestedGenerationSettlement),
    /// How a generation settled, unless asking it to stop failed.
    Stopped(Result<RequestedGenerationSettlement, Fault>),
    Contender(InstallerContenderSettlement),
    Generation(Result<Option<DaemonGeneration>, Fault>),
    Service(Result<ServiceStateSnapshot, Fault>),
    Services {
        ready: Result<ServiceStateSnapshot, Fault>,
        observed: Result<ServiceStateSnapshot, Fault>,
    },
    Executable(ExecutableLook),
    Token(Result<FileToken, Fault>),
    Present(Result<Option<FileToken>, Fault>),
    Sight(Result<Option<DaemonSight>, Fault>),
    Pid(Result<Option<u32>, Fault>),
    /// Whether each executable owns the service.
    Owners { initial: Result<(), Fault>, replacement: Result<(), Fault> },
    Boundary(StoppedLooks),
    Uninstalled(Result<ExactServiceUninstallOutcome, Fault>),
    Restored(Result<FailedStopRestoration, Fault>),
}

/// What a procedure does next.
#[derive(Debug, PartialEq, Eq)]
pub enum LifecycleStep<Stage, Outcome> {
    Await(Stage),
    Finished(Result<Outcome, Fault>),
}

/// Whether a procedure ends with a failure.
pub open spec fn lifecycle_fails<Stage, Outcome>(
    step: LifecycleStep<Stage, Outcome>,
    messages: Seq<Seq<char>>,
) -> bool {
    step matches LifecycleStep::Finished(Err(fault)) && fault@ == messages
}

/// Whether a procedure ends well.
pub open spec fn lifecycle_ends<Stage>(step: LifecycleStep<Stage, ()>) -> bool {
    step matches LifecycleStep::Finished(Ok(_))
}

/// Whether a state is another one with more diagnostics.
pub open spec fn more_said(
    before: SelfUpdateDaemonRestart,
    after: SelfUpdateDaemonRestart,
    more: Seq<Seq<char>>,
) -> bool {
    after.same_but_diagnostics(before) && after.said() == before.said() + more
}

/// The failure of diagnostics that were kept.
pub open spec fn clean_problem(state: SelfUpdateDaemonRestart, context: Seq<char>) -> Option<
    Seq<Seq<char>>,
> {
    if state.said().len() == 0 {
        None
    } else {
        Some(seq![context + ": "@ + separated(state.said(), "; "@)])
    }
}

/// Whether a procedure ends with the diagnostics given up, well exactly if there
/// were none.
pub open spec fn ends_clean<Stage>(
    before: SelfUpdateDaemonRestart,
    after: SelfUpdateDaemonRestart,
    context: Seq<char>,
    step: LifecycleStep<Stage, ()>,
) -> bool {
    after.same_but_diagnostics(before) && after.said().len() == 0 && match clean_problem(
        before,
        context,
    ) {
        None => lifecycle_ends(step),
        Some(messages) => lifecycle_fails(step, messages),
    }
}

// -- Acquiring absence --

/// The operation that acquiring the absence waits for.
#[derive(Debug, PartialEq, Eq)]
pub enum AbsenceStage {
    /// Making sure that the absence that is held is one.
    VerifyHeld,
    /// Waiting until the absence is acquired or a contender is known.
    Contend { expected: Option<DaemonGeneration> },
    /// Stopping a contender.
    Stop { target: DaemonGeneration },
}

/// How acquiring the absence begins.
pub open spec fn absence_beginning(held: bool, expected: Option<DaemonGeneration>) -> AbsenceStage {
    if held {
        AbsenceStage::VerifyHeld
    } else {
        AbsenceStage::Contend { expected }
    }
}

/// How acquiring the absence goes on. Contenders are stopped one after the other
/// until none is left.
pub open spec fn absence_next(
    before: SelfUpdateDaemonRestart,
    stage: AbsenceStage,
    reply: LifecycleReply,
    after: SelfUpdateDaemonRestart,
    step: LifecycleStep<AbsenceStage, ()>,
) -> bool {
    match (stage, reply) {
        (AbsenceStage::VerifyHeld, LifecycleReply::Done(r)) => after == before && step
            == LifecycleStep::<AbsenceStage, ()>::Finished(r),
        (AbsenceStage::Contend { expected }, LifecycleReply::Contender(settlement)) => {
            match settlement.resolution {
                InstallerContenderResolution::Absence => more_said(
                    (SelfUpdateDaemonRestart { absence_held: true, ..before }),
                    after,
                    texts(settlement.diagnostics@),
                ) && lifecycle_ends(step),
                InstallerContenderResolution::Published(target) => more_said(
                    before,
                    after,
                    texts(settlement.diagnostics@),
                ) && step == LifecycleStep::<AbsenceStage, ()>::Await(
                    AbsenceStage::Stop { target },
                ),
            }
        },
        (AbsenceStage::Stop { target }, LifecycleReply::Stopped(Err(error))) => after == before
            && lifecycle_fails(step, error@),
        (AbsenceStage::Stop { target }, LifecycleReply::Stopped(Ok(settlement))) => more_said(
            before,
            after,
            texts(settlement.diagnostics@),
        ) && step == LifecycleStep::<AbsenceStage, ()>::Await(
            AbsenceStage::Contend { expected: Some(target) },
        ),
        _ => after == before && lifecycle_fails(step, misfit()),
    }
}

impl SelfUpdateDaemonRestart {
    /// Begins to acquire the daemon's absence; `expected` is the generation
    /// whose stale identity may be removed.
    pub fn begin_absence(&self, expected: Option<DaemonGeneration>) -> (r: AbsenceStage)
        ensures
            r == absence_beginning(self.absence_held, expected),
    {
        if self.absence_held {
            AbsenceStage::VerifyHeld
        } else {
            AbsenceStage::Contend { expected }
        }
    }

    /// Goes on acquiring the daemon's absence.
    pub fn reacquire_absence_after_foreground_contenders(
        &mut self,
        stage: AbsenceStage,
        reply: LifecycleReply,
    ) -> (r: LifecycleStep<AbsenceStage, ()>)
        ensures
            absence_next(*old(self), stage, reply, *final(self), r),
    {
        match (stage, reply) {
            (AbsenceStage::VerifyHeld, LifecycleReply::Done(r)) => LifecycleStep::Finished(r),
            (AbsenceStage::Contend { expected: _ }, LifecycleReply::Contender(settlement)) => {
                self.record_diagnostics(settlement.diagnostics);
                match settlement.resolution {
                    InstallerContenderResolution::Absence => {
                        self.absence_held = true;
                        LifecycleStep::Finished(Ok(()))
                    },
                    InstallerContenderResolution::Published(target) => LifecycleStep::Await(
                        AbsenceStage::Stop { target },
                    ),
                }
            },
            (AbsenceStage::Stop { target: _ }, LifecycleReply::Stopped(Err(error))) => {
                LifecycleStep::Finished(Err(error))
            },
            (AbsenceStage::Stop { target }, LifecycleReply::Stopped(Ok(settlement))) => {
                let _ = self.record_lifecycle_settlement(settlement);
                LifecycleStep::Await(AbsenceStage::Contend { expected: Some(target) })
            },
            _ => LifecycleStep::Finished(Err(misfit_fault())),
        }
    }
}

/// Acquiring the absence ends well only with the absence held.
pub proof fn law_acquired_absence_is_held(
    before: SelfUpdateDaemonRestart,
    stage: AbsenceStage,
    reply: LifecycleReply,
    after: SelfUpdateDaemonRestart,
    step: LifecycleStep<AbsenceStage, ()>,
)
    requires
        absence_next(before, stage, reply, after, step),
        stage is VerifyHeld ==> before.absence_held,
        lifecycle_ends(step),
    ensures
        after.absence_held,
{
}

// -- Stopping before the update --

/// The operation that stopping the daemon waits for.
#[derive(Debug, PartialEq, Eq)]
pub enum StopStage {
    /// Having the manager stop the service.
    StopManager,
    /// Waiting for the initial generation after the manager was asked.
    SettleManager { stopped: Result<bool, Fault> },
    /// Asking the initial generation to stop.
    IssueStop,
    /// Waiting for the initial generation that was asked.
    SettleIssued,
    /// Acquiring the absence, with the initial generation as the stale one.
    Reacquire,
    /// Looking at the service twice.
    Record,
}

/// How stopping the daemon begins.
pub open spec fn stop_beginning(
    platform: Platform,
    state: SelfUpdateDaemonRestart,
    step: LifecycleStep<StopStage, ()>,
) -> bool {
    if state.absence_held {
        lifecycle_ends(step)
    } else if state.initial_pid is None {
        step == LifecycleStep::<StopStage, ()>::Await(StopStage::Reacquire)
    } else if platform != Platform::Windows && state.initial_launch_mechanism
        == InitialLaunchMechanism::ServiceManager {
        step == LifecycleStep::<StopStage, ()>::Await(StopStage::StopManager)
    } else if state.initial_generation is None {
        lifecycle_fails(
            step,
            seq!["captured daemon PID had no exact generation token before shutdown"@],
        )
    } else {
        step == LifecycleStep::<StopStage, ()>::Await(StopStage::IssueStop)
    }
}

/// How stopping goes on once the manager has stopped the service.
pub open spec fn manager_stopped(
    stopped: Result<bool, Fault>,
    step: LifecycleStep<StopStage, ()>,
) -> bool {
    match stopped {
        Err(error) => lifecycle_fails(step, error@),
        Ok(true) => step == LifecycleStep::<StopStage, ()>::Await(StopStage::Reacquire),
        Ok(false) => lifecycle_fails(
            step,
            seq![
                "the captured service-managed daemon generation was no longer owned by its manager at the stop boundary"@,
            ],
        ),
    }
}

/// How stopping the daemon goes on. A request that may have gone out is recorded
/// before anything else.
pub open spec fn stop_next(
    before: SelfUpdateDaemonRestart,
    stage: StopStage,
    reply: LifecycleReply,
    after: SelfUpdateDaemonRestart,
    step: LifecycleStep<StopStage, ()>,
) -> bool {
    let requested = SelfUpdateDaemonRestart {
        initial_stop_state: InitialGenerationStopState::MayHaveBeenRequested,
        ..before
    };
    match (stage, reply) {
        (StopStage::StopManager, LifecycleReply::ManagerStop { requested: asked, stopped }) => {
            if asked {
                after == requested && if before.initial_generation is None {
                    lifecycle_fails(
                        step,
                        seq![
                            "captured daemon PID had no exact generation token before manager stop"@,
                        ],
                    )
                } else {
                    step == LifecycleStep::<StopStage, ()>::Await(
                        StopStage::SettleManager { stopped },
                    )
                }
            } else {
                after == before && manager_stopped(stopped, step)
            }
        },
        (StopStage::SettleManager { stopped }, LifecycleReply::Settled(settlement)) => more_said(
            before,
            after,
            texts(settlement.diagnostics@),
        ) && manager_stopped(stopped, step),
        (StopStage::IssueStop, LifecycleReply::Done(Err(error))) => after == before
            && lifecycle_fails(step, error@),
        (StopStage::IssueStop, LifecycleReply::Done(Ok(_))) => after == requested && step
            == LifecycleStep::<StopStage, ()>::Await(StopStage::SettleIssued),
        (StopStage::SettleIssued, LifecycleReply::Settled(settlement)) => more_said(
            before,
            after,
            texts(settlement.diagnostics@),
        ) && step == LifecycleStep::<StopStage, ()>::Await(StopStage::Reacquire),
        (StopStage::Reacquire, LifecycleReply::Done(Err(error))) => after == before
            && lifecycle_fails(step, error@),
        (StopStage::Reacquire, LifecycleReply::Done(Ok(_))) => after == before && step
            == LifecycleStep::<StopStage, ()>::Await(StopStage::Record),
        (StopStage::Record, LifecycleReply::Services { ready, observed }) => {
            match before.stopped_snapshot_problem(Some(ready), observed) {
                Some(messages) => after == before && lifecycle_fails(step, messages),
                None => ends_clean(
                    (SelfUpdateDaemonRestart {
                        stopped_service_snapshot: Some(observed->Ok_0),
                        ..before
                    }),
                    after,
                    "daemon stop settled to an exact state, but one or more lifecycle observations were unreliable"@,
                    step,
                ),
            }
        },
        _ => after == before && lifecycle_fails(step, misfit()),
    }
}

fn conclude_manager_stop(stopped: Result<bool, Fault>) -> (r: LifecycleStep<StopStage, ()>)
    ensures
        manager_stopped(stopped, r),
{
    match stopped {
        Err(error) => LifecycleStep::Finished(Err(error)),
        Ok(true) => LifecycleStep::Await(StopStage::Reacquire),
        Ok(false) => LifecycleStep::Finished(
            Err(
                Fault::of(
                    "the captured service-managed daemon generation was no longer owned by its manager at the stop boundary",
                ),
            ),
        ),
    }
}

impl SelfUpdateDaemonRestart {
    /// Begins to stop the daemon before the update.
    pub fn begin_stop_before_update(&self, platform: Platform) -> (r: LifecycleStep<StopStage, ()>)
        ensures
            stop_beginning(platform, *self, r),
    {
        if self.absence_held {
            return LifecycleStep::Finished(Ok(()));
        }
        if self.initial_pid.is_none() {
            return LifecycleStep::Await(StopStage::Reacquire);
        }
        if platform != Platform::Windows && self.initial_launch_mechanism
            == InitialLaunchMechanism::ServiceManager {
            return LifecycleStep::Await(StopStage::StopManager);
        }
        if self.initial_generation.is_none() {
            return LifecycleStep::Finished(
                Err(
                    Fault::of(
                        "captured daemon PID had no exact generation token before shutdown",
                    ),
                ),
            );
        }
        LifecycleStep::Await(StopStage::IssueStop)
    }

    /// Goes on stopping the daemon before the update.
    pub fn stop_before_update_inner(&mut self, stage: StopStage, reply: LifecycleReply) -> (r:
        LifecycleStep<StopStage, ()>)
        ensures
            stop_next(*old(self), stage, reply, *final(self), r),
    {
        match (stage, reply) {
            (StopStage::StopManager, LifecycleReply::ManagerStop { requested, stopped }) => {
                if !requested {
                    return conclude_manager_stop(stopped);
                }
                self.initial_stop_state = InitialGenerationStopState::MayHaveBeenRequested;
                if self.initial_generation.is_none() {
                    return LifecycleStep::Finished(
                        Err(
                            Fault::of(
                                "captured daemon PID had no exact generation token before manager stop",
                            ),
                        ),
                    );
                }
                LifecycleStep::Await(StopStage::SettleManager { stopped })
            },
            (StopStage::SettleManager { stopped }, LifecycleReply::Settled(settlement)) => {
                let _ = self.record_lifecycle_settlement(settlement);
                conclude_manager_stop(stopped)
            },
            (StopStage::IssueStop, LifecycleReply::Done(issued)) => {
                match self.initial_stop_state.record_issued(issued) {
                    Err(error) => LifecycleStep::Finished(Err(error)),
                    Ok(()) => LifecycleStep::Await(StopStage::SettleIssued),
                }
            },
            (StopStage::SettleIssued, LifecycleReply::Settled(settlement)) => {
                let _ = self.record_lifecycle_settlement(settlement);
                LifecycleStep::Await(StopStage::Reacquire)
            },
            (StopStage::Reacquire, LifecycleReply::Done(Err(error))) => {
                LifecycleStep::Finished(Err(error))
            },
            (StopStage::Reacquire, LifecycleReply::Done(Ok(()))) => {
                LifecycleStep::Await(StopStage::Record)
            },
            (StopStage::Record, LifecycleReply::Services { ready, observed }) => {
                match self.record_stopped_service_snapshot(Some(ready), observed) {
                    Err(fault) => LifecycleStep::Finished(Err(fault)),
                    Ok(()) => LifecycleStep::Finished(
                        self.require_clean_lifecycle_settlement(
                            "daemon stop settled to an exact state, but one or more lifecycle observations were unreliable",
                        ),
                    ),
                }
            },
            _ => LifecycleStep::Finished(Err(misfit_fault())),
        }
    }
}

/// A stop that may have been requested is never forgotten while the daemon is
/// being stopped, and an absence that was acquired meanwhile stays held.
pub proof fn law_requested_stop_is_remembered(
    before: SelfUpdateDaemonRestart,
    stage: StopStage,
    reply: LifecycleReply,
    after: SelfUpdateDaemonRestart,
    step: LifecycleStep<StopStage, ()>,
)
    requires
        stop_next(before, stage, reply, after, step),
    ensures
        before.initial_stop_state == InitialGenerationStopState::MayHaveBeenRequested
            ==> after.initial_stop_state == InitialGenerationStopState::MayHaveBeenRequested,
        stage is StopManager && reply is ManagerStop && reply->requested ==> after.initial_stop_state
            == InitialGenerationStopState::MayHaveBeenRequested,
        stage is IssueStop && (reply matches LifecycleReply::Done(Ok(_))) ==> after.initial_stop_state
            == InitialGenerationStopState::MayHaveBeenRequested,
        after.absence_held == before.absence_held,
{
}

/// A stop that ends well leaves a stopped service on record, whose manager runs
/// no daemon, and no diagnostics.
pub proof fn law_stop_ends_with_a_stopped_service(
    before: SelfUpdateDaemonRestart,
    stage: StopStage,
    reply: LifecycleReply,
    after: SelfUpdateDaemonRestart,
    step: LifecycleStep<StopStage, ()>,
)
    requires
        stop_next(before, stage, reply, after, step),
        lifecycle_ends(step),
    ensures
        after.stopped_service_snapshot matches Some(snapshot) && snapshot@.manager_pid is None,
        after.said().len() == 0,
{
}

// -- Stopping after a failed restart --

/// The operation that stopping the daemon after a failed restart waits for.
#[derive(Debug, PartialEq, Eq)]
pub enum ReestablishStage {
    /// Making sure that the absence that is held is one.
    VerifyHeld,
    /// Looking for a running generation.
    LookGeneration { alternative: Option<Owner> },
    /// Asking which executable owns the service.
    Classify { alternative: Owner, observed: Option<DaemonGeneration> },
    /// Stopping a task whose start failed.
    StopFailedStart { observed: Option<DaemonGeneration> },
    /// Having the manager stop the service.
    StopManager { observed: Option<DaemonGeneration> },
    /// Stopping the installed service.
    StopInstalled { observed: Option<DaemonGeneration> },
    /// Looking for a generation that the manager does not run.
    LookAgain { observed: Option<DaemonGeneration> },
    /// Stopping that generation.
    StopAgain { target: DaemonGeneration, observed: Option<DaemonGeneration> },
    /// Making sure that the service still belongs to its executable.
    ValidateOwner { observed: Option<DaemonGeneration> },
    /// Stopping the generation that was seen.
    StopObserved { target: DaemonGeneration },
    /// Acquiring the absence.
    Reacquire { expected: Option<DaemonGeneration> },
    /// Looking at the service.
    Record,
}

/// How a manager's service is stopped on a system.
pub open spec fn manager_stop_stage(
    platform: Platform,
    observed: Option<DaemonGeneration>,
) -> ReestablishStage {
    match platform {
        Platform::Windows => ReestablishStage::StopFailedStart { observed },
        Platform::MacOs | Platform::Linux | Platform::OtherUnix => ReestablishStage::StopManager { observed },
        Platform::Other => ReestablishStage::StopInstalled { observed },
    }
}

/// Whether a procedure waits for an operation.
pub open spec fn reestablish_awaits(
    step: LifecycleStep<ReestablishStage, ()>,
    stage: ReestablishStage,
) -> bool {
    step == LifecycleStep::<ReestablishStage, ()>::Await(stage)
}

/// How stopping after a failed restart goes on.
pub open spec fn reestablish_next(
    platform: Platform,
    before: SelfUpdateDaemonRestart,
    stage: ReestablishStage,
    reply: LifecycleReply,
    after: SelfUpdateDaemonRestart,
    step: LifecycleStep<ReestablishStage, ()>,
) -> bool {
    match (stage, reply) {
        (ReestablishStage::VerifyHeld, LifecycleReply::Done(r)) => after == before && step
            == LifecycleStep::<ReestablishStage, ()>::Finished(r),
        (ReestablishStage::LookGeneration { alternative }, LifecycleReply::Generation(r)) => after
            == before && match r {
            Err(error) => lifecycle_fails(step, error@),
            Ok(observed) => if before.initial_launch_mechanism
                == InitialLaunchMechanism::ServiceManager {
                match alternative {
                    Some(owner) => reestablish_awaits(
                        step,
                        ReestablishStage::Classify { alternative: owner, observed },
                    ),
                    None => reestablish_awaits(step, manager_stop_stage(platform, observed)),
                }
            } else {
                match observed {
                    Some(target) => reestablish_awaits(
                        step,
                        ReestablishStage::StopObserved { target },
                    ),
                    None => reestablish_awaits(
                        step,
                        ReestablishStage::Reacquire { expected: None },
                    ),
                }
            },
        },
        (
            ReestablishStage::Classify { alternative, observed },
            LifecycleReply::Owners { initial, replacement },
        ) => match before.classified_owner(alternative, initial, replacement) {
            Err(message) => after == before && lifecycle_fails(step, seq![message]),
            Ok(owner) => after == (SelfUpdateDaemonRestart { service_executable: owner, ..before })
                && reestablish_awaits(step, manager_stop_stage(platform, observed)),
        },
        (ReestablishStage::StopFailedStart { observed }, LifecycleReply::Done(r)) => after == before
            && match r {
            Err(error) => lifecycle_fails(step, error@),
            Ok(_) => reestablish_awaits(
                step,
                ReestablishStage::Reacquire { expected: observed },
            ),
        },
        (ReestablishStage::StopInstalled { observed }, LifecycleReply::Done(r)) => after == before
            && match r {
            Err(error) => lifecycle_fails(step, error@),
            Ok(_) => reestablish_awaits(
                step,
                ReestablishStage::Reacquire { expected: observed },
            ),
        },
        (ReestablishStage::StopManager { observed }, LifecycleReply::Done(r)) => after == before
            && match r {
            Err(error) => lifecycle_fails(step, error@),
            Ok(_) => reestablish_awaits(step, ReestablishStage::LookAgain { observed }),
        },
        (ReestablishStage::LookAgain { observed }, LifecycleReply::Generation(r)) => after == before
            && match r {
            Err(error) => lifecycle_fails(step, error@),
            Ok(Some(target)) => reestablish_awaits(
                step,
                ReestablishStage::StopAgain { target, observed },
            ),
            Ok(None) => reestablish_awaits(step, ReestablishStage::ValidateOwner { observed }),
        },
        (ReestablishStage::StopAgain { target, observed }, LifecycleReply::Stopped(r)) => match r {
            Err(error) => after == before && lifecycle_fails(step, error@),
            Ok(settlement) => more_said(before, after, texts(settlement.diagnostics@))
                && reestablish_awaits(step, ReestablishStage::ValidateOwner { observed }),
        },
        (ReestablishStage::ValidateOwner { observed }, LifecycleReply::Done(r)) => after == before
            && match r {
            Err(error) => lifecycle_fails(step, error@),
            Ok(_) => reestablish_awaits(
                step,
                ReestablishStage::Reacquire { expected: observed },
            ),
        },
        (ReestablishStage::StopObserved { target }, LifecycleReply::Stopped(r)) => match r {
            Err(error) => after == before && lifecycle_fails(step, error@),
            Ok(settlement) => more_said(before, after, texts(settlement.diagnostics@))
                && reestablish_awaits(
                step,
                ReestablishStage::Reacquire { expected: Some(target) },
            ),
        },
        (ReestablishStage::Reacquire { expected }, LifecycleReply::Done(r)) => after == before
            && match r {
            Err(error) => lifecycle_fails(step, error@),
            Ok(_) => reestablish_awaits(step, ReestablishStage::Record),
        },
        (ReestablishStage::Record, LifecycleReply::Service(observed)) => {
            match before.stopped_snapshot_problem(None, observed) {
                Some(messages) => after == before && lifecycle_fails(step, messages),
                None => ends_clean(
                    (SelfUpdateDaemonRestart {
                        stopped_service_snapshot: Some(observed->Ok_0),
                        restarted_pid: None,
                        ..before
                    }),
                    after,
                    "daemon absence was re-established, but lifecycle observation diagnostics remain"@,
                    step,
                ),
            }
        },
        _ => after == before && lifecycle_fails(step, misfit()),
    }
}

fn stop_manager_stage(platform: Platform, observed: Option<DaemonGeneration>) -> (r:
    ReestablishStage)
    ensures
        r == manager_stop_stage(platform, observed),
{
    match platform {
        Platform::Windows => ReestablishStage::StopFailedStart { observed },
        Platform::MacOs | Platform::Linux | Platform::OtherUnix => ReestablishStage::StopManager { observed },
        Platform::Other => ReestablishStage::StopInstalled { observed },
    }
}

/// The next operation after one that must succeed.
fn after_done<Stage>(r: Result<(), Fault>, stage: Stage) -> (step: LifecycleStep<Stage, ()>)
    ensures
        match r {
            Err(error) => lifecycle_fails(step, error@),
            Ok(_) => step == LifecycleStep::<Stage, ()>::Await(stage),
        },
{
    match r {
        Err(error) => LifecycleStep::Finished(Err(error)),
        Ok(()) => LifecycleStep::Await(stage),
    }
}

impl SelfUpdateDaemonRestart {
    /// Begins to stop the daemon after a failed restart; `alternative` is an
    /// executable that may own the service by now.
    pub fn begin_reestablish_absence(&self, alternative: Option<Owner>) -> (r: ReestablishStage)
        ensures
            r == (if self.absence_held {
                ReestablishStage::VerifyHeld
            } else {
                ReestablishStage::LookGeneration { alternative }
            }),
    {
        if self.absence_held {
            ReestablishStage::VerifyHeld
        } else {
            ReestablishStage::LookGeneration { alternative }
        }
    }

    /// Goes on stopping the daemon after a failed restart.
    pub fn reestablish_absence_after_failed_restart_with_alternative(
        &mut self,
        platform: Platform,
        stage: ReestablishStage,
        reply: LifecycleReply,
    ) -> (r: LifecycleStep<ReestablishStage, ()>)
        ensures
            reestablish_next(platform, *old(self), stage, reply, *final(self), r),
    {
        match (stage, reply) {
            (ReestablishStage::VerifyHeld, LifecycleReply::Done(r)) => LifecycleStep::Finished(r),
            (ReestablishStage::LookGeneration { alternative: _ }, LifecycleReply::Generation(
                Err(error),
            )) => { LifecycleStep::Finished(Err(error)) },
            (ReestablishStage::LookGeneration { alternative }, LifecycleReply::Generation(
                Ok(observed),
            )) => {
                if self.initial_launch_mechanism == InitialLaunchMechanism::ServiceManager {
                    match alternative {
                        Some(owner) => LifecycleStep::Await(
                            ReestablishStage::Classify { alternative: owner, observed },
                        ),
                        None => LifecycleStep::Await(stop_manager_stage(platform, observed)),
                    }
                } else {
                    match observed {
                        Some(target) => LifecycleStep::Await(
                            ReestablishStage::StopObserved { target },
                        ),
                        None => LifecycleStep::Await(
                            ReestablishStage::Reacquire { expected: None },
                        ),
                    }
                }
            },
            (
                ReestablishStage::Classify { alternative, observed },
                LifecycleReply::Owners { initial, replacement },
            ) => match self.classify_service_executable(alternative, initial, replacement) {
                Err(fault) => LifecycleStep::Finished(Err(fault)),
                Ok(()) => LifecycleStep::Await(stop_manager_stage(platform, observed)),
            },
            (ReestablishStage::StopFailedStart { observed }, LifecycleReply::Done(r)) => {
                after_done(r, ReestablishStage::Reacquire { expected: observed })
            },
            (ReestablishStage::StopInstalled { observed }, LifecycleReply::Done(r)) => {
                after_done(r, ReestablishStage::Reacquire { expected: observed })
            },
            (ReestablishStage::StopManager { observed }, LifecycleReply::Done(r)) => {
                after_done(r, ReestablishStage::LookAgain { observed })
            },
            (ReestablishStage::LookAgain { observed }, LifecycleReply::Generation(r)) => match r {
                Err(error) => LifecycleStep::Finished(Err(error)),
                Ok(Some(target)) => LifecycleStep::Await(
                    ReestablishStage::StopAgain { target, observed },
                ),
                Ok(None) => LifecycleStep::Await(ReestablishStage::ValidateOwner { observed }),
            },
            (ReestablishStage::StopAgain { target: _, observed }, LifecycleReply::Stopped(r)) => {
                match r {
                    Err(error) => LifecycleStep::Finished(Err(error)),
                    Ok(settlement) => {
                        let _ = self.record_lifecycle_settlement(settlement);
                        LifecycleStep::Await(ReestablishStage::ValidateOwner { observed })
                    },
                }
            },
            (ReestablishStage::ValidateOwner { observed }, LifecycleReply::Done(r)) => {
                after_done(r, ReestablishStage::Reacquire { expected: observed })
            },
            (ReestablishStage::StopObserved { target }, LifecycleReply::Stopped(r)) => match r {
                Err(error) => LifecycleStep::Finished(Err(error)),
                Ok(settlement) => {
                    let _ = self.record_lifecycle_settlement(settlement);
                    LifecycleStep::Await(ReestablishStage::Reacquire { expected: Some(target) })
                },
            },
            (ReestablishStage::Reacquire { expected: _ }, LifecycleReply::Done(r)) => {
                after_done(r, ReestablishStage::Record)
            },
            (ReestablishStage::Record, LifecycleReply::Service(observed)) => {
                match self.record_stopped_service_snapshot(None, observed) {
                    Err(fault) => LifecycleStep::Finished(Err(fault)),
                    Ok(()) => {
                        self.restarted_pid = None;
                        LifecycleStep::Finished(
                            self.require_clean_lifecycle_settlement(
                                "daemon absence was re-established, but lifecycle observation diagnostics remain",
                            ),
                        )
                    },
                }
            },
            _ => LifecycleStep::Finished(Err(misfit_fault())),
        }
    }
}

/// A daemon that was stopped after a failed restart is no longer on record as
/// restarted, and its service is on record as stopped.
pub proof fn law_reestablished_absence_is_recorded(
    platform: Platform,
    before: SelfUpdateDaemonRestart,
    stage: ReestablishStage,
    reply: LifecycleReply,
    after: SelfUpdateDaemonRestart,
    step: LifecycleStep<ReestablishStage, ()>,
)
    requires
        reestablish_next(platform, before, stage, reply, after, step),
        !(stage is VerifyHeld),
        lifecycle_ends(step),
    ensures
        after.restarted_pid is None,
        after.stopped_service_snapshot matches Some(snapshot) && snapshot@.manager_pid is None,
        after.said().len() == 0,
        after.absence_held == before.absence_held,
{
}

} // verus!
