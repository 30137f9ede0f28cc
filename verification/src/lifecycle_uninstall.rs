//! Removing the service inside an installer's boundary.
use vstd::prelude::*;

use crate::boundary_phase::InstallerUninstallState;
use crate::boundary_protocol::InstallerUninstallTransition;
use crate::fault::Fault;
use crate::lifecycle::SelfUpdateDaemonRestart;
use crate::lifecycle_checks::service_state_problem;
use crate::lifecycle_steps::{lifecycle_fails, LifecycleReply, LifecycleStep};
use crate::removal::{misfit, misfit_fault};
use crate::service_state::{
    require_service_state_snapshot_with_manager, ExactServiceUninstallOutcome,
};

verus! {

/// The operation that removing the service waits for.
#[derive(Debug, PartialEq, Eq)]
pub enum PrepareStage {
    /// Making sure that the absence is one.
    VerifyAbsence,
    /// Looking for a running process.
    LookPid,
    /// Removing the service.
    Uninstall,
    /// Looking at the service, where none is installed.
    CheckService,
    /// Verifying that the service is gone and no daemon runs.
    VerifyUninstalled { operation_error: Option<Fault> },
    /// Verifying that the service is still there, and stopped.
    VerifyStopped { operation_error: Fault },
}

/// How removing the service begins.
pub open spec fn prepare_beginning(
    state: SelfUpdateDaemonRestart,
    step: LifecycleStep<PrepareStage, InstallerUninstallTransition>,
) -> bool {
    if state.uninstall_state != InstallerUninstallState::NotApplied {
        lifecycle_fails(step, seq!["installer uninstall state was already prepared"@])
    } else if !state.absence_held {
        lifecycle_fails(
            step,
            seq!["daemon absence lease was not held before installer uninstall"@],
        )
    } else {
        prepare_awaits(step, PrepareStage::VerifyAbsence)
    }
}

/// Whether a procedure waits for an operation.
pub open spec fn prepare_awaits(
    step: LifecycleStep<PrepareStage, InstallerUninstallTransition>,
    stage: PrepareStage,
) -> bool {
    step == LifecycleStep::<PrepareStage, InstallerUninstallTransition>::Await(stage)
}

/// A state whose service was removed.
pub open spec fn removed(state: SelfUpdateDaemonRestart) -> SelfUpdateDaemonRestart {
    SelfUpdateDaemonRestart {
        uninstall_state: InstallerUninstallState::AppliedPendingVerification,
        ..state
    }
}

/// How removing the service goes on. A removal is on record before anything
/// about it is verified, and stays there whatever the verification says.
pub open spec fn prepare_next(
    before: SelfUpdateDaemonRestart,
    stage: PrepareStage,
    reply: LifecycleReply,
    after: SelfUpdateDaemonRestart,
    step: LifecycleStep<PrepareStage, InstallerUninstallTransition>,
) -> bool {
    match (stage, reply) {
        (PrepareStage::VerifyAbsence, LifecycleReply::Done(r)) => after == before && match r {
            Err(error) => lifecycle_fails(step, error@),
            Ok(_) => prepare_awaits(step, PrepareStage::LookPid),
        },
        (PrepareStage::LookPid, LifecycleReply::Pid(r)) => after == before && match r {
            Err(error) => lifecycle_fails(step, error@),
            Ok(Some(_)) => lifecycle_fails(
                step,
                seq!["a daemon generation appeared before installer uninstall"@],
            ),
            Ok(None) => if before.stopped_service_snapshot is None {
                lifecycle_fails(
                    step,
                    seq![
                        "exact stopped service snapshot was not retained before installer uninstall"@,
                    ],
                )
            } else if before.service_installed {
                prepare_awaits(step, PrepareStage::Uninstall)
            } else {
                prepare_awaits(step, PrepareStage::CheckService)
            },
        },
        (PrepareStage::Uninstall, LifecycleReply::Uninstalled(r)) => match r {
            Err(error) => after == before && lifecycle_fails(step, error@),
            Ok(ExactServiceUninstallOutcome::Applied { operation_error }) => after == removed(before)
                && prepare_awaits(step, PrepareStage::VerifyUninstalled { operation_error }),
            Ok(ExactServiceUninstallOutcome::AppliedPendingVerification { post_state_error }) => {
                after == removed(before) && lifecycle_fails(
                    step,
                    seq![
                        "service removal was applied before its exact post-state probe failed; the uninstall-applied state and lifecycle authorities were retained"@,
                    ] + post_state_error@,
                )
            },
            Ok(ExactServiceUninstallOutcome::PriorExact { operation_error }) => after == before
                && prepare_awaits(step, PrepareStage::VerifyStopped { operation_error }),
        },
        (PrepareStage::CheckService, LifecycleReply::Service(observed)) => {
            match before.stopped_service_snapshot {
                None => after == before && lifecycle_fails(step, misfit()),
                Some(prior) => match service_state_problem(observed, prior@) {
                    Some(messages) => after == before && lifecycle_fails(step, messages),
                    None => after == removed(before) && prepare_awaits(
                        step,
                        PrepareStage::VerifyUninstalled { operation_error: None },
                    ),
                },
            }
        },
        (PrepareStage::VerifyUninstalled { operation_error }, LifecycleReply::Boundary(looks)) => {
            match before.uninstalled_boundary_problem(looks) {
                Some(messages) => after == before && lifecycle_fails(step, messages),
                None => match operation_error {
                    Some(error) => after == before && lifecycle_fails(
                        step,
                        seq![
                            "installer service uninstall reported an error after exact removal was observed; the applied state remains held for final verification"@,
                        ] + error@,
                    ),
                    None => after == (SelfUpdateDaemonRestart {
                        uninstall_state: InstallerUninstallState::Ready,
                        ..before
                    }) && (step matches LifecycleStep::Finished(
                        Ok(InstallerUninstallTransition::Ready),
                    )),
                },
            }
        },
        (PrepareStage::VerifyStopped { operation_error }, LifecycleReply::Boundary(looks)) => after
            == before && match before.stopped_boundary_problem(looks) {
            Some(messages) => lifecycle_fails(step, messages),
            None => step matches LifecycleStep::Finished(
                Ok(InstallerUninstallTransition::RestoredStopped(fault)),
            ) && fault == operation_error,
        },
        _ => after == before && lifecycle_fails(step, misfit()),
    }
}

impl SelfUpdateDaemonRestart {
    /// Begins to remove the service.
    pub fn begin_installer_uninstall(&self) -> (r: LifecycleStep<
        PrepareStage,
        InstallerUninstallTransition,
    >)
        ensures
            prepare_beginning(*self, r),
    {
        if self.uninstall_state.is_applied() {
            return LifecycleStep::Finished(
                Err(Fault::of("installer uninstall state was already prepared")),
            );
        }
        if !self.absence_held {
            return LifecycleStep::Finished(
                Err(Fault::of("daemon absence lease was not held before installer uninstall")),
            );
        }
        LifecycleStep::Await(PrepareStage::VerifyAbsence)
    }

    /// Goes on removing the service.
    pub fn prepare_installer_uninstall(&mut self, stage: PrepareStage, reply: LifecycleReply) -> (r:
        LifecycleStep<PrepareStage, InstallerUninstallTransition>)
        requires
            stage is VerifyUninstalled ==> old(self).uninstall_state
                == InstallerUninstallState::AppliedPendingVerification,
        ensures
            prepare_next(*old(self), stage, reply, *final(self), r),
    {
        match (stage, reply) {
            (PrepareStage::VerifyAbsence, LifecycleReply::Done(r)) => match r {
                Err(error) => LifecycleStep::Finished(Err(error)),
                Ok(()) => LifecycleStep::Await(PrepareStage::LookPid),
            },
            (PrepareStage::LookPid, LifecycleReply::Pid(r)) => match r {
                Err(error) => LifecycleStep::Finished(Err(error)),
                Ok(Some(_)) => LifecycleStep::Finished(
                    Err(Fault::of("a daemon generation appeared before installer uninstall")),
                ),
                Ok(None) => if self.stopped_service_snapshot.is_none() {
                    LifecycleStep::Finished(
                        Err(
                            Fault::of(
                                "exact stopped service snapshot was not retained before installer uninstall",
                            ),
                        ),
                    )
                } else if self.service_installed {
                    LifecycleStep::Await(PrepareStage::Uninstall)
                } else {
                    LifecycleStep::Await(PrepareStage::CheckService)
                },
            },
            (PrepareStage::Uninstall, LifecycleReply::Uninstalled(r)) => match r {
                Err(error) => LifecycleStep::Finished(Err(error)),
                Ok(ExactServiceUninstallOutcome::Applied { operation_error }) => {
                    self.uninstall_state.mark_applied();
                    LifecycleStep::Await(PrepareStage::VerifyUninstalled { operation_error })
                },
                Ok(
                    ExactServiceUninstallOutcome::AppliedPendingVerification { post_state_error },
                ) => {
                    self.uninstall_state.mark_applied();
                    LifecycleStep::Finished(
                        Err(
                            post_state_error.within(
                                "service removal was applied before its exact post-state probe failed; the uninstall-applied state and lifecycle authorities were retained",
                            ),
                        ),
                    )
                },
                Ok(ExactServiceUninstallOutcome::PriorExact { operation_error }) => {
                    LifecycleStep::Await(PrepareStage::VerifyStopped { operation_error })
                },
            },
            (PrepareStage::CheckService, LifecycleReply::Service(observed)) => {
                let checked = match &self.stopped_service_snapshot {
                    None => Err(misfit_fault()),
                    Some(prior) => match observed {
                        Err(error) => Err(error),
                        Ok(found) => {
                            assert(prior@.with_manager_pid(prior@.manager_pid) == prior@);
                            require_service_state_snapshot_with_manager(
                                &found,
                                prior,
                                prior.manager_pid,
                            )
                        },
                    },
                };
                match checked {
                    Err(fault) => LifecycleStep::Finished(Err(fault)),
                    Ok(()) => {
                        self.uninstall_state.mark_applied();
                        LifecycleStep::Await(
                            PrepareStage::VerifyUninstalled { operation_error: None },
                        )
                    },
                }
            },
            (
                PrepareStage::VerifyUninstalled { operation_error },
                LifecycleReply::Boundary(looks),
            ) => match self.verify_uninstalled_boundary_state(looks) {
                Err(fault) => LifecycleStep::Finished(Err(fault)),
                Ok(()) => match operation_error {
                    Some(error) => LifecycleStep::Finished(
                        Err(
                            error.within(
                                "installer service uninstall reported an error after exact removal was observed; the applied state remains held for final verification",
                            ),
                        ),
                    ),
                    None => {
                        self.uninstall_state.mark_ready();
                        LifecycleStep::Finished(Ok(InstallerUninstallTransition::Ready))
                    },
                },
            },
            (PrepareStage::VerifyStopped { operation_error }, LifecycleReply::Boundary(looks)) => {
                match self.verify_stopped_boundary_state(looks) {
                    Err(fault) => LifecycleStep::Finished(Err(fault)),
                    Ok(()) => LifecycleStep::Finished(
                        Ok(InstallerUninstallTransition::RestoredStopped(operation_error)),
                    ),
                }
            },
            _ => LifecycleStep::Finished(Err(misfit_fault())),
        }
    }
}

/// A removal that was applied is never taken back.
pub proof fn law_removal_is_never_taken_back(
    before: SelfUpdateDaemonRestart,
    stage: PrepareStage,
    reply: LifecycleReply,
    after: SelfUpdateDaemonRestart,
    step: LifecycleStep<PrepareStage, InstallerUninstallTransition>,
)
    requires
        prepare_next(before, stage, reply, after, step),
    ensures
        !(before.uninstall_state is NotApplied) ==> !(after.uninstall_state is NotApplied),
        step matches LifecycleStep::Await(next) && next is VerifyUninstalled
            ==> after.uninstall_state == InstallerUninstallState::AppliedPendingVerification,
        step matches LifecycleStep::Finished(Ok(InstallerUninstallTransition::Ready))
            ==> after.uninstall_state == InstallerUninstallState::Ready,
{
}

} // verus!
