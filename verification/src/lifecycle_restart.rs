//! Restarting the daemon after an update or its rollback.
use vstd::prelude::*;

use crate::boundary_phase::InitialLaunchMechanism;
use crate::daemon_identity::{require_running_daemon_executable, required_sight_problem};
use crate::fault::{join2, join4, join5, Fault};
use crate::fs_ops::FileToken;
use crate::host_path::Platform;
use crate::lifecycle::{captured_executable_problem, Owner, SelfUpdateDaemonRestart};
use crate::lifecycle_checks::held_problem;
use crate::lifecycle_steps::{lifecycle_fails, LifecycleReply, LifecycleStep};
use crate::removal::{misfit, misfit_fault};
use crate::service_owner::{executable_problem, validate_expected_executable};

verus! {

/// How a daemon is started.
#[derive(Clone, Copy, Debug, PartialEq, Eq, Structural)]
pub enum StartWay {
    /// As the installed service of its owner.
    Installed,
    /// By installing the service for the executable that is to run, in place of
    /// its owner.
    Install,
    /// Outside the service.
    Detached,
}

/// How an executable is started in the way the initial one was.
pub open spec fn start_way(
    platform: Platform,
    state: SelfUpdateDaemonRestart,
    executable: Owner,
) -> StartWay {
    if state.initial_launch_mechanism == InitialLaunchMechanism::ServiceManager {
        if platform == Platform::Windows || !state.differ(state.service_executable, executable) {
            StartWay::Installed
        } else {
            StartWay::Install
        }
    } else {
        StartWay::Detached
    }
}

fn way_to_start(platform: Platform, state: &SelfUpdateDaemonRestart, executable: Owner) -> (r:
    StartWay)
    ensures
        r == start_way(platform, *state, executable),
{
    if state.initial_launch_mechanism == InitialLaunchMechanism::ServiceManager {
        if platform == Platform::Windows || !state.paths_differ(
            state.service_executable,
            executable,
        ) {
            StartWay::Installed
        } else {
            StartWay::Install
        }
    } else {
        StartWay::Detached
    }
}

// -- After an update --

/// The operation that restarting after an update waits for.
#[derive(Debug, PartialEq, Eq)]
pub enum UpdateRestartStage {
    /// Reading the token of the replacement.
    BindReplacement,
    /// Making sure that the absence that is to be given up is one.
    Release { token: FileToken },
    /// Starting the replacement.
    Start { way: StartWay, token: FileToken },
    /// Asking which executable owns the service after a failed start.
    ClassifyAfterFailure { error: Fault },
    /// Looking at the daemon that was started.
    LookStarted { token: FileToken },
    /// Reading the token of the replacement again.
    Rebind { pid: u32, token: FileToken },
    /// Looking at the service of that daemon.
    RecordService { pid: u32 },
    /// Verifying the final state.
    VerifyFinal,
}

/// Whether a procedure waits for an operation.
pub open spec fn update_awaits(
    step: LifecycleStep<UpdateRestartStage, ()>,
    stage: UpdateRestartStage,
) -> bool {
    step == LifecycleStep::<UpdateRestartStage, ()>::Await(stage)
}

/// How restarting after an update begins.
pub open spec fn update_restart_beginning(
    state: SelfUpdateDaemonRestart,
    step: LifecycleStep<UpdateRestartStage, ()>,
) -> bool {
    if !(state.uninstall_state is NotApplied) {
        lifecycle_fails(
            step,
            seq!["an applied installer uninstall cannot enter replacement restart"@],
        )
    } else {
        match executable_problem(state.replacement_executable) {
            Some(message) => lifecycle_fails(step, seq![message]),
            None => update_awaits(step, UpdateRestartStage::BindReplacement),
        }
    }
}

/// How restarting goes on once the replacement is known. A service that did not
/// run the daemon is never moved to another executable.
pub open spec fn replacement_bound(
    platform: Platform,
    state: SelfUpdateDaemonRestart,
    token: FileToken,
    step: LifecycleStep<UpdateRestartStage, ()>,
) -> bool {
    let from = state.path_of(state.service_executable).display@;
    let to = state.replacement_executable.display@;
    let moves = state.service_installed && state.differ(
        state.service_executable,
        Owner::Replacement,
    );
    if moves && state.initial_launch_mechanism != InitialLaunchMechanism::ServiceManager {
        lifecycle_fails(
            step,
            seq![
                "an inactive daemon service owned by "@ + from + " cannot be migrated to "@ + to
                    + " while preserving the captured detached/stopped launch state; uninstall that service before migrating the executable"@,
            ],
        )
    } else if state.initial_pid is None || state.restarted_pid is Some {
        update_awaits(step, UpdateRestartStage::VerifyFinal)
    } else if platform == Platform::Windows && moves {
        lifecycle_fails(
            step,
            seq![
                "Windows scheduled-task executable migration from "@ + from + " to "@ + to
                    + " is not supported; the daemon remains stopped under the PID absence lease"@,
            ],
        )
    } else {
        update_awaits(step, UpdateRestartStage::Release { token })
    }
}

/// How restarting after an update goes on.
pub open spec fn update_restart_next(
    platform: Platform,
    before: SelfUpdateDaemonRestart,
    stage: UpdateRestartStage,
    reply: LifecycleReply,
    after: SelfUpdateDaemonRestart,
    step: LifecycleStep<UpdateRestartStage, ()>,
) -> bool {
    let managed = before.initial_launch_mechanism == InitialLaunchMechanism::ServiceManager;
    match (stage, reply) {
        (UpdateRestartStage::BindReplacement, LifecycleReply::Token(r)) => match r {
            Err(error) => after == before && lifecycle_fails(
                step,
                seq![
                    "binding the installer-published replacement executable "@
                        + before.replacement_executable.display@,
                ] + error@,
            ),
            Ok(token) => after == (SelfUpdateDaemonRestart {
                executable: Owner::Replacement,
                expected_executable_token: Some(token),
                ..before
            }) && replacement_bound(platform, before, token, step),
        },
        (UpdateRestartStage::Release { token }, LifecycleReply::Done(verified)) => after == (
        SelfUpdateDaemonRestart { absence_held: false, ..before }) && match held_problem(
            before.absence_held,
            "daemon absence lease was not held before installer restart"@,
            verified,
        ) {
            Some(messages) => lifecycle_fails(step, messages),
            None => update_awaits(
                step,
                UpdateRestartStage::Start {
                    way: start_way(platform, before, Owner::Replacement),
                    token,
                },
            ),
        },
        (UpdateRestartStage::Start { way, token }, LifecycleReply::Done(r)) => match r {
            Err(error) => after == before && if managed && before.differ(
                before.service_executable,
                Owner::Replacement,
            ) {
                update_awaits(step, UpdateRestartStage::ClassifyAfterFailure { error })
            } else {
                lifecycle_fails(step, error@)
            },
            Ok(_) => after == (if managed {
                SelfUpdateDaemonRestart { service_executable: Owner::Replacement, ..before }
            } else {
                before
            }) && update_awaits(step, UpdateRestartStage::LookStarted { token }),
        },
        (
            UpdateRestartStage::ClassifyAfterFailure { error },
            LifecycleReply::Owners { initial, replacement },
        ) => match before.classified_owner(Owner::Replacement, initial, replacement) {
            Err(message) => after == before && lifecycle_fails(step, seq![message]),
            Ok(owner) => after == (SelfUpdateDaemonRestart { service_executable: owner, ..before })
                && lifecycle_fails(step, error@),
        },
        (UpdateRestartStage::LookStarted { token }, LifecycleReply::Sight(sight)) => after == before
            && match required_sight_problem(
            "installer replacement daemon did not retain its authoritative PID identity"@,
            sight,
        ) {
            Some(messages) => lifecycle_fails(step, messages),
            None => update_awaits(
                step,
                UpdateRestartStage::Rebind { pid: sight->Ok_0->0.pid, token },
            ),
        },
        (UpdateRestartStage::Rebind { pid, token }, LifecycleReply::Token(r)) => after == before
            && match r {
            Err(error) => lifecycle_fails(step, error@),
            Ok(again) => if again@ == token@ {
                update_awaits(step, UpdateRestartStage::RecordService { pid })
            } else {
                lifecycle_fails(
                    step,
                    seq![
                        "replacement executable identity changed while its daemon generation started: "@
                            + before.replacement_executable.display@,
                    ],
                )
            },
        },
        (UpdateRestartStage::RecordService { pid }, LifecycleReply::Service(observed)) => {
            match before.restarted_service_problem(pid, observed) {
                Some(messages) => after == before && lifecycle_fails(step, messages),
                None => after == (SelfUpdateDaemonRestart {
                    expected_service_snapshot: Some(observed->Ok_0),
                    restarted_pid: Some(pid),
                    ..before
                }) && update_awaits(step, UpdateRestartStage::VerifyFinal),
            }
        },
        (UpdateRestartStage::VerifyFinal, LifecycleReply::Done(r)) => after == before && step
            == LifecycleStep::<UpdateRestartStage, ()>::Finished(r),
        _ => after == before && lifecycle_fails(step, misfit()),
    }
}

impl SelfUpdateDaemonRestart {
    fn after_replacement(&self, platform: Platform, token: FileToken) -> (r: LifecycleStep<
        UpdateRestartStage,
        (),
    >)
        ensures
            replacement_bound(platform, *self, token, r),
    {
        let moves = self.service_installed && self.paths_differ(
            self.service_executable,
            Owner::Replacement,
        );
        if moves && self.initial_launch_mechanism != InitialLaunchMechanism::ServiceManager {
            return LifecycleStep::Finished(
                Err(
                    Fault::from_text(
                        join5(
                            "an inactive daemon service owned by ",
                            self.path(self.service_executable).display.as_str(),
                            " cannot be migrated to ",
                            self.replacement_executable.display.as_str(),
                            " while preserving the captured detached/stopped launch state; uninstall that service before migrating the executable",
                        ),
                    ),
                ),
            );
        }
        if self.initial_pid.is_none() || self.restarted_pid.is_some() {
            return LifecycleStep::Await(UpdateRestartStage::VerifyFinal);
        }
        if platform == Platform::Windows && moves {
            return LifecycleStep::Finished(
                Err(
                    Fault::from_text(
                        join5(
                            "Windows scheduled-task executable migration from ",
                            self.path(self.service_executable).display.as_str(),
                            " to ",
                            self.replacement_executable.display.as_str(),
                            " is not supported; the daemon remains stopped under the PID absence lease",
                        ),
                    ),
                ),
            );
        }
        LifecycleStep::Await(UpdateRestartStage::Release { token })
    }

    /// Begins to restart the daemon after an update.
    pub fn begin_restart_after_installer_update(&self) -> (r: LifecycleStep<UpdateRestartStage, ()>)
        ensures
            update_restart_beginning(*self, r),
    {
        if self.uninstall_state.is_applied() {
            return LifecycleStep::Finished(
                Err(
                    Fault::of("an applied installer uninstall cannot enter replacement restart"),
                ),
            );
        }
        match validate_expected_executable(&self.replacement_executable) {
            Err(fault) => LifecycleStep::Finished(Err(fault)),
            Ok(()) => LifecycleStep::Await(UpdateRestartStage::BindReplacement),
        }
    }

    /// Goes on restarting the daemon after an update: the replacement runs in
    /// the way the initial executable did, or stays stopped as that one was.
    pub fn restart_after_installer_update(
        &mut self,
        platform: Platform,
        stage: UpdateRestartStage,
        reply: LifecycleReply,
    ) -> (r: LifecycleStep<UpdateRestartStage, ()>)
        ensures
            update_restart_next(platform, *old(self), stage, reply, *final(self), r),
    {
        match (stage, reply) {
            (UpdateRestartStage::BindReplacement, LifecycleReply::Token(r)) => match r {
                Err(error) => LifecycleStep::Finished(
                    Err(
                        error.context(
                            join2(
                                "binding the installer-published replacement executable ",
                                self.replacement_executable.display.as_str(),
                            ),
                        ),
                    ),
                ),
                Ok(token) => {
                    let next = self.after_replacement(platform, token);
                    self.executable = Owner::Replacement;
                    self.expected_executable_token = Some(token);
                    next
                },
            },
            (UpdateRestartStage::Release { token }, LifecycleReply::Done(verified)) => {
                match self.release_absence_for_restart(verified) {
                    Err(fault) => LifecycleStep::Finished(Err(fault)),
                    Ok(()) => LifecycleStep::Await(
                        UpdateRestartStage::Start {
                            way: way_to_start(platform, self, Owner::Replacement),
                            token,
                        },
                    ),
                }
            },
            (UpdateRestartStage::Start { way: _, token }, LifecycleReply::Done(r)) => {
                let managed = self.initial_launch_mechanism
                    == InitialLaunchMechanism::ServiceManager;
                match r {
                    Err(error) => if managed && self.paths_differ(
                        self.service_executable,
                        Owner::Replacement,
                    ) {
                        LifecycleStep::Await(UpdateRestartStage::ClassifyAfterFailure { error })
                    } else {
                        LifecycleStep::Finished(Err(error))
                    },
                    Ok(()) => {
                        if managed {
                            self.service_executable = Owner::Replacement;
                        }
                        LifecycleStep::Await(UpdateRestartStage::LookStarted { token })
                    },
                }
            },
            (
                UpdateRestartStage::ClassifyAfterFailure { error },
                LifecycleReply::Owners { initial, replacement },
            ) => match self.classify_service_executable(Owner::Replacement, initial, replacement) {
                Err(fault) => LifecycleStep::Finished(Err(fault)),
                Ok(()) => LifecycleStep::Finished(Err(error)),
            },
            (UpdateRestartStage::LookStarted { token }, LifecycleReply::Sight(sight)) => {
                match require_running_daemon_executable(
                    "installer replacement daemon did not retain its authoritative PID identity",
                    sight,
                ) {
                    Err(fault) => LifecycleStep::Finished(Err(fault)),
                    Ok(pid) => LifecycleStep::Await(UpdateRestartStage::Rebind { pid, token }),
                }
            },
            (UpdateRestartStage::Rebind { pid, token }, LifecycleReply::Token(r)) => match r {
                Err(error) => LifecycleStep::Finished(Err(error)),
                Ok(again) => if again.same(&token) {
                    LifecycleStep::Await(UpdateRestartStage::RecordService { pid })
                } else {
                    LifecycleStep::Finished(
                        Err(
                            Fault::from_text(
                                join2(
                                    "replacement executable identity changed while its daemon generation started: ",
                                    self.replacement_executable.display.as_str(),
                                ),
                            ),
                        ),
                    )
                },
            },
            (UpdateRestartStage::RecordService { pid }, LifecycleReply::Service(observed)) => {
                match self.record_expected_service_snapshot_after_restart(pid, observed) {
                    Err(fault) => LifecycleStep::Finished(Err(fault)),
                    Ok(()) => {
                        self.restarted_pid = Some(pid);
                        LifecycleStep::Await(UpdateRestartStage::VerifyFinal)
                    },
                }
            },
            (UpdateRestartStage::VerifyFinal, LifecycleReply::Done(r)) => {
                LifecycleStep::Finished(r)
            },
            _ => LifecycleStep::Finished(Err(misfit_fault())),
        }
    }
}

/// The replacement is started only once the absence that was held has been found
/// to be one and has been given up.
pub proof fn law_replacement_starts_from_absence(
    platform: Platform,
    before: SelfUpdateDaemonRestart,
    stage: UpdateRestartStage,
    reply: LifecycleReply,
    after: SelfUpdateDaemonRestart,
    step: LifecycleStep<UpdateRestartStage, ()>,
)
    requires
        update_restart_next(platform, before, stage, reply, after, step),
        step matches LifecycleStep::Await(next) && next is Start,
    ensures
        before.absence_held && !after.absence_held,
        reply matches LifecycleReply::Done(Ok(_)),
{
}

/// A daemon that did not run before the update is not started by it, and one
/// that ran is started in the way it ran.
pub proof fn law_update_keeps_the_launch_mechanism(
    platform: Platform,
    before: SelfUpdateDaemonRestart,
    stage: UpdateRestartStage,
    reply: LifecycleReply,
    after: SelfUpdateDaemonRestart,
    step: LifecycleStep<UpdateRestartStage, ()>,
)
    requires
        update_restart_next(platform, before, stage, reply, after, step),
    ensures
        stage is BindReplacement && before.initial_pid is None ==> !(step matches
            LifecycleStep::Await(next) && next is Release),
        step matches LifecycleStep::Await(UpdateRestartStage::Start { way, token }) ==> ((way
            == StartWay::Detached) <==> before.initial_launch_mechanism
            != InitialLaunchMechanism::ServiceManager),
{
}

// -- After a rollback --

/// The operation that restarting after a rollback waits for.
#[derive(Debug, PartialEq, Eq)]
pub enum RollbackRestartStage {
    /// Looking at the initial executable.
    CheckContents,
    /// Reading the token of the initial executable, if there is one.
    BindInitial,
    /// Asking which executable owns the service.
    Classify,
    /// Making sure that the absence that is to be given up is one.
    Release,
    /// Starting the initial executable.
    Start { way: StartWay },
    /// Looking at the daemon that was started.
    LookStarted,
    /// Looking at the service of that daemon.
    RecordService { pid: u32 },
    /// Verifying the final state.
    VerifyFinal,
}

/// Whether a procedure waits for an operation.
pub open spec fn rollback_awaits(
    step: LifecycleStep<RollbackRestartStage, ()>,
    stage: RollbackRestartStage,
) -> bool {
    step == LifecycleStep::<RollbackRestartStage, ()>::Await(stage)
}

/// How restarting after a rollback begins.
pub open spec fn rollback_restart_beginning(
    state: SelfUpdateDaemonRestart,
    step: LifecycleStep<RollbackRestartStage, ()>,
) -> bool {
    if !(state.uninstall_state is NotApplied) {
        lifecycle_fails(
            step,
            seq!["an applied installer uninstall cannot be rolled back after its ready boundary"@],
        )
    } else {
        rollback_awaits(step, RollbackRestartStage::CheckContents)
    }
}

/// How restarting after a rollback goes on once the owner of the service is
/// known.
pub open spec fn owner_known(
    platform: Platform,
    state: SelfUpdateDaemonRestart,
    step: LifecycleStep<RollbackRestartStage, ()>,
) -> bool {
    if platform == Platform::Windows && state.differ(state.service_executable, Owner::Initial) {
        lifecycle_fails(
            step,
            seq![
                "Windows scheduled-task executable owner changed from "@
                    + state.initial_executable.display@ + " to "@ + state.path_of(
                    state.service_executable,
                ).display@
                    + "; automatic path migration rollback is not supported and daemon absence remains held"@,
            ],
        )
    } else {
        rollback_awaits(step, RollbackRestartStage::Release)
    }
}

/// How restarting after a rollback goes on.
pub open spec fn rollback_restart_next(
    platform: Platform,
    before: SelfUpdateDaemonRestart,
    stage: RollbackRestartStage,
    reply: LifecycleReply,
    after: SelfUpdateDaemonRestart,
    step: LifecycleStep<RollbackRestartStage, ()>,
) -> bool {
    match (stage, reply) {
        (RollbackRestartStage::CheckContents, LifecycleReply::Executable(look)) => {
            match captured_executable_problem(
                before.initial_executable.display@,
                before.initial_executable_state,
                false,
                look,
            ) {
                Some(messages) => after == before && lifecycle_fails(
                    step,
                    seq!["installer rollback did not restore the exact initial executable contents"@]
                        + messages,
                ),
                None => after == (SelfUpdateDaemonRestart { executable: Owner::Initial, ..before })
                    && rollback_awaits(step, RollbackRestartStage::BindInitial),
            }
        },
        (RollbackRestartStage::BindInitial, LifecycleReply::Present(r)) => match r {
            Err(error) => after == before && lifecycle_fails(step, error@),
            Ok(token) => after == (SelfUpdateDaemonRestart {
                expected_executable_token: token,
                expected_service_snapshot: None,
                ..before
            }) && rollback_awaits(
                step,
                if before.initial_pid is None {
                    RollbackRestartStage::VerifyFinal
                } else if before.initial_launch_mechanism
                    == InitialLaunchMechanism::ServiceManager {
                    RollbackRestartStage::Classify
                } else {
                    RollbackRestartStage::Release
                },
            ),
        },
        (RollbackRestartStage::Classify, LifecycleReply::Owners { initial, replacement }) => {
            match before.classified_owner(Owner::Replacement, initial, replacement) {
                Err(message) => after == before && lifecycle_fails(step, seq![message]),
                Ok(owner) => after == (SelfUpdateDaemonRestart {
                    service_executable: owner,
                    ..before
                }) && owner_known(platform, after, step),
            }
        },
        (RollbackRestartStage::Release, LifecycleReply::Done(verified)) => after == (
        SelfUpdateDaemonRestart { absence_held: false, ..before }) && match held_problem(
            before.absence_held,
            "daemon absence lease was not held before installer restart"@,
            verified,
        ) {
            Some(messages) => lifecycle_fails(step, messages),
            None => rollback_awaits(
                step,
                RollbackRestartStage::Start { way: start_way(platform, before, Owner::Initial) },
            ),
        },
        (RollbackRestartStage::Start { way }, LifecycleReply::Done(r)) => match r {
            Err(error) => after == before && lifecycle_fails(
                step,
                seq!["restoring the original daemon generation after installer rollback"@]
                    + error@,
            ),
            Ok(_) => after == (SelfUpdateDaemonRestart {
                service_executable: Owner::Initial,
                ..before
            }) && rollback_awaits(step, RollbackRestartStage::LookStarted),
        },
        (RollbackRestartStage::LookStarted, LifecycleReply::Sight(sight)) => after == before
            && match required_sight_problem(
            "restored daemon did not retain its authoritative PID identity"@,
            sight,
        ) {
            Some(messages) => lifecycle_fails(step, messages),
            None => rollback_awaits(
                step,
                RollbackRestartStage::RecordService { pid: sight->Ok_0->0.pid },
            ),
        },
        (RollbackRestartStage::RecordService { pid }, LifecycleReply::Service(observed)) => {
            match before.restarted_service_problem(pid, observed) {
                Some(messages) => after == before && lifecycle_fails(step, messages),
                None => after == (SelfUpdateDaemonRestart {
                    expected_service_snapshot: Some(observed->Ok_0),
                    restarted_pid: Some(pid),
                    ..before
                }) && rollback_awaits(step, RollbackRestartStage::VerifyFinal),
            }
        },
        (RollbackRestartStage::VerifyFinal, LifecycleReply::Done(r)) => after == before && step
            == LifecycleStep::<RollbackRestartStage, ()>::Finished(r),
        _ => after == before && lifecycle_fails(step, misfit()),
    }
}

impl SelfUpdateDaemonRestart {
    fn after_owner(&self, platform: Platform) -> (r: LifecycleStep<RollbackRestartStage, ()>)
        ensures
            owner_known(platform, *self, r),
    {
        if platform == Platform::Windows && self.paths_differ(
            self.service_executable,
            Owner::Initial,
        ) {
            let changed = join4(
                "Windows scheduled-task executable owner changed from ",
                self.initial_executable.display.as_str(),
                " to ",
                self.path(self.service_executable).display.as_str(),
            );
            return LifecycleStep::Finished(
                Err(
                    Fault::from_text(
                        join2(
                            changed.as_str(),
                            "; automatic path migration rollback is not supported and daemon absence remains held",
                        ),
                    ),
                ),
            );
        }
        LifecycleStep::Await(RollbackRestartStage::Release)
    }

    /// Begins to restart the daemon after a rollback.
    pub fn begin_restart_after_installer_rollback(&self) -> (r: LifecycleStep<
        RollbackRestartStage,
        (),
    >)
        ensures
            rollback_restart_beginning(*self, r),
    {
        if self.uninstall_state.is_applied() {
            return LifecycleStep::Finished(
                Err(
                    Fault::of(
                        "an applied installer uninstall cannot be rolled back after its ready boundary",
                    ),
                ),
            );
        }
        LifecycleStep::Await(RollbackRestartStage::CheckContents)
    }

    /// Goes on restarting the daemon after a rollback.
    pub fn restart_after_installer_rollback(
        &mut self,
        platform: Platform,
        stage: RollbackRestartStage,
        reply: LifecycleReply,
    ) -> (r: LifecycleStep<RollbackRestartStage, ()>)
        ensures
            rollback_restart_next(platform, *old(self), stage, reply, *final(self), r),
    {
        match (stage, reply) {
            (RollbackRestartStage::CheckContents, LifecycleReply::Executable(look)) => {
                match self.verify_initial_executable_contents_restored(look) {
                    Err(fault) => LifecycleStep::Finished(Err(fault)),
                    Ok(()) => {
                        self.executable = Owner::Initial;
                        LifecycleStep::Await(RollbackRestartStage::BindInitial)
                    },
                }
            },
            (RollbackRestartStage::BindInitial, LifecycleReply::Present(r)) => match r {
                Err(error) => LifecycleStep::Finished(Err(error)),
                Ok(token) => {
                    self.expected_executable_token = token;
                    self.expected_service_snapshot = None;
                    if self.initial_pid.is_none() {
                        LifecycleStep::Await(RollbackRestartStage::VerifyFinal)
                    } else if self.initial_launch_mechanism
                        == InitialLaunchMechanism::ServiceManager {
                        LifecycleStep::Await(RollbackRestartStage::Classify)
                    } else {
                        LifecycleStep::Await(RollbackRestartStage::Release)
                    }
                },
            },
            (RollbackRestartStage::Classify, LifecycleReply::Owners { initial, replacement }) => {
                match self.classify_service_executable(Owner::Replacement, initial, replacement) {
                    Err(fault) => LifecycleStep::Finished(Err(fault)),
                    Ok(()) => self.after_owner(platform),
                }
            },
            (RollbackRestartStage::Release, LifecycleReply::Done(verified)) => {
                match self.release_absence_for_restart(verified) {
                    Err(fault) => LifecycleStep::Finished(Err(fault)),
                    Ok(()) => LifecycleStep::Await(
                        RollbackRestartStage::Start {
                            way: way_to_start(platform, self, Owner::Initial),
                        },
                    ),
                }
            },
            (RollbackRestartStage::Start { way: _ }, LifecycleReply::Done(r)) => match r {
                Err(error) => LifecycleStep::Finished(
                    Err(
                        error.within(
                            "restoring the original daemon generation after installer rollback",
                        ),
                    ),
                ),
                Ok(()) => {
                    self.service_executable = Owner::Initial;
                    LifecycleStep::Await(RollbackRestartStage::LookStarted)
                },
            },
            (RollbackRestartStage::LookStarted, LifecycleReply::Sight(sight)) => {
                match require_running_daemon_executable(
                    "restored daemon did not retain its authoritative PID identity",
                    sight,
                ) {
                    Err(fault) => LifecycleStep::Finished(Err(fault)),
                    Ok(pid) => LifecycleStep::Await(RollbackRestartStage::RecordService { pid }),
                }
            },
            (RollbackRestartStage::RecordService { pid }, LifecycleReply::Service(observed)) => {
                match self.record_expected_service_snapshot_after_restart(pid, observed) {
                    Err(fault) => LifecycleStep::Finished(Err(fault)),
                    Ok(()) => {
                        self.restarted_pid = Some(pid);
                        LifecycleStep::Await(RollbackRestartStage::VerifyFinal)
                    },
                }
            },
            (RollbackRestartStage::VerifyFinal, LifecycleReply::Done(r)) => {
                LifecycleStep::Finished(r)
            },
            _ => LifecycleStep::Finished(Err(misfit_fault())),
        }
    }
}

/// A service that was removed is neither restarted nor rolled back.
pub proof fn law_applied_uninstall_is_final(
    state: SelfUpdateDaemonRestart,
    update: LifecycleStep<UpdateRestartStage, ()>,
    rollback: LifecycleStep<RollbackRestartStage, ()>,
)
    requires
        !(state.uninstall_state is NotApplied),
        update_restart_beginning(state, update),
        rollback_restart_beginning(state, rollback),
    ensures
        update matches LifecycleStep::Finished(Err(_)),
        rollback matches LifecycleStep::Finished(Err(_)),
{
}

} // verus!
