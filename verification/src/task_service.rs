//! The procedures on the scheduled task.
use vstd::prelude::*;

use crate::fault::{headline_of, join2, join3, join4, joined, Fault};
use crate::host_path::HostPath;
use crate::number::{decimal, decimal_text, wide_decimal_text};
use crate::removal::{misfit, misfit_fault};
use crate::service_operation::{
    asks, done, done_within, look, never, then_script, vacant, Check, Part, SchtasksCommand,
    ServiceOperation, TaskState,
};
use crate::service_owner::{task_owner_problem, validate_task_scheduler_definition_owner};
use crate::service_render::{task_failure, task_scheduler_failure_message, WINDOWS_TASK_NAME};
use crate::service_state::{definition_snapshot_matches, transaction_error_with_restoration};
use crate::text::texts;

verus! {

/// What a restoration of the task goes by.
#[derive(Clone, Copy, Debug, PartialEq, Eq)]
pub struct TaskRestoration {
    /// Whether the task's file is the one that was captured.
    pub unchanged: bool,
    /// Whether there is a task now.
    pub current_present: bool,
    /// Whether there was a task when the state was captured.
    pub previous_present: bool,
    /// Whether the exported definition was captured.
    pub xml_captured: bool,
    pub was_running: bool,
    /// Whether it is known which executable the task started.
    pub executable_known: bool,
}

/// Stopping what runs before the task is replaced.
pub open spec fn task_preparation_script(defined: bool) -> Seq<Check<'static>> {
    (if defined {
        seq![
            done_within(ServiceOperation::StopScheduledDaemon, "", "stopping the existing daemon after staged-task validation"),
        ]
    } else {
        Seq::empty()
    })
        + seq![
        done(ServiceOperation::RequireTaskFile(TaskState::Previous), ""),
        done(ServiceOperation::RequireTaskXml(TaskState::Previous), ""),
    ]
}

/// Stopping what runs before the task is replaced.
pub fn task_preparation(defined: bool) -> (r: Vec<Check<'static>>)
    ensures
        r@ == task_preparation_script(defined),
{
    then_script(
        if defined {
            vec![
                done_within(ServiceOperation::StopScheduledDaemon, "", "stopping the existing daemon after staged-task validation"),
            ]
        } else {
            Vec::new()
        },
        vec![
            done(ServiceOperation::RequireTaskFile(TaskState::Previous), ""),
            done(ServiceOperation::RequireTaskXml(TaskState::Previous), ""),
        ],
    )
}

/// Starting the published task.
pub open spec fn task_activation_script() -> Seq<Check<'static>> {
    seq![
        done(ServiceOperation::RequireTaskFile(TaskState::Published), ""),
        done(ServiceOperation::RequireTaskXml(TaskState::Published), ""),
        done(ServiceOperation::Schtasks(SchtasksCommand::Run), "start scheduled task"),
        done(ServiceOperation::AwaitPresence, "scheduled daemon"),
        done(ServiceOperation::RequireTaskFile(TaskState::Published), ""),
        done(ServiceOperation::RequireTaskXml(TaskState::Published), ""),
    ]
}

/// Starting the published task.
pub fn task_activation() -> (r: Vec<Check<'static>>)
    ensures
        r@ == task_activation_script(),
{
    vec![
        done(ServiceOperation::RequireTaskFile(TaskState::Published), ""),
        done(ServiceOperation::RequireTaskXml(TaskState::Published), ""),
        done(ServiceOperation::Schtasks(SchtasksCommand::Run), "start scheduled task"),
        done(ServiceOperation::AwaitPresence, "scheduled daemon"),
        done(ServiceOperation::RequireTaskFile(TaskState::Published), ""),
        done(ServiceOperation::RequireTaskXml(TaskState::Published), ""),
    ]
}

/// Bringing the task back to the state that was captured.
pub open spec fn restore_scheduled_task_script(restoration: TaskRestoration, part: Part) -> Seq<Check<'static>> {
    match part {
        Part::First => seq![
            done(ServiceOperation::RequireTaskFile(TaskState::Current), ""),
            done(ServiceOperation::RequireTaskXml(TaskState::Current), ""),
        ]
            + (if restoration.unchanged {
            Seq::empty()
        } else {
            (if restoration.current_present {
                seq![
                    done(ServiceOperation::StopScheduledDaemon, ""),
                ]
            } else {
                seq![
                    done(ServiceOperation::AwaitAbsence, "missing scheduled-task publication rollback"),
                ]
            })
                + seq![
                done(ServiceOperation::RequireTaskFile(TaskState::Current), ""),
                done(ServiceOperation::RequireTaskXml(TaskState::Current), ""),
            ]
                + (if restoration.xml_captured {
                seq![
                    done(ServiceOperation::CreateFromXml, "restore previous scheduled task definition"),
                ]
            } else {
                seq![
                    done(ServiceOperation::Schtasks(SchtasksCommand::Delete), "remove failed new scheduled task"),
                ]
            })
        })
            + (if restoration.previous_present && restoration.xml_captured {
            seq![
                asks(ServiceOperation::AskTaskXml, "verify restored scheduled task definition", None, true, "restored scheduled-task definition did not match its exact pre-install XML"),
            ]
        } else if !restoration.previous_present && !restoration.xml_captured {
            seq![
                done(ServiceOperation::RequireTaskFile(TaskState::Absent), ""),
            ]
        } else {
            seq![
                never("scheduled-task rollback snapshots were internally inconsistent"),
            ]
        })
            + (if restoration.was_running {
            seq![
                look(ServiceOperation::RunningPid, Some("checking daemon absence before scheduled-task install rollback restart")),
            ]
        } else {
            (if restoration.previous_present {
                seq![
                    done(ServiceOperation::Schtasks(SchtasksCommand::End), "restore stopped scheduled-task state"),
                ]
            } else {
                Seq::empty()
            })
                + seq![
                done(ServiceOperation::AwaitAbsence, "scheduled-task install rollback"),
                vacant(
                    "verifying scheduled-task running state after install rollback",
                    "daemon PID ",
                    " appeared while restoring the stopped scheduled-task install state",
                ),
            ]
                + (if restoration.previous_present {
                seq![
                    done(ServiceOperation::ConfirmTaskFile, ""),
                ]
            } else {
                Seq::empty()
            })
        }),
        Part::Second(running) => (if running {
            Seq::empty()
        } else {
            seq![
                done(ServiceOperation::Schtasks(SchtasksCommand::Run), "restart previous scheduled task"),
            ]
                + (if restoration.executable_known {
                seq![
                    done(ServiceOperation::AwaitPreviousPresence, "scheduled daemon"),
                ]
            } else {
                seq![
                    never("a running scheduled-task rollback requires its exact prior executable"),
                ]
            })
        })
            + (if restoration.executable_known {
            seq![
                done(ServiceOperation::RequirePreviousIdentity, "restored scheduled-task daemon after install rollback"),
            ]
        } else {
            seq![
                never("a running scheduled-task rollback requires its exact prior executable"),
            ]
        })
            + (if restoration.previous_present {
            seq![
                done(ServiceOperation::ConfirmTaskFile, ""),
            ]
        } else {
            Seq::empty()
        }),
    }
}

/// Bringing the task back to the state that was captured.
#[verifier::spinoff_prover]
#[verifier::rlimit(60)]
pub fn restore_scheduled_task(restoration: TaskRestoration, part: Part) -> (r: Vec<Check<'static>>)
    ensures
        r@ == restore_scheduled_task_script(restoration, part),
{
    match part {
        Part::First => then_script(
            then_script(
                then_script(
                    vec![
                        done(ServiceOperation::RequireTaskFile(TaskState::Current), ""),
                        done(ServiceOperation::RequireTaskXml(TaskState::Current), ""),
                    ],
                    if restoration.unchanged {
                        Vec::new()
                    } else {
                        then_script(
                            then_script(
                                if restoration.current_present {
                                    vec![
                                        done(ServiceOperation::StopScheduledDaemon, ""),
                                    ]
                                } else {
                                    vec![
                                        done(ServiceOperation::AwaitAbsence, "missing scheduled-task publication rollback"),
                                    ]
                                },
                                vec![
                                    done(ServiceOperation::RequireTaskFile(TaskState::Current), ""),
                                    done(ServiceOperation::RequireTaskXml(TaskState::Current), ""),
                                ],
                            ),
                            if restoration.xml_captured {
                                vec![
                                    done(ServiceOperation::CreateFromXml, "restore previous scheduled task definition"),
                                ]
                            } else {
                                vec![
                                    done(ServiceOperation::Schtasks(SchtasksCommand::Delete), "remove failed new scheduled task"),
                                ]
                            },
                        )
                    },
                ),
                if restoration.previous_present && restoration.xml_captured {
                    vec![
                        asks(ServiceOperation::AskTaskXml, "verify restored scheduled task definition", None, true, "restored scheduled-task definition did not match its exact pre-install XML"),
                    ]
                } else if !restoration.previous_present && !restoration.xml_captured {
                    vec![
                        done(ServiceOperation::RequireTaskFile(TaskState::Absent), ""),
                    ]
                } else {
                    vec![
                        never("scheduled-task rollback snapshots were internally inconsistent"),
                    ]
                },
            ),
            if restoration.was_running {
                vec![
                    look(ServiceOperation::RunningPid, Some("checking daemon absence before scheduled-task install rollback restart")),
                ]
            } else {
                then_script(
                    then_script(
                        if restoration.previous_present {
                            vec![
                                done(ServiceOperation::Schtasks(SchtasksCommand::End), "restore stopped scheduled-task state"),
                            ]
                        } else {
                            Vec::new()
                        },
                        vec![
                            done(ServiceOperation::AwaitAbsence, "scheduled-task install rollback"),
                            vacant(
                                "verifying scheduled-task running state after install rollback",
                                "daemon PID ",
                                " appeared while restoring the stopped scheduled-task install state",
                            ),
                        ],
                    ),
                    if restoration.previous_present {
                        vec![
                            done(ServiceOperation::ConfirmTaskFile, ""),
                        ]
                    } else {
                        Vec::new()
                    },
                )
            },
        ),
        Part::Second(running) => then_script(
            then_script(
                if running {
                    Vec::new()
                } else {
                    then_script(
                        vec![
                            done(ServiceOperation::Schtasks(SchtasksCommand::Run), "restart previous scheduled task"),
                        ],
                        if restoration.executable_known {
                            vec![
                                done(ServiceOperation::AwaitPreviousPresence, "scheduled daemon"),
                            ]
                        } else {
                            vec![
                                never("a running scheduled-task rollback requires its exact prior executable"),
                            ]
                        },
                    )
                },
                if restoration.executable_known {
                    vec![
                        done(ServiceOperation::RequirePreviousIdentity, "restored scheduled-task daemon after install rollback"),
                    ]
                } else {
                    vec![
                        never("a running scheduled-task rollback requires its exact prior executable"),
                    ]
                },
            ),
            if restoration.previous_present {
                vec![
                    done(ServiceOperation::ConfirmTaskFile, ""),
                ]
            } else {
                Vec::new()
            },
        ),
    }
}

/// The texts of a removal that name the task's file.
#[derive(Debug, PartialEq, Eq)]
pub struct TaskRemovalTexts {
    /// Reading the file before the task is deleted.
    pub reading: String,
    /// The file is another one by then.
    pub changed: String,
    /// The file is still there after the task was deleted.
    pub remains: String,
    /// Reading the file when the removal is taken back.
    pub rereading: String,
    /// The file is another one by then.
    pub changed_since: String,
}

/// The texts of a removal of the task whose file is at a path.
pub fn task_removal_texts(path: &str) -> (r: TaskRemovalTexts)
    ensures
        r.reading@ == "re-reading scheduled-task definition "@ + path@,
        r.changed@ == "scheduled-task definition "@ + path@
            + " changed during uninstall; refusing to delete it"@,
        r.remains@ == "scheduled-task deletion returned success, but definition "@ + path@
            + " still exists"@,
        r.rereading@ == "reading scheduled-task definition during rollback "@ + path@,
        r.changed_since@ == "scheduled-task definition "@ + path@
            + " changed during uninstall; refusing to overwrite it during rollback"@,
{
    TaskRemovalTexts {
        reading: join2("re-reading scheduled-task definition ", path),
        changed: join3(
            "scheduled-task definition ",
            path,
            " changed during uninstall; refusing to delete it",
        ),
        remains: join3(
            "scheduled-task deletion returned success, but definition ",
            path,
            " still exists",
        ),
        rereading: join2("reading scheduled-task definition during rollback ", path),
        changed_since: join3(
            "scheduled-task definition ",
            path,
            " changed during uninstall; refusing to overwrite it during rollback",
        ),
    }
}

/// Taking an uninstallation back.
pub open spec fn rollback_task_scheduler_uninstall_script<'a>(defined: bool, was_running: bool, reading: &'a str, changed: &'a str, part: Part) -> Seq<Check<'a>> {
    match part {
        Part::First => (if defined {
            seq![
                asks(ServiceOperation::AskTaskFileUnchanged, "", Some(reading), true, changed),
                done(ServiceOperation::Schtasks(SchtasksCommand::Query), "verify scheduled task during uninstall rollback"),
            ]
        } else {
            seq![
                done(ServiceOperation::CreateFromXml, "restore scheduled task after failed uninstall"),
            ]
        })
            + seq![
            asks(ServiceOperation::AskTaskXml, "verify restored scheduled task after failed uninstall", None, true, "restored scheduled-task definition did not match its exact pre-uninstall XML"),
        ]
            + (if was_running {
            seq![
                look(ServiceOperation::RunningPid, Some("checking daemon state before scheduled-task rollback restart")),
            ]
        } else {
            seq![
                done(ServiceOperation::Schtasks(SchtasksCommand::End), "restore stopped scheduled-task state after failed uninstall"),
                done(ServiceOperation::AwaitAbsence, "scheduled-task uninstall rollback"),
                vacant(
                    "verifying scheduled-task running state after uninstall rollback",
                    "daemon PID ",
                    " appeared while restoring the stopped scheduled-task uninstall state",
                ),
            ]
        }),
        Part::Second(running) => (if running {
            Seq::empty()
        } else {
            seq![
                done(ServiceOperation::Schtasks(SchtasksCommand::Run), "restore running scheduled-task state"),
                done(ServiceOperation::AwaitPreviousPresence, "scheduled daemon"),
            ]
        })
            + seq![
            done(ServiceOperation::RequirePreviousIdentity, "restored scheduled-task daemon after uninstall rollback"),
        ],
    }
}

/// Taking an uninstallation back.
pub fn rollback_task_scheduler_uninstall<'a>(defined: bool, was_running: bool, reading: &'a str, changed: &'a str, part: Part) -> (r: Vec<Check<'a>>)
    ensures
        r@ == rollback_task_scheduler_uninstall_script(defined, was_running, reading, changed, part),
{
    match part {
        Part::First => then_script(
            then_script(
                if defined {
                    vec![
                        asks(ServiceOperation::AskTaskFileUnchanged, "", Some(reading), true, changed),
                        done(ServiceOperation::Schtasks(SchtasksCommand::Query), "verify scheduled task during uninstall rollback"),
                    ]
                } else {
                    vec![
                        done(ServiceOperation::CreateFromXml, "restore scheduled task after failed uninstall"),
                    ]
                },
                vec![
                    asks(ServiceOperation::AskTaskXml, "verify restored scheduled task after failed uninstall", None, true, "restored scheduled-task definition did not match its exact pre-uninstall XML"),
                ],
            ),
            if was_running {
                vec![
                    look(ServiceOperation::RunningPid, Some("checking daemon state before scheduled-task rollback restart")),
                ]
            } else {
                vec![
                    done(ServiceOperation::Schtasks(SchtasksCommand::End), "restore stopped scheduled-task state after failed uninstall"),
                    done(ServiceOperation::AwaitAbsence, "scheduled-task uninstall rollback"),
                    vacant(
                        "verifying scheduled-task running state after uninstall rollback",
                        "daemon PID ",
                        " appeared while restoring the stopped scheduled-task uninstall state",
                    ),
                ]
            },
        ),
        Part::Second(running) => then_script(
            if running {
                Vec::new()
            } else {
                vec![
                    done(ServiceOperation::Schtasks(SchtasksCommand::Run), "restore running scheduled-task state"),
                    done(ServiceOperation::AwaitPreviousPresence, "scheduled daemon"),
                ]
            },
            vec![
                done(ServiceOperation::RequirePreviousIdentity, "restored scheduled-task daemon after uninstall rollback"),
            ],
        ),
    }
}

/// Uninstalling the task.
pub open spec fn uninstall_task_scheduler_script<'a>(installed: bool, reading: &'a str, changed: &'a str, remains: &'a str) -> Seq<Check<'a>> {
    if installed {
        seq![
            done(ServiceOperation::Schtasks(SchtasksCommand::End), "stop scheduled task"),
            done(ServiceOperation::AwaitAbsence, "stopping the Windows scheduled task"),
            asks(ServiceOperation::AskTaskFileUnchanged, "", Some(reading), true, changed),
            done(ServiceOperation::RequireTaskXml(TaskState::Previous), ""),
            done(ServiceOperation::Schtasks(SchtasksCommand::Delete), "delete scheduled task"),
            asks(ServiceOperation::AskTaskFile, "", None, false, remains),
            done(ServiceOperation::RequireTaskXml(TaskState::Absent), ""),
        ]
    } else {
        seq![
            vacant(
                "checking the daemon PID lock without an installed scheduled task",
                "Windows scheduled task is not installed, but daemon PID ",
                " still owns the PID lock",
            ),
        ]
    }
}

/// Uninstalling the task.
pub fn uninstall_task_scheduler<'a>(installed: bool, reading: &'a str, changed: &'a str, remains: &'a str) -> (r: Vec<Check<'a>>)
    ensures
        r@ == uninstall_task_scheduler_script(installed, reading, changed, remains),
{
    if installed {
        vec![
            done(ServiceOperation::Schtasks(SchtasksCommand::End), "stop scheduled task"),
            done(ServiceOperation::AwaitAbsence, "stopping the Windows scheduled task"),
            asks(ServiceOperation::AskTaskFileUnchanged, "", Some(reading), true, changed),
            done(ServiceOperation::RequireTaskXml(TaskState::Previous), ""),
            done(ServiceOperation::Schtasks(SchtasksCommand::Delete), "delete scheduled task"),
            asks(ServiceOperation::AskTaskFile, "", None, false, remains),
            done(ServiceOperation::RequireTaskXml(TaskState::Absent), ""),
        ]
    } else {
        vec![
            vacant(
                "checking the daemon PID lock without an installed scheduled task",
                "Windows scheduled task is not installed, but daemon PID ",
                " still owns the PID lock",
            ),
        ]
    }
}

/// Bringing the daemon of a task back that could not be uninstalled.
pub open spec fn restore_uninstall_running_state_locked_script(was_running: bool, part: Part) -> Seq<Check<'static>> {
    match part {
        Part::First => seq![
            look(ServiceOperation::RunningPid, Some("checking daemon state after failed scheduled-task uninstall")),
        ],
        Part::Second(running) => (if was_running && !running {
            seq![
                done(ServiceOperation::Schtasks(SchtasksCommand::Run), "restore daemon after failed scheduled-task uninstall"),
                done(ServiceOperation::AwaitPreviousPresence, "scheduled daemon"),
            ]
        } else if !was_running && running {
            seq![
                never("a daemon generation started during failed scheduled-task uninstall; refusing to claim the prior stopped state was restored"),
            ]
        } else {
            Seq::empty()
        })
            + (if was_running {
            seq![
                done(ServiceOperation::RequirePreviousIdentity, "restored scheduled-task daemon"),
            ]
        } else {
            seq![
                vacant(
                    "verifying daemon state after failed scheduled-task uninstall",
                    "daemon PID ",
                    " appeared while restoring a stopped scheduled-task state",
                ),
            ]
        }),
    }
}

/// Bringing the daemon of a task back that could not be uninstalled.
pub fn restore_uninstall_running_state_locked(was_running: bool, part: Part) -> (r: Vec<Check<'static>>)
    ensures
        r@ == restore_uninstall_running_state_locked_script(was_running, part),
{
    match part {
        Part::First => vec![
            look(ServiceOperation::RunningPid, Some("checking daemon state after failed scheduled-task uninstall")),
        ],
        Part::Second(running) => then_script(
            if was_running && !running {
                vec![
                    done(ServiceOperation::Schtasks(SchtasksCommand::Run), "restore daemon after failed scheduled-task uninstall"),
                    done(ServiceOperation::AwaitPreviousPresence, "scheduled daemon"),
                ]
            } else if !was_running && running {
                vec![
                    never("a daemon generation started during failed scheduled-task uninstall; refusing to claim the prior stopped state was restored"),
                ]
            } else {
                Vec::new()
            },
            if was_running {
                vec![
                    done(ServiceOperation::RequirePreviousIdentity, "restored scheduled-task daemon"),
                ]
            } else {
                vec![
                    vacant(
                        "verifying daemon state after failed scheduled-task uninstall",
                        "daemon PID ",
                        " appeared while restoring a stopped scheduled-task state",
                    ),
                ]
            },
        ),
    }
}

/// Telling the scheduler to run the task.
pub open spec fn start_task_scheduler_script() -> Seq<Check<'static>> {
    seq![
        done(ServiceOperation::RequireTaskFile(TaskState::Previous), ""),
        done(ServiceOperation::RequireTaskXml(TaskState::Previous), ""),
        done(ServiceOperation::Schtasks(SchtasksCommand::Run), "start scheduled task"),
    ]
}

/// Telling the scheduler to run the task.
pub fn start_task_scheduler() -> (r: Vec<Check<'static>>)
    ensures
        r@ == start_task_scheduler_script(),
{
    vec![
        done(ServiceOperation::RequireTaskFile(TaskState::Previous), ""),
        done(ServiceOperation::RequireTaskXml(TaskState::Previous), ""),
        done(ServiceOperation::Schtasks(SchtasksCommand::Run), "start scheduled task"),
    ]
}

/// Telling the scheduler to end the task, and waiting until its daemon is gone.
pub open spec fn stop_task_scheduler_script() -> Seq<Check<'static>> {
    seq![
        done(ServiceOperation::RequireTaskFile(TaskState::Previous), ""),
        done(ServiceOperation::RequireTaskXml(TaskState::Previous), ""),
        done(ServiceOperation::Schtasks(SchtasksCommand::End), "stop scheduled task"),
        done(ServiceOperation::AwaitAbsence, "stopping the Windows scheduled task"),
    ]
}

/// Telling the scheduler to end the task, and waiting until its daemon is gone.
pub fn stop_task_scheduler() -> (r: Vec<Check<'static>>)
    ensures
        r@ == stop_task_scheduler_script(),
{
    vec![
        done(ServiceOperation::RequireTaskFile(TaskState::Previous), ""),
        done(ServiceOperation::RequireTaskXml(TaskState::Previous), ""),
        done(ServiceOperation::Schtasks(SchtasksCommand::End), "stop scheduled task"),
        done(ServiceOperation::AwaitAbsence, "stopping the Windows scheduled task"),
    ]
}

// -- Installing --

/// A phase of an installation. One that answers a failure keeps it.
#[derive(Debug, PartialEq, Eq)]
pub enum TaskInstallPhase {
    /// Creating a task under a name of its own.
    Stage,
    /// Removing that task again.
    Unstage,
    Prepare,
    RestorePrepared(Fault),
    Create,
    RestoreUncertain(Fault),
    /// Reading what was published.
    Inspect,
    RestoreUninspected(Fault),
    Activate,
    RollBack(Fault),
}

/// What an installation does next.
#[derive(Debug, PartialEq, Eq)]
pub enum TaskInstallStep {
    Enter(TaskInstallPhase),
    Finished(Result<(), Fault>),
}

/// Whether an installation ends with a failure.
pub open spec fn task_install_fails(step: TaskInstallStep, messages: Seq<Seq<char>>) -> bool {
    step matches TaskInstallStep::Finished(Err(fault)) && fault@ == messages
}

/// The failure of a new task that was taken back, or was not.
pub open spec fn task_rollback_report(cause: Seq<Seq<char>>, rollback: Result<(), Fault>) -> Seq<
    Seq<char>,
> {
    seq![
        match rollback {
            Ok(_) => "new scheduled task failed; previous definition was restored"@,
            Err(error) => "new scheduled task failed and rollback also failed: "@ + headline_of(
                error@,
            ),
        },
    ] + cause
}

fn task_rollback_fault(cause: Fault, rollback: Result<(), Fault>) -> (r: Fault)
    ensures
        r@ == task_rollback_report(cause@, rollback),
{
    match rollback {
        Ok(()) => cause.within("new scheduled task failed; previous definition was restored"),
        Err(error) => cause.context(
            join2(
                "new scheduled task failed and rollback also failed: ",
                error.headline().as_str(),
            ),
        ),
    }
}

/// What an installation does after a phase. The scheduler cannot validate a
/// task without creating it, so a task under another name comes first.
pub open spec fn task_install_next(
    stage_name: Seq<char>,
    defined: bool,
    phase: TaskInstallPhase,
    outcome: Result<(), Fault>,
    step: TaskInstallStep,
) -> bool {
    match (phase, outcome) {
        (TaskInstallPhase::Stage, Ok(_)) => step == TaskInstallStep::Enter(
            TaskInstallPhase::Unstage,
        ),
        (TaskInstallPhase::Stage, Err(error)) => task_install_fails(step, error@),
        (TaskInstallPhase::Unstage, Ok(_)) => step == TaskInstallStep::Enter(
            TaskInstallPhase::Prepare,
        ),
        (TaskInstallPhase::Unstage, Err(error)) => task_install_fails(
            step,
            seq![
                "staged task "@ + stage_name
                    + " could not be cleaned up; live task was left unchanged"@,
            ] + error@,
        ),
        (TaskInstallPhase::Prepare, Ok(_)) => step == TaskInstallStep::Enter(
            TaskInstallPhase::Create,
        ),
        (TaskInstallPhase::Prepare, Err(error)) => if defined {
            step == TaskInstallStep::Enter(TaskInstallPhase::RestorePrepared(error))
        } else {
            task_install_fails(
                step,
                seq![
                    "scheduled-task installation preparation failed before any live task state was changed"@,
                ] + error@,
            )
        },
        (TaskInstallPhase::RestorePrepared(cause), Ok(_)) => task_install_fails(
            step,
            seq![
                "scheduled-task installation preparation failed; its exact prior definition and running state were restored"@,
            ] + cause@,
        ),
        (TaskInstallPhase::RestorePrepared(cause), Err(error)) => task_install_fails(
            step,
            seq![
                "scheduled-task installation preparation failed and prior-state restoration was incomplete"@
                    + ": "@ + joined(error@),
            ] + cause@,
        ),
        (TaskInstallPhase::Create, Ok(_)) => step == TaskInstallStep::Enter(
            TaskInstallPhase::Inspect,
        ),
        (TaskInstallPhase::Create, Err(error)) => step == TaskInstallStep::Enter(
            TaskInstallPhase::RestoreUncertain(error),
        ),
        (TaskInstallPhase::RestoreUncertain(cause), _) => task_install_fails(
            step,
            task_rollback_report(cause@, outcome),
        ),
        (TaskInstallPhase::Inspect, Ok(_)) => step == TaskInstallStep::Enter(
            TaskInstallPhase::Activate,
        ),
        (TaskInstallPhase::Inspect, Err(error)) => step == TaskInstallStep::Enter(
            TaskInstallPhase::RestoreUninspected(error),
        ),
        (TaskInstallPhase::RestoreUninspected(cause), Ok(_)) => task_install_fails(
            step,
            seq![
                "scheduled-task publication could not be inspected; the exact prior definition and running state were restored"@,
            ] + cause@,
        ),
        (TaskInstallPhase::RestoreUninspected(cause), Err(error)) => task_install_fails(
            step,
            seq![
                "scheduled-task publication could not be inspected and exact prior-state restoration was incomplete"@
                    + ": "@ + joined(error@),
            ] + cause@,
        ),
        (TaskInstallPhase::Activate, Ok(_)) => step == TaskInstallStep::Finished(Ok(())),
        (TaskInstallPhase::Activate, Err(error)) => step == TaskInstallStep::Enter(
            TaskInstallPhase::RollBack(error),
        ),
        (TaskInstallPhase::RollBack(cause), _) => task_install_fails(
            step,
            task_rollback_report(cause@, outcome),
        ),
    }
}

/// What an installation does after a phase, given the name of the staged task
/// and whether there was a task before.
pub fn install_task_scheduler(
    stage_name: &str,
    defined: bool,
    phase: TaskInstallPhase,
    outcome: Result<(), Fault>,
) -> (r: TaskInstallStep)
    ensures
        task_install_next(stage_name@, defined, phase, outcome, r),
{
    match phase {
        TaskInstallPhase::Stage => match outcome {
            Ok(()) => TaskInstallStep::Enter(TaskInstallPhase::Unstage),
            Err(error) => TaskInstallStep::Finished(Err(error)),
        },
        TaskInstallPhase::Unstage => match outcome {
            Ok(()) => TaskInstallStep::Enter(TaskInstallPhase::Prepare),
            Err(error) => TaskInstallStep::Finished(
                Err(
                    error.context(
                        join3(
                            "staged task ",
                            stage_name,
                            " could not be cleaned up; live task was left unchanged",
                        ),
                    ),
                ),
            ),
        },
        TaskInstallPhase::Prepare => match outcome {
            Ok(()) => TaskInstallStep::Enter(TaskInstallPhase::Create),
            Err(error) => if defined {
                TaskInstallStep::Enter(TaskInstallPhase::RestorePrepared(error))
            } else {
                TaskInstallStep::Finished(
                    Err(
                        error.within(
                            "scheduled-task installation preparation failed before any live task state was changed",
                        ),
                    ),
                )
            },
        },
        TaskInstallPhase::RestorePrepared(cause) => TaskInstallStep::Finished(
            Err(
                transaction_error_with_restoration(
                    cause,
                    outcome,
                    "scheduled-task installation preparation failed; its exact prior definition and running state were restored",
                    "scheduled-task installation preparation failed and prior-state restoration was incomplete",
                ),
            ),
        ),
        TaskInstallPhase::Create => match outcome {
            Ok(()) => TaskInstallStep::Enter(TaskInstallPhase::Inspect),
            Err(error) => TaskInstallStep::Enter(TaskInstallPhase::RestoreUncertain(error)),
        },
        TaskInstallPhase::RestoreUncertain(cause) => TaskInstallStep::Finished(
            Err(task_rollback_fault(cause, outcome)),
        ),
        TaskInstallPhase::Inspect => match outcome {
            Ok(()) => TaskInstallStep::Enter(TaskInstallPhase::Activate),
            Err(error) => TaskInstallStep::Enter(TaskInstallPhase::RestoreUninspected(error)),
        },
        TaskInstallPhase::RestoreUninspected(cause) => TaskInstallStep::Finished(
            Err(
                transaction_error_with_restoration(
                    cause,
                    outcome,
                    "scheduled-task publication could not be inspected; the exact prior definition and running state were restored",
                    "scheduled-task publication could not be inspected and exact prior-state restoration was incomplete",
                ),
            ),
        ),
        TaskInstallPhase::Activate => match outcome {
            Ok(()) => TaskInstallStep::Finished(Ok(())),
            Err(error) => TaskInstallStep::Enter(TaskInstallPhase::RollBack(error)),
        },
        TaskInstallPhase::RollBack(cause) => TaskInstallStep::Finished(
            Err(task_rollback_fault(cause, outcome)),
        ),
    }
}

/// The name of the staged task.
pub fn staged_task_name(process: u32, nanos: u128) -> (r: String)
    ensures
        r@ == "\\codex-switch-global-pace-daemon-install-"@ + decimal(process as nat) + "-"@
            + decimal(nanos as nat),
{
    join4(
        "\\codex-switch-global-pace-daemon-install-",
        decimal_text(process as u64).as_str(),
        "-",
        wide_decimal_text(nanos).as_str(),
    )
}

/// The words after `schtasks` that remove the staged task.
pub fn remove_staged_task(name: &str) -> (r: Vec<String>)
    ensures
        texts(r@) == seq!["/Delete"@, "/TN"@, name@, "/F"@],
{
    let mut out: Vec<String> = Vec::new();
    out.push("/Delete".to_owned());
    out.push("/TN".to_owned());
    out.push(name.to_owned());
    out.push("/F".to_owned());
    assert(texts(out@) =~= seq!["/Delete"@, "/TN"@, name@, "/F"@]);
    out
}

/// What keeps both forms of a task from being owned by `expected`.
pub open spec fn task_forms_problem(definition: Seq<u8>, xml: Seq<u8>, expected: HostPath) -> Option<
    Seq<Seq<char>>,
> {
    match task_owner_problem(definition, expected) {
        Some(messages) => Some(messages),
        None => task_owner_problem(xml, expected),
    }
}

/// Both forms of a task, its file and its exported definition, must be owned by
/// the expected executable.
pub fn validate_task_forms(definition: &[u8], xml: &[u8], expected: &HostPath) -> (r: Result<
    (),
    Fault,
>)
    ensures
        match task_forms_problem(definition@, xml@, *expected) {
            Some(messages) => r matches Err(fault) && fault@ == messages,
            None => r is Ok,
        },
{
    match validate_task_scheduler_definition_owner(definition, expected) {
        Ok(()) => validate_task_scheduler_definition_owner(xml, expected),
        Err(fault) => Err(fault),
    }
}

/// Why an installation may not begin: the existing task must be owned by the
/// expected executable; without a task there is nothing to migrate, and no
/// daemon may run.
pub open spec fn task_admission_problem(
    forms: Option<(&[u8], &[u8])>,
    expected: HostPath,
    migration: bool,
    running: Result<Option<u32>, Fault>,
) -> Option<Seq<Seq<char>>> {
    let problem = match forms {
        Some((definition, xml)) => task_forms_problem(definition@, xml@, expected),
        None => if migration {
            Some(
                seq![
                    "an existing scheduled task was required for executable migration, but no definition is installed"@,
                ],
            )
        } else {
            None
        },
    };
    match (problem, running) {
        (Some(messages), _) => Some(messages),
        (None, Err(error)) => Some(
            seq![
                "checking the existing daemon PID lock before scheduled-task installation"@,
            ] + error@,
        ),
        (None, Ok(Some(_))) => if forms is None {
            Some(
                seq![
                    "a detached daemon is running without an installed scheduled task; stop it before installing the service"@,
                ],
            )
        } else {
            None
        },
        (None, Ok(None)) => None,
    }
}

/// Whether an installation may begin, and whether a daemon runs then.
pub fn admit_task_installation(
    forms: Option<(&[u8], &[u8])>,
    expected: &HostPath,
    migration: bool,
    running: Result<Option<u32>, Fault>,
) -> (r: Result<bool, Fault>)
    ensures
        match task_admission_problem(forms, *expected, migration, running) {
            Some(messages) => r matches Err(fault) && fault@ == messages,
            None => r matches Ok(was_running) && was_running == running->Ok_0 is Some,
        },
{
    let defined = match forms {
        Some((definition, xml)) => {
            match validate_task_forms(definition, xml, expected) {
                Ok(()) => {},
                Err(fault) => {
                    return Err(fault);
                },
            }
            true
        },
        None => {
            if migration {
                return Err(
                    Fault::of(
                        "an existing scheduled task was required for executable migration, but no definition is installed",
                    ),
                );
            }
            false
        },
    };
    match running {
        Err(error) => Err(
            error.within("checking the existing daemon PID lock before scheduled-task installation"),
        ),
        Ok(Some(_)) => if defined {
            Ok(true)
        } else {
            Err(
                Fault::of(
                    "a detached daemon is running without an installed scheduled task; stop it before installing the service",
                ),
            )
        },
        Ok(None) => Ok(false),
    }
}

/// Starting the published task: both of its forms must be owned by the expected
/// executable.
pub fn activate_published_task(definition: &[u8], xml: &[u8], expected: &HostPath) -> (r: Result<
    Vec<Check<'static>>,
    Fault,
>)
    ensures
        match task_forms_problem(definition@, xml@, *expected) {
            Some(messages) => r matches Err(fault) && fault@ == messages,
            None => r matches Ok(script) && script@ == task_activation_script(),
        },
{
    match validate_task_forms(definition, xml, expected) {
        Ok(()) => Ok(task_activation()),
        Err(fault) => Err(fault),
    }
}

/// A task that was created must be there.
pub fn published_task_definition(path: &str, definition: Option<Vec<u8>>) -> (r: Result<
    Vec<u8>,
    Fault,
>)
    ensures
        match definition {
            Some(bytes) => r == Ok::<Vec<u8>, Fault>(bytes),
            None => r matches Err(fault) && fault@ == seq![
                "scheduled-task creation returned success, but definition "@ + path@
                    + " is missing"@,
            ],
        },
{
    match definition {
        Some(bytes) => Ok(bytes),
        None => Err(
            Fault::from_text(
                join3(
                    "scheduled-task creation returned success, but definition ",
                    path,
                    " is missing",
                ),
            ),
        ),
    }
}

/// The bytes behind an optional slice.
pub open spec fn optional_bytes(bytes: Option<&[u8]>) -> Option<Seq<u8>> {
    match bytes {
        Some(b) => Some(b@),
        None => None,
    }
}

/// Why the task must not be touched after a creation that failed: what is there
/// now must be the prior task, an owned replacement, or nothing where there was
/// nothing.
pub open spec fn uncertain_task_problem(
    replacement: HostPath,
    current: (Option<Seq<u8>>, Option<Seq<u8>>),
    previous: (Option<Seq<u8>>, Option<Seq<u8>>),
) -> Option<Seq<Seq<char>>> {
    if current == previous {
        None
    } else {
        match current {
            (Some(definition), Some(xml)) => task_forms_problem(definition, xml, replacement),
            _ => Some(
                seq![
                    "scheduled-task publication post-state was neither the exact prior definition nor an exactly owned replacement"@,
                ],
            ),
        }
    }
}

/// What a restoration goes by after a creation that failed: the task that is
/// there now is classified first.
pub fn restore_after_uncertain_task_publication(
    replacement: &HostPath,
    current: (Option<&[u8]>, Option<&[u8]>),
    previous: (Option<&[u8]>, Option<&[u8]>),
    was_running: bool,
    executable_known: bool,
) -> (r: Result<TaskRestoration, Fault>)
    ensures
        match uncertain_task_problem(
            *replacement,
            (optional_bytes(current.0), optional_bytes(current.1)),
            (optional_bytes(previous.0), optional_bytes(previous.1)),
        ) {
            Some(messages) => r matches Err(fault) && fault@ == messages,
            None => r == Ok::<TaskRestoration, Fault>(
                task_restoration(
                    optional_bytes(current.0),
                    optional_bytes(previous.0),
                    previous.1 is Some,
                    was_running,
                    executable_known,
                ),
            ),
        },
{
    let prior_remains = definition_snapshot_matches(current.0, previous.0)
        && definition_snapshot_matches(current.1, previous.1);
    if !prior_remains {
        match (current.0, current.1) {
            (Some(definition), Some(xml)) => {
                match validate_task_forms(definition, xml, replacement) {
                    Ok(()) => {},
                    Err(fault) => {
                        return Err(fault);
                    },
                }
            },
            _ => {
                return Err(
                    Fault::of(
                        "scheduled-task publication post-state was neither the exact prior definition nor an exactly owned replacement",
                    ),
                );
            },
        }
    }
    Ok(
        restoration_of(
            current.0,
            previous.0,
            previous.1.is_some(),
            was_running,
            executable_known,
        ),
    )
}

/// What a restoration goes by.
pub open spec fn task_restoration(
    current: Option<Seq<u8>>,
    previous: Option<Seq<u8>>,
    xml_captured: bool,
    was_running: bool,
    executable_known: bool,
) -> TaskRestoration {
    TaskRestoration {
        unchanged: current == previous,
        current_present: current is Some,
        previous_present: previous is Some,
        xml_captured,
        was_running,
        executable_known,
    }
}

/// What a restoration goes by.
pub fn restoration_of(
    current: Option<&[u8]>,
    previous: Option<&[u8]>,
    xml_captured: bool,
    was_running: bool,
    executable_known: bool,
) -> (r: TaskRestoration)
    ensures
        r == task_restoration(
            optional_bytes(current),
            optional_bytes(previous),
            xml_captured,
            was_running,
            executable_known,
        ),
{
    TaskRestoration {
        unchanged: definition_snapshot_matches(current, previous),
        current_present: current.is_some(),
        previous_present: previous.is_some(),
        xml_captured,
        was_running,
        executable_known,
    }
}

/// The restored task must have its file again; where nothing was replaced, it
/// must be the captured one.
pub fn confirm_restored_task(
    path: &str,
    unchanged: bool,
    current: Option<&[u8]>,
    previous: Option<&[u8]>,
) -> (r: Result<(), Fault>)
    ensures
        match current {
            None => r matches Err(fault) && fault@ == seq![
                "restored scheduled-task definition "@ + path@ + " is missing"@,
            ],
            Some(_) => if unchanged && optional_bytes(current) != optional_bytes(previous) {
                r matches Err(fault) && fault@ == seq![
                    "scheduled-task definition changed while restoring its pre-install state"@,
                ]
            } else {
                r is Ok
            },
        },
{
    if current.is_none() {
        return Err(
            Fault::from_text(
                join3("restored scheduled-task definition ", path, " is missing"),
            ),
        );
    }
    if unchanged && !definition_snapshot_matches(current, previous) {
        return Err(
            Fault::of("scheduled-task definition changed while restoring its pre-install state"),
        );
    }
    Ok(())
}

/// What is known of the task while it is installed. A task has two forms: its
/// file, and the definition that the scheduler exports.
#[derive(Clone, Copy, Debug, PartialEq, Eq)]
pub struct TaskInstallFacts<'a> {
    pub executable: &'a HostPath,
    /// The task that was there before.
    pub previous: Option<(&'a [u8], &'a [u8])>,
    pub was_running: bool,
    /// The task that was looked at last: the published one, or what a creation
    /// left that failed.
    pub current: Option<(&'a [u8], &'a [u8])>,
}

/// A task's file.
pub open spec fn file_form(forms: Option<(&[u8], &[u8])>) -> Option<Seq<u8>> {
    match forms {
        Some((definition, _)) => Some(definition@),
        None => None,
    }
}

/// A task's exported definition.
pub open spec fn exported_form(forms: Option<(&[u8], &[u8])>) -> Option<Seq<u8>> {
    match forms {
        Some((_, xml)) => Some(xml@),
        None => None,
    }
}

/// What a restoration goes by.
pub open spec fn restoration_from(facts: TaskInstallFacts, current: Option<(&[u8], &[u8])>) -> TaskRestoration {
    task_restoration(
        file_form(current),
        file_form(facts.previous),
        facts.previous is Some,
        facts.was_running,
        facts.previous is Some,
    )
}

/// The script of a phase of an installation, or why the phase fails before it
/// does anything.
pub open spec fn task_phase_script(facts: TaskInstallFacts, phase: TaskInstallPhase, part: Part) -> Result<
    Seq<Check<'static>>,
    Seq<Seq<char>>,
> {
    match phase {
        TaskInstallPhase::Stage => Ok(
            seq![done(ServiceOperation::CreateStagedTask, "create scheduled task")],
        ),
        TaskInstallPhase::Unstage => Ok(
            seq![done(ServiceOperation::DeleteStagedTask, "remove staged task")],
        ),
        TaskInstallPhase::Prepare => Ok(task_preparation_script(facts.previous is Some)),
        TaskInstallPhase::RestorePrepared(_) => Ok(
            restore_scheduled_task_script(restoration_from(facts, facts.previous), part),
        ),
        TaskInstallPhase::Create => Ok(
            seq![
                done(
                    ServiceOperation::CreateTask { replace: facts.previous is Some },
                    "create scheduled task",
                ),
            ],
        ),
        TaskInstallPhase::RestoreUncertain(_) => uncertain_restoration(facts, part),
        TaskInstallPhase::Inspect => Ok(
            seq![done(ServiceOperation::InspectTask, "export newly installed scheduled task")],
        ),
        TaskInstallPhase::RestoreUninspected(_) => uncertain_restoration(facts, part),
        TaskInstallPhase::Activate => match facts.current {
            Some((definition, xml)) => match task_forms_problem(
                definition@,
                xml@,
                *facts.executable,
            ) {
                Some(messages) => Err(messages),
                None => Ok(task_activation_script()),
            },
            None => Err(misfit()),
        },
        TaskInstallPhase::RollBack(_) => Ok(
            restore_scheduled_task_script(restoration_from(facts, facts.current), part),
        ),
    }
}

/// The restoration of a task after a creation that failed or could not be looked
/// at.
pub open spec fn uncertain_restoration(facts: TaskInstallFacts, part: Part) -> Result<
    Seq<Check<'static>>,
    Seq<Seq<char>>,
> {
    match uncertain_task_problem(
        *facts.executable,
        (file_form(facts.current), exported_form(facts.current)),
        (file_form(facts.previous), exported_form(facts.previous)),
    ) {
        Some(messages) => Err(messages),
        None => Ok(
            restore_scheduled_task_script(restoration_from(facts, facts.current), part),
        ),
    }
}

/// Whether a result is exactly a script or a failure.
pub open spec fn gives(
    r: Result<Vec<Check<'static>>, Fault>,
    script: Result<Seq<Check<'static>>, Seq<Seq<char>>>,
) -> bool {
    match script {
        Ok(checks) => r matches Ok(v) && v@ == checks,
        Err(messages) => r matches Err(fault) && fault@ == messages,
    }
}

fn halves<'a>(forms: Option<(&'a [u8], &'a [u8])>) -> (r: (Option<&'a [u8]>, Option<&'a [u8]>))
    ensures
        optional_bytes(r.0) == file_form(forms),
        optional_bytes(r.1) == exported_form(forms),
        r.0 is Some == forms is Some,
        r.1 is Some == forms is Some,
{
    match forms {
        Some((definition, xml)) => (Some(definition), Some(xml)),
        None => (None, None),
    }
}

fn restoration_by(facts: &TaskInstallFacts, current: Option<(&[u8], &[u8])>) -> (r: TaskRestoration)
    ensures
        r == restoration_from(*facts, current),
{
    let known = facts.previous.is_some();
    restoration_of(
        halves(current).0,
        halves(facts.previous).0,
        known,
        facts.was_running,
        known,
    )
}

fn restore_uncertain(facts: &TaskInstallFacts, part: Part) -> (r: Result<
    Vec<Check<'static>>,
    Fault,
>)
    ensures
        gives(r, uncertain_restoration(*facts, part)),
{
    match restore_after_uncertain_task_publication(
        facts.executable,
        halves(facts.current),
        halves(facts.previous),
        facts.was_running,
        facts.previous.is_some(),
    ) {
        Ok(restoration) => Ok(restore_scheduled_task(restoration, part)),
        Err(fault) => Err(fault),
    }
}

fn single(check: Check<'static>) -> (r: Vec<Check<'static>>)
    ensures
        r@ == seq![check],
{
    vec![check]
}

/// The script of a phase of an installation, or why the phase fails before it
/// does anything.
pub fn install_task_phase(facts: &TaskInstallFacts, phase: &TaskInstallPhase, part: Part) -> (r: Result<
    Vec<Check<'static>>,
    Fault,
>)
    ensures
        gives(r, task_phase_script(*facts, *phase, part)),
{
    match phase {
        TaskInstallPhase::Stage => Ok(
            single(done(ServiceOperation::CreateStagedTask, "create scheduled task")),
        ),
        TaskInstallPhase::Unstage => Ok(
            single(done(ServiceOperation::DeleteStagedTask, "remove staged task")),
        ),
        TaskInstallPhase::Prepare => Ok(task_preparation(facts.previous.is_some())),
        TaskInstallPhase::RestorePrepared(_) => Ok(
            restore_scheduled_task(restoration_by(facts, facts.previous), part),
        ),
        TaskInstallPhase::Create => Ok(
            single(
                done(
                    ServiceOperation::CreateTask { replace: facts.previous.is_some() },
                    "create scheduled task",
                ),
            ),
        ),
        TaskInstallPhase::RestoreUncertain(_) => restore_uncertain(facts, part),
        TaskInstallPhase::Inspect => Ok(
            single(done(ServiceOperation::InspectTask, "export newly installed scheduled task")),
        ),
        TaskInstallPhase::RestoreUninspected(_) => restore_uncertain(facts, part),
        TaskInstallPhase::Activate => match facts.current {
            Some((definition, xml)) => activate_published_task(definition, xml, facts.executable),
            None => Err(misfit_fault()),
        },
        TaskInstallPhase::RollBack(_) => Ok(
            restore_scheduled_task(restoration_by(facts, facts.current), part),
        ),
    }
}

/// The task's file must be the captured one, or still be missing.
pub fn require_task_definition_snapshot(
    path: &str,
    current: Option<&[u8]>,
    expected: Option<&[u8]>,
) -> (r: Result<(), Fault>)
    ensures
        if optional_bytes(current) == optional_bytes(expected) {
            r is Ok
        } else {
            r matches Err(fault) && fault@ == seq![
                "scheduled-task definition "@ + path@
                    + " changed during the operation; refusing to mutate it"@,
            ]
        },
{
    if definition_snapshot_matches(current, expected) {
        Ok(())
    } else {
        Err(
            Fault::from_text(
                join3(
                    "scheduled-task definition ",
                    path,
                    " changed during the operation; refusing to mutate it",
                ),
            ),
        )
    }
}

/// The words after `schtasks` that put the captured task back from its file.
pub fn create_from_xml(path: &HostPath, label: &str) -> (r: Result<Vec<String>, Fault>)
    ensures
        match path.unicode {
            None => r matches Err(fault) && fault@ == seq![
                label@ + " is not valid Unicode: "@ + path.display@,
            ],
            Some(text) => r matches Ok(words) && texts(words@) == seq![
                "/Create"@,
                "/TN"@,
                WINDOWS_TASK_NAME@,
                "/XML"@,
                text@,
                "/F"@,
            ],
        },
{
    match &path.unicode {
        None => Err(
            Fault::from_text(join3(label, " is not valid Unicode: ", path.display.as_str())),
        ),
        Some(text) => {
            let mut out: Vec<String> = Vec::new();
            out.push("/Create".to_owned());
            out.push("/TN".to_owned());
            out.push(WINDOWS_TASK_NAME.to_owned());
            out.push("/XML".to_owned());
            out.push(text.clone());
            out.push("/F".to_owned());
            assert(texts(out@) =~= seq![
                "/Create"@,
                "/TN"@,
                WINDOWS_TASK_NAME@,
                "/XML"@,
                text@,
                "/F"@,
            ]);
            Ok(out)
        },
    }
}

/// How starting the task ends when its daemon did not become ready.
pub fn after_failed_task_start(error: Fault, stop: Result<(), Fault>) -> (r: Fault)
    ensures
        r@ == seq![
            match stop {
                Ok(_) => "scheduled daemon did not become ready and was stopped"@,
                Err(fault) => "scheduled daemon did not become ready and cleanup also failed: "@
                    + headline_of(fault@),
            },
        ] + error@,
{
    match stop {
        Ok(()) => error.within("scheduled daemon did not become ready and was stopped"),
        Err(fault) => error.context(
            join2(
                "scheduled daemon did not become ready and cleanup also failed: ",
                fault.headline().as_str(),
            ),
        ),
    }
}

/// The failure of an uninstallation that was rolled back.
pub fn task_scheduler_uninstall_error(error: Fault, rollback: Result<(), Fault>) -> (r: Fault)
    ensures
        r@ == seq![
            match rollback {
                Ok(_) => "Windows scheduled-task uninstall failed; its prior definition and running state were restored"@,
                Err(fault) => "Windows scheduled-task uninstall failed and rollback was incomplete"@
                    + ": "@ + joined(fault@),
            },
        ] + error@,
{
    transaction_error_with_restoration(
        error,
        rollback,
        "Windows scheduled-task uninstall failed; its prior definition and running state were restored",
        "Windows scheduled-task uninstall failed and rollback was incomplete",
    )
}

/// What was found at a name that may hold a definition.
#[derive(Debug, PartialEq, Eq)]
pub enum DefinitionSight {
    File,
    OtherKind,
    Missing,
    Unknown(Fault),
}

/// Whether there is a definition: nothing but a regular file is one.
pub fn checked_regular_file(path: &str, description: &str, sight: DefinitionSight) -> (r: Result<
    bool,
    Fault,
>)
    ensures
        match sight {
            DefinitionSight::File => r == Ok::<bool, Fault>(true),
            DefinitionSight::Missing => r == Ok::<bool, Fault>(false),
            DefinitionSight::OtherKind => r matches Err(fault) && fault@ == seq![
                description@ + " is not a regular file: "@ + path@,
            ],
            DefinitionSight::Unknown(error) => r matches Err(fault) && fault@ == seq![
                "inspecting "@ + description@ + " "@ + path@,
            ] + error@,
        },
{
    match sight {
        DefinitionSight::File => Ok(true),
        DefinitionSight::Missing => Ok(false),
        DefinitionSight::OtherKind => Err(
            Fault::from_text(join3(description, " is not a regular file: ", path)),
        ),
        DefinitionSight::Unknown(error) => Err(
            error.context(join4("inspecting ", description, " ", path)),
        ),
    }
}

/// The failure of a query for the process that runs the task.
pub fn running_instance_query_failure(stderr: &str) -> (r: Fault)
    ensures
        r@ == seq![
            "Task Scheduler running-instance PID query failed: "@ + task_failure(
                "query running scheduled-task instance"@,
                stderr@,
            ),
        ],
{
    Fault::from_text(
        join2(
            "Task Scheduler running-instance PID query failed: ",
            task_scheduler_failure_message(
                "query running scheduled-task instance",
                stderr,
            ).as_str(),
        ),
    )
}

// -- Laws --

/// An installation succeeds only after the published task was inspected and
/// activated. The live task is created only after a task under another name was
/// created and removed and what ran was stopped. Once the live task may have
/// changed, every failure leads to a restoration.
pub proof fn law_task_install_phases(
    stage_name: Seq<char>,
    defined: bool,
    phase: TaskInstallPhase,
    outcome: Result<(), Fault>,
    step: TaskInstallStep,
)
    requires
        task_install_next(stage_name, defined, phase, outcome, step),
    ensures
        (step matches TaskInstallStep::Finished(Ok(_))) ==> phase is Activate && outcome is Ok,
        (step matches TaskInstallStep::Enter(TaskInstallPhase::Create)) ==> phase is Prepare
            && outcome is Ok,
        (step matches TaskInstallStep::Enter(TaskInstallPhase::Prepare)) ==> phase is Unstage
            && outcome is Ok,
        phase is Create && outcome is Err ==> (step matches TaskInstallStep::Enter(
            TaskInstallPhase::RestoreUncertain(_),
        )),
        phase is Inspect && outcome is Err ==> (step matches TaskInstallStep::Enter(
            TaskInstallPhase::RestoreUninspected(_),
        )),
        phase is Activate && outcome is Err ==> (step matches TaskInstallStep::Enter(
            TaskInstallPhase::RollBack(_),
        )),
{
}

/// A restoration looks at the task's file and at its exported definition before
/// anything else, and again directly before it replaces or deletes the task.
#[verifier::spinoff_prover]
#[verifier::rlimit(60)]
pub proof fn law_task_is_replaced_only_as_classified(restoration: TaskRestoration, i: int)
    requires
        0 <= i < restore_scheduled_task_script(restoration, Part::First).len(),
        restore_scheduled_task_script(restoration, Part::First)[i].operation
            == ServiceOperation::CreateFromXml || restore_scheduled_task_script(
            restoration,
            Part::First,
        )[i].operation == ServiceOperation::Schtasks(SchtasksCommand::Delete),
    ensures
        i >= 2,
        !restoration.unchanged,
        restore_scheduled_task_script(restoration, Part::First)[i - 1].operation
            == ServiceOperation::RequireTaskXml(TaskState::Current),
        restore_scheduled_task_script(restoration, Part::First)[i - 2].operation
            == ServiceOperation::RequireTaskFile(TaskState::Current),
{
}

/// A task is deleted only after its daemon was gone and both its forms were
/// still the captured ones.
#[verifier::spinoff_prover]
#[verifier::rlimit(60)]
pub proof fn law_task_is_deleted_only_unchanged(
    installed: bool,
    reading: &str,
    changed: &str,
    remains: &str,
    i: int,
)
    requires
        0 <= i < uninstall_task_scheduler_script(installed, reading, changed, remains).len(),
        uninstall_task_scheduler_script(installed, reading, changed, remains)[i].operation
            == ServiceOperation::Schtasks(SchtasksCommand::Delete),
    ensures
        i == 4,
        uninstall_task_scheduler_script(installed, reading, changed, remains)[1].operation
            == ServiceOperation::AwaitAbsence,
        uninstall_task_scheduler_script(installed, reading, changed, remains)[2].operation
            == ServiceOperation::AskTaskFileUnchanged,
        uninstall_task_scheduler_script(installed, reading, changed, remains)[3].operation
            == ServiceOperation::RequireTaskXml(TaskState::Previous),
{
}

/// A published task is run only where both of its forms are owned by the new
/// executable; where they are not, the phase fails and the installation is
/// rolled back without running it.
pub proof fn law_a_published_task_is_run_only_for_its_owner(
    facts: TaskInstallFacts,
    part: Part,
    stage_name: Seq<char>,
    outcome: Result<(), Fault>,
    step: TaskInstallStep,
)
    requires
        task_install_next(
            stage_name,
            facts.previous is Some,
            TaskInstallPhase::Activate,
            outcome,
            step,
        ),
    ensures
        task_phase_script(facts, TaskInstallPhase::Activate, part) is Ok <==> (
        facts.current matches Some((definition, xml)) && task_owner_problem(
            definition@,
            *facts.executable,
        ) is None && task_owner_problem(xml@, *facts.executable) is None),
        outcome is Err ==> (step matches TaskInstallStep::Enter(TaskInstallPhase::RollBack(_))),
{
}

} // verus!
