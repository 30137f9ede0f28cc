//! The procedures on the systemd user service.
use vstd::prelude::*;

use crate::fault::{join2, join5, Fault};
use crate::service_install::{InstallPhase, InstallTexts, UninstallTexts};
use crate::service_operation::{
    answers, done, done_within, look, never, requires_absence, starts_only_when_vacant, stopped,
    then_script, vacant, Check, Expectation, Part, ServiceOperation, SystemctlCommand,
};
use crate::service_render::SYSTEMD_UNIT_NAME;

verus! {

/// How a failed installation of the unit is reported.
#[verifier::allow_in_spec]
pub fn systemd_install_texts() -> InstallTexts<'static>
    returns
        (InstallTexts {
            preparation_restored: "systemd installation preparation failed; its exact prior active state was restored",
            preparation_incomplete: "systemd installation preparation failed and prior-state restoration was incomplete",
            preparation_untouched: "systemd installation preparation failed before any service state was changed",
            unpublished: "atomically replacing systemd user service",
            unpublished_and_stopped: "atomically replacing the systemd user service failed and the existing service could not be restarted",
            rolled_back: "new systemd service failed; previous definition was restored",
            rollback_failed: "new systemd service failed and rollback also failed",
            uncommitted: "committing the installed systemd user service definition",
        }),
{
    InstallTexts {
        preparation_restored: "systemd installation preparation failed; its exact prior active state was restored",
        preparation_incomplete: "systemd installation preparation failed and prior-state restoration was incomplete",
        preparation_untouched: "systemd installation preparation failed before any service state was changed",
        unpublished: "atomically replacing systemd user service",
        unpublished_and_stopped: "atomically replacing the systemd user service failed and the existing service could not be restarted",
        rolled_back: "new systemd service failed; previous definition was restored",
        rollback_failed: "new systemd service failed and rollback also failed",
        uncommitted: "committing the installed systemd user service definition",
    }
}

/// Stopping what runs before the definition is replaced.
pub open spec fn systemd_preparation_script(was_active: bool) -> Seq<Check<'static>> {
    (if was_active {
        seq![
            done(ServiceOperation::Systemctl(SystemctlCommand::Stop), "stop existing systemd service"),
            answers(ServiceOperation::AskActive, false, "systemctl stop returned while the existing service remained active"),
            done(ServiceOperation::AwaitAbsence, "systemd service replacement"),
        ]
    } else {
        seq![
            vacant(
                "checking for a detached daemon before systemd installation",
                "daemon PID ",
                " is running outside the inactive systemd service; stop it before installing the service",
            ),
        ]
    })
        + seq![
        done(ServiceOperation::RequireUnchanged, ""),
    ]
}

/// Stopping what runs before the definition is replaced.
pub fn systemd_preparation(was_active: bool) -> (r: Vec<Check<'static>>)
    ensures
        r@ == systemd_preparation_script(was_active),
{
    then_script(
        if was_active {
            vec![
                done(ServiceOperation::Systemctl(SystemctlCommand::Stop), "stop existing systemd service"),
                answers(ServiceOperation::AskActive, false, "systemctl stop returned while the existing service remained active"),
                done(ServiceOperation::AwaitAbsence, "systemd service replacement"),
            ]
        } else {
            vec![
                vacant(
                    "checking for a detached daemon before systemd installation",
                    "daemon PID ",
                    " is running outside the inactive systemd service; stop it before installing the service",
                ),
            ]
        },
        vec![
            done(ServiceOperation::RequireUnchanged, ""),
        ],
    )
}

/// Starting again what the preparation of an installation had stopped.
pub open spec fn restore_systemd_after_prepublication_stop_script(was_enabled: bool, was_active: bool, part: Part) -> Seq<Check<'static>> {
    match part {
        Part::First => seq![
            done(ServiceOperation::RequireUnchanged, ""),
            answers(ServiceOperation::AskEnabled, was_enabled, "systemd enablement changed while restoring a failed install preparation"),
            look(ServiceOperation::AskActive, None),
        ],
        Part::Second(active) => (if was_active && !active {
            seq![
                vacant(
                    "checking daemon absence before restoring pre-install systemd state",
                    "daemon PID ",
                    " appeared while restoring the pre-install systemd state",
                ),
                done(ServiceOperation::Systemctl(SystemctlCommand::Start), "restore systemd service after pre-publication failure"),
                done(ServiceOperation::AwaitPreviousPresence, "restored pre-install systemd service"),
            ]
        } else if !was_active && active {
            seq![
                never("systemd service became active while restoring an initially inactive install state"),
            ]
        } else {
            Seq::empty()
        })
            + seq![
            answers(ServiceOperation::AskEnabled, was_enabled, "systemd state was not restored after pre-publication failure"),
            answers(ServiceOperation::AskActive, was_active, "systemd state was not restored after pre-publication failure"),
        ]
            + (if was_active {
            seq![
                done(ServiceOperation::RequirePreviousIdentity, "restored pre-install systemd service"),
            ]
        } else {
            Seq::empty()
        }),
    }
}

/// Starting again what the preparation of an installation had stopped.
pub fn restore_systemd_after_prepublication_stop(was_enabled: bool, was_active: bool, part: Part) -> (r: Vec<Check<'static>>)
    ensures
        r@ == restore_systemd_after_prepublication_stop_script(was_enabled, was_active, part),
{
    match part {
        Part::First => vec![
            done(ServiceOperation::RequireUnchanged, ""),
            answers(ServiceOperation::AskEnabled, was_enabled, "systemd enablement changed while restoring a failed install preparation"),
            look(ServiceOperation::AskActive, None),
        ],
        Part::Second(active) => then_script(
            then_script(
                if was_active && !active {
                    vec![
                        vacant(
                            "checking daemon absence before restoring pre-install systemd state",
                            "daemon PID ",
                            " appeared while restoring the pre-install systemd state",
                        ),
                        done(ServiceOperation::Systemctl(SystemctlCommand::Start), "restore systemd service after pre-publication failure"),
                        done(ServiceOperation::AwaitPreviousPresence, "restored pre-install systemd service"),
                    ]
                } else if !was_active && active {
                    vec![
                        never("systemd service became active while restoring an initially inactive install state"),
                    ]
                } else {
                    Vec::new()
                },
                vec![
                    answers(ServiceOperation::AskEnabled, was_enabled, "systemd state was not restored after pre-publication failure"),
                    answers(ServiceOperation::AskActive, was_active, "systemd state was not restored after pre-publication failure"),
                ],
            ),
            if was_active {
                vec![
                    done(ServiceOperation::RequirePreviousIdentity, "restored pre-install systemd service"),
                ]
            } else {
                Vec::new()
            },
        ),
    }
}

/// Starting the service again whose definition could not be replaced.
pub open spec fn systemd_restart_unchanged_script() -> Seq<Check<'static>> {
    seq![
        done(ServiceOperation::RequireUnchanged, ""),
        done(ServiceOperation::Systemctl(SystemctlCommand::Start), "restart existing service"),
        done(ServiceOperation::AwaitPreviousPresence, "restarted existing systemd service"),
    ]
}

/// Starting the service again whose definition could not be replaced.
pub fn systemd_restart_unchanged() -> (r: Vec<Check<'static>>)
    ensures
        r@ == systemd_restart_unchanged_script(),
{
    vec![
        done(ServiceOperation::RequireUnchanged, ""),
        done(ServiceOperation::Systemctl(SystemctlCommand::Start), "restart existing service"),
        done(ServiceOperation::AwaitPreviousPresence, "restarted existing systemd service"),
    ]
}

/// Starting the published service.
pub open spec fn systemd_activation_script() -> Seq<Check<'static>> {
    seq![
        done(ServiceOperation::Systemctl(SystemctlCommand::DaemonReload), "reload systemd user units"),
        done(ServiceOperation::Systemctl(SystemctlCommand::EnableNow), "enable new systemd service"),
        answers(ServiceOperation::AskEnabled, true, "systemctl enable --now returned without an enabled, active service"),
        answers(ServiceOperation::AskActive, true, "systemctl enable --now returned without an enabled, active service"),
        done(ServiceOperation::AwaitPresence, "new systemd service"),
    ]
}

/// Starting the published service.
pub fn systemd_activation() -> (r: Vec<Check<'static>>)
    ensures
        r@ == systemd_activation_script(),
{
    vec![
        done(ServiceOperation::Systemctl(SystemctlCommand::DaemonReload), "reload systemd user units"),
        done(ServiceOperation::Systemctl(SystemctlCommand::EnableNow), "enable new systemd service"),
        answers(ServiceOperation::AskEnabled, true, "systemctl enable --now returned without an enabled, active service"),
        answers(ServiceOperation::AskActive, true, "systemctl enable --now returned without an enabled, active service"),
        done(ServiceOperation::AwaitPresence, "new systemd service"),
    ]
}

/// Taking a published service back: it is stopped first, and nothing is restored
/// while it may still run.
pub open spec fn rollback_systemd_install_script(was_enabled: bool, was_active: bool, replaced: bool) -> Seq<Check<'static>> {
    seq![
        stopped(
            "stop failed new systemd service",
            "failed new systemd service is still active; refusing to restore its definition underneath the running process",
            "could not verify that the failed new systemd service stopped",
        ),
        answers(ServiceOperation::AskActive, false, "failed new systemd service remained active during rollback"),
        done(ServiceOperation::AwaitAbsence, "systemd install rollback"),
    ]
        + (if !was_enabled {
        seq![
            done(ServiceOperation::Systemctl(SystemctlCommand::Disable), "remove enablement for failed new systemd service"),
        ]
    } else {
        Seq::empty()
    })
        + seq![
        done(ServiceOperation::RollBackPublication, ""),
        done(ServiceOperation::Systemctl(SystemctlCommand::DaemonReload), "reload restored systemd user units"),
    ]
        + (if was_enabled {
        seq![
            done(ServiceOperation::Systemctl(SystemctlCommand::Enable), "restore enabled service state"),
        ]
    } else if replaced {
        seq![
            done(ServiceOperation::Systemctl(SystemctlCommand::Disable), "restore disabled service state"),
        ]
    } else {
        Seq::empty()
    })
        + (if was_active {
        seq![
            vacant(
                "checking daemon absence before systemd install rollback restart",
                "daemon PID ",
                " still owns the PID lock; refusing to start a second generation during systemd install rollback",
            ),
            done(ServiceOperation::Systemctl(SystemctlCommand::Start), "restart restored systemd service"),
            done(ServiceOperation::AwaitPreviousPresence, "restored systemd service"),
        ]
    } else {
        seq![
            done(ServiceOperation::AwaitAbsence, "systemd install rollback"),
        ]
    })
        + seq![
        answers(ServiceOperation::AskEnabled, was_enabled, "restored systemd service state did not match its pre-install state"),
        answers(ServiceOperation::AskActive, was_active, "restored systemd service state did not match its pre-install state"),
    ]
}

/// Taking a published service back: it is stopped first, and nothing is restored
/// while it may still run.
pub fn rollback_systemd_install(was_enabled: bool, was_active: bool, replaced: bool) -> (r: Vec<Check<'static>>)
    ensures
        r@ == rollback_systemd_install_script(was_enabled, was_active, replaced),
{
    then_script(
        then_script(
            then_script(
                then_script(
                    then_script(
                        vec![
                            stopped(
                                "stop failed new systemd service",
                                "failed new systemd service is still active; refusing to restore its definition underneath the running process",
                                "could not verify that the failed new systemd service stopped",
                            ),
                            answers(ServiceOperation::AskActive, false, "failed new systemd service remained active during rollback"),
                            done(ServiceOperation::AwaitAbsence, "systemd install rollback"),
                        ],
                        if !was_enabled {
                            vec![
                                done(ServiceOperation::Systemctl(SystemctlCommand::Disable), "remove enablement for failed new systemd service"),
                            ]
                        } else {
                            Vec::new()
                        },
                    ),
                    vec![
                        done(ServiceOperation::RollBackPublication, ""),
                        done(ServiceOperation::Systemctl(SystemctlCommand::DaemonReload), "reload restored systemd user units"),
                    ],
                ),
                if was_enabled {
                    vec![
                        done(ServiceOperation::Systemctl(SystemctlCommand::Enable), "restore enabled service state"),
                    ]
                } else if replaced {
                    vec![
                        done(ServiceOperation::Systemctl(SystemctlCommand::Disable), "restore disabled service state"),
                    ]
                } else {
                    Vec::new()
                },
            ),
            if was_active {
                vec![
                    vacant(
                        "checking daemon absence before systemd install rollback restart",
                        "daemon PID ",
                        " still owns the PID lock; refusing to start a second generation during systemd install rollback",
                    ),
                    done(ServiceOperation::Systemctl(SystemctlCommand::Start), "restart restored systemd service"),
                    done(ServiceOperation::AwaitPreviousPresence, "restored systemd service"),
                ]
            } else {
                vec![
                    done(ServiceOperation::AwaitAbsence, "systemd install rollback"),
                ]
            },
        ),
        vec![
            answers(ServiceOperation::AskEnabled, was_enabled, "restored systemd service state did not match its pre-install state"),
            answers(ServiceOperation::AskActive, was_active, "restored systemd service state did not match its pre-install state"),
        ],
    )
}

/// What putting the definition at a path back is called.
pub fn restoring_systemd_definition(path: &str) -> (r: String)
    ensures
        r@ == "restoring systemd definition "@ + path@,
{
    join2("restoring systemd definition ", path)
}

/// Taking an uninstallation back.
pub open spec fn rollback_systemd_uninstall_script<'a>(moved: bool, was_enabled: bool, was_active: bool, restoring: &'a str, part: Part) -> Seq<Check<'a>> {
    match part {
        Part::First => (if moved {
            seq![
                done_within(ServiceOperation::RollBackRemoval, "", restoring),
            ]
        } else {
            seq![
                done(ServiceOperation::RequireUnchanged, ""),
            ]
        })
            + seq![
            done(ServiceOperation::Systemctl(SystemctlCommand::DaemonReload), "reload restored systemd user units"),
        ]
            + (if was_enabled {
            seq![
                done(ServiceOperation::Systemctl(SystemctlCommand::Enable), "restore enabled systemd service state"),
            ]
        } else {
            seq![
                done(ServiceOperation::Systemctl(SystemctlCommand::Disable), "restore disabled systemd service state"),
            ]
        })
            + seq![
            look(ServiceOperation::AskActive, None),
        ],
        Part::Second(active) => (if was_active && !active {
            seq![
                vacant(
                    "checking daemon absence before systemd rollback restart",
                    "daemon PID ",
                    " still owns the PID lock; refusing to start a second generation during systemd rollback",
                ),
                done(ServiceOperation::Systemctl(SystemctlCommand::Start), "restore active systemd service state"),
                done(ServiceOperation::AwaitPreviousPresence, "restored systemd service"),
            ]
        } else if !was_active && active {
            seq![
                done(ServiceOperation::Systemctl(SystemctlCommand::Stop), "restore inactive systemd service state"),
                done(ServiceOperation::AwaitAbsence, "systemd uninstall rollback"),
            ]
        } else {
            Seq::empty()
        })
            + seq![
            answers(ServiceOperation::AskEnabled, was_enabled, "restored systemd service state did not match its pre-uninstall state"),
            answers(ServiceOperation::AskActive, was_active, "restored systemd service state did not match its pre-uninstall state"),
        ]
            + (if was_active {
            seq![
                done(ServiceOperation::RequirePreviousIdentity, "restored systemd service"),
            ]
        } else {
            Seq::empty()
        }),
    }
}

/// Taking an uninstallation back.
pub fn rollback_systemd_uninstall<'a>(moved: bool, was_enabled: bool, was_active: bool, restoring: &'a str, part: Part) -> (r: Vec<Check<'a>>)
    ensures
        r@ == rollback_systemd_uninstall_script(moved, was_enabled, was_active, restoring, part),
{
    match part {
        Part::First => then_script(
            then_script(
                then_script(
                    if moved {
                        vec![
                            done_within(ServiceOperation::RollBackRemoval, "", restoring),
                        ]
                    } else {
                        vec![
                            done(ServiceOperation::RequireUnchanged, ""),
                        ]
                    },
                    vec![
                        done(ServiceOperation::Systemctl(SystemctlCommand::DaemonReload), "reload restored systemd user units"),
                    ],
                ),
                if was_enabled {
                    vec![
                        done(ServiceOperation::Systemctl(SystemctlCommand::Enable), "restore enabled systemd service state"),
                    ]
                } else {
                    vec![
                        done(ServiceOperation::Systemctl(SystemctlCommand::Disable), "restore disabled systemd service state"),
                    ]
                },
            ),
            vec![
                look(ServiceOperation::AskActive, None),
            ],
        ),
        Part::Second(active) => then_script(
            then_script(
                if was_active && !active {
                    vec![
                        vacant(
                            "checking daemon absence before systemd rollback restart",
                            "daemon PID ",
                            " still owns the PID lock; refusing to start a second generation during systemd rollback",
                        ),
                        done(ServiceOperation::Systemctl(SystemctlCommand::Start), "restore active systemd service state"),
                        done(ServiceOperation::AwaitPreviousPresence, "restored systemd service"),
                    ]
                } else if !was_active && active {
                    vec![
                        done(ServiceOperation::Systemctl(SystemctlCommand::Stop), "restore inactive systemd service state"),
                        done(ServiceOperation::AwaitAbsence, "systemd uninstall rollback"),
                    ]
                } else {
                    Vec::new()
                },
                vec![
                    answers(ServiceOperation::AskEnabled, was_enabled, "restored systemd service state did not match its pre-uninstall state"),
                    answers(ServiceOperation::AskActive, was_active, "restored systemd service state did not match its pre-uninstall state"),
                ],
            ),
            if was_active {
                vec![
                    done(ServiceOperation::RequirePreviousIdentity, "restored systemd service"),
                ]
            } else {
                Vec::new()
            },
        ),
    }
}

/// No unit may run or be enabled without a definition that names its owner.
pub open spec fn require_no_definitionless_systemd_service_script() -> Seq<Check<'static>> {
    seq![
        answers(ServiceOperation::AskActive, false, "systemd unit codex-switch-global-pace-daemon is active or enabled without a definition that can prove ownership"),
        answers(ServiceOperation::AskEnabled, false, "systemd unit codex-switch-global-pace-daemon is active or enabled without a definition that can prove ownership"),
    ]
}

/// No unit may run or be enabled without a definition that names its owner.
pub fn require_no_definitionless_systemd_service() -> (r: Vec<Check<'static>>)
    ensures
        r@ == require_no_definitionless_systemd_service_script(),
{
    vec![
        answers(ServiceOperation::AskActive, false, "systemd unit codex-switch-global-pace-daemon is active or enabled without a definition that can prove ownership"),
        answers(ServiceOperation::AskEnabled, false, "systemd unit codex-switch-global-pace-daemon is active or enabled without a definition that can prove ownership"),
    ]
}

/// Starting the installed service.
pub open spec fn start_systemd_script(installed: bool) -> Seq<Check<'static>> {
    if installed {
        seq![
            done(ServiceOperation::Systemctl(SystemctlCommand::Start), "start systemd user service"),
            answers(ServiceOperation::AskActive, true, "systemctl start returned without an active systemd user service"),
            done(ServiceOperation::AwaitPresence, "systemd user service"),
        ]
    } else {
        require_no_definitionless_systemd_service_script()
            + seq![
            never("systemd service not installed"),
        ]
    }
}

/// Starting the installed service.
pub fn start_systemd(installed: bool) -> (r: Vec<Check<'static>>)
    ensures
        r@ == start_systemd_script(installed),
{
    if installed {
        vec![
            done(ServiceOperation::Systemctl(SystemctlCommand::Start), "start systemd user service"),
            answers(ServiceOperation::AskActive, true, "systemctl start returned without an active systemd user service"),
            done(ServiceOperation::AwaitPresence, "systemd user service"),
        ]
    } else {
        then_script(
            require_no_definitionless_systemd_service(),
            vec![
                never("systemd service not installed"),
            ],
        )
    }
}

/// Stopping the installed service, if it is active.
pub open spec fn stop_systemd_manager_script(installed: bool, part: Part) -> Seq<Check<'static>> {
    match part {
        Part::First => {
            if installed {
                seq![
                    look(ServiceOperation::AskActive, None),
                ]
            } else {
                require_no_definitionless_systemd_service_script()
                    + seq![
                    never("systemd service not installed"),
                ]
            }
        },
        Part::Second(active) => {
            if active {
                seq![
                    done(ServiceOperation::Systemctl(SystemctlCommand::Stop), "stop systemd user service"),
                    answers(ServiceOperation::AskActive, false, "systemctl stop returned while the systemd user service remained active"),
                ]
            } else {
                Seq::empty()
            }
        },
    }
}

/// Stopping the installed service, if it is active.
pub fn stop_systemd_manager(installed: bool, part: Part) -> (r: Vec<Check<'static>>)
    ensures
        r@ == stop_systemd_manager_script(installed, part),
{
    match part {
        Part::First => {
            if installed {
                vec![
                    look(ServiceOperation::AskActive, None),
                ]
            } else {
                then_script(
                    require_no_definitionless_systemd_service(),
                    vec![
                        never("systemd service not installed"),
                    ],
                )
            }
        },
        Part::Second(active) => {
            if active {
                vec![
                    done(ServiceOperation::Systemctl(SystemctlCommand::Stop), "stop systemd user service"),
                    answers(ServiceOperation::AskActive, false, "systemctl stop returned while the systemd user service remained active"),
                ]
            } else {
                Vec::new()
            }
        },
    }
}

/// Stopping the installed service, and waiting until its daemon is gone.
pub open spec fn stop_systemd_script(installed: bool, part: Part) -> Seq<Check<'static>> {
    match part {
        Part::First => stop_systemd_manager_script(installed, part),
        Part::Second(_) => stop_systemd_manager_script(installed, part)
            + seq![
            done(ServiceOperation::AwaitAbsence, "systemctl stop"),
        ],
    }
}

/// Stopping the installed service, and waiting until its daemon is gone.
pub fn stop_systemd(installed: bool, part: Part) -> (r: Vec<Check<'static>>)
    ensures
        r@ == stop_systemd_script(installed, part),
{
    match part {
        Part::First => stop_systemd_manager(installed, part),
        Part::Second(_) => then_script(
            stop_systemd_manager(installed, part),
            vec![
                done(ServiceOperation::AwaitAbsence, "systemctl stop"),
            ],
        ),
    }
}

/// Uninstalling the service.
pub open spec fn uninstall_systemd_script(installed: bool) -> Seq<Check<'static>> {
    if installed {
        seq![
            done(ServiceOperation::Systemctl(SystemctlCommand::DisableNow), "disable and stop systemd user service"),
            answers(ServiceOperation::AskActive, false, "systemctl disable --now returned without an inactive, disabled service"),
            answers(ServiceOperation::AskEnabled, false, "systemctl disable --now returned without an inactive, disabled service"),
            done(ServiceOperation::AwaitAbsence, "systemctl disable --now"),
            done(ServiceOperation::MoveAway, ""),
            done(ServiceOperation::Systemctl(SystemctlCommand::DaemonReload), "reload systemd user units after uninstall"),
            done(ServiceOperation::CommitRemoval, ""),
        ]
    } else {
        require_no_definitionless_systemd_service_script()
    }
}

/// Uninstalling the service.
pub fn uninstall_systemd(installed: bool) -> (r: Vec<Check<'static>>)
    ensures
        r@ == uninstall_systemd_script(installed),
{
    if installed {
        vec![
            done(ServiceOperation::Systemctl(SystemctlCommand::DisableNow), "disable and stop systemd user service"),
            answers(ServiceOperation::AskActive, false, "systemctl disable --now returned without an inactive, disabled service"),
            answers(ServiceOperation::AskEnabled, false, "systemctl disable --now returned without an inactive, disabled service"),
            done(ServiceOperation::AwaitAbsence, "systemctl disable --now"),
            done(ServiceOperation::MoveAway, ""),
            done(ServiceOperation::Systemctl(SystemctlCommand::DaemonReload), "reload systemd user units after uninstall"),
            done(ServiceOperation::CommitRemoval, ""),
        ]
    } else {
        require_no_definitionless_systemd_service()
    }
}

/// The script of a phase of an installation. The definition is published and
/// committed by transactions of their own.
pub open spec fn install_systemd_script(
    phase: InstallPhase,
    was_enabled: bool,
    was_active: bool,
    replaced: bool,
    part: Part,
) -> Seq<Check<'static>> {
    match phase {
        InstallPhase::Prepare => systemd_preparation_script(was_active),
        InstallPhase::RestorePrepared(_) => restore_systemd_after_prepublication_stop_script(
            was_enabled,
            was_active,
            part,
        ),
        InstallPhase::RestartUnchanged(_) => systemd_restart_unchanged_script(),
        InstallPhase::Activate => systemd_activation_script(),
        InstallPhase::RollBack(_) => rollback_systemd_install_script(
            was_enabled,
            was_active,
            replaced,
        ),
        InstallPhase::Publish => Seq::empty(),
        InstallPhase::Commit => Seq::empty(),
    }
}

/// The script of a phase of an installation.
pub fn install_systemd(
    phase: &InstallPhase,
    was_enabled: bool,
    was_active: bool,
    replaced: bool,
    part: Part,
) -> (r: Vec<Check<'static>>)
    ensures
        r@ == install_systemd_script(*phase, was_enabled, was_active, replaced, part),
{
    match phase {
        InstallPhase::Prepare => systemd_preparation(was_active),
        InstallPhase::RestorePrepared(_) => restore_systemd_after_prepublication_stop(
            was_enabled,
            was_active,
            part,
        ),
        InstallPhase::RestartUnchanged(_) => systemd_restart_unchanged(),
        InstallPhase::Activate => systemd_activation(),
        InstallPhase::RollBack(_) => rollback_systemd_install(was_enabled, was_active, replaced),
        InstallPhase::Publish => Vec::new(),
        InstallPhase::Commit => Vec::new(),
    }
}

/// Why a migration without a definition is refused.
pub const MISSING_SYSTEMD_SERVICE: &'static str =
    "an existing systemd service was required for executable migration, but no definition is installed";

/// The generated definition must have passed validation.
pub fn require_valid_systemd_unit(valid: bool, detail: &str) -> (r: Result<(), Fault>)
    ensures
        if valid {
            r is Ok
        } else {
            r matches Err(fault) && fault@ == seq![
                "generated systemd user service failed validation: "@ + detail@,
            ]
        },
{
    if valid {
        Ok(())
    } else {
        Err(
            Fault::from_text(join2("generated systemd user service failed validation: ", detail)),
        )
    }
}

/// A unit that runs or is enabled can be replaced only if it can be restored.
pub fn require_restorable_systemd_unit(
    path: &str,
    defined: bool,
    was_active: bool,
    was_enabled: bool,
) -> (r: Result<(), Fault>)
    ensures
        if !defined && (was_active || was_enabled) {
            r matches Err(fault) && fault@ == seq![
                "systemd unit "@ + SYSTEMD_UNIT_NAME@
                    + " is active or enabled without a restorable definition at "@ + path@
                    + "; refusing to replace it"@,
            ]
        } else {
            r is Ok
        },
{
    if !defined && (was_active || was_enabled) {
        Err(
            Fault::from_text(
                join5(
                    "systemd unit ",
                    SYSTEMD_UNIT_NAME,
                    " is active or enabled without a restorable definition at ",
                    path,
                    "; refusing to replace it",
                ),
            ),
        )
    } else {
        Ok(())
    }
}

/// How a failed uninstallation of the unit is reported.
#[verifier::allow_in_spec]
pub fn systemd_uninstall_texts() -> UninstallTexts<'static>
    returns
        (UninstallTexts {
            restored: "systemd service uninstall failed; its prior definition, enabled state, and active state were restored",
            incomplete: "systemd service uninstall failed and rollback was incomplete",
            unconfirmed: "systemd service uninstall was applied after daemon-reload and remains inactive and disabled, but cleanup durability could not be confirmed",
        }),
{
    UninstallTexts {
        restored: "systemd service uninstall failed; its prior definition, enabled state, and active state were restored",
        incomplete: "systemd service uninstall failed and rollback was incomplete",
        unconfirmed: "systemd service uninstall was applied after daemon-reload and remains inactive and disabled, but cleanup durability could not be confirmed",
    }
}

// -- Laws --

/// A definition is replaced only when no daemon holds the lock and the
/// definition is still the one that was read.
pub proof fn law_systemd_is_prepared_before_publication(was_active: bool)
    ensures
        requires_absence(systemd_preparation_script(was_active)),
        systemd_preparation_script(was_active).last().operation
            == ServiceOperation::RequireUnchanged,
{
    let script = systemd_preparation_script(was_active);
    if was_active {
        assert(script[2].operation == ServiceOperation::AwaitAbsence);
    } else {
        assert(script[0].expectation is Vacant);
    }
}

/// A rollback starts the service only directly after no daemon held the lock,
/// so that no second generation is started.
pub proof fn law_systemd_rollback_starts_no_second_generation(
    was_enabled: bool,
    was_active: bool,
    replaced: bool,
    moved: bool,
    restoring: &str,
    part: Part,
)
    ensures
        starts_only_when_vacant(
            restore_systemd_after_prepublication_stop_script(was_enabled, was_active, part),
            ServiceOperation::Systemctl(SystemctlCommand::Start),
        ),
        starts_only_when_vacant(
            rollback_systemd_install_script(was_enabled, was_active, replaced),
            ServiceOperation::Systemctl(SystemctlCommand::Start),
        ),
        starts_only_when_vacant(
            rollback_systemd_uninstall_script(moved, was_enabled, was_active, restoring, part),
            ServiceOperation::Systemctl(SystemctlCommand::Start),
        ),
{
}

/// A rollback takes the published definition back only after the new service was
/// stopped or known not to run, was then seen to be inactive, and its daemon was
/// gone.
pub proof fn law_systemd_rollback_stops_before_it_restores(
    was_enabled: bool,
    was_active: bool,
    replaced: bool,
    i: int,
)
    requires
        0 <= i < rollback_systemd_install_script(was_enabled, was_active, replaced).len(),
        rollback_systemd_install_script(was_enabled, was_active, replaced)[i].operation
            == ServiceOperation::RollBackPublication,
    ensures
        i >= 3,
        ({
            let script = rollback_systemd_install_script(was_enabled, was_active, replaced);
            &&& script[0].operation == ServiceOperation::StopUnit && script[0].expectation is Stopped
            &&& script[1].operation == ServiceOperation::AskActive && (
            script[1].expectation matches Expectation::Is { value: false, .. })
            &&& script[2].operation == ServiceOperation::AwaitAbsence
        }),
{
}

/// A definition is moved away only directly after the service was stopped and
/// disabled and its daemon was gone.
pub proof fn law_systemd_is_stopped_before_removal(installed: bool, i: int)
    requires
        0 <= i < uninstall_systemd_script(installed).len(),
        uninstall_systemd_script(installed)[i].operation == ServiceOperation::MoveAway,
    ensures
        i == 4,
        uninstall_systemd_script(installed)[0].operation == ServiceOperation::Systemctl(
            SystemctlCommand::DisableNow,
        ),
        uninstall_systemd_script(installed)[1].expectation matches Expectation::Is {
            value: false,
            ..
        },
        uninstall_systemd_script(installed)[2].expectation matches Expectation::Is {
            value: false,
            ..
        },
        uninstall_systemd_script(installed)[3].operation == ServiceOperation::AwaitAbsence,
{
}

} // verus!
