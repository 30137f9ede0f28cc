//! The procedures on the LaunchAgent.
use vstd::prelude::*;

use crate::fault::{join2, join5, Fault};
use crate::service_install::{InstallPhase, InstallTexts, UninstallTexts};
use crate::service_operation::{
    answers, done, done_within, look, never, requires_absence, starts_only_when_vacant, then_script,
    vacant, Check, Part, ServiceOperation,
};
use crate::service_render::LAUNCHD_LABEL;

verus! {

/// How a failed installation of the LaunchAgent is reported.
#[verifier::allow_in_spec]
pub fn launchd_install_texts() -> InstallTexts<'static>
    returns
        (InstallTexts {
            preparation_restored: "LaunchAgent installation preparation failed; its exact prior loaded state was restored",
            preparation_incomplete: "LaunchAgent installation preparation failed and prior-state restoration was incomplete",
            preparation_untouched: "LaunchAgent installation preparation failed before any service state was changed",
            unpublished: "atomically replacing LaunchAgent definition",
            unpublished_and_stopped: "atomically replacing the LaunchAgent failed and the existing LaunchAgent could not be restarted",
            rolled_back: "new LaunchAgent failed; previous definition was restored",
            rollback_failed: "new LaunchAgent failed and rollback also failed",
            uncommitted: "committing the installed LaunchAgent definition",
        }),
{
    InstallTexts {
        preparation_restored: "LaunchAgent installation preparation failed; its exact prior loaded state was restored",
        preparation_incomplete: "LaunchAgent installation preparation failed and prior-state restoration was incomplete",
        preparation_untouched: "LaunchAgent installation preparation failed before any service state was changed",
        unpublished: "atomically replacing LaunchAgent definition",
        unpublished_and_stopped: "atomically replacing the LaunchAgent failed and the existing LaunchAgent could not be restarted",
        rolled_back: "new LaunchAgent failed; previous definition was restored",
        rollback_failed: "new LaunchAgent failed and rollback also failed",
        uncommitted: "committing the installed LaunchAgent definition",
    }
}

/// Stopping what runs before the definition is replaced.
pub open spec fn launchd_preparation_script(was_loaded: bool) -> Seq<Check<'static>> {
    (if was_loaded {
        seq![
            done_within(ServiceOperation::Unload, "unload LaunchAgent", "existing LaunchAgent could not be confirmed unloaded; definition unchanged"),
            done(ServiceOperation::AwaitAbsence, "LaunchAgent replacement"),
        ]
    } else {
        seq![
            vacant(
                "checking for a detached daemon before LaunchAgent installation",
                "daemon PID ",
                " is running outside the unloaded LaunchAgent; stop it before installing the service",
            ),
        ]
    })
        + seq![
        done(ServiceOperation::RequireUnchanged, ""),
    ]
}

/// Stopping what runs before the definition is replaced.
pub fn launchd_preparation(was_loaded: bool) -> (r: Vec<Check<'static>>)
    ensures
        r@ == launchd_preparation_script(was_loaded),
{
    then_script(
        if was_loaded {
            vec![
                done_within(ServiceOperation::Unload, "unload LaunchAgent", "existing LaunchAgent could not be confirmed unloaded; definition unchanged"),
                done(ServiceOperation::AwaitAbsence, "LaunchAgent replacement"),
            ]
        } else {
            vec![
                vacant(
                    "checking for a detached daemon before LaunchAgent installation",
                    "daemon PID ",
                    " is running outside the unloaded LaunchAgent; stop it before installing the service",
                ),
            ]
        },
        vec![
            done(ServiceOperation::RequireUnchanged, ""),
        ],
    )
}

/// Starting again what the preparation of an installation had stopped.
pub open spec fn restore_launchd_after_prepublication_stop_script(was_loaded: bool, part: Part) -> Seq<Check<'static>> {
    match part {
        Part::First => seq![
            done(ServiceOperation::RequireUnchanged, ""),
            look(ServiceOperation::AskLoaded, None),
        ],
        Part::Second(loaded) => (if was_loaded && !loaded {
            seq![
                vacant(
                    "checking daemon absence before restoring the pre-install LaunchAgent",
                    "daemon PID ",
                    " appeared while restoring the pre-install LaunchAgent state",
                ),
                done_within(ServiceOperation::Load, "load LaunchAgent", "restoring LaunchAgent after pre-publication failure"),
                done(ServiceOperation::AwaitPreviousPresence, "restored pre-install LaunchAgent"),
            ]
        } else if !was_loaded && loaded {
            seq![
                never("LaunchAgent became loaded while restoring an initially unloaded install state"),
            ]
        } else {
            Seq::empty()
        })
            + seq![
            answers(ServiceOperation::AskLoaded, was_loaded, "LaunchAgent loaded state was not restored after pre-publication failure"),
        ]
            + (if was_loaded {
            seq![
                done(ServiceOperation::RequirePreviousIdentity, "restored pre-install LaunchAgent"),
            ]
        } else {
            Seq::empty()
        }),
    }
}

/// Starting again what the preparation of an installation had stopped.
pub fn restore_launchd_after_prepublication_stop(was_loaded: bool, part: Part) -> (r: Vec<Check<'static>>)
    ensures
        r@ == restore_launchd_after_prepublication_stop_script(was_loaded, part),
{
    match part {
        Part::First => vec![
            done(ServiceOperation::RequireUnchanged, ""),
            look(ServiceOperation::AskLoaded, None),
        ],
        Part::Second(loaded) => then_script(
            then_script(
                if was_loaded && !loaded {
                    vec![
                        vacant(
                            "checking daemon absence before restoring the pre-install LaunchAgent",
                            "daemon PID ",
                            " appeared while restoring the pre-install LaunchAgent state",
                        ),
                        done_within(ServiceOperation::Load, "load LaunchAgent", "restoring LaunchAgent after pre-publication failure"),
                        done(ServiceOperation::AwaitPreviousPresence, "restored pre-install LaunchAgent"),
                    ]
                } else if !was_loaded && loaded {
                    vec![
                        never("LaunchAgent became loaded while restoring an initially unloaded install state"),
                    ]
                } else {
                    Vec::new()
                },
                vec![
                    answers(ServiceOperation::AskLoaded, was_loaded, "LaunchAgent loaded state was not restored after pre-publication failure"),
                ],
            ),
            if was_loaded {
                vec![
                    done(ServiceOperation::RequirePreviousIdentity, "restored pre-install LaunchAgent"),
                ]
            } else {
                Vec::new()
            },
        ),
    }
}

/// Starting the LaunchAgent again whose definition could not be replaced.
pub open spec fn launchd_restart_unchanged_script() -> Seq<Check<'static>> {
    seq![
        done(ServiceOperation::RequireUnchanged, ""),
        done(ServiceOperation::Load, "load LaunchAgent"),
        done(ServiceOperation::AwaitPreviousPresence, "restored LaunchAgent"),
    ]
}

/// Starting the LaunchAgent again whose definition could not be replaced.
pub fn launchd_restart_unchanged() -> (r: Vec<Check<'static>>)
    ensures
        r@ == launchd_restart_unchanged_script(),
{
    vec![
        done(ServiceOperation::RequireUnchanged, ""),
        done(ServiceOperation::Load, "load LaunchAgent"),
        done(ServiceOperation::AwaitPreviousPresence, "restored LaunchAgent"),
    ]
}

/// Starting the published LaunchAgent.
pub open spec fn launchd_activation_script() -> Seq<Check<'static>> {
    seq![
        done(ServiceOperation::Load, "load LaunchAgent"),
        done(ServiceOperation::AwaitPresence, "new LaunchAgent"),
    ]
}

/// Starting the published LaunchAgent.
pub fn launchd_activation() -> (r: Vec<Check<'static>>)
    ensures
        r@ == launchd_activation_script(),
{
    vec![
        done(ServiceOperation::Load, "load LaunchAgent"),
        done(ServiceOperation::AwaitPresence, "new LaunchAgent"),
    ]
}

/// What putting the definition at a path back is called.
pub fn restoring_launch_agent(path: &str) -> (r: String)
    ensures
        r@ == "restoring LaunchAgent definition "@ + path@,
{
    join2("restoring LaunchAgent definition ", path)
}

/// Taking a published LaunchAgent back.
pub open spec fn rollback_launchd_install_script<'a>(was_loaded: bool, restoring: &'a str, part: Part) -> Seq<Check<'a>> {
    match part {
        Part::First => seq![
            look(ServiceOperation::AskLoaded, None),
        ],
        Part::Second(loaded) => (if loaded {
            seq![
                done_within(ServiceOperation::Unload, "unload LaunchAgent", "unloading failed new LaunchAgent during rollback"),
            ]
        } else {
            Seq::empty()
        })
            + seq![
            done(ServiceOperation::AwaitAbsence, "LaunchAgent install rollback"),
            done_within(ServiceOperation::RollBackPublication, "", restoring),
        ]
            + (if was_loaded {
            seq![
                done_within(ServiceOperation::Load, "load LaunchAgent", "restoring the previously loaded LaunchAgent"),
                done(ServiceOperation::AwaitPreviousPresence, "restored LaunchAgent"),
            ]
        } else {
            Seq::empty()
        })
            + seq![
            answers(ServiceOperation::AskLoaded, was_loaded, "restored LaunchAgent loaded state did not match its pre-install state"),
        ]
            + (if !was_loaded {
            seq![
                done(ServiceOperation::AwaitAbsence, "LaunchAgent install rollback"),
            ]
        } else {
            Seq::empty()
        }),
    }
}

/// Taking a published LaunchAgent back.
pub fn rollback_launchd_install<'a>(was_loaded: bool, restoring: &'a str, part: Part) -> (r: Vec<Check<'a>>)
    ensures
        r@ == rollback_launchd_install_script(was_loaded, restoring, part),
{
    match part {
        Part::First => vec![
            look(ServiceOperation::AskLoaded, None),
        ],
        Part::Second(loaded) => then_script(
            then_script(
                then_script(
                    then_script(
                        if loaded {
                            vec![
                                done_within(ServiceOperation::Unload, "unload LaunchAgent", "unloading failed new LaunchAgent during rollback"),
                            ]
                        } else {
                            Vec::new()
                        },
                        vec![
                            done(ServiceOperation::AwaitAbsence, "LaunchAgent install rollback"),
                            done_within(ServiceOperation::RollBackPublication, "", restoring),
                        ],
                    ),
                    if was_loaded {
                        vec![
                            done_within(ServiceOperation::Load, "load LaunchAgent", "restoring the previously loaded LaunchAgent"),
                            done(ServiceOperation::AwaitPreviousPresence, "restored LaunchAgent"),
                        ]
                    } else {
                        Vec::new()
                    },
                ),
                vec![
                    answers(ServiceOperation::AskLoaded, was_loaded, "restored LaunchAgent loaded state did not match its pre-install state"),
                ],
            ),
            if !was_loaded {
                vec![
                    done(ServiceOperation::AwaitAbsence, "LaunchAgent install rollback"),
                ]
            } else {
                Vec::new()
            },
        ),
    }
}

/// Taking an uninstallation back.
pub open spec fn rollback_launchd_uninstall_script<'a>(moved: bool, was_loaded: bool, restoring: &'a str, part: Part) -> Seq<Check<'a>> {
    match part {
        Part::First => (if moved {
            seq![
                done_within(ServiceOperation::RollBackRemoval, "", restoring),
            ]
        } else {
            seq![
                done(ServiceOperation::RequireUnchanged, ""),
            ]
        })
            + seq![
            look(ServiceOperation::AskLoaded, None),
        ],
        Part::Second(loaded) => (if was_loaded && !loaded {
            seq![
                vacant(
                    "checking daemon absence before LaunchAgent rollback restart",
                    "daemon PID ",
                    " still owns the PID lock; refusing to load a second generation during LaunchAgent rollback",
                ),
                done_within(ServiceOperation::Load, "load LaunchAgent", "restoring the previously loaded LaunchAgent"),
                done(ServiceOperation::AwaitPreviousPresence, "restored LaunchAgent"),
            ]
        } else {
            Seq::empty()
        })
            + seq![
            answers(ServiceOperation::AskLoaded, was_loaded, "restored LaunchAgent loaded state did not match its pre-uninstall state"),
        ]
            + (if was_loaded {
            seq![
                done(ServiceOperation::RequirePreviousIdentity, "restored LaunchAgent"),
            ]
        } else {
            seq![
                done(ServiceOperation::AwaitAbsence, "LaunchAgent uninstall rollback"),
            ]
        }),
    }
}

/// Taking an uninstallation back.
pub fn rollback_launchd_uninstall<'a>(moved: bool, was_loaded: bool, restoring: &'a str, part: Part) -> (r: Vec<Check<'a>>)
    ensures
        r@ == rollback_launchd_uninstall_script(moved, was_loaded, restoring, part),
{
    match part {
        Part::First => then_script(
            if moved {
                vec![
                    done_within(ServiceOperation::RollBackRemoval, "", restoring),
                ]
            } else {
                vec![
                    done(ServiceOperation::RequireUnchanged, ""),
                ]
            },
            vec![
                look(ServiceOperation::AskLoaded, None),
            ],
        ),
        Part::Second(loaded) => then_script(
            then_script(
                if was_loaded && !loaded {
                    vec![
                        vacant(
                            "checking daemon absence before LaunchAgent rollback restart",
                            "daemon PID ",
                            " still owns the PID lock; refusing to load a second generation during LaunchAgent rollback",
                        ),
                        done_within(ServiceOperation::Load, "load LaunchAgent", "restoring the previously loaded LaunchAgent"),
                        done(ServiceOperation::AwaitPreviousPresence, "restored LaunchAgent"),
                    ]
                } else {
                    Vec::new()
                },
                vec![
                    answers(ServiceOperation::AskLoaded, was_loaded, "restored LaunchAgent loaded state did not match its pre-uninstall state"),
                ],
            ),
            if was_loaded {
                vec![
                    done(ServiceOperation::RequirePreviousIdentity, "restored LaunchAgent"),
                ]
            } else {
                vec![
                    done(ServiceOperation::AwaitAbsence, "LaunchAgent uninstall rollback"),
                ]
            },
        ),
    }
}

/// No LaunchAgent may be loaded without a definition that names its owner.
pub open spec fn require_no_definitionless_launchd_service_script() -> Seq<Check<'static>> {
    seq![
        answers(ServiceOperation::AskLoaded, false, "LaunchAgent com.codex-switch-global-pace.daemon is loaded without a definition that can prove ownership"),
    ]
}

/// No LaunchAgent may be loaded without a definition that names its owner.
pub fn require_no_definitionless_launchd_service() -> (r: Vec<Check<'static>>)
    ensures
        r@ == require_no_definitionless_launchd_service_script(),
{
    vec![
        answers(ServiceOperation::AskLoaded, false, "LaunchAgent com.codex-switch-global-pace.daemon is loaded without a definition that can prove ownership"),
    ]
}

/// Starting the installed LaunchAgent.
pub open spec fn start_launchd_script(installed: bool, part: Part) -> Seq<Check<'static>> {
    match part {
        Part::First => {
            if installed {
                seq![
                    look(ServiceOperation::AskLoaded, None),
                ]
            } else {
                require_no_definitionless_launchd_service_script()
                    + seq![
                    never("LaunchAgent not installed"),
                ]
            }
        },
        Part::Second(loaded) => (if loaded {
            seq![
                done(ServiceOperation::StartLoaded, ""),
            ]
        } else {
            seq![
                done(ServiceOperation::Load, "load LaunchAgent"),
            ]
        })
            + seq![
            done(ServiceOperation::AwaitPresence, "LaunchAgent"),
        ],
    }
}

/// Starting the installed LaunchAgent.
pub fn start_launchd(installed: bool, part: Part) -> (r: Vec<Check<'static>>)
    ensures
        r@ == start_launchd_script(installed, part),
{
    match part {
        Part::First => {
            if installed {
                vec![
                    look(ServiceOperation::AskLoaded, None),
                ]
            } else {
                then_script(
                    require_no_definitionless_launchd_service(),
                    vec![
                        never("LaunchAgent not installed"),
                    ],
                )
            }
        },
        Part::Second(loaded) => then_script(
            if loaded {
                vec![
                    done(ServiceOperation::StartLoaded, ""),
                ]
            } else {
                vec![
                    done(ServiceOperation::Load, "load LaunchAgent"),
                ]
            },
            vec![
                done(ServiceOperation::AwaitPresence, "LaunchAgent"),
            ],
        ),
    }
}

/// Unloading the installed LaunchAgent, if it is loaded.
pub open spec fn stop_launchd_manager_script(installed: bool, part: Part) -> Seq<Check<'static>> {
    match part {
        Part::First => {
            if installed {
                seq![
                    look(ServiceOperation::AskLoaded, None),
                ]
            } else {
                require_no_definitionless_launchd_service_script()
            }
        },
        Part::Second(loaded) => {
            if loaded {
                seq![
                    done(ServiceOperation::Unload, "unload LaunchAgent"),
                ]
            } else {
                Seq::empty()
            }
        },
    }
}

/// Unloading the installed LaunchAgent, if it is loaded.
pub fn stop_launchd_manager(installed: bool, part: Part) -> (r: Vec<Check<'static>>)
    ensures
        r@ == stop_launchd_manager_script(installed, part),
{
    match part {
        Part::First => {
            if installed {
                vec![
                    look(ServiceOperation::AskLoaded, None),
                ]
            } else {
                require_no_definitionless_launchd_service()
            }
        },
        Part::Second(loaded) => {
            if loaded {
                vec![
                    done(ServiceOperation::Unload, "unload LaunchAgent"),
                ]
            } else {
                Vec::new()
            }
        },
    }
}

/// Unloading the installed LaunchAgent, and waiting until its daemon is gone.
pub open spec fn stop_launchd_script(installed: bool, part: Part) -> Seq<Check<'static>> {
    match part {
        Part::First => stop_launchd_manager_script(installed, part)
            + (if installed {
            Seq::empty()
        } else {
            seq![
                done(ServiceOperation::AwaitAbsence, "launchctl unload"),
            ]
        }),
        Part::Second(_) => stop_launchd_manager_script(installed, part)
            + seq![
            done(ServiceOperation::AwaitAbsence, "launchctl unload"),
        ],
    }
}

/// Unloading the installed LaunchAgent, and waiting until its daemon is gone.
pub fn stop_launchd(installed: bool, part: Part) -> (r: Vec<Check<'static>>)
    ensures
        r@ == stop_launchd_script(installed, part),
{
    match part {
        Part::First => then_script(
            stop_launchd_manager(installed, part),
            if installed {
                Vec::new()
            } else {
                vec![
                    done(ServiceOperation::AwaitAbsence, "launchctl unload"),
                ]
            },
        ),
        Part::Second(_) => then_script(
            stop_launchd_manager(installed, part),
            vec![
                done(ServiceOperation::AwaitAbsence, "launchctl unload"),
            ],
        ),
    }
}

/// Uninstalling the LaunchAgent.
pub open spec fn uninstall_launchd_script(installed: bool, was_loaded: bool) -> Seq<Check<'static>> {
    if installed {
        (if was_loaded {
            seq![
                done(ServiceOperation::Unload, "unload LaunchAgent"),
            ]
        } else {
            Seq::empty()
        })
            + seq![
            done(ServiceOperation::AwaitAbsence, "launchctl unload"),
            done(ServiceOperation::MoveAway, ""),
            done(ServiceOperation::CommitRemoval, ""),
        ]
    } else {
        require_no_definitionless_launchd_service_script()
    }
}

/// Uninstalling the LaunchAgent.
pub fn uninstall_launchd(installed: bool, was_loaded: bool) -> (r: Vec<Check<'static>>)
    ensures
        r@ == uninstall_launchd_script(installed, was_loaded),
{
    if installed {
        then_script(
            if was_loaded {
                vec![
                    done(ServiceOperation::Unload, "unload LaunchAgent"),
                ]
            } else {
                Vec::new()
            },
            vec![
                done(ServiceOperation::AwaitAbsence, "launchctl unload"),
                done(ServiceOperation::MoveAway, ""),
                done(ServiceOperation::CommitRemoval, ""),
            ],
        )
    } else {
        require_no_definitionless_launchd_service()
    }
}

/// The script of a phase of an installation. The definition is published and
/// committed by transactions of their own.
pub open spec fn install_launchd_script<'a>(
    phase: InstallPhase,
    was_loaded: bool,
    restoring: &'a str,
    part: Part,
) -> Seq<Check<'a>> {
    match phase {
        InstallPhase::Prepare => launchd_preparation_script(was_loaded),
        InstallPhase::RestorePrepared(_) => restore_launchd_after_prepublication_stop_script(
            was_loaded,
            part,
        ),
        InstallPhase::RestartUnchanged(_) => launchd_restart_unchanged_script(),
        InstallPhase::Activate => launchd_activation_script(),
        InstallPhase::RollBack(_) => rollback_launchd_install_script(was_loaded, restoring, part),
        InstallPhase::Publish => Seq::empty(),
        InstallPhase::Commit => Seq::empty(),
    }
}

/// The script of a phase of an installation.
pub fn install_launchd<'a>(
    phase: &InstallPhase,
    was_loaded: bool,
    restoring: &'a str,
    part: Part,
) -> (r: Vec<Check<'a>>)
    ensures
        r@ == install_launchd_script(*phase, was_loaded, restoring, part),
{
    match phase {
        InstallPhase::Prepare => launchd_preparation(was_loaded),
        InstallPhase::RestorePrepared(_) => restore_launchd_after_prepublication_stop(
            was_loaded,
            part,
        ),
        InstallPhase::RestartUnchanged(_) => launchd_restart_unchanged(),
        InstallPhase::Activate => launchd_activation(),
        InstallPhase::RollBack(_) => rollback_launchd_install(was_loaded, restoring, part),
        InstallPhase::Publish => Vec::new(),
        InstallPhase::Commit => Vec::new(),
    }
}

/// What an installation says when the definition that it should migrate is
/// missing.
pub const MISSING_LAUNCH_AGENT: &'static str =
    "an existing LaunchAgent was required for executable migration, but no definition is installed";

/// The generated definition must have passed validation.
pub fn require_valid_launch_agent(valid: bool, detail: &str) -> (r: Result<(), Fault>)
    ensures
        if valid {
            r is Ok
        } else {
            r matches Err(fault) && fault@ == seq![
                "generated LaunchAgent failed plutil validation: "@ + detail@,
            ]
        },
{
    if valid {
        Ok(())
    } else {
        Err(Fault::from_text(join2("generated LaunchAgent failed plutil validation: ", detail)))
    }
}

/// A loaded LaunchAgent can be replaced only if it can be restored.
pub fn require_restorable_launch_agent(path: &str, defined: bool, was_loaded: bool) -> (r: Result<
    (),
    Fault,
>)
    ensures
        if !defined && was_loaded {
            r matches Err(fault) && fault@ == seq![
                "LaunchAgent label "@ + LAUNCHD_LABEL@
                    + " is loaded without a restorable definition at "@ + path@
                    + "; refusing to replace it"@,
            ]
        } else {
            r is Ok
        },
{
    if !defined && was_loaded {
        Err(
            Fault::from_text(
                join5(
                    "LaunchAgent label ",
                    LAUNCHD_LABEL,
                    " is loaded without a restorable definition at ",
                    path,
                    "; refusing to replace it",
                ),
            ),
        )
    } else {
        Ok(())
    }
}

/// How a failed uninstallation of the LaunchAgent is reported.
#[verifier::allow_in_spec]
pub fn launchd_uninstall_texts() -> UninstallTexts<'static>
    returns
        (UninstallTexts {
            restored: "LaunchAgent uninstall failed; its prior definition and loaded state were restored",
            incomplete: "LaunchAgent uninstall failed and rollback was incomplete",
            unconfirmed: "LaunchAgent uninstall was applied and its prior loaded state was not restored, but cleanup durability could not be confirmed",
        }),
{
    UninstallTexts {
        restored: "LaunchAgent uninstall failed; its prior definition and loaded state were restored",
        incomplete: "LaunchAgent uninstall failed and rollback was incomplete",
        unconfirmed: "LaunchAgent uninstall was applied and its prior loaded state was not restored, but cleanup durability could not be confirmed",
    }
}

// -- Laws --

/// A definition is replaced only when no daemon holds the lock and the
/// definition is still the one that was read.
pub proof fn law_launchd_is_prepared_before_publication(was_loaded: bool)
    ensures
        requires_absence(launchd_preparation_script(was_loaded)),
        launchd_preparation_script(was_loaded).last().operation
            == ServiceOperation::RequireUnchanged,
{
    let script = launchd_preparation_script(was_loaded);
    if was_loaded {
        assert(script[1].operation == ServiceOperation::AwaitAbsence);
    } else {
        assert(script[0].expectation is Vacant);
    }
}

/// The prior LaunchAgent is loaded again only directly after no daemon held the
/// lock; a rollback of an installation waits for that before it puts the prior
/// definition back.
pub proof fn law_launchd_rollback_loads_no_second_generation(
    was_loaded: bool,
    loaded: bool,
    moved: bool,
    restoring: &str,
    part: Part,
)
    ensures
        starts_only_when_vacant(
            restore_launchd_after_prepublication_stop_script(was_loaded, part),
            ServiceOperation::Load,
        ),
        starts_only_when_vacant(
            rollback_launchd_uninstall_script(moved, was_loaded, restoring, part),
            ServiceOperation::Load,
        ),
        requires_absence(rollback_launchd_install_script(was_loaded, restoring, Part::Second(loaded))),
{
    let script = rollback_launchd_install_script(was_loaded, restoring, Part::Second(loaded));
    if loaded {
        assert(script[1].operation == ServiceOperation::AwaitAbsence);
    } else {
        assert(script[0].operation == ServiceOperation::AwaitAbsence);
    }
}

/// A definition is moved away only directly after its daemon was gone, and a
/// loaded LaunchAgent was unloaded before that.
pub proof fn law_launchd_is_stopped_before_removal(installed: bool, was_loaded: bool, i: int)
    requires
        0 <= i < uninstall_launchd_script(installed, was_loaded).len(),
        uninstall_launchd_script(installed, was_loaded)[i].operation == ServiceOperation::MoveAway,
    ensures
        i > 0,
        uninstall_launchd_script(installed, was_loaded)[i - 1].operation
            == ServiceOperation::AwaitAbsence,
        was_loaded ==> i == 2 && uninstall_launchd_script(installed, was_loaded)[0].operation
            == ServiceOperation::Unload,
{
}

} // verus!
