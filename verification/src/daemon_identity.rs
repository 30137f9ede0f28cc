//! Which executable a running daemon was started from, and the waits for a
//! daemon to appear or to be gone.
use vstd::prelude::*;

use crate::fault::{join2, join3, join4, join5, Fault};
use crate::fs_ops::FileToken;
use crate::host_path::HostPath;
use crate::number::{decimal, decimal_text};
use crate::service_owner::{executable_problem, validate_expected_executable};
use crate::settlement::DAEMON_TRANSITION_TIMEOUT_NANOS;

verus! {

/// What is wrong with the executable that a running daemon published: the file
/// must be, token for token, the one that the caller is bound to.
pub open spec fn running_executable_problem(
    expected: HostPath,
    pid: u32,
    running: HostPath,
    expected_token: Result<FileToken, Fault>,
    running_token: Result<FileToken, Fault>,
) -> Option<Seq<Seq<char>>> {
    match executable_problem(running) {
        Some(message) => Some(seq![message]),
        None => match expected_token {
            Err(fault) => Some(
                seq![
                    "binding the installer executable before stopping daemon PID "@ + decimal(
                        pid as nat,
                    ) + ": "@ + expected.display@,
                ] + fault@,
            ),
            Ok(expected_token) => match running_token {
                Err(fault) => Some(
                    seq![
                        "binding the published executable identity for daemon PID "@ + decimal(
                            pid as nat,
                        ) + ": "@ + running.display@,
                    ] + fault@,
                ),
                Ok(running_token) => if running_token@ == expected_token@ {
                    None
                } else {
                    Some(
                        seq![
                            "daemon PID "@ + decimal(pid as nat) + " is running from "@
                                + running.display@ + ", not the installer-bound executable "@
                                + expected.display@
                                + "; refusing to guess which executable should be restored"@,
                        ],
                    )
                },
            },
        },
    }
}

/// A running daemon must be the expected executable, token for token.
pub fn validate_running_daemon_executable(
    expected: &HostPath,
    pid: u32,
    running: &HostPath,
    expected_token: Result<FileToken, Fault>,
    running_token: Result<FileToken, Fault>,
) -> (r: Result<FileToken, Fault>)
    ensures
        match running_executable_problem(*expected, pid, *running, expected_token, running_token) {
            None => r == expected_token,
            Some(messages) => r matches Err(fault) && fault@ == messages,
        },
{
    match validate_expected_executable(running) {
        Ok(()) => {},
        Err(fault) => {
            return Err(fault);
        },
    }
    let number = decimal_text(pid as u64);
    let bound = match expected_token {
        Ok(token) => token,
        Err(fault) => {
            return Err(
                fault.context(
                    join4(
                        "binding the installer executable before stopping daemon PID ",
                        number.as_str(),
                        ": ",
                        expected.display.as_str(),
                    ),
                ),
            );
        },
    };
    match running_token {
        Err(fault) => Err(
            fault.context(
                join4(
                    "binding the published executable identity for daemon PID ",
                    number.as_str(),
                    ": ",
                    running.display.as_str(),
                ),
            ),
        ),
        Ok(token) => if token.same(&bound) {
            Ok(bound)
        } else {
            Err(
                Fault::from_text(
                    join3(
                        join5(
                            "daemon PID ",
                            number.as_str(),
                            " is running from ",
                            running.display.as_str(),
                            ", not the installer-bound executable ",
                        ).as_str(),
                        expected.display.as_str(),
                        "; refusing to guess which executable should be restored",
                    ),
                ),
            )
        },
    }
}

/// What is seen of a daemon: its process number, and whether it runs the
/// expected executable.
#[derive(Debug, PartialEq, Eq)]
pub struct DaemonSight {
    pub pid: u32,
    pub validation: Result<FileToken, Fault>,
}

/// The failure of a daemon that must be seen and must run the expected
/// executable.
pub open spec fn required_sight_problem(
    missing: Seq<char>,
    sight: Result<Option<DaemonSight>, Fault>,
) -> Option<Seq<Seq<char>>> {
    match sight {
        Err(fault) => Some(fault@),
        Ok(None) => Some(seq![missing]),
        Ok(Some(sight)) => match sight.validation {
            Ok(_) => None,
            Err(fault) => Some(fault@),
        },
    }
}

/// A daemon of the expected executable must be running.
pub fn require_running_daemon_executable(
    missing_context: &str,
    sight: Result<Option<DaemonSight>, Fault>,
) -> (r: Result<u32, Fault>)
    ensures
        match required_sight_problem(missing_context@, sight) {
            None => r matches Ok(pid) && pid == sight->Ok_0->0.pid,
            Some(messages) => r matches Err(fault) && fault@ == messages,
        },
{
    match sight {
        Err(fault) => Err(fault),
        Ok(None) => Err(Fault::of(missing_context)),
        Ok(Some(sight)) => match sight.validation {
            Ok(_) => Ok(sight.pid),
            Err(fault) => Err(fault),
        },
    }
}

/// What is wrong with the daemon that a started service published.
pub open spec fn started_identity_problem(
    action: Seq<char>,
    validation: Result<FileToken, Fault>,
) -> Option<Seq<Seq<char>>> {
    match validation {
        Ok(_) => None,
        Err(fault) => Some(
            seq![action + " published a daemon identity from an unexpected executable"@] + fault@,
        ),
    }
}

/// The daemon that a started service published must run the expected
/// executable.
pub fn validate_started_service_daemon_identity(
    action: &str,
    validation: Result<FileToken, Fault>,
) -> (r: Result<(), Fault>)
    ensures
        match started_identity_problem(action@, validation) {
            None => r is Ok,
            Some(messages) => r matches Err(fault) && fault@ == messages,
        },
{
    match validation {
        Ok(_) => Ok(()),
        Err(fault) => Err(
            fault.context(
                join2(action, " published a daemon identity from an unexpected executable"),
            ),
        ),
    }
}

/// A started service must have kept its daemon, and it must run the expected
/// executable.
pub fn require_started_service_daemon_identity(
    action: &str,
    sight: Result<Option<DaemonSight>, Fault>,
) -> (r: Result<u32, Fault>)
    ensures
        match sight {
            Err(error) => r matches Err(fault) && fault@ == error@,
            Ok(None) => r matches Err(fault) && fault@ == seq![
                action@ + " did not retain a locked daemon identity"@,
            ],
            Ok(Some(sight)) => match started_identity_problem(action@, sight.validation) {
                None => r == Ok::<u32, Fault>(sight.pid),
                Some(messages) => r matches Err(fault) && fault@ == messages,
            },
        },
{
    match sight {
        Err(fault) => Err(fault),
        Ok(None) => Err(
            Fault::from_text(join2(action, " did not retain a locked daemon identity")),
        ),
        Ok(Some(sight)) => match validate_started_service_daemon_identity(
            action,
            sight.validation,
        ) {
            Ok(()) => Ok(sight.pid),
            Err(fault) => Err(fault),
        },
    }
}

/// What a wait for the daemon's absence does next.
#[derive(Debug, PartialEq, Eq)]
pub enum AbsenceStep {
    Absent,
    Again,
    Failed(Fault),
}

/// What a wait for the daemon's absence does, given which process holds the
/// lock and how long the wait has taken.
pub fn wait_for_daemon_absence_after_service_stop(
    action: &str,
    running: Result<Option<u32>, Fault>,
    elapsed_nanos: u64,
) -> (r: AbsenceStep)
    ensures
        match running {
            Err(error) => r matches AbsenceStep::Failed(fault) && fault@ == seq![
                "checking the daemon PID lock after "@ + action@,
            ] + error@,
            Ok(None) => r is Absent,
            Ok(Some(pid)) => if elapsed_nanos >= DAEMON_TRANSITION_TIMEOUT_NANOS {
                r matches AbsenceStep::Failed(fault) && fault@ == seq![
                    action@ + " completed, but daemon PID "@ + decimal(pid as nat)
                        + " still owns the PID lock after 10s"@,
                ]
            } else {
                r is Again
            },
        },
{
    match running {
        Err(error) => AbsenceStep::Failed(
            error.context(join2("checking the daemon PID lock after ", action)),
        ),
        Ok(None) => AbsenceStep::Absent,
        Ok(Some(pid)) => {
            if elapsed_nanos >= DAEMON_TRANSITION_TIMEOUT_NANOS {
                AbsenceStep::Failed(
                    Fault::from_text(
                        join4(
                            action,
                            " completed, but daemon PID ",
                            decimal_text(pid as u64).as_str(),
                            " still owns the PID lock after 10s",
                        ),
                    ),
                )
            } else {
                AbsenceStep::Again
            }
        },
    }
}

/// What a wait for the daemon's presence does next.
#[derive(Debug, PartialEq, Eq)]
pub enum PresenceStep {
    Present,
    /// Another look; the last failed one is kept.
    Again(Option<Fault>),
    Failed(Fault),
}

/// What a wait for the daemon's presence does. Before the time is over there is
/// a look at the daemon; after it there is none.
pub fn wait_for_daemon_presence_after_service_start(
    action: &str,
    last_probe_error: Option<Fault>,
    look: Option<Result<Option<DaemonSight>, Fault>>,
) -> (r: PresenceStep)
    ensures
        match look {
            Some(Ok(Some(sight))) => match started_identity_problem(action@, sight.validation) {
                None => r is Present,
                Some(messages) => r matches PresenceStep::Failed(fault) && fault@ == messages,
            },
            Some(Ok(None)) => r == PresenceStep::Again(last_probe_error),
            Some(Err(error)) => r == PresenceStep::Again(Some(error)),
            None => match last_probe_error {
                Some(error) => r matches PresenceStep::Failed(fault) && fault@ == seq![
                    action@
                        + " did not publish a readable, locked PID identity within 10 seconds"@,
                ] + error@,
                None => r matches PresenceStep::Failed(fault) && fault@ == seq![
                    action@ + " did not publish a live PID within 10 seconds"@,
                ],
            },
        },
{
    match look {
        Some(Ok(Some(sight))) => match validate_started_service_daemon_identity(
            action,
            sight.validation,
        ) {
            Ok(()) => PresenceStep::Present,
            Err(fault) => PresenceStep::Failed(fault),
        },
        Some(Ok(None)) => PresenceStep::Again(last_probe_error),
        Some(Err(error)) => PresenceStep::Again(Some(error)),
        None => match last_probe_error {
            Some(error) => PresenceStep::Failed(
                error.context(
                    join2(
                        action,
                        " did not publish a readable, locked PID identity within 10 seconds",
                    ),
                ),
            ),
            None => PresenceStep::Failed(
                Fault::from_text(
                    join2(action, " did not publish a live PID within 10 seconds"),
                ),
            ),
        },
    }
}

} // verus!
