//! The daemon's state across an update: what it was before, what it is expected
//! to be, and the checks that compare the two.
use vstd::prelude::*;

use crate::boundary_phase::{
    classify_initial_launch_mechanism, launch_mechanism, InitialGenerationStopState,
    InitialLaunchMechanism, InstallerUninstallState,
};
use crate::daemon_identity::DaemonSight;
use crate::fault::{join2, join4, Fault};
use crate::fs_ops::{same_sight, seen, FileToken};
use crate::host_path::HostPath;
use crate::removal::{misfit, misfit_fault};
use crate::service_owner::{executable_problem, validate_expected_executable};
use crate::service_state::{ServiceStateSnapshot, ServiceStateView};
use crate::settlement::{optional_generation, DaemonGeneration};

verus! {

// -- The executable --

/// What was at the executable's path at the beginning.
#[derive(Clone, Copy, Debug, PartialEq, Eq)]
pub enum InitialExecutableState {
    Absent,
    Present(FileToken),
}

/// A look at the executable's path: whether there is one, or which one it is.
#[derive(Debug, PartialEq, Eq)]
pub enum ExecutableLook {
    Presence(Result<bool, Fault>),
    Token(Result<FileToken, Fault>),
}

/// Why the executable is not as it was captured: where there was none there may
/// be none, and where there was one it must be the same file, or hold the same
/// bytes.
pub open spec fn captured_executable_problem(
    path: Seq<char>,
    expected: InitialExecutableState,
    exact_identity: bool,
    look: ExecutableLook,
) -> Option<Seq<Seq<char>>> {
    match (expected, look) {
        (InitialExecutableState::Absent, ExecutableLook::Presence(Err(error))) => Some(error@),
        (InitialExecutableState::Absent, ExecutableLook::Presence(Ok(present))) => if present {
            Some(
                seq!["an executable appeared at the initially absent public path: "@ + path],
            )
        } else {
            None
        },
        (InitialExecutableState::Present(_), ExecutableLook::Token(Err(error))) => Some(
            seq!["binding captured executable "@ + path] + error@,
        ),
        (InitialExecutableState::Present(token), ExecutableLook::Token(Ok(observed))) => {
            if (exact_identity && observed@ == token@) || (!exact_identity && observed@.digest
                == token@.digest) {
                None
            } else {
                Some(
                    seq![
                        "captured executable "@ + path
                            + " did not match its exact pre-transaction "@ + (if exact_identity {
                            "identity"@
                        } else {
                            "contents"@
                        }),
                    ],
                )
            }
        },
        _ => Some(misfit()),
    }
}

/// The executable must be as it was captured.
pub fn require_captured_executable_state(
    path: &str,
    expected: &InitialExecutableState,
    exact_identity: bool,
    look: ExecutableLook,
) -> (r: Result<(), Fault>)
    ensures
        match captured_executable_problem(path@, *expected, exact_identity, look) {
            None => r is Ok,
            Some(messages) => r matches Err(fault) && fault@ == messages,
        },
{
    match (expected, look) {
        (InitialExecutableState::Absent, ExecutableLook::Presence(Err(error))) => Err(error),
        (InitialExecutableState::Absent, ExecutableLook::Presence(Ok(present))) => if present {
            Err(
                Fault::from_text(
                    join2("an executable appeared at the initially absent public path: ", path),
                ),
            )
        } else {
            Ok(())
        },
        (InitialExecutableState::Present(_), ExecutableLook::Token(Err(error))) => Err(
            error.context(join2("binding captured executable ", path)),
        ),
        (InitialExecutableState::Present(token), ExecutableLook::Token(Ok(observed))) => {
            let matches = if exact_identity {
                observed.same(token)
            } else {
                observed.same_contents(token)
            };
            if matches {
                Ok(())
            } else {
                let what = if exact_identity {
                    "identity"
                } else {
                    "contents"
                };
                Err(
                    Fault::from_text(
                        join4(
                            "captured executable ",
                            path,
                            " did not match its exact pre-transaction ",
                            what,
                        ),
                    ),
                )
            }
        },
        _ => Err(misfit_fault()),
    }
}

// -- The captured state --

/// One of the two executables of an update.
#[derive(Clone, Copy, Debug, PartialEq, Eq, Structural)]
pub enum Owner {
    Initial,
    Replacement,
}

/// The daemon's state across an update.
#[derive(Debug, PartialEq, Eq)]
pub struct SelfUpdateDaemonRestart {
    pub initial_pid: Option<u32>,
    pub initial_generation: Option<DaemonGeneration>,
    pub initial_executable: HostPath,
    pub replacement_executable: HostPath,
    /// Whether the two paths are the same.
    pub paths_match: bool,
    pub initial_executable_state: InitialExecutableState,
    pub expected_executable_token: Option<FileToken>,
    pub initial_service_snapshot: ServiceStateSnapshot,
    /// The state that the service is expected in; the initial one where none is
    /// given.
    pub expected_service_snapshot: Option<ServiceStateSnapshot>,
    pub stopped_service_snapshot: Option<ServiceStateSnapshot>,
    pub initial_launch_mechanism: InitialLaunchMechanism,
    /// The executable that is expected to be in place.
    pub executable: Owner,
    /// The executable that owns the service's definition.
    pub service_executable: Owner,
    pub service_installed: bool,
    /// Whether the daemon's absence is held.
    pub absence_held: bool,
    pub restarted_pid: Option<u32>,
    pub uninstall_state: InstallerUninstallState,
    pub initial_stop_state: InitialGenerationStopState,
    pub lifecycle_stop_diagnostics: Vec<String>,
}

/// The looks at the daemon while its state is captured.
#[derive(Debug, PartialEq, Eq)]
pub struct CaptureLooks {
    pub token: Result<Option<FileToken>, Fault>,
    pub identity: Result<Option<DaemonSight>, Fault>,
    pub generation: Result<Option<DaemonGeneration>, Fault>,
    pub service: Result<ServiceStateSnapshot, Fault>,
    pub identity_after: Result<Option<DaemonSight>, Fault>,
    pub generation_after: Result<Option<DaemonGeneration>, Fault>,
    pub token_after: Result<Option<FileToken>, Fault>,
}

/// The process of an optional sight.
pub open spec fn sight_pid(sight: Option<DaemonSight>) -> Option<u32> {
    match sight {
        Some(s) => Some(s.pid),
        None => None,
    }
}

/// The process of an optional generation.
pub open spec fn generation_pid(generation: Option<DaemonGeneration>) -> Option<u32> {
    match generation {
        Some(g) => Some(g.pid),
        None => None,
    }
}

/// Why the running daemon is not that of the executable that was seen.
pub open spec fn first_sight_problem(token: Option<FileToken>, sight: Option<DaemonSight>) -> Option<
    Seq<Seq<char>>,
> {
    match sight {
        None => None,
        Some(s) => match s.validation {
            Err(fault) => Some(fault@),
            Ok(running) => if seen(token) == Some(running@) {
                None
            } else {
                Some(
                    seq![
                        "running daemon executable changed while its initial public identity was captured"@,
                    ],
                )
            },
        },
    }
}

/// Why the daemon is not the one that was seen first.
pub open spec fn second_sight_problem(first: Option<DaemonSight>, second: Option<DaemonSight>) -> Option<
    Seq<Seq<char>>,
> {
    match (first, second) {
        (None, None) => None,
        (Some(a), Some(b)) => if a.pid == b.pid {
            match b.validation {
                Err(fault) => Some(fault@),
                Ok(token) => if a.validation matches Ok(before) && before@ == token@ {
                    None
                } else {
                    Some(
                        seq![
                            "daemon executable identity changed while its exact launch mechanism was captured"@,
                        ],
                    )
                },
            }
        } else {
            Some(
                seq![
                    "daemon PID identity changed while its exact launch mechanism was captured"@,
                ],
            )
        },
        _ => Some(
            seq!["daemon PID identity changed while its exact launch mechanism was captured"@],
        ),
    }
}

/// Why the state could not be captured: every look must show the same daemon,
/// the same executable and a service that agrees with both.
pub open spec fn capture_problem(executable: HostPath, looks: CaptureLooks) -> Option<
    Seq<Seq<char>>,
> {
    match executable_problem(executable) {
        Some(message) => Some(seq![message]),
        None => match (looks.token, looks.identity, looks.generation) {
            (Err(error), _, _) => Some(error@),
            (Ok(_), Err(error), _) => Some(error@),
            (Ok(_), Ok(_), Err(error)) => Some(error@),
            (Ok(token), Ok(sight), Ok(generation)) => match first_sight_problem(token, sight) {
                Some(messages) => Some(messages),
                None => if generation_pid(generation) != sight_pid(sight) {
                    Some(
                        seq![
                            "daemon generation changed while its executable identity was captured"@,
                        ],
                    )
                } else {
                    service_capture_problem(executable, token, sight, generation, looks)
                },
            },
        },
    }
}

/// Why the service and the second looks do not agree with the first ones.
pub open spec fn service_capture_problem(
    executable: HostPath,
    token: Option<FileToken>,
    sight: Option<DaemonSight>,
    generation: Option<DaemonGeneration>,
    looks: CaptureLooks,
) -> Option<Seq<Seq<char>>> {
    match looks.service {
        Err(error) => Some(error@),
        Ok(service) => match launch_mechanism(sight_pid(sight), service@.manager_pid) {
            Err(message) => Some(seq![message]),
            Ok(_) => match (looks.identity_after, looks.generation_after) {
                (Err(error), _) => Some(error@),
                (Ok(_), Err(error)) => Some(error@),
                (Ok(sight_after), Ok(generation_after)) => if optional_generation(generation_after)
                    != optional_generation(generation) {
                    Some(
                        seq![
                            "daemon generation changed while its exact launch mechanism was captured"@,
                        ],
                    )
                } else {
                    match looks.token_after {
                        Err(error) => Some(error@),
                        Ok(token_after) => if seen(token_after) != seen(token) {
                            Some(
                                seq![
                                    "initial executable identity changed while daemon/service state was captured: "@
                                        + executable.display@,
                                ],
                            )
                        } else {
                            second_sight_problem(sight, sight_after)
                        },
                    }
                },
            },
        },
    }
}

/// What is captured where nothing disagrees.
pub open spec fn captured(
    executable: HostPath,
    replacement: HostPath,
    paths_match: bool,
    looks: CaptureLooks,
    r: SelfUpdateDaemonRestart,
) -> bool {
    let sight = looks.identity->Ok_0;
    let token = looks.token->Ok_0;
    let service = looks.service->Ok_0;
    r.initial_pid == sight_pid(sight) && r.initial_generation == looks.generation->Ok_0
        && r.initial_executable == executable && r.replacement_executable == replacement
        && r.paths_match == paths_match && r.initial_executable_state == (match token {
        Some(t) => InitialExecutableState::Present(t),
        None => InitialExecutableState::Absent,
    }) && r.expected_executable_token == token && r.initial_service_snapshot == service
        && r.expected_service_snapshot is None && r.stopped_service_snapshot is None
        && launch_mechanism(sight_pid(sight), service@.manager_pid) == Ok::<
        InitialLaunchMechanism,
        Seq<char>,
    >(r.initial_launch_mechanism) && r.executable == Owner::Initial && r.service_executable
        == Owner::Initial && r.service_installed == (service@.definition is Some)
        && !r.absence_held && r.restarted_pid is None && r.uninstall_state
        == InstallerUninstallState::NotApplied && r.initial_stop_state
        == InitialGenerationStopState::NotRequested && r.lifecycle_stop_diagnostics@.len() == 0
}

/// Whether two optional generations are the same run.
pub fn same_generation(a: &Option<DaemonGeneration>, b: &Option<DaemonGeneration>) -> (r: bool)
    ensures
        r == (optional_generation(*a) == optional_generation(*b)),
{
    match (a, b) {
        (Some(x), Some(y)) => x.same(y),
        (None, None) => true,
        _ => false,
    }
}

fn check_first_sight(token: &Option<FileToken>, sight: &Option<DaemonSight>) -> (r: Result<
    bool,
    Fault,
>)
    ensures
        match (*sight, first_sight_problem(*token, *sight)) {
            (Some(s), Some(messages)) => if s.validation is Err {
                r == Ok::<bool, Fault>(false)
            } else {
                r matches Err(fault) && fault@ == messages
            },
            (_, Some(_)) => false,
            (_, None) => r == Ok::<bool, Fault>(true),
        },
{
    match sight {
        None => Ok(true),
        Some(s) => match &s.validation {
            Err(_) => Ok(false),
            Ok(running) => {
                let here = match token {
                    Some(t) => t.same(running),
                    None => false,
                };
                if here {
                    Ok(true)
                } else {
                    Err(
                        Fault::of(
                            "running daemon executable changed while its initial public identity was captured",
                        ),
                    )
                }
            },
        },
    }
}

fn check_second_sight(first: &Option<DaemonSight>, second: Option<DaemonSight>) -> (r: Result<
    (),
    Fault,
>)
    ensures
        match second_sight_problem(*first, second) {
            None => r is Ok,
            Some(messages) => r matches Err(fault) && fault@ == messages,
        },
{
    match (first, second) {
        (None, None) => Ok(()),
        (Some(a), Some(b)) => {
            if a.pid != b.pid {
                return Err(
                    Fault::of(
                        "daemon PID identity changed while its exact launch mechanism was captured",
                    ),
                );
            }
            match b.validation {
                Err(fault) => Err(fault),
                Ok(token) => {
                    let same = match &a.validation {
                        Ok(before) => before.same(&token),
                        Err(_) => false,
                    };
                    if same {
                        Ok(())
                    } else {
                        Err(
                            Fault::of(
                                "daemon executable identity changed while its exact launch mechanism was captured",
                            ),
                        )
                    }
                },
            }
        },
        _ => Err(
            Fault::of("daemon PID identity changed while its exact launch mechanism was captured"),
        ),
    }
}

/// The failure inside a sight that did not validate.
fn sight_fault(sight: Option<DaemonSight>) -> (r: Fault)
    ensures
        match sight {
            Some(s) => s.validation matches Err(fault) ==> r == fault,
            None => true,
        },
{
    match sight {
        Some(s) => match s.validation {
            Err(fault) => fault,
            Ok(_) => misfit_fault(),
        },
        None => misfit_fault(),
    }
}

impl SelfUpdateDaemonRestart {
    /// The state that the service is expected in.
    pub open spec fn expected_service(self) -> ServiceStateView {
        match self.expected_service_snapshot {
            Some(snapshot) => snapshot@,
            None => self.initial_service_snapshot@,
        }
    }

    /// Whether two executables have different paths.
    pub open spec fn differ(self, a: Owner, b: Owner) -> bool {
        a != b && !self.paths_match
    }

    /// The path of an executable.
    pub open spec fn path_of(self, owner: Owner) -> HostPath {
        match owner {
            Owner::Initial => self.initial_executable,
            Owner::Replacement => self.replacement_executable,
        }
    }

    /// Whether two executables have different paths.
    pub fn paths_differ(&self, a: Owner, b: Owner) -> (r: bool)
        ensures
            r == self.differ(a, b),
    {
        a != b && !self.paths_match
    }

    /// The path of an executable.
    pub fn path(&self, owner: Owner) -> (r: &HostPath)
        ensures
            *r == self.path_of(owner),
    {
        match owner {
            Owner::Initial => &self.initial_executable,
            Owner::Replacement => &self.replacement_executable,
        }
    }

    /// Captures the state before an update.
    pub fn capture_for_executable(
        executable: HostPath,
        replacement: HostPath,
        paths_match: bool,
        looks: CaptureLooks,
    ) -> (r: Result<Self, Fault>)
        ensures
            match capture_problem(executable, looks) {
                Some(messages) => r matches Err(fault) && fault@ == messages,
                None => r matches Ok(state) && captured(
                    executable,
                    replacement,
                    paths_match,
                    looks,
                    state,
                ),
            },
    {
        match validate_expected_executable(&executable) {
            Ok(()) => {},
            Err(fault) => {
                return Err(fault);
            },
        }
        let token = match looks.token {
            Ok(token) => token,
            Err(fault) => {
                return Err(fault);
            },
        };
        let sight = match looks.identity {
            Ok(sight) => sight,
            Err(fault) => {
                return Err(fault);
            },
        };
        let generation = match looks.generation {
            Ok(generation) => generation,
            Err(fault) => {
                return Err(fault);
            },
        };
        match check_first_sight(&token, &sight) {
            Ok(true) => {},
            Ok(false) => {
                return Err(sight_fault(sight));
            },
            Err(fault) => {
                return Err(fault);
            },
        }
        let initial_pid: Option<u32> = match &sight {
            Some(s) => Some(s.pid),
            None => None,
        };
        let agrees = match (&generation, initial_pid) {
            (Some(g), Some(pid)) => g.pid == pid,
            (None, None) => true,
            _ => false,
        };
        if !agrees {
            return Err(
                Fault::of("daemon generation changed while its executable identity was captured"),
            );
        }
        let service = match looks.service {
            Ok(service) => service,
            Err(fault) => {
                return Err(fault);
            },
        };
        let mechanism = match classify_initial_launch_mechanism(
            initial_pid,
            service.manager_pid(),
        ) {
            Ok(mechanism) => mechanism,
            Err(fault) => {
                return Err(fault);
            },
        };
        let sight_after = match looks.identity_after {
            Ok(sight) => sight,
            Err(fault) => {
                return Err(fault);
            },
        };
        let generation_after = match looks.generation_after {
            Ok(generation) => generation,
            Err(fault) => {
                return Err(fault);
            },
        };
        if !same_generation(&generation_after, &generation) {
            return Err(
                Fault::of("daemon generation changed while its exact launch mechanism was captured"),
            );
        }
        let token_after = match looks.token_after {
            Ok(token) => token,
            Err(fault) => {
                return Err(fault);
            },
        };
        if !same_sight(&token_after, &token) {
            return Err(
                Fault::from_text(
                    join2(
                        "initial executable identity changed while daemon/service state was captured: ",
                        executable.display.as_str(),
                    ),
                ),
            );
        }
        match check_second_sight(&sight, sight_after) {
            Ok(()) => {},
            Err(fault) => {
                return Err(fault);
            },
        }
        let installed = service.is_installed();
        let state = match token {
            Some(t) => InitialExecutableState::Present(t),
            None => InitialExecutableState::Absent,
        };
        Ok(
            SelfUpdateDaemonRestart {
                initial_pid,
                initial_generation: generation,
                initial_executable: executable,
                replacement_executable: replacement,
                paths_match,
                initial_executable_state: state,
                expected_executable_token: token,
                initial_service_snapshot: service,
                expected_service_snapshot: None,
                stopped_service_snapshot: None,
                initial_launch_mechanism: mechanism,
                executable: Owner::Initial,
                service_executable: Owner::Initial,
                service_installed: installed,
                absence_held: false,
                restarted_pid: None,
                uninstall_state: InstallerUninstallState::NotApplied,
                initial_stop_state: InitialGenerationStopState::NotRequested,
                lifecycle_stop_diagnostics: Vec::new(),
            },
        )
    }
}

} // verus!
