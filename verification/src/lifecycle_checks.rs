//! The checks and records of an update's state.
use vstd::prelude::*;

use crate::boundary_phase::{InitialLaunchMechanism, InstallerUninstallState};
use crate::boundary_protocol::UninstallBoundaryState;
use crate::daemon_identity::DaemonSight;
use crate::fault::{join2, join3, join4, join5, joined, Fault};
use crate::fs_ops::FileToken;
use crate::lifecycle::{
    captured_executable_problem, require_captured_executable_state, ExecutableLook, Owner,
    SelfUpdateDaemonRestart,
};
use crate::number::{decimal, decimal_text};
use crate::removal::{misfit, misfit_fault};
use crate::service_state::{
    boundary_state, classify_observed_service_state, require_service_absent_state,
    require_service_manager_stopped_state, require_service_state_snapshot_with_manager,
    ExactServiceBoundaryState, ServiceStateSnapshot, ServiceStateView,
};
use crate::settlement::{DaemonGeneration, RequestedGenerationSettlement};
use crate::text::texts;

verus! {

/// Texts with a separator between them.
pub open spec fn separated(list: Seq<Seq<char>>, separator: Seq<char>) -> Seq<char>
    decreases list.len(),
{
    if list.len() == 0 {
        Seq::empty()
    } else if list.len() == 1 {
        list[0]
    } else {
        separated(list.drop_last(), separator) + separator + list.last()
    }
}

fn join_with(list: &[String], separator: &str) -> (r: String)
    ensures
        r@ == separated(texts(list@), separator@),
{
    let mut out = String::new();
    let mut i: usize = 0;
    assert(texts(list@).take(0) =~= Seq::empty());
    while i < list.len()
        invariant
            i <= list@.len(),
            out@ == separated(texts(list@).take(i as int), separator@),
        decreases list@.len() - i,
    {
        if i > 0 {
            out.append(separator);
        }
        out.append(list[i].as_str());
        i = i + 1;
        proof {
            let now = texts(list@).take(i as int);
            assert(now.drop_last() =~= texts(list@).take(i - 1));
            assert(now.last() == list@[i - 1]@);
            if i == 1 {
                assert(separated(texts(list@).take(0), separator@) =~= Seq::empty());
                assert(out@ =~= now[0]);
            }
        }
    }
    assert(texts(list@).take(i as int) =~= texts(list@));
    out
}

/// The failure of a service that is not in the expected state.
pub open spec fn service_state_problem(
    observed: Result<ServiceStateSnapshot, Fault>,
    expected: ServiceStateView,
) -> Option<Seq<Seq<char>>> {
    match observed {
        Err(error) => Some(error@),
        Ok(found) => if found@ == expected {
            None
        } else {
            Some(
                seq![
                    "daemon service definition or exact manager runtime state changed during the lifecycle transaction"@,
                ],
            )
        },
    }
}

/// The failure of a service that is not stopped as expected.
pub open spec fn service_stopped_problem(
    observed: Result<ServiceStateSnapshot, Fault>,
    expected: ServiceStateView,
) -> Option<Seq<Seq<char>>> {
    match observed {
        Err(error) => Some(error@),
        Ok(found) => if found@ == expected.with_manager_stopped() {
            None
        } else {
            Some(
                seq![
                    "daemon service definition or exact stopped-manager state changed during lifecycle restoration"@,
                ],
            )
        },
    }
}

/// Whether a result is exactly a problem or its absence.
pub open spec fn reports(r: Result<(), Fault>, problem: Option<Seq<Seq<char>>>) -> bool {
    match problem {
        None => r is Ok,
        Some(messages) => r matches Err(fault) && fault@ == messages,
    }
}

/// A problem behind a context.
pub open spec fn behind(context: Seq<char>, problem: Option<Seq<Seq<char>>>) -> Option<
    Seq<Seq<char>>,
> {
    match problem {
        None => None,
        Some(messages) => Some(seq![context] + messages),
    }
}

fn with_context(r: Result<(), Fault>, context: &str, problem: Ghost<Option<Seq<Seq<char>>>>) -> (out:
    Result<(), Fault>)
    requires
        reports(r, problem@),
    ensures
        reports(out, behind(context@, problem@)),
{
    match r {
        Ok(()) => Ok(()),
        Err(fault) => Err(fault.within(context)),
    }
}

/// The first of two problems.
pub open spec fn first_of(a: Option<Seq<Seq<char>>>, b: Option<Seq<Seq<char>>>) -> Option<
    Seq<Seq<char>>,
> {
    match a {
        Some(messages) => Some(messages),
        None => b,
    }
}

/// The problem of an operation.
pub open spec fn outcome_problem(outcome: Result<(), Fault>) -> Option<Seq<Seq<char>>> {
    match outcome {
        Ok(_) => None,
        Err(fault) => Some(fault@),
    }
}

/// The problem of a process that holds the lock where none may.
pub open spec fn occupied_problem(
    running: Result<Option<u32>, Fault>,
    before: Seq<char>,
    after: Seq<char>,
) -> Option<Seq<Seq<char>>> {
    match running {
        Err(error) => Some(error@),
        Ok(None) => None,
        Ok(Some(pid)) => Some(seq![before + decimal(pid as nat) + after]),
    }
}

fn require_unoccupied(running: Result<Option<u32>, Fault>, before: &str, after: &str) -> (r: Result<
    (),
    Fault,
>)
    ensures
        reports(r, occupied_problem(running, before@, after@)),
{
    match running {
        Err(error) => Err(error),
        Ok(None) => Ok(()),
        Ok(Some(pid)) => Err(
            Fault::from_text(join3(before, decimal_text(pid as u64).as_str(), after)),
        ),
    }
}

/// The problem of an absence that must be held and must still be one.
pub open spec fn held_problem(held: bool, missing: Seq<char>, verified: Result<(), Fault>) -> Option<
    Seq<Seq<char>>,
> {
    if held {
        outcome_problem(verified)
    } else {
        Some(seq![missing])
    }
}

fn require_held(held: bool, missing: &str, verified: Result<(), Fault>) -> (r: Result<(), Fault>)
    ensures
        reports(r, held_problem(held, missing@, verified)),
{
    if held {
        verified
    } else {
        Err(Fault::of(missing))
    }
}

/// The looks at a boundary where no daemon runs.
#[derive(Debug, PartialEq, Eq)]
pub struct StoppedLooks {
    pub service: Result<ServiceStateSnapshot, Fault>,
    pub running: Result<Option<u32>, Fault>,
    /// Whether the absence that is held is still one.
    pub absence: Result<(), Fault>,
}

/// The looks at the final state.
#[derive(Debug, PartialEq, Eq)]
pub struct FinalLooks {
    pub service: Result<ServiceStateSnapshot, Fault>,
    pub running: Result<Option<u32>, Fault>,
    pub absence: Result<(), Fault>,
    pub executable: ExecutableLook,
    pub sight: Result<Option<DaemonSight>, Fault>,
}

/// What verifying the final state comes to.
#[derive(Debug, PartialEq, Eq)]
pub enum FinalStep {
    Finished(Result<(), Fault>),
    /// The state is wrong: the daemon that runs has to be stopped first.
    Reestablish(Fault),
}

/// The problem of an executable that is not the expected one.
pub open spec fn final_executable_problem(
    path: Seq<char>,
    expected: Option<FileToken>,
    look: ExecutableLook,
) -> Option<Seq<Seq<char>>> {
    match (expected, look) {
        (Some(_), ExecutableLook::Token(Err(error))) => Some(
            seq!["binding the executable at the final daemon boundary: "@ + path] + error@,
        ),
        (Some(token), ExecutableLook::Token(Ok(observed))) => if observed@ == token@ {
            None
        } else {
            Some(seq!["executable identity changed before the final daemon boundary: "@ + path])
        },
        (None, ExecutableLook::Presence(Err(error))) => Some(error@),
        (None, ExecutableLook::Presence(Ok(present))) => if present {
            Some(seq!["an executable appeared at the final initially-absent path: "@ + path])
        } else {
            None
        },
        _ => Some(misfit()),
    }
}

fn require_final_executable(path: &str, expected: &Option<FileToken>, look: ExecutableLook) -> (r:
    Result<(), Fault>)
    ensures
        reports(r, final_executable_problem(path@, *expected, look)),
{
    match (expected, look) {
        (Some(_), ExecutableLook::Token(Err(error))) => Err(
            error.context(join2("binding the executable at the final daemon boundary: ", path)),
        ),
        (Some(token), ExecutableLook::Token(Ok(observed))) => if observed.same(token) {
            Ok(())
        } else {
            Err(
                Fault::from_text(
                    join2("executable identity changed before the final daemon boundary: ", path),
                ),
            )
        },
        (None, ExecutableLook::Presence(Err(error))) => Err(error),
        (None, ExecutableLook::Presence(Ok(present))) => if present {
            Err(
                Fault::from_text(
                    join2("an executable appeared at the final initially-absent path: ", path),
                ),
            )
        } else {
            Ok(())
        },
        _ => Err(misfit_fault()),
    }
}

/// The problem of a daemon that is not the restarted one.
pub open spec fn restarted_problem(
    restarted_pid: Option<u32>,
    sight: Result<Option<DaemonSight>, Fault>,
) -> Option<Seq<Seq<char>>> {
    match restarted_pid {
        None => Some(seq!["the initially running daemon has not been restarted"@]),
        Some(expected) => match sight {
            Err(error) => Some(error@),
            Ok(None) => Some(seq!["the restarted daemon no longer owns a PID identity"@]),
            Ok(Some(s)) => if s.pid != expected {
                Some(
                    seq![
                        "restarted daemon PID identity changed before self-update commit (expected "@
                            + decimal(expected as nat) + ", observed "@ + decimal(s.pid as nat)
                            + ")"@,
                    ],
                )
            } else {
                match s.validation {
                    Ok(_) => None,
                    Err(fault) => Some(
                        seq!["restarted daemon executable identity changed before commit"@]
                            + fault@,
                    ),
                }
            },
        },
    }
}

fn require_restarted(restarted_pid: Option<u32>, sight: Result<Option<DaemonSight>, Fault>) -> (r:
    Result<(), Fault>)
    ensures
        reports(r, restarted_problem(restarted_pid, sight)),
{
    match restarted_pid {
        None => Err(Fault::of("the initially running daemon has not been restarted")),
        Some(expected) => match sight {
            Err(error) => Err(error),
            Ok(None) => Err(Fault::of("the restarted daemon no longer owns a PID identity")),
            Ok(Some(s)) => if s.pid != expected {
                Err(
                    Fault::from_text(
                        join5(
                            "restarted daemon PID identity changed before self-update commit (expected ",
                            decimal_text(expected as u64).as_str(),
                            ", observed ",
                            decimal_text(s.pid as u64).as_str(),
                            ")",
                        ),
                    ),
                )
            } else {
                match s.validation {
                    Ok(_) => Ok(()),
                    Err(fault) => Err(
                        fault.within("restarted daemon executable identity changed before commit"),
                    ),
                }
            },
        },
    }
}

/// The other executable.
pub open spec fn other_owner(owner: Owner) -> Owner {
    match owner {
        Owner::Initial => Owner::Replacement,
        Owner::Replacement => Owner::Initial,
    }
}

/// What asking one executable for its ownership gave.
pub open spec fn ownership(
    owner: Owner,
    initial: Result<(), Fault>,
    replacement: Result<(), Fault>,
) -> Result<(), Fault> {
    match owner {
        Owner::Initial => initial,
        Owner::Replacement => replacement,
    }
}

/// A refused ownership in words.
pub open spec fn refused_ownership(path: Seq<char>, refusal: Result<(), Fault>) -> Seq<char> {
    path + " ("@ + joined(refusal->Err_0@) + ")"@
}

impl SelfUpdateDaemonRestart {
    /// Whether nothing but the diagnostics differs.
    pub open spec fn same_but_diagnostics(self, other: Self) -> bool {
        self == (SelfUpdateDaemonRestart {
            lifecycle_stop_diagnostics: self.lifecycle_stop_diagnostics,
            ..other
        })
    }

    /// The diagnostics that were kept.
    pub open spec fn said(self) -> Seq<Seq<char>> {
        texts(self.lifecycle_stop_diagnostics@)
    }

    /// Keeps what was said while a generation settled, and gives what was seen
    /// then.
    pub fn record_lifecycle_settlement(&mut self, settlement: RequestedGenerationSettlement) -> (r:
        Option<DaemonGeneration>)
        ensures
            r == settlement.observed_generation,
            final(self).same_but_diagnostics(*old(self)),
            final(self).said() == old(self).said() + texts(settlement.diagnostics@),
    {
        self.record_diagnostics(settlement.diagnostics);
        settlement.observed_generation
    }

    /// Keeps what was said.
    pub fn record_diagnostics(&mut self, diagnostics: Vec<String>)
        ensures
            final(self).same_but_diagnostics(*old(self)),
            final(self).said() == old(self).said() + texts(diagnostics@),
    {
        let mut more = diagnostics;
        let ghost before = self.lifecycle_stop_diagnostics@;
        let ghost added = more@;
        self.lifecycle_stop_diagnostics.append(&mut more);
        assert(texts(self.lifecycle_stop_diagnostics@) =~= texts(before) + texts(added));
    }

    /// Nothing may have been said; what was is given up with the failure.
    pub fn require_clean_lifecycle_settlement(&mut self, context: &str) -> (r: Result<(), Fault>)
        ensures
            final(self).same_but_diagnostics(*old(self)),
            final(self).said().len() == 0,
            if old(self).said().len() == 0 {
                r is Ok
            } else {
                r matches Err(fault) && fault@ == seq![
                    context@ + ": "@ + separated(old(self).said(), "; "@),
                ]
            },
    {
        if self.lifecycle_stop_diagnostics.len() == 0 {
            return Ok(());
        }
        let text = join3(
            context,
            ": ",
            join_with(self.lifecycle_stop_diagnostics.as_slice(), "; ").as_str(),
        );
        self.lifecycle_stop_diagnostics = Vec::new();
        Err(Fault::from_text(text))
    }

    /// The executable must be the very file that was captured.
    pub fn verify_initial_executable_unchanged(&self, look: ExecutableLook) -> (r: Result<
        (),
        Fault,
    >)
        ensures
            reports(
                r,
                behind(
                    "initial daemon executable changed before its running state could be restored"@,
                    captured_executable_problem(
                        self.initial_executable.display@,
                        self.initial_executable_state,
                        true,
                        look,
                    ),
                ),
            ),
    {
        let ghost problem = captured_executable_problem(
            self.initial_executable.display@,
            self.initial_executable_state,
            true,
            look,
        );
        let r = require_captured_executable_state(
            self.initial_executable.display.as_str(),
            &self.initial_executable_state,
            true,
            look,
        );
        with_context(
            r,
            "initial daemon executable changed before its running state could be restored",
            Ghost(problem),
        )
    }

    /// The executable must hold the bytes that were captured.
    pub fn verify_initial_executable_contents_restored(&self, look: ExecutableLook) -> (r: Result<
        (),
        Fault,
    >)
        ensures
            reports(
                r,
                behind(
                    "installer rollback did not restore the exact initial executable contents"@,
                    captured_executable_problem(
                        self.initial_executable.display@,
                        self.initial_executable_state,
                        false,
                        look,
                    ),
                ),
            ),
    {
        let ghost problem = captured_executable_problem(
            self.initial_executable.display@,
            self.initial_executable_state,
            false,
            look,
        );
        let r = require_captured_executable_state(
            self.initial_executable.display.as_str(),
            &self.initial_executable_state,
            false,
            look,
        );
        with_context(
            r,
            "installer rollback did not restore the exact initial executable contents",
            Ghost(problem),
        )
    }

    /// The process that the manager ran at the beginning.
    pub open spec fn initial_manager(self) -> Option<u32> {
        match self.initial_launch_mechanism {
            InitialLaunchMechanism::ServiceManager => self.initial_pid,
            _ => None,
        }
    }

    /// The service must be as it was captured.
    pub fn verify_initial_service_state_unchanged(
        &self,
        observed: Result<ServiceStateSnapshot, Fault>,
    ) -> (r: Result<(), Fault>)
        ensures
            reports(
                r,
                service_state_problem(
                    observed,
                    self.initial_service_snapshot@.with_manager_pid(self.initial_manager()),
                ),
            ),
    {
        let pid: Option<u32> = match self.initial_launch_mechanism {
            InitialLaunchMechanism::ServiceManager => self.initial_pid,
            _ => None,
        };
        match observed {
            Err(error) => Err(error),
            Ok(found) => require_service_state_snapshot_with_manager(
                &found,
                &self.initial_service_snapshot,
                pid,
            ),
        }
    }

    /// What keeps the service from being ready for the initial daemon to start
    /// again.
    pub open spec fn restart_readiness_problem(
        self,
        observed: Result<ServiceStateSnapshot, Fault>,
    ) -> Option<Seq<Seq<char>>> {
        match self.initial_launch_mechanism {
            InitialLaunchMechanism::ServiceManager => service_stopped_problem(
                observed,
                self.initial_service_snapshot@,
            ),
            _ => service_state_problem(observed, self.initial_service_snapshot@),
        }
    }

    /// The service must be ready for the initial daemon to start again: its
    /// manager stopped where it ran the daemon, and unchanged where it did not.
    pub fn verify_service_state_ready_for_initial_restart(
        &self,
        observed: Result<ServiceStateSnapshot, Fault>,
    ) -> (r: Result<(), Fault>)
        ensures
            reports(r, self.restart_readiness_problem(observed)),
    {
        match observed {
            Err(error) => Err(error),
            Ok(found) => match self.initial_launch_mechanism {
                InitialLaunchMechanism::ServiceManager => require_service_manager_stopped_state(
                    &found,
                    &self.initial_service_snapshot,
                ),
                _ => {
                    assert(self.initial_service_snapshot@.with_manager_pid(
                        self.initial_service_snapshot@.manager_pid,
                    ) == self.initial_service_snapshot@);
                    require_service_state_snapshot_with_manager(
                        &found,
                        &self.initial_service_snapshot,
                        self.initial_service_snapshot.manager_pid,
                    )
                },
            },
        }
    }

    /// What keeps the stopped service from being recorded.
    pub open spec fn stopped_snapshot_problem(
        self,
        ready: Option<Result<ServiceStateSnapshot, Fault>>,
        observed: Result<ServiceStateSnapshot, Fault>,
    ) -> Option<Seq<Seq<char>>> {
        first_of(
            match ready {
                Some(look) => self.restart_readiness_problem(look),
                None => None,
            },
            match observed {
                Err(error) => Some(error@),
                Ok(snapshot) => if snapshot@.manager_pid is Some {
                    Some(
                        seq![
                            "service manager still owns a daemon generation after exact PID absence was acquired"@,
                        ],
                    )
                } else {
                    None
                },
            },
        )
    }

    /// Records the stopped service. Where the initial state is still required, a
    /// look at it comes first.
    pub fn record_stopped_service_snapshot(
        &mut self,
        ready: Option<Result<ServiceStateSnapshot, Fault>>,
        observed: Result<ServiceStateSnapshot, Fault>,
    ) -> (r: Result<(), Fault>)
        ensures
            reports(r, old(self).stopped_snapshot_problem(ready, observed)),
            r is Ok ==> *final(self) == (SelfUpdateDaemonRestart {
                stopped_service_snapshot: Some(observed->Ok_0),
                ..*old(self)
            }),
            r is Err ==> *final(self) == *old(self),
    {
        match ready {
            Some(look) => match self.verify_service_state_ready_for_initial_restart(look) {
                Ok(()) => {},
                Err(fault) => {
                    return Err(fault);
                },
            },
            None => {},
        }
        match observed {
            Err(error) => Err(error),
            Ok(snapshot) => {
                if snapshot.manager_pid().is_some() {
                    return Err(
                        Fault::of(
                            "service manager still owns a daemon generation after exact PID absence was acquired",
                        ),
                    );
                }
                self.stopped_service_snapshot = Some(snapshot);
                Ok(())
            },
        }
    }

    /// What keeps the restarted daemon from being the expected one.
    pub open spec fn restarted_service_problem(
        self,
        restarted_pid: u32,
        observed: Result<ServiceStateSnapshot, Fault>,
    ) -> Option<Seq<Seq<char>>> {
        match observed {
            Err(error) => Some(error@),
            Ok(found) => match self.initial_launch_mechanism {
                InitialLaunchMechanism::ServiceManager => if found@.manager_pid != Some(
                    restarted_pid,
                ) || found@.definition is None {
                    Some(
                        seq![
                            "the restarted daemon PID "@ + decimal(restarted_pid as nat)
                                + " was not the exact service-manager generation"@,
                        ],
                    )
                } else if !self.differ(self.service_executable, Owner::Initial) && found@
                    != self.initial_service_snapshot@.with_manager_pid(Some(restarted_pid)) {
                    Some(
                        seq![
                            "the original service definition or runtime state changed while its daemon was restarted"@,
                        ],
                    )
                } else {
                    None
                },
                InitialLaunchMechanism::Detached => if self.differ(
                    self.service_executable,
                    Owner::Initial,
                ) || found@ != self.initial_service_snapshot@.with_manager_pid(None) {
                    Some(
                        seq![
                            "the inactive service definition changed while the foreground daemon generation was restarted"@,
                        ],
                    )
                } else {
                    None
                },
                InitialLaunchMechanism::Stopped => Some(
                    seq![
                        "an initially stopped daemon cannot record a restarted service snapshot"@,
                    ],
                ),
            },
        }
    }

    /// Records the service of the restarted daemon, which must have been started
    /// in the same way as the initial one.
    pub fn record_expected_service_snapshot_after_restart(
        &mut self,
        restarted_pid: u32,
        observed: Result<ServiceStateSnapshot, Fault>,
    ) -> (r: Result<(), Fault>)
        ensures
            reports(r, old(self).restarted_service_problem(restarted_pid, observed)),
            r is Ok ==> *final(self) == (SelfUpdateDaemonRestart {
                expected_service_snapshot: Some(observed->Ok_0),
                ..*old(self)
            }),
            r is Err ==> *final(self) == *old(self),
    {
        let found = match observed {
            Err(error) => {
                return Err(error);
            },
            Ok(found) => found,
        };
        let moved = self.paths_differ(self.service_executable, Owner::Initial);
        match self.initial_launch_mechanism {
            InitialLaunchMechanism::ServiceManager => {
                let managed = match found.manager_pid() {
                    Some(pid) => pid == restarted_pid,
                    None => false,
                };
                if !managed || !found.is_installed() {
                    return Err(
                        Fault::from_text(
                            join3(
                                "the restarted daemon PID ",
                                decimal_text(restarted_pid as u64).as_str(),
                                " was not the exact service-manager generation",
                            ),
                        ),
                    );
                }
                if !moved && !found.matches_snapshot_with_manager(
                    &self.initial_service_snapshot,
                    Some(restarted_pid),
                ) {
                    return Err(
                        Fault::of(
                            "the original service definition or runtime state changed while its daemon was restarted",
                        ),
                    );
                }
            },
            InitialLaunchMechanism::Detached => {
                if moved || !found.matches_snapshot_with_manager(
                    &self.initial_service_snapshot,
                    None,
                ) {
                    return Err(
                        Fault::of(
                            "the inactive service definition changed while the foreground daemon generation was restarted",
                        ),
                    );
                }
            },
            InitialLaunchMechanism::Stopped => {
                return Err(
                    Fault::of(
                        "an initially stopped daemon cannot record a restarted service snapshot",
                    ),
                );
            },
        }
        self.expected_service_snapshot = Some(found);
        Ok(())
    }

    /// Whether a second executable may own the service beside the one that is
    /// known to.
    pub open spec fn has_second_candidate(self, alternative: Owner) -> bool {
        self.differ(alternative, self.service_executable) || self.differ(
            Owner::Initial,
            self.service_executable,
        )
    }

    /// Who owns the service, or why that cannot be told.
    pub open spec fn classified_owner(
        self,
        alternative: Owner,
        initial: Result<(), Fault>,
        replacement: Result<(), Fault>,
    ) -> Result<Owner, Seq<char>> {
        let a = self.service_executable;
        let b = other_owner(a);
        let of_a = ownership(a, initial, replacement);
        let of_b = ownership(b, initial, replacement);
        let unclassified =
            "daemon service owner could not be classified among the exact lifecycle paths: "@;
        if self.has_second_candidate(alternative) {
            match (of_a, of_b) {
                (Ok(_), Err(_)) => Ok(a),
                (Err(_), Ok(_)) => Ok(b),
                (Err(_), Err(_)) => Err(
                    unclassified + refused_ownership(self.path_of(a).display@, of_a) + "; "@
                        + refused_ownership(self.path_of(b).display@, of_b),
                ),
                (Ok(_), Ok(_)) => Err(
                    "daemon service definition matched multiple executable owners during transition: "@
                        + self.path_of(a).display@ + ", "@ + self.path_of(b).display@,
                ),
            }
        } else {
            match of_a {
                Ok(_) => Ok(a),
                Err(_) => Err(unclassified + refused_ownership(self.path_of(a).display@, of_a)),
            }
        }
    }

    /// Records who owns the service: exactly one of the executables must.
    pub fn classify_service_executable(
        &mut self,
        alternative: Owner,
        initial: Result<(), Fault>,
        replacement: Result<(), Fault>,
    ) -> (r: Result<(), Fault>)
        ensures
            match old(self).classified_owner(alternative, initial, replacement) {
                Ok(owner) => r is Ok && *final(self) == (SelfUpdateDaemonRestart {
                    service_executable: owner,
                    ..*old(self)
                }),
                Err(message) => r matches Err(fault) && fault@ == seq![message] && *final(self)
                    == *old(self),
            },
    {
        let a = self.service_executable;
        let (b, of_a, of_b) = match a {
            Owner::Initial => (Owner::Replacement, initial, replacement),
            Owner::Replacement => (Owner::Initial, replacement, initial),
        };
        let second = self.paths_differ(alternative, a) || self.paths_differ(Owner::Initial, a);
        let unclassified = "daemon service owner could not be classified among the exact lifecycle paths: ";
        if !second {
            return match of_a {
                Ok(()) => Ok(()),
                Err(fault) => {
                    let text = join4(
                        self.path(a).display.as_str(),
                        " (",
                        fault.detail().as_str(),
                        ")",
                    );
                    Err(Fault::from_text(join2(unclassified, text.as_str())))
                },
            };
        }
        match (of_a, of_b) {
            (Ok(()), Err(_)) => Ok(()),
            (Err(_), Ok(())) => {
                self.service_executable = b;
                Ok(())
            },
            (Err(x), Err(y)) => {
                let first = join4(
                    self.path(a).display.as_str(),
                    " (",
                    x.detail().as_str(),
                    ")",
                );
                let last = join4(self.path(b).display.as_str(), " (", y.detail().as_str(), ")");
                Err(
                    Fault::from_text(
                        join4(unclassified, first.as_str(), "; ", last.as_str()),
                    ),
                )
            },
            (Ok(()), Ok(())) => Err(
                Fault::from_text(
                    join4(
                        "daemon service definition matched multiple executable owners during transition: ",
                        self.path(a).display.as_str(),
                        ", ",
                        self.path(b).display.as_str(),
                    ),
                ),
            ),
        }
    }

    /// Gives the absence up so that a daemon can start. It is given up whether
    /// or not it still was one.
    pub fn release_absence_for_restart(&mut self, verified: Result<(), Fault>) -> (r: Result<
        (),
        Fault,
    >)
        ensures
            reports(
                r,
                held_problem(
                    old(self).absence_held,
                    "daemon absence lease was not held before installer restart"@,
                    verified,
                ),
            ),
            *final(self) == (SelfUpdateDaemonRestart { absence_held: false, ..*old(self) }),
    {
        let held = self.absence_held;
        self.absence_held = false;
        require_held(held, "daemon absence lease was not held before installer restart", verified)
    }

    // -- Boundaries --

    /// What is wrong at a boundary where no daemon may run.
    pub open spec fn stopped_boundary_problem(self, looks: StoppedLooks) -> Option<Seq<Seq<char>>> {
        match self.stopped_service_snapshot {
            None => Some(seq!["stopped installer boundary has no exact service snapshot"@]),
            Some(expected) => first_of(
                service_state_problem(looks.service, expected@),
                first_of(
                    occupied_problem(
                        looks.running,
                        "daemon PID "@,
                        " still owns the PID authority at a stopped installer boundary"@,
                    ),
                    held_problem(
                        self.absence_held,
                        "stopped installer boundary lost its daemon absence lease"@,
                        looks.absence,
                    ),
                ),
            ),
        }
    }

    /// At a boundary where no daemon may run, the service must be as it was when
    /// it was stopped, nobody may hold the lock, and the absence must be held.
    pub fn verify_stopped_boundary_state(&self, looks: StoppedLooks) -> (r: Result<(), Fault>)
        ensures
            reports(r, self.stopped_boundary_problem(looks)),
    {
        let expected = match &self.stopped_service_snapshot {
            None => {
                return Err(
                    Fault::of("stopped installer boundary has no exact service snapshot"),
                );
            },
            Some(expected) => expected,
        };
        match looks.service {
            Err(error) => {
                return Err(error);
            },
            Ok(found) => {
                assert(expected@.with_manager_pid(expected@.manager_pid) == expected@);
                match require_service_state_snapshot_with_manager(
                    &found,
                    expected,
                    expected.manager_pid,
                ) {
                    Ok(()) => {},
                    Err(fault) => {
                        return Err(fault);
                    },
                }
            },
        }
        match require_unoccupied(
            looks.running,
            "daemon PID ",
            " still owns the PID authority at a stopped installer boundary",
        ) {
            Ok(()) => {},
            Err(fault) => {
                return Err(fault);
            },
        }
        require_held(
            self.absence_held,
            "stopped installer boundary lost its daemon absence lease",
            looks.absence,
        )
    }

    /// What is wrong after the service was removed.
    pub open spec fn uninstalled_boundary_problem(self, looks: StoppedLooks) -> Option<
        Seq<Seq<char>>,
    > {
        first_of(
            absent_service_problem(looks.service),
            first_of(
                held_problem(
                    self.absence_held,
                    "daemon absence lease was lost during installer uninstall"@,
                    looks.absence,
                ),
                occupied_problem(
                    looks.running,
                    "daemon PID "@,
                    " appeared after installer service removal"@,
                ),
            ),
        )
    }

    /// After the service was removed it must be gone, the absence must be held,
    /// and nobody may hold the lock.
    pub fn verify_uninstalled_boundary_state(&self, looks: StoppedLooks) -> (r: Result<(), Fault>)
        ensures
            reports(r, self.uninstalled_boundary_problem(looks)),
    {
        match require_absent_service(looks.service) {
            Ok(()) => {},
            Err(fault) => {
                return Err(fault);
            },
        }
        match require_held(
            self.absence_held,
            "daemon absence lease was lost during installer uninstall",
            looks.absence,
        ) {
            Ok(()) => {},
            Err(fault) => {
                return Err(fault);
            },
        }
        require_unoccupied(
            looks.running,
            "daemon PID ",
            " appeared after installer service removal",
        )
    }

    /// What is wrong with the final state.
    pub open spec fn final_state_problem(self, looks: FinalLooks) -> Option<Seq<Seq<char>>> {
        if !(self.uninstall_state is NotApplied) {
            first_of(
                absent_service_problem(looks.service),
                first_of(
                    occupied_problem(
                        looks.running,
                        "daemon PID "@,
                        " appeared before installer uninstall commit"@,
                    ),
                    held_problem(
                        self.absence_held,
                        "installer uninstall lost its daemon absence lease"@,
                        looks.absence,
                    ),
                ),
            )
        } else {
            first_of(
                final_executable_problem(
                    self.path_of(self.executable).display@,
                    self.expected_executable_token,
                    looks.executable,
                ),
                first_of(
                    service_state_problem(looks.service, self.expected_service()),
                    if self.initial_pid is Some {
                        restarted_problem(self.restarted_pid, looks.sight)
                    } else {
                        held_problem(
                            self.absence_held,
                            "initially stopped daemon lost its absence lease"@,
                            looks.absence,
                        )
                    },
                ),
            )
        }
    }

    /// The final state: after an uninstallation the service is gone and no
    /// daemon runs; else the executable and the service are the expected ones,
    /// and the daemon runs again exactly if it ran before.
    pub fn verify_final_state_snapshot(&self, looks: FinalLooks) -> (r: Result<(), Fault>)
        ensures
            reports(r, self.final_state_problem(looks)),
    {
        if self.uninstall_state.is_applied() {
            match require_absent_service(looks.service) {
                Ok(()) => {},
                Err(fault) => {
                    return Err(fault);
                },
            }
            match require_unoccupied(
                looks.running,
                "daemon PID ",
                " appeared before installer uninstall commit",
            ) {
                Ok(()) => {},
                Err(fault) => {
                    return Err(fault);
                },
            }
            return require_held(
                self.absence_held,
                "installer uninstall lost its daemon absence lease",
                looks.absence,
            );
        }
        match require_final_executable(
            self.path(self.executable).display.as_str(),
            &self.expected_executable_token,
            looks.executable,
        ) {
            Ok(()) => {},
            Err(fault) => {
                return Err(fault);
            },
        }
        let expected = match &self.expected_service_snapshot {
            Some(snapshot) => snapshot,
            None => &self.initial_service_snapshot,
        };
        match looks.service {
            Err(error) => {
                return Err(error);
            },
            Ok(found) => {
                assert(expected@.with_manager_pid(expected@.manager_pid) == expected@);
                match require_service_state_snapshot_with_manager(
                    &found,
                    expected,
                    expected.manager_pid,
                ) {
                    Ok(()) => {},
                    Err(fault) => {
                        return Err(fault);
                    },
                }
            },
        }
        match self.initial_pid {
            Some(_) => require_restarted(self.restarted_pid, looks.sight),
            None => require_held(
                self.absence_held,
                "initially stopped daemon lost its absence lease",
                looks.absence,
            ),
        }
    }

    /// Verifies the final state. One that is wrong is not left as it is: unless
    /// the service was removed, the daemon that runs is stopped.
    pub fn verify_final_state(&mut self, looks: FinalLooks) -> (r: FinalStep)
        ensures
            *final(self) == *old(self),
            match old(self).final_state_problem(looks) {
                None => r == FinalStep::Finished(Ok(())),
                Some(messages) => if old(self).uninstall_state is NotApplied {
                    r matches FinalStep::Reestablish(fault) && fault@ == messages
                } else {
                    r matches FinalStep::Finished(Err(fault)) && fault@ == messages
                },
            },
    {
        match self.verify_final_state_snapshot(looks) {
            Ok(()) => FinalStep::Finished(Ok(())),
            Err(fault) => if self.uninstall_state.is_applied() {
                FinalStep::Finished(Err(fault))
            } else {
                FinalStep::Reestablish(fault)
            },
        }
    }

    /// What an uninstallation left behind, or why that cannot be told, and
    /// whether it is now known to be applied.
    pub open spec fn uninstall_boundary(
        self,
        service: Result<ServiceStateSnapshot, Fault>,
        looks: StoppedLooks,
    ) -> (Result<UninstallBoundaryState, Seq<Seq<char>>>, bool) {
        if !(self.uninstall_state is NotApplied) {
            match self.uninstalled_boundary_problem(looks) {
                None => (Ok(UninstallBoundaryState::Applied), false),
                Some(messages) => (Err(messages), false),
            }
        } else {
            match self.stopped_service_snapshot {
                None => (
                    Err(seq!["uninstall finalization has no exact prior stopped snapshot"@]),
                    false,
                ),
                Some(prior) => match service {
                    Err(error) => (Err(error@), false),
                    Ok(found) => match boundary_state(found@, prior@) {
                        ExactServiceBoundaryState::Absent => match self.uninstalled_boundary_problem(
                            looks,
                        ) {
                            None => (Ok(UninstallBoundaryState::Applied), true),
                            Some(messages) => (Err(messages), true),
                        },
                        ExactServiceBoundaryState::PriorExact => {
                            match self.stopped_boundary_problem(looks) {
                                None => (Ok(UninstallBoundaryState::PriorStopped), false),
                                Some(messages) => (Err(messages), false),
                            }
                        },
                        ExactServiceBoundaryState::Ambiguous => (
                            Err(
                                seq![
                                    "installer uninstall left a service definition/runtime state that matched neither exact removal nor the exact prior stopped snapshot"@,
                                ],
                            ),
                            false,
                        ),
                    },
                },
            }
        }
    }

    /// What an uninstallation left behind. A service that is found removed is
    /// recorded as removed before anything else is verified.
    pub fn classify_uninstall_boundary_state(
        &mut self,
        service: Result<ServiceStateSnapshot, Fault>,
        looks: StoppedLooks,
    ) -> (r: Result<UninstallBoundaryState, Fault>)
        ensures
            match old(self).uninstall_boundary(service, looks).0 {
                Ok(state) => r == Ok::<UninstallBoundaryState, Fault>(state),
                Err(messages) => r matches Err(fault) && fault@ == messages,
            },
            *final(self) == (if old(self).uninstall_boundary(service, looks).1 {
                SelfUpdateDaemonRestart {
                    uninstall_state: InstallerUninstallState::AppliedPendingVerification,
                    ..*old(self)
                }
            } else {
                *old(self)
            }),
    {
        if self.uninstall_state.is_applied() {
            return match self.verify_uninstalled_boundary_state(looks) {
                Ok(()) => Ok(UninstallBoundaryState::Applied),
                Err(fault) => Err(fault),
            };
        }
        let state = match &self.stopped_service_snapshot {
            None => {
                return Err(
                    Fault::of("uninstall finalization has no exact prior stopped snapshot"),
                );
            },
            Some(prior) => match service {
                Err(error) => {
                    return Err(error);
                },
                Ok(found) => classify_observed_service_state(&found, prior),
            },
        };
        match state {
            ExactServiceBoundaryState::Absent => {
                let verified = self.verify_uninstalled_boundary_state(looks);
                self.uninstall_state.mark_applied();
                match verified {
                    Ok(()) => Ok(UninstallBoundaryState::Applied),
                    Err(fault) => Err(fault),
                }
            },
            ExactServiceBoundaryState::PriorExact => match self.verify_stopped_boundary_state(
                looks,
            ) {
                Ok(()) => Ok(UninstallBoundaryState::PriorStopped),
                Err(fault) => Err(fault),
            },
            ExactServiceBoundaryState::Ambiguous => Err(
                Fault::of(
                    "installer uninstall left a service definition/runtime state that matched neither exact removal nor the exact prior stopped snapshot",
                ),
            ),
        }
    }
}

/// How verifying a wrong final state ends, given whether its daemon was
/// stopped.
pub fn finish_final_verification(error: Fault, absence: Result<(), Fault>) -> (r: Fault)
    ensures
        r@ == seq![
            match absence {
                Ok(_) => "final daemon-state verification failed; the exact observed generation was stopped and daemon absence was re-established"@,
                Err(stop) => "final daemon-state verification failed and the observed generation could not be proven stopped: "@
                    + joined(stop@),
            },
        ] + error@,
{
    match absence {
        Ok(()) => error.within(
            "final daemon-state verification failed; the exact observed generation was stopped and daemon absence was re-established",
        ),
        Err(stop) => error.context(
            join2(
                "final daemon-state verification failed and the observed generation could not be proven stopped: ",
                stop.detail().as_str(),
            ),
        ),
    }
}

/// The problem of a service that must be gone.
pub open spec fn absent_service_problem(observed: Result<ServiceStateSnapshot, Fault>) -> Option<
    Seq<Seq<char>>,
> {
    match observed {
        Err(error) => Some(error@),
        Ok(found) => if found@.absent() {
            None
        } else {
            Some(
                seq!["daemon service definition or manager runtime remained after uninstall"@],
            )
        },
    }
}

fn require_absent_service(observed: Result<ServiceStateSnapshot, Fault>) -> (r: Result<(), Fault>)
    ensures
        reports(r, absent_service_problem(observed)),
{
    match observed {
        Err(error) => Err(error),
        Ok(found) => require_service_absent_state(&found),
    }
}

// -- Laws --

/// A final state that is accepted is exact: an update leaves the daemon running
/// exactly if it ran before, and then it is the one that was restarted; an
/// uninstallation leaves neither a service nor a daemon.
pub proof fn law_accepted_final_state_is_exact(state: SelfUpdateDaemonRestart, looks: FinalLooks)
    requires
        state.final_state_problem(looks) is None,
    ensures
        !(state.uninstall_state is NotApplied) ==> (looks.service matches Ok(found) && found@.absent())
            && looks.running == Ok::<Option<u32>, Fault>(None) && state.absence_held,
        state.uninstall_state is NotApplied ==> (looks.service matches Ok(found) && found@
            == state.expected_service()),
        state.uninstall_state is NotApplied && state.initial_pid is Some ==> (looks.sight matches Ok(
            Some(sight),
        ) && state.restarted_pid == Some(sight.pid) && sight.validation is Ok),
        state.uninstall_state is NotApplied && state.initial_pid is None ==> state.absence_held
            && looks.absence is Ok,
{
}

/// A service that was found removed stays recorded as removed, whatever the
/// verification after it says.
pub proof fn law_found_removal_is_kept(
    state: SelfUpdateDaemonRestart,
    service: ServiceStateSnapshot,
    looks: StoppedLooks,
)
    requires
        state.uninstall_state is NotApplied,
        state.stopped_service_snapshot is Some,
        service@.absent(),
    ensures
        state.uninstall_boundary(Ok(service), looks).1,
{
}

} // verus!
