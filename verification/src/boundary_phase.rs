//! The phases of an update boundary, and what each of them calls for when the
//! boundary ends before it was released.
use vstd::prelude::*;

use crate::fault::{join2, join3, join4, joined, Fault};
use crate::number::{decimal, decimal_text};
use crate::text::CharClass;

verus! {

/// What every line of the boundary begins with.
pub const INSTALLER_DAEMON_BOUNDARY_PREFIX: &'static str =
    "codex-switch-global-pace daemon update boundary";

// -- The state that an installer asks for --

/// Whether the daemon runs and whether its service is installed, in words.
pub open spec fn state_words(running: bool, service_installed: bool) -> Seq<char> {
    match (running, service_installed) {
        (true, true) => "running=true service_installed=true"@,
        (true, false) => "running=true service_installed=false"@,
        (false, true) => "running=false service_installed=true"@,
        (false, false) => "running=false service_installed=false"@,
    }
}

/// Whether the daemon runs and whether its service is installed, in words.
pub fn installer_state_line(running: bool, service_installed: bool) -> (r: &'static str)
    ensures
        r@ == state_words(running, service_installed),
{
    match (running, service_installed) {
        (true, true) => "running=true service_installed=true",
        (true, false) => "running=true service_installed=false",
        (false, true) => "running=false service_installed=true",
        (false, false) => "running=false service_installed=false",
    }
}

/// The state words are one line each, and no two states share them.
pub proof fn law_state_words_are_exact(a: (bool, bool), b: (bool, bool))
    ensures
        forall|i: int|
            0 <= i < state_words(a.0, a.1).len() ==> !CharClass::LineEnd.has(
                #[trigger] state_words(a.0, a.1)[i],
            ),
        state_words(a.0, a.1) == state_words(b.0, b.1) ==> a == b,
{
    reveal_strlit("running=true service_installed=true");
    reveal_strlit("running=true service_installed=false");
    reveal_strlit("running=false service_installed=true");
    reveal_strlit("running=false service_installed=false");
    let x = state_words(a.0, a.1);
    let y = state_words(b.0, b.1);
    if x == y {
        assert(x[8] == y[8]);
        assert(x.len() == y.len());
    }
}

/// The state is a line of its own, never a part of a JSON document.
pub fn require_plain_installer_state(json: bool) -> (r: Result<(), Fault>)
    ensures
        if json {
            r matches Err(fault) && fault@ == seq![
                "--installer-state cannot be combined with a JSON output mode"@,
            ]
        } else {
            r is Ok
        },
{
    if json {
        Err(Fault::of("--installer-state cannot be combined with a JSON output mode"))
    } else {
        Ok(())
    }
}

// -- How the daemon was running --

/// What started the daemon that was found at the beginning.
#[derive(Clone, Copy, Debug, PartialEq, Eq, Structural)]
pub enum InitialLaunchMechanism {
    Stopped,
    Detached,
    ServiceManager,
}

/// What started the daemon, or why that cannot be told. Only the manager's own
/// process counts as the manager's.
pub open spec fn launch_mechanism(daemon_pid: Option<u32>, manager_pid: Option<u32>) -> Result<
    InitialLaunchMechanism,
    Seq<char>,
> {
    match (daemon_pid, manager_pid) {
        (None, None) => Ok(InitialLaunchMechanism::Stopped),
        (Some(_), None) => Ok(InitialLaunchMechanism::Detached),
        (None, Some(manager)) => Err(
            "service manager reports daemon PID "@ + decimal(manager as nat)
                + ", but no process owns the authoritative PID identity"@,
        ),
        (Some(pid), Some(manager)) => if pid == manager {
            Ok(InitialLaunchMechanism::ServiceManager)
        } else {
            Err(
                "service manager owns PID "@ + decimal(manager as nat)
                    + ", while authoritative daemon PID "@ + decimal(pid as nat)
                    + " belongs to a different generation"@,
            )
        },
    }
}

/// What started the daemon.
pub fn classify_initial_launch_mechanism(daemon_pid: Option<u32>, manager_pid: Option<u32>) -> (r:
    Result<InitialLaunchMechanism, Fault>)
    ensures
        match launch_mechanism(daemon_pid, manager_pid) {
            Ok(mechanism) => r == Ok::<InitialLaunchMechanism, Fault>(mechanism),
            Err(message) => r matches Err(fault) && fault@ == seq![message],
        },
{
    match (daemon_pid, manager_pid) {
        (None, None) => Ok(InitialLaunchMechanism::Stopped),
        (Some(_), None) => Ok(InitialLaunchMechanism::Detached),
        (None, Some(manager)) => Err(
            Fault::from_text(
                join3(
                    "service manager reports daemon PID ",
                    decimal_text(manager as u64).as_str(),
                    ", but no process owns the authoritative PID identity",
                ),
            ),
        ),
        (Some(pid), Some(manager)) => if pid == manager {
            Ok(InitialLaunchMechanism::ServiceManager)
        } else {
            Err(
                Fault::from_text(
                    join2(
                        join4(
                            "service manager owns PID ",
                            decimal_text(manager as u64).as_str(),
                            ", while authoritative daemon PID ",
                            decimal_text(pid as u64).as_str(),
                        ).as_str(),
                        " belongs to a different generation",
                    ),
                ),
            )
        },
    }
}

/// Whether the daemon that was found may have been asked to stop.
#[derive(Clone, Copy, Debug, PartialEq, Eq, Structural)]
pub enum InitialGenerationStopState {
    NotRequested,
    MayHaveBeenRequested,
}

impl InitialGenerationStopState {
    /// Whether a generation that is still seen can be taken for one that stays.
    pub fn can_reuse_observed_generation(self) -> (r: bool)
        ensures
            r == (self is NotRequested),
    {
        self == InitialGenerationStopState::NotRequested
    }

    /// Records a request: it counts once it was issued, and only then.
    pub fn record_issued<T>(&mut self, request: Result<T, Fault>) -> (r: Result<T, Fault>)
        ensures
            r == request,
            *final(self) == (if request is Ok {
                InitialGenerationStopState::MayHaveBeenRequested
            } else {
                *old(self)
            }),
    {
        match request {
            Ok(issued) => {
                *self = InitialGenerationStopState::MayHaveBeenRequested;
                Ok(issued)
            },
            Err(fault) => Err(fault),
        }
    }
}

/// How far an uninstallation inside the boundary has come.
#[derive(Clone, Copy, Debug, PartialEq, Eq, Structural)]
pub enum InstallerUninstallState {
    NotApplied,
    AppliedPendingVerification,
    Ready,
}

impl InstallerUninstallState {
    /// Whether the service was removed.
    pub fn is_applied(self) -> (r: bool)
        ensures
            r == !(self is NotApplied),
    {
        self != InstallerUninstallState::NotApplied
    }

    /// The service was removed.
    pub fn mark_applied(&mut self)
        ensures
            *final(self) == InstallerUninstallState::AppliedPendingVerification,
    {
        *self = InstallerUninstallState::AppliedPendingVerification;
    }

    /// The service was removed; then the removal is verified. A verification
    /// that fails does not take the removal back.
    pub fn record_applied_and_verify<F>(&mut self, verification: F) -> (r: Result<(), Fault>) where
        F: FnOnce() -> Result<(), Fault>,

        requires
            verification.requires(()),
        ensures
            *final(self) == InstallerUninstallState::AppliedPendingVerification,
            verification.ensures((), r),
    {
        self.mark_applied();
        verification()
    }

    /// The removal was verified.
    pub fn mark_ready(&mut self)
        requires
            *old(self) == InstallerUninstallState::AppliedPendingVerification,
        ensures
            *final(self) == InstallerUninstallState::Ready,
    {
        *self = InstallerUninstallState::Ready;
    }
}

// -- Phases --

/// Where the boundary stands.
#[derive(Clone, Copy, Debug, PartialEq, Eq, Structural)]
pub enum InstallerBoundaryPhase {
    Stopping,
    Stopped,
    ReplacementTransition,
    ReplacementFailedStopped,
    RollbackTransition,
    RollbackFailedStopped,
    UninstallTransition,
    NewReady,
    UninstallReady,
    PriorRestored,
    FinalConfirmed,
}

/// The name of a phase.
pub open spec fn phase_word(phase: InstallerBoundaryPhase) -> Seq<char> {
    match phase {
        InstallerBoundaryPhase::Stopping => "Stopping"@,
        InstallerBoundaryPhase::Stopped => "Stopped"@,
        InstallerBoundaryPhase::ReplacementTransition => "ReplacementTransition"@,
        InstallerBoundaryPhase::ReplacementFailedStopped => "ReplacementFailedStopped"@,
        InstallerBoundaryPhase::RollbackTransition => "RollbackTransition"@,
        InstallerBoundaryPhase::RollbackFailedStopped => "RollbackFailedStopped"@,
        InstallerBoundaryPhase::UninstallTransition => "UninstallTransition"@,
        InstallerBoundaryPhase::NewReady => "NewReady"@,
        InstallerBoundaryPhase::UninstallReady => "UninstallReady"@,
        InstallerBoundaryPhase::PriorRestored => "PriorRestored"@,
        InstallerBoundaryPhase::FinalConfirmed => "FinalConfirmed"@,
    }
}

/// The name of a phase.
pub fn phase_name(phase: InstallerBoundaryPhase) -> (r: &'static str)
    ensures
        r@ == phase_word(phase),
{
    match phase {
        InstallerBoundaryPhase::Stopping => "Stopping",
        InstallerBoundaryPhase::Stopped => "Stopped",
        InstallerBoundaryPhase::ReplacementTransition => "ReplacementTransition",
        InstallerBoundaryPhase::ReplacementFailedStopped => "ReplacementFailedStopped",
        InstallerBoundaryPhase::RollbackTransition => "RollbackTransition",
        InstallerBoundaryPhase::RollbackFailedStopped => "RollbackFailedStopped",
        InstallerBoundaryPhase::UninstallTransition => "UninstallTransition",
        InstallerBoundaryPhase::NewReady => "NewReady",
        InstallerBoundaryPhase::UninstallReady => "UninstallReady",
        InstallerBoundaryPhase::PriorRestored => "PriorRestored",
        InstallerBoundaryPhase::FinalConfirmed => "FinalConfirmed",
    }
}

/// What a boundary that ends too early does before it lets go.
#[derive(Clone, Copy, Debug, PartialEq, Eq, Structural)]
pub enum InstallerBoundaryFinalization {
    RestoreFailedStop,
    RestorePrior,
    ReestablishStopped,
    VerifyStopped,
    ClassifyUninstall,
    VerifyFinal,
}

/// What a boundary that ends too early does before it lets go.
pub open spec fn finalization_of(phase: InstallerBoundaryPhase) -> InstallerBoundaryFinalization {
    match phase {
        InstallerBoundaryPhase::Stopping => InstallerBoundaryFinalization::RestoreFailedStop,
        InstallerBoundaryPhase::Stopped => InstallerBoundaryFinalization::RestorePrior,
        InstallerBoundaryPhase::ReplacementTransition => {
            InstallerBoundaryFinalization::ReestablishStopped
        },
        InstallerBoundaryPhase::RollbackTransition => {
            InstallerBoundaryFinalization::ReestablishStopped
        },
        InstallerBoundaryPhase::ReplacementFailedStopped => {
            InstallerBoundaryFinalization::VerifyStopped
        },
        InstallerBoundaryPhase::RollbackFailedStopped => {
            InstallerBoundaryFinalization::VerifyStopped
        },
        InstallerBoundaryPhase::UninstallTransition => {
            InstallerBoundaryFinalization::ClassifyUninstall
        },
        InstallerBoundaryPhase::NewReady => InstallerBoundaryFinalization::VerifyFinal,
        InstallerBoundaryPhase::UninstallReady => InstallerBoundaryFinalization::VerifyFinal,
        InstallerBoundaryPhase::PriorRestored => InstallerBoundaryFinalization::VerifyFinal,
        InstallerBoundaryPhase::FinalConfirmed => InstallerBoundaryFinalization::VerifyFinal,
    }
}

/// What a boundary that ends too early does before it lets go.
pub fn installer_boundary_finalization(phase: InstallerBoundaryPhase) -> (r:
    InstallerBoundaryFinalization)
    ensures
        r == finalization_of(phase),
{
    match phase {
        InstallerBoundaryPhase::Stopping => InstallerBoundaryFinalization::RestoreFailedStop,
        InstallerBoundaryPhase::Stopped => InstallerBoundaryFinalization::RestorePrior,
        InstallerBoundaryPhase::ReplacementTransition
        | InstallerBoundaryPhase::RollbackTransition => {
            InstallerBoundaryFinalization::ReestablishStopped
        },
        InstallerBoundaryPhase::ReplacementFailedStopped
        | InstallerBoundaryPhase::RollbackFailedStopped => {
            InstallerBoundaryFinalization::VerifyStopped
        },
        InstallerBoundaryPhase::UninstallTransition => {
            InstallerBoundaryFinalization::ClassifyUninstall
        },
        InstallerBoundaryPhase::NewReady
        | InstallerBoundaryPhase::UninstallReady
        | InstallerBoundaryPhase::PriorRestored
        | InstallerBoundaryPhase::FinalConfirmed => InstallerBoundaryFinalization::VerifyFinal,
    }
}

/// Only a boundary that has not begun a transition starts the prior daemon
/// again; after a transition began, nothing is restarted.
pub proof fn law_finalization_restarts_no_failed_transition(phase: InstallerBoundaryPhase)
    ensures
        finalization_of(phase) is RestoreFailedStop <==> phase is Stopping,
        finalization_of(phase) is RestorePrior <==> phase is Stopped,
{
}

/// A line of the boundary.
pub open spec fn boundary_line(state: Seq<char>) -> Seq<char> {
    INSTALLER_DAEMON_BOUNDARY_PREFIX@ + " "@ + state
}

/// A line of the boundary.
pub fn installer_daemon_boundary_marker(state: &str) -> (r: String)
    ensures
        r@ == boundary_line(state@),
{
    join3(INSTALLER_DAEMON_BOUNDARY_PREFIX, " ", state)
}

/// Publishes a state: the phase is that of the state before its line is
/// written, so that a failed write does not hide what was already done.
pub fn publish_installer_daemon_boundary_state<W>(
    write_line: W,
    phase: &mut InstallerBoundaryPhase,
    published_phase: InstallerBoundaryPhase,
    state: &str,
) -> (r: Result<(), Fault>) where W: FnOnce(String) -> Result<(), Fault>
    requires
        forall|line: String| write_line.requires((line,)),
    ensures
        *final(phase) == published_phase,
        exists|line: String|
            line@ == boundary_line(state@) && #[trigger] write_line.ensures((line,), r),
{
    *phase = published_phase;
    let line = installer_daemon_boundary_marker(state);
    write_line(line)
}

/// The failure that stands for a panic inside the boundary.
pub fn boundary_panic(payload: Option<&str>) -> (r: Fault)
    ensures
        r@ == seq![
            "installer daemon-boundary operation panicked: "@ + (match payload {
                Some(text) => text@,
                None => "non-string panic payload"@,
            }),
        ],
{
    let text = match payload {
        Some(text) => text,
        None => "non-string panic payload",
    };
    Fault::from_text(join2("installer daemon-boundary operation panicked: ", text))
}

/// A boundary that failed is finalized once; one that did not is left alone.
pub fn finalize_installer_boundary_result<T, F>(result: Result<T, Fault>, finalize: F) -> (r: Result<
    T,
    Fault,
>) where F: FnOnce(Fault) -> Fault
    requires
        forall|fault: Fault| finalize.requires((fault,)),
    ensures
        match result {
            Ok(value) => r == Ok::<T, Fault>(value),
            Err(fault) => r matches Err(reported) && finalize.ensures((fault,), reported),
        },
{
    match result {
        Ok(value) => Ok(value),
        Err(fault) => Err(finalize(fault)),
    }
}

// -- Restoring a daemon that was stopped --

/// How a failed stop was made good.
#[derive(Debug, PartialEq, Eq)]
pub enum FailedStopRestoration {
    Exact,
    ExactWithDiagnostics(Fault),
}

/// What the restart of the prior daemon comes to, given what was said of
/// earlier observations and whether the daemon was stopped again.
pub open spec fn restart_restoration(
    restoration: Result<(), Fault>,
    diagnostics: Result<(), Fault>,
    absence: Result<(), Fault>,
    r: Result<FailedStopRestoration, Fault>,
) -> bool {
    match restoration {
        Ok(_) => match diagnostics {
            Ok(_) => r matches Ok(FailedStopRestoration::Exact),
            Err(error) => r matches Ok(FailedStopRestoration::ExactWithDiagnostics(fault))
                && fault@ == seq![
                "the exact prior daemon state was restored and remains running; historical lifecycle observation diagnostics do not authorize stopping it again"@,
            ] + error@,
        },
        Err(error) => match absence {
            Ok(_) => r matches Err(fault) && fault@ == seq![
                "the prior daemon restart failed; exact daemon absence was re-established before lifecycle authority was released"@,
            ] + error@,
            Err(stop) => r matches Err(fault) && fault@ == seq![
                "the prior daemon restart failed and exact daemon absence could not be re-established: "@
                    + joined(stop@),
            ] + error@,
        },
    }
}

/// What the restart of the prior daemon comes to. A daemon that runs again is
/// not stopped because of what was observed before; one that does not is made
/// sure to be gone.
pub fn finalize_prior_restart_restoration<Diagnostics, ReestablishAbsence>(
    restoration: Result<(), Fault>,
    diagnostics: Diagnostics,
    reestablish_absence: ReestablishAbsence,
) -> (r: Result<FailedStopRestoration, Fault>) where
    Diagnostics: FnOnce() -> Result<(), Fault>,
    ReestablishAbsence: FnOnce() -> Result<(), Fault>,

    requires
        diagnostics.requires(()),
        reestablish_absence.requires(()),
    ensures
        exists|d: Result<(), Fault>, a: Result<(), Fault>|
            (restoration is Ok ==> diagnostics.ensures((), d)) && (restoration is Err
                ==> reestablish_absence.ensures((), a)) && #[trigger] restart_restoration(
                restoration,
                d,
                a,
                r,
            ),
{
    let ghost whole = restoration;
    match restoration {
        Ok(()) => {
            let d = diagnostics();
            let ghost said = d;
            let r = match d {
                Ok(()) => Ok(FailedStopRestoration::Exact),
                Err(error) => Ok(
                    FailedStopRestoration::ExactWithDiagnostics(
                        error.within(
                            "the exact prior daemon state was restored and remains running; historical lifecycle observation diagnostics do not authorize stopping it again",
                        ),
                    ),
                ),
            };
            assert(restart_restoration(whole, said, Ok(()), r));
            r
        },
        Err(error) => {
            let a = reestablish_absence();
            let ghost gone = a;
            let r = match a {
                Ok(()) => Err(
                    error.within(
                        "the prior daemon restart failed; exact daemon absence was re-established before lifecycle authority was released",
                    ),
                ),
                Err(stop) => Err(
                    error.context(
                        join2(
                            "the prior daemon restart failed and exact daemon absence could not be re-established: ",
                            stop.detail().as_str(),
                        ),
                    ),
                ),
            };
            assert(restart_restoration(whole, Ok(()), gone, r));
            r
        },
    }
}

} // verus!
