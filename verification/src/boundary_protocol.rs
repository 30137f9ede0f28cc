//! The conversation between an installer and the process that holds the
//! daemon's lifecycle while executables are replaced.
//!
//! The holder waits for one thing at a time: that a line was written, that a
//! command came, or that a transition of the daemon was tried. Its phase says
//! what was applied, whatever becomes of the lines that report it.
use vstd::prelude::*;

use crate::boundary_phase::{
    boundary_line, installer_state_line, phase_name, phase_word, state_words, FailedStopRestoration,
    InstallerBoundaryPhase,
};
use crate::fault::{join2, join3, join4, joined, Fault};
use crate::removal::{misfit, misfit_fault};
use crate::text::{chars_of, equals, text_of, trim_back, trim_end, CharClass};

verus! {

/// A command of the installer.
#[derive(Clone, Copy, Debug, PartialEq, Eq, Structural)]
pub enum BoundaryCommand {
    New,
    Uninstall,
    Rollback,
    Finish,
    Abort,
    Release,
    Other,
}

/// The command that a word stands for.
pub open spec fn command_of(word: Seq<char>) -> BoundaryCommand {
    if word == "new"@ {
        BoundaryCommand::New
    } else if word == "uninstall"@ {
        BoundaryCommand::Uninstall
    } else if word == "rollback"@ {
        BoundaryCommand::Rollback
    } else if word == "finish"@ {
        BoundaryCommand::Finish
    } else if word == "abort"@ {
        BoundaryCommand::Abort
    } else if word == "release"@ {
        BoundaryCommand::Release
    } else {
        BoundaryCommand::Other
    }
}

/// The command that a word stands for.
pub fn read_boundary_command(word: &[char]) -> (r: BoundaryCommand)
    ensures
        r == command_of(word@),
{
    if equals(word, "new") {
        BoundaryCommand::New
    } else if equals(word, "uninstall") {
        BoundaryCommand::Uninstall
    } else if equals(word, "rollback") {
        BoundaryCommand::Rollback
    } else if equals(word, "finish") {
        BoundaryCommand::Finish
    } else if equals(word, "abort") {
        BoundaryCommand::Abort
    } else if equals(word, "release") {
        BoundaryCommand::Release
    } else {
        BoundaryCommand::Other
    }
}

/// A state that the holder reports.
#[derive(Clone, Copy, Debug, PartialEq, Eq, Structural)]
pub enum BoundaryMarker {
    Ready,
    NewReady,
    NewFailed,
    NewStopped,
    OldRestored,
    OldFailed,
    UninstallReady,
    UninstallFailed,
    FinalConfirmed,
    AuthorityReleased,
}

/// What the holder knows from the beginning.
#[derive(Clone, Copy, Debug, PartialEq, Eq)]
pub struct BoundaryContext<'a> {
    pub initially_running: bool,
    pub service_installed: bool,
    /// Whether the initial and the replacement executable are the same path.
    pub uninstall_paths_match: bool,
    pub ready_nonce: Option<&'a str>,
}

/// The words of a state.
pub open spec fn marker_words(context: BoundaryContext, marker: BoundaryMarker) -> Seq<char> {
    match marker {
        BoundaryMarker::Ready => match context.ready_nonce {
            Some(nonce) => "ready "@ + nonce@ + " "@ + state_words(
                context.initially_running,
                context.service_installed,
            ),
            None => "ready "@ + state_words(context.initially_running, context.service_installed),
        },
        BoundaryMarker::NewReady => "new state ready"@,
        BoundaryMarker::NewFailed => "new state failed"@,
        BoundaryMarker::NewStopped => "new state stopped"@,
        BoundaryMarker::OldRestored => "old state restored"@,
        BoundaryMarker::OldFailed => "old state failed"@,
        BoundaryMarker::UninstallReady => "uninstall state ready"@,
        BoundaryMarker::UninstallFailed => "uninstall state failed"@,
        BoundaryMarker::FinalConfirmed => "final state confirmed"@,
        BoundaryMarker::AuthorityReleased => "lifecycle authority released"@,
    }
}

/// The line that reports a state.
pub fn marker_line(context: &BoundaryContext, marker: BoundaryMarker) -> (r: String)
    ensures
        r@ == boundary_line(marker_words(*context, marker)),
{
    let words = match marker {
        BoundaryMarker::Ready => {
            let state = installer_state_line(context.initially_running, context.service_installed);
            match context.ready_nonce {
                Some(nonce) => join4("ready ", nonce, " ", state),
                None => join2("ready ", state),
            }
        },
        BoundaryMarker::NewReady => "new state ready".to_owned(),
        BoundaryMarker::NewFailed => "new state failed".to_owned(),
        BoundaryMarker::NewStopped => "new state stopped".to_owned(),
        BoundaryMarker::OldRestored => "old state restored".to_owned(),
        BoundaryMarker::OldFailed => "old state failed".to_owned(),
        BoundaryMarker::UninstallReady => "uninstall state ready".to_owned(),
        BoundaryMarker::UninstallFailed => "uninstall state failed".to_owned(),
        BoundaryMarker::FinalConfirmed => "final state confirmed".to_owned(),
        BoundaryMarker::AuthorityReleased => "lifecycle authority released".to_owned(),
    };
    crate::boundary_phase::installer_daemon_boundary_marker(words.as_str())
}

/// What an uninstallation inside the boundary came to.
#[derive(Debug, PartialEq, Eq)]
pub enum InstallerUninstallTransition {
    Ready,
    RestoredStopped(Fault),
}

/// What a rollback inside the boundary came to.
#[derive(Debug, PartialEq, Eq)]
pub enum InstallerRollbackTransition {
    Restored,
    FailedStopped(Fault),
}

/// What the holder waits for.
#[derive(Debug, PartialEq, Eq)]
pub enum BoundaryStage {
    /// That a state is reported; after the last one the boundary ends.
    Publish { marker: BoundaryMarker, last: bool },
    /// The next command.
    ReadCommand,
    /// Starting the replacement.
    RestartReplacement,
    /// Making sure that no daemon runs after the replacement failed to start.
    ReestablishAbsence(Fault),
    /// Removing the service.
    PrepareUninstall,
    /// Bringing the prior daemon back.
    RestorePrior,
    /// Verifying the final state, to confirm it.
    ConfirmFinal,
    /// Stopping a replacement that was confirmed or not.
    StopReplacement,
    /// Verifying the final state, to let go.
    VerifyRelease,
}

/// What the holder was given.
#[derive(Debug, PartialEq, Eq)]
pub enum BoundaryReply {
    /// Whether a line was written, or a transition succeeded.
    Outcome(Result<(), Fault>),
    /// A command line; none where the installer is gone.
    Command(Result<Option<String>, Fault>),
    Uninstall(Result<InstallerUninstallTransition, Fault>),
    Rollback(Result<InstallerRollbackTransition, Fault>),
}

/// What the holder does next. A failure that does not end the boundary is
/// reported beside it.
#[derive(Debug, PartialEq, Eq)]
pub enum BoundaryStep {
    Await { stage: BoundaryStage, diagnostic: Option<String> },
    Finished(Result<(), Fault>),
}

/// The holder goes on without a diagnostic.
pub open spec fn goes_on(step: BoundaryStep, stage: BoundaryStage) -> bool {
    step == (BoundaryStep::Await { stage, diagnostic: None })
}

/// The holder reports a failure and goes on.
pub open spec fn goes_on_after(step: BoundaryStep, stage: BoundaryStage, said: Seq<char>) -> bool {
    step matches BoundaryStep::Await { stage: next, diagnostic: Some(text) } && next == stage
        && text@ == said
}

/// The boundary ends with a failure.
pub open spec fn boundary_fails(step: BoundaryStep, messages: Seq<Seq<char>>) -> bool {
    step matches BoundaryStep::Finished(Err(fault)) && fault@ == messages
}

/// What a command calls for in a phase: the next phase and stage, or why it is
/// refused.
pub open spec fn commanded(
    context: BoundaryContext,
    phase: InstallerBoundaryPhase,
    word: Seq<char>,
) -> Result<(InstallerBoundaryPhase, BoundaryStage), Seq<char>> {
    match (command_of(word), phase) {
        (BoundaryCommand::New, InstallerBoundaryPhase::Stopped) => Ok(
            (InstallerBoundaryPhase::ReplacementTransition, BoundaryStage::RestartReplacement),
        ),
        (BoundaryCommand::Uninstall, InstallerBoundaryPhase::Stopped) => {
            if context.uninstall_paths_match {
                Ok((InstallerBoundaryPhase::UninstallTransition, BoundaryStage::PrepareUninstall))
            } else {
                Err(
                    "installer uninstall requires identical initial and replacement executable paths"@,
                )
            }
        },
        (BoundaryCommand::Rollback, InstallerBoundaryPhase::Stopped) => Ok(
            (InstallerBoundaryPhase::RollbackTransition, BoundaryStage::RestorePrior),
        ),
        (BoundaryCommand::Rollback, InstallerBoundaryPhase::ReplacementFailedStopped) => Ok(
            (InstallerBoundaryPhase::RollbackTransition, BoundaryStage::RestorePrior),
        ),
        (BoundaryCommand::Finish, InstallerBoundaryPhase::NewReady) => Ok(
            (InstallerBoundaryPhase::ReplacementTransition, BoundaryStage::ConfirmFinal),
        ),
        (BoundaryCommand::Finish, InstallerBoundaryPhase::UninstallReady) => Ok(
            (InstallerBoundaryPhase::UninstallReady, BoundaryStage::ConfirmFinal),
        ),
        (BoundaryCommand::Abort, InstallerBoundaryPhase::NewReady) => Ok(
            (InstallerBoundaryPhase::ReplacementTransition, BoundaryStage::StopReplacement),
        ),
        (BoundaryCommand::Abort, InstallerBoundaryPhase::FinalConfirmed) => Ok(
            (InstallerBoundaryPhase::ReplacementTransition, BoundaryStage::StopReplacement),
        ),
        (BoundaryCommand::Release, InstallerBoundaryPhase::FinalConfirmed) => Ok(
            (InstallerBoundaryPhase::FinalConfirmed, BoundaryStage::VerifyRelease),
        ),
        _ => Err(
            "invalid installer daemon-boundary command '"@ + word
                + "' for the current transaction phase"@,
        ),
    }
}

/// Reporting a state.
pub open spec fn publishing(marker: BoundaryMarker) -> BoundaryStage {
    BoundaryStage::Publish {
        marker,
        last: marker is OldRestored || marker is AuthorityReleased,
    }
}

/// What the holder does next, and the phase it is in then.
pub open spec fn boundary_next(
    context: BoundaryContext,
    before: InstallerBoundaryPhase,
    stage: BoundaryStage,
    reply: BoundaryReply,
    after: InstallerBoundaryPhase,
    step: BoundaryStep,
) -> bool {
    match (stage, reply) {
        (BoundaryStage::Publish { last, .. }, BoundaryReply::Outcome(Ok(_))) => after == before
            && (if last {
            step == BoundaryStep::Finished(Ok(()))
        } else {
            goes_on(step, BoundaryStage::ReadCommand)
        }),
        (BoundaryStage::Publish { .. }, BoundaryReply::Outcome(Err(error))) => after == before
            && boundary_fails(step, error@),
        (BoundaryStage::ReadCommand, BoundaryReply::Command(Err(error))) => after == before
            && boundary_fails(step, seq!["reading installer daemon-boundary command"@] + error@),
        (BoundaryStage::ReadCommand, BoundaryReply::Command(Ok(None))) => after == before
            && boundary_fails(
            step,
            seq![
                "installer daemon-boundary control channel closed before an explicit final state acknowledgement"@,
            ],
        ),
        (BoundaryStage::ReadCommand, BoundaryReply::Command(Ok(Some(line)))) => match commanded(
            context,
            before,
            trim_back(line@, CharClass::LineEnd),
        ) {
            Ok((phase, stage)) => after == phase && goes_on(step, stage),
            Err(message) => after == before && boundary_fails(step, seq![message]),
        },
        (BoundaryStage::RestartReplacement, BoundaryReply::Outcome(Ok(_))) => after
            == InstallerBoundaryPhase::NewReady && goes_on(
            step,
            publishing(BoundaryMarker::NewReady),
        ),
        (BoundaryStage::RestartReplacement, BoundaryReply::Outcome(Err(error))) => after == before
            && goes_on(step, BoundaryStage::ReestablishAbsence(error)),
        (BoundaryStage::ReestablishAbsence(cause), BoundaryReply::Outcome(Ok(_))) => after
            == InstallerBoundaryPhase::ReplacementFailedStopped && goes_on_after(
            step,
            publishing(BoundaryMarker::NewFailed),
            "Error: replacement daemon start failed and daemon absence was re-established: "@
                + joined(cause@),
        ),
        (BoundaryStage::ReestablishAbsence(cause), BoundaryReply::Outcome(Err(error))) => after
            == before && boundary_fails(
            step,
            seq![
                "replacement daemon start failed and daemon absence could not be re-established: "@
                    + joined(error@),
            ] + cause@,
        ),
        (BoundaryStage::PrepareUninstall, BoundaryReply::Uninstall(Err(error))) => after == before
            && boundary_fails(step, error@),
        (
            BoundaryStage::PrepareUninstall,
            BoundaryReply::Uninstall(Ok(InstallerUninstallTransition::Ready)),
        ) => after == InstallerBoundaryPhase::UninstallReady && goes_on(
            step,
            publishing(BoundaryMarker::UninstallReady),
        ),
        (
            BoundaryStage::PrepareUninstall,
            BoundaryReply::Uninstall(Ok(InstallerUninstallTransition::RestoredStopped(error))),
        ) => after == InstallerBoundaryPhase::Stopped && goes_on_after(
            step,
            publishing(BoundaryMarker::UninstallFailed),
            "Error: service uninstall failed; its exact definition was restored stopped and daemon absence remains held: "@
                + joined(error@),
        ),
        (BoundaryStage::RestorePrior, BoundaryReply::Rollback(Err(error))) => after == before
            && boundary_fails(step, error@),
        (
            BoundaryStage::RestorePrior,
            BoundaryReply::Rollback(Ok(InstallerRollbackTransition::Restored)),
        ) => after == InstallerBoundaryPhase::PriorRestored && goes_on(
            step,
            publishing(BoundaryMarker::OldRestored),
        ),
        (
            BoundaryStage::RestorePrior,
            BoundaryReply::Rollback(Ok(InstallerRollbackTransition::FailedStopped(error))),
        ) => after == InstallerBoundaryPhase::RollbackFailedStopped && goes_on_after(
            step,
            publishing(BoundaryMarker::OldFailed),
            "Error: original daemon restart failed and daemon absence was re-established: "@
                + joined(error@),
        ),
        (BoundaryStage::ConfirmFinal, BoundaryReply::Outcome(Ok(_))) => after
            == InstallerBoundaryPhase::FinalConfirmed && goes_on(
            step,
            publishing(BoundaryMarker::FinalConfirmed),
        ),
        (BoundaryStage::StopReplacement, BoundaryReply::Outcome(Ok(_))) => after
            == InstallerBoundaryPhase::ReplacementFailedStopped && goes_on(
            step,
            publishing(BoundaryMarker::NewStopped),
        ),
        (BoundaryStage::VerifyRelease, BoundaryReply::Outcome(Ok(_))) => after
            == InstallerBoundaryPhase::FinalConfirmed && goes_on(
            step,
            publishing(BoundaryMarker::AuthorityReleased),
        ),
        (BoundaryStage::ConfirmFinal, BoundaryReply::Outcome(Err(error))) => after == before
            && boundary_fails(step, error@),
        (BoundaryStage::StopReplacement, BoundaryReply::Outcome(Err(error))) => after == before
            && boundary_fails(step, error@),
        (BoundaryStage::VerifyRelease, BoundaryReply::Outcome(Err(error))) => after == before
            && boundary_fails(step, error@),
        _ => after == before && boundary_fails(step, misfit()),
    }
}

fn on_to(stage: BoundaryStage) -> (r: BoundaryStep)
    ensures
        goes_on(r, stage),
{
    BoundaryStep::Await { stage, diagnostic: None }
}

fn on_after(stage: BoundaryStage, said: String) -> (r: BoundaryStep)
    ensures
        goes_on_after(r, stage, said@),
{
    BoundaryStep::Await { stage, diagnostic: Some(said) }
}

fn publish(marker: BoundaryMarker) -> (r: BoundaryStage)
    ensures
        r == publishing(marker),
{
    let last = marker == BoundaryMarker::OldRestored || marker == BoundaryMarker::AuthorityReleased;
    BoundaryStage::Publish { marker, last }
}

fn fail(fault: Fault) -> (r: BoundaryStep)
    ensures
        boundary_fails(r, fault@),
{
    BoundaryStep::Finished(Err(fault))
}

/// What a command calls for in a phase.
fn obey(context: &BoundaryContext, phase: &mut InstallerBoundaryPhase, line: &str) -> (r:
    BoundaryStep)
    ensures
        match commanded(*context, *old(phase), trim_back(line@, CharClass::LineEnd)) {
            Ok((next, stage)) => *final(phase) == next && goes_on(r, stage),
            Err(message) => *final(phase) == *old(phase) && boundary_fails(r, seq![message]),
        },
{
    let chars = chars_of(line);
    let word = trim_end(chars.as_slice(), CharClass::LineEnd);
    let now = *phase;
    match (read_boundary_command(word), now) {
        (BoundaryCommand::New, InstallerBoundaryPhase::Stopped) => {
            *phase = InstallerBoundaryPhase::ReplacementTransition;
            on_to(BoundaryStage::RestartReplacement)
        },
        (BoundaryCommand::Uninstall, InstallerBoundaryPhase::Stopped) => {
            if context.uninstall_paths_match {
                *phase = InstallerBoundaryPhase::UninstallTransition;
                on_to(BoundaryStage::PrepareUninstall)
            } else {
                fail(
                    Fault::of(
                        "installer uninstall requires identical initial and replacement executable paths",
                    ),
                )
            }
        },
        (BoundaryCommand::Rollback, InstallerBoundaryPhase::Stopped)
        | (BoundaryCommand::Rollback, InstallerBoundaryPhase::ReplacementFailedStopped) => {
            *phase = InstallerBoundaryPhase::RollbackTransition;
            on_to(BoundaryStage::RestorePrior)
        },
        (BoundaryCommand::Finish, InstallerBoundaryPhase::NewReady) => {
            *phase = InstallerBoundaryPhase::ReplacementTransition;
            on_to(BoundaryStage::ConfirmFinal)
        },
        (BoundaryCommand::Finish, InstallerBoundaryPhase::UninstallReady) => on_to(
            BoundaryStage::ConfirmFinal,
        ),
        (BoundaryCommand::Abort, InstallerBoundaryPhase::NewReady)
        | (BoundaryCommand::Abort, InstallerBoundaryPhase::FinalConfirmed) => {
            *phase = InstallerBoundaryPhase::ReplacementTransition;
            on_to(BoundaryStage::StopReplacement)
        },
        (BoundaryCommand::Release, InstallerBoundaryPhase::FinalConfirmed) => on_to(
            BoundaryStage::VerifyRelease,
        ),
        _ => fail(
            Fault::from_text(
                join3(
                    "invalid installer daemon-boundary command '",
                    text_of(word).as_str(),
                    "' for the current transaction phase",
                ),
            ),
        ),
    }
}

/// How the conversation begins: the daemon is stopped, and that is reported.
pub fn begin_installer_daemon_boundary(phase: &mut InstallerBoundaryPhase) -> (r: BoundaryStage)
    ensures
        *final(phase) == InstallerBoundaryPhase::Stopped,
        r == publishing(BoundaryMarker::Ready),
{
    *phase = InstallerBoundaryPhase::Stopped;
    publish(BoundaryMarker::Ready)
}

/// What the holder does next.
pub fn run_installer_daemon_boundary_protocol(
    context: &BoundaryContext,
    phase: &mut InstallerBoundaryPhase,
    stage: BoundaryStage,
    reply: BoundaryReply,
) -> (r: BoundaryStep)
    ensures
        boundary_next(*context, *old(phase), stage, reply, *final(phase), r),
{
    match (stage, reply) {
        (BoundaryStage::Publish { marker: _, last }, BoundaryReply::Outcome(Ok(()))) => {
            if last {
                BoundaryStep::Finished(Ok(()))
            } else {
                on_to(BoundaryStage::ReadCommand)
            }
        },
        (BoundaryStage::Publish { marker: _, last: _ }, BoundaryReply::Outcome(Err(error))) => {
            fail(error)
        },
        (BoundaryStage::ReadCommand, BoundaryReply::Command(Err(error))) => fail(
            error.within("reading installer daemon-boundary command"),
        ),
        (BoundaryStage::ReadCommand, BoundaryReply::Command(Ok(None))) => fail(
            Fault::of(
                "installer daemon-boundary control channel closed before an explicit final state acknowledgement",
            ),
        ),
        (BoundaryStage::ReadCommand, BoundaryReply::Command(Ok(Some(line)))) => obey(
            context,
            phase,
            line.as_str(),
        ),
        (BoundaryStage::RestartReplacement, BoundaryReply::Outcome(Ok(()))) => {
            *phase = InstallerBoundaryPhase::NewReady;
            on_to(publish(BoundaryMarker::NewReady))
        },
        (BoundaryStage::RestartReplacement, BoundaryReply::Outcome(Err(error))) => on_to(
            BoundaryStage::ReestablishAbsence(error),
        ),
        (BoundaryStage::ReestablishAbsence(cause), BoundaryReply::Outcome(Ok(()))) => {
            *phase = InstallerBoundaryPhase::ReplacementFailedStopped;
            on_after(
                publish(BoundaryMarker::NewFailed),
                join2(
                    "Error: replacement daemon start failed and daemon absence was re-established: ",
                    cause.detail().as_str(),
                ),
            )
        },
        (BoundaryStage::ReestablishAbsence(cause), BoundaryReply::Outcome(Err(error))) => fail(
            cause.context(
                join2(
                    "replacement daemon start failed and daemon absence could not be re-established: ",
                    error.detail().as_str(),
                ),
            ),
        ),
        (BoundaryStage::PrepareUninstall, BoundaryReply::Uninstall(Err(error))) => fail(error),
        (
            BoundaryStage::PrepareUninstall,
            BoundaryReply::Uninstall(Ok(InstallerUninstallTransition::Ready)),
        ) => {
            *phase = InstallerBoundaryPhase::UninstallReady;
            on_to(publish(BoundaryMarker::UninstallReady))
        },
        (
            BoundaryStage::PrepareUninstall,
            BoundaryReply::Uninstall(Ok(InstallerUninstallTransition::RestoredStopped(error))),
        ) => {
            *phase = InstallerBoundaryPhase::Stopped;
            on_after(
                publish(BoundaryMarker::UninstallFailed),
                join2(
                    "Error: service uninstall failed; its exact definition was restored stopped and daemon absence remains held: ",
                    error.detail().as_str(),
                ),
            )
        },
        (BoundaryStage::RestorePrior, BoundaryReply::Rollback(Err(error))) => fail(error),
        (
            BoundaryStage::RestorePrior,
            BoundaryReply::Rollback(Ok(InstallerRollbackTransition::Restored)),
        ) => {
            *phase = InstallerBoundaryPhase::PriorRestored;
            on_to(publish(BoundaryMarker::OldRestored))
        },
        (
            BoundaryStage::RestorePrior,
            BoundaryReply::Rollback(Ok(InstallerRollbackTransition::FailedStopped(error))),
        ) => {
            *phase = InstallerBoundaryPhase::RollbackFailedStopped;
            on_after(
                publish(BoundaryMarker::OldFailed),
                join2(
                    "Error: original daemon restart failed and daemon absence was re-established: ",
                    error.detail().as_str(),
                ),
            )
        },
        (BoundaryStage::ConfirmFinal, BoundaryReply::Outcome(Ok(()))) => {
            *phase = InstallerBoundaryPhase::FinalConfirmed;
            on_to(publish(BoundaryMarker::FinalConfirmed))
        },
        (BoundaryStage::StopReplacement, BoundaryReply::Outcome(Ok(()))) => {
            *phase = InstallerBoundaryPhase::ReplacementFailedStopped;
            on_to(publish(BoundaryMarker::NewStopped))
        },
        (BoundaryStage::VerifyRelease, BoundaryReply::Outcome(Ok(()))) => {
            *phase = InstallerBoundaryPhase::FinalConfirmed;
            on_to(publish(BoundaryMarker::AuthorityReleased))
        },
        (BoundaryStage::ConfirmFinal, BoundaryReply::Outcome(Err(error))) => fail(error),
        (BoundaryStage::StopReplacement, BoundaryReply::Outcome(Err(error))) => fail(error),
        (BoundaryStage::VerifyRelease, BoundaryReply::Outcome(Err(error))) => fail(error),
        _ => fail(misfit_fault()),
    }
}

// -- Laws --

/// The phase that goes with a state that is being reported.
pub open spec fn reported_phase(marker: BoundaryMarker) -> InstallerBoundaryPhase {
    match marker {
        BoundaryMarker::Ready => InstallerBoundaryPhase::Stopped,
        BoundaryMarker::NewReady => InstallerBoundaryPhase::NewReady,
        BoundaryMarker::NewFailed => InstallerBoundaryPhase::ReplacementFailedStopped,
        BoundaryMarker::NewStopped => InstallerBoundaryPhase::ReplacementFailedStopped,
        BoundaryMarker::OldRestored => InstallerBoundaryPhase::PriorRestored,
        BoundaryMarker::OldFailed => InstallerBoundaryPhase::RollbackFailedStopped,
        BoundaryMarker::UninstallReady => InstallerBoundaryPhase::UninstallReady,
        BoundaryMarker::UninstallFailed => InstallerBoundaryPhase::Stopped,
        BoundaryMarker::FinalConfirmed => InstallerBoundaryPhase::FinalConfirmed,
        BoundaryMarker::AuthorityReleased => InstallerBoundaryPhase::FinalConfirmed,
    }
}

/// Whether a stage is one that the phase allows.
pub open spec fn boundary_wf(phase: InstallerBoundaryPhase, stage: BoundaryStage) -> bool {
    match stage {
        BoundaryStage::Publish { marker, last } => phase == reported_phase(marker) && stage
            == publishing(marker),
        BoundaryStage::ReadCommand => !(phase is Stopping) && !(phase is ReplacementTransition)
            && !(phase is RollbackTransition) && !(phase is UninstallTransition) && !(phase is
            PriorRestored),
        BoundaryStage::RestartReplacement => phase is ReplacementTransition,
        BoundaryStage::ReestablishAbsence(_) => phase is ReplacementTransition,
        BoundaryStage::PrepareUninstall => phase is UninstallTransition,
        BoundaryStage::RestorePrior => phase is RollbackTransition,
        BoundaryStage::ConfirmFinal => phase is ReplacementTransition || phase is UninstallReady,
        BoundaryStage::StopReplacement => phase is ReplacementTransition,
        BoundaryStage::VerifyRelease => phase is FinalConfirmed,
    }
}

/// At every moment the phase says what was applied: while a state is reported
/// the phase is already that state's, and while the daemon is changed the phase
/// is one that calls for a transition to be undone.
pub proof fn law_phase_goes_with_the_stage(
    context: BoundaryContext,
    before: InstallerBoundaryPhase,
    stage: BoundaryStage,
    reply: BoundaryReply,
    after: InstallerBoundaryPhase,
    step: BoundaryStep,
)
    requires
        boundary_wf(before, stage),
        boundary_next(context, before, stage, reply, after, step),
    ensures
        step matches BoundaryStep::Await { stage: next, .. } ==> boundary_wf(after, next),
{
}

/// A line that could not be written, a command that was refused and an
/// installer that is gone leave the phase as it is.
pub proof fn law_a_lost_line_keeps_the_phase(
    context: BoundaryContext,
    before: InstallerBoundaryPhase,
    stage: BoundaryStage,
    reply: BoundaryReply,
    after: InstallerBoundaryPhase,
    step: BoundaryStep,
)
    requires
        boundary_next(context, before, stage, reply, after, step),
        step matches BoundaryStep::Finished(Err(_)),
    ensures
        after == before,
{
}

/// The boundary ends well only once the prior daemon was reported to be back,
/// or the verified final state was reported to be released.
pub proof fn law_boundary_ends_well_only_when_reported(
    context: BoundaryContext,
    before: InstallerBoundaryPhase,
    stage: BoundaryStage,
    reply: BoundaryReply,
    after: InstallerBoundaryPhase,
    step: BoundaryStep,
)
    requires
        boundary_wf(before, stage),
        boundary_next(context, before, stage, reply, after, step),
        step == BoundaryStep::Finished(Ok(())),
    ensures
        stage == publishing(BoundaryMarker::OldRestored) || stage == publishing(
            BoundaryMarker::AuthorityReleased,
        ),
        after is PriorRestored || after is FinalConfirmed,
{
}

/// A final state is confirmed, and the authority is released, only directly
/// after the final state was verified.
pub proof fn law_final_state_is_verified_first(
    context: BoundaryContext,
    before: InstallerBoundaryPhase,
    stage: BoundaryStage,
    reply: BoundaryReply,
    after: InstallerBoundaryPhase,
    step: BoundaryStep,
)
    requires
        boundary_next(context, before, stage, reply, after, step),
    ensures
        goes_on(step, publishing(BoundaryMarker::FinalConfirmed)) ==> stage is ConfirmFinal && reply
            matches BoundaryReply::Outcome(Ok(_)),
        goes_on(step, publishing(BoundaryMarker::AuthorityReleased)) ==> stage is VerifyRelease
            && reply matches BoundaryReply::Outcome(Ok(_)),
{
}

// -- A boundary that ends too early --

/// What the finalization of a boundary found. The last kind is for a final
/// state: what verifying it gave, whether an uninstallation was applied, and
/// what looking for a stopped daemon gave after that.
#[derive(Debug, PartialEq, Eq)]
pub enum FinalizationResult {
    FailedStop(Result<FailedStopRestoration, Fault>),
    Prior(Result<InstallerRollbackTransition, Fault>),
    Absence(Result<(), Fault>),
    Stopped(Result<(), Fault>),
    Uninstall(Result<UninstallBoundaryState, Fault>),
    Final { verified: Result<(), Fault>, uninstall_applied: bool, stopped: Result<(), Fault> },
}

/// What an uninstallation left behind.
#[derive(Clone, Copy, Debug, PartialEq, Eq, Structural)]
pub enum UninstallBoundaryState {
    Applied,
    PriorStopped,
}

/// What a boundary that ended too early says.
pub open spec fn finalization_report(phase: InstallerBoundaryPhase, result: FinalizationResult) -> Seq<
    char,
> {
    let during = "installer daemon-boundary protocol failed during "@ + phase_word(phase);
    let unwound = "installer daemon-boundary protocol failed or unwound during "@ + phase_word(
        phase,
    );
    match result {
        FinalizationResult::FailedStop(Ok(FailedStopRestoration::Exact)) => {
            "installer daemon-boundary stop failed or unwound; the exact prior daemon state was restored before authority was released"@
        },
        FinalizationResult::FailedStop(Ok(FailedStopRestoration::ExactWithDiagnostics(d))) => {
            "installer daemon-boundary stop failed or unwound; the exact prior daemon state was restored before authority was released, but historical lifecycle observation diagnostics remain: "@
                + joined(d@)
        },
        FinalizationResult::FailedStop(Err(error)) => {
            "installer daemon-boundary stop failed or unwound and exact prior-state restoration was incomplete: "@
                + joined(error@)
        },
        FinalizationResult::Prior(Ok(InstallerRollbackTransition::Restored)) => {
            "installer daemon-boundary protocol failed; the exact prior daemon state was restored before authority was released"@
        },
        FinalizationResult::Prior(Ok(InstallerRollbackTransition::FailedStopped(error))) => {
            "installer daemon-boundary protocol failed; prior restart also failed, but exact daemon absence was re-established before authority was released: "@
                + joined(error@)
        },
        FinalizationResult::Prior(Err(error)) => {
            "installer daemon-boundary protocol failed and exact prior-state restoration could not be classified safely: "@
                + joined(error@)
        },
        FinalizationResult::Absence(Ok(_)) => unwound
            + "; the exact observed generation was stopped and daemon absence was re-established before authority was released"@,
        FinalizationResult::Absence(Err(error)) => unwound
            + ", and exact daemon absence could not be re-established safely: "@ + joined(error@),
        FinalizationResult::Stopped(Ok(_)) => during
            + "; exact stopped service state and daemon absence were verified before authority was released"@,
        FinalizationResult::Stopped(Err(error)) => during
            + ", and the retained stopped state could not be classified safely: "@ + joined(error@),
        FinalizationResult::Uninstall(Ok(UninstallBoundaryState::Applied)) => {
            "installer daemon-boundary protocol failed during uninstall; exact service removal and daemon absence were verified before authority was released"@
        },
        FinalizationResult::Uninstall(Ok(UninstallBoundaryState::PriorStopped)) => {
            "installer daemon-boundary protocol failed during uninstall; the exact prior stopped service state and daemon absence were verified before authority was released"@
        },
        FinalizationResult::Uninstall(Err(error)) => {
            "installer daemon-boundary protocol failed during uninstall, and neither the exact prior stopped state nor the exact applied removal could be classified safely: "@
                + joined(error@)
        },
        FinalizationResult::Final { verified: Ok(_), .. } => during
            + "; its exact final daemon/service state was revalidated before authority was released"@,
        FinalizationResult::Final {
            verified: Err(error),
            uninstall_applied,
            stopped,
        } => if uninstall_applied {
            during + ", and its uninstall final state could not be classified safely: "@ + joined(
                error@,
            )
        } else {
            match stopped {
                Ok(_) => during
                    + "; final-state verification also failed, but the exact failed generation was stopped and daemon absence was re-established before authority was released: "@
                    + joined(error@),
                Err(stopped_error) => during
                    + ", final-state verification failed, and neither the final nor a safe stopped state could be classified: "@
                    + joined(error@) + "; stopped-state verification: "@ + joined(stopped_error@),
            }
        },
    }
}

/// The failure of a boundary that ended too early.
pub fn finalize_installer_boundary_error(
    phase: InstallerBoundaryPhase,
    result: FinalizationResult,
    protocol_error: Fault,
) -> (r: Fault)
    ensures
        r@ == seq![finalization_report(phase, result)] + protocol_error@,
{
    let during = join2("installer daemon-boundary protocol failed during ", phase_name(phase));
    let unwound = join2(
        "installer daemon-boundary protocol failed or unwound during ",
        phase_name(phase),
    );
    let said = match result {
        FinalizationResult::FailedStop(Ok(FailedStopRestoration::Exact)) => {
            "installer daemon-boundary stop failed or unwound; the exact prior daemon state was restored before authority was released".to_owned()
        },
        FinalizationResult::FailedStop(Ok(FailedStopRestoration::ExactWithDiagnostics(d))) => join2(
            "installer daemon-boundary stop failed or unwound; the exact prior daemon state was restored before authority was released, but historical lifecycle observation diagnostics remain: ",
            d.detail().as_str(),
        ),
        FinalizationResult::FailedStop(Err(error)) => join2(
            "installer daemon-boundary stop failed or unwound and exact prior-state restoration was incomplete: ",
            error.detail().as_str(),
        ),
        FinalizationResult::Prior(Ok(InstallerRollbackTransition::Restored)) => {
            "installer daemon-boundary protocol failed; the exact prior daemon state was restored before authority was released".to_owned()
        },
        FinalizationResult::Prior(Ok(InstallerRollbackTransition::FailedStopped(error))) => join2(
            "installer daemon-boundary protocol failed; prior restart also failed, but exact daemon absence was re-established before authority was released: ",
            error.detail().as_str(),
        ),
        FinalizationResult::Prior(Err(error)) => join2(
            "installer daemon-boundary protocol failed and exact prior-state restoration could not be classified safely: ",
            error.detail().as_str(),
        ),
        FinalizationResult::Absence(Ok(())) => join2(
            unwound.as_str(),
            "; the exact observed generation was stopped and daemon absence was re-established before authority was released",
        ),
        FinalizationResult::Absence(Err(error)) => join3(
            unwound.as_str(),
            ", and exact daemon absence could not be re-established safely: ",
            error.detail().as_str(),
        ),
        FinalizationResult::Stopped(Ok(())) => join2(
            during.as_str(),
            "; exact stopped service state and daemon absence were verified before authority was released",
        ),
        FinalizationResult::Stopped(Err(error)) => join3(
            during.as_str(),
            ", and the retained stopped state could not be classified safely: ",
            error.detail().as_str(),
        ),
        FinalizationResult::Uninstall(Ok(UninstallBoundaryState::Applied)) => {
            "installer daemon-boundary protocol failed during uninstall; exact service removal and daemon absence were verified before authority was released".to_owned()
        },
        FinalizationResult::Uninstall(Ok(UninstallBoundaryState::PriorStopped)) => {
            "installer daemon-boundary protocol failed during uninstall; the exact prior stopped service state and daemon absence were verified before authority was released".to_owned()
        },
        FinalizationResult::Uninstall(Err(error)) => join2(
            "installer daemon-boundary protocol failed during uninstall, and neither the exact prior stopped state nor the exact applied removal could be classified safely: ",
            error.detail().as_str(),
        ),
        FinalizationResult::Final { verified, uninstall_applied, stopped } => match verified {
            Ok(()) => join2(
                during.as_str(),
                "; its exact final daemon/service state was revalidated before authority was released",
            ),
            Err(error) => if uninstall_applied {
                join3(
                    during.as_str(),
                    ", and its uninstall final state could not be classified safely: ",
                    error.detail().as_str(),
                )
            } else {
                match stopped {
                    Ok(()) => join3(
                        during.as_str(),
                        "; final-state verification also failed, but the exact failed generation was stopped and daemon absence was re-established before authority was released: ",
                        error.detail().as_str(),
                    ),
                    Err(stopped_error) => join3(
                        join3(
                            during.as_str(),
                            ", final-state verification failed, and neither the final nor a safe stopped state could be classified: ",
                            error.detail().as_str(),
                        ).as_str(),
                        "; stopped-state verification: ",
                        stopped_error.detail().as_str(),
                    ),
                }
            },
        },
    };
    protocol_error.context(said)
}

} // verus!
