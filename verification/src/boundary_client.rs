//! The side of the update boundary that asks: which command it may send in
//! which phase, and what an answer means.
use vstd::prelude::*;

use crate::boundary_phase::{
    boundary_line, installer_state_line, state_words, INSTALLER_DAEMON_BOUNDARY_PREFIX,
};
use crate::fault::{headline_of, join2, join3, join4, Fault};
use crate::text::{after_prefix, chars_of, equals, owned_text, same_text, strip_prefix};

verus! {

/// What became of the replacement.
#[derive(Clone, Copy, Debug, PartialEq, Eq, Structural)]
pub enum SelfUpdateBoundaryRestart {
    Ready,
    FailedStopped,
}

/// Where the asking side stands. A transition is a command without its answer.
#[derive(Clone, Copy, Debug, PartialEq, Eq, Structural)]
pub enum SelfUpdateBoundaryClientPhase {
    Stopped,
    ReplacementTransition,
    NewReady,
    AbortTransition,
    ReplacementFailedStopped,
    RollbackTransition,
    FinishTransition,
    FinalConfirmed,
    ReleaseTransition,
    Finished,
}

/// What can be asked for.
#[derive(Clone, Copy, Debug, PartialEq, Eq, Structural)]
pub enum ClientRequest {
    RestartReplacement,
    RestorePrior,
    StopReplacement,
    VerifyReplacement,
    Release,
}

/// What an answer means.
#[derive(Clone, Copy, Debug, PartialEq, Eq, Structural)]
pub enum ClientAnswer {
    Restarted(SelfUpdateBoundaryRestart),
    Stopped,
    Verified,
    /// The holder is done: its end is waited for.
    Close,
}

/// The phases in which something may be asked for.
pub open spec fn may_ask(request: ClientRequest, phase: SelfUpdateBoundaryClientPhase) -> bool {
    match request {
        ClientRequest::RestartReplacement => phase is Stopped,
        ClientRequest::RestorePrior => phase is Stopped || phase is ReplacementFailedStopped,
        ClientRequest::StopReplacement => phase is NewReady || phase is FinalConfirmed,
        ClientRequest::VerifyReplacement => phase is NewReady,
        ClientRequest::Release => phase is FinalConfirmed,
    }
}

/// Why something may not be asked for.
pub open spec fn unaskable(request: ClientRequest) -> Seq<char> {
    match request {
        ClientRequest::RestartReplacement => {
            "self-update lifecycle holder was not at its stopped boundary"@
        },
        ClientRequest::RestorePrior => {
            "self-update lifecycle holder was not at a rollback-safe boundary"@
        },
        ClientRequest::StopReplacement => {
            "self-update lifecycle holder has no verified replacement generation to stop"@
        },
        ClientRequest::VerifyReplacement => {
            "self-update lifecycle holder has no verified replacement to finish"@
        },
        ClientRequest::Release => {
            "self-update lifecycle holder has not verified the replacement commit boundary"@
        },
    }
}

/// The word that asks for something.
pub open spec fn request_word(request: ClientRequest) -> Seq<char> {
    match request {
        ClientRequest::RestartReplacement => "new"@,
        ClientRequest::RestorePrior => "rollback"@,
        ClientRequest::StopReplacement => "abort"@,
        ClientRequest::VerifyReplacement => "finish"@,
        ClientRequest::Release => "release"@,
    }
}

/// The phase between a command and its answer.
pub open spec fn transition_of(request: ClientRequest) -> SelfUpdateBoundaryClientPhase {
    match request {
        ClientRequest::RestartReplacement => SelfUpdateBoundaryClientPhase::ReplacementTransition,
        ClientRequest::RestorePrior => SelfUpdateBoundaryClientPhase::RollbackTransition,
        ClientRequest::StopReplacement => SelfUpdateBoundaryClientPhase::AbortTransition,
        ClientRequest::VerifyReplacement => SelfUpdateBoundaryClientPhase::FinishTransition,
        ClientRequest::Release => SelfUpdateBoundaryClientPhase::ReleaseTransition,
    }
}

/// The phase after an answer, and what the answer means; a failure in words
/// where it means one.
pub open spec fn answered(request: ClientRequest, marker: Seq<char>) -> (
    SelfUpdateBoundaryClientPhase,
    Result<ClientAnswer, Seq<char>>,
) {
    match request {
        ClientRequest::RestartReplacement => if marker == boundary_line("new state ready"@) {
            (
                SelfUpdateBoundaryClientPhase::NewReady,
                Ok(ClientAnswer::Restarted(SelfUpdateBoundaryRestart::Ready)),
            )
        } else if marker == boundary_line("new state failed"@) {
            (
                SelfUpdateBoundaryClientPhase::ReplacementFailedStopped,
                Ok(ClientAnswer::Restarted(SelfUpdateBoundaryRestart::FailedStopped)),
            )
        } else {
            (
                transition_of(request),
                Err(
                    "self-update lifecycle holder returned an unexpected replacement marker: "@
                        + marker,
                ),
            )
        },
        ClientRequest::RestorePrior => if marker == boundary_line("old state restored"@) {
            (SelfUpdateBoundaryClientPhase::Finished, Ok(ClientAnswer::Close))
        } else if marker == boundary_line("old state failed"@) {
            (
                SelfUpdateBoundaryClientPhase::ReplacementFailedStopped,
                Err(
                    "self-update lifecycle holder could not restart the exact prior daemon; it retained and verified daemon absence"@,
                ),
            )
        } else {
            (
                transition_of(request),
                Err(
                    "self-update lifecycle holder returned an unexpected rollback marker: "@
                        + marker,
                ),
            )
        },
        ClientRequest::StopReplacement => if marker == boundary_line("new state stopped"@) {
            (SelfUpdateBoundaryClientPhase::ReplacementFailedStopped, Ok(ClientAnswer::Stopped))
        } else {
            (
                transition_of(request),
                Err("self-update lifecycle holder returned an unexpected abort marker: "@ + marker),
            )
        },
        ClientRequest::VerifyReplacement => if marker == boundary_line("final state confirmed"@) {
            (SelfUpdateBoundaryClientPhase::FinalConfirmed, Ok(ClientAnswer::Verified))
        } else {
            (
                transition_of(request),
                Err("self-update lifecycle holder returned an unexpected final marker: "@ + marker),
            )
        },
        ClientRequest::Release => if marker == boundary_line("lifecycle authority released"@) {
            (SelfUpdateBoundaryClientPhase::Finished, Ok(ClientAnswer::Close))
        } else {
            (
                transition_of(request),
                Err(
                    "self-update lifecycle holder returned an unexpected release marker: "@
                        + marker,
                ),
            )
        },
    }
}

/// Whether a line reports a state.
fn reports(marker: &str, state: &str) -> (r: bool)
    ensures
        r == (marker@ == boundary_line(state@)),
{
    same_text(marker, join3(INSTALLER_DAEMON_BOUNDARY_PREFIX, " ", state).as_str())
}

fn unexpected(what: &str, marker: &str) -> (r: Result<ClientAnswer, Fault>)
    ensures
        r matches Err(fault) && fault@ == seq![what@ + marker@],
{
    Err(Fault::from_text(join2(what, marker)))
}

/// The asking side of the boundary.
#[derive(Debug, PartialEq, Eq)]
pub struct SelfUpdateDaemonBoundaryClient {
    pub phase: SelfUpdateBoundaryClientPhase,
}

impl SelfUpdateDaemonBoundaryClient {
    /// Whether the phase is between a command and its answer.
    pub open spec fn ambiguous(self) -> bool {
        self.phase is ReplacementTransition || self.phase is AbortTransition || self.phase is
            RollbackTransition || self.phase is FinishTransition || self.phase is ReleaseTransition
    }

    /// The side that was told that the daemon is stopped.
    pub fn started() -> (r: Self)
        ensures
            r.phase is Stopped,
    {
        SelfUpdateDaemonBoundaryClient { phase: SelfUpdateBoundaryClientPhase::Stopped }
    }

    /// Asks for something: the word to send. From then on the state is open
    /// until the answer comes.
    pub fn ask(&mut self, request: ClientRequest) -> (r: Result<&'static str, Fault>)
        ensures
            if may_ask(request, old(self).phase) {
                r matches Ok(word) && word@ == request_word(request) && final(self).phase
                    == transition_of(request)
            } else {
                r matches Err(fault) && fault@ == seq![unaskable(request)] && *final(self)
                    == *old(self)
            },
    {
        let now = self.phase;
        match request {
            ClientRequest::RestartReplacement => {
                if now != SelfUpdateBoundaryClientPhase::Stopped {
                    return Err(
                        Fault::of("self-update lifecycle holder was not at its stopped boundary"),
                    );
                }
                self.phase = SelfUpdateBoundaryClientPhase::ReplacementTransition;
                Ok("new")
            },
            ClientRequest::RestorePrior => {
                if now != SelfUpdateBoundaryClientPhase::Stopped && now
                    != SelfUpdateBoundaryClientPhase::ReplacementFailedStopped {
                    return Err(
                        Fault::of(
                            "self-update lifecycle holder was not at a rollback-safe boundary",
                        ),
                    );
                }
                self.phase = SelfUpdateBoundaryClientPhase::RollbackTransition;
                Ok("rollback")
            },
            ClientRequest::StopReplacement => {
                if now != SelfUpdateBoundaryClientPhase::NewReady && now
                    != SelfUpdateBoundaryClientPhase::FinalConfirmed {
                    return Err(
                        Fault::of(
                            "self-update lifecycle holder has no verified replacement generation to stop",
                        ),
                    );
                }
                self.phase = SelfUpdateBoundaryClientPhase::AbortTransition;
                Ok("abort")
            },
            ClientRequest::VerifyReplacement => {
                if now != SelfUpdateBoundaryClientPhase::NewReady {
                    return Err(
                        Fault::of(
                            "self-update lifecycle holder has no verified replacement to finish",
                        ),
                    );
                }
                self.phase = SelfUpdateBoundaryClientPhase::FinishTransition;
                Ok("finish")
            },
            ClientRequest::Release => {
                if now != SelfUpdateBoundaryClientPhase::FinalConfirmed {
                    return Err(
                        Fault::of(
                            "self-update lifecycle holder has not verified the replacement commit boundary",
                        ),
                    );
                }
                self.phase = SelfUpdateBoundaryClientPhase::ReleaseTransition;
                Ok("release")
            },
        }
    }

    /// Takes the answer to what was asked for.
    pub fn answer(&mut self, request: ClientRequest, marker: &str) -> (r: Result<
        ClientAnswer,
        Fault,
    >)
        requires
            old(self).phase == transition_of(request),
        ensures
            final(self).phase == answered(request, marker@).0,
            match answered(request, marker@).1 {
                Ok(meaning) => r == Ok::<ClientAnswer, Fault>(meaning),
                Err(message) => r matches Err(fault) && fault@ == seq![message],
            },
    {
        match request {
            ClientRequest::RestartReplacement => {
                if reports(marker, "new state ready") {
                    self.phase = SelfUpdateBoundaryClientPhase::NewReady;
                    Ok(ClientAnswer::Restarted(SelfUpdateBoundaryRestart::Ready))
                } else if reports(marker, "new state failed") {
                    self.phase = SelfUpdateBoundaryClientPhase::ReplacementFailedStopped;
                    Ok(ClientAnswer::Restarted(SelfUpdateBoundaryRestart::FailedStopped))
                } else {
                    unexpected(
                        "self-update lifecycle holder returned an unexpected replacement marker: ",
                        marker,
                    )
                }
            },
            ClientRequest::RestorePrior => {
                if reports(marker, "old state restored") {
                    self.phase = SelfUpdateBoundaryClientPhase::Finished;
                    Ok(ClientAnswer::Close)
                } else if reports(marker, "old state failed") {
                    self.phase = SelfUpdateBoundaryClientPhase::ReplacementFailedStopped;
                    Err(
                        Fault::of(
                            "self-update lifecycle holder could not restart the exact prior daemon; it retained and verified daemon absence",
                        ),
                    )
                } else {
                    unexpected(
                        "self-update lifecycle holder returned an unexpected rollback marker: ",
                        marker,
                    )
                }
            },
            ClientRequest::StopReplacement => {
                if reports(marker, "new state stopped") {
                    self.phase = SelfUpdateBoundaryClientPhase::ReplacementFailedStopped;
                    Ok(ClientAnswer::Stopped)
                } else {
                    unexpected(
                        "self-update lifecycle holder returned an unexpected abort marker: ",
                        marker,
                    )
                }
            },
            ClientRequest::VerifyReplacement => {
                if reports(marker, "final state confirmed") {
                    self.phase = SelfUpdateBoundaryClientPhase::FinalConfirmed;
                    Ok(ClientAnswer::Verified)
                } else {
                    unexpected(
                        "self-update lifecycle holder returned an unexpected final marker: ",
                        marker,
                    )
                }
            },
            ClientRequest::Release => {
                if reports(marker, "lifecycle authority released") {
                    self.phase = SelfUpdateBoundaryClientPhase::Finished;
                    Ok(ClientAnswer::Close)
                } else {
                    unexpected(
                        "self-update lifecycle holder returned an unexpected release marker: ",
                        marker,
                    )
                }
            },
        }
    }

    /// Whether a replacement runs.
    pub fn replacement_is_running(&self) -> (r: bool)
        ensures
            r == (self.phase is NewReady || self.phase is FinalConfirmed),
    {
        self.phase == SelfUpdateBoundaryClientPhase::NewReady || self.phase
            == SelfUpdateBoundaryClientPhase::FinalConfirmed
    }

    /// Whether the replacement was verified for good.
    pub fn replacement_is_finally_verified(&self) -> (r: bool)
        ensures
            r == (self.phase is FinalConfirmed),
    {
        self.phase == SelfUpdateBoundaryClientPhase::FinalConfirmed
    }

    /// Whether the holder is done.
    pub fn is_finished(&self) -> (r: bool)
        ensures
            r == (self.phase is Finished),
    {
        self.phase == SelfUpdateBoundaryClientPhase::Finished
    }

    /// Whether a command was sent whose outcome is not known.
    pub fn transition_is_ambiguous(&self) -> (r: bool)
        ensures
            r == self.ambiguous(),
    {
        match self.phase {
            SelfUpdateBoundaryClientPhase::ReplacementTransition
            | SelfUpdateBoundaryClientPhase::AbortTransition
            | SelfUpdateBoundaryClientPhase::RollbackTransition
            | SelfUpdateBoundaryClientPhase::FinishTransition
            | SelfUpdateBoundaryClientPhase::ReleaseTransition => true,
            _ => false,
        }
    }
}

/// A command leaves the state open until its answer is understood: an answer
/// that is understood settles it, and one that is not leaves it open.
pub proof fn law_an_unanswered_command_is_ambiguous(request: ClientRequest, marker: Seq<char>)
    ensures
        (SelfUpdateDaemonBoundaryClient { phase: transition_of(request) }).ambiguous(),
        answered(request, marker).1 is Ok ==> !(SelfUpdateDaemonBoundaryClient {
            phase: answered(request, marker).0,
        }).ambiguous(),
        forall|phase: SelfUpdateBoundaryClientPhase| #[trigger]
            may_ask(request, phase) ==> !(SelfUpdateDaemonBoundaryClient { phase }).ambiguous(),
{
}

// -- The first line --

/// What the first line begins with.
pub open spec fn ready_prefix(nonce: Option<&str>) -> Seq<char> {
    match nonce {
        Some(text) => INSTALLER_DAEMON_BOUNDARY_PREFIX@ + " ready "@ + text@ + " "@,
        None => INSTALLER_DAEMON_BOUNDARY_PREFIX@ + " ready "@,
    }
}

/// Whether a text is one of the states.
pub open spec fn is_state(text: Seq<char>) -> bool {
    exists|running: bool, installed: bool| text == #[trigger] state_words(running, installed)
}

/// Why the first line is refused: it must attest the nonce and name a state.
pub open spec fn readiness_problem(nonce: Option<&str>, marker: Seq<char>) -> Option<Seq<char>> {
    match after_prefix(marker, ready_prefix(nonce)) {
        None => Some(
            "self-update lifecycle holder returned an unexpected initial marker: "@ + marker,
        ),
        Some(state) => if is_state(state) {
            None
        } else {
            Some("self-update lifecycle holder returned an invalid initial state: "@ + marker)
        },
    }
}

/// The first line must attest the nonce and name a state.
pub fn accept_initial_marker(nonce: Option<&str>, marker: &str) -> (r: Result<(), Fault>)
    ensures
        match readiness_problem(nonce, marker@) {
            None => r is Ok,
            Some(message) => r matches Err(fault) && fault@ == seq![message],
        },
{
    let prefix = match nonce {
        Some(text) => join4(INSTALLER_DAEMON_BOUNDARY_PREFIX, " ready ", text, " "),
        None => join2(INSTALLER_DAEMON_BOUNDARY_PREFIX, " ready "),
    };
    let chars = chars_of(marker);
    match strip_prefix(chars.as_slice(), prefix.as_str()) {
        None => Err(
            Fault::from_text(
                join2(
                    "self-update lifecycle holder returned an unexpected initial marker: ",
                    marker,
                ),
            ),
        ),
        Some(state) => {
            let known = equals(state, installer_state_line(true, true)) || equals(
                state,
                installer_state_line(true, false),
            ) || equals(state, installer_state_line(false, true)) || equals(
                state,
                installer_state_line(false, false),
            );
            proof {
                if is_state(state@) {
                    let (running, installed) = choose|running: bool, installed: bool|
                        state@ == #[trigger] state_words(running, installed);
                    assert(known);
                }
            }
            if known {
                Ok(())
            } else {
                Err(
                    Fault::from_text(
                        join2(
                            "self-update lifecycle holder returned an invalid initial state: ",
                            marker,
                        ),
                    ),
                )
            }
        },
    }
}

// -- The end of the holder --

/// How the holder's process ended.
#[derive(Debug, PartialEq, Eq)]
pub enum HolderExit {
    /// There is no process to wait for.
    Reaped,
    /// Waiting for it failed.
    Lost(Fault),
    Ended { success: bool, status: String },
}

/// What is wrong with how the holder's process ended.
pub open spec fn holder_exit_problem(exit: HolderExit) -> Option<Seq<Seq<char>>> {
    match exit {
        HolderExit::Reaped => Some(
            seq!["self-update lifecycle holder process was already reaped"@],
        ),
        HolderExit::Lost(error) => Some(
            seq!["waiting for self-update lifecycle holder to exit"@] + error@,
        ),
        HolderExit::Ended { success, status } => if success {
            None
        } else {
            Some(seq!["self-update lifecycle holder exited with status "@ + status@])
        },
    }
}

/// The holder's process must end well.
pub fn close_and_wait(exit: HolderExit) -> (r: Result<(), Fault>)
    ensures
        match holder_exit_problem(exit) {
            None => r is Ok,
            Some(messages) => r matches Err(fault) && fault@ == messages,
        },
{
    match exit {
        HolderExit::Reaped => Err(
            Fault::of("self-update lifecycle holder process was already reaped"),
        ),
        HolderExit::Lost(error) => Err(
            error.within("waiting for self-update lifecycle holder to exit"),
        ),
        HolderExit::Ended { success, status } => if success {
            Ok(())
        } else {
            Err(
                Fault::from_text(
                    join2("self-update lifecycle holder exited with status ", status.as_str()),
                ),
            )
        },
    }
}

/// What is reported of a holder that was left to end by itself.
pub fn abandoned_holder_report(exit: HolderExit) -> (r: Option<String>)
    ensures
        owned_text(r) == (match exit {
            HolderExit::Reaped => None,
            HolderExit::Lost(error) => Some(
                "Error: waiting for self-update lifecycle holder EOF finalization failed: "@
                    + headline_of(error@),
            ),
            HolderExit::Ended { success, status } => if success {
                None
            } else {
                Some(
                    "Error: self-update lifecycle holder EOF finalization exited with status "@
                        + status@
                        + "; inspect the preceding lifecycle diagnostics before starting another daemon"@,
                )
            },
        }),
{
    match exit {
        HolderExit::Reaped => None,
        HolderExit::Lost(error) => Some(
            join2(
                "Error: waiting for self-update lifecycle holder EOF finalization failed: ",
                error.headline().as_str(),
            ),
        ),
        HolderExit::Ended { success, status } => if success {
            None
        } else {
            Some(
                join3(
                    "Error: self-update lifecycle holder EOF finalization exited with status ",
                    status.as_str(),
                    "; inspect the preceding lifecycle diagnostics before starting another daemon",
                ),
            )
        },
    }
}

} // verus!
