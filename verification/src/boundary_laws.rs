//! The two sides of the update boundary understand each other.
use vstd::prelude::*;

use crate::boundary_client::{
    answered, is_state, readiness_problem, ready_prefix, request_word, ClientAnswer, ClientRequest,
    SelfUpdateBoundaryClientPhase, SelfUpdateBoundaryRestart,
};
use crate::boundary_phase::{boundary_line, state_words, INSTALLER_DAEMON_BOUNDARY_PREFIX};
use crate::boundary_protocol::{
    command_of, marker_words, BoundaryCommand, BoundaryContext, BoundaryMarker,
};
use crate::text::{after_prefix, begins_with};

verus! {

/// The command that the holder reads from what the asking side sends.
pub open spec fn command_for(request: ClientRequest) -> BoundaryCommand {
    match request {
        ClientRequest::RestartReplacement => BoundaryCommand::New,
        ClientRequest::RestorePrior => BoundaryCommand::Rollback,
        ClientRequest::StopReplacement => BoundaryCommand::Abort,
        ClientRequest::VerifyReplacement => BoundaryCommand::Finish,
        ClientRequest::Release => BoundaryCommand::Release,
    }
}

/// Every word that the asking side sends is read as the command it stands for.
pub proof fn law_every_request_is_understood(request: ClientRequest)
    ensures
        command_of(request_word(request)) == command_for(request),
{
    reveal_strlit("new");
    reveal_strlit("uninstall");
    reveal_strlit("rollback");
    reveal_strlit("finish");
    reveal_strlit("abort");
    reveal_strlit("release");
    assert("new"@[0] == 'n' && "uninstall"@[0] == 'u' && "rollback"@[2] == 'l');
    assert("release"@[2] == 'l' && "release"@.len() == 7 && "rollback"@.len() == 8);
    assert("finish"@[0] == 'f' && "abort"@[0] == 'a');
}

proof fn lemma_lines_differ(a: Seq<char>, b: Seq<char>)
    requires
        boundary_line(a) == boundary_line(b),
    ensures
        a == b,
{
    let before = INSTALLER_DAEMON_BOUNDARY_PREFIX@ + " "@;
    assert(boundary_line(a) == before + a && boundary_line(b) == before + b);
    assert(a =~= boundary_line(a).skip(before.len() as int));
    assert(b =~= boundary_line(b).skip(before.len() as int));
}

/// Every state that the holder reports in answer to a request is understood as
/// that state.
pub proof fn law_every_answer_is_understood(context: BoundaryContext)
    ensures
        answered(
            ClientRequest::RestartReplacement,
            boundary_line(marker_words(context, BoundaryMarker::NewReady)),
        ) == (
            SelfUpdateBoundaryClientPhase::NewReady,
            Ok::<ClientAnswer, Seq<char>>(
                ClientAnswer::Restarted(SelfUpdateBoundaryRestart::Ready),
            ),
        ),
        answered(
            ClientRequest::RestartReplacement,
            boundary_line(marker_words(context, BoundaryMarker::NewFailed)),
        ) == (
            SelfUpdateBoundaryClientPhase::ReplacementFailedStopped,
            Ok::<ClientAnswer, Seq<char>>(
                ClientAnswer::Restarted(SelfUpdateBoundaryRestart::FailedStopped),
            ),
        ),
        answered(
            ClientRequest::RestorePrior,
            boundary_line(marker_words(context, BoundaryMarker::OldRestored)),
        ) == (
            SelfUpdateBoundaryClientPhase::Finished,
            Ok::<ClientAnswer, Seq<char>>(ClientAnswer::Close),
        ),
        answered(
            ClientRequest::RestorePrior,
            boundary_line(marker_words(context, BoundaryMarker::OldFailed)),
        ).0 == SelfUpdateBoundaryClientPhase::ReplacementFailedStopped,
        answered(
            ClientRequest::StopReplacement,
            boundary_line(marker_words(context, BoundaryMarker::NewStopped)),
        ) == (
            SelfUpdateBoundaryClientPhase::ReplacementFailedStopped,
            Ok::<ClientAnswer, Seq<char>>(ClientAnswer::Stopped),
        ),
        answered(
            ClientRequest::VerifyReplacement,
            boundary_line(marker_words(context, BoundaryMarker::FinalConfirmed)),
        ) == (
            SelfUpdateBoundaryClientPhase::FinalConfirmed,
            Ok::<ClientAnswer, Seq<char>>(ClientAnswer::Verified),
        ),
        answered(
            ClientRequest::Release,
            boundary_line(marker_words(context, BoundaryMarker::AuthorityReleased)),
        ) == (
            SelfUpdateBoundaryClientPhase::Finished,
            Ok::<ClientAnswer, Seq<char>>(ClientAnswer::Close),
        ),
{
    reveal_strlit("new state ready");
    reveal_strlit("new state failed");
    reveal_strlit("old state restored");
    reveal_strlit("old state failed");
    if boundary_line("new state failed"@) == boundary_line("new state ready"@) {
        lemma_lines_differ("new state failed"@, "new state ready"@);
        assert("new state failed"@.len() == "new state ready"@.len());
    }
    if boundary_line("old state failed"@) == boundary_line("old state restored"@) {
        lemma_lines_differ("old state failed"@, "old state restored"@);
        assert("old state failed"@.len() == "old state restored"@.len());
    }
}

/// The first line of the holder is accepted by the side that gave it the nonce.
pub proof fn law_the_first_line_is_accepted(context: BoundaryContext)
    ensures
        readiness_problem(
            context.ready_nonce,
            boundary_line(marker_words(context, BoundaryMarker::Ready)),
        ) is None,
{
    reveal_strlit(" ");
    reveal_strlit("ready ");
    reveal_strlit(" ready ");
    let state = state_words(context.initially_running, context.service_installed);
    let line = boundary_line(marker_words(context, BoundaryMarker::Ready));
    let prefix = ready_prefix(context.ready_nonce);
    assert(" "@ + "ready "@ =~= " ready "@);
    assert(line =~= prefix + state);
    assert(line.take(prefix.len() as int) =~= prefix);
    assert(line.skip(prefix.len() as int) =~= state);
    assert(begins_with(line, prefix));
    assert(after_prefix(line, prefix) == Some(state));
    assert(is_state(state));
}

} // verus!
