//! Reading and writing the file that holds the daemon's state.
use vstd::prelude::*;

use crate::fault::{join2, Fault};
use crate::removal::{misfit, misfit_fault};
use crate::state::DaemonState;

verus! {

/// What reading a file gave.
#[derive(Debug, PartialEq, Eq)]
pub enum FileRead {
    Missing,
    Unreadable(Fault),
    Contents(Vec<u8>),
}

/// The operation that reading the state waits for.
#[derive(Debug, PartialEq, Eq)]
pub enum StateReadStage {
    /// Reading the file.
    Read,
    /// Parsing what the file holds.
    Parse { contents: Vec<u8> },
}

/// What the operation gave.
#[derive(Debug, PartialEq, Eq)]
pub enum StateReadReply {
    File(FileRead),
    Parsed(Result<DaemonState, Fault>),
}

/// What reading the state does next. It succeeds with the state, if there is one.
#[derive(Debug, PartialEq, Eq)]
pub enum StateReadStep {
    Await(StateReadStage),
    Finished(Result<Option<DaemonState>, Fault>),
}

/// Whether reading ends with a failure.
pub open spec fn state_read_fails(step: StateReadStep, messages: Seq<Seq<char>>) -> bool {
    step matches StateReadStep::Finished(Err(fault)) && fault@ == messages
}

/// What reading does next. A file that is missing holds no state; one that cannot
/// be read or parsed is never taken for a missing one.
pub open spec fn state_read_next(
    path: Seq<char>,
    stage: StateReadStage,
    reply: StateReadReply,
    step: StateReadStep,
) -> bool {
    match (stage, reply) {
        (StateReadStage::Read, StateReadReply::File(file)) => match file {
            FileRead::Missing => step == StateReadStep::Finished(Ok(None)),
            FileRead::Unreadable(error) => state_read_fails(
                step,
                seq!["reading daemon state snapshot "@ + path] + error@,
            ),
            FileRead::Contents(contents) => step == StateReadStep::Await(
                StateReadStage::Parse { contents },
            ),
        },
        (StateReadStage::Parse { contents: _ }, StateReadReply::Parsed(parsed)) => match parsed {
            Ok(state) => step == StateReadStep::Finished(Ok(Some(state))),
            Err(error) => state_read_fails(
                step,
                seq!["parsing daemon state snapshot "@ + path] + error@,
            ),
        },
        _ => state_read_fails(step, misfit()),
    }
}

/// What reading the state at a path does next. It starts with
/// `StateReadStage::Read`.
pub fn read_state(path: &str, stage: StateReadStage, reply: StateReadReply) -> (r: StateReadStep)
    ensures
        state_read_next(path@, stage, reply, r),
{
    match (stage, reply) {
        (StateReadStage::Read, StateReadReply::File(file)) => match file {
            FileRead::Missing => StateReadStep::Finished(Ok(None)),
            FileRead::Unreadable(error) => StateReadStep::Finished(
                Err(error.context(join2("reading daemon state snapshot ", path))),
            ),
            FileRead::Contents(contents) => StateReadStep::Await(
                StateReadStage::Parse { contents },
            ),
        },
        (StateReadStage::Parse { contents: _ }, StateReadReply::Parsed(parsed)) => match parsed {
            Ok(state) => StateReadStep::Finished(Ok(Some(state))),
            Err(error) => StateReadStep::Finished(
                Err(error.context(join2("parsing daemon state snapshot ", path))),
            ),
        },
        _ => StateReadStep::Finished(Err(misfit_fault())),
    }
}

/// The operation that writing the state waits for.
#[derive(Debug, PartialEq, Eq)]
pub enum StateWriteStage {
    /// Finding out where the file is.
    Locate,
    /// Turning the state into bytes.
    Serialize { path: String },
    /// Writing the bytes in one step, readable by the user alone.
    Write { path: String, bytes: Vec<u8> },
}

/// What the operation gave.
#[derive(Debug, PartialEq, Eq)]
pub enum StateWriteReply {
    Located(Result<String, Fault>),
    Serialized(Result<Vec<u8>, Fault>),
    /// Why the written file may not last, if it may not.
    Written(Result<Option<Fault>, Fault>),
}

/// What writing the state does next.
#[derive(Debug, PartialEq, Eq)]
pub enum StateWriteStep {
    Await(StateWriteStage),
    Finished(Result<(), Fault>),
}

/// Whether writing ends with a failure.
pub open spec fn state_write_fails(step: StateWriteStep, messages: Seq<Seq<char>>) -> bool {
    step matches StateWriteStep::Finished(Err(fault)) && fault@ == messages
}

/// What writing does next. It succeeds only with a file that is known to last.
pub open spec fn state_write_next(
    stage: StateWriteStage,
    reply: StateWriteReply,
    step: StateWriteStep,
) -> bool {
    match (stage, reply) {
        (StateWriteStage::Locate, StateWriteReply::Located(located)) => match located {
            Ok(path) => step == StateWriteStep::Await(StateWriteStage::Serialize { path }),
            Err(error) => state_write_fails(
                step,
                seq!["resolving daemon state snapshot path"@] + error@,
            ),
        },
        (StateWriteStage::Serialize { path }, StateWriteReply::Serialized(serialized)) => {
            match serialized {
                Ok(bytes) => step == StateWriteStep::Await(StateWriteStage::Write { path, bytes }),
                Err(error) => state_write_fails(
                    step,
                    seq!["serializing daemon state snapshot"@] + error@,
                ),
            }
        },
        (StateWriteStage::Write { path, bytes: _ }, StateWriteReply::Written(written)) => {
            match written {
                Ok(None) => step matches StateWriteStep::Finished(Ok(_)),
                Ok(Some(cause)) => state_write_fails(
                    step,
                    seq!["confirming daemon state snapshot "@ + path@] + cause@,
                ),
                Err(error) => state_write_fails(
                    step,
                    seq!["writing daemon state snapshot "@ + path@] + error@,
                ),
            }
        },
        _ => state_write_fails(step, misfit()),
    }
}

/// What writing the state does next. It starts with `StateWriteStage::Locate`.
pub fn write_state(stage: StateWriteStage, reply: StateWriteReply) -> (r: StateWriteStep)
    ensures
        state_write_next(stage, reply, r),
{
    match (stage, reply) {
        (StateWriteStage::Locate, StateWriteReply::Located(located)) => match located {
            Ok(path) => StateWriteStep::Await(StateWriteStage::Serialize { path }),
            Err(error) => StateWriteStep::Finished(
                Err(error.within("resolving daemon state snapshot path")),
            ),
        },
        (StateWriteStage::Serialize { path }, StateWriteReply::Serialized(serialized)) => {
            match serialized {
                Ok(bytes) => StateWriteStep::Await(StateWriteStage::Write { path, bytes }),
                Err(error) => StateWriteStep::Finished(
                    Err(error.within("serializing daemon state snapshot")),
                ),
            }
        },
        (StateWriteStage::Write { path, bytes: _ }, StateWriteReply::Written(written)) => {
            match written {
                Ok(None) => StateWriteStep::Finished(Ok(())),
                Ok(Some(cause)) => StateWriteStep::Finished(
                    Err(
                        cause.context(
                            join2("confirming daemon state snapshot ", path.as_str()),
                        ),
                    ),
                ),
                Err(error) => StateWriteStep::Finished(
                    Err(error.context(join2("writing daemon state snapshot ", path.as_str()))),
                ),
            }
        },
        _ => StateWriteStep::Finished(Err(misfit_fault())),
    }
}

/// There is no state only where the file is missing: a file that cannot be read
/// or parsed is a failure.
pub proof fn law_only_a_missing_file_holds_no_state(
    path: Seq<char>,
    stage: StateReadStage,
    reply: StateReadReply,
    step: StateReadStep,
)
    requires
        state_read_next(path, stage, reply, step),
    ensures
        step == StateReadStep::Finished(Ok(None)) <==> stage == StateReadStage::Read && reply
            == StateReadReply::File(FileRead::Missing),
{
}

} // verus!
