//! Exclusive creation of a file: the file must not exist before, and it counts
//! as created only where its name still shows the file that was written.
//! Otherwise exactly what was written is removed again.
use vstd::prelude::*;

use crate::fault::{join2, join3, join4, joined, Fault};
use crate::fs_ops::{CreateExactOutcome, FileToken, RemoveExactOutcome};
use crate::removal::{misfit, misfit_fault};

verus! {

/// What is created.
#[derive(Debug, PartialEq, Eq)]
pub enum CreationKind {
    /// A copy of a file that is known by its token.
    Copy { source: String, expected: FileToken },
    /// An empty file.
    Empty,
}

/// A creation.
#[derive(Debug, PartialEq, Eq)]
pub struct Creation {
    pub kind: CreationKind,
    pub destination: String,
    /// Whether directory entries can be flushed here.
    pub flushes_directories: bool,
}

/// The operation that a creation waits for.
#[derive(Debug, PartialEq, Eq)]
pub enum CreationStage {
    /// Reading the token of the opened source.
    BindSource,
    /// Creating the destination, which must not exist.
    Create,
    /// Copying the source's content.
    Write,
    /// Giving the copy the source's permissions.
    SetPermissions,
    /// Flushing the file.
    FlushFile,
    /// Reading the token of the written file.
    BindWritten,
    /// Reading the token of the opened source again.
    RebindSource { written: FileToken },
    /// Reading the token at the source's path.
    RebindPath { written: FileToken },
    /// Reading the token at the destination's path.
    BindDestination { written: FileToken },
    /// Flushing the directory.
    Flush { written: FileToken },
    /// Reading the token of what was written so far, after a failure.
    BindResidue { cause: Fault },
    /// Removing exactly what was written, after a failure.
    RemoveResidue { cause: Fault, residue: FileToken },
}

/// What the operation gave.
#[derive(Debug, PartialEq, Eq)]
pub enum CreationReply {
    Done,
    Token(FileToken),
    Removed(RemoveExactOutcome),
    Failed(Fault),
}

/// What a creation does next.
#[derive(Debug, PartialEq, Eq)]
pub enum CreationStep {
    Await(CreationStage),
    Finished(Result<CreateExactOutcome, Fault>),
}

/// Whether a creation ends with a failure.
pub open spec fn creation_fails(step: CreationStep, messages: Seq<Seq<char>>) -> bool {
    step matches CreationStep::Finished(Err(fault)) && fault@ == messages
}

/// A creation that failed after the file was written.
pub open spec fn residue_awaits(step: CreationStep, messages: Seq<Seq<char>>, residue: FileToken) -> bool {
    step matches CreationStep::Await(CreationStage::RemoveResidue { cause, residue: r }) && cause@
        == messages && r == residue
}

/// The failure of flushing the file.
pub open spec fn flush_failure(creation: Creation) -> Seq<char> {
    (match creation.kind {
        CreationKind::Copy { source: _, expected: _ } => "flushing copied transaction file "@,
        CreationKind::Empty => "flushing empty transaction file "@,
    }) + creation.destination@
}

/// How a failed creation reports what became of its residue.
pub open spec fn residue_report(destination: Seq<char>, removed: Result<RemoveExactOutcome, Fault>) -> Seq<
    char,
> {
    match removed {
        Ok(RemoveExactOutcome::Removed) =>
            "exclusive creation failed; its exact residue was removed from "@ + destination,
        Ok(RemoveExactOutcome::RemovedNamespaceDurabilityUnconfirmed) =>
            "exclusive creation failed; its exact residue was removed from "@ + destination
                + ", but cleanup durability was not confirmed"@,
        Err(fault) => "exclusive creation failed and exact cleanup could not complete at "@
            + destination + ": "@ + joined(fault@),
    }
}

/// What a creation does next.
pub open spec fn creation_next(
    creation: Creation,
    stage: CreationStage,
    reply: CreationReply,
    step: CreationStep,
) -> bool {
    match (stage, reply) {
        (CreationStage::BindSource, CreationReply::Token(token)) => match creation.kind {
            CreationKind::Copy { source, expected } => if token@ == expected@ {
                step == CreationStep::Await(CreationStage::Create)
            } else {
                creation_fails(
                    step,
                    seq!["copy source changed before the exclusive copy: "@ + source@],
                )
            },
            CreationKind::Empty => creation_fails(step, misfit()),
        },
        (CreationStage::BindSource, CreationReply::Failed(fault)) => creation_fails(step, fault@),
        (CreationStage::Create, CreationReply::Done) => step == CreationStep::Await(
            match creation.kind {
                CreationKind::Copy { source: _, expected: _ } => CreationStage::Write,
                CreationKind::Empty => CreationStage::FlushFile,
            },
        ),
        (CreationStage::Create, CreationReply::Failed(fault)) => creation_fails(step, fault@),
        (CreationStage::Write, CreationReply::Done) => step == CreationStep::Await(
            CreationStage::SetPermissions,
        ),
        (CreationStage::Write, CreationReply::Failed(fault)) => match creation.kind {
            CreationKind::Copy { source, expected: _ } => {
                &&& step matches CreationStep::Await(CreationStage::BindResidue { cause })
                &&& cause@ == seq!["copying "@ + source@ + " to "@ + creation.destination@] + fault@
            },
            CreationKind::Empty => creation_fails(step, misfit()),
        },
        (CreationStage::SetPermissions, CreationReply::Done) => step == CreationStep::Await(
            CreationStage::FlushFile,
        ),
        (CreationStage::SetPermissions, CreationReply::Failed(fault)) => step
            == CreationStep::Await(CreationStage::BindResidue { cause: fault }),
        (CreationStage::FlushFile, CreationReply::Done) => step == CreationStep::Await(
            CreationStage::BindWritten,
        ),
        (CreationStage::FlushFile, CreationReply::Failed(fault)) => {
            &&& step matches CreationStep::Await(CreationStage::BindResidue { cause })
            &&& cause@ == seq![flush_failure(creation)] + fault@
        },
        (CreationStage::BindWritten, CreationReply::Token(written)) => match creation.kind {
            CreationKind::Copy { source: _, expected: _ } => step == CreationStep::Await(
                CreationStage::RebindSource { written },
            ),
            CreationKind::Empty => step == CreationStep::Await(
                CreationStage::BindDestination { written },
            ),
        },
        (CreationStage::BindWritten, CreationReply::Failed(fault)) => step == CreationStep::Await(
            CreationStage::BindResidue { cause: fault },
        ),
        (CreationStage::RebindSource { written }, CreationReply::Token(opened)) => {
            match creation.kind {
                CreationKind::Copy { source: _, expected } => if opened@ != expected@ {
                    residue_awaits(
                        step,
                        seq![
                            "copy source changed while "@ + creation.destination@ + " was created"@,
                        ],
                        written,
                    )
                } else {
                    step == CreationStep::Await(CreationStage::RebindPath { written })
                },
                CreationKind::Empty => creation_fails(step, misfit()),
            }
        },
        (CreationStage::RebindPath { written }, CreationReply::Token(at_path)) => match creation.kind {
            CreationKind::Copy { source: _, expected } => if at_path@ != expected@ {
                residue_awaits(
                    step,
                    seq![
                        "copy source changed while "@ + creation.destination@ + " was created"@,
                    ],
                    written,
                )
            } else if written@.digest != expected@.digest {
                residue_awaits(
                    step,
                    seq![
                        "exclusive copy at "@ + creation.destination@
                            + " does not match the source bytes"@,
                    ],
                    written,
                )
            } else {
                step == CreationStep::Await(CreationStage::BindDestination { written })
            },
            CreationKind::Empty => creation_fails(step, misfit()),
        },
        (CreationStage::RebindSource { written }, CreationReply::Failed(fault)) => residue_awaits(
            step,
            fault@,
            written,
        ),
        (CreationStage::RebindPath { written }, CreationReply::Failed(fault)) => residue_awaits(
            step,
            fault@,
            written,
        ),
        (CreationStage::BindDestination { written }, CreationReply::Token(token)) => if token@
            == written@ {
            if creation.flushes_directories {
                step == CreationStep::Await(CreationStage::Flush { written })
            } else {
                step == CreationStep::Finished(Ok(CreateExactOutcome::Created(written)))
            }
        } else {
            match creation.kind {
                CreationKind::Copy { source: _, expected: _ } => residue_awaits(
                    step,
                    seq![
                        "exclusive copy path changed before its creation boundary completed: "@
                            + creation.destination@,
                    ],
                    written,
                ),
                CreationKind::Empty => {
                    &&& step matches CreationStep::Await(CreationStage::BindResidue { cause })
                    &&& cause@ == seq![
                        "empty transaction file changed before its creation boundary completed: "@
                            + creation.destination@,
                    ]
                },
            }
        },
        (CreationStage::BindDestination { written }, CreationReply::Failed(fault)) => match creation.kind {
            CreationKind::Copy { source: _, expected: _ } => residue_awaits(step, fault@, written),
            CreationKind::Empty => step == CreationStep::Await(
                CreationStage::BindResidue { cause: fault },
            ),
        },
        (CreationStage::Flush { written }, CreationReply::Done) => step == CreationStep::Finished(
            Ok(CreateExactOutcome::Created(written)),
        ),
        (CreationStage::Flush { written }, CreationReply::Failed(_)) => step
            == CreationStep::Finished(
            Ok(CreateExactOutcome::CreatedNamespaceDurabilityUnconfirmed(written)),
        ),
        (CreationStage::BindResidue { cause }, CreationReply::Token(residue)) => residue_awaits(
            step,
            cause@,
            residue,
        ),
        (CreationStage::BindResidue { cause }, CreationReply::Failed(_)) => creation_fails(
            step,
            seq![
                "exclusive creation failed and its unclassified residue was preserved at "@
                    + creation.destination@,
            ] + cause@,
        ),
        (
            CreationStage::RemoveResidue { cause, residue: _ },
            CreationReply::Removed(outcome),
        ) => creation_fails(
            step,
            seq![residue_report(creation.destination@, Ok(outcome))] + cause@,
        ),
        (
            CreationStage::RemoveResidue { cause, residue: _ },
            CreationReply::Failed(fault),
        ) => creation_fails(
            step,
            seq![residue_report(creation.destination@, Err(fault))] + cause@,
        ),
        _ => creation_fails(step, misfit()),
    }
}

fn fail(fault: Fault) -> (r: CreationStep)
    ensures
        creation_fails(r, fault@),
{
    CreationStep::Finished(Err(fault))
}

fn remove_residue(cause: Fault, residue: FileToken) -> (r: CreationStep)
    ensures
        residue_awaits(r, cause@, residue),
{
    CreationStep::Await(CreationStage::RemoveResidue { cause, residue })
}

/// The failure of a creation, with what became of what it had written; a
/// residue that could not even be identified is left alone.
pub fn cleanup_failed_creation(
    destination: &str,
    cause: Fault,
    cleanup: Option<Result<RemoveExactOutcome, Fault>>,
) -> (r: Fault)
    ensures
        r@ == seq![
            match cleanup {
                None => "exclusive creation failed and its unclassified residue was preserved at "@
                    + destination@,
                Some(removed) => residue_report(destination@, removed),
            },
        ] + cause@,
{
    let text = match cleanup {
        None => join2(
            "exclusive creation failed and its unclassified residue was preserved at ",
            destination,
        ),
        Some(Ok(RemoveExactOutcome::Removed)) => join2(
            "exclusive creation failed; its exact residue was removed from ",
            destination,
        ),
        Some(Ok(RemoveExactOutcome::RemovedNamespaceDurabilityUnconfirmed)) => join3(
            "exclusive creation failed; its exact residue was removed from ",
            destination,
            ", but cleanup durability was not confirmed",
        ),
        Some(Err(fault)) => join4(
            "exclusive creation failed and exact cleanup could not complete at ",
            destination,
            ": ",
            fault.detail().as_str(),
        ),
    };
    cause.context(text)
}

/// What a creation does next. A copy starts with `CreationStage::BindSource`,
/// an empty file with `CreationStage::Create`.
pub fn create_exclusive(creation: &Creation, stage: CreationStage, reply: CreationReply) -> (r:
    CreationStep)
    ensures
        creation_next(*creation, stage, reply, r),
{
    match (stage, reply) {
        (CreationStage::BindSource, CreationReply::Token(token)) => match &creation.kind {
            CreationKind::Copy { source, expected } => if token.same(expected) {
                CreationStep::Await(CreationStage::Create)
            } else {
                fail(
                    Fault::from_text(
                        join2("copy source changed before the exclusive copy: ", source.as_str()),
                    ),
                )
            },
            CreationKind::Empty => fail(misfit_fault()),
        },
        (CreationStage::BindSource, CreationReply::Failed(fault)) => fail(fault),
        (CreationStage::Create, CreationReply::Done) => CreationStep::Await(
            match &creation.kind {
                CreationKind::Copy { source: _, expected: _ } => CreationStage::Write,
                CreationKind::Empty => CreationStage::FlushFile,
            },
        ),
        (CreationStage::Create, CreationReply::Failed(fault)) => fail(fault),
        (CreationStage::Write, CreationReply::Done) => CreationStep::Await(
            CreationStage::SetPermissions,
        ),
        (CreationStage::Write, CreationReply::Failed(fault)) => match &creation.kind {
            CreationKind::Copy { source, expected: _ } => CreationStep::Await(
                CreationStage::BindResidue {
                    cause: fault.context(
                        join4(
                            "copying ",
                            source.as_str(),
                            " to ",
                            creation.destination.as_str(),
                        ),
                    ),
                },
            ),
            CreationKind::Empty => fail(misfit_fault()),
        },
        (CreationStage::SetPermissions, CreationReply::Done) => CreationStep::Await(
            CreationStage::FlushFile,
        ),
        (CreationStage::SetPermissions, CreationReply::Failed(fault)) => CreationStep::Await(
            CreationStage::BindResidue { cause: fault },
        ),
        (CreationStage::FlushFile, CreationReply::Done) => CreationStep::Await(
            CreationStage::BindWritten,
        ),
        (CreationStage::FlushFile, CreationReply::Failed(fault)) => {
            let text = join2(
                match &creation.kind {
                    CreationKind::Copy { source: _, expected: _ } =>
                        "flushing copied transaction file ",
                    CreationKind::Empty => "flushing empty transaction file ",
                },
                creation.destination.as_str(),
            );
            CreationStep::Await(CreationStage::BindResidue { cause: fault.context(text) })
        },
        (CreationStage::BindWritten, CreationReply::Token(written)) => match &creation.kind {
            CreationKind::Copy { source: _, expected: _ } => CreationStep::Await(
                CreationStage::RebindSource { written },
            ),
            CreationKind::Empty => CreationStep::Await(CreationStage::BindDestination { written }),
        },
        (CreationStage::BindWritten, CreationReply::Failed(fault)) => CreationStep::Await(
            CreationStage::BindResidue { cause: fault },
        ),
        (CreationStage::RebindSource { written }, CreationReply::Token(opened)) => {
            match &creation.kind {
                CreationKind::Copy { source: _, expected } => {
                    if !opened.same(expected) {
                        remove_residue(
                            Fault::from_text(
                                join3(
                                    "copy source changed while ",
                                    creation.destination.as_str(),
                                    " was created",
                                ),
                            ),
                            written,
                        )
                    } else {
                        CreationStep::Await(CreationStage::RebindPath { written })
                    }
                },
                CreationKind::Empty => fail(misfit_fault()),
            }
        },
        (CreationStage::RebindPath { written }, CreationReply::Token(at_path)) => match &creation.kind {
            CreationKind::Copy { source: _, expected } => {
                if !at_path.same(expected) {
                    remove_residue(
                        Fault::from_text(
                            join3(
                                "copy source changed while ",
                                creation.destination.as_str(),
                                " was created",
                            ),
                        ),
                        written,
                    )
                } else if !written.same_contents(expected) {
                    remove_residue(
                        Fault::from_text(
                            join3(
                                "exclusive copy at ",
                                creation.destination.as_str(),
                                " does not match the source bytes",
                            ),
                        ),
                        written,
                    )
                } else {
                    CreationStep::Await(CreationStage::BindDestination { written })
                }
            },
            CreationKind::Empty => fail(misfit_fault()),
        },
        (CreationStage::RebindSource { written }, CreationReply::Failed(fault)) => remove_residue(
            fault,
            written,
        ),
        (CreationStage::RebindPath { written }, CreationReply::Failed(fault)) => remove_residue(
            fault,
            written,
        ),
        (CreationStage::BindDestination { written }, CreationReply::Token(token)) => {
            if token.same(&written) {
                return if creation.flushes_directories {
                    CreationStep::Await(CreationStage::Flush { written })
                } else {
                    CreationStep::Finished(Ok(CreateExactOutcome::Created(written)))
                };
            }
            match &creation.kind {
                CreationKind::Copy { source: _, expected: _ } => remove_residue(
                    Fault::from_text(
                        join2(
                            "exclusive copy path changed before its creation boundary completed: ",
                            creation.destination.as_str(),
                        ),
                    ),
                    written,
                ),
                CreationKind::Empty => CreationStep::Await(
                    CreationStage::BindResidue {
                        cause: Fault::from_text(
                            join2(
                                "empty transaction file changed before its creation boundary completed: ",
                                creation.destination.as_str(),
                            ),
                        ),
                    },
                ),
            }
        },
        (
            CreationStage::BindDestination { written },
            CreationReply::Failed(fault),
        ) => match &creation.kind {
            CreationKind::Copy { source: _, expected: _ } => remove_residue(fault, written),
            CreationKind::Empty => CreationStep::Await(CreationStage::BindResidue { cause: fault }),
        },
        (CreationStage::Flush { written }, CreationReply::Done) => CreationStep::Finished(
            Ok(CreateExactOutcome::Created(written)),
        ),
        (CreationStage::Flush { written }, CreationReply::Failed(_)) => CreationStep::Finished(
            Ok(CreateExactOutcome::CreatedNamespaceDurabilityUnconfirmed(written)),
        ),
        (CreationStage::BindResidue { cause }, CreationReply::Token(residue)) => remove_residue(
            cause,
            residue,
        ),
        (CreationStage::BindResidue { cause }, CreationReply::Failed(_)) => fail(
            cleanup_failed_creation(creation.destination.as_str(), cause, None),
        ),
        (
            CreationStage::RemoveResidue { cause, residue: _ },
            CreationReply::Removed(outcome),
        ) => fail(
            cleanup_failed_creation(creation.destination.as_str(), cause, Some(Ok(outcome))),
        ),
        (
            CreationStage::RemoveResidue { cause, residue: _ },
            CreationReply::Failed(fault),
        ) => fail(
            cleanup_failed_creation(creation.destination.as_str(), cause, Some(Err(fault))),
        ),
        _ => fail(misfit_fault()),
    }
}

/// A creation that succeeds names the very file that was written, and that file
/// is what its name showed. A copy has the content of its source.
pub proof fn law_created_file_is_the_written_one(
    creation: Creation,
    stage: CreationStage,
    reply: CreationReply,
    step: CreationStep,
)
    requires
        creation_next(creation, stage, reply, step),
    ensures
        step matches CreationStep::Finished(Ok(outcome)) ==> match stage {
            CreationStage::Flush { written } => outcome.token_of() == written,
            CreationStage::BindDestination { written } => outcome.token_of() == written && (reply
                matches CreationReply::Token(at_path) && at_path@ == written@),
            _ => false,
        },
        step matches CreationStep::Await(CreationStage::BindDestination { written }) ==> (
        creation.kind matches CreationKind::Copy { source, expected } ==> written@.digest
            == expected@.digest),
{
}

} // verus!
