//! Publishing a service definition: the candidate is exchanged with the live
//! file, and what the exchange displaced decides whether the publication
//! stands, is taken back, or is left alone for a human to look at.
use vstd::prelude::*;

use crate::fault::{join2, join3, join4, join5, joined, Fault};
use crate::fs_ops::{seen, shows, FileToken, RemoveExactOutcome};
use crate::removal::{misfit, misfit_fault};

verus! {

/// How a removal within a transaction ended.
#[derive(Debug, PartialEq, Eq)]
pub enum ServiceFileCleanupOutcome {
    Durable,
    DurabilityUnconfirmed(String),
}

/// What a removal comes to, after flushing the directory was tried once more
/// where it had failed.
pub fn remove_service_file_exact(
    path: &str,
    purpose: &str,
    removed: Result<RemoveExactOutcome, Fault>,
    flushed_again: Result<(), Fault>,
) -> (r: Result<ServiceFileCleanupOutcome, Fault>)
    ensures
        match (removed, flushed_again) {
            (Err(error), _) => r matches Err(fault) && fault@ == seq![
                "removing "@ + purpose@ + " at "@ + path@,
            ] + error@,
            (
                Ok(RemoveExactOutcome::RemovedNamespaceDurabilityUnconfirmed),
                Err(fault),
            ) => r matches Ok(ServiceFileCleanupOutcome::DurabilityUnconfirmed(note)) && note@
                == "the exact "@ + purpose@ + " was removed from "@ + path@
                + ", but retrying parent-directory durability failed: "@ + joined(fault@),
            _ => r == Ok::<ServiceFileCleanupOutcome, Fault>(ServiceFileCleanupOutcome::Durable),
        },
{
    match (removed, flushed_again) {
        (Err(error), _) => Err(error.context(join4("removing ", purpose, " at ", path))),
        (Ok(RemoveExactOutcome::RemovedNamespaceDurabilityUnconfirmed), Err(fault)) => {
            let mut note = join5(
                "the exact ",
                purpose,
                " was removed from ",
                path,
                ", but retrying parent-directory durability failed: ",
            );
            note.append(fault.detail().as_str());
            Ok(ServiceFileCleanupOutcome::DurabilityUnconfirmed(note))
        },
        _ => Ok(ServiceFileCleanupOutcome::Durable),
    }
}

/// How the end of a removal is reported.
pub open spec fn cleanup_report(result: Result<ServiceFileCleanupOutcome, Fault>) -> Seq<char> {
    match result {
        Ok(ServiceFileCleanupOutcome::Durable) => "complete and durable"@,
        Ok(ServiceFileCleanupOutcome::DurabilityUnconfirmed(note)) =>
            "applied, but durability is unconfirmed: "@ + note@,
        Err(fault) => "incomplete: "@ + joined(fault@),
    }
}

/// How the end of a removal is reported.
pub fn service_cleanup_result(result: Result<ServiceFileCleanupOutcome, Fault>) -> (r: String)
    ensures
        r@ == cleanup_report(result),
{
    match result {
        Ok(ServiceFileCleanupOutcome::Durable) => "complete and durable".to_owned(),
        Ok(ServiceFileCleanupOutcome::DurabilityUnconfirmed(note)) => join2(
            "applied, but durability is unconfirmed: ",
            note.as_str(),
        ),
        Err(fault) => join2("incomplete: ", fault.detail().as_str()),
    }
}

/// How the end of an operation is reported.
pub open spec fn operation_report(result: Result<(), Fault>) -> Seq<char> {
    match result {
        Ok(_) => "complete"@,
        Err(fault) => "incomplete: "@ + joined(fault@),
    }
}

/// How the end of an operation is reported.
pub fn service_operation_result(result: Result<(), Fault>) -> (r: String)
    ensures
        r@ == operation_report(result),
{
    match result {
        Ok(()) => "complete".to_owned(),
        Err(fault) => join2("incomplete: ", fault.detail().as_str()),
    }
}

/// What a namespace operation that reached its verified state is worth: its
/// directory must have been flushed.
pub open spec fn durability_problem(
    boundary: Option<Fault>,
    flushed: Result<(), Fault>,
    operation: Seq<char>,
) -> Option<Seq<Seq<char>>> {
    match (flushed, boundary) {
        (Ok(_), _) => None,
        (Err(sync), None) => Some(
            seq![
                operation
                    + " reached its verified namespace state, but directory durability was not confirmed"@,
            ] + sync@,
        ),
        (Err(sync), Some(error)) => Some(
            seq![
                operation
                    + " reached its verified namespace state after the namespace call reported an error, and retrying directory durability also failed: "@
                    + joined(sync@),
            ] + error@,
        ),
    }
}

/// What a namespace operation that reached its verified state is worth.
pub fn confirm_service_namespace_durability(
    boundary: Option<Fault>,
    flushed: Result<(), Fault>,
    operation: &str,
) -> (r: Result<(), Fault>)
    ensures
        match durability_problem(boundary, flushed, operation@) {
            None => r is Ok,
            Some(messages) => r matches Err(fault) && fault@ == messages,
        },
{
    match (flushed, boundary) {
        (Ok(()), _) => Ok(()),
        (Err(sync), None) => Err(
            sync.context(
                join2(
                    operation,
                    " reached its verified namespace state, but directory durability was not confirmed",
                ),
            ),
        ),
        (Err(sync), Some(error)) => Err(
            error.context(
                join3(
                    operation,
                    " reached its verified namespace state after the namespace call reported an error, and retrying directory durability also failed: ",
                    sync.detail().as_str(),
                ),
            ),
        ),
    }
}

/// The state of a file transaction.
#[derive(Clone, Copy, Debug, PartialEq, Eq, Structural)]
pub enum ServiceFileTransactionState {
    Pending,
    Finished,
    Preserved,
}

/// A published definition that is neither committed nor rolled back yet: the
/// token under the public name, the token that the exchange displaced to the
/// candidate's name, and that of the independent backup.
#[derive(Clone, Copy, Debug, PartialEq, Eq)]
pub struct ServiceFilePublication {
    pub published: FileToken,
    pub displaced: Option<FileToken>,
    pub backup: Option<FileToken>,
    pub state: ServiceFileTransactionState,
}

/// The names of a publication, and the token that the live definition had.
#[derive(Debug, PartialEq, Eq)]
pub struct PublicationNames {
    pub path: String,
    pub candidate: String,
    pub backup: String,
    pub previous: Option<FileToken>,
}

/// Why the candidate and the backup are cleaned up.
#[derive(Debug, PartialEq, Eq)]
pub enum CleanupCause {
    /// The writer that was displaced instead has been put back.
    WriterRestored,
    /// The exchange did not happen.
    NotPublished { boundary: Option<Fault> },
    /// The rename did not happen.
    NotRenamed,
    /// The backup could not be made.
    BackupFailed(Fault),
}

/// The operation that a publication waits for.
#[derive(Debug, PartialEq, Eq)]
pub enum PublicationStage {
    /// Making sure that the candidate's and the backup's names are free, and
    /// reading the token of the staged definition.
    Prepare,
    /// Copying the staged definition to the candidate's name.
    CopyCandidate { staged: FileToken },
    /// Copying the live definition to the backup's name.
    CopyBackup { published: FileToken },
    /// Looking at the live definition and the backup once more.
    Recheck { published: FileToken, backup: FileToken },
    /// Exchanging candidate and live definition, then looking at both names.
    Exchange { published: FileToken, backup: FileToken },
    /// Renaming the candidate to the public name without replacing anything,
    /// then looking at both names.
    Rename { published: FileToken },
    /// Flushing the directory of a publication that is in place.
    Confirm { publication: ServiceFilePublication, boundary: Option<Fault> },
    /// Rolling the publication back.
    RollBack { publication: ServiceFilePublication, cause: Fault },
    /// Exchanging once more, then looking at both names.
    ExchangeBack { published: FileToken, backup: FileToken, displaced: FileToken },
    /// Flushing the directory after that.
    ConfirmBack { published: FileToken, backup: FileToken, boundary: Option<Fault> },
    /// Removing exactly the candidate.
    CleanCandidate { cause: CleanupCause, published: FileToken, backup: Option<FileToken> },
    /// Removing exactly the backup; `candidate` reports the removal before it.
    CleanBackup { cause: CleanupCause, backup: FileToken, candidate: String },
}

/// What the operation gave. A move that failed is still looked at.
#[derive(Debug, PartialEq, Eq)]
pub enum PublicationReply {
    Done,
    Token(FileToken),
    Moved { boundary: Option<Fault>, live: Option<FileToken>, other: Option<FileToken> },
    Cleaned(Result<ServiceFileCleanupOutcome, Fault>),
    RolledBack(Result<(), Fault>),
    Failed(Fault),
}

/// What a publication does next.
#[derive(Debug, PartialEq, Eq)]
pub enum PublicationStep {
    Await(PublicationStage),
    Finished(Result<ServiceFilePublication, Fault>),
}

/// Whether a publication ends with a failure.
pub open spec fn publication_fails(step: PublicationStep, messages: Seq<Seq<char>>) -> bool {
    step matches PublicationStep::Finished(Err(fault)) && fault@ == messages
}

/// The publication of a definition that displaced the previous one.
pub open spec fn exchanged(published: FileToken, displaced: FileToken, backup: FileToken) -> ServiceFilePublication {
    ServiceFilePublication {
        published,
        displaced: Some(displaced),
        backup: Some(backup),
        state: ServiceFileTransactionState::Pending,
    }
}

/// The publication of a definition where there was none.
pub open spec fn introduced(published: FileToken) -> ServiceFilePublication {
    ServiceFilePublication {
        published,
        displaced: None,
        backup: None,
        state: ServiceFileTransactionState::Pending,
    }
}

/// The operation whose durability is confirmed.
pub open spec fn publishing(publication: ServiceFilePublication) -> Seq<char> {
    if publication.displaced is Some {
        "publishing the service definition"@
    } else {
        "publishing the new service definition without replacement"@
    }
}

/// The failure of a publication whose durability was not confirmed.
pub open spec fn undone_publication(
    publication: ServiceFilePublication,
    rollback: Result<(), Fault>,
) -> Seq<char> {
    (if publication.displaced is Some {
        "service definition was exchanged but publication durability was not confirmed; rollback was "@
    } else {
        "new service definition reached its public path but publication durability was not confirmed; rollback was "@
    }) + operation_report(rollback)
}

/// Recovery files that are left alone.
pub open spec fn left_alone(what: Seq<char>, names: PublicationNames) -> Seq<char> {
    what + "; live "@ + names.path@ + ", displaced "@ + names.candidate@
        + ", and backup recovery files were preserved"@
}

/// The failure that a cleanup belongs to, with the reports of its removals.
pub open spec fn cleaned_up(cause: CleanupCause, candidate: Seq<char>, backup: Seq<char>) -> Seq<
    Seq<char>,
> {
    match cause {
        CleanupCause::WriterRestored => seq![
            "service definition changed at the exchange boundary; the actual displaced writer was restored. Candidate cleanup was "@
                + candidate + " and backup cleanup was "@ + backup,
        ],
        CleanupCause::NotPublished { boundary } => seq![
            "service definition was not published ("@ + (match boundary {
                Some(fault) => joined(fault@),
                None => "exchange returned an unexpected post-state"@,
            }) + "); candidate cleanup was "@ + candidate + " and backup cleanup was "@ + backup,
        ],
        CleanupCause::NotRenamed => seq![
            "new service definition was not published without replacement; candidate cleanup was "@
                + candidate,
        ],
        CleanupCause::BackupFailed(fault) => seq![
            "preserving the existing service definition failed; candidate cleanup was "@ + candidate,
        ] + fault@,
    }
}

/// What the candidate is called when it is removed.
pub fn candidate_purpose(cause: &CleanupCause) -> (r: &'static str)
    ensures
        r@ == match *cause {
            CleanupCause::WriterRestored => "restored staged service definition"@,
            CleanupCause::NotPublished { .. } => "unpublished staged service definition"@,
            CleanupCause::NotRenamed => "unpublished staged service definition"@,
            CleanupCause::BackupFailed(_) => "unused staged service definition"@,
        },
{
    match cause {
        CleanupCause::WriterRestored => "restored staged service definition",
        CleanupCause::NotPublished { .. } => "unpublished staged service definition",
        CleanupCause::NotRenamed => "unpublished staged service definition",
        CleanupCause::BackupFailed(_) => "unused staged service definition",
    }
}

/// Whether a cleanup removes the backup too.
pub open spec fn cleans_backup(cause: CleanupCause) -> bool {
    cause is WriterRestored || cause is NotPublished
}

/// What a publication does next.
pub open spec fn publication_next(
    names: PublicationNames,
    stage: PublicationStage,
    reply: PublicationReply,
    step: PublicationStep,
) -> bool {
    match (stage, reply) {
        (PublicationStage::Prepare, PublicationReply::Token(staged)) => step
            == PublicationStep::Await(PublicationStage::CopyCandidate { staged }),
        (PublicationStage::Prepare, PublicationReply::Failed(fault)) => publication_fails(
            step,
            fault@,
        ),
        (PublicationStage::CopyCandidate { staged: _ }, PublicationReply::Token(published)) => if names.previous is Some {
            step == PublicationStep::Await(PublicationStage::CopyBackup { published })
        } else {
            step == PublicationStep::Await(PublicationStage::Rename { published })
        },
        (
            PublicationStage::CopyCandidate { staged: _ },
            PublicationReply::Failed(fault),
        ) => publication_fails(
            step,
            seq!["staging service definition at "@ + names.candidate@] + fault@,
        ),
        (PublicationStage::CopyBackup { published }, PublicationReply::Token(backup)) => step
            == PublicationStep::Await(PublicationStage::Recheck { published, backup }),
        (PublicationStage::CopyBackup { published }, PublicationReply::Failed(fault)) => step
            == PublicationStep::Await(
            PublicationStage::CleanCandidate {
                cause: CleanupCause::BackupFailed(fault),
                published,
                backup: None,
            },
        ),
        (PublicationStage::Recheck { published, backup }, PublicationReply::Done) => step
            == PublicationStep::Await(PublicationStage::Exchange { published, backup }),
        (
            PublicationStage::Recheck { published: _, backup: _ },
            PublicationReply::Failed(fault),
        ) => publication_fails(step, fault@),
        (
            PublicationStage::Exchange { published, backup },
            PublicationReply::Moved { boundary, live, other },
        ) => match names.previous {
            None => publication_fails(step, misfit()),
            Some(previous) => if seen(live) == Some(published@) && seen(other) == Some(previous@) {
                step == PublicationStep::Await(
                    PublicationStage::Confirm {
                        publication: exchanged(published, previous, backup),
                        boundary,
                    },
                )
            } else if seen(live) == Some(published@) && other is Some {
                step == PublicationStep::Await(
                    PublicationStage::ExchangeBack { published, backup, displaced: other->0 },
                )
            } else if seen(live) == Some(previous@) && seen(other) == Some(published@) {
                step == PublicationStep::Await(
                    PublicationStage::CleanCandidate {
                        cause: CleanupCause::NotPublished { boundary },
                        published,
                        backup: Some(backup),
                    },
                )
            } else {
                publication_fails(
                    step,
                    seq![
                        left_alone(
                            "service-definition exchange ended in an unclassified external-writer state"@,
                            names,
                        ),
                    ],
                )
            },
        },
        (
            PublicationStage::Exchange { published: _, backup: _ },
            PublicationReply::Failed(fault),
        ) => publication_fails(step, fault@),
        (
            PublicationStage::Rename { published },
            PublicationReply::Moved { boundary, live, other },
        ) => if seen(live) == Some(published@) && other is None {
            step == PublicationStep::Await(
                PublicationStage::Confirm { publication: introduced(published), boundary },
            )
        } else if seen(other) == Some(published@) {
            step == PublicationStep::Await(
                PublicationStage::CleanCandidate {
                    cause: CleanupCause::NotRenamed,
                    published,
                    backup: None,
                },
            )
        } else {
            publication_fails(
                step,
                seq![
                    "new service-definition publication ended in an unclassified external-writer state; live "@
                        + names.path@ + " and candidate "@ + names.candidate@ + " were preserved"@,
                ],
            )
        },
        (PublicationStage::Rename { published: _ }, PublicationReply::Failed(fault)) => publication_fails(
            step,
            fault@,
        ),
        (PublicationStage::Confirm { publication, boundary: _ }, PublicationReply::Done) => step
            == PublicationStep::Finished(Ok(publication)),
        (PublicationStage::Confirm { publication, boundary }, PublicationReply::Failed(sync)) => step
            matches PublicationStep::Await(
            PublicationStage::RollBack { publication: p, cause },
        ) && p == publication && Some(cause@) == durability_problem(
            boundary,
            Err(sync),
            publishing(publication),
        ),
        (
            PublicationStage::RollBack { publication, cause },
            PublicationReply::RolledBack(rollback),
        ) => publication_fails(step, seq![undone_publication(publication, rollback)] + cause@),
        (
            PublicationStage::ExchangeBack { published, backup, displaced },
            PublicationReply::Moved { boundary, live, other },
        ) => if seen(live) == Some(displaced@) && seen(other) == Some(published@) {
            step == PublicationStep::Await(
                PublicationStage::ConfirmBack { published, backup, boundary },
            )
        } else {
            publication_fails(step, seq![not_put_back(names)])
        },
        (
            PublicationStage::ExchangeBack { published: _, backup: _, displaced: _ },
            PublicationReply::Failed(fault),
        ) => publication_fails(step, fault@),
        (
            PublicationStage::ConfirmBack { published, backup, boundary: _ },
            PublicationReply::Done,
        ) => step == PublicationStep::Await(
            PublicationStage::CleanCandidate {
                cause: CleanupCause::WriterRestored,
                published,
                backup: Some(backup),
            },
        ),
        (
            PublicationStage::ConfirmBack { published: _, backup: _, boundary: _ },
            PublicationReply::Failed(_),
        ) => publication_fails(step, seq![not_put_back(names)]),
        (
            PublicationStage::CleanCandidate { cause, published: _, backup },
            PublicationReply::Cleaned(result),
        ) => if backup is Some && cleans_backup(cause) {
            step matches PublicationStep::Await(
                PublicationStage::CleanBackup { cause: c, backup: b, candidate },
            ) && c == cause && Some(b) == backup && candidate@ == cleanup_report(result)
        } else {
            publication_fails(
                step,
                cleaned_up(cause, cleanup_report(result), "complete and durable"@),
            )
        },
        (
            PublicationStage::CleanBackup { cause, backup: _, candidate },
            PublicationReply::Cleaned(result),
        ) => publication_fails(step, cleaned_up(cause, candidate@, cleanup_report(result))),
        _ => publication_fails(step, misfit()),
    }
}

/// A displaced writer that was not put back.
pub open spec fn not_put_back(names: PublicationNames) -> Seq<char> {
    left_alone(
        "service definition changed at the exchange boundary and exact restoration failed"@,
        names,
    )
}

fn fail(fault: Fault) -> (r: PublicationStep)
    ensures
        publication_fails(r, fault@),
{
    PublicationStep::Finished(Err(fault))
}

fn left_alone_fault(what: &str, names: &PublicationNames) -> (r: Fault)
    ensures
        r@ == seq![left_alone(what@, *names)],
{
    let mut text = join5(
        what,
        "; live ",
        names.path.as_str(),
        ", displaced ",
        names.candidate.as_str(),
    );
    text.append(", and backup recovery files were preserved");
    Fault::from_text(text)
}

fn cleaned_up_fault(cause: CleanupCause, candidate: &str, backup: &str) -> (r: Fault)
    ensures
        r@ == cleaned_up(cause, candidate@, backup@),
{
    match cause {
        CleanupCause::WriterRestored => Fault::from_text(
            join4(
                "service definition changed at the exchange boundary; the actual displaced writer was restored. Candidate cleanup was ",
                candidate,
                " and backup cleanup was ",
                backup,
            ),
        ),
        CleanupCause::NotPublished { boundary } => {
            let how = match boundary {
                Some(fault) => fault.detail(),
                None => "exchange returned an unexpected post-state".to_owned(),
            };
            let mut text = join5(
                "service definition was not published (",
                how.as_str(),
                "); candidate cleanup was ",
                candidate,
                " and backup cleanup was ",
            );
            text.append(backup);
            Fault::from_text(text)
        },
        CleanupCause::NotRenamed => Fault::from_text(
            join2(
                "new service definition was not published without replacement; candidate cleanup was ",
                candidate,
            ),
        ),
        CleanupCause::BackupFailed(fault) => fault.context(
            join2(
                "preserving the existing service definition failed; candidate cleanup was ",
                candidate,
            ),
        ),
    }
}

fn after_exchange(
    names: &PublicationNames,
    published: FileToken,
    backup: FileToken,
    boundary: Option<Fault>,
    live: Option<FileToken>,
    other: Option<FileToken>,
) -> (r: PublicationStep)
    ensures
        publication_next(
            *names,
            PublicationStage::Exchange { published, backup },
            PublicationReply::Moved { boundary, live, other },
            r,
        ),
{
    let previous = match &names.previous {
        Some(previous) => previous,
        None => {
            return fail(misfit_fault());
        },
    };
    if shows(&live, &published) && shows(&other, previous) {
        return PublicationStep::Await(
            PublicationStage::Confirm {
                publication: ServiceFilePublication {
                    published,
                    displaced: Some(*previous),
                    backup: Some(backup),
                    state: ServiceFileTransactionState::Pending,
                },
                boundary,
            },
        );
    }
    if shows(&live, &published) {
        if let Some(displaced) = other {
            return PublicationStep::Await(
                PublicationStage::ExchangeBack { published, backup, displaced },
            );
        }
    }
    if shows(&live, previous) && shows(&other, &published) {
        return PublicationStep::Await(
            PublicationStage::CleanCandidate {
                cause: CleanupCause::NotPublished { boundary },
                published,
                backup: Some(backup),
            },
        );
    }
    fail(
        left_alone_fault(
            "service-definition exchange ended in an unclassified external-writer state",
            names,
        ),
    )
}

fn after_rename(
    names: &PublicationNames,
    published: FileToken,
    boundary: Option<Fault>,
    live: Option<FileToken>,
    other: Option<FileToken>,
) -> (r: PublicationStep)
    ensures
        publication_next(
            *names,
            PublicationStage::Rename { published },
            PublicationReply::Moved { boundary, live, other },
            r,
        ),
{
    if shows(&live, &published) && other.is_none() {
        return PublicationStep::Await(
            PublicationStage::Confirm {
                publication: ServiceFilePublication {
                    published,
                    displaced: None,
                    backup: None,
                    state: ServiceFileTransactionState::Pending,
                },
                boundary,
            },
        );
    }
    if shows(&other, &published) {
        return PublicationStep::Await(
            PublicationStage::CleanCandidate {
                cause: CleanupCause::NotRenamed,
                published,
                backup: None,
            },
        );
    }
    fail(
        Fault::from_text(
            join5(
                "new service-definition publication ended in an unclassified external-writer state; live ",
                names.path.as_str(),
                " and candidate ",
                names.candidate.as_str(),
                " were preserved",
            ),
        ),
    )
}

/// What a publication does next. It starts with `PublicationStage::Prepare`.
pub fn publish_service_file(names: &PublicationNames, stage: PublicationStage, reply: PublicationReply) -> (r:
    PublicationStep)
    ensures
        publication_next(*names, stage, reply, r),
{
    match (stage, reply) {
        (PublicationStage::Prepare, PublicationReply::Token(staged)) => PublicationStep::Await(
            PublicationStage::CopyCandidate { staged },
        ),
        (PublicationStage::Prepare, PublicationReply::Failed(fault)) => fail(fault),
        (PublicationStage::CopyCandidate { staged: _ }, PublicationReply::Token(published)) => {
            if names.previous.is_some() {
                PublicationStep::Await(PublicationStage::CopyBackup { published })
            } else {
                PublicationStep::Await(PublicationStage::Rename { published })
            }
        },
        (PublicationStage::CopyCandidate { staged: _ }, PublicationReply::Failed(fault)) => fail(
            fault.context(join2("staging service definition at ", names.candidate.as_str())),
        ),
        (
            PublicationStage::CopyBackup { published },
            PublicationReply::Token(backup),
        ) => PublicationStep::Await(PublicationStage::Recheck { published, backup }),
        (
            PublicationStage::CopyBackup { published },
            PublicationReply::Failed(fault),
        ) => PublicationStep::Await(
            PublicationStage::CleanCandidate {
                cause: CleanupCause::BackupFailed(fault),
                published,
                backup: None,
            },
        ),
        (
            PublicationStage::Recheck { published, backup },
            PublicationReply::Done,
        ) => PublicationStep::Await(PublicationStage::Exchange { published, backup }),
        (
            PublicationStage::Recheck { published: _, backup: _ },
            PublicationReply::Failed(fault),
        ) => fail(fault),
        (
            PublicationStage::Exchange { published, backup },
            PublicationReply::Moved { boundary, live, other },
        ) => after_exchange(names, published, backup, boundary, live, other),
        (
            PublicationStage::Exchange { published: _, backup: _ },
            PublicationReply::Failed(fault),
        ) => fail(fault),
        (
            PublicationStage::Rename { published },
            PublicationReply::Moved { boundary, live, other },
        ) => after_rename(names, published, boundary, live, other),
        (PublicationStage::Rename { published: _ }, PublicationReply::Failed(fault)) => fail(fault),
        (
            PublicationStage::Confirm { publication, boundary: _ },
            PublicationReply::Done,
        ) => PublicationStep::Finished(Ok(publication)),
        (PublicationStage::Confirm { publication, boundary }, PublicationReply::Failed(sync)) => {
            let operation = if publication.displaced.is_some() {
                "publishing the service definition"
            } else {
                "publishing the new service definition without replacement"
            };
            match confirm_service_namespace_durability(boundary, Err(sync), operation) {
                Ok(()) => PublicationStep::Finished(Ok(publication)),
                Err(cause) => PublicationStep::Await(
                    PublicationStage::RollBack { publication, cause },
                ),
            }
        },
        (
            PublicationStage::RollBack { publication, cause },
            PublicationReply::RolledBack(rollback),
        ) => {
            let what = if publication.displaced.is_some() {
                "service definition was exchanged but publication durability was not confirmed; rollback was "
            } else {
                "new service definition reached its public path but publication durability was not confirmed; rollback was "
            };
            fail(cause.context(join2(what, service_operation_result(rollback).as_str())))
        },
        (
            PublicationStage::ExchangeBack { published, backup, displaced },
            PublicationReply::Moved { boundary, live, other },
        ) => if shows(&live, &displaced) && shows(&other, &published) {
            PublicationStep::Await(PublicationStage::ConfirmBack { published, backup, boundary })
        } else {
            fail(
                left_alone_fault(
                    "service definition changed at the exchange boundary and exact restoration failed",
                    names,
                ),
            )
        },
        (
            PublicationStage::ExchangeBack { published: _, backup: _, displaced: _ },
            PublicationReply::Failed(fault),
        ) => fail(fault),
        (
            PublicationStage::ConfirmBack { published, backup, boundary: _ },
            PublicationReply::Done,
        ) => PublicationStep::Await(
            PublicationStage::CleanCandidate {
                cause: CleanupCause::WriterRestored,
                published,
                backup: Some(backup),
            },
        ),
        (
            PublicationStage::ConfirmBack { published: _, backup: _, boundary: _ },
            PublicationReply::Failed(_),
        ) => fail(
            left_alone_fault(
                "service definition changed at the exchange boundary and exact restoration failed",
                names,
            ),
        ),
        (
            PublicationStage::CleanCandidate { cause, published: _, backup },
            PublicationReply::Cleaned(result),
        ) => {
            let candidate = service_cleanup_result(result);
            let both = match &cause {
                CleanupCause::WriterRestored => true,
                CleanupCause::NotPublished { boundary: _ } => true,
                _ => false,
            };
            match backup {
                Some(backup) if both => PublicationStep::Await(
                    PublicationStage::CleanBackup { cause, backup, candidate },
                ),
                _ => fail(cleaned_up_fault(cause, candidate.as_str(), "complete and durable")),
            }
        },
        (
            PublicationStage::CleanBackup { cause, backup: _, candidate },
            PublicationReply::Cleaned(result),
        ) => fail(
            cleaned_up_fault(cause, candidate.as_str(), service_cleanup_result(result).as_str()),
        ),
        _ => fail(misfit_fault()),
    }
}

/// A publication succeeds only where the public name was seen to hold the
/// candidate, and the candidate's name to hold exactly what the public name
/// held before, or nothing where there was nothing.
pub proof fn law_publication_stands_only_on_the_exact_exchange(
    names: PublicationNames,
    stage: PublicationStage,
    reply: PublicationReply,
    step: PublicationStep,
)
    requires
        publication_next(names, stage, reply, step),
    ensures
        step matches PublicationStep::Finished(Ok(p)) ==> (stage matches PublicationStage::Confirm {
            publication,
            boundary,
        } && p == publication && reply is Done),
        step matches PublicationStep::Await(PublicationStage::Confirm { publication, boundary })
            ==> (reply matches PublicationReply::Moved { boundary: b, live, other } && seen(live)
            == Some(publication.published@) && seen(other) == seen(publication.displaced)
            && publication.state == ServiceFileTransactionState::Pending),
        step matches PublicationStep::Await(PublicationStage::Confirm { publication, boundary })
            ==> (publication.displaced is Some ==> publication.displaced == names.previous),
{
}

/// A file that another writer put under the public name is never removed by a
/// publication: what it removes are its own candidate and its own backup.
pub proof fn law_publication_removes_only_its_own_files(
    names: PublicationNames,
    stage: PublicationStage,
    reply: PublicationReply,
    step: PublicationStep,
)
    requires
        publication_next(names, stage, reply, step),
    ensures
        step matches PublicationStep::Await(
            PublicationStage::CleanCandidate { cause, published, backup },
        ) ==> match stage {
            PublicationStage::CopyBackup { published: own } => published == own,
            PublicationStage::Exchange { published: own, backup: kept } => published == own
                && backup == Some(kept) && (reply matches PublicationReply::Moved {
                boundary,
                live,
                other,
            } && seen(other) == Some(own@)),
            PublicationStage::Rename { published: own } => published == own && (reply matches
                PublicationReply::Moved { boundary, live, other } && seen(other) == Some(own@)),
            PublicationStage::ConfirmBack { published: own, backup: kept, boundary } => published
                == own && backup == Some(kept),
            _ => false,
        },
{
}

} // verus!
