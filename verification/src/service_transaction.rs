//! Ending a file transaction: committing or rolling back a published service
//! definition, and moving a definition away, for good or only for a while.
use vstd::prelude::*;

use crate::fault::{join2, join3, join4, join5, joined, Fault};
use crate::fs_ops::{seen, shows, token_text, FileToken};
use crate::removal::{changed_fault, changed_text, misfit, misfit_fault};
use crate::service_publication::{
    confirm_service_namespace_durability, durability_problem, operation_report,
    service_operation_result, PublicationNames, ServiceFileCleanupOutcome, ServiceFilePublication,
    ServiceFileTransactionState,
};

verus! {

/// What an operation of these transactions gave. A move that failed is still
/// looked at.
#[derive(Debug, PartialEq, Eq)]
pub enum TransactionReply {
    Done,
    Token(FileToken),
    /// What stands under one name.
    Sight(Option<FileToken>),
    Moved { boundary: Option<Fault>, live: Option<FileToken>, other: Option<FileToken> },
    Cleaned(Result<ServiceFileCleanupOutcome, Fault>),
    RolledBack(Result<(), Fault>),
    Failed(Fault),
}

// -- Committing a publication --

/// The operation that a commit waits for.
#[derive(Debug, PartialEq, Eq)]
pub enum CommitStage {
    /// Reading the token under the public name.
    BindLive,
    /// Removing exactly what the exchange displaced.
    RemoveDisplaced,
    /// Removing exactly the backup; `note` is what the removal before it left
    /// unconfirmed.
    RemoveBackup { note: Option<String> },
}

/// What a commit or a rollback does next; it ends in a state.
#[derive(Debug, PartialEq, Eq)]
pub enum CommitStep {
    Await(CommitStage),
    Finished { state: ServiceFileTransactionState, result: Result<(), Fault> },
}

/// Whether a commit ends in a state and with an outcome.
pub open spec fn commit_ends(
    step: CommitStep,
    state: ServiceFileTransactionState,
    messages: Option<Seq<Seq<char>>>,
) -> bool {
    step matches CommitStep::Finished { state: s, result } && s == state && match messages {
        None => result is Ok,
        Some(m) => result matches Err(fault) && fault@ == m,
    }
}

/// A transaction that was left for a human.
pub open spec fn preserved_publication() -> Seq<Seq<char>> {
    seq!["service-definition publication is preserved for manual recovery"@]
}

/// How a commit begins.
pub fn commit_publication(publication: &ServiceFilePublication) -> (r: CommitStep)
    ensures
        match publication.state {
            ServiceFileTransactionState::Pending => r == CommitStep::Await(CommitStage::BindLive),
            ServiceFileTransactionState::Finished => commit_ends(
                r,
                ServiceFileTransactionState::Finished,
                None,
            ),
            ServiceFileTransactionState::Preserved => commit_ends(
                r,
                ServiceFileTransactionState::Preserved,
                Some(preserved_publication()),
            ),
        },
{
    match publication.state {
        ServiceFileTransactionState::Pending => CommitStep::Await(CommitStage::BindLive),
        ServiceFileTransactionState::Finished => CommitStep::Finished {
            state: ServiceFileTransactionState::Finished,
            result: Ok(()),
        },
        ServiceFileTransactionState::Preserved => CommitStep::Finished {
            state: ServiceFileTransactionState::Preserved,
            result: Err(
                Fault::of("service-definition publication is preserved for manual recovery"),
            ),
        },
    }
}

/// The notes of a commit, joined.
pub open spec fn commit_notes(first: Option<Seq<char>>, second: Option<Seq<char>>) -> Option<
    Seq<char>,
> {
    match (first, second) {
        (None, None) => None,
        (Some(a), None) => Some(a),
        (None, Some(b)) => Some(b),
        (Some(a), Some(b)) => Some(a + "; "@ + b),
    }
}

/// The messages of a commit whose removals are not known to be durable.
pub open spec fn commit_messages(notes: Option<Seq<char>>) -> Option<Seq<Seq<char>>> {
    match notes {
        None => None,
        Some(text) => Some(
            seq![
                "the service definition was committed and its recovery entries were removed, but cleanup durability remained unconfirmed: "@
                    + text,
            ],
        ),
    }
}

/// What a removal left unconfirmed.
pub open spec fn cleanup_note(outcome: ServiceFileCleanupOutcome) -> Option<Seq<char>> {
    match outcome {
        ServiceFileCleanupOutcome::Durable => None,
        ServiceFileCleanupOutcome::DurabilityUnconfirmed(note) => Some(note@),
    }
}

/// What a commit does once the public name is known to be right.
pub open spec fn commit_after_bind(publication: ServiceFilePublication, step: CommitStep) -> bool {
    if publication.displaced is Some {
        step == CommitStep::Await(CommitStage::RemoveDisplaced)
    } else {
        commit_after_displaced(publication, None, step)
    }
}

/// What a commit does once nothing displaced is left.
pub open spec fn commit_after_displaced(
    publication: ServiceFilePublication,
    note: Option<Seq<char>>,
    step: CommitStep,
) -> bool {
    if publication.backup is Some {
        step matches CommitStep::Await(CommitStage::RemoveBackup { note: n })
            && crate::text::owned_text(n) == note
    } else {
        commit_ends(step, ServiceFileTransactionState::Finished, commit_messages(note))
    }
}

/// What a commit does next. A definition under the public name that is not the
/// published one stops it, and everything is kept.
pub open spec fn commit_next(
    names: PublicationNames,
    publication: ServiceFilePublication,
    stage: CommitStage,
    reply: TransactionReply,
    step: CommitStep,
) -> bool {
    match (stage, reply) {
        (CommitStage::BindLive, TransactionReply::Token(live)) => if live@
            == publication.published@ {
            commit_after_bind(publication, step)
        } else {
            commit_ends(
                step,
                ServiceFileTransactionState::Preserved,
                Some(
                    seq![
                        "published service definition changed before commit at "@ + names.path@
                            + "; expected token "@ + token_text(publication.published@)
                            + ", observed "@ + token_text(live@),
                    ],
                ),
            )
        },
        (CommitStage::BindLive, TransactionReply::Failed(fault)) => commit_ends(
            step,
            ServiceFileTransactionState::Preserved,
            Some(seq!["binding published service definition "@ + names.path@] + fault@),
        ),
        (CommitStage::RemoveDisplaced, TransactionReply::Cleaned(Ok(outcome))) => commit_after_displaced(
            publication,
            cleanup_note(outcome),
            step,
        ),
        (
            CommitStage::RemoveBackup { note },
            TransactionReply::Cleaned(Ok(outcome)),
        ) => commit_ends(
            step,
            ServiceFileTransactionState::Finished,
            commit_messages(commit_notes(crate::text::owned_text(note), cleanup_note(outcome))),
        ),
        (CommitStage::RemoveDisplaced, TransactionReply::Cleaned(Err(fault))) => commit_ends(
            step,
            ServiceFileTransactionState::Preserved,
            Some(fault@),
        ),
        (CommitStage::RemoveBackup { note: _ }, TransactionReply::Cleaned(Err(fault))) => commit_ends(
            step,
            ServiceFileTransactionState::Preserved,
            Some(fault@),
        ),
        _ => commit_ends(step, ServiceFileTransactionState::Preserved, Some(misfit())),
    }
}

fn preserve(fault: Fault) -> (r: CommitStep)
    ensures
        commit_ends(r, ServiceFileTransactionState::Preserved, Some(fault@)),
{
    CommitStep::Finished { state: ServiceFileTransactionState::Preserved, result: Err(fault) }
}

fn note_of(outcome: ServiceFileCleanupOutcome) -> (r: Option<String>)
    ensures
        crate::text::owned_text(r) == cleanup_note(outcome),
{
    match outcome {
        ServiceFileCleanupOutcome::Durable => None,
        ServiceFileCleanupOutcome::DurabilityUnconfirmed(note) => Some(note),
    }
}

fn finish_commit_with(note: Option<String>) -> (r: CommitStep)
    ensures
        commit_ends(
            r,
            ServiceFileTransactionState::Finished,
            commit_messages(crate::text::owned_text(note)),
        ),
{
    match note {
        None => CommitStep::Finished {
            state: ServiceFileTransactionState::Finished,
            result: Ok(()),
        },
        Some(text) => CommitStep::Finished {
            state: ServiceFileTransactionState::Finished,
            result: Err(
                Fault::from_text(
                    join2(
                        "the service definition was committed and its recovery entries were removed, but cleanup durability remained unconfirmed: ",
                        text.as_str(),
                    ),
                ),
            ),
        },
    }
}

fn continue_commit(publication: &ServiceFilePublication, note: Option<String>) -> (r: CommitStep)
    ensures
        commit_after_displaced(*publication, crate::text::owned_text(note), r),
{
    if publication.backup.is_some() {
        CommitStep::Await(CommitStage::RemoveBackup { note })
    } else {
        finish_commit_with(note)
    }
}

/// What a commit does next.
pub fn commit_publication_step(
    names: &PublicationNames,
    publication: &ServiceFilePublication,
    stage: CommitStage,
    reply: TransactionReply,
) -> (r: CommitStep)
    ensures
        commit_next(*names, *publication, stage, reply, r),
{
    match (stage, reply) {
        (CommitStage::BindLive, TransactionReply::Token(live)) => {
            if !live.same(&publication.published) {
                let mut text = join3(
                    "published service definition changed before commit at ",
                    names.path.as_str(),
                    "; expected token ",
                );
                text.append(publication.published.to_text().as_str());
                text.append(", observed ");
                text.append(live.to_text().as_str());
                return preserve(Fault::from_text(text));
            }
            if publication.displaced.is_some() {
                CommitStep::Await(CommitStage::RemoveDisplaced)
            } else {
                continue_commit(publication, None)
            }
        },
        (CommitStage::BindLive, TransactionReply::Failed(fault)) => preserve(
            fault.context(
                join2("binding published service definition ", names.path.as_str()),
            ),
        ),
        (CommitStage::RemoveDisplaced, TransactionReply::Cleaned(Ok(outcome))) => continue_commit(
            publication,
            note_of(outcome),
        ),
        (CommitStage::RemoveDisplaced, TransactionReply::Cleaned(Err(fault))) => preserve(fault),
        (CommitStage::RemoveBackup { note }, TransactionReply::Cleaned(Ok(outcome))) => {
            let notes = match (note, note_of(outcome)) {
                (None, None) => None,
                (Some(a), None) => Some(a),
                (None, Some(b)) => Some(b),
                (Some(a), Some(b)) => Some(join3(a.as_str(), "; ", b.as_str())),
            };
            finish_commit_with(notes)
        },
        (CommitStage::RemoveBackup { note: _ }, TransactionReply::Cleaned(Err(fault))) => preserve(
            fault,
        ),
        _ => preserve(misfit_fault()),
    }
}

/// A commit removes recovery files only after the public name was seen to hold
/// the published definition; anything else there keeps them all.
pub proof fn law_commit_keeps_recovery_files_of_a_changed_definition(
    names: PublicationNames,
    publication: ServiceFilePublication,
    live: FileToken,
    step: CommitStep,
)
    requires
        commit_next(
            names,
            publication,
            CommitStage::BindLive,
            TransactionReply::Token(live),
            step,
        ),
        live@ != publication.published@,
    ensures
        step matches CommitStep::Finished { state, result } && state
            == ServiceFileTransactionState::Preserved && result is Err,
{
}

// -- Rolling a publication back --

/// Where the published definition is when a rollback removes it.
#[derive(Clone, Copy, Debug, PartialEq, Eq, Structural)]
pub enum PublishedPlace {
    /// Under the candidate's name, after the previous definition was put back.
    Candidate,
    /// Under the public name, where there was no previous definition.
    Path,
}

impl PublishedPlace {
    /// What is removed from there.
    pub open spec fn purpose_text(self) -> Seq<char> {
        match self {
            PublishedPlace::Candidate => "rolled-back service candidate"@,
            PublishedPlace::Path => "rolled-back new service definition"@,
        }
    }

    /// What is removed from there.
    pub fn purpose(self) -> (r: &'static str)
        ensures
            r@ == self.purpose_text(),
    {
        match self {
            PublishedPlace::Candidate => "rolled-back service candidate",
            PublishedPlace::Path => "rolled-back new service definition",
        }
    }
}

/// The operation that a rollback waits for.
#[derive(Debug, PartialEq, Eq)]
pub enum RollbackStage {
    /// Reading the token under the public name.
    BindLive,
    /// Reading the token of what the exchange displaced.
    BindDisplaced,
    /// Exchanging the two, then looking at both names.
    Exchange,
    /// Flushing the directory.
    Confirm { boundary: Option<Fault> },
    /// Removing exactly the published definition from where it is now.
    RemovePublished { from: PublishedPlace },
    /// Removing exactly the backup.
    RemoveBackup,
}

/// What a rollback does next; it ends in a state.
#[derive(Debug, PartialEq, Eq)]
pub enum RollbackStep {
    Await(RollbackStage),
    Finished { state: ServiceFileTransactionState, result: Result<(), Fault> },
}

/// Whether a rollback ends in a state and with an outcome.
pub open spec fn rollback_ends(
    step: RollbackStep,
    state: ServiceFileTransactionState,
    messages: Option<Seq<Seq<char>>>,
) -> bool {
    step matches RollbackStep::Finished { state: s, result } && s == state && match messages {
        None => result is Ok,
        Some(m) => result matches Err(fault) && fault@ == m,
    }
}

/// How a rollback begins.
pub fn rollback_publication(publication: &ServiceFilePublication) -> (r: RollbackStep)
    ensures
        match publication.state {
            ServiceFileTransactionState::Pending => r == RollbackStep::Await(
                RollbackStage::BindLive,
            ),
            ServiceFileTransactionState::Finished => rollback_ends(
                r,
                ServiceFileTransactionState::Finished,
                None,
            ),
            ServiceFileTransactionState::Preserved => rollback_ends(
                r,
                ServiceFileTransactionState::Preserved,
                Some(preserved_publication()),
            ),
        },
{
    match publication.state {
        ServiceFileTransactionState::Pending => RollbackStep::Await(RollbackStage::BindLive),
        ServiceFileTransactionState::Finished => RollbackStep::Finished {
            state: ServiceFileTransactionState::Finished,
            result: Ok(()),
        },
        ServiceFileTransactionState::Preserved => RollbackStep::Finished {
            state: ServiceFileTransactionState::Preserved,
            result: Err(
                Fault::of("service-definition publication is preserved for manual recovery"),
            ),
        },
    }
}

/// What the public name is called at the begin of a rollback.
pub open spec fn rollback_purpose(publication: ServiceFilePublication) -> Seq<char> {
    if publication.displaced is Some {
        "published service definition before rollback"@
    } else {
        "new service definition before rollback"@
    }
}

/// What a rollback does once the published definition is removed.
pub open spec fn rollback_after_removal(publication: ServiceFilePublication, step: RollbackStep) -> bool {
    if publication.backup is Some {
        step == RollbackStep::Await(RollbackStage::RemoveBackup)
    } else {
        rollback_ends(step, ServiceFileTransactionState::Finished, None)
    }
}

/// What a rollback does next. Every failure keeps what is there.
pub open spec fn rollback_next(
    names: PublicationNames,
    publication: ServiceFilePublication,
    stage: RollbackStage,
    reply: TransactionReply,
    step: RollbackStep,
) -> bool {
    let kept = ServiceFileTransactionState::Preserved;
    match (stage, reply) {
        (RollbackStage::BindLive, TransactionReply::Token(live)) => if live@
            != publication.published@ {
            rollback_ends(
                step,
                kept,
                Some(
                    seq![
                        changed_text(
                            rollback_purpose(publication),
                            names.path@,
                            publication.published@,
                            live@,
                        ),
                    ],
                ),
            )
        } else if publication.displaced is Some {
            step == RollbackStep::Await(RollbackStage::BindDisplaced)
        } else {
            step == RollbackStep::Await(
                RollbackStage::RemovePublished { from: PublishedPlace::Path },
            )
        },
        (RollbackStage::BindLive, TransactionReply::Failed(fault)) => rollback_ends(
            step,
            kept,
            Some(
                seq!["binding "@ + rollback_purpose(publication) + " at "@ + names.path@] + fault@,
            ),
        ),
        (RollbackStage::BindDisplaced, TransactionReply::Token(token)) => match publication.displaced {
            None => rollback_ends(step, kept, Some(misfit())),
            Some(displaced) => if token@ == displaced@ {
                step == RollbackStep::Await(RollbackStage::Exchange)
            } else {
                rollback_ends(
                    step,
                    kept,
                    Some(
                        seq![
                            changed_text(
                                "displaced previous service definition before rollback"@,
                                names.candidate@,
                                displaced@,
                                token@,
                            ),
                        ],
                    ),
                )
            },
        },
        (RollbackStage::BindDisplaced, TransactionReply::Failed(fault)) => rollback_ends(
            step,
            kept,
            Some(
                seq![
                    "binding displaced previous service definition before rollback at "@
                        + names.candidate@,
                ] + fault@,
            ),
        ),
        (
            RollbackStage::Exchange,
            TransactionReply::Moved { boundary, live, other },
        ) => if publication.displaced is Some && seen(live) == seen(publication.displaced) && seen(
            other,
        ) == Some(publication.published@) {
            step == RollbackStep::Await(RollbackStage::Confirm { boundary })
        } else {
            rollback_ends(
                step,
                kept,
                Some(
                    seq![
                        "service-definition rollback ended in an unclassified state; live "@
                            + names.path@ + ", displaced "@ + names.candidate@
                            + ", and backup recovery files were preserved"@,
                    ],
                ),
            )
        },
        (RollbackStage::Exchange, TransactionReply::Failed(fault)) => rollback_ends(
            step,
            kept,
            Some(fault@),
        ),
        (RollbackStage::Confirm { boundary: _ }, TransactionReply::Done) => step
            == RollbackStep::Await(
            RollbackStage::RemovePublished { from: PublishedPlace::Candidate },
        ),
        (RollbackStage::Confirm { boundary }, TransactionReply::Failed(sync)) => rollback_ends(
            step,
            kept,
            durability_problem(
                boundary,
                Err(sync),
                "restoring the previous service definition"@,
            ),
        ),
        (RollbackStage::RemovePublished { .. }, TransactionReply::Cleaned(Ok(outcome))) => match outcome {
            ServiceFileCleanupOutcome::Durable => rollback_after_removal(publication, step),
            ServiceFileCleanupOutcome::DurabilityUnconfirmed(note) => rollback_ends(
                step,
                kept,
                Some(seq![note@]),
            ),
        },
        (RollbackStage::RemoveBackup, TransactionReply::Cleaned(Ok(outcome))) => match outcome {
            ServiceFileCleanupOutcome::Durable => rollback_ends(
                step,
                ServiceFileTransactionState::Finished,
                None,
            ),
            ServiceFileCleanupOutcome::DurabilityUnconfirmed(note) => rollback_ends(
                step,
                kept,
                Some(seq![note@]),
            ),
        },
        (RollbackStage::RemovePublished { .. }, TransactionReply::Cleaned(Err(fault))) => rollback_ends(
            step,
            kept,
            Some(fault@),
        ),
        (RollbackStage::RemoveBackup, TransactionReply::Cleaned(Err(fault))) => rollback_ends(
            step,
            kept,
            Some(fault@),
        ),
        _ => rollback_ends(step, kept, Some(misfit())),
    }
}

fn keep(fault: Fault) -> (r: RollbackStep)
    ensures
        rollback_ends(r, ServiceFileTransactionState::Preserved, Some(fault@)),
{
    RollbackStep::Finished { state: ServiceFileTransactionState::Preserved, result: Err(fault) }
}

fn finish_rollback() -> (r: RollbackStep)
    ensures
        rollback_ends(r, ServiceFileTransactionState::Finished, None),
{
    RollbackStep::Finished { state: ServiceFileTransactionState::Finished, result: Ok(()) }
}

/// What a rollback does next.
pub fn rollback_publication_step(
    names: &PublicationNames,
    publication: &ServiceFilePublication,
    stage: RollbackStage,
    reply: TransactionReply,
) -> (r: RollbackStep)
    ensures
        rollback_next(*names, *publication, stage, reply, r),
{
    let purpose = if publication.displaced.is_some() {
        "published service definition before rollback"
    } else {
        "new service definition before rollback"
    };
    match (stage, reply) {
        (RollbackStage::BindLive, TransactionReply::Token(live)) => {
            if !live.same(&publication.published) {
                return keep(
                    changed_fault(purpose, names.path.as_str(), &publication.published, &live),
                );
            }
            if publication.displaced.is_some() {
                RollbackStep::Await(RollbackStage::BindDisplaced)
            } else {
                RollbackStep::Await(RollbackStage::RemovePublished { from: PublishedPlace::Path })
            }
        },
        (RollbackStage::BindLive, TransactionReply::Failed(fault)) => keep(
            fault.context(join4("binding ", purpose, " at ", names.path.as_str())),
        ),
        (RollbackStage::BindDisplaced, TransactionReply::Token(token)) => match &publication.displaced {
            None => keep(misfit_fault()),
            Some(displaced) => if token.same(displaced) {
                RollbackStep::Await(RollbackStage::Exchange)
            } else {
                keep(
                    changed_fault(
                        "displaced previous service definition before rollback",
                        names.candidate.as_str(),
                        displaced,
                        &token,
                    ),
                )
            },
        },
        (RollbackStage::BindDisplaced, TransactionReply::Failed(fault)) => keep(
            fault.context(
                join2(
                    "binding displaced previous service definition before rollback at ",
                    names.candidate.as_str(),
                ),
            ),
        ),
        (RollbackStage::Exchange, TransactionReply::Moved { boundary, live, other }) => {
            let restored = match &publication.displaced {
                Some(displaced) => shows(&live, displaced) && shows(&other, &publication.published),
                None => false,
            };
            if restored {
                return RollbackStep::Await(RollbackStage::Confirm { boundary });
            }
            keep(
                Fault::from_text(
                    join5(
                        "service-definition rollback ended in an unclassified state; live ",
                        names.path.as_str(),
                        ", displaced ",
                        names.candidate.as_str(),
                        ", and backup recovery files were preserved",
                    ),
                ),
            )
        },
        (RollbackStage::Exchange, TransactionReply::Failed(fault)) => keep(fault),
        (RollbackStage::Confirm { boundary: _ }, TransactionReply::Done) => RollbackStep::Await(
            RollbackStage::RemovePublished { from: PublishedPlace::Candidate },
        ),
        (RollbackStage::Confirm { boundary }, TransactionReply::Failed(sync)) => {
            match confirm_service_namespace_durability(
                boundary,
                Err(sync),
                "restoring the previous service definition",
            ) {
                Ok(()) => RollbackStep::Await(
                    RollbackStage::RemovePublished { from: PublishedPlace::Candidate },
                ),
                Err(fault) => keep(fault),
            }
        },
        (RollbackStage::RemovePublished { .. }, TransactionReply::Cleaned(Ok(outcome))) => match outcome {
            ServiceFileCleanupOutcome::Durable => if publication.backup.is_some() {
                RollbackStep::Await(RollbackStage::RemoveBackup)
            } else {
                finish_rollback()
            },
            ServiceFileCleanupOutcome::DurabilityUnconfirmed(note) => keep(Fault::from_text(note)),
        },
        (RollbackStage::RemovePublished { .. }, TransactionReply::Cleaned(Err(fault))) => keep(fault),
        (RollbackStage::RemoveBackup, TransactionReply::Cleaned(Ok(outcome))) => match outcome {
            ServiceFileCleanupOutcome::Durable => finish_rollback(),
            ServiceFileCleanupOutcome::DurabilityUnconfirmed(note) => keep(Fault::from_text(note)),
        },
        (RollbackStage::RemoveBackup, TransactionReply::Cleaned(Err(fault))) => keep(fault),
        _ => keep(misfit_fault()),
    }
}

/// A rollback removes the published definition only after the previous one
/// was seen back under the public name, and then from the candidate's name; from the
/// public name it is removed only where there was no previous definition.
pub proof fn law_rollback_restores_before_it_removes(
    names: PublicationNames,
    publication: ServiceFilePublication,
    stage: RollbackStage,
    reply: TransactionReply,
    step: RollbackStep,
    from: PublishedPlace,
)
    requires
        rollback_next(names, publication, stage, reply, step),
        step == RollbackStep::Await(RollbackStage::RemovePublished { from }),
    ensures
        match from {
            PublishedPlace::Candidate => stage is Confirm,
            PublishedPlace::Path => publication.displaced is None && stage
                == RollbackStage::BindLive,
        },
{
}

// -- Moving a definition away --

/// The names of a removal, and the token that the definition must have.
#[derive(Debug, PartialEq, Eq)]
pub struct RemovalNames {
    pub path: String,
    pub removed: String,
    pub token: FileToken,
}

/// The operation that the begin of a removal waits for.
#[derive(Debug, PartialEq, Eq)]
pub enum MoveAwayStage {
    /// Making sure that the recovery name is free and the definition unchanged.
    Prepare,
    /// Renaming the definition without replacing anything, then looking at
    /// both names.
    Move,
    /// Flushing the directory.
    Confirm { boundary: Option<Fault> },
    /// Rolling the removal back.
    RollBack { cause: Fault },
    /// Renaming another writer's definition back, then looking at both names.
    PutBack { displaced: FileToken },
}

/// What the begin of a removal does next; it succeeds with a pending removal.
#[derive(Debug, PartialEq, Eq)]
pub enum MoveAwayStep {
    Await(MoveAwayStage),
    Finished(Result<(), Fault>),
}

/// Whether moving the definition away ends with a failure.
pub open spec fn move_away_fails(step: MoveAwayStep, messages: Seq<Seq<char>>) -> bool {
    step matches MoveAwayStep::Finished(Err(fault)) && fault@ == messages
}

/// Both names of a removal that are left alone.
pub open spec fn both_left(what: Seq<char>, names: RemovalNames) -> Seq<char> {
    what + "; live "@ + names.path@ + " and removed "@ + names.removed@ + " were preserved"@
}

fn both_left_fault(what: &str, names: &RemovalNames) -> (r: Fault)
    ensures
        r@ == seq![both_left(what@, *names)],
{
    let mut text = join5(
        what,
        "; live ",
        names.path.as_str(),
        " and removed ",
        names.removed.as_str(),
    );
    text.append(" were preserved");
    Fault::from_text(text)
}

/// What the begin of a removal does next.
pub open spec fn move_away_next(
    names: RemovalNames,
    stage: MoveAwayStage,
    reply: TransactionReply,
    step: MoveAwayStep,
) -> bool {
    match (stage, reply) {
        (MoveAwayStage::Prepare, TransactionReply::Done) => step == MoveAwayStep::Await(
            MoveAwayStage::Move,
        ),
        (MoveAwayStage::Move, TransactionReply::Moved { boundary, live, other }) => if live is None
            && seen(other) == Some(names.token@) {
            step == MoveAwayStep::Await(MoveAwayStage::Confirm { boundary })
        } else if seen(live) == Some(names.token@) && other is None {
            move_away_fails(
                step,
                seq![
                    "service definition was not removed: "@ + (match boundary {
                        Some(fault) => joined(fault@),
                        None => "no-replace removal returned an unexpected post-state"@,
                    }),
                ],
            )
        } else if live is None && other is Some {
            step == MoveAwayStep::Await(MoveAwayStage::PutBack { displaced: other->0 })
        } else {
            move_away_fails(
                step,
                seq![
                    both_left(
                        "service-definition removal ended in an unclassified external-writer state"@,
                        names,
                    ),
                ],
            )
        },
        (MoveAwayStage::Confirm { boundary: _ }, TransactionReply::Done) => step
            == MoveAwayStep::Finished(Ok(())),
        (MoveAwayStage::Confirm { boundary }, TransactionReply::Failed(sync)) => step matches
            MoveAwayStep::Await(MoveAwayStage::RollBack { cause }) && Some(cause@)
            == durability_problem(
            boundary,
            Err(sync),
            "moving the service definition to its uninstall recovery path"@,
        ),
        (MoveAwayStage::RollBack { cause }, TransactionReply::RolledBack(rollback)) => move_away_fails(
            step,
            seq![
                "service definition was removed but directory durability was not confirmed; rollback was "@
                    + operation_report(rollback),
            ] + cause@,
        ),
        (
            MoveAwayStage::PutBack { displaced },
            TransactionReply::Moved { boundary, live, other },
        ) => move_away_fails(
            step,
            seq![
                if seen(live) == Some(displaced@) && other is None && boundary is None {
                    "service definition changed at the uninstall boundary; the actual displaced writer was restored without replacement"@
                } else {
                    both_left(
                        "service definition changed at the uninstall boundary and exact restoration failed"@,
                        names,
                    )
                },
            ],
        ),
        (MoveAwayStage::Prepare, TransactionReply::Failed(fault)) => move_away_fails(step, fault@),
        (MoveAwayStage::Move, TransactionReply::Failed(fault)) => move_away_fails(step, fault@),
        (MoveAwayStage::PutBack { displaced: _ }, TransactionReply::Failed(fault)) => move_away_fails(
            step,
            fault@,
        ),
        _ => move_away_fails(step, misfit()),
    }
}

fn refuse(fault: Fault) -> (r: MoveAwayStep)
    ensures
        move_away_fails(r, fault@),
{
    MoveAwayStep::Finished(Err(fault))
}

/// What the begin of a removal does next. It starts with
/// `MoveAwayStage::Prepare`.
pub fn begin_service_file_removal(names: &RemovalNames, stage: MoveAwayStage, reply: TransactionReply) -> (r:
    MoveAwayStep)
    ensures
        move_away_next(*names, stage, reply, r),
{
    match (stage, reply) {
        (MoveAwayStage::Prepare, TransactionReply::Done) => MoveAwayStep::Await(
            MoveAwayStage::Move,
        ),
        (MoveAwayStage::Prepare, TransactionReply::Failed(fault)) => refuse(fault),
        (MoveAwayStage::Move, TransactionReply::Moved { boundary, live, other }) => {
            if live.is_none() && shows(&other, &names.token) {
                return MoveAwayStep::Await(MoveAwayStage::Confirm { boundary });
            }
            if shows(&live, &names.token) && other.is_none() {
                let how = match boundary {
                    Some(fault) => fault.detail(),
                    None => "no-replace removal returned an unexpected post-state".to_owned(),
                };
                return refuse(
                    Fault::from_text(join2("service definition was not removed: ", how.as_str())),
                );
            }
            match (live, other) {
                (None, Some(displaced)) => MoveAwayStep::Await(
                    MoveAwayStage::PutBack { displaced },
                ),
                _ => refuse(
                    both_left_fault(
                        "service-definition removal ended in an unclassified external-writer state",
                        names,
                    ),
                ),
            }
        },
        (MoveAwayStage::Move, TransactionReply::Failed(fault)) => refuse(fault),
        (MoveAwayStage::Confirm { boundary: _ }, TransactionReply::Done) => MoveAwayStep::Finished(
            Ok(()),
        ),
        (MoveAwayStage::Confirm { boundary }, TransactionReply::Failed(sync)) => {
            match confirm_service_namespace_durability(
                boundary,
                Err(sync),
                "moving the service definition to its uninstall recovery path",
            ) {
                Ok(()) => MoveAwayStep::Finished(Ok(())),
                Err(cause) => MoveAwayStep::Await(MoveAwayStage::RollBack { cause }),
            }
        },
        (MoveAwayStage::RollBack { cause }, TransactionReply::RolledBack(rollback)) => refuse(
            cause.context(
                join2(
                    "service definition was removed but directory durability was not confirmed; rollback was ",
                    service_operation_result(rollback).as_str(),
                ),
            ),
        ),
        (
            MoveAwayStage::PutBack { displaced },
            TransactionReply::Moved { boundary, live, other },
        ) => {
            if shows(&live, &displaced) && other.is_none() && boundary.is_none() {
                refuse(
                    Fault::of(
                        "service definition changed at the uninstall boundary; the actual displaced writer was restored without replacement",
                    ),
                )
            } else {
                refuse(
                    both_left_fault(
                        "service definition changed at the uninstall boundary and exact restoration failed",
                        names,
                    ),
                )
            }
        },
        (MoveAwayStage::PutBack { displaced: _ }, TransactionReply::Failed(fault)) => refuse(fault),
        _ => refuse(misfit_fault()),
    }
}

/// A pending removal has moved away exactly the definition that was captured:
/// the public name was seen free, and the recovery name to hold it.
pub proof fn law_removal_moves_only_the_captured_definition(
    names: RemovalNames,
    stage: MoveAwayStage,
    reply: TransactionReply,
    step: MoveAwayStep,
)
    requires
        move_away_next(names, stage, reply, step),
    ensures
        step matches MoveAwayStep::Finished(Ok(_)) ==> stage is Confirm,
        step matches MoveAwayStep::Await(MoveAwayStage::Confirm { boundary }) ==> (reply matches
            TransactionReply::Moved { boundary: b, live, other } && live is None && seen(other)
            == Some(names.token@)),
{
}

// -- Ending a removal --

/// How a committed removal ended.
#[derive(Debug, PartialEq, Eq)]
pub enum ServiceFileRemovalCommit {
    Durable,
    AppliedCleanupUnconfirmed(Fault),
}

/// The operation that the end of a removal waits for.
#[derive(Debug, PartialEq, Eq)]
pub enum RemovalEndStage {
    /// Looking at the public name.
    LookLive,
    /// Removing exactly the moved definition.
    Remove,
    /// Looking at the recovery name after that failed.
    ClassifyRemoved { cause: Fault },
    /// Looking at the public name, where the moved definition is still in place.
    ClassifyLive { cause: Fault },
    /// Reading the token of the moved definition.
    BindRemoved,
    /// Renaming it back without replacing anything, then looking at both names.
    PutBack,
    /// Flushing the directory.
    Confirm { boundary: Option<Fault> },
}

/// What the commit of a removal does next; it ends in a state.
#[derive(Debug, PartialEq, Eq)]
pub enum RemovalCommitStep {
    Await(RemovalEndStage),
    Finished {
        state: ServiceFileTransactionState,
        result: Result<ServiceFileRemovalCommit, Fault>,
    },
}

/// Whether the commit of a removal ends with a failure.
pub open spec fn removal_commit_fails(
    step: RemovalCommitStep,
    state: ServiceFileTransactionState,
    messages: Seq<Seq<char>>,
) -> bool {
    step matches RemovalCommitStep::Finished { state: s, result } && s == state && (result matches
        Err(fault) && fault@ == messages)
}

/// A removal that was left for a human.
pub open spec fn preserved_removal() -> Seq<Seq<char>> {
    seq!["removed service definition is preserved for manual recovery"@]
}

/// How the commit of a removal begins.
pub fn commit_removal(state: ServiceFileTransactionState) -> (r: RemovalCommitStep)
    ensures
        match state {
            ServiceFileTransactionState::Pending => r == RemovalCommitStep::Await(
                RemovalEndStage::LookLive,
            ),
            ServiceFileTransactionState::Finished => r == (RemovalCommitStep::Finished {
                state,
                result: Ok(ServiceFileRemovalCommit::Durable),
            }),
            ServiceFileTransactionState::Preserved => removal_commit_fails(
                r,
                state,
                preserved_removal(),
            ),
        },
{
    match state {
        ServiceFileTransactionState::Pending => RemovalCommitStep::Await(RemovalEndStage::LookLive),
        ServiceFileTransactionState::Finished => RemovalCommitStep::Finished {
            state,
            result: Ok(ServiceFileRemovalCommit::Durable),
        },
        ServiceFileTransactionState::Preserved => RemovalCommitStep::Finished {
            state,
            result: Err(Fault::of("removed service definition is preserved for manual recovery")),
        },
    }
}

/// What a removal that was carried out is worth.
pub fn finish_commit(cleanup: ServiceFileCleanupOutcome) -> (r: ServiceFileRemovalCommit)
    ensures
        match cleanup {
            ServiceFileCleanupOutcome::Durable => r == ServiceFileRemovalCommit::Durable,
            ServiceFileCleanupOutcome::DurabilityUnconfirmed(note) => r matches
                ServiceFileRemovalCommit::AppliedCleanupUnconfirmed(fault) && fault@ == seq![note@],
        },
{
    match cleanup {
        ServiceFileCleanupOutcome::Durable => ServiceFileRemovalCommit::Durable,
        ServiceFileCleanupOutcome::DurabilityUnconfirmed(note) =>
            ServiceFileRemovalCommit::AppliedCleanupUnconfirmed(Fault::from_text(note)),
    }
}

/// The failure of a removal whose cleanup failed.
pub open spec fn uncommitted(names: RemovalNames, cause: Seq<Seq<char>>) -> Seq<Seq<char>> {
    seq!["committing service uninstall at "@ + names.path@] + cause
}

/// What the commit of a removal does next. Where the cleanup failed, the
/// recovery name is looked at first; the public name only where the moved
/// definition is still in place.
pub open spec fn removal_commit_next(
    names: RemovalNames,
    stage: RemovalEndStage,
    reply: TransactionReply,
    step: RemovalCommitStep,
) -> bool {
    let kept = ServiceFileTransactionState::Preserved;
    match (stage, reply) {
        (RemovalEndStage::LookLive, TransactionReply::Sight(live)) => if live is None {
            step == RemovalCommitStep::Await(RemovalEndStage::Remove)
        } else {
            removal_commit_fails(
                step,
                kept,
                seq![
                    "service definition "@ + names.path@
                        + " appeared before uninstall commit; owned removed definition was preserved at "@
                        + names.removed@,
                ],
            )
        },
        (RemovalEndStage::LookLive, TransactionReply::Failed(fault)) => removal_commit_fails(
            step,
            ServiceFileTransactionState::Pending,
            fault@,
        ),
        (RemovalEndStage::Remove, TransactionReply::Cleaned(Ok(cleanup))) => step matches
            RemovalCommitStep::Finished { state, result } && state
            == ServiceFileTransactionState::Finished && match cleanup {
            ServiceFileCleanupOutcome::Durable => result == Ok::<ServiceFileRemovalCommit, Fault>(
                ServiceFileRemovalCommit::Durable,
            ),
            ServiceFileCleanupOutcome::DurabilityUnconfirmed(note) => result matches Ok(
                ServiceFileRemovalCommit::AppliedCleanupUnconfirmed(fault),
            ) && fault@ == seq![note@],
        },
        (RemovalEndStage::Remove, TransactionReply::Cleaned(Err(fault))) => step
            == RemovalCommitStep::Await(RemovalEndStage::ClassifyRemoved { cause: fault }),
        (RemovalEndStage::ClassifyRemoved { cause }, TransactionReply::Sight(removed)) => if seen(
            removed,
        ) == Some(names.token@) {
            step == RemovalCommitStep::Await(RemovalEndStage::ClassifyLive { cause })
        } else {
            removal_commit_fails(step, kept, uncommitted(names, cause@))
        },
        (RemovalEndStage::ClassifyRemoved { cause: _ }, TransactionReply::Failed(fault)) => {
            removal_commit_fails(
                step,
                ServiceFileTransactionState::Pending,
                seq![
                    "classifying preserved service-uninstall recovery path after cleanup failure: "@
                        + names.removed@,
                ] + fault@,
            )
        },
        (RemovalEndStage::ClassifyLive { cause }, TransactionReply::Sight(live)) => {
            removal_commit_fails(
                step,
                if live is None {
                    ServiceFileTransactionState::Pending
                } else {
                    kept
                },
                uncommitted(names, cause@),
            )
        },
        (RemovalEndStage::ClassifyLive { cause: _ }, TransactionReply::Failed(fault)) => {
            removal_commit_fails(step, ServiceFileTransactionState::Pending, fault@)
        },
        _ => removal_commit_fails(step, kept, misfit()),
    }
}

fn uncommitted_fault(names: &RemovalNames, cause: Fault) -> (r: Fault)
    ensures
        r@ == uncommitted(*names, cause@),
{
    cause.context(join2("committing service uninstall at ", names.path.as_str()))
}

/// What the commit of a removal does next.
pub fn commit_removal_step(names: &RemovalNames, stage: RemovalEndStage, reply: TransactionReply) -> (r:
    RemovalCommitStep)
    ensures
        removal_commit_next(*names, stage, reply, r),
{
    match (stage, reply) {
        (RemovalEndStage::LookLive, TransactionReply::Sight(live)) => {
            if live.is_none() {
                return RemovalCommitStep::Await(RemovalEndStage::Remove);
            }
            RemovalCommitStep::Finished {
                state: ServiceFileTransactionState::Preserved,
                result: Err(
                    Fault::from_text(
                        join4(
                            "service definition ",
                            names.path.as_str(),
                            " appeared before uninstall commit; owned removed definition was preserved at ",
                            names.removed.as_str(),
                        ),
                    ),
                ),
            }
        },
        (
            RemovalEndStage::LookLive,
            TransactionReply::Failed(fault),
        ) => RemovalCommitStep::Finished {
            state: ServiceFileTransactionState::Pending,
            result: Err(fault),
        },
        (
            RemovalEndStage::Remove,
            TransactionReply::Cleaned(Ok(cleanup)),
        ) => RemovalCommitStep::Finished {
            state: ServiceFileTransactionState::Finished,
            result: Ok(finish_commit(cleanup)),
        },
        (
            RemovalEndStage::Remove,
            TransactionReply::Cleaned(Err(fault)),
        ) => RemovalCommitStep::Await(RemovalEndStage::ClassifyRemoved { cause: fault }),
        (RemovalEndStage::ClassifyRemoved { cause }, TransactionReply::Sight(removed)) => {
            if shows(&removed, &names.token) {
                return RemovalCommitStep::Await(RemovalEndStage::ClassifyLive { cause });
            }
            RemovalCommitStep::Finished {
                state: ServiceFileTransactionState::Preserved,
                result: Err(uncommitted_fault(names, cause)),
            }
        },
        (
            RemovalEndStage::ClassifyRemoved { cause: _ },
            TransactionReply::Failed(fault),
        ) => RemovalCommitStep::Finished {
            state: ServiceFileTransactionState::Pending,
            result: Err(
                fault.context(
                    join2(
                        "classifying preserved service-uninstall recovery path after cleanup failure: ",
                        names.removed.as_str(),
                    ),
                ),
            ),
        },
        (RemovalEndStage::ClassifyLive { cause }, TransactionReply::Sight(live)) => {
            let state = if live.is_none() {
                ServiceFileTransactionState::Pending
            } else {
                ServiceFileTransactionState::Preserved
            };
            RemovalCommitStep::Finished { state, result: Err(uncommitted_fault(names, cause)) }
        },
        (
            RemovalEndStage::ClassifyLive { cause: _ },
            TransactionReply::Failed(fault),
        ) => RemovalCommitStep::Finished {
            state: ServiceFileTransactionState::Pending,
            result: Err(fault),
        },
        _ => RemovalCommitStep::Finished {
            state: ServiceFileTransactionState::Preserved,
            result: Err(misfit_fault()),
        },
    }
}

/// What the rollback of a removal does next; it ends in a state.
#[derive(Debug, PartialEq, Eq)]
pub enum RemovalRollbackStep {
    Await(RemovalEndStage),
    Finished { state: ServiceFileTransactionState, result: Result<(), Fault> },
}

/// Whether the rollback of a removal ends in a state and with an outcome.
pub open spec fn removal_rollback_ends(
    step: RemovalRollbackStep,
    state: ServiceFileTransactionState,
    messages: Option<Seq<Seq<char>>>,
) -> bool {
    step matches RemovalRollbackStep::Finished { state: s, result } && s == state && match messages {
        None => result is Ok,
        Some(m) => result matches Err(fault) && fault@ == m,
    }
}

/// How the rollback of a removal begins. One that was carried out is not taken
/// back.
pub fn rollback_removal(state: ServiceFileTransactionState) -> (r: RemovalRollbackStep)
    ensures
        match state {
            ServiceFileTransactionState::Pending => r == RemovalRollbackStep::Await(
                RemovalEndStage::LookLive,
            ),
            ServiceFileTransactionState::Finished => removal_rollback_ends(r, state, None),
            ServiceFileTransactionState::Preserved => removal_rollback_ends(
                r,
                state,
                Some(preserved_removal()),
            ),
        },
{
    match state {
        ServiceFileTransactionState::Pending => RemovalRollbackStep::Await(
            RemovalEndStage::LookLive,
        ),
        ServiceFileTransactionState::Finished => RemovalRollbackStep::Finished {
            state,
            result: Ok(()),
        },
        ServiceFileTransactionState::Preserved => RemovalRollbackStep::Finished {
            state,
            result: Err(Fault::of("removed service definition is preserved for manual recovery")),
        },
    }
}

/// What the rollback of a removal does next.
pub open spec fn removal_rollback_next(
    names: RemovalNames,
    stage: RemovalEndStage,
    reply: TransactionReply,
    step: RemovalRollbackStep,
) -> bool {
    let kept = ServiceFileTransactionState::Preserved;
    match (stage, reply) {
        (RemovalEndStage::LookLive, TransactionReply::Sight(live)) => if live is None {
            step == RemovalRollbackStep::Await(RemovalEndStage::BindRemoved)
        } else {
            removal_rollback_ends(
                step,
                kept,
                Some(
                    seq![
                        "service definition "@ + names.path@
                            + " was claimed during uninstall; removed definition remains preserved at "@
                            + names.removed@,
                    ],
                ),
            )
        },
        (RemovalEndStage::BindRemoved, TransactionReply::Token(token)) => if token@
            == names.token@ {
            step == RemovalRollbackStep::Await(RemovalEndStage::PutBack)
        } else {
            removal_rollback_ends(
                step,
                kept,
                Some(
                    seq![
                        changed_text(
                            "removed service definition before rollback"@,
                            names.removed@,
                            names.token@,
                            token@,
                        ),
                    ],
                ),
            )
        },
        (RemovalEndStage::BindRemoved, TransactionReply::Failed(fault)) => removal_rollback_ends(
            step,
            kept,
            Some(
                seq![
                    "binding removed service definition before rollback at "@ + names.removed@,
                ] + fault@,
            ),
        ),
        (RemovalEndStage::PutBack, TransactionReply::Moved { boundary, live, other }) => if seen(
            live,
        ) == Some(names.token@) && other is None {
            step == RemovalRollbackStep::Await(RemovalEndStage::Confirm { boundary })
        } else {
            removal_rollback_ends(
                step,
                kept,
                Some(
                    seq![
                        both_left(
                            "service-definition uninstall rollback ended in an unclassified state"@,
                            names,
                        ),
                    ],
                ),
            )
        },
        (RemovalEndStage::Confirm { boundary: _ }, TransactionReply::Done) => removal_rollback_ends(
            step,
            ServiceFileTransactionState::Finished,
            None,
        ),
        (RemovalEndStage::Confirm { boundary }, TransactionReply::Failed(sync)) => removal_rollback_ends(
            step,
            ServiceFileTransactionState::Finished,
            durability_problem(boundary, Err(sync), "restoring the removed service definition"@),
        ),
        (RemovalEndStage::LookLive, TransactionReply::Failed(fault)) => removal_rollback_ends(
            step,
            kept,
            Some(fault@),
        ),
        (RemovalEndStage::PutBack, TransactionReply::Failed(fault)) => removal_rollback_ends(
            step,
            kept,
            Some(fault@),
        ),
        _ => removal_rollback_ends(step, kept, Some(misfit())),
    }
}

fn keep_removed(fault: Fault) -> (r: RemovalRollbackStep)
    ensures
        removal_rollback_ends(r, ServiceFileTransactionState::Preserved, Some(fault@)),
{
    RemovalRollbackStep::Finished {
        state: ServiceFileTransactionState::Preserved,
        result: Err(fault),
    }
}

/// What the rollback of a removal does next.
pub fn rollback_removal_step(names: &RemovalNames, stage: RemovalEndStage, reply: TransactionReply) -> (r:
    RemovalRollbackStep)
    ensures
        removal_rollback_next(*names, stage, reply, r),
{
    match (stage, reply) {
        (RemovalEndStage::LookLive, TransactionReply::Sight(live)) => {
            if live.is_none() {
                return RemovalRollbackStep::Await(RemovalEndStage::BindRemoved);
            }
            keep_removed(
                Fault::from_text(
                    join4(
                        "service definition ",
                        names.path.as_str(),
                        " was claimed during uninstall; removed definition remains preserved at ",
                        names.removed.as_str(),
                    ),
                ),
            )
        },
        (RemovalEndStage::LookLive, TransactionReply::Failed(fault)) => keep_removed(fault),
        (RemovalEndStage::BindRemoved, TransactionReply::Token(token)) => if token.same(
            &names.token,
        ) {
            RemovalRollbackStep::Await(RemovalEndStage::PutBack)
        } else {
            keep_removed(
                changed_fault(
                    "removed service definition before rollback",
                    names.removed.as_str(),
                    &names.token,
                    &token,
                ),
            )
        },
        (RemovalEndStage::BindRemoved, TransactionReply::Failed(fault)) => keep_removed(
            fault.context(
                join2(
                    "binding removed service definition before rollback at ",
                    names.removed.as_str(),
                ),
            ),
        ),
        (RemovalEndStage::PutBack, TransactionReply::Moved { boundary, live, other }) => {
            if shows(&live, &names.token) && other.is_none() {
                return RemovalRollbackStep::Await(RemovalEndStage::Confirm { boundary });
            }
            keep_removed(
                both_left_fault(
                    "service-definition uninstall rollback ended in an unclassified state",
                    names,
                ),
            )
        },
        (RemovalEndStage::PutBack, TransactionReply::Failed(fault)) => keep_removed(fault),
        (
            RemovalEndStage::Confirm { boundary: _ },
            TransactionReply::Done,
        ) => RemovalRollbackStep::Finished {
            state: ServiceFileTransactionState::Finished,
            result: Ok(()),
        },
        (
            RemovalEndStage::Confirm { boundary },
            TransactionReply::Failed(sync),
        ) => RemovalRollbackStep::Finished {
            state: ServiceFileTransactionState::Finished,
            result: confirm_service_namespace_durability(
                boundary,
                Err(sync),
                "restoring the removed service definition",
            ),
        },
        _ => keep_removed(misfit_fault()),
    }
}

/// A removal whose cleanup failed can be tried again only where the moved
/// definition was seen in place and the public name free, or where a look failed;
/// every other state is left for a human.
pub proof fn law_a_failed_cleanup_is_classified_exactly(
    names: RemovalNames,
    stage: RemovalEndStage,
    reply: TransactionReply,
    step: RemovalCommitStep,
)
    requires
        removal_commit_next(names, stage, reply, step),
        stage is ClassifyRemoved || stage is ClassifyLive,
    ensures
        step matches RemovalCommitStep::Finished { result, .. } ==> result is Err,
        step matches RemovalCommitStep::Await(next) ==> stage is ClassifyRemoved && next is ClassifyLive
            && (reply matches TransactionReply::Sight(removed) && seen(removed) == Some(
            names.token@,
        )),
        step matches RemovalCommitStep::Finished { state, .. } ==> (state
            == ServiceFileTransactionState::Pending <==> reply is Failed || stage is ClassifyLive
            && reply == TransactionReply::Sight(None)),
{
}

} // verus!
