//! What publishing, committing, taking back and removing a service definition come
//! to, and what a failure on the way says.
use vstd::prelude::*;

use crate::cause::stems_from;
use crate::fault::Fault;
use crate::fs_ops::{FileToken, RemoveExactOutcome};
use crate::service_publication::{
    confirm_service_namespace_durability, publish_service_file, remove_service_file_exact,
    CleanupCause, PublicationNames, PublicationReply, PublicationStage, PublicationStep,
    ServiceFileCleanupOutcome, ServiceFilePublication, ServiceFileTransactionState,
};
use crate::service_transaction::{
    begin_service_file_removal, commit_publication, commit_publication_step, commit_removal,
    commit_removal_step, finish_commit, rollback_publication, rollback_publication_step,
    rollback_removal, rollback_removal_step, CommitStage, CommitStep, MoveAwayStage, MoveAwayStep,
    PublishedPlace, RemovalCommitStep, RemovalEndStage, RemovalNames, RemovalRollbackStep,
    RollbackStage, RollbackStep, ServiceFileRemovalCommit, TransactionReply,
};

verus! {

/// A publication over a previous definition copies the staged one, keeps a backup,
/// looks once more, exchanges, and stands once the exchange is confirmed: with the copy
/// as what is published, the previous definition as what was displaced, and the backup.
pub proof fn law_a_definition_is_exchanged(
    names: &PublicationNames,
    stage: PublicationStage,
    reply: PublicationReply,
    previous: FileToken,
    step: PublicationStep,
)
    requires
        call_ensures(publish_service_file, (names, stage, reply), step),
        names.previous == Some(previous),
    ensures
        stage is Prepare ==> (reply matches PublicationReply::Token(token) ==> step
            == PublicationStep::Await(PublicationStage::CopyCandidate { staged: token })),
        stage is CopyCandidate ==> (reply matches PublicationReply::Token(token) ==> step
            == PublicationStep::Await(PublicationStage::CopyBackup { published: token })),
        stage matches PublicationStage::CopyBackup { published } ==> (reply matches
            PublicationReply::Token(token) ==> step == PublicationStep::Await(
            PublicationStage::Recheck { published, backup: token },
        )),
        stage matches PublicationStage::Recheck { published, backup } ==> (reply is Done ==> step
            == PublicationStep::Await(PublicationStage::Exchange { published, backup })),
        stage matches PublicationStage::Exchange { published, backup } ==> (reply matches
            PublicationReply::Moved { boundary, live: Some(live), other: Some(other) } ==> {
            &&& live@ == published@ && other@ == previous@ ==> step == PublicationStep::Await(
                PublicationStage::Confirm {
                    publication: ServiceFilePublication {
                        published,
                        displaced: Some(previous),
                        backup: Some(backup),
                        state: ServiceFileTransactionState::Pending,
                    },
                    boundary,
                },
            )
            &&& live@ == published@ && other@ != previous@ ==> step == PublicationStep::Await(
                PublicationStage::ExchangeBack { published, backup, displaced: other },
            )
            &&& live@ == previous@ && other@ == published@ && live@ != published@ ==> step
                == PublicationStep::Await(
                PublicationStage::CleanCandidate {
                    cause: CleanupCause::NotPublished { boundary },
                    published,
                    backup: Some(backup),
                },
            )
        }),
        stage matches PublicationStage::Confirm { publication, .. } ==> (reply is Done ==> step
            == PublicationStep::Finished(Ok(publication))),
        stage matches PublicationStage::ExchangeBack { published, backup, displaced } ==> (reply
            matches PublicationReply::Moved { boundary, live: Some(live), other: Some(other) } ==> (
        live@ == displaced@ && other@ == published@ ==> step == PublicationStep::Await(
            PublicationStage::ConfirmBack { published, backup, boundary },
        ))),
        stage matches PublicationStage::ConfirmBack { published, backup, .. } ==> (reply is Done
            ==> step == PublicationStep::Await(
            PublicationStage::CleanCandidate {
                cause: CleanupCause::WriterRestored,
                published,
                backup: Some(backup),
            },
        )),
{
}

/// A publication where there was no definition copies the staged one and renames the
/// copy, without a backup and without anything displaced.
pub proof fn law_a_definition_is_introduced(
    names: &PublicationNames,
    stage: PublicationStage,
    reply: PublicationReply,
    step: PublicationStep,
)
    requires
        call_ensures(publish_service_file, (names, stage, reply), step),
        names.previous is None,
    ensures
        stage is CopyCandidate ==> (reply matches PublicationReply::Token(token) ==> step
            == PublicationStep::Await(PublicationStage::Rename { published: token })),
        stage matches PublicationStage::Rename { published } ==> {
            &&& reply matches PublicationReply::Moved { boundary, live: Some(live), other: None }
                ==> (live@ == published@ ==> step == PublicationStep::Await(
                PublicationStage::Confirm {
                    publication: ServiceFilePublication {
                        published,
                        displaced: None,
                        backup: None,
                        state: ServiceFileTransactionState::Pending,
                    },
                    boundary,
                },
            ))
            &&& reply matches PublicationReply::Moved { other: Some(other), .. } ==> (other@
                == published@ ==> step == PublicationStep::Await(
                PublicationStage::CleanCandidate {
                    cause: CleanupCause::NotRenamed,
                    published,
                    backup: None,
                },
            ))
        },
{
}

/// A publication that fails says what failed; one whose durability is in doubt is
/// rolled back; one whose backup failed removes its candidate.
pub proof fn law_a_failed_publication_says_why(
    names: &PublicationNames,
    stage: PublicationStage,
    reply: PublicationReply,
    step: PublicationStep,
)
    requires
        call_ensures(publish_service_file, (names, stage, reply), step),
    ensures
        stage is Prepare || stage is CopyCandidate || stage is Recheck || stage is Exchange
            || stage is Rename || stage is ExchangeBack ==> (reply matches PublicationReply::Failed(
            error,
        ) ==> (step matches PublicationStep::Finished(Err(fault)) && stems_from(fault@, error@))),
        stage matches PublicationStage::CopyBackup { published: own } ==> (reply matches
            PublicationReply::Failed(error) ==> (step matches PublicationStep::Await(
            PublicationStage::CleanCandidate { cause, published, backup },
        ) && cause == CleanupCause::BackupFailed(error) && published == own && backup is None)),
        stage matches PublicationStage::Confirm { publication: p, boundary } ==> (reply matches
            PublicationReply::Failed(sync) ==> (step matches PublicationStep::Await(
            PublicationStage::RollBack { publication, cause },
        ) && publication == p && (boundary is None ==> stems_from(cause@, sync@)) && (
        boundary matches Some(error) ==> stems_from(cause@, error@)))),
        stage matches PublicationStage::RollBack { cause, .. } ==> (reply is RolledBack ==> (step
            matches PublicationStep::Finished(Err(fault)) && stems_from(fault@, cause@))),
        stage matches PublicationStage::CleanCandidate { cause: why, backup: Some(kept), .. } ==> (
        reply is Cleaned && (why is WriterRestored || why is NotPublished) ==> (step matches
            PublicationStep::Await(PublicationStage::CleanBackup { cause, backup, .. }) && cause
            == why && backup == kept)),
        stage matches PublicationStage::CleanCandidate { cause: CleanupCause::BackupFailed(error), .. }
            ==> (reply is Cleaned ==> (step matches PublicationStep::Finished(Err(fault))
            && stems_from(fault@, error@))),
        stage is CleanBackup ==> (step matches PublicationStep::Finished(Err(_))),
{
}

/// A removal is durable exactly where it was carried out and its directory flushed,
/// then or when that was tried again. One that was not carried out fails.
pub proof fn law_a_removal_is_worth_what_was_flushed(
    path: &str,
    purpose: &str,
    removed: Result<RemoveExactOutcome, Fault>,
    flushed_again: Result<(), Fault>,
    r: Result<ServiceFileCleanupOutcome, Fault>,
)
    requires
        call_ensures(remove_service_file_exact, (path, purpose, removed, flushed_again), r),
    ensures
        removed matches Err(error) ==> (r matches Err(fault) && stems_from(fault@, error@)),
        removed == Ok::<RemoveExactOutcome, Fault>(RemoveExactOutcome::Removed) ==> r == Ok::<
            ServiceFileCleanupOutcome,
            Fault,
        >(ServiceFileCleanupOutcome::Durable),
        removed is Ok && !(removed->Ok_0 is Removed) && r is Ok ==> (flushed_again is Ok <==> r
            == Ok::<ServiceFileCleanupOutcome, Fault>(ServiceFileCleanupOutcome::Durable)),
{
}

/// A change of names is worth something exactly if its directory was flushed.
pub proof fn law_a_change_of_names_is_worth_what_was_flushed(
    boundary: Option<Fault>,
    flushed: Result<(), Fault>,
    operation: &str,
    r: Result<(), Fault>,
)
    requires
        call_ensures(confirm_service_namespace_durability, (boundary, flushed, operation), r),
    ensures
        r is Ok <==> flushed is Ok,
        flushed matches Err(sync) ==> (boundary is None ==> (r matches Err(fault) && stems_from(
            fault@,
            sync@,
        ))),
        flushed is Err ==> (boundary matches Some(error) ==> (r matches Err(fault) && stems_from(
            fault@,
            error@,
        ))),
{
}

/// A commit finds the published definition in place, removes what was displaced and the
/// backup, and is finished then; without them it is finished at once. It succeeds
/// exactly if all of that is known to last.
pub proof fn law_a_publication_is_committed(
    names: &PublicationNames,
    publication: &ServiceFilePublication,
    stage: CommitStage,
    reply: TransactionReply,
    first: CommitStep,
    step: CommitStep,
)
    requires
        call_ensures(commit_publication, (publication,), first),
        call_ensures(commit_publication_step, (names, publication, stage, reply), step),
    ensures
        publication.state == ServiceFileTransactionState::Pending ==> first == CommitStep::Await(
            CommitStage::BindLive,
        ),
        publication.state == ServiceFileTransactionState::Finished ==> (first matches
            CommitStep::Finished { state, result } && state == publication.state && result is Ok),
        publication.state == ServiceFileTransactionState::Preserved ==> (first matches
            CommitStep::Finished { state, result } && state == publication.state && result is Err),
        stage is BindLive ==> (reply matches TransactionReply::Token(live) ==> (live@
            == publication.published@ ==> {
            &&& publication.displaced is Some ==> step == CommitStep::Await(
                CommitStage::RemoveDisplaced,
            )
            &&& publication.displaced is None && publication.backup is Some ==> step
                == CommitStep::Await(CommitStage::RemoveBackup { note: None })
            &&& publication.displaced is None && publication.backup is None ==> (step matches
                CommitStep::Finished { state, result } && state
                == ServiceFileTransactionState::Finished && result is Ok)
        })),
        stage is RemoveDisplaced && publication.backup is Some ==> (reply matches
            TransactionReply::Cleaned(Ok(cleanup)) ==> (step matches CommitStep::Await(
            CommitStage::RemoveBackup { note },
        ) && note is None == (cleanup is Durable))),
        stage matches CommitStage::RemoveBackup { note } ==> (reply matches
            TransactionReply::Cleaned(Ok(cleanup)) ==> (step matches CommitStep::Finished {
            state,
            result,
        } && state == ServiceFileTransactionState::Finished && result is Ok == (note is None
            && cleanup is Durable))),
        stage is BindLive ==> (reply matches TransactionReply::Failed(error) ==> (step matches
            CommitStep::Finished { state, result } && state
            == ServiceFileTransactionState::Preserved && (result matches Err(fault) && stems_from(
            fault@,
            error@,
        )))),
        stage is RemoveDisplaced || stage is RemoveBackup ==> (reply matches
            TransactionReply::Cleaned(Err(error)) ==> (step matches CommitStep::Finished {
            state,
            result,
        } && state == ServiceFileTransactionState::Preserved && (result matches Err(fault)
            && stems_from(fault@, error@)))),
{
    if stage is BindLive && publication.displaced is None && publication.backup is Some {
        if let CommitStep::Await(CommitStage::RemoveBackup { note }) = step {
            assert(note is None);
        }
    }
}

/// A rollback of a publication that displaced a definition exchanges the two again,
/// removes the published one and the backup, and is finished then. Where there was no
/// definition, the published one is removed.
pub proof fn law_a_publication_is_taken_back(
    names: &PublicationNames,
    publication: &ServiceFilePublication,
    stage: RollbackStage,
    reply: TransactionReply,
    first: RollbackStep,
    step: RollbackStep,
)
    requires
        call_ensures(rollback_publication, (publication,), first),
        call_ensures(rollback_publication_step, (names, publication, stage, reply), step),
    ensures
        publication.state == ServiceFileTransactionState::Pending ==> first == RollbackStep::Await(
            RollbackStage::BindLive,
        ),
        publication.state == ServiceFileTransactionState::Finished ==> (first matches
            RollbackStep::Finished { state, result } && state == publication.state && result is Ok),
        publication.state == ServiceFileTransactionState::Preserved ==> (first matches
            RollbackStep::Finished { state, result } && state == publication.state && result
            is Err),
        stage is BindLive ==> (reply matches TransactionReply::Token(live) ==> if live@
            != publication.published@ {
            step matches RollbackStep::Finished { state, result } && state
                == ServiceFileTransactionState::Preserved && result is Err
        } else if publication.displaced is Some {
            step == RollbackStep::Await(RollbackStage::BindDisplaced)
        } else {
            step == RollbackStep::Await(
                RollbackStage::RemovePublished { from: PublishedPlace::Path },
            )
        }),
        stage is BindDisplaced ==> (publication.displaced matches Some(displaced) ==> (reply matches
            TransactionReply::Token(token) ==> if token@ == displaced@ {
            step == RollbackStep::Await(RollbackStage::Exchange)
        } else {
            step matches RollbackStep::Finished { state, result } && state
                == ServiceFileTransactionState::Preserved && result is Err
        })),
        stage is Exchange ==> (publication.displaced matches Some(displaced) ==> (reply matches
            TransactionReply::Moved { boundary, live: Some(live), other: Some(other) } ==> if live@
            == displaced@ && other@ == publication.published@ {
            step == RollbackStep::Await(RollbackStage::Confirm { boundary })
        } else {
            step matches RollbackStep::Finished { state, result } && state
                == ServiceFileTransactionState::Preserved && result is Err
        })),
        stage is Confirm && reply is Done ==> step == RollbackStep::Await(
            RollbackStage::RemovePublished { from: PublishedPlace::Candidate },
        ),
        stage is RemovePublished && reply == TransactionReply::Cleaned(
            Ok(ServiceFileCleanupOutcome::Durable),
        ) ==> if publication.backup is Some {
            step == RollbackStep::Await(RollbackStage::RemoveBackup)
        } else {
            step matches RollbackStep::Finished { state, result } && state
                == ServiceFileTransactionState::Finished && result is Ok
        },
        stage is RemoveBackup && reply == TransactionReply::Cleaned(
            Ok(ServiceFileCleanupOutcome::Durable),
        ) ==> (step matches RollbackStep::Finished { state, result } && state
            == ServiceFileTransactionState::Finished && result is Ok),
        step matches RollbackStep::Finished { state, result } ==> (state
            == ServiceFileTransactionState::Finished <==> result is Ok),
        stage is BindLive || stage is BindDisplaced || stage is Exchange ==> (reply matches
            TransactionReply::Failed(error) ==> (step matches RollbackStep::Finished {
            result: Err(fault),
            ..
        } && stems_from(fault@, error@))),
        stage is RemovePublished || stage is RemoveBackup ==> (reply matches
            TransactionReply::Cleaned(Err(error)) ==> (step matches RollbackStep::Finished {
            result: Err(fault),
            ..
        } && stems_from(fault@, error@))),
{
}

/// A definition is moved away: once its recovery name is free it is renamed, and once
/// the rename is confirmed it is gone. One that is still in place was not removed, and
/// another writer's definition is put back.
pub proof fn law_a_definition_is_moved_away(
    names: &RemovalNames,
    stage: MoveAwayStage,
    reply: TransactionReply,
    step: MoveAwayStep,
)
    requires
        call_ensures(begin_service_file_removal, (names, stage, reply), step),
    ensures
        stage is Prepare && reply is Done ==> step == MoveAwayStep::Await(MoveAwayStage::Move),
        stage is Move ==> {
            &&& reply matches TransactionReply::Moved { boundary, live: None, other: Some(other) }
                ==> if other@ == names.token@ {
                step == MoveAwayStep::Await(MoveAwayStage::Confirm { boundary })
            } else {
                step == MoveAwayStep::Await(MoveAwayStage::PutBack { displaced: other })
            }
            &&& reply matches TransactionReply::Moved { live: Some(_), .. } ==> (step matches
                MoveAwayStep::Finished(Err(_)))
        },
        stage is Confirm && reply is Done <==> (step matches MoveAwayStep::Finished(Ok(_))),
        stage matches MoveAwayStage::Confirm { boundary } ==> (reply matches
            TransactionReply::Failed(sync) ==> (step matches MoveAwayStep::Await(
            MoveAwayStage::RollBack { cause },
        ) && (boundary is None ==> stems_from(cause@, sync@)))),
        stage matches MoveAwayStage::RollBack { cause } ==> (reply is RolledBack ==> (step matches
            MoveAwayStep::Finished(Err(fault)) && stems_from(fault@, cause@))),
        stage is Prepare || stage is Move || stage is PutBack ==> (reply matches
            TransactionReply::Failed(error) ==> (step matches MoveAwayStep::Finished(Err(fault))
            && stems_from(fault@, error@))),
{
}

/// A removal is committed: once the public name is seen free the moved definition is
/// removed, and the transaction is finished then.
pub proof fn law_a_removal_is_committed(
    names: &RemovalNames,
    state: ServiceFileTransactionState,
    stage: RemovalEndStage,
    reply: TransactionReply,
    cleanup: ServiceFileCleanupOutcome,
    first: RemovalCommitStep,
    step: RemovalCommitStep,
    worth: ServiceFileRemovalCommit,
)
    requires
        call_ensures(commit_removal, (state,), first),
        call_ensures(commit_removal_step, (names, stage, reply), step),
        call_ensures(finish_commit, (cleanup,), worth),
    ensures
        state == ServiceFileTransactionState::Pending <==> first == RemovalCommitStep::Await(
            RemovalEndStage::LookLive,
        ),
        first matches RemovalCommitStep::Finished { state: s, result } ==> s == state && (result
            is Ok <==> state == ServiceFileTransactionState::Finished),
        stage is LookLive ==> (reply matches TransactionReply::Sight(live) ==> if live is None {
            step == RemovalCommitStep::Await(RemovalEndStage::Remove)
        } else {
            step matches RemovalCommitStep::Finished { state: s, result } && s
                == ServiceFileTransactionState::Preserved && result is Err
        }),
        stage is Remove ==> (reply matches TransactionReply::Cleaned(Ok(outcome)) ==> (step matches
            RemovalCommitStep::Finished { state: s, result: Ok(commit) } && s
            == ServiceFileTransactionState::Finished && commit is Durable == (outcome is Durable))),
        stage is Remove ==> (reply matches TransactionReply::Cleaned(Err(error)) ==> step
            == RemovalCommitStep::Await(RemovalEndStage::ClassifyRemoved { cause: error })),
        stage matches RemovalEndStage::ClassifyLive { cause } ==> (reply is Sight ==> (step matches
            RemovalCommitStep::Finished { result: Err(fault), .. } && stems_from(fault@, cause@))),
        step matches RemovalCommitStep::Finished { result: Ok(_), .. } ==> stage is Remove && reply
            is Cleaned,
        worth is Durable == (cleanup is Durable),
{
}

/// A removal is taken back: once the public name is seen free and the moved definition
/// is still the captured one, it is renamed back, and the transaction is finished once
/// that is confirmed. One that was committed is not taken back.
pub proof fn law_a_removal_is_taken_back(
    names: &RemovalNames,
    state: ServiceFileTransactionState,
    stage: RemovalEndStage,
    reply: TransactionReply,
    first: RemovalRollbackStep,
    step: RemovalRollbackStep,
)
    requires
        call_ensures(rollback_removal, (state,), first),
        call_ensures(rollback_removal_step, (names, stage, reply), step),
    ensures
        state == ServiceFileTransactionState::Pending <==> first == RemovalRollbackStep::Await(
            RemovalEndStage::LookLive,
        ),
        first matches RemovalRollbackStep::Finished { state: s, result } ==> s == state && (result
            is Ok <==> state == ServiceFileTransactionState::Finished),
        stage is LookLive ==> (reply matches TransactionReply::Sight(live) ==> if live is None {
            step == RemovalRollbackStep::Await(RemovalEndStage::BindRemoved)
        } else {
            step matches RemovalRollbackStep::Finished { state: s, result } && s
                == ServiceFileTransactionState::Preserved && result is Err
        }),
        stage is BindRemoved ==> (reply matches TransactionReply::Token(token) ==> if token@
            == names.token@ {
            step == RemovalRollbackStep::Await(RemovalEndStage::PutBack)
        } else {
            step matches RemovalRollbackStep::Finished { state: s, result } && s
                == ServiceFileTransactionState::Preserved && result is Err
        }),
        stage is PutBack ==> (reply matches TransactionReply::Moved {
            boundary,
            live: Some(live),
            other: None,
        } ==> if live@ == names.token@ {
            step == RemovalRollbackStep::Await(RemovalEndStage::Confirm { boundary })
        } else {
            step matches RemovalRollbackStep::Finished { state: s, result } && s
                == ServiceFileTransactionState::Preserved && result is Err
        }),
        stage is Confirm && reply is Done <==> (step matches RemovalRollbackStep::Finished {
            result: Ok(_),
            ..
        }),
        stage is Confirm && reply is Done ==> (step matches RemovalRollbackStep::Finished {
            state: s,
            ..
        } && s == ServiceFileTransactionState::Finished),
        stage is LookLive || stage is BindRemoved || stage is PutBack ==> (reply matches
            TransactionReply::Failed(error) ==> (step matches RemovalRollbackStep::Finished {
            result: Err(fault),
            ..
        } && stems_from(fault@, error@))),
{
}

} // verus!
