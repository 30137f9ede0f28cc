//! The changes of the PID identity: publishing it, taking it away, and holding
//! its lock so that no daemon can start.
use vstd::prelude::*;
use vstd::utf8::{decode_utf8, valid_utf8};

use crate::fault::{join2, join3, join4, join5, joined, Fault};
use crate::fs_ops::{FileToken, RemoveExactOutcome};
use crate::outside::{sha256, utf8_text};
use crate::number::{decimal, decimal_text};
use crate::pidfile::{
    acquire_pidfile_lock_at, asks_for, lock_unopened, named_process, parse_pid_identity,
    read_pid_from_raw, shutdown_request_matches, trusted, trusted_identity, LockAttempt,
    PidIdentity, ShutdownRequest,
};
use crate::removal::{misfit, misfit_fault};
use crate::settlement::{generation_view, DaemonGeneration};
use crate::text::same_text;

verus! {

/// A removal that must be known to last.
pub open spec fn removal_problem(
    outcome: Result<RemoveExactOutcome, Fault>,
    unconfirmed: Seq<char>,
) -> Option<Seq<Seq<char>>> {
    match outcome {
        Err(error) => Some(error@),
        Ok(RemoveExactOutcome::Removed) => None,
        Ok(RemoveExactOutcome::RemovedNamespaceDurabilityUnconfirmed) => Some(seq![unconfirmed]),
    }
}

fn require_lasting(outcome: Result<RemoveExactOutcome, Fault>, unconfirmed: String) -> (r: Result<
    (),
    Fault,
>)
    ensures
        match removal_problem(outcome, unconfirmed@) {
            None => r is Ok,
            Some(messages) => r matches Err(fault) && fault@ == messages,
        },
{
    match outcome {
        Err(error) => Err(error),
        Ok(RemoveExactOutcome::Removed) => Ok(()),
        Ok(RemoveExactOutcome::RemovedNamespaceDurabilityUnconfirmed) => Err(
            Fault::from_text(unconfirmed),
        ),
    }
}

// -- Taking the identity away --

/// What taking the identity away waits for.
#[derive(Debug, PartialEq, Eq)]
pub enum CleanupStage {
    /// Giving back the lock that this process holds.
    Release,
    Lock,
    Legacy,
    /// Looking at the identity file.
    Token,
    Remove(FileToken),
    Unlock { removed: Result<(), Fault> },
}

/// What taking the identity away was given.
#[derive(Debug, PartialEq, Eq)]
pub enum CleanupReply {
    Released(Result<(), Fault>),
    Lock(LockAttempt),
    Legacy(Result<bool, Fault>),
    Token(Result<Option<FileToken>, Fault>),
    Removed(Result<RemoveExactOutcome, Fault>),
    Unlocked(Result<(), String>),
}

/// What taking the identity away does next.
#[derive(Debug, PartialEq, Eq)]
pub enum CleanupStep {
    Await(CleanupStage),
    Finished(Result<(), Fault>),
}

/// Whether taking the identity away fails.
pub open spec fn cleanup_fails(step: CleanupStep, messages: Seq<Seq<char>>) -> bool {
    step matches CleanupStep::Finished(Err(fault)) && fault@ == messages
}

/// Whether the removal is over, with this outcome, and the lock is given back.
pub open spec fn cleanup_unlocks(step: CleanupStep, problem: Option<Seq<Seq<char>>>) -> bool {
    match problem {
        None => step matches CleanupStep::Await(CleanupStage::Unlock { removed: Ok(_) }),
        Some(messages) => step matches CleanupStep::Await(
            CleanupStage::Unlock { removed: Err(fault) },
        ) && fault@ == messages,
    }
}

/// What taking the identity away does next: only under the lock, only where no
/// daemon of the previous release holds the file, and only the very file that
/// was seen.
pub open spec fn cleanup_next(
    path: Seq<char>,
    stage: CleanupStage,
    reply: CleanupReply,
    step: CleanupStep,
) -> bool {
    match (stage, reply) {
        (CleanupStage::Release, CleanupReply::Released(Ok(_))) => step == CleanupStep::Await(
            CleanupStage::Lock,
        ),
        (CleanupStage::Release, CleanupReply::Released(Err(error))) => cleanup_fails(
            step,
            seq!["unlocking the daemon PID authority"@] + error@,
        ),
        (CleanupStage::Lock, CleanupReply::Lock(LockAttempt::NotOpened(error))) => cleanup_fails(
            step,
            seq![lock_unopened(path, error@)],
        ),
        (CleanupStage::Lock, CleanupReply::Lock(LockAttempt::Held)) => cleanup_fails(
            step,
            seq!["Refusing to remove PID file "@ + path + ": locked by a running daemon"@],
        ),
        (CleanupStage::Lock, CleanupReply::Lock(LockAttempt::Failed(error))) => cleanup_fails(
            step,
            seq![error@],
        ),
        (CleanupStage::Lock, CleanupReply::Lock(LockAttempt::Taken)) => step
            == CleanupStep::Await(CleanupStage::Legacy),
        (CleanupStage::Legacy, CleanupReply::Legacy(Err(error))) => cleanup_fails(step, error@),
        (CleanupStage::Legacy, CleanupReply::Legacy(Ok(true))) => cleanup_fails(
            step,
            seq!["Refusing to remove PID file "@ + path + ": locked by a running legacy daemon"@],
        ),
        (CleanupStage::Legacy, CleanupReply::Legacy(Ok(false))) => step == CleanupStep::Await(
            CleanupStage::Token,
        ),
        (CleanupStage::Token, CleanupReply::Token(Err(error))) => cleanup_unlocks(
            step,
            Some(error@),
        ),
        (CleanupStage::Token, CleanupReply::Token(Ok(None))) => cleanup_unlocks(step, None),
        (CleanupStage::Token, CleanupReply::Token(Ok(Some(token)))) => step == CleanupStep::Await(
            CleanupStage::Remove(token),
        ),
        (CleanupStage::Remove(_), CleanupReply::Removed(outcome)) => cleanup_unlocks(
            step,
            removal_problem(
                outcome,
                "daemon PID identity was removed, but parent-directory durability is unconfirmed: "@
                    + path,
            ),
        ),
        (CleanupStage::Unlock { removed }, CleanupReply::Unlocked(unlocked)) => {
            let unlock_problem = "unlocking daemon PID lock "@ + path + ".lock"@ + ": "@;
            match (removed, unlocked) {
                (Ok(_), Ok(_)) => step == CleanupStep::Finished(Ok(())),
                (Err(error), Ok(_)) => cleanup_fails(step, error@),
                (Ok(_), Err(unlock)) => cleanup_fails(step, seq![unlock_problem + unlock@]),
                (Err(error), Err(unlock)) => cleanup_fails(
                    step,
                    seq![
                        "PID cleanup failed and releasing its authority lock also failed: "@
                            + unlock_problem + unlock@,
                    ] + error@,
                ),
            }
        },
        _ => cleanup_fails(step, misfit()),
    }
}

fn cleanup_fault(fault: Fault) -> (r: CleanupStep)
    ensures
        cleanup_fails(r, fault@),
{
    CleanupStep::Finished(Err(fault))
}

/// What taking the identity away does next.
pub fn cleanup_pidfile(path: &str, stage: CleanupStage, reply: CleanupReply) -> (r: CleanupStep)
    ensures
        cleanup_next(path@, stage, reply, r),
{
    match (stage, reply) {
        (CleanupStage::Release, CleanupReply::Released(Ok(()))) => CleanupStep::Await(
            CleanupStage::Lock,
        ),
        (CleanupStage::Release, CleanupReply::Released(Err(error))) => cleanup_fault(
            error.within("unlocking the daemon PID authority"),
        ),
        (CleanupStage::Lock, CleanupReply::Lock(LockAttempt::NotOpened(error))) => cleanup_fault(
            Fault::from_text(
                join5("opening daemon PID lock ", path, ".lock", ": ", error.as_str()),
            ),
        ),
        (CleanupStage::Lock, CleanupReply::Lock(LockAttempt::Held)) => cleanup_fault(
            Fault::from_text(
                join3("Refusing to remove PID file ", path, ": locked by a running daemon"),
            ),
        ),
        (CleanupStage::Lock, CleanupReply::Lock(LockAttempt::Failed(error))) => cleanup_fault(
            Fault::from_text(error),
        ),
        (CleanupStage::Lock, CleanupReply::Lock(LockAttempt::Taken)) => CleanupStep::Await(
            CleanupStage::Legacy,
        ),
        (CleanupStage::Legacy, CleanupReply::Legacy(Err(error))) => cleanup_fault(error),
        (CleanupStage::Legacy, CleanupReply::Legacy(Ok(true))) => cleanup_fault(
            Fault::from_text(
                join3("Refusing to remove PID file ", path, ": locked by a running legacy daemon"),
            ),
        ),
        (CleanupStage::Legacy, CleanupReply::Legacy(Ok(false))) => CleanupStep::Await(
            CleanupStage::Token,
        ),
        (CleanupStage::Token, CleanupReply::Token(Err(error))) => CleanupStep::Await(
            CleanupStage::Unlock { removed: Err(error) },
        ),
        (CleanupStage::Token, CleanupReply::Token(Ok(None))) => CleanupStep::Await(
            CleanupStage::Unlock { removed: Ok(()) },
        ),
        (CleanupStage::Token, CleanupReply::Token(Ok(Some(token)))) => CleanupStep::Await(
            CleanupStage::Remove(token),
        ),
        (CleanupStage::Remove(_), CleanupReply::Removed(outcome)) => {
            let removed = require_lasting(
                outcome,
                join2(
                    "daemon PID identity was removed, but parent-directory durability is unconfirmed: ",
                    path,
                ),
            );
            CleanupStep::Await(CleanupStage::Unlock { removed })
        },
        (CleanupStage::Unlock { removed }, CleanupReply::Unlocked(unlocked)) => match (
            removed,
            unlocked,
        ) {
            (Ok(()), Ok(())) => CleanupStep::Finished(Ok(())),
            (Err(error), Ok(())) => cleanup_fault(error),
            (Ok(()), Err(unlock)) => cleanup_fault(
                Fault::from_text(
                    join5("unlocking daemon PID lock ", path, ".lock", ": ", unlock.as_str()),
                ),
            ),
            (Err(error), Err(unlock)) => {
                let text = join5("unlocking daemon PID lock ", path, ".lock", ": ", unlock.as_str());
                let whole = join2(
                    "PID cleanup failed and releasing its authority lock also failed: ",
                    text.as_str(),
                );
                assert(whole@
                    =~= "PID cleanup failed and releasing its authority lock also failed: "@ + (
                "unlocking daemon PID lock "@ + path@ + ".lock"@ + ": "@) + unlock@);
                cleanup_fault(error.context(whole))
            },
        },
        _ => cleanup_fault(misfit_fault()),
    }
}

/// A guard over the identity of a daemon that runs: while it is armed, the
/// identity is taken away when the daemon ends.
#[derive(Debug, PartialEq, Eq)]
pub struct PidGuard {
    pub armed: bool,
}

impl PidGuard {
    /// An armed guard.
    pub fn new() -> (r: Self)
        ensures
            r.armed,
    {
        PidGuard { armed: true }
    }

    /// Takes the identity away and gives the guard up: whatever comes of it, it
    /// is not tried again.
    pub fn cleanup<F>(self, cleanup_pidfile: F) -> (r: (PidGuard, Result<(), Fault>)) where
        F: FnOnce() -> Result<(), Fault>,

        requires
            cleanup_pidfile.requires(()),
        ensures
            !r.0.armed,
            cleanup_pidfile.ensures((), r.1),
    {
        let mut guard = self;
        guard.armed = false;
        let result = cleanup_pidfile();
        (guard, result)
    }

    /// What the end of a guard says: an armed guard took the identity away, and
    /// a failure is reported.
    pub fn unwound(&self, cleaned: Result<(), Fault>) -> (r: Option<String>)
        ensures
            match cleaned {
                Err(error) => if self.armed {
                    r matches Some(text) && text@
                        == "Error: daemon PID cleanup during unwind failed: "@ + joined(error@)
                } else {
                    r is None
                },
                Ok(_) => r is None,
            },
    {
        match cleaned {
            Err(error) => if self.armed {
                Some(
                    join2(
                        "Error: daemon PID cleanup during unwind failed: ",
                        error.detail().as_str(),
                    ),
                )
            } else {
                None
            },
            Ok(()) => None,
        }
    }
}

/// How a daemon that ran in the foreground ends.
pub fn foreground_end(run: Result<(), Fault>, cleanup: Result<(), Fault>) -> (r: Result<(), Fault>)
    ensures
        match (run, cleanup) {
            (Ok(_), Ok(_)) => r is Ok,
            (Err(error), Ok(_)) => r matches Err(fault) && fault@ == error@,
            (Ok(_), Err(error)) => r matches Err(fault) && fault@ == error@,
            (Err(error), Err(cleanup)) => r matches Err(fault) && fault@ == seq![
                "daemon loop failed and PID cleanup was also incomplete: "@ + joined(cleanup@),
            ] + error@,
        },
{
    match (run, cleanup) {
        (Ok(()), Ok(())) => Ok(()),
        (Err(error), Ok(())) => Err(error),
        (Ok(()), Err(error)) => Err(error),
        (Err(error), Err(cleanup)) => Err(
            error.context(
                join2(
                    "daemon loop failed and PID cleanup was also incomplete: ",
                    cleanup.detail().as_str(),
                ),
            ),
        ),
    }
}

// -- Holding the lock so that no daemon can start --

/// Why an absence that is held cannot be relied on.
pub open spec fn absence_problem(
    path: Seq<char>,
    identity: Result<bool, Fault>,
    legacy: Result<bool, Fault>,
) -> Option<Seq<Seq<char>>> {
    match identity {
        Err(error) => Some(error@),
        Ok(true) => Some(
            seq!["daemon PID identity appeared while its absence lease was held: "@ + path],
        ),
        Ok(false) => match legacy {
            Err(error) => Some(error@),
            Ok(true) => Some(
                seq![
                    "a legacy daemon acquired the PID identity while its absence lease was held: "@
                        + path,
                ],
            ),
            Ok(false) => None,
        },
    }
}

/// An absence that is held must still be one: there is no identity, and no
/// daemon of the previous release holds its file.
pub fn verify_daemon_absence(
    path: &str,
    identity: Result<bool, Fault>,
    legacy: Result<bool, Fault>,
) -> (r: Result<(), Fault>)
    ensures
        match absence_problem(path@, identity, legacy) {
            None => r is Ok,
            Some(messages) => r matches Err(fault) && fault@ == messages,
        },
{
    match identity {
        Err(error) => Err(error),
        Ok(true) => Err(
            Fault::from_text(
                join2("daemon PID identity appeared while its absence lease was held: ", path),
            ),
        ),
        Ok(false) => match legacy {
            Err(error) => Err(error),
            Ok(true) => Err(
                Fault::from_text(
                    join2(
                        "a legacy daemon acquired the PID identity while its absence lease was held: ",
                        path,
                    ),
                ),
            ),
            Ok(false) => Ok(()),
        },
    }
}

/// A generation, with the words that messages show it in.
#[derive(Debug, PartialEq, Eq)]
pub struct ShownGeneration {
    pub generation: DaemonGeneration,
    pub shown: String,
}

/// What taking the absence waits for.
#[derive(Debug, PartialEq, Eq)]
pub enum AbsenceStage {
    MakeDirectory,
    Lock,
    Legacy,
    /// Looking at the identity file.
    Token,
    /// Reading the identity file.
    Read(FileToken),
    /// The document that the bytes spell.
    Document { token: FileToken, raw: String },
    Remove(FileToken),
    Verify,
}

/// What taking the absence was given.
#[derive(Debug, PartialEq, Eq)]
pub enum AbsenceReply {
    /// The directory, and whether it is there now.
    Directory { path: String, made: Result<(), Fault> },
    Lock(LockAttempt),
    Legacy(Result<bool, Fault>),
    Token(Result<Option<FileToken>, Fault>),
    Bytes(Result<Vec<u8>, Fault>),
    Document { document: Option<PidIdentity>, shown: String },
    Removed(Result<RemoveExactOutcome, Fault>),
    Verified(Result<(), Fault>),
}

/// What became of taking the absence.
#[derive(Debug, PartialEq, Eq)]
pub enum DaemonAbsenceAcquire {
    Acquired,
    Contended,
}

/// What taking the absence does next.
#[derive(Debug, PartialEq, Eq)]
pub enum AbsenceTakingStep {
    Await(AbsenceStage),
    Finished(Result<DaemonAbsenceAcquire, Fault>),
}

/// Whether taking the absence fails.
pub open spec fn taking_fails(step: AbsenceTakingStep, messages: Seq<Seq<char>>) -> bool {
    step matches AbsenceTakingStep::Finished(Err(fault)) && fault@ == messages
}

/// Why the identity that is there may not be taken for stale.
pub open spec fn stale_problem(
    path: Seq<char>,
    expected: Option<ShownGeneration>,
    raw: Seq<char>,
    document: Option<PidIdentity>,
    shown: Seq<char>,
) -> Option<Seq<char>> {
    match expected {
        Some(wanted) => match trusted_identity(document) {
            None => Some(
                "daemon PID identity at "@ + path
                    + " has no exact generation token; refusing to remove it as stale generation "@
                    + wanted.shown@,
            ),
            Some(identity) => if (identity.pid, identity.generation@) == generation_view(
                wanted.generation,
            ) {
                None
            } else {
                Some(
                    "daemon generation changed from "@ + wanted.shown@ + " to "@ + shown
                        + " before the self-update absence lease was acquired"@,
                )
            },
        },
        None => if named_process(raw, trusted_identity(document)) is None {
            Some("daemon PID file is malformed: "@ + path)
        } else {
            None
        },
    }
}

/// What taking the absence does next. An identity is removed only under the
/// lock, only if its bytes are those of the file that was seen, and only if it
/// is the stale generation that was expected, or any process at all where none
/// was.
pub open spec fn absence_next(
    path: Seq<char>,
    expected: Option<ShownGeneration>,
    stage: AbsenceStage,
    reply: AbsenceReply,
    step: AbsenceTakingStep,
) -> bool {
    match (stage, reply) {
        (AbsenceStage::MakeDirectory, AbsenceReply::Directory { path: parent, made }) => {
            match made {
                Ok(_) => step == AbsenceTakingStep::Await(AbsenceStage::Lock),
                Err(error) => taking_fails(
                    step,
                    seq!["creating daemon state directory for absence lease "@ + parent@] + error@,
                ),
            }
        },
        (AbsenceStage::Lock, AbsenceReply::Lock(LockAttempt::NotOpened(error))) => taking_fails(
            step,
            seq![lock_unopened(path, error@)],
        ),
        (AbsenceStage::Lock, AbsenceReply::Lock(LockAttempt::Failed(error))) => taking_fails(
            step,
            seq!["locking daemon PID authority "@ + path + ".lock"@ + ": "@ + error@],
        ),
        (AbsenceStage::Lock, AbsenceReply::Lock(LockAttempt::Held)) => step
            == AbsenceTakingStep::Finished(Ok(DaemonAbsenceAcquire::Contended)),
        (AbsenceStage::Lock, AbsenceReply::Lock(LockAttempt::Taken)) => step
            == AbsenceTakingStep::Await(AbsenceStage::Legacy),
        (AbsenceStage::Legacy, AbsenceReply::Legacy(Err(error))) => taking_fails(step, error@),
        (AbsenceStage::Legacy, AbsenceReply::Legacy(Ok(true))) => taking_fails(
            step,
            seq![
                "a legacy daemon still owns the PID identity at "@ + path
                    + "; refusing to enter the self-update replacement window"@,
            ],
        ),
        (AbsenceStage::Legacy, AbsenceReply::Legacy(Ok(false))) => step
            == AbsenceTakingStep::Await(AbsenceStage::Token),
        (AbsenceStage::Token, AbsenceReply::Token(Err(error))) => taking_fails(step, error@),
        (AbsenceStage::Token, AbsenceReply::Token(Ok(None))) => step == AbsenceTakingStep::Await(
            AbsenceStage::Verify,
        ),
        (AbsenceStage::Token, AbsenceReply::Token(Ok(Some(token)))) => step
            == AbsenceTakingStep::Await(AbsenceStage::Read(token)),
        (AbsenceStage::Read(_), AbsenceReply::Bytes(Err(error))) => taking_fails(
            step,
            seq!["reading stale daemon PID identity "@ + path] + error@,
        ),
        (AbsenceStage::Read(token), AbsenceReply::Bytes(Ok(bytes))) => {
            if token@.digest != sha256(bytes@) {
                taking_fails(
                    step,
                    seq!["daemon PID identity changed while acquiring its absence lease: "@ + path],
                )
            } else if !valid_utf8(bytes@) {
                taking_fails(step, seq!["daemon PID file is malformed: "@ + path])
            } else {
                step matches AbsenceTakingStep::Await(AbsenceStage::Document { token: t, raw })
                    && t == token && raw@ == decode_utf8(bytes@)
            }
        },
        (
            AbsenceStage::Document { token, raw },
            AbsenceReply::Document { document, shown },
        ) => match stale_problem(path, expected, raw@, document, shown@) {
            Some(message) => taking_fails(step, seq![message]),
            None => step == AbsenceTakingStep::Await(AbsenceStage::Remove(token)),
        },
        (AbsenceStage::Remove(_), AbsenceReply::Removed(Err(error))) => taking_fails(
            step,
            seq!["removing the exactly revalidated stale daemon PID identity "@ + path] + error@,
        ),
        (AbsenceStage::Remove(_), AbsenceReply::Removed(Ok(_))) => step
            == AbsenceTakingStep::Await(AbsenceStage::Verify),
        (AbsenceStage::Verify, AbsenceReply::Verified(Err(error))) => taking_fails(step, error@),
        (AbsenceStage::Verify, AbsenceReply::Verified(Ok(_))) => step
            == AbsenceTakingStep::Finished(Ok(DaemonAbsenceAcquire::Acquired)),
        _ => taking_fails(step, misfit()),
    }
}

fn taking_fault(fault: Fault) -> (r: AbsenceTakingStep)
    ensures
        taking_fails(r, fault@),
{
    AbsenceTakingStep::Finished(Err(fault))
}

/// The optional value behind a reference.
pub open spec fn shown_behind(g: Option<&ShownGeneration>) -> Option<ShownGeneration> {
    match g {
        Some(found) => Some(*found),
        None => None,
    }
}

/// What taking the absence does next.
pub fn try_acquire_daemon_absence_lease_at(
    path: &str,
    expected: Option<&ShownGeneration>,
    stage: AbsenceStage,
    reply: AbsenceReply,
) -> (r: AbsenceTakingStep)
    ensures
        absence_next(path@, shown_behind(expected), stage, reply, r),
{
    match (stage, reply) {
        (AbsenceStage::MakeDirectory, AbsenceReply::Directory { path: parent, made }) => {
            match made {
                Ok(()) => AbsenceTakingStep::Await(AbsenceStage::Lock),
                Err(error) => taking_fault(
                    error.context(
                        join2(
                            "creating daemon state directory for absence lease ",
                            parent.as_str(),
                        ),
                    ),
                ),
            }
        },
        (AbsenceStage::Lock, AbsenceReply::Lock(LockAttempt::NotOpened(error))) => taking_fault(
            Fault::from_text(
                join5("opening daemon PID lock ", path, ".lock", ": ", error.as_str()),
            ),
        ),
        (AbsenceStage::Lock, AbsenceReply::Lock(LockAttempt::Failed(error))) => taking_fault(
            Fault::from_text(
                join5("locking daemon PID authority ", path, ".lock", ": ", error.as_str()),
            ),
        ),
        (AbsenceStage::Lock, AbsenceReply::Lock(LockAttempt::Held)) => AbsenceTakingStep::Finished(
            Ok(DaemonAbsenceAcquire::Contended),
        ),
        (AbsenceStage::Lock, AbsenceReply::Lock(LockAttempt::Taken)) => AbsenceTakingStep::Await(
            AbsenceStage::Legacy,
        ),
        (AbsenceStage::Legacy, AbsenceReply::Legacy(Err(error))) => taking_fault(error),
        (AbsenceStage::Legacy, AbsenceReply::Legacy(Ok(true))) => taking_fault(
            Fault::from_text(
                join3(
                    "a legacy daemon still owns the PID identity at ",
                    path,
                    "; refusing to enter the self-update replacement window",
                ),
            ),
        ),
        (AbsenceStage::Legacy, AbsenceReply::Legacy(Ok(false))) => AbsenceTakingStep::Await(
            AbsenceStage::Token,
        ),
        (AbsenceStage::Token, AbsenceReply::Token(Err(error))) => taking_fault(error),
        (AbsenceStage::Token, AbsenceReply::Token(Ok(None))) => AbsenceTakingStep::Await(
            AbsenceStage::Verify,
        ),
        (AbsenceStage::Token, AbsenceReply::Token(Ok(Some(token)))) => AbsenceTakingStep::Await(
            AbsenceStage::Read(token),
        ),
        (AbsenceStage::Read(_), AbsenceReply::Bytes(Err(error))) => taking_fault(
            error.context(join2("reading stale daemon PID identity ", path)),
        ),
        (AbsenceStage::Read(token), AbsenceReply::Bytes(Ok(bytes))) => {
            if !token.matches_bytes(bytes.as_slice()) {
                return taking_fault(
                    Fault::from_text(
                        join2(
                            "daemon PID identity changed while acquiring its absence lease: ",
                            path,
                        ),
                    ),
                );
            }
            match utf8_text(bytes.as_slice()) {
                Err(_) => taking_fault(
                    Fault::from_text(join2("daemon PID file is malformed: ", path)),
                ),
                Ok(raw) => AbsenceTakingStep::Await(AbsenceStage::Document { token, raw }),
            }
        },
        (
            AbsenceStage::Document { token, raw },
            AbsenceReply::Document { document, shown },
        ) => match expected {
            Some(wanted) => match parse_pid_identity(document) {
                None => taking_fault(
                    Fault::from_text(
                        join4(
                            "daemon PID identity at ",
                            path,
                            " has no exact generation token; refusing to remove it as stale generation ",
                            wanted.shown.as_str(),
                        ),
                    ),
                ),
                Some(identity) => {
                    let observed = DaemonGeneration {
                        pid: identity.pid,
                        generation: identity.generation,
                    };
                    if observed.same(&wanted.generation) {
                        AbsenceTakingStep::Await(AbsenceStage::Remove(token))
                    } else {
                        taking_fault(
                            Fault::from_text(
                                join5(
                                    "daemon generation changed from ",
                                    wanted.shown.as_str(),
                                    " to ",
                                    shown.as_str(),
                                    " before the self-update absence lease was acquired",
                                ),
                            ),
                        )
                    }
                },
            },
            None => if read_pid_from_raw(raw.as_str(), document).is_none() {
                taking_fault(Fault::from_text(join2("daemon PID file is malformed: ", path)))
            } else {
                AbsenceTakingStep::Await(AbsenceStage::Remove(token))
            },
        },
        (AbsenceStage::Remove(_), AbsenceReply::Removed(Err(error))) => taking_fault(
            error.context(
                join2("removing the exactly revalidated stale daemon PID identity ", path),
            ),
        ),
        (AbsenceStage::Remove(_), AbsenceReply::Removed(Ok(_))) => AbsenceTakingStep::Await(
            AbsenceStage::Verify,
        ),
        (AbsenceStage::Verify, AbsenceReply::Verified(Err(error))) => taking_fault(error),
        (AbsenceStage::Verify, AbsenceReply::Verified(Ok(()))) => AbsenceTakingStep::Finished(
            Ok(DaemonAbsenceAcquire::Acquired),
        ),
        _ => taking_fault(misfit_fault()),
    }
}

/// An absence is held only after it was verified, and an identity is removed on
/// the way only if it is the generation that was expected to be stale.
pub proof fn law_absence_removes_only_the_stale_generation(
    path: Seq<char>,
    expected: Option<ShownGeneration>,
    stage: AbsenceStage,
    reply: AbsenceReply,
    step: AbsenceTakingStep,
)
    requires
        absence_next(path, expected, stage, reply, step),
    ensures
        step == AbsenceTakingStep::Finished(Ok(DaemonAbsenceAcquire::Acquired)) ==> stage is Verify
            && (reply matches AbsenceReply::Verified(Ok(_))),
        (step matches AbsenceTakingStep::Await(AbsenceStage::Remove(_))) && expected is Some ==> (
        reply matches AbsenceReply::Document { document: Some(identity), .. } && trusted(identity)
            && (identity.pid, identity.generation@) == generation_view(expected->0.generation)),
{
}

// -- Publishing the identity --

/// What publishing the identity waits for.
#[derive(Debug, PartialEq, Eq)]
pub enum PublishStage {
    MakeDirectory,
    Lock,
    /// Clearing a request that was meant for an earlier run.
    ClearRequest,
    Encode,
    Create,
    Write,
    Sync,
    /// Taking a partial file away again.
    CleanUp(Fault),
}

/// What creating the identity file gave.
#[derive(Debug, PartialEq, Eq)]
pub enum CreateAttempt {
    Created,
    Exists,
    Failed(String),
}

/// What publishing the identity was given.
#[derive(Debug, PartialEq, Eq)]
pub enum PublishReply {
    Directory { path: String, made: Result<(), Fault> },
    Lock(LockAttempt),
    Outcome(Result<(), Fault>),
    Create(CreateAttempt),
    Written(Result<(), String>),
}

/// What publishing the identity does next.
#[derive(Debug, PartialEq, Eq)]
pub enum PublishStep {
    Await(PublishStage),
    Finished(Result<(), Fault>),
}

/// Whether publishing the identity fails.
pub open spec fn publish_fails(step: PublishStep, messages: Seq<Seq<char>>) -> bool {
    step matches PublishStep::Finished(Err(fault)) && fault@ == messages
}

/// Whether a partial file is taken away again.
pub open spec fn publish_cleans_up(step: PublishStep, message: Seq<char>) -> bool {
    step matches PublishStep::Await(PublishStage::CleanUp(cause)) && cause@ == seq![message]
}

/// What publishing the identity does next: under the lock, into a file that did
/// not exist, and complete or not at all.
pub open spec fn publish_next(
    path: Seq<char>,
    stage: PublishStage,
    reply: PublishReply,
    step: PublishStep,
) -> bool {
    match (stage, reply) {
        (PublishStage::MakeDirectory, PublishReply::Directory { path: parent, made }) => {
            match made {
                Ok(_) => step == PublishStep::Await(PublishStage::Lock),
                Err(error) => publish_fails(
                    step,
                    seq!["creating daemon PID directory "@ + parent@] + error@,
                ),
            }
        },
        (PublishStage::Lock, PublishReply::Lock(LockAttempt::Taken)) => step == PublishStep::Await(
            PublishStage::ClearRequest,
        ),
        (PublishStage::Lock, PublishReply::Lock(LockAttempt::Held)) => publish_fails(
            step,
            seq![
                "daemon PID lock is already held at "@ + path + ".lock"@
                    + "; another daemon is running"@,
            ],
        ),
        (PublishStage::Lock, PublishReply::Lock(LockAttempt::NotOpened(error))) => publish_fails(
            step,
            seq![lock_unopened(path, error@)],
        ),
        (PublishStage::Lock, PublishReply::Lock(LockAttempt::Failed(error))) => publish_fails(
            step,
            seq!["locking daemon PID authority "@ + path + ".lock"@ + ": "@ + error@],
        ),
        (PublishStage::ClearRequest, PublishReply::Outcome(Ok(_))) => step == PublishStep::Await(
            PublishStage::Encode,
        ),
        (PublishStage::Encode, PublishReply::Outcome(Ok(_))) => step == PublishStep::Await(
            PublishStage::Create,
        ),
        (PublishStage::ClearRequest, PublishReply::Outcome(Err(error))) => publish_fails(
            step,
            error@,
        ),
        (PublishStage::Encode, PublishReply::Outcome(Err(error))) => publish_fails(step, error@),
        (PublishStage::Create, PublishReply::Create(CreateAttempt::Created)) => step
            == PublishStep::Await(PublishStage::Write),
        (PublishStage::Create, PublishReply::Create(CreateAttempt::Exists)) => publish_fails(
            step,
            seq!["PID file already exists at "@ + path + "; another daemon may be running"@],
        ),
        (PublishStage::Create, PublishReply::Create(CreateAttempt::Failed(error))) => publish_fails(
            step,
            seq!["Failed to create PID file "@ + path + ": "@ + error@],
        ),
        (PublishStage::Write, PublishReply::Written(Ok(_))) => step == PublishStep::Await(
            PublishStage::Sync,
        ),
        (PublishStage::Write, PublishReply::Written(Err(error))) => publish_cleans_up(
            step,
            "Failed to write PID to "@ + path + ": "@ + error@,
        ),
        (PublishStage::Sync, PublishReply::Written(Ok(_))) => step == PublishStep::Finished(Ok(())),
        (PublishStage::Sync, PublishReply::Written(Err(error))) => publish_cleans_up(
            step,
            "Failed to sync PID file "@ + path + ": "@ + error@,
        ),
        (PublishStage::CleanUp(cause), PublishReply::Outcome(Ok(_))) => publish_fails(
            step,
            seq!["PID identity publication failed; its exact partial artifact was removed"@]
                + cause@,
        ),
        (PublishStage::CleanUp(cause), PublishReply::Outcome(Err(error))) => publish_fails(
            step,
            seq![
                "PID identity publication failed and exact partial-artifact cleanup was incomplete: "@
                    + joined(error@),
            ] + cause@,
        ),
        _ => publish_fails(step, misfit()),
    }
}

fn publish_fault(fault: Fault) -> (r: PublishStep)
    ensures
        publish_fails(r, fault@),
{
    PublishStep::Finished(Err(fault))
}

fn publish_cleanup(message: String) -> (r: PublishStep)
    ensures
        publish_cleans_up(r, message@),
{
    PublishStep::Await(PublishStage::CleanUp(Fault::from_text(message)))
}

/// What publishing the identity does next.
pub fn publish_pid_identity_at(path: &str, stage: PublishStage, reply: PublishReply) -> (r:
    PublishStep)
    ensures
        publish_next(path@, stage, reply, r),
{
    match (stage, reply) {
        (PublishStage::MakeDirectory, PublishReply::Directory { path: parent, made }) => {
            match made {
                Ok(()) => PublishStep::Await(PublishStage::Lock),
                Err(error) => publish_fault(
                    error.context(join2("creating daemon PID directory ", parent.as_str())),
                ),
            }
        },
        (PublishStage::Lock, PublishReply::Lock(attempt)) => match acquire_pidfile_lock_at(
            path,
            attempt,
        ) {
            Ok(()) => PublishStep::Await(PublishStage::ClearRequest),
            Err(fault) => publish_fault(fault),
        },
        (PublishStage::ClearRequest, PublishReply::Outcome(Ok(()))) => PublishStep::Await(
            PublishStage::Encode,
        ),
        (PublishStage::Encode, PublishReply::Outcome(Ok(()))) => PublishStep::Await(
            PublishStage::Create,
        ),
        (PublishStage::ClearRequest, PublishReply::Outcome(Err(error))) => publish_fault(error),
        (PublishStage::Encode, PublishReply::Outcome(Err(error))) => publish_fault(error),
        (PublishStage::Create, PublishReply::Create(CreateAttempt::Created)) => PublishStep::Await(
            PublishStage::Write,
        ),
        (PublishStage::Create, PublishReply::Create(CreateAttempt::Exists)) => publish_fault(
            Fault::from_text(
                join3("PID file already exists at ", path, "; another daemon may be running"),
            ),
        ),
        (PublishStage::Create, PublishReply::Create(CreateAttempt::Failed(error))) => publish_fault(
            Fault::from_text(join4("Failed to create PID file ", path, ": ", error.as_str())),
        ),
        (PublishStage::Write, PublishReply::Written(Ok(()))) => PublishStep::Await(
            PublishStage::Sync,
        ),
        (PublishStage::Write, PublishReply::Written(Err(error))) => publish_cleanup(
            join4("Failed to write PID to ", path, ": ", error.as_str()),
        ),
        (PublishStage::Sync, PublishReply::Written(Ok(()))) => PublishStep::Finished(Ok(())),
        (PublishStage::Sync, PublishReply::Written(Err(error))) => publish_cleanup(
            join4("Failed to sync PID file ", path, ": ", error.as_str()),
        ),
        (PublishStage::CleanUp(cause), PublishReply::Outcome(Ok(()))) => publish_fault(
            cause.within("PID identity publication failed; its exact partial artifact was removed"),
        ),
        (PublishStage::CleanUp(cause), PublishReply::Outcome(Err(error))) => publish_fault(
            cause.context(
                join2(
                    "PID identity publication failed and exact partial-artifact cleanup was incomplete: ",
                    error.detail().as_str(),
                ),
            ),
        ),
        _ => publish_fault(misfit_fault()),
    }
}

/// How the removal of a partial identity ends.
pub fn cleanup_failed_pid_publication(path: &str, outcome: Result<RemoveExactOutcome, Fault>) -> (r:
    Result<(), Fault>)
    ensures
        match removal_problem(
            outcome,
            "partial PID identity was removed, but parent-directory durability is unconfirmed: "@
                + path@,
        ) {
            None => r is Ok,
            Some(messages) => r matches Err(fault) && fault@ == messages,
        },
{
    require_lasting(
        outcome,
        join2(
            "partial PID identity was removed, but parent-directory durability is unconfirmed: ",
            path,
        ),
    )
}

/// What is done with a request that is there before the identity is published.
#[derive(Debug, PartialEq, Eq)]
pub enum StaleRequest {
    Keep,
    Remove(FileToken),
}

/// Why a request that is there before the identity is published stops the
/// publication.
pub open spec fn residue_problem(
    path: Seq<char>,
    token: FileToken,
    raw: Result<Vec<u8>, Fault>,
    request: Result<ShutdownRequest, Fault>,
) -> Option<Seq<Seq<char>>> {
    match raw {
        Err(error) => Some(seq!["reading stale shutdown request "@ + path] + error@),
        Ok(bytes) => if token@.digest != sha256(bytes@) {
            Some(
                seq![
                    "shutdown request changed while it was classified before PID publication: "@
                        + path,
                ],
            )
        } else {
            match request {
                Err(error) => Some(
                    seq![
                        "shutdown request is malformed and was preserved before PID publication: "@
                            + path,
                    ] + error@,
                ),
                Ok(_) => None,
            }
        },
    }
}

/// What is done with a request that is there before the identity is published:
/// one for this very run is kept, one for another run is removed, and one that
/// cannot be read stops the publication.
pub fn cleanup_stale_shutdown_request_before_publication(
    path: &str,
    identity: &PidIdentity,
    token: FileToken,
    raw: Result<Vec<u8>, Fault>,
    request: Result<ShutdownRequest, Fault>,
) -> (r: Result<StaleRequest, Fault>)
    ensures
        match residue_problem(path@, token, raw, request) {
            Some(messages) => r matches Err(fault) && fault@ == messages,
            None => r == Ok::<StaleRequest, Fault>(
                if asks_for(request->Ok_0, (identity.pid, identity.generation@)) {
                    StaleRequest::Keep
                } else {
                    StaleRequest::Remove(token)
                },
            ),
        },
{
    let bytes = match raw {
        Err(error) => {
            return Err(error.context(join2("reading stale shutdown request ", path)));
        },
        Ok(bytes) => bytes,
    };
    if !token.matches_bytes(bytes.as_slice()) {
        return Err(
            Fault::from_text(
                join2(
                    "shutdown request changed while it was classified before PID publication: ",
                    path,
                ),
            ),
        );
    }
    match request {
        Err(error) => Err(
            error.context(
                join2(
                    "shutdown request is malformed and was preserved before PID publication: ",
                    path,
                ),
            ),
        ),
        Ok(found) => if shutdown_request_matches(identity, &found) {
            Ok(StaleRequest::Keep)
        } else {
            Ok(StaleRequest::Remove(token))
        },
    }
}

/// How the removal of a stale request ends.
pub fn stale_request_removed(path: &str, outcome: Result<RemoveExactOutcome, Fault>) -> (r: Result<
    (),
    Fault,
>)
    ensures
        match removal_problem(
            outcome,
            "stale shutdown request was removed before PID publication, but parent-directory durability is unconfirmed: "@
                + path@,
        ) {
            None => r is Ok,
            Some(messages) => r matches Err(fault) && fault@ == messages,
        },
{
    require_lasting(
        outcome,
        join2(
            "stale shutdown request was removed before PID publication, but parent-directory durability is unconfirmed: ",
            path,
        ),
    )
}

// -- Asking a daemon to shut down --

/// The request for a run, or why there is none to make: the run must still be
/// the one that holds the lock, and must know requests.
pub fn request_shutdown(expected: &DaemonGeneration, running: Result<Option<PidIdentity>, Fault>) -> (r:
    Result<ShutdownRequest, Fault>)
    ensures
        match running {
            Err(error) => r matches Err(fault) && fault@ == error@,
            Ok(found) => if found matches Some(identity) && identity.pid == expected.pid
                && identity.generation@ == expected.generation@ {
                if expected.generation@.len() == 0 {
                    r matches Err(fault) && fault@ == seq![
                        "Refusing to stop PID "@ + decimal(expected.pid as nat)
                            + ": daemon generation predates the exact shutdown-request protocol"@,
                    ]
                } else {
                    r matches Ok(request) && asks_for(request, generation_view(*expected))
                }
            } else {
                r matches Err(fault) && fault@ == seq![
                    "Refusing to stop PID "@ + decimal(expected.pid as nat)
                        + ": daemon generation changed before shutdown request publication"@,
                ]
            },
        },
{
    let found = match running {
        Err(error) => {
            return Err(error);
        },
        Ok(found) => found,
    };
    let number = decimal_text(expected.pid as u64);
    match found {
        Some(identity) => {
            if identity.pid == expected.pid && same_text(
                identity.generation.as_str(),
                expected.generation.as_str(),
            ) {
                let chars = crate::text::chars_of(identity.generation.as_str());
                if chars.len() == 0 {
                    return Err(
                        Fault::from_text(
                            join3(
                                "Refusing to stop PID ",
                                number.as_str(),
                                ": daemon generation predates the exact shutdown-request protocol",
                            ),
                        ),
                    );
                }
                return Ok(
                    ShutdownRequest {
                        version: 1,
                        pid: identity.pid,
                        generation: identity.generation,
                    },
                );
            }
        },
        None => {},
    }
    Err(
        Fault::from_text(
            join3(
                "Refusing to stop PID ",
                number.as_str(),
                ": daemon generation changed before shutdown request publication",
            ),
        ),
    )
}

/// Whether a visible request is known to last.
pub fn request_durability(path: &str, unconfirmed: Option<Fault>) -> (r: Result<(), Fault>)
    ensures
        match unconfirmed {
            None => r is Ok,
            Some(cause) => r matches Err(fault) && fault@ == seq![
                "daemon shutdown request is visible at "@ + path@
                    + ", but its durability is unconfirmed"@,
            ] + cause@,
        },
{
    match unconfirmed {
        None => Ok(()),
        Some(cause) => Err(
            cause.context(
                join3(
                    "daemon shutdown request is visible at ",
                    path,
                    ", but its durability is unconfirmed",
                ),
            ),
        ),
    }
}

} // verus!
