//! The daemon's PID identity, and the lock that says whether its process lives.
//!
//! The lock is a file of its own beside the identity. Whoever holds it is the
//! daemon; an identity without the lock is stale. Daemons of the previous
//! release locked the identity file itself, and still count.
use vstd::prelude::*;

use crate::fault::{join2, join3, join4, join5, Fault};
use crate::host_path::{below, join_leaf, HostPath, Platform};
use crate::number::{parse_u32, u32_value};
use crate::outside::{hex_bytes, hex_text};
use crate::removal::{misfit, misfit_fault};
use crate::settlement::{generation_view, ContendingDaemonIdentity, DaemonGeneration};
use crate::text::{chars_of, same_text, trim, trim_both, CharClass};

verus! {

// -- Names --

/// The file that holds the identity.
pub fn pidfile_path(platform: Platform, app_home: &str) -> (r: String)
    ensures
        r@ == below(platform, app_home@, "daemon.pid"@),
{
    join_leaf(platform, app_home, "daemon.pid")
}

/// The file whose lock belongs to an identity.
pub fn pidfile_lock_path_for(path: &str) -> (r: String)
    ensures
        r@ == path@ + ".lock"@,
{
    join2(path, ".lock")
}

/// The file that holds a request to shut down.
pub fn shutdown_request_path(platform: Platform, app_home: &str) -> (r: String)
    ensures
        r@ == below(platform, app_home@, "daemon.shutdown"@),
{
    join_leaf(platform, app_home, "daemon.shutdown")
}

// -- Identities --

/// What a daemon publishes of itself.
#[derive(Debug, PartialEq, Eq)]
pub struct PidIdentity {
    pub version: u8,
    pub pid: u32,
    pub executable: HostPath,
    /// The nonce of this run; the previous release had none.
    pub generation: String,
}

/// A request to shut down one run of the daemon.
#[derive(Debug, PartialEq, Eq)]
pub struct ShutdownRequest {
    pub version: u8,
    pub pid: u32,
    pub generation: String,
}

/// Whether an identity can be trusted: its form is known, and it names a
/// process and an executable.
pub open spec fn trusted(identity: PidIdentity) -> bool {
    (identity.version == 1 && identity.generation@.len() == 0 || identity.version == 2
        && identity.generation@.len() > 0) && identity.pid > 0 && identity.executable.display@.len()
        > 0
}

fn is_empty(text: &str) -> (r: bool)
    ensures
        r == (text@.len() == 0),
{
    let chars = chars_of(text);
    chars.len() == 0
}

/// The identity that a document spells, if it can be trusted.
pub fn parse_pid_identity(document: Option<PidIdentity>) -> (r: Option<PidIdentity>)
    ensures
        match document {
            Some(identity) => if trusted(identity) {
                r == Some(identity)
            } else {
                r is None
            },
            None => r is None,
        },
{
    match document {
        None => None,
        Some(identity) => {
            let bare = is_empty(identity.generation.as_str());
            let supported = (identity.version == 1 && bare) || (identity.version == 2 && !bare);
            if supported && identity.pid > 0 && !is_empty(identity.executable.display.as_str()) {
                Some(identity)
            } else {
                None
            }
        },
    }
}

/// The process that a text names: that of a trusted identity, else a positive
/// number alone.
pub open spec fn named_process(raw: Seq<char>, identity: Option<PidIdentity>) -> Option<u32> {
    match identity {
        Some(found) => Some(found.pid),
        None => match u32_value(trim_both(raw, CharClass::WhiteSpace)) {
            Some(n) => if n > 0 {
                Some(n as u32)
            } else {
                None
            },
            None => None,
        },
    }
}

/// The trusted identity of an optional document.
pub open spec fn trusted_identity(document: Option<PidIdentity>) -> Option<PidIdentity> {
    match document {
        Some(identity) => if trusted(identity) {
            Some(identity)
        } else {
            None
        },
        None => None,
    }
}

fn numeric_pid(raw: &str) -> (r: Option<u32>)
    ensures
        r == named_process(raw@, None),
{
    let chars = chars_of(raw);
    match parse_u32(trim(chars.as_slice(), CharClass::WhiteSpace)) {
        Some(n) => if n > 0 {
            Some(n)
        } else {
            None
        },
        None => None,
    }
}

/// The process that a text names, given the document that it spells.
pub fn read_pid_from_raw(raw: &str, document: Option<PidIdentity>) -> (r: Option<u32>)
    ensures
        r == named_process(raw@, trusted_identity(document)),
{
    match parse_pid_identity(document) {
        Some(identity) => Some(identity.pid),
        None => numeric_pid(raw),
    }
}

/// Whether a request is for a run.
pub open spec fn asks_for(request: ShutdownRequest, run: (u32, Seq<char>)) -> bool {
    request.version == 1 && request.pid == run.0 && request.generation@ == run.1
}

/// Whether a request is for the run that published an identity.
pub fn shutdown_request_matches(identity: &PidIdentity, request: &ShutdownRequest) -> (r: bool)
    ensures
        r == asks_for(*request, (identity.pid, identity.generation@)),
{
    request.version == 1 && request.pid == identity.pid && same_text(
        request.generation.as_str(),
        identity.generation.as_str(),
    )
}

/// Whether a run was asked to shut down: no request, or none that can be read,
/// is none.
pub fn shutdown_requested_at(request: Option<&ShutdownRequest>, target: &DaemonGeneration) -> (r:
    bool)
    ensures
        r == (request matches Some(found) && asks_for(*found, generation_view(*target))),
{
    match request {
        None => false,
        Some(found) => found.version == 1 && found.pid == target.pid && same_text(
            found.generation.as_str(),
            target.generation.as_str(),
        ),
    }
}

/// A request reaches the run that it names and no other: two runs that a
/// request matches have the same process and the same nonce.
pub proof fn law_a_request_is_for_one_generation(
    request: ShutdownRequest,
    a: DaemonGeneration,
    b: DaemonGeneration,
)
    requires
        asks_for(request, generation_view(a)),
        asks_for(request, generation_view(b)),
    ensures
        generation_view(a) == generation_view(b),
{
}

/// A nonce for a new run: sixteen random bytes in hexadecimal.
pub fn daemon_generation() -> (r: String)
    ensures
        hex_bytes(r@) matches Some(bytes) && bytes.len() == 16 && r@ == hex_text(bytes),
{
    crate::background_marker::fresh_ready_nonce()
}

/// The identity that a new daemon publishes.
pub fn new_pid_identity(pid: u32, executable: HostPath) -> (r: PidIdentity)
    ensures
        r.version == 2,
        r.pid == pid,
        r.executable == executable,
        r.generation@.len() == 32,
        pid > 0 && executable.display@.len() > 0 ==> trusted(r),
{
    let generation = daemon_generation();
    PidIdentity { version: 2, pid, executable, generation }
}

// -- Contenders --

/// What a contender has published, given the document in the identity file.
pub open spec fn contender_of(
    document: Option<PidIdentity>,
    expected: Option<(u32, Seq<char>)>,
) -> Option<(u32, Seq<char>)> {
    match trusted_identity(document) {
        None => None,
        Some(identity) => if expected == Some((identity.pid, identity.generation@)) {
            None
        } else {
            Some((identity.pid, identity.generation@))
        },
    }
}

/// What identifies an optional generation.
pub open spec fn generation_behind(g: Option<&DaemonGeneration>) -> Option<(u32, Seq<char>)> {
    match g {
        Some(found) => Some(generation_view(*found)),
        None => None,
    }
}

/// What a contender has published: nothing yet, or a run that is not the stale
/// one.
pub fn classify_contending_daemon_identity(
    document: Option<PidIdentity>,
    expected_stale_generation: Option<&DaemonGeneration>,
) -> (r: ContendingDaemonIdentity)
    ensures
        match contender_of(document, generation_behind(expected_stale_generation)) {
            None => r is Pending,
            Some(view) => r matches ContendingDaemonIdentity::Published(g) && generation_view(g)
                == view,
        },
{
    match parse_pid_identity(document) {
        None => ContendingDaemonIdentity::Pending,
        Some(identity) => {
            let observed = DaemonGeneration { pid: identity.pid, generation: identity.generation };
            match expected_stale_generation {
                Some(expected) => if expected.same(&observed) {
                    ContendingDaemonIdentity::Pending
                } else {
                    ContendingDaemonIdentity::Published(observed)
                },
                None => ContendingDaemonIdentity::Published(observed),
            }
        },
    }
}

/// Another run with the same process number is a contender, not the stale run.
pub proof fn law_a_reused_pid_is_a_contender(
    identity: PidIdentity,
    stale: (u32, Seq<char>),
)
    requires
        trusted(identity),
        identity.generation@ != stale.1,
    ensures
        contender_of(Some(identity), Some(stale)) == Some((identity.pid, identity.generation@)),
{
}

// -- Locks --

/// What an attempt to take a lock gave; a failure is given in words.
#[derive(Debug, PartialEq, Eq)]
pub enum LockAttempt {
    /// The file of the lock could not be opened.
    NotOpened(String),
    Taken,
    Held,
    Failed(String),
}

/// The failure of a lock whose file could not be opened.
pub open spec fn lock_unopened(path: Seq<char>, error: Seq<char>) -> Seq<char> {
    "opening daemon PID lock "@ + path + ".lock"@ + ": "@ + error
}

fn lock_unopened_text(path: &str, error: &str) -> (r: String)
    ensures
        r@ == lock_unopened(path@, error@),
{
    join5("opening daemon PID lock ", path, ".lock", ": ", error)
}

/// What was found at the identity file.
#[derive(Debug, PartialEq, Eq)]
pub enum IdentityText {
    /// The text, and the document that it spells.
    Found { raw: String, document: Option<PidIdentity> },
    /// There is no such file, in the words of the system.
    Missing(String),
    Failed(String),
}

/// What was found at the directory of the identity file.
#[derive(Debug, PartialEq, Eq)]
pub enum ParentSight {
    /// The path has no directory.
    NoParent,
    Directory,
    NotDirectory(String),
    Missing,
    Failed { path: String, error: String },
}

/// What looking for the running daemon waits for.
#[derive(Debug, PartialEq, Eq)]
pub enum RunningStage {
    Read,
    Parent,
    /// Taking the lock, with what the identity file held before.
    Lock { initial: Option<IdentityDocument> },
    /// Reading the identity again while the lock is held.
    Reread,
    /// Whether the identity file itself is locked.
    Legacy { identity: Option<PidIdentity> },
    Unlock { running: Option<PidIdentity> },
}

/// The text of an identity file and the document that it spells.
#[derive(Debug, PartialEq, Eq)]
pub struct IdentityDocument {
    pub raw: String,
    pub document: Option<PidIdentity>,
}

/// What looking for the running daemon was given.
#[derive(Debug, PartialEq, Eq)]
pub enum RunningReply {
    Text(IdentityText),
    Parent(ParentSight),
    Lock(LockAttempt),
    Legacy(Result<bool, Fault>),
    Unlocked(Result<(), String>),
}

/// What looking for the running daemon does next.
#[derive(Debug, PartialEq, Eq)]
pub enum RunningStep {
    Await(RunningStage),
    Finished(Result<Option<PidIdentity>, Fault>),
}

/// Whether looking for the running daemon fails.
pub open spec fn running_fails(step: RunningStep, message: Seq<char>) -> bool {
    step matches RunningStep::Finished(Err(fault)) && fault@ == seq![message]
}

/// What looking for the running daemon does next. The lock decides: where it is
/// held the identity must be readable and trusted; where it is free the daemon
/// runs only if the identity file itself is locked.
pub open spec fn running_next(
    path: Seq<char>,
    stage: RunningStage,
    reply: RunningReply,
    step: RunningStep,
) -> bool {
    match (stage, reply) {
        (RunningStage::Read, RunningReply::Text(IdentityText::Found { raw, document })) => step
            == RunningStep::Await(
            RunningStage::Lock { initial: Some(IdentityDocument { raw, document }) },
        ),
        (RunningStage::Read, RunningReply::Text(IdentityText::Missing(_))) => step
            == RunningStep::Await(RunningStage::Parent),
        (RunningStage::Read, RunningReply::Text(IdentityText::Failed(error))) => running_fails(
            step,
            "reading daemon PID file "@ + path + ": "@ + error@,
        ),
        (RunningStage::Parent, RunningReply::Parent(ParentSight::NoParent)) => step
            == RunningStep::Finished(Ok(None)),
        (RunningStage::Parent, RunningReply::Parent(ParentSight::Directory)) => step
            == RunningStep::Await(RunningStage::Lock { initial: None }),
        (RunningStage::Parent, RunningReply::Parent(ParentSight::NotDirectory(parent))) => {
            running_fails(step, "daemon PID parent is not a directory: "@ + parent@)
        },
        (RunningStage::Parent, RunningReply::Parent(ParentSight::Missing)) => step
            == RunningStep::Finished(Ok(None)),
        (RunningStage::Parent, RunningReply::Parent(ParentSight::Failed { path: parent, error })) => {
            running_fails(step, "inspecting daemon PID parent "@ + parent@ + ": "@ + error@)
        },
        (RunningStage::Lock { .. }, RunningReply::Lock(LockAttempt::NotOpened(error))) => {
            running_fails(step, lock_unopened(path, error@))
        },
        (RunningStage::Lock { .. }, RunningReply::Lock(LockAttempt::Held)) => step
            == RunningStep::Await(RunningStage::Reread),
        (RunningStage::Lock { .. }, RunningReply::Lock(LockAttempt::Failed(error))) => {
            running_fails(step, "checking daemon PID lock "@ + path + ".lock"@ + ": "@ + error@)
        },
        (RunningStage::Lock { initial: None }, RunningReply::Lock(LockAttempt::Taken)) => step
            == RunningStep::Await(RunningStage::Unlock { running: None }),
        (RunningStage::Lock { initial: Some(found) }, RunningReply::Lock(LockAttempt::Taken)) => {
            let identity = trusted_identity(found.document);
            if named_process(found.raw@, identity) is None {
                running_fails(step, "daemon PID file is malformed: "@ + path)
            } else {
                step == RunningStep::Await(RunningStage::Legacy { identity })
            }
        },
        (RunningStage::Reread, RunningReply::Text(IdentityText::Found { document, .. })) => {
            match trusted_identity(document) {
                Some(identity) => step == RunningStep::Finished(Ok(Some(identity))),
                None => running_fails(
                    step,
                    "daemon PID lock is held but its identity is malformed: "@ + path,
                ),
            }
        },
        (RunningStage::Reread, RunningReply::Text(IdentityText::Missing(error))) => running_fails(
            step,
            "daemon PID lock is held but its identity "@ + path + " cannot be read: "@ + error@,
        ),
        (RunningStage::Reread, RunningReply::Text(IdentityText::Failed(error))) => running_fails(
            step,
            "daemon PID lock is held but its identity "@ + path + " cannot be read: "@ + error@,
        ),
        (RunningStage::Legacy { .. }, RunningReply::Legacy(Err(error))) => step matches
            RunningStep::Finished(Err(fault)) && fault@ == error@,
        (RunningStage::Legacy { identity }, RunningReply::Legacy(Ok(true))) => match identity {
            Some(found) => step == RunningStep::Await(
                RunningStage::Unlock { running: Some(found) },
            ),
            None => running_fails(
                step,
                "daemon PID file "@ + path + " is locked but has no trusted process identity"@,
            ),
        },
        (RunningStage::Legacy { .. }, RunningReply::Legacy(Ok(false))) => step
            == RunningStep::Await(RunningStage::Unlock { running: None }),
        (RunningStage::Unlock { running }, RunningReply::Unlocked(Ok(_))) => step
            == RunningStep::Finished(Ok(running)),
        (RunningStage::Unlock { .. }, RunningReply::Unlocked(Err(error))) => running_fails(
            step,
            "unlocking daemon PID lock "@ + path + ".lock"@ + ": "@ + error@,
        ),
        _ => step matches RunningStep::Finished(Err(fault)) && fault@ == misfit(),
    }
}

fn running_fault(message: String) -> (r: RunningStep)
    ensures
        running_fails(r, message@),
{
    RunningStep::Finished(Err(Fault::from_text(message)))
}

/// What looking for the running daemon does next.
pub fn running_pid_identity_checked_at(path: &str, stage: RunningStage, reply: RunningReply) -> (r:
    RunningStep)
    ensures
        running_next(path@, stage, reply, r),
{
    match (stage, reply) {
        (RunningStage::Read, RunningReply::Text(IdentityText::Found { raw, document })) => {
            RunningStep::Await(
                RunningStage::Lock { initial: Some(IdentityDocument { raw, document }) },
            )
        },
        (RunningStage::Read, RunningReply::Text(IdentityText::Missing(_))) => RunningStep::Await(
            RunningStage::Parent,
        ),
        (RunningStage::Read, RunningReply::Text(IdentityText::Failed(error))) => running_fault(
            join4("reading daemon PID file ", path, ": ", error.as_str()),
        ),
        (RunningStage::Parent, RunningReply::Parent(ParentSight::NoParent)) => {
            RunningStep::Finished(Ok(None))
        },
        (RunningStage::Parent, RunningReply::Parent(ParentSight::Directory)) => RunningStep::Await(
            RunningStage::Lock { initial: None },
        ),
        (RunningStage::Parent, RunningReply::Parent(ParentSight::NotDirectory(parent))) => {
            running_fault(join2("daemon PID parent is not a directory: ", parent.as_str()))
        },
        (RunningStage::Parent, RunningReply::Parent(ParentSight::Missing)) => {
            RunningStep::Finished(Ok(None))
        },
        (RunningStage::Parent, RunningReply::Parent(ParentSight::Failed { path: parent, error })) => {
            running_fault(
                join4("inspecting daemon PID parent ", parent.as_str(), ": ", error.as_str()),
            )
        },
        (RunningStage::Lock { initial: _ }, RunningReply::Lock(LockAttempt::NotOpened(error))) => {
            running_fault(lock_unopened_text(path, error.as_str()))
        },
        (RunningStage::Lock { initial: _ }, RunningReply::Lock(LockAttempt::Held)) => {
            RunningStep::Await(RunningStage::Reread)
        },
        (RunningStage::Lock { initial: _ }, RunningReply::Lock(LockAttempt::Failed(error))) => {
            running_fault(
                join5("checking daemon PID lock ", path, ".lock", ": ", error.as_str()),
            )
        },
        (RunningStage::Lock { initial: None }, RunningReply::Lock(LockAttempt::Taken)) => {
            RunningStep::Await(RunningStage::Unlock { running: None })
        },
        (RunningStage::Lock { initial: Some(found) }, RunningReply::Lock(LockAttempt::Taken)) => {
            let identity = parse_pid_identity(found.document);
            if identity.is_none() && numeric_pid(found.raw.as_str()).is_none() {
                running_fault(join2("daemon PID file is malformed: ", path))
            } else {
                RunningStep::Await(RunningStage::Legacy { identity })
            }
        },
        (RunningStage::Reread, RunningReply::Text(IdentityText::Found { raw: _, document })) => {
            match parse_pid_identity(document) {
                Some(identity) => RunningStep::Finished(Ok(Some(identity))),
                None => running_fault(
                    join2("daemon PID lock is held but its identity is malformed: ", path),
                ),
            }
        },
        (RunningStage::Reread, RunningReply::Text(IdentityText::Missing(error))) => running_fault(
            join4(
                "daemon PID lock is held but its identity ",
                path,
                " cannot be read: ",
                error.as_str(),
            ),
        ),
        (RunningStage::Reread, RunningReply::Text(IdentityText::Failed(error))) => running_fault(
            join4(
                "daemon PID lock is held but its identity ",
                path,
                " cannot be read: ",
                error.as_str(),
            ),
        ),
        (RunningStage::Legacy { identity: _ }, RunningReply::Legacy(Err(error))) => {
            RunningStep::Finished(Err(error))
        },
        (RunningStage::Legacy { identity }, RunningReply::Legacy(Ok(true))) => match identity {
            Some(found) => RunningStep::Await(RunningStage::Unlock { running: Some(found) }),
            None => running_fault(
                join3(
                    "daemon PID file ",
                    path,
                    " is locked but has no trusted process identity",
                ),
            ),
        },
        (RunningStage::Legacy { identity: _ }, RunningReply::Legacy(Ok(false))) => {
            RunningStep::Await(RunningStage::Unlock { running: None })
        },
        (RunningStage::Unlock { running }, RunningReply::Unlocked(Ok(()))) => {
            RunningStep::Finished(Ok(running))
        },
        (RunningStage::Unlock { running: _ }, RunningReply::Unlocked(Err(error))) => running_fault(
            join5("unlocking daemon PID lock ", path, ".lock", ": ", error.as_str()),
        ),
        _ => RunningStep::Finished(Err(misfit_fault())),
    }
}

/// Only a trusted identity is ever reported as the running daemon, and only
/// with a lock held: the daemon's own, or the identity file itself.
pub open spec fn running_wf(stage: RunningStage) -> bool {
    match stage {
        RunningStage::Legacy { identity } => identity matches Some(found) ==> trusted(found),
        RunningStage::Unlock { running } => running matches Some(found) ==> trusted(found),
        _ => true,
    }
}

/// Only a trusted identity is ever reported as the running daemon. It is
/// reported only after the daemon's lock was found held, or after the identity
/// file itself was.
pub proof fn law_running_daemon_is_trusted(
    path: Seq<char>,
    stage: RunningStage,
    reply: RunningReply,
    step: RunningStep,
)
    requires
        running_wf(stage),
        running_next(path, stage, reply, step),
    ensures
        step matches RunningStep::Await(next) ==> running_wf(next),
        step matches RunningStep::Finished(Ok(Some(identity))) ==> trusted(identity),
        step matches RunningStep::Await(RunningStage::Reread) ==> reply
            == RunningReply::Lock(LockAttempt::Held),
        (step matches RunningStep::Await(RunningStage::Unlock { running: Some(_) })) ==> reply
            == RunningReply::Legacy(Ok(true)),
{
}

// -- The lock itself --

/// The lock of a daemon that wants to start: nobody else may hold it.
pub fn acquire_pidfile_lock_at(path: &str, attempt: LockAttempt) -> (r: Result<(), Fault>)
    ensures
        match attempt {
            LockAttempt::NotOpened(error) => r matches Err(fault) && fault@ == seq![
                lock_unopened(path@, error@),
            ],
            LockAttempt::Taken => r is Ok,
            LockAttempt::Held => r matches Err(fault) && fault@ == seq![
                "daemon PID lock is already held at "@ + path@ + ".lock"@
                    + "; another daemon is running"@,
            ],
            LockAttempt::Failed(error) => r matches Err(fault) && fault@ == seq![
                "locking daemon PID authority "@ + path@ + ".lock"@ + ": "@ + error@,
            ],
        },
{
    match attempt {
        LockAttempt::NotOpened(error) => Err(
            Fault::from_text(lock_unopened_text(path, error.as_str())),
        ),
        LockAttempt::Taken => Ok(()),
        LockAttempt::Held => Err(
            Fault::from_text(
                join4(
                    "daemon PID lock is already held at ",
                    path,
                    ".lock",
                    "; another daemon is running",
                ),
            ),
        ),
        LockAttempt::Failed(error) => Err(
            Fault::from_text(
                join5("locking daemon PID authority ", path, ".lock", ": ", error.as_str()),
            ),
        ),
    }
}

/// Whether the identity file itself is locked, as daemons of the previous
/// release did.
#[derive(Debug, PartialEq, Eq)]
pub enum LegacyLock {
    Missing,
    Attempt(LockAttempt),
    /// The lock was taken, and giving it back failed.
    NotReleased(String),
}

/// Whether the identity file itself is locked by a daemon.
pub fn legacy_pidfile_lock_is_held_checked(path: &str, lock: LegacyLock) -> (r: Result<bool, Fault>)
    ensures
        match lock {
            LegacyLock::Missing => r == Ok::<bool, Fault>(false),
            LegacyLock::Attempt(LockAttempt::NotOpened(error)) => r matches Err(fault) && fault@ == seq![
                "opening legacy daemon PID lock "@ + path@ + ": "@ + error@,
            ],
            LegacyLock::Attempt(LockAttempt::Held) => r == Ok::<bool, Fault>(true),
            LegacyLock::Attempt(LockAttempt::Taken) => r == Ok::<bool, Fault>(false),
            LegacyLock::Attempt(LockAttempt::Failed(error)) => r matches Err(fault) && fault@
                == seq!["checking legacy daemon PID lock "@ + path@ + ": "@ + error@],
            LegacyLock::NotReleased(error) => r matches Err(fault) && fault@ == seq![
                "unlocking legacy daemon PID file "@ + path@ + ": "@ + error@,
            ],
        },
{
    match lock {
        LegacyLock::Missing => Ok(false),
        LegacyLock::Attempt(LockAttempt::NotOpened(error)) => Err(
            Fault::from_text(join4("opening legacy daemon PID lock ", path, ": ", error.as_str())),
        ),
        LegacyLock::Attempt(LockAttempt::Held) => Ok(true),
        LegacyLock::Attempt(LockAttempt::Taken) => Ok(false),
        LegacyLock::Attempt(LockAttempt::Failed(error)) => Err(
            Fault::from_text(join4("checking legacy daemon PID lock ", path, ": ", error.as_str())),
        ),
        LegacyLock::NotReleased(error) => Err(
            Fault::from_text(
                join4("unlocking legacy daemon PID file ", path, ": ", error.as_str()),
            ),
        ),
    }
}

/// The service-operation lock: nobody else may hold it.
pub fn acquire_service_operation_lease_at(path: &str, attempt: LockAttempt) -> (r: Result<(), Fault>)
    ensures
        match attempt {
            LockAttempt::NotOpened(error) => r matches Err(fault) && fault@ == seq![
                "opening service-operation lock "@ + path@,
                error@,
            ],
            LockAttempt::Taken => r is Ok,
            LockAttempt::Held => r matches Err(fault) && fault@ == seq![
                "another daemon service operation is already in progress at "@ + path@,
            ],
            LockAttempt::Failed(error) => r matches Err(fault) && fault@ == seq![
                "locking service operation "@ + path@,
                error@,
            ],
        },
{
    match attempt {
        LockAttempt::NotOpened(error) => {
            let cause = Fault::from_text(error);
            let r = cause.context(join2("opening service-operation lock ", path));
            assert(r@ =~= seq!["opening service-operation lock "@ + path@, error@]);
            Err(r)
        },
        LockAttempt::Taken => Ok(()),
        LockAttempt::Held => Err(
            Fault::from_text(
                join2("another daemon service operation is already in progress at ", path),
            ),
        ),
        LockAttempt::Failed(error) => {
            let cause = Fault::from_text(error);
            let r = cause.context(join2("locking service operation ", path));
            assert(r@ =~= seq!["locking service operation "@ + path@, error@]);
            Err(r)
        },
    }
}

} // verus!
