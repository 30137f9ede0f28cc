//! How installing and uninstalling a user service goes from phase to phase.
//!
//! Both managers of user services follow the same course. What a phase consists
//! of is a script of the manager; what a failed phase means is decided here.
use vstd::prelude::*;

use crate::fault::{headline_of, join2, join3, joined, Fault};
use crate::fs_ops::{CreateExactOutcome, FileToken};
use crate::host_path::{below, join_leaf, HostPath, Platform};
use crate::service_operation::{Check, ServiceOperation};
use crate::service_publication::{cleanup_report, service_cleanup_result, ServiceFileCleanupOutcome};
use crate::service_state::transaction_error_with_restoration;

verus! {

/// How a failed installation is reported.
#[derive(Clone, Copy, Debug, PartialEq, Eq)]
pub struct InstallTexts<'a> {
    /// The preparation failed, and what it had stopped runs again.
    pub preparation_restored: &'a str,
    /// The preparation failed, and what it had stopped does not run again.
    pub preparation_incomplete: &'a str,
    /// The preparation failed before it changed anything.
    pub preparation_untouched: &'a str,
    /// The definition was not published.
    pub unpublished: &'a str,
    /// The definition was not published, and the service does not run again.
    pub unpublished_and_stopped: &'a str,
    /// The new service failed and was taken back.
    pub rolled_back: &'a str,
    /// The new service failed and could not be taken back.
    pub rollback_failed: &'a str,
    /// The new service runs, but the publication could not be closed.
    pub uncommitted: &'a str,
}

/// A phase of an installation. One that answers a failure keeps it.
#[derive(Debug, PartialEq, Eq)]
pub enum InstallPhase {
    Prepare,
    RestorePrepared(Fault),
    Publish,
    RestartUnchanged(Fault),
    Activate,
    RollBack(Fault),
    Commit,
}

/// What an installation does next.
#[derive(Debug, PartialEq, Eq)]
pub enum InstallStep {
    Enter(InstallPhase),
    Finished(Result<(), Fault>),
}

/// Whether an installation ends with a failure.
pub open spec fn install_fails(step: InstallStep, messages: Seq<Seq<char>>) -> bool {
    step matches InstallStep::Finished(Err(fault)) && fault@ == messages
}

/// What an installation does after a phase.
pub open spec fn install_next(
    texts: InstallTexts,
    was_running: bool,
    phase: InstallPhase,
    outcome: Result<(), Fault>,
    step: InstallStep,
) -> bool {
    match (phase, outcome) {
        (InstallPhase::Prepare, Ok(_)) => step == InstallStep::Enter(InstallPhase::Publish),
        (InstallPhase::Prepare, Err(error)) => if was_running {
            step == InstallStep::Enter(InstallPhase::RestorePrepared(error))
        } else {
            install_fails(step, seq![texts.preparation_untouched@] + error@)
        },
        (InstallPhase::RestorePrepared(cause), Ok(_)) => install_fails(
            step,
            seq![texts.preparation_restored@] + cause@,
        ),
        (InstallPhase::RestorePrepared(cause), Err(error)) => install_fails(
            step,
            seq![texts.preparation_incomplete@ + ": "@ + joined(error@)] + cause@,
        ),
        (InstallPhase::Publish, Ok(_)) => step == InstallStep::Enter(InstallPhase::Activate),
        (InstallPhase::Publish, Err(error)) => if was_running {
            step == InstallStep::Enter(InstallPhase::RestartUnchanged(error))
        } else {
            install_fails(step, seq![texts.unpublished@] + error@)
        },
        (InstallPhase::RestartUnchanged(cause), Ok(_)) => install_fails(
            step,
            seq![texts.unpublished@] + cause@,
        ),
        (InstallPhase::RestartUnchanged(cause), Err(error)) => install_fails(
            step,
            seq![texts.unpublished_and_stopped@ + ": "@ + headline_of(error@)] + cause@,
        ),
        (InstallPhase::Activate, Ok(_)) => step == InstallStep::Enter(InstallPhase::Commit),
        (InstallPhase::Activate, Err(error)) => step == InstallStep::Enter(
            InstallPhase::RollBack(error),
        ),
        (InstallPhase::RollBack(cause), Ok(_)) => install_fails(
            step,
            seq![texts.rolled_back@] + cause@,
        ),
        (InstallPhase::RollBack(cause), Err(error)) => install_fails(
            step,
            seq![texts.rollback_failed@ + ": "@ + headline_of(error@)] + cause@,
        ),
        (InstallPhase::Commit, Ok(_)) => step == InstallStep::Finished(Ok(())),
        (InstallPhase::Commit, Err(error)) => install_fails(
            step,
            seq![texts.uncommitted@] + error@,
        ),
    }
}

/// What an installation does after a phase, given whether the service ran
/// before.
pub fn install_step(
    texts: &InstallTexts,
    was_running: bool,
    phase: InstallPhase,
    outcome: Result<(), Fault>,
) -> (r: InstallStep)
    ensures
        install_next(*texts, was_running, phase, outcome, r),
{
    match phase {
        InstallPhase::Prepare => match outcome {
            Ok(()) => InstallStep::Enter(InstallPhase::Publish),
            Err(error) => if was_running {
                InstallStep::Enter(InstallPhase::RestorePrepared(error))
            } else {
                InstallStep::Finished(Err(error.within(texts.preparation_untouched)))
            },
        },
        InstallPhase::RestorePrepared(cause) => InstallStep::Finished(
            Err(
                transaction_error_with_restoration(
                    cause,
                    outcome,
                    texts.preparation_restored,
                    texts.preparation_incomplete,
                ),
            ),
        ),
        InstallPhase::Publish => match outcome {
            Ok(()) => InstallStep::Enter(InstallPhase::Activate),
            Err(error) => if was_running {
                InstallStep::Enter(InstallPhase::RestartUnchanged(error))
            } else {
                InstallStep::Finished(Err(error.within(texts.unpublished)))
            },
        },
        InstallPhase::RestartUnchanged(cause) => match outcome {
            Ok(()) => InstallStep::Finished(Err(cause.within(texts.unpublished))),
            Err(error) => InstallStep::Finished(
                Err(
                    cause.context(
                        join3(texts.unpublished_and_stopped, ": ", error.headline().as_str()),
                    ),
                ),
            ),
        },
        InstallPhase::Activate => match outcome {
            Ok(()) => InstallStep::Enter(InstallPhase::Commit),
            Err(error) => InstallStep::Enter(InstallPhase::RollBack(error)),
        },
        InstallPhase::RollBack(cause) => match outcome {
            Ok(()) => InstallStep::Finished(Err(cause.within(texts.rolled_back))),
            Err(error) => InstallStep::Finished(
                Err(cause.context(join3(texts.rollback_failed, ": ", error.headline().as_str()))),
            ),
        },
        InstallPhase::Commit => match outcome {
            Ok(()) => InstallStep::Finished(Ok(())),
            Err(error) => InstallStep::Finished(Err(error.within(texts.uncommitted))),
        },
    }
}

/// An installation succeeds only by committing a publication whose service was
/// activated; a published definition whose service failed is always rolled
/// back; and a definition is published only after the preparation succeeded.
pub proof fn law_install_phases(
    texts: InstallTexts,
    was_running: bool,
    phase: InstallPhase,
    outcome: Result<(), Fault>,
    step: InstallStep,
)
    requires
        install_next(texts, was_running, phase, outcome, step),
    ensures
        (step matches InstallStep::Finished(Ok(_))) ==> phase is Commit && outcome is Ok,
        (step matches InstallStep::Enter(InstallPhase::Commit)) ==> phase is Activate
            && outcome is Ok,
        (step matches InstallStep::Enter(InstallPhase::Publish)) ==> phase is Prepare
            && outcome is Ok,
        phase is Activate && outcome is Err ==> (step matches InstallStep::Enter(
            InstallPhase::RollBack(_),
        )),
        was_running && phase is Prepare && outcome is Err ==> (step matches InstallStep::Enter(
            InstallPhase::RestorePrepared(_),
        )),
        was_running && phase is Publish && outcome is Err ==> (step matches InstallStep::Enter(
            InstallPhase::RestartUnchanged(_),
        )),
{
}

/// How far a phase is from the end of an installation.
pub open spec fn install_distance(phase: InstallPhase) -> nat {
    match phase {
        InstallPhase::Prepare => 4,
        InstallPhase::Publish => 3,
        InstallPhase::Activate => 2,
        InstallPhase::RestorePrepared(_) => 1,
        InstallPhase::RestartUnchanged(_) => 1,
        InstallPhase::RollBack(_) => 1,
        InstallPhase::Commit => 1,
    }
}

/// An installation enters no phase twice: each phase leads to one that is
/// nearer to the end.
pub proof fn law_install_ends(
    texts: InstallTexts,
    was_running: bool,
    phase: InstallPhase,
    outcome: Result<(), Fault>,
    step: InstallStep,
)
    requires
        install_next(texts, was_running, phase, outcome, step),
    ensures
        step matches InstallStep::Enter(next) ==> install_distance(next) < install_distance(phase),
{
}

// -- Uninstalling --

/// How a failed uninstallation is reported.
#[derive(Clone, Copy, Debug, PartialEq, Eq)]
pub struct UninstallTexts<'a> {
    pub restored: &'a str,
    pub incomplete: &'a str,
    /// The service is gone, but the removal of its definition may not last.
    pub unconfirmed: &'a str,
}

/// How an uninstallation goes on after its script: the failure that calls for a
/// rollback, or the end.
#[derive(Debug, PartialEq, Eq)]
pub enum UninstallStep {
    RollBack(Fault),
    Finished(Result<(), Fault>),
}

/// How an uninstallation goes on after its script. A definition that was
/// removed stays removed, also where the removal could not be made durable.
pub fn uninstall_step(
    texts: &UninstallTexts,
    outcome: Result<(), Fault>,
    unconfirmed_cleanup: Option<Fault>,
) -> (r: UninstallStep)
    ensures
        match outcome {
            Err(error) => r == UninstallStep::RollBack(error),
            Ok(_) => match unconfirmed_cleanup {
                None => r == UninstallStep::Finished(Ok(())),
                Some(error) => r matches UninstallStep::Finished(Err(fault)) && fault@ == seq![
                    texts.unconfirmed@,
                ] + error@,
            },
        },
{
    match outcome {
        Err(error) => UninstallStep::RollBack(error),
        Ok(()) => match unconfirmed_cleanup {
            None => UninstallStep::Finished(Ok(())),
            Some(error) => UninstallStep::Finished(Err(error.within(texts.unconfirmed))),
        },
    }
}

/// The failure of an uninstallation that was rolled back.
pub fn uninstall_error(texts: &UninstallTexts, error: Fault, rollback: Result<(), Fault>) -> (r:
    Fault)
    ensures
        r@ == seq![
            match rollback {
                Ok(_) => texts.restored@,
                Err(fault) => texts.incomplete@ + ": "@ + joined(fault@),
            },
        ] + error@,
{
    transaction_error_with_restoration(error, rollback, texts.restored, texts.incomplete)
}

/// Whether the definition has been moved away before the given place.
pub open spec fn moved_before(script: Seq<Check>, at: int) -> bool {
    exists|i: int|
        0 <= i < at && i < script.len() && (#[trigger] script[i]).operation
            == ServiceOperation::MoveAway
}

/// Whether a script that failed at a place had moved the definition away.
pub fn definition_was_moved(script: &[Check], at: usize) -> (r: bool)
    ensures
        r == moved_before(script@, at as int),
{
    let mut i: usize = 0;
    while i < at && i < script.len()
        invariant
            i <= script@.len(),
            i <= at,
            !moved_before(script@, i as int),
        decreases script@.len() - i,
    {
        let moves = script[i].operation == ServiceOperation::MoveAway;
        if moves {
            return true;
        }
        i = i + 1;
    }
    false
}

// -- Names and copies beside a definition --

/// The name of a file beside a definition: hidden, and with a suffix.
pub fn service_transaction_path(path: &HostPath, suffix: &str) -> (r: Result<String, Fault>)
    ensures
        match (path.parent, path.file_name) {
            (None, _) => r matches Err(fault) && fault@ == seq![
                "service definition has no parent: "@ + path.display@,
            ],
            (Some(_), None) => r matches Err(fault) && fault@ == seq![
                "service definition has no file name: "@ + path.display@,
            ],
            (Some(parent), Some(name)) => r matches Ok(text) && text@ == below(
                Platform::Linux,
                parent@,
                "."@ + name@ + suffix@,
            ),
        },
{
    let parent = match &path.parent {
        Some(parent) => parent,
        None => {
            return Err(
                Fault::from_text(
                    join2("service definition has no parent: ", path.display.as_str()),
                ),
            );
        },
    };
    match &path.file_name {
        None => Err(
            Fault::from_text(join2("service definition has no file name: ", path.display.as_str())),
        ),
        Some(name) => Ok(
            join_leaf(
                Platform::Linux,
                parent.as_str(),
                join3(".", name.as_str(), suffix).as_str(),
            ),
        ),
    }
}

/// What was found at a name that must be free.
#[derive(Debug, PartialEq, Eq)]
pub enum NameSight {
    Free,
    Taken,
    Unknown(Fault),
}

/// A name for recovery data must be free.
pub fn require_service_transaction_path_absent(path: &str, purpose: &str, sight: NameSight) -> (r:
    Result<(), Fault>)
    ensures
        match sight {
            NameSight::Free => r is Ok,
            NameSight::Taken => r matches Err(fault) && fault@ == seq![
                purpose@ + " already exists at "@ + path@
                    + "; refusing to overwrite recovery data"@,
            ],
            NameSight::Unknown(error) => r matches Err(fault) && fault@ == seq![
                "inspecting "@ + purpose@ + " "@ + path@,
            ] + error@,
        },
{
    match sight {
        NameSight::Free => Ok(()),
        NameSight::Taken => Err(
            Fault::from_text(
                join2(
                    join3(purpose, " already exists at ", path).as_str(),
                    "; refusing to overwrite recovery data",
                ),
            ),
        ),
        NameSight::Unknown(error) => Err(
            error.context(join2(join3("inspecting ", purpose, " ").as_str(), path)),
        ),
    }
}

/// What a durable copy waits for. A copy that was made but is not durable keeps
/// its token.
#[derive(Debug, PartialEq, Eq)]
pub enum DurableCopyStage {
    Create,
    Sync(FileToken),
    CleanUp { sync_error: Fault },
}

/// What an operation of a durable copy gave.
#[derive(Debug, PartialEq, Eq)]
pub enum DurableCopyReply {
    Created(Result<CreateExactOutcome, Fault>),
    Synced(Result<(), Fault>),
    CleanedUp(Result<ServiceFileCleanupOutcome, Fault>),
}

/// What a durable copy does next.
#[derive(Debug, PartialEq, Eq)]
pub enum DurableCopyStep {
    Await(DurableCopyStage),
    Finished(Result<FileToken, Fault>),
}

/// What a durable copy does next. It is complete only once the name is known to
/// last; else the copy is taken away again.
pub open spec fn durable_copy_next(
    destination: Seq<char>,
    purpose: Seq<char>,
    stage: DurableCopyStage,
    reply: DurableCopyReply,
    step: DurableCopyStep,
) -> bool {
    match (stage, reply) {
        (DurableCopyStage::Create, DurableCopyReply::Created(Err(error))) => step matches
            DurableCopyStep::Finished(Err(fault)) && fault@ == seq![
            "creating "@ + purpose + " at "@ + destination,
        ] + error@,
        (
            DurableCopyStage::Create,
            DurableCopyReply::Created(Ok(CreateExactOutcome::Created(token))),
        ) => step == DurableCopyStep::Finished(Ok(token)),
        (
            DurableCopyStage::Create,
            DurableCopyReply::Created(
                Ok(CreateExactOutcome::CreatedNamespaceDurabilityUnconfirmed(token)),
            ),
        ) => step == DurableCopyStep::Await(DurableCopyStage::Sync(token)),
        (DurableCopyStage::Sync(token), DurableCopyReply::Synced(Ok(_))) => step
            == DurableCopyStep::Finished(Ok(token)),
        (DurableCopyStage::Sync(_), DurableCopyReply::Synced(Err(error))) => step
            == DurableCopyStep::Await(DurableCopyStage::CleanUp { sync_error: error }),
        (DurableCopyStage::CleanUp { sync_error }, DurableCopyReply::CleanedUp(result)) => step
            matches DurableCopyStep::Finished(Err(fault)) && fault@ == seq![
            purpose + " was created at "@ + destination
                + ", but retrying parent-directory durability failed: "@ + joined(sync_error@)
                + ". Exact cleanup was "@ + cleanup_report(result),
        ],
        _ => step matches DurableCopyStep::Finished(Err(fault)) && fault@
            == crate::removal::misfit(),
    }
}

/// What a durable copy does next.
pub fn create_service_file_copy_durable(
    destination: &str,
    purpose: &str,
    stage: DurableCopyStage,
    reply: DurableCopyReply,
) -> (r: DurableCopyStep)
    ensures
        durable_copy_next(destination@, purpose@, stage, reply, r),
{
    match (stage, reply) {
        (DurableCopyStage::Create, DurableCopyReply::Created(Err(error))) => {
            DurableCopyStep::Finished(
                Err(
                    error.context(
                        join2(join3("creating ", purpose, " at ").as_str(), destination),
                    ),
                ),
            )
        },
        (
            DurableCopyStage::Create,
            DurableCopyReply::Created(Ok(CreateExactOutcome::Created(token))),
        ) => DurableCopyStep::Finished(Ok(token)),
        (
            DurableCopyStage::Create,
            DurableCopyReply::Created(
                Ok(CreateExactOutcome::CreatedNamespaceDurabilityUnconfirmed(token)),
            ),
        ) => DurableCopyStep::Await(DurableCopyStage::Sync(token)),
        (DurableCopyStage::Sync(token), DurableCopyReply::Synced(Ok(()))) => {
            DurableCopyStep::Finished(Ok(token))
        },
        (DurableCopyStage::Sync(_), DurableCopyReply::Synced(Err(error))) => {
            DurableCopyStep::Await(DurableCopyStage::CleanUp { sync_error: error })
        },
        (DurableCopyStage::CleanUp { sync_error }, DurableCopyReply::CleanedUp(result)) => {
            let mut text = join3(purpose, " was created at ", destination);
            text.append(", but retrying parent-directory durability failed: ");
            text.append(sync_error.detail().as_str());
            text.append(". Exact cleanup was ");
            text.append(service_cleanup_result(result).as_str());
            DurableCopyStep::Finished(Err(Fault::from_text(text)))
        },
        _ => DurableCopyStep::Finished(Err(crate::removal::misfit_fault())),
    }
}

} // verus!
