//! Whether the service is installed: a definition without a service, or a service
//! without a definition, is neither installed nor absent.
use vstd::prelude::*;

use crate::definition_read::task_listed;
use crate::fault::{join2, Fault};
use crate::host_path::Platform;
use crate::removal::{misfit, misfit_fault};
use crate::service_listing::task_listing_contains_name;
use crate::service_render::WINDOWS_TASK_NAME;
use crate::service_state::optional_task_definition;
use crate::task_service::{checked_regular_file, DefinitionSight};

verus! {

/// The operation that the look waits for.
#[derive(Clone, Copy, Debug, PartialEq, Eq, Structural)]
pub enum InstalledStage {
    /// Looking at the name of the service's definition.
    LookFile,
    /// Making sure that the manager knows no service without a definition.
    RequireNoService,
    /// Listing the scheduled tasks.
    ListTasks,
    /// Exporting the scheduled task.
    ExportTask,
    /// Looking at the name of the task's file.
    LookTaskFile { reported: bool },
    /// Reading the task's file.
    ReadTaskFile { reported: bool },
}

/// What the operation gave.
#[derive(Debug, PartialEq, Eq)]
pub enum InstalledReply {
    Sight(DefinitionSight),
    Done(Result<(), Fault>),
    Bytes(Result<Vec<u8>, Fault>),
}

/// What the look does next.
#[derive(Debug, PartialEq, Eq)]
pub enum InstalledStep {
    Await(InstalledStage),
    Finished(Result<bool, Fault>),
}

/// Whether the look ends with a failure.
pub open spec fn installed_fails(step: InstalledStep, messages: Seq<Seq<char>>) -> bool {
    step matches InstalledStep::Finished(Err(fault)) && fault@ == messages
}

/// What a system calls the definition.
pub open spec fn definition_name(platform: Platform) -> Seq<char> {
    match platform {
        Platform::MacOs => "LaunchAgent definition"@,
        Platform::Windows => "Windows scheduled-task definition"@,
        _ => "systemd user-service definition"@,
    }
}

/// Why nothing can be said of what was seen at the definition's name.
pub open spec fn sight_problem(platform: Platform, path: Seq<char>, sight: DefinitionSight) -> Option<
    Seq<Seq<char>>,
> {
    match sight {
        DefinitionSight::OtherKind => Some(
            seq![definition_name(platform) + " is not a regular file: "@ + path],
        ),
        DefinitionSight::Unknown(error) => Some(
            seq!["inspecting "@ + definition_name(platform) + " "@ + path] + error@,
        ),
        _ => None,
    }
}

/// How the look ends for a scheduled task: the scheduler and its directory must
/// agree.
pub open spec fn task_agrees(path: Seq<char>, reported: bool, present: bool, step: InstalledStep) -> bool {
    if reported == present {
        step == InstalledStep::Finished(Ok(present))
    } else if reported {
        installed_fails(
            step,
            seq![
                "Task Scheduler reports \\codex-switch-global-pace-daemon, but its trusted on-disk definition is missing; ownership cannot be proven"@,
            ],
        )
    } else {
        installed_fails(
            step,
            seq![
                "trusted on-disk definition "@ + path
                    + " exists, but Task Scheduler does not report the task; refusing an inconsistent service state"@,
            ],
        )
    }
}

/// What the look starts with: nothing is installed where there is no manager.
pub open spec fn installed_begins(platform: Platform, step: InstalledStep) -> bool {
    match platform {
        Platform::MacOs => step == InstalledStep::Await(InstalledStage::LookFile),
        Platform::Linux => step == InstalledStep::Await(InstalledStage::LookFile),
        Platform::Windows => step == InstalledStep::Await(InstalledStage::ListTasks),
        _ => step == InstalledStep::Finished(Ok(false)),
    }
}

/// What the look does next.
pub open spec fn installed_next(
    platform: Platform,
    path: Seq<char>,
    stage: InstalledStage,
    reply: InstalledReply,
    step: InstalledStep,
) -> bool {
    match (stage, reply) {
        (InstalledStage::LookFile, InstalledReply::Sight(sight)) => match sight_problem(
            platform,
            path,
            sight,
        ) {
            Some(messages) => installed_fails(step, messages),
            None => if sight is File {
                step == InstalledStep::Finished(Ok(true))
            } else {
                step == InstalledStep::Await(InstalledStage::RequireNoService)
            },
        },
        (InstalledStage::RequireNoService, InstalledReply::Done(outcome)) => match outcome {
            Ok(_) => step == InstalledStep::Finished(Ok(false)),
            Err(error) => installed_fails(step, error@),
        },
        (InstalledStage::ListTasks, InstalledReply::Bytes(Ok(listing))) => match task_listed(
            listing@,
        ) {
            Err(message) => installed_fails(step, seq![message]),
            Ok(true) => step == InstalledStep::Await(InstalledStage::ExportTask),
            Ok(false) => step == InstalledStep::Await(
                InstalledStage::LookTaskFile { reported: false },
            ),
        },
        (InstalledStage::ListTasks, InstalledReply::Bytes(Err(error))) => installed_fails(
            step,
            error@,
        ),
        (InstalledStage::ExportTask, InstalledReply::Bytes(outcome)) => match outcome {
            Ok(_) => step == InstalledStep::Await(InstalledStage::LookTaskFile { reported: true }),
            Err(error) => installed_fails(step, error@),
        },
        (InstalledStage::LookTaskFile { reported }, InstalledReply::Sight(sight)) => {
            match sight_problem(platform, path, sight) {
                Some(messages) => installed_fails(step, messages),
                None => if sight is File {
                    step == InstalledStep::Await(InstalledStage::ReadTaskFile { reported })
                } else {
                    task_agrees(path, reported, false, step)
                },
            }
        },
        (InstalledStage::ReadTaskFile { reported }, InstalledReply::Bytes(outcome)) => {
            match outcome {
                Ok(_) => task_agrees(path, reported, true, step),
                Err(error) => installed_fails(
                    step,
                    seq!["reading scheduled-task definition "@ + path] + error@,
                ),
            }
        },
        _ => installed_fails(step, misfit()),
    }
}

fn installed_fault(fault: Fault) -> (r: InstalledStep)
    ensures
        installed_fails(r, fault@),
{
    InstalledStep::Finished(Err(fault))
}

/// Whether there is a definition at its name: nothing but a regular file is one.
pub fn regular_file(platform: Platform, path: &str, sight: DefinitionSight) -> (r: Result<bool, Fault>)
    ensures
        match sight_problem(platform, path@, sight) {
            Some(messages) => r matches Err(fault) && fault@ == messages,
            None => r == Ok::<bool, Fault>(sight is File),
        },
{
    let name = match platform {
        Platform::MacOs => "LaunchAgent definition",
        Platform::Windows => "Windows scheduled-task definition",
        _ => "systemd user-service definition",
    };
    checked_regular_file(path, name, sight)
}

fn agreement(path: &str, reported: bool, definition: Option<Vec<u8>>) -> (r: InstalledStep)
    ensures
        task_agrees(path@, reported, definition is Some, r),
{
    match optional_task_definition(path, reported, definition) {
        Ok(found) => InstalledStep::Finished(Ok(found.is_some())),
        Err(fault) => installed_fault(fault),
    }
}

/// What the look starts with.
pub fn begin_is_installed_checked(platform: Platform) -> (r: InstalledStep)
    ensures
        installed_begins(platform, r),
{
    match platform {
        Platform::MacOs => InstalledStep::Await(InstalledStage::LookFile),
        Platform::Linux => InstalledStep::Await(InstalledStage::LookFile),
        Platform::Windows => InstalledStep::Await(InstalledStage::ListTasks),
        _ => InstalledStep::Finished(Ok(false)),
    }
}

/// What the look does next. It starts with what `begin_is_installed_checked`
/// gives.
pub fn is_installed_checked(
    platform: Platform,
    path: &str,
    stage: InstalledStage,
    reply: InstalledReply,
) -> (r: InstalledStep)
    ensures
        installed_next(platform, path@, stage, reply, r),
{
    match (stage, reply) {
        (InstalledStage::LookFile, InstalledReply::Sight(sight)) => match regular_file(
            platform,
            path,
            sight,
        ) {
            Err(fault) => installed_fault(fault),
            Ok(true) => InstalledStep::Finished(Ok(true)),
            Ok(false) => InstalledStep::Await(InstalledStage::RequireNoService),
        },
        (InstalledStage::RequireNoService, InstalledReply::Done(outcome)) => match outcome {
            Ok(()) => InstalledStep::Finished(Ok(false)),
            Err(fault) => installed_fault(fault),
        },
        (InstalledStage::ListTasks, InstalledReply::Bytes(Ok(listing))) => {
            match task_listing_contains_name(listing.as_slice(), WINDOWS_TASK_NAME) {
                Err(fault) => installed_fault(fault),
                Ok(true) => InstalledStep::Await(InstalledStage::ExportTask),
                Ok(false) => InstalledStep::Await(InstalledStage::LookTaskFile { reported: false }),
            }
        },
        (InstalledStage::ListTasks, InstalledReply::Bytes(Err(fault))) => installed_fault(fault),
        (InstalledStage::ExportTask, InstalledReply::Bytes(outcome)) => match outcome {
            Ok(_) => InstalledStep::Await(InstalledStage::LookTaskFile { reported: true }),
            Err(fault) => installed_fault(fault),
        },
        (InstalledStage::LookTaskFile { reported }, InstalledReply::Sight(sight)) => {
            match regular_file(platform, path, sight) {
                Err(fault) => installed_fault(fault),
                Ok(true) => InstalledStep::Await(InstalledStage::ReadTaskFile { reported }),
                Ok(false) => agreement(path, reported, None),
            }
        },
        (InstalledStage::ReadTaskFile { reported }, InstalledReply::Bytes(outcome)) => {
            match outcome {
                Ok(contents) => agreement(path, reported, Some(contents)),
                Err(fault) => installed_fault(
                    fault.context(join2("reading scheduled-task definition ", path)),
                ),
            }
        },
        _ => installed_fault(misfit_fault()),
    }
}

// -- Laws --

/// What holds of a stage that the look has come to.
pub open spec fn installed_wf(platform: Platform, stage: InstalledStage) -> bool {
    match stage {
        InstalledStage::LookFile => platform == Platform::MacOs || platform == Platform::Linux,
        InstalledStage::RequireNoService => platform == Platform::MacOs || platform
            == Platform::Linux,
        _ => platform == Platform::Windows,
    }
}

/// A failed look is never taken for an answer: the service is installed only
/// where a regular file was seen at its definition's name, and a scheduled
/// task only where the scheduler reports it too; it is not installed only where
/// there is no such file and the manager knows no service either.
pub proof fn law_an_answer_rests_on_both_looks(
    platform: Platform,
    path: Seq<char>,
    stage: InstalledStage,
    reply: InstalledReply,
    step: InstalledStep,
    installed: bool,
)
    requires
        installed_wf(platform, stage),
        installed_next(platform, path, stage, reply, step),
    ensures
        step matches InstalledStep::Await(next) ==> installed_wf(platform, next),
        step == InstalledStep::Await(InstalledStage::RequireNoService) ==> reply
            == InstalledReply::Sight(DefinitionSight::Missing),
        step matches InstalledStep::Await(InstalledStage::ReadTaskFile { reported }) ==> reply
            == InstalledReply::Sight(DefinitionSight::File) && stage == (
        InstalledStage::LookTaskFile { reported }),
        step == InstalledStep::Finished(Ok(installed)) && platform != Platform::Windows ==> if installed {
            reply == InstalledReply::Sight(DefinitionSight::File)
        } else {
            stage == InstalledStage::RequireNoService && (reply matches InstalledReply::Done(Ok(_)))
        },
        step == InstalledStep::Finished(Ok(installed)) && platform == Platform::Windows ==> if installed {
            stage == (InstalledStage::ReadTaskFile { reported: true })
        } else {
            stage == (InstalledStage::LookTaskFile { reported: false }) && reply
                == InstalledReply::Sight(DefinitionSight::Missing)
        },
{
}

} // verus!
