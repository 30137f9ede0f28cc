//! Starting, stopping and uninstalling the service: the definition is captured,
//! judged by its owner, and the procedure acts on the very bytes that were judged.
use vstd::prelude::*;

use crate::definition_read::task_listed;
use crate::fault::{headline_of, join3, joined, Fault};
use crate::host_path::{HostPath, Platform};
use crate::launchd_service::{
    launchd_uninstall_texts, rollback_launchd_uninstall, rollback_launchd_uninstall_script,
    start_launchd, start_launchd_script, stop_launchd, stop_launchd_manager,
    stop_launchd_manager_script, stop_launchd_script, uninstall_launchd, uninstall_launchd_script,
};
use crate::removal::{misfit, misfit_fault};
use crate::service_install::{
    definition_was_moved, moved_before, uninstall_error, uninstall_step, UninstallStep,
    UninstallTexts,
};
use crate::service_installed::{regular_file, sight_problem};
use crate::service_listing::task_listing_contains_name;
use crate::service_operation::{Check, Part};
use crate::service_owner::{
    launchd_document_problem, systemd_owner_problem, task_owner_problem, uninstall_owner_problem,
    validate_launchd_definition_owner, validate_systemd_definition_owner,
    validate_task_scheduler_definition_owner, validate_uninstall_owner, OwnerLook,
};
use crate::service_render::WINDOWS_TASK_NAME;
use crate::service_state::ServiceDefinition;
use crate::systemd_service::{
    rollback_systemd_uninstall, rollback_systemd_uninstall_script, start_systemd,
    start_systemd_script, stop_systemd, stop_systemd_manager, stop_systemd_manager_script,
    stop_systemd_script, systemd_uninstall_texts, uninstall_systemd, uninstall_systemd_script,
};
use crate::task_service::{
    after_failed_task_start, restore_uninstall_running_state_locked,
    restore_uninstall_running_state_locked_script, rollback_task_scheduler_uninstall,
    rollback_task_scheduler_uninstall_script, start_task_scheduler, start_task_scheduler_script,
    stop_task_scheduler, stop_task_scheduler_script, task_forms_problem,
    task_scheduler_uninstall_error, uninstall_task_scheduler, uninstall_task_scheduler_script,
    validate_task_forms, DefinitionSight,
};

verus! {

/// What is done to the service.
#[derive(Clone, Copy, Debug, PartialEq, Eq, Structural)]
pub enum Execution {
    Start,
    /// Stopping the service, and waiting until its daemon is gone.
    Stop,
    /// Stopping the service alone.
    StopManager,
    Uninstall,
}

/// What is done, and for which executable.
#[derive(Debug, PartialEq, Eq)]
pub struct ExecutionContext {
    pub platform: Platform,
    pub execution: Execution,
    pub expected: HostPath,
    /// Where the definition is.
    pub path: String,
    /// Whether the daemon ran when the task's uninstallation was asked for.
    pub was_running: bool,
}

/// A definition that was captured and judged.
#[derive(Debug, PartialEq, Eq)]
pub enum Judged {
    Missing,
    /// The file of a user service; for an uninstallation, whether the manager
    /// runs the service and has it enabled.
    File { definition: ServiceDefinition, running: bool, enabled: bool },
    /// Both forms of a scheduled task.
    Task { contents: Vec<u8>, xml: Vec<u8> },
}

/// The operation that an execution waits for.
#[derive(Debug, PartialEq, Eq)]
pub enum ExecutionStage {
    /// Reading the definition of a user service.
    Capture,
    /// Converting a LaunchAgent's definition to JSON.
    Convert { definition: ServiceDefinition },
    /// Asking launchd whether the job is loaded, or systemd whether the unit is
    /// active.
    AskRunning { definition: ServiceDefinition },
    AskEnabled { definition: ServiceDefinition, running: bool },
    /// Reading the file of the scheduled task, which must be there.
    ReadTaskFile,
    /// Reading the file of the scheduled task, if there is a task.
    CaptureTask,
    /// Listing the scheduled tasks.
    ListTasks { contents: Vec<u8> },
    /// Exporting the scheduled task.
    ExportTask { contents: Vec<u8> },
    /// Keeping the exported definition in a file.
    KeepXml { contents: Vec<u8>, xml: Vec<u8> },
    /// Carrying the procedure out.
    Perform { judged: Judged },
    /// Waiting until the daemon of the started task is there.
    AwaitDaemon,
    /// Stopping the daemon of a task that did not become ready.
    StopFailed { error: Fault },
    /// Looking at the name of the task's file after an uninstallation failed.
    LookTaskFile { judged: Judged, error: Fault },
    /// Taking an uninstallation back; whether the definition is away from its
    /// name.
    RollBack { judged: Judged, error: Fault, away: bool },
}

/// What the operation gave.
#[derive(Debug, PartialEq, Eq)]
pub enum ExecutionReply {
    Definition(Result<Option<ServiceDefinition>, Fault>),
    Task(Result<Option<Vec<u8>>, Fault>),
    Bytes(Result<Vec<u8>, Fault>),
    Answer(Result<bool, Fault>),
    Sight(DefinitionSight),
    Done(Result<(), Fault>),
    /// How a procedure ended, at which of its checks, and what was left
    /// unconfirmed.
    Ran { outcome: Result<(), Fault>, at: usize, unconfirmed: Option<Fault> },
}

/// What an execution does next.
#[derive(Debug, PartialEq, Eq)]
pub enum ExecutionStep {
    Await(ExecutionStage),
    Finished(Result<(), Fault>),
}

/// Whether an execution ends with a failure.
pub open spec fn execution_fails(step: ExecutionStep, messages: Seq<Seq<char>>) -> bool {
    step matches ExecutionStep::Finished(Err(fault)) && fault@ == messages
}

/// Whether an execution goes on with an operation, or fails for a problem.
pub open spec fn unless_problem(
    problem: Option<Seq<Seq<char>>>,
    stage: ExecutionStage,
    step: ExecutionStep,
) -> bool {
    match problem {
        Some(messages) => execution_fails(step, messages),
        None => step == ExecutionStep::Await(stage),
    }
}

/// What an execution starts with.
pub open spec fn execution_begins(context: ExecutionContext, step: ExecutionStep) -> bool {
    match (context.platform, context.execution) {
        (Platform::MacOs, _) => step == ExecutionStep::Await(ExecutionStage::Capture),
        (Platform::Linux, _) => step == ExecutionStep::Await(ExecutionStage::Capture),
        (Platform::Windows, Execution::Uninstall) => step == ExecutionStep::Await(
            ExecutionStage::CaptureTask,
        ),
        (Platform::Windows, Execution::StopManager) => execution_fails(
            step,
            seq!["Service stop is not supported on this platform"@],
        ),
        (Platform::Windows, _) => step == ExecutionStep::Await(ExecutionStage::ReadTaskFile),
        _ => execution_fails(step, misfit()),
    }
}

/// Where an owned definition of a user service leads.
pub open spec fn owned_leads_to(context: ExecutionContext, definition: ServiceDefinition) -> ExecutionStage {
    if context.execution == Execution::Uninstall {
        ExecutionStage::AskRunning { definition }
    } else {
        ExecutionStage::Perform {
            judged: Judged::File { definition, running: false, enabled: false },
        }
    }
}

/// Whether an uninstallation that failed had moved the definition away.
pub open spec fn moved_away(platform: Platform, judged: Judged, at: usize) -> bool {
    match judged {
        Judged::File { running, .. } => moved_before(
            if platform == Platform::MacOs {
                uninstall_launchd_script(true, running)
            } else {
                uninstall_systemd_script(true)
            },
            at as int,
        ),
        _ => false,
    }
}

/// How the uninstallation of a user service is reported.
pub open spec fn uninstall_words(platform: Platform) -> UninstallTexts<'static> {
    if platform == Platform::MacOs {
        launchd_uninstall_texts()
    } else {
        systemd_uninstall_texts()
    }
}

/// Where a procedure leads that was carried out.
pub open spec fn performed(
    context: ExecutionContext,
    judged: Judged,
    outcome: Result<(), Fault>,
    at: usize,
    unconfirmed: Option<Fault>,
    step: ExecutionStep,
) -> bool {
    if context.execution == Execution::Uninstall && judged !is Missing {
        match outcome {
            Err(error) => if judged is Task {
                step == ExecutionStep::Await(ExecutionStage::LookTaskFile { judged, error })
            } else {
                step == ExecutionStep::Await(
                    ExecutionStage::RollBack {
                        judged,
                        error,
                        away: moved_away(context.platform, judged, at),
                    },
                )
            },
            Ok(_) => match unconfirmed {
                Some(error) => if judged is Task {
                    step matches ExecutionStep::Finished(Ok(_))
                } else {
                    execution_fails(
                        step,
                        seq![uninstall_words(context.platform).unconfirmed@] + error@,
                    )
                },
                None => step matches ExecutionStep::Finished(Ok(_)),
            },
        }
    } else if context.platform == Platform::Windows && context.execution == Execution::Start
        && outcome is Ok {
        step == ExecutionStep::Await(ExecutionStage::AwaitDaemon)
    } else {
        step == ExecutionStep::Finished(outcome)
    }
}

/// The failure of an uninstallation that was taken back, or was not.
pub open spec fn rollback_words(
    platform: Platform,
    judged: Judged,
    error: Seq<Seq<char>>,
    rollback: Result<(), Seq<Seq<char>>>,
) -> Seq<Seq<char>> {
    seq![
        match rollback {
            Ok(_) => if judged is Task {
                "Windows scheduled-task uninstall failed; its prior definition and running state were restored"@
            } else {
                uninstall_words(platform).restored@
            },
            Err(messages) => (if judged is Task {
                "Windows scheduled-task uninstall failed and rollback was incomplete"@
            } else {
                uninstall_words(platform).incomplete@
            }) + ": "@ + joined(messages),
        },
    ] + error
}

/// What an execution does next. A procedure is carried out only once the captured
/// definition was seen to be owned.
pub open spec fn execution_next(
    context: ExecutionContext,
    stage: ExecutionStage,
    reply: ExecutionReply,
    step: ExecutionStep,
) -> bool {
    match (stage, reply) {
        (ExecutionStage::Capture, ExecutionReply::Definition(outcome)) => match outcome {
            Err(error) => execution_fails(step, error@),
            Ok(None) => step == ExecutionStep::Await(
                ExecutionStage::Perform { judged: Judged::Missing },
            ),
            Ok(Some(definition)) => if context.platform == Platform::MacOs {
                step == ExecutionStep::Await(ExecutionStage::Convert { definition })
            } else {
                unless_problem(
                    systemd_owner_problem(definition.contents@, context.expected),
                    owned_leads_to(context, definition),
                    step,
                )
            },
        },
        (ExecutionStage::Convert { definition }, ExecutionReply::Bytes(outcome)) => match outcome {
            Err(error) => execution_fails(step, error@),
            Ok(document) => unless_problem(
                launchd_document_problem(document@, context.expected),
                owned_leads_to(context, definition),
                step,
            ),
        },
        (ExecutionStage::AskRunning { definition }, ExecutionReply::Answer(outcome)) => {
            match outcome {
                Err(error) => execution_fails(step, error@),
                Ok(running) => if context.platform == Platform::MacOs {
                    step == ExecutionStep::Await(
                        ExecutionStage::Perform {
                            judged: Judged::File { definition, running, enabled: false },
                        },
                    )
                } else {
                    step == ExecutionStep::Await(ExecutionStage::AskEnabled { definition, running })
                },
            }
        },
        (ExecutionStage::AskEnabled { definition, running }, ExecutionReply::Answer(outcome)) => {
            match outcome {
                Err(error) => execution_fails(step, error@),
                Ok(enabled) => step == ExecutionStep::Await(
                    ExecutionStage::Perform { judged: Judged::File { definition, running, enabled } },
                ),
            }
        },
        (ExecutionStage::ReadTaskFile, ExecutionReply::Bytes(outcome)) => match outcome {
            Err(error) => execution_fails(
                step,
                seq!["reading Windows scheduled-task definition"@] + error@,
            ),
            Ok(contents) => step == ExecutionStep::Await(ExecutionStage::ListTasks { contents }),
        },
        (ExecutionStage::CaptureTask, ExecutionReply::Task(outcome)) => match outcome {
            Err(error) => execution_fails(step, error@),
            Ok(None) => step == ExecutionStep::Await(
                ExecutionStage::Perform { judged: Judged::Missing },
            ),
            Ok(Some(contents)) => unless_problem(
                task_owner_problem(contents@, context.expected),
                ExecutionStage::ListTasks { contents },
                step,
            ),
        },
        (ExecutionStage::ListTasks { contents }, ExecutionReply::Bytes(outcome)) => match outcome {
            Err(error) => execution_fails(step, error@),
            Ok(listing) => match task_listed(listing@) {
                Err(message) => execution_fails(step, seq![message]),
                Ok(true) => step == ExecutionStep::Await(ExecutionStage::ExportTask { contents }),
                Ok(false) => execution_fails(
                    step,
                    seq![
                        "Task Scheduler no longer reports "@ + WINDOWS_TASK_NAME@
                            + " while its XML was required"@,
                    ],
                ),
            },
        },
        (ExecutionStage::ExportTask { contents }, ExecutionReply::Bytes(outcome)) => match outcome {
            Err(error) => execution_fails(step, error@),
            Ok(xml) => if context.execution == Execution::Uninstall {
                unless_problem(
                    task_owner_problem(xml@, context.expected),
                    ExecutionStage::KeepXml { contents, xml },
                    step,
                )
            } else {
                unless_problem(
                    task_forms_problem(contents@, xml@, context.expected),
                    ExecutionStage::Perform { judged: Judged::Task { contents, xml } },
                    step,
                )
            },
        },
        (ExecutionStage::KeepXml { contents, xml }, ExecutionReply::Done(outcome)) => match outcome {
            Err(error) => execution_fails(step, error@),
            Ok(_) => step == ExecutionStep::Await(
                ExecutionStage::Perform { judged: Judged::Task { contents, xml } },
            ),
        },
        (
            ExecutionStage::Perform { judged },
            ExecutionReply::Ran { outcome, at, unconfirmed },
        ) => performed(context, judged, outcome, at, unconfirmed, step),
        (ExecutionStage::AwaitDaemon, ExecutionReply::Done(outcome)) => match outcome {
            Ok(_) => step matches ExecutionStep::Finished(Ok(_)),
            Err(error) => step == ExecutionStep::Await(ExecutionStage::StopFailed { error }),
        },
        (ExecutionStage::StopFailed { error }, ExecutionReply::Done(stop)) => execution_fails(
            step,
            seq![
                match stop {
                    Ok(_) => "scheduled daemon did not become ready and was stopped"@,
                    Err(fault) => "scheduled daemon did not become ready and cleanup also failed: "@
                        + headline_of(fault@),
                },
            ] + error@,
        ),
        (ExecutionStage::LookTaskFile { judged, error }, ExecutionReply::Sight(sight)) => {
            match sight_problem(Platform::Windows, context.path@, sight) {
                Some(messages) => execution_fails(
                    step,
                    rollback_words(context.platform, judged, error@, Err(messages)),
                ),
                None => step == ExecutionStep::Await(
                    ExecutionStage::RollBack { judged, error, away: sight !is File },
                ),
            }
        },
        (ExecutionStage::RollBack { judged, error, away: _ }, ExecutionReply::Done(rollback)) => {
            execution_fails(
                step,
                rollback_words(
                    context.platform,
                    judged,
                    error@,
                    match rollback {
                        Ok(_) => Ok(()),
                        Err(fault) => Err(fault@),
                    },
                ),
            )
        },
        _ => execution_fails(step, misfit()),
    }
}

fn refuse(fault: Fault) -> (r: ExecutionStep)
    ensures
        execution_fails(r, fault@),
{
    ExecutionStep::Finished(Err(fault))
}

fn perform(judged: Judged) -> (r: ExecutionStep)
    ensures
        r == ExecutionStep::Await(ExecutionStage::Perform { judged }),
{
    ExecutionStep::Await(ExecutionStage::Perform { judged })
}

fn go_on_owned(context: &ExecutionContext, definition: ServiceDefinition) -> (r: ExecutionStep)
    ensures
        r == ExecutionStep::Await(owned_leads_to(*context, definition)),
{
    match context.execution {
        Execution::Uninstall => ExecutionStep::Await(ExecutionStage::AskRunning { definition }),
        _ => perform(Judged::File { definition, running: false, enabled: false }),
    }
}

fn was_moved(platform: Platform, judged: &Judged, at: usize) -> (r: bool)
    ensures
        r == moved_away(platform, *judged, at),
{
    match judged {
        Judged::File { running, .. } => {
            let script = if platform == Platform::MacOs {
                uninstall_launchd(true, *running)
            } else {
                uninstall_systemd(true)
            };
            definition_was_moved(script.as_slice(), at)
        },
        _ => false,
    }
}

fn words_for(platform: Platform) -> (r: UninstallTexts<'static>)
    ensures
        r == uninstall_words(platform),
{
    if platform == Platform::MacOs {
        launchd_uninstall_texts()
    } else {
        systemd_uninstall_texts()
    }
}

fn taken_back(platform: Platform, judged: &Judged, error: Fault, rollback: Result<(), Fault>) -> (r:
    ExecutionStep)
    ensures
        execution_fails(
            r,
            rollback_words(
                platform,
                *judged,
                error@,
                match rollback {
                    Ok(_) => Ok(()),
                    Err(fault) => Err(fault@),
                },
            ),
        ),
{
    match judged {
        Judged::Task { .. } => refuse(task_scheduler_uninstall_error(error, rollback)),
        _ => refuse(uninstall_error(&words_for(platform), error, rollback)),
    }
}

fn after_performing(
    context: &ExecutionContext,
    judged: Judged,
    outcome: Result<(), Fault>,
    at: usize,
    unconfirmed: Option<Fault>,
) -> (r: ExecutionStep)
    ensures
        performed(*context, judged, outcome, at, unconfirmed, r),
{
    match (context.execution, judged) {
        (Execution::Uninstall, Judged::Task { contents, xml }) => match outcome {
            Err(error) => ExecutionStep::Await(
                ExecutionStage::LookTaskFile { judged: Judged::Task { contents, xml }, error },
            ),
            Ok(()) => ExecutionStep::Finished(Ok(())),
        },
        (Execution::Uninstall, Judged::File { definition, running, enabled }) => {
            let judged = Judged::File { definition, running, enabled };
            match uninstall_step(&words_for(context.platform), outcome, unconfirmed) {
                UninstallStep::RollBack(error) => {
                    let away = was_moved(context.platform, &judged, at);
                    ExecutionStep::Await(ExecutionStage::RollBack { judged, error, away })
                },
                UninstallStep::Finished(end) => ExecutionStep::Finished(end),
            }
        },
        _ => {
            if context.platform == Platform::Windows && context.execution == Execution::Start
                && outcome.is_ok() {
                ExecutionStep::Await(ExecutionStage::AwaitDaemon)
            } else {
                ExecutionStep::Finished(outcome)
            }
        },
    }
}

/// What an execution starts with.
pub fn begin_execution(context: &ExecutionContext) -> (r: ExecutionStep)
    ensures
        execution_begins(*context, r),
{
    match (context.platform, context.execution) {
        (Platform::MacOs, _) => ExecutionStep::Await(ExecutionStage::Capture),
        (Platform::Linux, _) => ExecutionStep::Await(ExecutionStage::Capture),
        (Platform::Windows, Execution::Uninstall) => ExecutionStep::Await(
            ExecutionStage::CaptureTask,
        ),
        (Platform::Windows, Execution::StopManager) => refuse(
            Fault::of("Service stop is not supported on this platform"),
        ),
        (Platform::Windows, _) => ExecutionStep::Await(ExecutionStage::ReadTaskFile),
        _ => refuse(misfit_fault()),
    }
}

/// What an execution does next. It starts with what `begin_execution` gives.
#[verifier::spinoff_prover]
#[verifier::rlimit(60)]
pub fn execute_service(context: &ExecutionContext, stage: ExecutionStage, reply: ExecutionReply) -> (r:
    ExecutionStep)
    ensures
        execution_next(*context, stage, reply, r),
{
    match (stage, reply) {
        (ExecutionStage::Capture, ExecutionReply::Definition(outcome)) => match outcome {
            Err(error) => refuse(error),
            Ok(None) => perform(Judged::Missing),
            Ok(Some(definition)) => {
                if context.platform == Platform::MacOs {
                    return ExecutionStep::Await(ExecutionStage::Convert { definition });
                }
                match validate_systemd_definition_owner(
                    definition.contents.as_slice(),
                    &context.expected,
                ) {
                    Ok(()) => go_on_owned(context, definition),
                    Err(fault) => refuse(fault),
                }
            },
        },
        (ExecutionStage::Convert { definition }, ExecutionReply::Bytes(outcome)) => match outcome {
            Err(error) => refuse(error),
            Ok(document) => match validate_launchd_definition_owner(
                document.as_slice(),
                &context.expected,
            ) {
                Ok(()) => go_on_owned(context, definition),
                Err(fault) => refuse(fault),
            },
        },
        (ExecutionStage::AskRunning { definition }, ExecutionReply::Answer(outcome)) => {
            match outcome {
                Err(error) => refuse(error),
                Ok(running) => if context.platform == Platform::MacOs {
                    perform(Judged::File { definition, running, enabled: false })
                } else {
                    ExecutionStep::Await(ExecutionStage::AskEnabled { definition, running })
                },
            }
        },
        (ExecutionStage::AskEnabled { definition, running }, ExecutionReply::Answer(outcome)) => {
            match outcome {
                Err(error) => refuse(error),
                Ok(enabled) => perform(Judged::File { definition, running, enabled }),
            }
        },
        (ExecutionStage::ReadTaskFile, ExecutionReply::Bytes(outcome)) => match outcome {
            Err(error) => refuse(error.within("reading Windows scheduled-task definition")),
            Ok(contents) => ExecutionStep::Await(ExecutionStage::ListTasks { contents }),
        },
        (ExecutionStage::CaptureTask, ExecutionReply::Task(outcome)) => match outcome {
            Err(error) => refuse(error),
            Ok(None) => perform(Judged::Missing),
            Ok(Some(contents)) => match validate_task_scheduler_definition_owner(
                contents.as_slice(),
                &context.expected,
            ) {
                Ok(()) => ExecutionStep::Await(ExecutionStage::ListTasks { contents }),
                Err(fault) => refuse(fault),
            },
        },
        (ExecutionStage::ListTasks { contents }, ExecutionReply::Bytes(outcome)) => match outcome {
            Err(error) => refuse(error),
            Ok(listing) => match task_listing_contains_name(listing.as_slice(), WINDOWS_TASK_NAME) {
                Err(fault) => refuse(fault),
                Ok(true) => ExecutionStep::Await(ExecutionStage::ExportTask { contents }),
                Ok(false) => refuse(
                    Fault::from_text(
                        join3(
                            "Task Scheduler no longer reports ",
                            WINDOWS_TASK_NAME,
                            " while its XML was required",
                        ),
                    ),
                ),
            },
        },
        (ExecutionStage::ExportTask { contents }, ExecutionReply::Bytes(outcome)) => match outcome {
            Err(error) => refuse(error),
            Ok(xml) => match context.execution {
                Execution::Uninstall => match validate_task_scheduler_definition_owner(
                    xml.as_slice(),
                    &context.expected,
                ) {
                    Ok(()) => ExecutionStep::Await(ExecutionStage::KeepXml { contents, xml }),
                    Err(fault) => refuse(fault),
                },
                _ => match validate_task_forms(
                    contents.as_slice(),
                    xml.as_slice(),
                    &context.expected,
                ) {
                    Ok(()) => perform(Judged::Task { contents, xml }),
                    Err(fault) => refuse(fault),
                },
            },
        },
        (ExecutionStage::KeepXml { contents, xml }, ExecutionReply::Done(outcome)) => match outcome {
            Err(error) => refuse(error),
            Ok(()) => perform(Judged::Task { contents, xml }),
        },
        (
            ExecutionStage::Perform { judged },
            ExecutionReply::Ran { outcome, at, unconfirmed },
        ) => after_performing(context, judged, outcome, at, unconfirmed),
        (ExecutionStage::AwaitDaemon, ExecutionReply::Done(outcome)) => match outcome {
            Ok(()) => ExecutionStep::Finished(Ok(())),
            Err(error) => ExecutionStep::Await(ExecutionStage::StopFailed { error }),
        },
        (ExecutionStage::StopFailed { error }, ExecutionReply::Done(stop)) => refuse(
            after_failed_task_start(error, stop),
        ),
        (ExecutionStage::LookTaskFile { judged, error }, ExecutionReply::Sight(sight)) => {
            match regular_file(Platform::Windows, context.path.as_str(), sight) {
                Err(fault) => taken_back(context.platform, &judged, error, Err(fault)),
                Ok(there) => ExecutionStep::Await(
                    ExecutionStage::RollBack { judged, error, away: !there },
                ),
            }
        },
        (ExecutionStage::RollBack { judged, error, away: _ }, ExecutionReply::Done(rollback)) => {
            taken_back(context.platform, &judged, error, rollback)
        },
        _ => refuse(misfit_fault()),
    }
}

// -- Scripts --

/// The texts of a procedure that name the definition's file.
#[derive(Clone, Copy, Debug, PartialEq, Eq)]
pub struct ExecutionWords<'a> {
    /// Reading the task's file before the task is deleted.
    pub reading: &'a str,
    /// The file is another one by then.
    pub changed: &'a str,
    /// The file is still there after the task was deleted.
    pub remains: &'a str,
    /// Reading the task's file when the removal is taken back.
    pub rereading: &'a str,
    /// The file is another one by then.
    pub changed_since: &'a str,
    /// Putting the definition of a user service back.
    pub restoring: &'a str,
}

/// Whether the manager runs the service.
pub open spec fn judged_running(judged: Judged) -> bool {
    judged matches Judged::File { running, .. } && running
}

/// Whether the manager has the service enabled.
pub open spec fn judged_enabled(judged: Judged) -> bool {
    judged matches Judged::File { enabled, .. } && enabled
}

/// The procedure that acts on a judged definition.
pub open spec fn execution_script<'a>(
    platform: Platform,
    execution: Execution,
    judged: Judged,
    words: ExecutionWords<'a>,
    part: Part,
) -> Seq<Check<'a>> {
    let installed = judged !is Missing;
    match (platform, execution) {
        (Platform::MacOs, Execution::Start) => start_launchd_script(installed, part),
        (Platform::MacOs, Execution::Stop) => stop_launchd_script(installed, part),
        (Platform::MacOs, Execution::StopManager) => stop_launchd_manager_script(installed, part),
        (Platform::MacOs, Execution::Uninstall) => uninstall_launchd_script(
            installed,
            judged_running(judged),
        ),
        (Platform::Linux, Execution::Start) => start_systemd_script(installed),
        (Platform::Linux, Execution::Stop) => stop_systemd_script(installed, part),
        (Platform::Linux, Execution::StopManager) => stop_systemd_manager_script(installed, part),
        (Platform::Linux, Execution::Uninstall) => uninstall_systemd_script(installed),
        (Platform::Windows, Execution::Start) => start_task_scheduler_script(),
        (Platform::Windows, Execution::Stop) => stop_task_scheduler_script(),
        (Platform::Windows, Execution::Uninstall) => uninstall_task_scheduler_script(
            installed,
            words.reading,
            words.changed,
            words.remains,
        ),
        _ => Seq::empty(),
    }
}

/// The procedure that acts on a judged definition.
pub fn script_of<'a>(
    platform: Platform,
    execution: Execution,
    judged: &Judged,
    words: ExecutionWords<'a>,
    part: Part,
) -> (r: Vec<Check<'a>>)
    ensures
        r@ == execution_script(platform, execution, *judged, words, part),
{
    let installed = match judged {
        Judged::Missing => false,
        _ => true,
    };
    let running = match judged {
        Judged::File { running, .. } => *running,
        _ => false,
    };
    match (platform, execution) {
        (Platform::MacOs, Execution::Start) => start_launchd(installed, part),
        (Platform::MacOs, Execution::Stop) => stop_launchd(installed, part),
        (Platform::MacOs, Execution::StopManager) => stop_launchd_manager(installed, part),
        (Platform::MacOs, Execution::Uninstall) => uninstall_launchd(installed, running),
        (Platform::Linux, Execution::Start) => start_systemd(installed),
        (Platform::Linux, Execution::Stop) => stop_systemd(installed, part),
        (Platform::Linux, Execution::StopManager) => stop_systemd_manager(installed, part),
        (Platform::Linux, Execution::Uninstall) => uninstall_systemd(installed),
        (Platform::Windows, Execution::Start) => start_task_scheduler(),
        (Platform::Windows, Execution::Stop) => stop_task_scheduler(),
        (Platform::Windows, Execution::Uninstall) => uninstall_task_scheduler(
            installed,
            words.reading,
            words.changed,
            words.remains,
        ),
        _ => Vec::new(),
    }
}

/// The procedure that takes an uninstallation back.
pub open spec fn rollback_script<'a>(
    context: ExecutionContext,
    judged: Judged,
    away: bool,
    words: ExecutionWords<'a>,
    part: Part,
) -> Seq<Check<'a>> {
    match context.platform {
        Platform::MacOs => rollback_launchd_uninstall_script(
            away,
            judged_running(judged),
            words.restoring,
            part,
        ),
        Platform::Linux => rollback_systemd_uninstall_script(
            away,
            judged_enabled(judged),
            judged_running(judged),
            words.restoring,
            part,
        ),
        Platform::Windows => rollback_task_scheduler_uninstall_script(
            !away,
            context.was_running,
            words.rereading,
            words.changed_since,
            part,
        ),
        _ => Seq::empty(),
    }
}

/// The procedure that takes an uninstallation back.
pub fn rollback_of<'a>(
    context: &ExecutionContext,
    judged: &Judged,
    away: bool,
    words: ExecutionWords<'a>,
    part: Part,
) -> (r: Vec<Check<'a>>)
    ensures
        r@ == rollback_script(*context, *judged, away, words, part),
{
    let (running, enabled) = match judged {
        Judged::File { running, enabled, .. } => (*running, *enabled),
        _ => (false, false),
    };
    match context.platform {
        Platform::MacOs => rollback_launchd_uninstall(away, running, words.restoring, part),
        Platform::Linux => rollback_systemd_uninstall(
            away,
            enabled,
            running,
            words.restoring,
            part,
        ),
        Platform::Windows => rollback_task_scheduler_uninstall(
            !away,
            context.was_running,
            words.rereading,
            words.changed_since,
            part,
        ),
        _ => Vec::new(),
    }
}

/// Bringing the daemon of a task back that could not be uninstalled: only the
/// owner of the task may.
pub fn restore_uninstalled_daemon(expected: &HostPath, look: OwnerLook, was_running: bool) -> (r: Result<
    Vec<Check<'static>>,
    Fault,
>)
    ensures
        match uninstall_owner_problem(*expected, look) {
            Some(messages) => r matches Err(fault) && fault@ == messages,
            None => r matches Ok(script) && script@
                == restore_uninstall_running_state_locked_script(was_running, Part::First),
        },
{
    match validate_uninstall_owner(expected, look) {
        Ok(()) => Ok(restore_uninstall_running_state_locked(was_running, Part::First)),
        Err(fault) => Err(fault),
    }
}

// -- Laws --

/// Whether a judged definition is owned, as far as its bytes alone tell it. A
/// LaunchAgent's owner is read from the JSON form of its bytes.
pub open spec fn owned(context: ExecutionContext, judged: Judged) -> bool {
    match judged {
        Judged::Missing => true,
        Judged::File { definition, .. } => context.platform == Platform::MacOs || context.platform
            == Platform::Linux && systemd_owner_problem(
            definition.contents@,
            context.expected,
        ) is None,
        Judged::Task { contents, xml } => context.platform == Platform::Windows
            && task_owner_problem(contents@, context.expected) is None && task_owner_problem(
            xml@,
            context.expected,
        ) is None,
    }
}

/// What holds of a stage that an execution has come to.
pub open spec fn execution_wf(context: ExecutionContext, stage: ExecutionStage) -> bool {
    let windows = context.platform == Platform::Windows;
    let uninstalls = context.execution == Execution::Uninstall;
    match stage {
        ExecutionStage::Capture => context.platform == Platform::MacOs || context.platform
            == Platform::Linux,
        ExecutionStage::Convert { .. } => context.platform == Platform::MacOs,
        ExecutionStage::AskRunning { definition } => uninstalls && owned(
            context,
            Judged::File { definition, running: false, enabled: false },
        ),
        ExecutionStage::AskEnabled { definition, running } => uninstalls && owned(
            context,
            Judged::File { definition, running, enabled: false },
        ),
        ExecutionStage::ReadTaskFile => windows && !uninstalls,
        ExecutionStage::CaptureTask => windows && uninstalls,
        ExecutionStage::ListTasks { contents } => windows && (uninstalls ==> task_owner_problem(
            contents@,
            context.expected,
        ) is None),
        ExecutionStage::ExportTask { contents } => windows && (uninstalls ==> task_owner_problem(
            contents@,
            context.expected,
        ) is None),
        ExecutionStage::KeepXml { contents, xml } => uninstalls && owned(
            context,
            Judged::Task { contents, xml },
        ),
        ExecutionStage::Perform { judged } => owned(context, judged),
        ExecutionStage::AwaitDaemon => windows,
        ExecutionStage::StopFailed { .. } => windows,
        ExecutionStage::LookTaskFile { judged, .. } => uninstalls && judged is Task && owned(
            context,
            judged,
        ),
        ExecutionStage::RollBack { judged, .. } => uninstalls && judged !is Missing && owned(
            context,
            judged,
        ),
    }
}

/// A procedure acts only on a definition whose captured bytes were judged to be
/// owned by the expected executable, whatever was looked at before.
pub proof fn law_a_procedure_acts_on_the_bytes_that_were_judged(
    context: ExecutionContext,
    stage: ExecutionStage,
    reply: ExecutionReply,
    step: ExecutionStep,
)
    requires
        execution_wf(context, stage),
        execution_next(context, stage, reply, step),
    ensures
        step matches ExecutionStep::Await(next) ==> execution_wf(context, next),
        step matches ExecutionStep::Await(ExecutionStage::Perform { judged }) ==> owned(
            context,
            judged,
        ),
        stage matches ExecutionStage::Convert { definition } ==> (step is Await ==> step
            == ExecutionStep::Await(owned_leads_to(context, definition)) && (reply matches
            ExecutionReply::Bytes(Ok(document)) && launchd_document_problem(
            document@,
            context.expected,
        ) is None)),
{
}

/// An execution comes to its first operation with nothing judged yet.
pub proof fn law_an_execution_begins_with_a_capture(context: ExecutionContext, step: ExecutionStep)
    requires
        execution_begins(context, step),
    ensures
        step matches ExecutionStep::Await(stage) ==> execution_wf(context, stage) && (stage
            == ExecutionStage::Capture || stage == ExecutionStage::ReadTaskFile || stage
            == ExecutionStage::CaptureTask),
{
}

/// An uninstallation that fails after its definition was judged is always taken
/// back, and never reported as done.
pub proof fn law_a_failed_uninstallation_is_taken_back(
    context: ExecutionContext,
    judged: Judged,
    error: Fault,
    at: usize,
    unconfirmed: Option<Fault>,
    step: ExecutionStep,
)
    requires
        context.execution == Execution::Uninstall,
        judged !is Missing,
        execution_next(
            context,
            ExecutionStage::Perform { judged },
            ExecutionReply::Ran { outcome: Err(error), at, unconfirmed },
            step,
        ),
    ensures
        step matches ExecutionStep::Await(next) && (next is RollBack || next is LookTaskFile),
{
}

} // verus!
