//! What is looked at before a user service is installed.
//!
//! Nothing of the installed service is changed here: a new definition is written
//! beside the live one and validated, and the service is asked how it runs.
use vstd::prelude::*;

use crate::fault::{join2, Fault};
use crate::host_path::HostPath;
use crate::launchd_service::{
    require_restorable_launch_agent, require_valid_launch_agent, MISSING_LAUNCH_AGENT,
};
use crate::removal::{misfit, misfit_fault};
use crate::service_owner::{
    launchd_document_problem, systemd_owner_problem, validate_launchd_definition_owner,
    validate_systemd_definition_owner,
};
use crate::service_render::{LAUNCHD_LABEL, SYSTEMD_UNIT_NAME};
use crate::systemd_service::{
    require_restorable_systemd_unit, require_valid_systemd_unit, MISSING_SYSTEMD_SERVICE,
};

verus! {

/// A manager of user services.
#[derive(Clone, Copy, Debug, PartialEq, Eq, Structural)]
pub enum UserServiceManager {
    Systemd,
    Launchd,
}

/// The service that is to be installed.
#[derive(Debug, PartialEq, Eq)]
pub struct AdmissionContext {
    pub manager: UserServiceManager,
    /// Where the definition is.
    pub path: String,
    /// Whether the definition of another executable is to be replaced.
    pub migration: bool,
    /// The executable that must own an existing definition.
    pub owner: HostPath,
}

/// How an admitted service ran before.
#[derive(Clone, Copy, Debug, PartialEq, Eq, Structural)]
pub struct Admission {
    pub defined: bool,
    /// Active, or loaded.
    pub running: bool,
    /// Enabled; always `false` of a LaunchAgent.
    pub enabled: bool,
}

/// The operation that an admission waits for.
#[derive(Clone, Copy, Debug, PartialEq, Eq, Structural)]
pub enum AdmissionStage {
    /// Reading the definition.
    Definition,
    /// Converting a LaunchAgent's definition to JSON.
    Convert,
    /// Writing the new definition beside the live one.
    Stage { defined: bool },
    /// Having the staged definition validated.
    Validate { defined: bool },
    /// Asking whether the service is active, or loaded.
    AskRunning { defined: bool },
    /// Asking whether the service is enabled.
    AskEnabled { defined: bool, running: bool },
    /// Making sure that the definition is still the one that was read.
    RequireUnchanged { admission: Admission },
}

/// What the operation gave.
#[derive(Debug, PartialEq, Eq)]
pub enum AdmissionReply {
    /// What the definition holds, where there is one.
    Definition(Result<Option<Vec<u8>>, Fault>),
    Document(Result<Vec<u8>, Fault>),
    Validated(Result<Validation, Fault>),
    Answer(Result<bool, Fault>),
    Done(Result<(), Fault>),
}

/// What the validation of a definition said.
#[derive(Debug, PartialEq, Eq)]
pub struct Validation {
    pub valid: bool,
    pub detail: String,
}

/// What an admission does next. The warning is shown to the user.
#[derive(Debug, PartialEq, Eq)]
pub enum AdmissionStep {
    Await { stage: AdmissionStage, warning: Option<String> },
    Finished(Result<Admission, Fault>),
}

/// Whether an admission goes on to a stage without a warning.
pub open spec fn admission_awaits(step: AdmissionStep, stage: AdmissionStage) -> bool {
    step matches AdmissionStep::Await { stage: s, warning } && s == stage && warning is None
}

/// Whether an admission is refused.
pub open spec fn admission_fails(step: AdmissionStep, messages: Seq<Seq<char>>) -> bool {
    step matches AdmissionStep::Finished(Err(fault)) && fault@ == messages
}

/// What the user is told before a definition is replaced.
pub open spec fn overwrite_warning(context: AdmissionContext) -> Seq<char> {
    (match context.manager {
        UserServiceManager::Systemd => "Warning: overwriting existing systemd service at "@,
        UserServiceManager::Launchd => "Warning: overwriting existing LaunchAgent at "@,
    }) + context.path@
}

/// Why a migration has nothing to migrate.
pub open spec fn missing_definition(manager: UserServiceManager) -> Seq<char> {
    match manager {
        UserServiceManager::Systemd => MISSING_SYSTEMD_SERVICE@,
        UserServiceManager::Launchd => MISSING_LAUNCH_AGENT@,
    }
}

/// What a definition that failed its validation is refused with.
pub open spec fn invalid_definition(manager: UserServiceManager, detail: Seq<char>) -> Seq<char> {
    (match manager {
        UserServiceManager::Systemd => "generated systemd user service failed validation: "@,
        UserServiceManager::Launchd => "generated LaunchAgent failed plutil validation: "@,
    }) + detail
}

/// What a service that could not be restored is refused with.
pub open spec fn unrestorable_service(context: AdmissionContext) -> Seq<char> {
    (match context.manager {
        UserServiceManager::Systemd => "systemd unit "@ + SYSTEMD_UNIT_NAME@
            + " is active or enabled without a restorable definition at "@,
        UserServiceManager::Launchd => "LaunchAgent label "@ + LAUNCHD_LABEL@
            + " is loaded without a restorable definition at "@,
    }) + context.path@ + "; refusing to replace it"@
}

/// Whether a service in some state could be restored.
pub open spec fn restorable(admission: Admission) -> bool {
    admission.defined || (!admission.running && !admission.enabled)
}

/// What an admission does once the service has been asked: a service that could
/// not be restored is refused.
pub open spec fn after_runtime(
    context: AdmissionContext,
    admission: Admission,
    step: AdmissionStep,
) -> bool {
    if restorable(admission) {
        admission_awaits(step, AdmissionStage::RequireUnchanged { admission })
    } else {
        admission_fails(step, seq![unrestorable_service(context)])
    }
}

/// What an admission does once the owner of the definition was asked: a
/// definition of another executable is not replaced.
pub open spec fn after_owner(
    context: AdmissionContext,
    problem: Option<Seq<Seq<char>>>,
    step: AdmissionStep,
) -> bool {
    match problem {
        Some(messages) => admission_fails(step, messages),
        None => step matches AdmissionStep::Await { stage, warning } && stage == (
        AdmissionStage::Stage { defined: true }) && (warning matches Some(text) && text@
            == overwrite_warning(context)),
    }
}

/// What an admission does next.
pub open spec fn admission_next(
    context: AdmissionContext,
    stage: AdmissionStage,
    reply: AdmissionReply,
    step: AdmissionStep,
) -> bool {
    match (stage, reply) {
        (AdmissionStage::Definition, AdmissionReply::Definition(Err(error))) => admission_fails(
            step,
            error@,
        ),
        (AdmissionStage::Definition, AdmissionReply::Definition(Ok(Some(contents)))) => {
            match context.manager {
                UserServiceManager::Systemd => after_owner(
                    context,
                    systemd_owner_problem(contents@, context.owner),
                    step,
                ),
                UserServiceManager::Launchd => admission_awaits(step, AdmissionStage::Convert),
            }
        },
        (AdmissionStage::Convert, AdmissionReply::Document(converted)) => match converted {
            Err(error) => admission_fails(step, error@),
            Ok(document) => after_owner(
                context,
                launchd_document_problem(document@, context.owner),
                step,
            ),
        },
        (AdmissionStage::Definition, AdmissionReply::Definition(Ok(None))) => if context.migration {
            admission_fails(step, seq![missing_definition(context.manager)])
        } else {
            admission_awaits(step, AdmissionStage::Stage { defined: false })
        },
        (AdmissionStage::Stage { defined }, AdmissionReply::Done(staged)) => match staged {
            Err(error) => admission_fails(step, error@),
            Ok(_) => admission_awaits(step, AdmissionStage::Validate { defined }),
        },
        (AdmissionStage::Validate { defined }, AdmissionReply::Validated(validated)) => {
            match validated {
                Err(error) => admission_fails(step, error@),
                Ok(validation) => if validation.valid {
                    admission_awaits(step, AdmissionStage::AskRunning { defined })
                } else {
                    admission_fails(
                        step,
                        seq![invalid_definition(context.manager, validation.detail@)],
                    )
                },
            }
        },
        (AdmissionStage::AskRunning { defined }, AdmissionReply::Answer(answer)) => match answer {
            Err(error) => admission_fails(step, error@),
            Ok(running) => match context.manager {
                UserServiceManager::Systemd => admission_awaits(
                    step,
                    AdmissionStage::AskEnabled { defined, running },
                ),
                UserServiceManager::Launchd => after_runtime(
                    context,
                    Admission { defined, running, enabled: false },
                    step,
                ),
            },
        },
        (AdmissionStage::AskEnabled { defined, running }, AdmissionReply::Answer(answer)) => {
            match answer {
                Err(error) => admission_fails(step, error@),
                Ok(enabled) => after_runtime(
                    context,
                    Admission { defined, running, enabled },
                    step,
                ),
            }
        },
        (AdmissionStage::RequireUnchanged { admission }, AdmissionReply::Done(unchanged)) => {
            match unchanged {
                Err(error) => admission_fails(step, error@),
                Ok(_) => step == AdmissionStep::Finished(Ok(admission)),
            }
        },
        _ => admission_fails(step, misfit()),
    }
}

fn go_on(stage: AdmissionStage) -> (r: AdmissionStep)
    ensures
        admission_awaits(r, stage),
{
    AdmissionStep::Await { stage, warning: None }
}

fn refuse(fault: Fault) -> (r: AdmissionStep)
    ensures
        admission_fails(r, fault@),
{
    AdmissionStep::Finished(Err(fault))
}

fn judge_runtime(context: &AdmissionContext, admission: Admission) -> (r: AdmissionStep)
    ensures
        after_runtime(*context, admission, r),
{
    let judged = match context.manager {
        UserServiceManager::Systemd => require_restorable_systemd_unit(
            context.path.as_str(),
            admission.defined,
            admission.running,
            admission.enabled,
        ),
        UserServiceManager::Launchd => require_restorable_launch_agent(
            context.path.as_str(),
            admission.defined,
            admission.running || admission.enabled,
        ),
    };
    match judged {
        Err(fault) => refuse(fault),
        Ok(()) => go_on(AdmissionStage::RequireUnchanged { admission }),
    }
}

fn judge_owner(context: &AdmissionContext, owner: Result<(), Fault>, Ghost(problem): Ghost<
    Option<Seq<Seq<char>>>,
>) -> (r: AdmissionStep)
    requires
        match problem {
            Some(messages) => owner matches Err(fault) && fault@ == messages,
            None => owner is Ok,
        },
    ensures
        after_owner(*context, problem, r),
{
    match owner {
        Err(fault) => refuse(fault),
        Ok(()) => AdmissionStep::Await {
            stage: AdmissionStage::Stage { defined: true },
            warning: Some(
                join2(
                    match context.manager {
                        UserServiceManager::Systemd =>
                            "Warning: overwriting existing systemd service at ",
                        UserServiceManager::Launchd =>
                            "Warning: overwriting existing LaunchAgent at ",
                    },
                    context.path.as_str(),
                ),
            ),
        },
    }
}

fn judge_missing(context: &AdmissionContext) -> (r: AdmissionStep)
    ensures
        if context.migration {
            admission_fails(r, seq![missing_definition(context.manager)])
        } else {
            admission_awaits(r, AdmissionStage::Stage { defined: false })
        },
{
    if !context.migration {
        return go_on(AdmissionStage::Stage { defined: false });
    }
    refuse(
        Fault::of(
            match context.manager {
                UserServiceManager::Systemd => MISSING_SYSTEMD_SERVICE,
                UserServiceManager::Launchd => MISSING_LAUNCH_AGENT,
            },
        ),
    )
}

/// Goes on looking at a service that is to be installed. The first operation is
/// `Definition`.
pub fn admit_installation(
    context: &AdmissionContext,
    stage: AdmissionStage,
    reply: AdmissionReply,
) -> (r: AdmissionStep)
    ensures
        admission_next(*context, stage, reply, r),
{
    match (stage, reply) {
        (AdmissionStage::Definition, AdmissionReply::Definition(read)) => match read {
            Err(error) => refuse(error),
            Ok(None) => judge_missing(context),
            Ok(Some(contents)) => match context.manager {
                UserServiceManager::Systemd => judge_owner(
                    context,
                    validate_systemd_definition_owner(contents.as_slice(), &context.owner),
                    Ghost(systemd_owner_problem(contents@, context.owner)),
                ),
                UserServiceManager::Launchd => go_on(AdmissionStage::Convert),
            },
        },
        (AdmissionStage::Convert, AdmissionReply::Document(converted)) => match converted {
            Err(error) => refuse(error),
            Ok(document) => judge_owner(
                context,
                validate_launchd_definition_owner(document.as_slice(), &context.owner),
                Ghost(launchd_document_problem(document@, context.owner)),
            ),
        },
        (AdmissionStage::Stage { defined }, AdmissionReply::Done(staged)) => match staged {
            Err(error) => refuse(error),
            Ok(()) => go_on(AdmissionStage::Validate { defined }),
        },
        (AdmissionStage::Validate { defined }, AdmissionReply::Validated(validated)) => {
            match validated {
                Err(error) => refuse(error),
                Ok(validation) => {
                    let detail = validation.detail.as_str();
                    let judged = match context.manager {
                        UserServiceManager::Systemd => require_valid_systemd_unit(
                            validation.valid,
                            detail,
                        ),
                        UserServiceManager::Launchd => require_valid_launch_agent(
                            validation.valid,
                            detail,
                        ),
                    };
                    match judged {
                        Err(fault) => refuse(fault),
                        Ok(()) => go_on(AdmissionStage::AskRunning { defined }),
                    }
                },
            }
        },
        (AdmissionStage::AskRunning { defined }, AdmissionReply::Answer(answer)) => match answer {
            Err(error) => refuse(error),
            Ok(running) => match context.manager {
                UserServiceManager::Systemd => go_on(
                    AdmissionStage::AskEnabled { defined, running },
                ),
                UserServiceManager::Launchd => judge_runtime(
                    context,
                    Admission { defined, running, enabled: false },
                ),
            },
        },
        (AdmissionStage::AskEnabled { defined, running }, AdmissionReply::Answer(answer)) => {
            match answer {
                Err(error) => refuse(error),
                Ok(enabled) => {
                    let admission = Admission { defined, running, enabled };
                    judge_runtime(context, admission)
                },
            }
        },
        (AdmissionStage::RequireUnchanged { admission }, AdmissionReply::Done(unchanged)) => {
            match unchanged {
                Err(error) => refuse(error),
                Ok(()) => AdmissionStep::Finished(Ok(admission)),
            }
        },
        _ => refuse(misfit_fault()),
    }
}

/// A service is admitted only after its definition was found unchanged, and only
/// a service that could be restored gets that far; a definition is staged only
/// where there is none or the executable owns it, and the service is asked only
/// after the staged definition passed its validation.
pub proof fn law_only_a_restorable_service_is_replaced(
    context: AdmissionContext,
    stage: AdmissionStage,
    reply: AdmissionReply,
    step: AdmissionStep,
)
    requires
        admission_next(context, stage, reply, step),
    ensures
        step matches AdmissionStep::Finished(Ok(admission)) ==> stage == (
        AdmissionStage::RequireUnchanged { admission }) && (reply matches AdmissionReply::Done(
            Ok(_),
        )),
        step matches AdmissionStep::Await {
            stage: AdmissionStage::RequireUnchanged { admission },
            ..
        } ==> restorable(admission),
        (step matches AdmissionStep::Await { stage: AdmissionStage::Stage { .. }, .. }) ==> match reply {
            AdmissionReply::Definition(Ok(None)) => !context.migration,
            AdmissionReply::Definition(Ok(Some(contents))) => systemd_owner_problem(
                contents@,
                context.owner,
            ) is None,
            AdmissionReply::Document(Ok(document)) => launchd_document_problem(
                document@,
                context.owner,
            ) is None,
            _ => false,
        },
        (step matches AdmissionStep::Await { stage: AdmissionStage::AskRunning { .. }, .. }) ==> (
        reply matches AdmissionReply::Validated(Ok(validation)) && validation.valid),
{
}

/// How far an operation is from the end of an admission.
pub open spec fn admission_distance(stage: AdmissionStage) -> nat {
    match stage {
        AdmissionStage::Definition => 7,
        AdmissionStage::Convert => 6,
        AdmissionStage::Stage { .. } => 5,
        AdmissionStage::Validate { .. } => 4,
        AdmissionStage::AskRunning { .. } => 3,
        AdmissionStage::AskEnabled { .. } => 2,
        AdmissionStage::RequireUnchanged { .. } => 1,
    }
}

/// An admission asks for each operation at most once.
pub proof fn law_admission_ends(
    context: AdmissionContext,
    stage: AdmissionStage,
    reply: AdmissionReply,
    step: AdmissionStep,
)
    requires
        admission_next(context, stage, reply, step),
    ensures
        step matches AdmissionStep::Await { stage: next, .. } ==> admission_distance(next)
            < admission_distance(stage),
{
}

} // verus!
