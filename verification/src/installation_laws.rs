//! What installing, capturing, starting, stopping and removing the service bring
//! about, and what a failure on the way says.
use vstd::prelude::*;

use crate::cause::stems_from;
use crate::definition_read::{
    begin_definition_snapshot, definition_snapshot, task_listed, DefinitionKind, ReadReply,
    ReadStage, ReadStep,
};
use crate::fault::Fault;
use crate::fs_ops::CreateExactOutcome;
use crate::host_path::{HostPath, Platform};
use crate::outside::sha256;
use crate::scheduled_stop::{
    stop_scheduled_daemon_for_rollback, RollbackStopReply, RollbackStopStage, RollbackStopStep,
};
use crate::service_admission::{
    admit_installation, Admission, AdmissionContext, AdmissionReply, AdmissionStage, AdmissionStep,
    UserServiceManager,
};
use crate::service_capture::{
    begin_capture, begin_service_action, capture_service_state_snapshot, service_action,
    ActionReply, ActionStage, ActionStep, CaptureReply, CaptureStage, CaptureStep,
};
use crate::service_execution::{
    begin_execution, execute_service, Execution, ExecutionContext, ExecutionReply, ExecutionStage,
    ExecutionStep, Judged,
};
use crate::service_install::{
    create_service_file_copy_durable, install_step, require_service_transaction_path_absent,
    uninstall_error, uninstall_step, DurableCopyReply, DurableCopyStage, DurableCopyStep,
    InstallPhase, InstallStep, InstallTexts, NameSight, UninstallStep, UninstallTexts,
};
use crate::service_installed::{
    begin_is_installed_checked, is_installed_checked, InstalledReply, InstalledStage, InstalledStep,
};
use crate::service_owner::{
    executable_problem, launchd_document_problem, migration_problem, optional_path,
    systemd_owner_problem, task_owner_problem, uninstall_owner_problem, ServiceAction,
};
use crate::service_state::ServiceDefinition;
use crate::task_service::{task_forms_problem, DefinitionSight};

verus! {

// -- Installing --

/// An installation whose phases succeed prepares, publishes, activates and commits in
/// this order, and is done only then. A phase that fails leads to the phase that takes
/// back what was done, with the failure kept, and the whole fails because of it.
pub proof fn law_an_installation_installs_or_says_why(
    texts: &InstallTexts,
    was_running: bool,
    phase: InstallPhase,
    outcome: Result<(), Fault>,
    step: InstallStep,
)
    requires
        call_ensures(install_step, (texts, was_running, phase, outcome), step),
    ensures
        phase is Prepare && outcome is Ok ==> step == InstallStep::Enter(InstallPhase::Publish),
        phase is Publish && outcome is Ok ==> step == InstallStep::Enter(InstallPhase::Activate),
        phase is Activate && outcome is Ok ==> step == InstallStep::Enter(InstallPhase::Commit),
        phase is Commit && outcome is Ok <==> (step matches InstallStep::Finished(Ok(_))),
        phase is Prepare ==> (outcome matches Err(error) ==> if was_running {
            step matches InstallStep::Enter(InstallPhase::RestorePrepared(cause)) && cause == error
        } else {
            step matches InstallStep::Finished(Err(fault)) && stems_from(fault@, error@)
        }),
        phase is Publish ==> (outcome matches Err(error) ==> if was_running {
            step matches InstallStep::Enter(InstallPhase::RestartUnchanged(cause)) && cause == error
        } else {
            step matches InstallStep::Finished(Err(fault)) && stems_from(fault@, error@)
        }),
        phase is Activate ==> (outcome matches Err(error) ==> (step matches InstallStep::Enter(
            InstallPhase::RollBack(cause),
        ) && cause == error)),
        phase is Commit ==> (outcome matches Err(error) ==> (step matches InstallStep::Finished(
            Err(fault),
        ) && stems_from(fault@, error@))),
        phase matches InstallPhase::RestorePrepared(cause) ==> (step matches InstallStep::Finished(
            Err(fault),
        ) && stems_from(fault@, cause@)),
        phase matches InstallPhase::RestartUnchanged(cause) ==> (step matches InstallStep::Finished(
            Err(fault),
        ) && stems_from(fault@, cause@)),
        phase matches InstallPhase::RollBack(cause) ==> (step matches InstallStep::Finished(
            Err(fault),
        ) && stems_from(fault@, cause@)),
{
}

/// An uninstallation that succeeded is done; one that failed is taken back, and one
/// whose cleanup is in doubt fails with that doubt.
pub proof fn law_an_uninstallation_ends_as_it_went(
    texts: &UninstallTexts,
    outcome: Result<(), Fault>,
    unconfirmed: Option<Fault>,
    step: UninstallStep,
)
    requires
        call_ensures(uninstall_step, (texts, outcome, unconfirmed), step),
    ensures
        step matches UninstallStep::Finished(Ok(_)) <==> outcome is Ok && unconfirmed is None,
        outcome matches Err(error) ==> step == UninstallStep::RollBack(error),
        outcome is Ok ==> (unconfirmed matches Some(error) ==> (step matches
            UninstallStep::Finished(Err(fault)) && stems_from(fault@, error@))),
{
}

/// What an uninstallation failed with is always reported, whether or not it could be
/// taken back, and the report tells which.
pub proof fn law_a_failed_uninstallation_keeps_its_cause(
    texts: &UninstallTexts,
    error: Fault,
    a: Fault,
    b: Fault,
    back: Fault,
)
    requires
        call_ensures(uninstall_error, (texts, error, Ok::<(), Fault>(())), a),
        call_ensures(uninstall_error, (texts, error, Err::<(), Fault>(back)), b),
    ensures
        stems_from(a@, error@) && stems_from(b@, error@),
        a@[0] == texts.restored@,
        b@[0].len() >= texts.incomplete@.len() && b@[0].take(texts.incomplete@.len() as int)
            =~= texts.incomplete@,
{
}

/// A copy is done once it is durable, with the token that was created; where that
/// cannot be achieved it is removed again and the failure says so.
pub proof fn law_a_copy_is_done_once_it_lasts(
    destination: &str,
    purpose: &str,
    stage: DurableCopyStage,
    reply: DurableCopyReply,
    step: DurableCopyStep,
)
    requires
        call_ensures(
            create_service_file_copy_durable,
            (destination, purpose, stage, reply),
            step,
        ),
    ensures
        stage is Create ==> (reply matches DurableCopyReply::Created(
            Ok(CreateExactOutcome::Created(token)),
        ) ==> step == DurableCopyStep::Finished(Ok(token))),
        stage is Create ==> (reply matches DurableCopyReply::Created(
            Ok(CreateExactOutcome::CreatedNamespaceDurabilityUnconfirmed(token)),
        ) ==> step == DurableCopyStep::Await(DurableCopyStage::Sync(token))),
        stage is Create ==> (reply matches DurableCopyReply::Created(Err(error)) ==> (step matches
            DurableCopyStep::Finished(Err(fault)) && stems_from(fault@, error@))),
        stage matches DurableCopyStage::Sync(token) ==> {
            &&& (reply matches DurableCopyReply::Synced(Ok(_))) ==> step
                == DurableCopyStep::Finished(Ok(token))
            &&& reply matches DurableCopyReply::Synced(Err(error)) ==> step
                == DurableCopyStep::Await(DurableCopyStage::CleanUp { sync_error: error })
        },
        stage is CleanUp ==> (step matches DurableCopyStep::Finished(Err(_))),
{
}

/// Recovery data is never overwritten: only a free name is taken.
pub proof fn law_only_a_free_name_is_taken(
    path: &str,
    purpose: &str,
    sight: NameSight,
    r: Result<(), Fault>,
)
    requires
        call_ensures(require_service_transaction_path_absent, (path, purpose, sight), r),
    ensures
        r is Ok <==> sight is Free,
        sight matches NameSight::Unknown(error) ==> (r matches Err(fault) && stems_from(
            fault@,
            error@,
        )),
{
}

// -- Admission --

/// An installation for an owner whose service can be restored is admitted with what
/// was seen of it: the definition is judged, the new one staged and validated, and the
/// service asked how it runs. A definition that is missing is no obstacle unless one
/// was to be migrated.
pub proof fn law_an_installation_is_admitted(
    context: &AdmissionContext,
    stage: AdmissionStage,
    reply: AdmissionReply,
    step: AdmissionStep,
)
    requires
        call_ensures(admit_installation, (context, stage, reply), step),
    ensures
        stage == AdmissionStage::Definition && reply == AdmissionReply::Definition(Ok(None)) ==> if context.migration {
            step matches AdmissionStep::Finished(Err(_))
        } else {
            step == (AdmissionStep::Await {
                stage: AdmissionStage::Stage { defined: false },
                warning: None,
            })
        },
        stage == AdmissionStage::Definition ==> (reply matches AdmissionReply::Definition(
            Ok(Some(contents)),
        ) ==> match context.manager {
            UserServiceManager::Launchd => step == (AdmissionStep::Await {
                stage: AdmissionStage::Convert,
                warning: None,
            }),
            UserServiceManager::Systemd => if systemd_owner_problem(contents@, context.owner)
                is None {
                step matches AdmissionStep::Await { stage: next, warning } && next == (
                AdmissionStage::Stage { defined: true }) && warning is Some
            } else {
                step matches AdmissionStep::Finished(Err(_))
            },
        }),
        stage == AdmissionStage::Convert ==> (reply matches AdmissionReply::Document(Ok(document))
            ==> if launchd_document_problem(document@, context.owner) is None {
            step matches AdmissionStep::Await { stage: next, warning } && next == (
            AdmissionStage::Stage { defined: true }) && warning is Some
        } else {
            step matches AdmissionStep::Finished(Err(_))
        }),
        stage matches AdmissionStage::Stage { defined } ==> ((reply matches AdmissionReply::Done(
            Ok(_),
        )) ==> (step matches AdmissionStep::Await { stage: next, warning: _ } && next == (
        AdmissionStage::Validate { defined }))),
        stage matches AdmissionStage::Validate { defined } ==> (reply matches
            AdmissionReply::Validated(Ok(validation)) ==> if validation.valid {
            step matches AdmissionStep::Await { stage: next, warning: _ } && next == (
            AdmissionStage::AskRunning { defined })
        } else {
            step matches AdmissionStep::Finished(Err(_))
        }),
        stage matches AdmissionStage::AskRunning { defined } ==> (reply matches
            AdmissionReply::Answer(Ok(running)) ==> match context.manager {
            UserServiceManager::Systemd => step matches AdmissionStep::Await {
                stage: next,
                warning: _,
            } && next == (AdmissionStage::AskEnabled { defined, running }),
            UserServiceManager::Launchd => if defined || !running {
                step matches AdmissionStep::Await { stage: next, warning: _ } && next == (
                AdmissionStage::RequireUnchanged {
                    admission: Admission { defined, running, enabled: false },
                })
            } else {
                step matches AdmissionStep::Finished(Err(_))
            },
        }),
        stage matches AdmissionStage::AskEnabled { defined, running } ==> (reply matches
            AdmissionReply::Answer(Ok(enabled)) ==> if defined || (!running && !enabled) {
            step matches AdmissionStep::Await { stage: next, warning: _ } && next == (
            AdmissionStage::RequireUnchanged { admission: Admission { defined, running, enabled } })
        } else {
            step matches AdmissionStep::Finished(Err(_))
        }),
        stage matches AdmissionStage::RequireUnchanged { admission } ==> ((reply matches
            AdmissionReply::Done(Ok(_))) ==> step == AdmissionStep::Finished(Ok(admission))),
        step matches AdmissionStep::Finished(Ok(_)) ==> stage is RequireUnchanged,
        stage is Stage || stage is RequireUnchanged ==> (reply matches AdmissionReply::Done(
            Err(error),
        ) ==> (step matches AdmissionStep::Finished(Err(fault)) && stems_from(fault@, error@))),
        stage is AskRunning || stage is AskEnabled ==> (reply matches AdmissionReply::Answer(
            Err(error),
        ) ==> (step matches AdmissionStep::Finished(Err(fault)) && stems_from(fault@, error@))),
{
}

// -- Whether it is installed --

/// A service is installed exactly where its definition is there, and for a scheduled
/// task where the scheduler reports it as well; where both are missing it is not.
pub proof fn law_installed_means_defined(
    platform: Platform,
    path: &str,
    stage: InstalledStage,
    reply: InstalledReply,
    step: InstalledStep,
)
    requires
        call_ensures(is_installed_checked, (platform, path, stage, reply), step),
    ensures
        stage == InstalledStage::LookFile && reply == InstalledReply::Sight(DefinitionSight::File)
            ==> step == InstalledStep::Finished(Ok(true)),
        stage == InstalledStage::LookFile && reply == InstalledReply::Sight(
            DefinitionSight::Missing,
        ) ==> step == InstalledStep::Await(InstalledStage::RequireNoService),
        stage == InstalledStage::LookFile && reply == InstalledReply::Sight(
            DefinitionSight::OtherKind,
        ) ==> (step matches InstalledStep::Finished(Err(_))),
        stage == InstalledStage::RequireNoService && (reply matches InstalledReply::Done(Ok(_)))
            ==> step == InstalledStep::Finished(Ok(false)),
        stage == InstalledStage::RequireNoService ==> (reply matches InstalledReply::Done(
            Err(error),
        ) ==> (step matches InstalledStep::Finished(Err(fault)) && stems_from(fault@, error@))),
        stage == InstalledStage::ListTasks ==> (reply matches InstalledReply::Bytes(Ok(listing))
            ==> {
            &&& task_listed(listing@) == Ok::<bool, Seq<char>>(true) ==> step
                == InstalledStep::Await(InstalledStage::ExportTask)
            &&& task_listed(listing@) == Ok::<bool, Seq<char>>(false) ==> step
                == InstalledStep::Await(InstalledStage::LookTaskFile { reported: false })
        }),
        stage == InstalledStage::ExportTask && (reply matches InstalledReply::Bytes(Ok(_))) ==> step
            == InstalledStep::Await(InstalledStage::LookTaskFile { reported: true }),
        stage matches InstalledStage::LookTaskFile { reported } ==> {
            &&& reply == InstalledReply::Sight(DefinitionSight::File) ==> step
                == InstalledStep::Await(InstalledStage::ReadTaskFile { reported })
            &&& reply == InstalledReply::Sight(DefinitionSight::Missing) && !reported ==> step
                == InstalledStep::Finished(Ok(false))
            &&& reply == InstalledReply::Sight(DefinitionSight::Missing) && reported ==> (step
                matches InstalledStep::Finished(Err(_)))
        },
        stage matches InstalledStage::ReadTaskFile { reported } ==> {
            &&& (reply matches InstalledReply::Bytes(Ok(_))) && reported ==> step
                == InstalledStep::Finished(Ok(true))
            &&& (reply matches InstalledReply::Bytes(Ok(_))) && !reported ==> (step matches
                InstalledStep::Finished(Err(_)))
        },
        reply matches InstalledReply::Bytes(Err(error)) ==> (stage == InstalledStage::ListTasks
            || stage == InstalledStage::ExportTask || stage is ReadTaskFile ==> (step matches
            InstalledStep::Finished(Err(fault)) && stems_from(fault@, error@))),
{
}

/// Looking begins with the file of a user service, or with the list of scheduled
/// tasks; where no manager is supported nothing is installed.
pub proof fn law_looking_begins_by_the_system(platform: Platform, step: InstalledStep)
    requires
        call_ensures(begin_is_installed_checked, (platform,), step),
    ensures
        platform == Platform::MacOs || platform == Platform::Linux <==> step
            == InstalledStep::Await(InstalledStage::LookFile),
        platform == Platform::Windows <==> step == InstalledStep::Await(InstalledStage::ListTasks),
        platform == Platform::OtherUnix || platform == Platform::Other <==> step
            == InstalledStep::Finished(Ok(false)),
{
}

// -- Actions --

/// An action on the service is carried out: at once where no owner has to be asked,
/// and else once the owner was confirmed. It ends as the action did.
pub proof fn law_an_action_is_carried_out(
    platform: Platform,
    action: ServiceAction,
    expected: &HostPath,
    existing: Option<&HostPath>,
    stage: ActionStage,
    reply: ActionReply,
    first: ActionStep,
    next: ActionStep,
)
    requires
        call_ensures(begin_service_action, (platform, action, expected, existing), first),
        call_ensures(service_action, (platform, action, expected, stage, reply), next),
        platform == Platform::Linux || platform == Platform::MacOs || platform == Platform::Windows,
    ensures
        executable_problem(*expected) is None && (action == ServiceAction::Start || action
            == ServiceAction::Stop || action == ServiceAction::Uninstall) ==> first
            == ActionStep::Await(ActionStage::LookOwner),
        executable_problem(*expected) is None && action == ServiceAction::Install
            && migration_problem(platform, optional_path(existing)) is None ==> first
            == ActionStep::Await(ActionStage::Act),
        action == ServiceAction::Install && migration_problem(platform, optional_path(existing))
            is Some ==> (first matches ActionStep::Finished(Err(_))),
        platform != Platform::Windows && executable_problem(*expected) is Some ==> (first matches
            ActionStep::Finished(Err(_))),
        stage == ActionStage::LookOwner ==> (reply matches ActionReply::Look(look) ==> match uninstall_owner_problem(
            *expected,
            look,
        ) {
            None => next == ActionStep::Await(ActionStage::Act),
            Some(messages) => next matches ActionStep::Finished(Err(fault)) && fault@ == messages,
        }),
        stage == ActionStage::Act && (reply matches ActionReply::Done(Ok(_))) <==> (next matches
            ActionStep::Finished(Ok(_))),
        stage == ActionStage::Act ==> (reply matches ActionReply::Done(Err(error)) ==> (next matches
            ActionStep::Finished(Err(fault)) && stems_from(fault@, error@))),
        !(first matches ActionStep::Finished(Ok(_))),
{
}

// -- The exact state --

/// A captured state says what the definition and the manager said, in the manager's
/// own terms: loaded and its process for a LaunchAgent, active, enabled and its main
/// process for a unit, and its process for a scheduled task.
pub proof fn law_a_captured_state_is_what_was_said(
    platform: Platform,
    expected: &HostPath,
    stage: CaptureStage,
    reply: CaptureReply,
    step: CaptureStep,
)
    requires
        call_ensures(capture_service_state_snapshot, (platform, expected, stage, reply), step),
    ensures
        stage is ReadDefinition ==> (reply matches CaptureReply::Definition(Ok(None)) ==> {
            &&& platform == Platform::Linux ==> step == CaptureStep::Await(
                CaptureStage::AskActive { definition: None },
            )
            &&& platform == Platform::MacOs ==> step == CaptureStep::Await(
                CaptureStage::LookRuntime { definition: None },
            )
            &&& platform == Platform::Windows ==> (step matches CaptureStep::Finished(Ok(state))
                && state.definition is None && state.manager_pid is None && !state.loaded
                && !state.active && !state.enabled)
        }),
        stage is ReadDefinition ==> (reply matches CaptureReply::Definition(Ok(Some(found))) ==> {
            &&& platform == Platform::MacOs ==> step == CaptureStep::Await(
                CaptureStage::Convert { definition: found },
            )
            &&& platform == Platform::Linux && systemd_owner_problem(found.contents@, *expected)
                is None ==> step == CaptureStep::Await(
                CaptureStage::AskActive { definition: Some(found) },
            )
            &&& platform == Platform::Linux && systemd_owner_problem(found.contents@, *expected)
                is Some ==> (step matches CaptureStep::Finished(Err(_)))
            &&& platform == Platform::Windows && task_owner_problem(found.contents@, *expected)
                is None && (found.scheduler_xml matches Some(xml) ==> task_owner_problem(
                xml@,
                *expected,
            ) is None) ==> step == CaptureStep::Await(
                CaptureStage::LookTaskManager { definition: found },
            )
            &&& platform == Platform::Windows && task_owner_problem(found.contents@, *expected)
                is Some ==> (step matches CaptureStep::Finished(Err(_)))
        }),
        stage matches CaptureStage::Convert { definition } ==> (reply matches
            CaptureReply::Document(Ok(document)) ==> (launchd_document_problem(document@, *expected)
            is None <==> step == CaptureStep::Await(
            CaptureStage::LookRuntime { definition: Some(definition) },
        ))),
        stage matches CaptureStage::LookRuntime { definition } ==> (reply matches
            CaptureReply::Runtime(Ok(runtime)) ==> if definition is Some || !runtime.loaded {
            step matches CaptureStep::Finished(Ok(state)) && state.definition == definition
                && state.loaded == runtime.loaded && state.manager_pid == runtime.manager_pid
                && !state.active && !state.enabled
        } else {
            step matches CaptureStep::Finished(Err(_))
        }),
        stage matches CaptureStage::AskActive { definition } ==> (reply matches
            CaptureReply::Answer(Ok(active)) ==> step == CaptureStep::Await(
            CaptureStage::AskEnabled { definition, active },
        )),
        stage matches CaptureStage::AskEnabled { definition, active } ==> (reply matches
            CaptureReply::Answer(Ok(enabled)) ==> if definition is Some || (!active && !enabled) {
            step == CaptureStep::Await(CaptureStage::AskMainPid { definition, active, enabled })
        } else {
            step matches CaptureStep::Finished(Err(_))
        }),
        stage matches CaptureStage::AskMainPid { definition, active, enabled } ==> (reply matches
            CaptureReply::Pid(Ok(pid)) ==> if active == (pid is Some) {
            step matches CaptureStep::Finished(Ok(state)) && state.definition == definition
                && state.active == active && state.enabled == enabled && state.manager_pid == pid
                && !state.loaded
        } else {
            step matches CaptureStep::Finished(Err(_))
        }),
        stage matches CaptureStage::LookTaskManager { definition } ==> (reply matches
            CaptureReply::Pid(Ok(pid)) ==> (step matches CaptureStep::Finished(Ok(state))
            && state.definition == Some(definition) && state.manager_pid == pid)),
        reply matches CaptureReply::Definition(Err(error)) ==> (step matches CaptureStep::Finished(
            Err(fault),
        ) && stems_from(fault@, error@)),
        reply matches CaptureReply::Pid(Err(error)) ==> (step matches CaptureStep::Finished(
            Err(fault),
        ) && stems_from(fault@, error@)),
        reply matches CaptureReply::Answer(Err(error)) ==> (step matches CaptureStep::Finished(
            Err(fault),
        ) && stems_from(fault@, error@)),
{
}

/// A capture begins wherever a service manager is supported.
pub proof fn law_a_capture_begins(platform: Platform, expected: &HostPath, step: CaptureStep)
    requires
        call_ensures(begin_capture, (platform, expected), step),
    ensures
        executable_problem(*expected) is None && (platform == Platform::Linux || platform
            == Platform::MacOs || platform == Platform::Windows) <==> step == CaptureStep::Await(
            CaptureStage::ReadDefinition,
        ),
        !(step matches CaptureStep::Finished(Ok(_))),
{
}

// -- Reading a definition --

/// A definition that is there and stays the same is read, with exactly the bytes that
/// its token stands for, and for a scheduled task with what the scheduler exports.
pub proof fn law_a_definition_that_stays_is_read(
    kind: DefinitionKind,
    path: &str,
    stage: ReadStage,
    reply: ReadReply,
    step: ReadStep,
)
    requires
        call_ensures(definition_snapshot, (kind, path, stage, reply), step),
    ensures
        stage is List ==> (reply matches ReadReply::Bytes(Ok(listing)) ==> {
            &&& task_listed(listing@) == Ok::<bool, Seq<char>>(true) ==> step == ReadStep::Await(
                ReadStage::Export,
            )
            &&& task_listed(listing@) == Ok::<bool, Seq<char>>(false) ==> step == ReadStep::Await(
                ReadStage::LookPath { xml: None },
            )
        }),
        stage is Export ==> (reply matches ReadReply::Bytes(Ok(xml)) ==> step == ReadStep::Await(
            ReadStage::LookPath { xml: Some(xml) },
        )),
        stage matches ReadStage::LookPath { xml } ==> (reply matches ReadReply::Sight(Ok(sight))
            ==> {
            &&& sight is None && xml is None ==> step == ReadStep::Finished(Ok(None))
            &&& sight matches Some(token) ==> (kind == DefinitionKind::ServiceFile || xml is Some
                ==> step == ReadStep::Await(ReadStage::Open { token, xml }))
            &&& kind == DefinitionKind::ScheduledTask && (sight is Some) != (xml is Some) ==> (step
                matches ReadStep::Finished(Err(_)))
        }),
        stage matches ReadStage::Open { token, xml } ==> ((reply matches ReadReply::Done(Ok(_)))
            ==> step == ReadStep::Await(ReadStage::BindOpened { token, xml })),
        stage matches ReadStage::BindOpened { token, xml } ==> (reply matches ReadReply::Token(
            Ok(opened),
        ) ==> if opened@ == token@ {
            step == ReadStep::Await(ReadStage::ReadContents { token, xml })
        } else {
            step matches ReadStep::Finished(Err(_))
        }),
        stage matches ReadStage::ReadContents { token, xml } ==> (reply matches ReadReply::Bytes(
            Ok(contents),
        ) ==> step == ReadStep::Await(ReadStage::BindAfter { token, xml, contents })),
        stage matches ReadStage::BindAfter { token, xml, contents } ==> (reply matches
            ReadReply::Token(Ok(after)) ==> step == ReadStep::Await(
            ReadStage::RebindPath { token, xml, contents, after },
        )),
        stage matches ReadStage::RebindPath { token, xml, contents, after } ==> (reply matches
            ReadReply::Token(Ok(live)) ==> if after@ == token@ && live@ == token@ && token@.digest
            == sha256(contents@) {
            let found = ServiceDefinition { contents, token, scheduler_xml: xml };
            if kind == DefinitionKind::ServiceFile {
                step == ReadStep::Finished(Ok(Some(found)))
            } else {
                step == ReadStep::Await(ReadStage::ListAgain { found })
            }
        } else {
            step matches ReadStep::Finished(Err(_))
        }),
        stage matches ReadStage::ListAgain { found } ==> (reply matches ReadReply::Bytes(
            Ok(listing),
        ) ==> if task_listed(listing@) == Ok::<bool, Seq<char>>(true) {
            step == ReadStep::Await(ReadStage::ExportAgain { found })
        } else {
            step matches ReadStep::Finished(Err(_))
        }),
        stage matches ReadStage::ExportAgain { found } ==> (reply matches ReadReply::Bytes(Ok(xml))
            ==> if found.scheduler_xml matches Some(before) && before@ == xml@ {
            step == ReadStep::Finished(Ok(Some(found)))
        } else {
            step matches ReadStep::Finished(Err(_))
        }),
        reply matches ReadReply::Bytes(Err(error)) ==> (step matches ReadStep::Finished(Err(fault))
            && stems_from(fault@, error@)),
        reply matches ReadReply::Token(Err(error)) ==> (step matches ReadStep::Finished(Err(fault))
            && stems_from(fault@, error@)),
{
}

/// Reading begins with the file of a user service, and with the scheduler's list for
/// a scheduled task.
pub proof fn law_reading_begins_by_the_kind(kind: DefinitionKind, stage: ReadStage)
    requires
        call_ensures(begin_definition_snapshot, (kind,), stage),
    ensures
        kind == DefinitionKind::ServiceFile <==> stage == (ReadStage::LookPath { xml: None }),
        kind == DefinitionKind::ScheduledTask <==> stage == ReadStage::List,
{
}

// -- Executions --

/// Starting, stopping and removing the service come to their procedure: a definition
/// that is owned is acted on as it was captured, and one that is missing as missing. A
/// removal first asks how the service runs, to be able to take itself back.
pub proof fn law_an_execution_comes_to_its_procedure(
    context: &ExecutionContext,
    stage: ExecutionStage,
    reply: ExecutionReply,
    step: ExecutionStep,
)
    requires
        call_ensures(execute_service, (context, stage, reply), step),
    ensures
        stage is Capture ==> (reply matches ExecutionReply::Definition(Ok(None)) ==> step
            == ExecutionStep::Await(ExecutionStage::Perform { judged: Judged::Missing })),
        stage is Capture && context.platform == Platform::Linux ==> (reply matches
            ExecutionReply::Definition(Ok(Some(found))) ==> if systemd_owner_problem(
            found.contents@,
            context.expected,
        ) is Some {
            step matches ExecutionStep::Finished(Err(_))
        } else if context.execution == Execution::Uninstall {
            step == ExecutionStep::Await(ExecutionStage::AskRunning { definition: found })
        } else {
            step matches ExecutionStep::Await(ExecutionStage::Perform { judged }) && (judged matches
                Judged::File { definition, .. } && definition == found)
        }),
        stage is Capture && context.platform == Platform::MacOs ==> (reply matches
            ExecutionReply::Definition(Ok(Some(found))) ==> step == ExecutionStep::Await(
            ExecutionStage::Convert { definition: found },
        )),
        stage matches ExecutionStage::Convert { definition: found } ==> (reply matches
            ExecutionReply::Bytes(Ok(document)) ==> if launchd_document_problem(
            document@,
            context.expected,
        ) is Some {
            step matches ExecutionStep::Finished(Err(_))
        } else if context.execution == Execution::Uninstall {
            step == ExecutionStep::Await(ExecutionStage::AskRunning { definition: found })
        } else {
            step matches ExecutionStep::Await(ExecutionStage::Perform { judged }) && (judged matches
                Judged::File { definition, .. } && definition == found)
        }),
        stage matches ExecutionStage::AskRunning { definition: found } ==> (reply matches
            ExecutionReply::Answer(Ok(runs)) ==> if context.platform == Platform::MacOs {
            step matches ExecutionStep::Await(ExecutionStage::Perform { judged }) && (judged matches
                Judged::File { definition, running, .. } && definition == found && running == runs)
        } else {
            step == ExecutionStep::Await(
                ExecutionStage::AskEnabled { definition: found, running: runs },
            )
        }),
        stage matches ExecutionStage::AskEnabled { definition: found, running: runs } ==> (reply
            matches ExecutionReply::Answer(Ok(on)) ==> (step matches ExecutionStep::Await(
            ExecutionStage::Perform { judged },
        ) && (judged matches Judged::File { definition, running, enabled } && definition == found
            && running == runs && enabled == on))),
        stage is ReadTaskFile ==> (reply matches ExecutionReply::Bytes(Ok(contents)) ==> step
            == ExecutionStep::Await(ExecutionStage::ListTasks { contents })),
        stage is CaptureTask ==> (reply matches ExecutionReply::Task(Ok(None)) ==> step
            == ExecutionStep::Await(ExecutionStage::Perform { judged: Judged::Missing })),
        stage is CaptureTask ==> (reply matches ExecutionReply::Task(Ok(Some(contents)))
            ==> if task_owner_problem(contents@, context.expected) is None {
            step == ExecutionStep::Await(ExecutionStage::ListTasks { contents })
        } else {
            step matches ExecutionStep::Finished(Err(_))
        }),
        stage matches ExecutionStage::ListTasks { contents } ==> (reply matches
            ExecutionReply::Bytes(Ok(listing)) ==> if task_listed(listing@) == Ok::<
            bool,
            Seq<char>,
        >(true) {
            step == ExecutionStep::Await(ExecutionStage::ExportTask { contents })
        } else {
            step matches ExecutionStep::Finished(Err(_))
        }),
        stage matches ExecutionStage::ExportTask { contents } ==> (reply matches
            ExecutionReply::Bytes(Ok(xml)) ==> {
            &&& context.execution == Execution::Uninstall && task_owner_problem(
                xml@,
                context.expected,
            ) is None ==> step == ExecutionStep::Await(ExecutionStage::KeepXml { contents, xml })
            &&& context.execution != Execution::Uninstall && task_forms_problem(
                contents@,
                xml@,
                context.expected,
            ) is None ==> step == ExecutionStep::Await(
                ExecutionStage::Perform { judged: Judged::Task { contents, xml } },
            )
        }),
        stage matches ExecutionStage::KeepXml { contents, xml } ==> ((reply matches
            ExecutionReply::Done(Ok(_))) ==> step == ExecutionStep::Await(
            ExecutionStage::Perform { judged: Judged::Task { contents, xml } },
        )),
        stage is Perform ==> (reply matches ExecutionReply::Ran { outcome: Ok(_), unconfirmed, .. }
            ==> {
            &&& context.platform == Platform::Windows && context.execution == Execution::Start
                ==> step == ExecutionStep::Await(ExecutionStage::AwaitDaemon)
            &&& !(context.platform == Platform::Windows && context.execution == Execution::Start)
                && unconfirmed is None ==> (step matches ExecutionStep::Finished(Ok(_)))
        }),
        stage is AwaitDaemon && (reply matches ExecutionReply::Done(Ok(_))) ==> (step matches
            ExecutionStep::Finished(Ok(_))),
        stage is AwaitDaemon ==> (reply matches ExecutionReply::Done(Err(cause)) ==> (step matches
            ExecutionStep::Await(ExecutionStage::StopFailed { error }) && error == cause)),
        step matches ExecutionStep::Finished(Ok(_)) ==> stage is Perform || stage is AwaitDaemon,
{
}

/// What fails in an execution is reported, as the cause of whatever follows from it.
pub proof fn law_a_failed_execution_says_why(
    context: &ExecutionContext,
    stage: ExecutionStage,
    reply: ExecutionReply,
    step: ExecutionStep,
)
    requires
        call_ensures(execute_service, (context, stage, reply), step),
    ensures
        stage is Capture ==> (reply matches ExecutionReply::Definition(Err(error)) ==> (step matches
            ExecutionStep::Finished(Err(fault)) && stems_from(fault@, error@))),
        stage is AskRunning || stage is AskEnabled ==> (reply matches ExecutionReply::Answer(
            Err(error),
        ) ==> (step matches ExecutionStep::Finished(Err(fault)) && stems_from(fault@, error@))),
        stage is Convert || stage is ReadTaskFile || stage is ListTasks || stage is ExportTask ==> (
        reply matches ExecutionReply::Bytes(Err(error)) ==> (step matches ExecutionStep::Finished(
            Err(fault),
        ) && stems_from(fault@, error@))),
        stage matches ExecutionStage::Perform { judged } ==> (reply matches ExecutionReply::Ran {
            outcome: Err(cause),
            at,
            unconfirmed,
        } ==> {
            &&& context.execution != Execution::Uninstall || judged is Missing ==> (step matches
                ExecutionStep::Finished(Err(fault)) && stems_from(fault@, cause@))
            &&& context.execution == Execution::Uninstall && judged is File ==> (step matches
                ExecutionStep::Await(ExecutionStage::RollBack { judged: j, error, .. }) && j
                == judged && error == cause)
            &&& context.execution == Execution::Uninstall && judged is Task ==> (step matches
                ExecutionStep::Await(ExecutionStage::LookTaskFile { judged: j, error }) && j
                == judged && error == cause)
        }),
        stage matches ExecutionStage::StopFailed { error } ==> (reply is Done ==> (step matches
            ExecutionStep::Finished(Err(fault)) && stems_from(fault@, error@))),
        stage matches ExecutionStage::LookTaskFile { judged: before, error: cause } ==> (reply matches
            ExecutionReply::Sight(sight) ==> {
            &&& sight is File ==> (step matches ExecutionStep::Await(
                ExecutionStage::RollBack { judged, error, away },
            ) && judged == before && error == cause && !away)
            &&& sight is Missing ==> (step matches ExecutionStep::Await(
                ExecutionStage::RollBack { judged, error, away },
            ) && judged == before && error == cause && away)
            &&& step matches ExecutionStep::Finished(r) ==> (r matches Err(fault) && stems_from(
                fault@,
                cause@,
            ))
        }),
        stage matches ExecutionStage::RollBack { judged, error, away } ==> (reply is Done ==> (step
            matches ExecutionStep::Finished(Err(fault)) && stems_from(fault@, error@))),
{
}

/// An execution begins with reading what it acts on.
pub proof fn law_an_execution_begins(context: &ExecutionContext, step: ExecutionStep)
    requires
        call_ensures(begin_execution, (context,), step),
    ensures
        context.platform == Platform::Linux || context.platform == Platform::MacOs <==> step
            == ExecutionStep::Await(ExecutionStage::Capture),
        context.platform == Platform::Windows && context.execution == Execution::Uninstall <==> step
            == ExecutionStep::Await(ExecutionStage::CaptureTask),
        context.platform == Platform::Windows && (context.execution == Execution::Start
            || context.execution == Execution::Stop) <==> step == ExecutionStep::Await(
            ExecutionStage::ReadTaskFile,
        ),
        !(step matches ExecutionStep::Finished(Ok(_))),
{
}

// -- Stopping a scheduled daemon --

/// A scheduled daemon that runs is asked to end and awaited, then its task is ended
/// and its identity removed; one that does not run only needs the latter two. The stop
/// succeeds exactly if all of it did.
pub proof fn law_a_scheduled_daemon_is_asked_and_awaited(
    stage: RollbackStopStage,
    reply: RollbackStopReply,
    step: RollbackStopStep,
)
    requires
        call_ensures(stop_scheduled_daemon_for_rollback, (stage, reply), step),
    ensures
        stage is LookGeneration ==> {
            &&& reply matches RollbackStopReply::Generation(Ok(Some(found))) ==> step
                == RollbackStopStep::Await(RollbackStopStage::Request { target: found })
            &&& reply == RollbackStopReply::Generation(Ok(None)) ==> step
                == RollbackStopStep::Await(RollbackStopStage::EndTask { asked: None })
            &&& reply matches RollbackStopReply::Generation(Err(error)) ==> (step matches
                RollbackStopStep::Finished(Err(fault)) && stems_from(fault@, error@))
        },
        stage matches RollbackStopStage::Request { target } ==> {
            &&& (reply matches RollbackStopReply::Done(Ok(_))) ==> (step matches
                RollbackStopStep::Await(RollbackStopStage::Observe { pid, .. }) && pid
                == target.pid)
            &&& reply matches RollbackStopReply::Done(Err(error)) ==> (step matches
                RollbackStopStep::Finished(Err(fault)) && stems_from(fault@, error@))
        },
        stage matches RollbackStopStage::Observe { pid, diagnostics } ==> {
            &&& reply == RollbackStopReply::Running(Ok(true)) ==> step == RollbackStopStep::Await(
                RollbackStopStage::Observe { pid, diagnostics },
            )
            &&& reply == RollbackStopReply::Running(Ok(false)) ==> step == RollbackStopStep::Await(
                RollbackStopStage::EndTask { asked: Some(diagnostics) },
            )
        },
        stage matches RollbackStopStage::EndTask { asked } ==> ((reply matches
            RollbackStopReply::Done(Ok(_))) ==> step == RollbackStopStep::Await(
            RollbackStopStage::CleanUp { asked },
        )),
        stage == (RollbackStopStage::EndTask { asked: None }) ==> (reply matches
            RollbackStopReply::Done(Err(error)) ==> (step matches RollbackStopStep::Finished(
            Err(fault),
        ) && stems_from(fault@, error@))),
        stage == (RollbackStopStage::CleanUp { asked: None }) ==> ((reply matches
            RollbackStopReply::Done(Ok(_))) <==> (step matches RollbackStopStep::Finished(Ok(_)))),
        stage matches RollbackStopStage::CleanUp { asked: Some(diagnostics) } ==> (reply matches
            RollbackStopReply::Done(outcome) ==> step == RollbackStopStep::Await(
            RollbackStopStage::RequireDurable { diagnostics, finalization: outcome },
        )),
        stage matches RollbackStopStage::RequireDurable { diagnostics, finalization } ==> (step
            matches RollbackStopStep::Finished(Ok(_)) ==> finalization is Ok && (reply matches
            RollbackStopReply::Done(Ok(_)))),
        stage matches RollbackStopStage::RequireDurable { diagnostics, finalization } ==> (
        finalization is Ok && diagnostics.count == 0 && (reply matches RollbackStopReply::Done(
            Ok(_),
        )) ==> (step matches RollbackStopStep::Finished(Ok(_)))),
{
}

} // verus!
