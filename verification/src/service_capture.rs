//! What comes before an action on the service, and how the service's exact state
//! is captured: nothing is asked of the manager before the definition was seen to
//! be owned.
use vstd::prelude::*;

use crate::fault::Fault;
use crate::host_path::{HostPath, Platform};
use crate::removal::{misfit, misfit_fault};
use crate::service_owner::{
    executable_problem, launchd_document_problem, migration_problem, optional_path,
    require_service_support, systemd_owner_problem, task_owner_problem, uninstall_owner_problem,
    unsupported_action, validate_expected_executable, validate_install_migration_authority,
    validate_launchd_definition_owner, validate_systemd_definition_owner,
    validate_task_scheduler_definition_owner, validate_uninstall_owner, OwnerLook, ServiceAction,
};
use crate::service_state::{
    inconsistent_runtime, require_manager_runtime_consistency, LaunchdRuntimeSnapshot,
    ServiceDefinition, ServiceStateSnapshot,
};

verus! {

// -- Actions --

/// The operation that an action on the service waits for.
#[derive(Clone, Copy, Debug, PartialEq, Eq, Structural)]
pub enum ActionStage {
    /// Looking at the installed definition.
    LookOwner,
    /// Doing what was asked for.
    Act,
}

/// What the operation gave.
#[derive(Debug, PartialEq, Eq)]
pub enum ActionReply {
    Look(OwnerLook),
    Done(Result<(), Fault>),
}

/// What an action on the service does next.
#[derive(Debug, PartialEq, Eq)]
pub enum ActionStep {
    Await(ActionStage),
    Finished(Result<(), Fault>),
}

/// Whether an action ends with a failure.
pub open spec fn action_fails(step: ActionStep, messages: Seq<Seq<char>>) -> bool {
    step matches ActionStep::Finished(Err(fault)) && fault@ == messages
}

/// Whether an action is done next: only where the system has a service manager.
pub open spec fn acts_if_supported(platform: Platform, action: ServiceAction, step: ActionStep) -> bool {
    match unsupported_action(platform, action) {
        Some(message) => action_fails(step, seq![message]),
        None => step == ActionStep::Await(ActionStage::Act),
    }
}

/// Whether an action looks at the owner of the installed definition first. An
/// installation judges the definition that it replaces itself.
pub open spec fn looks_at_owner(action: ServiceAction) -> bool {
    action == ServiceAction::Start || action == ServiceAction::Stop || action
        == ServiceAction::Uninstall
}

/// What an action begins with: the executable must be named exactly; an
/// installation may only replace what it may migrate.
pub open spec fn action_begins(
    platform: Platform,
    action: ServiceAction,
    expected: HostPath,
    existing: Option<HostPath>,
    step: ActionStep,
) -> bool {
    if !(action == ServiceAction::Install && platform == Platform::Windows) && executable_problem(
        expected,
    ) is Some {
        action_fails(step, seq![executable_problem(expected)->0])
    } else if looks_at_owner(action) {
        step == ActionStep::Await(ActionStage::LookOwner)
    } else if action == ServiceAction::Install && migration_problem(platform, existing) is Some {
        action_fails(step, seq![migration_problem(platform, existing)->0])
    } else {
        acts_if_supported(platform, action, step)
    }
}

/// What an action does next: it is done only where the executable owns the
/// definition.
pub open spec fn action_next(
    platform: Platform,
    action: ServiceAction,
    expected: HostPath,
    stage: ActionStage,
    reply: ActionReply,
    step: ActionStep,
) -> bool {
    match (stage, reply) {
        (ActionStage::LookOwner, ActionReply::Look(look)) => match uninstall_owner_problem(
            expected,
            look,
        ) {
            Some(messages) => action_fails(step, messages),
            None => acts_if_supported(platform, action, step),
        },
        (ActionStage::Act, ActionReply::Done(done)) => match done {
            Ok(_) => step matches ActionStep::Finished(Ok(_)),
            Err(error) => action_fails(step, error@),
        },
        _ => action_fails(step, misfit()),
    }
}

fn refuse(fault: Fault) -> (r: ActionStep)
    ensures
        action_fails(r, fault@),
{
    ActionStep::Finished(Err(fault))
}

fn act_if_supported(platform: Platform, action: ServiceAction) -> (r: ActionStep)
    ensures
        acts_if_supported(platform, action, r),
{
    match require_service_support(platform, action) {
        Ok(()) => ActionStep::Await(ActionStage::Act),
        Err(fault) => refuse(fault),
    }
}

/// What an action on the service begins with.
pub fn begin_service_action(
    platform: Platform,
    action: ServiceAction,
    expected: &HostPath,
    existing: Option<&HostPath>,
) -> (r: ActionStep)
    ensures
        action_begins(platform, action, *expected, optional_path(existing), r),
{
    if !(action == ServiceAction::Install && platform == Platform::Windows) {
        match validate_expected_executable(expected) {
            Ok(()) => {},
            Err(fault) => {
                return refuse(fault);
            },
        }
    }
    if action == ServiceAction::Start || action == ServiceAction::Stop || action
        == ServiceAction::Uninstall {
        return ActionStep::Await(ActionStage::LookOwner);
    }
    if action == ServiceAction::Install {
        match validate_install_migration_authority(platform, existing) {
            Ok(()) => {},
            Err(fault) => {
                return refuse(fault);
            },
        }
    }
    act_if_supported(platform, action)
}

/// What an action on the service does next. It starts with what
/// `begin_service_action` gives.
pub fn service_action(
    platform: Platform,
    action: ServiceAction,
    expected: &HostPath,
    stage: ActionStage,
    reply: ActionReply,
) -> (r: ActionStep)
    ensures
        action_next(platform, action, *expected, stage, reply, r),
{
    match (stage, reply) {
        (ActionStage::LookOwner, ActionReply::Look(look)) => match validate_uninstall_owner(
            expected,
            look,
        ) {
            Ok(()) => act_if_supported(platform, action),
            Err(fault) => refuse(fault),
        },
        (ActionStage::Act, ActionReply::Done(done)) => match done {
            Ok(()) => ActionStep::Finished(Ok(())),
            Err(fault) => refuse(fault),
        },
        _ => refuse(misfit_fault()),
    }
}

// -- The exact state --

/// The operation that capturing the state waits for.
#[derive(Debug, PartialEq, Eq)]
pub enum CaptureStage {
    ReadDefinition,
    /// Converting a LaunchAgent's definition to JSON.
    Convert { definition: ServiceDefinition },
    /// Asking launchd whether the job is loaded and for its process.
    LookRuntime { definition: Option<ServiceDefinition> },
    AskActive { definition: Option<ServiceDefinition> },
    AskEnabled { definition: Option<ServiceDefinition>, active: bool },
    AskMainPid { definition: Option<ServiceDefinition>, active: bool, enabled: bool },
    /// Looking for the process that the running task owns.
    LookTaskManager { definition: ServiceDefinition },
}

/// What the operation gave.
#[derive(Debug, PartialEq, Eq)]
pub enum CaptureReply {
    Definition(Result<Option<ServiceDefinition>, Fault>),
    Document(Result<Vec<u8>, Fault>),
    Runtime(Result<LaunchdRuntimeSnapshot, Fault>),
    Answer(Result<bool, Fault>),
    Pid(Result<Option<u32>, Fault>),
}

/// What capturing the state does next.
#[derive(Debug, PartialEq, Eq)]
pub enum CaptureStep {
    Await(CaptureStage),
    Finished(Result<ServiceStateSnapshot, Fault>),
}

/// Whether capturing the state ends with a failure.
pub open spec fn capture_fails(step: CaptureStep, messages: Seq<Seq<char>>) -> bool {
    step matches CaptureStep::Finished(Err(fault)) && fault@ == messages
}

/// What keeps a task's definition from being owned: both the file and the
/// exported one must be.
pub open spec fn task_state_problem(definition: ServiceDefinition, expected: HostPath) -> Option<
    Seq<Seq<char>>,
> {
    if task_owner_problem(definition.contents@, expected) is Some {
        task_owner_problem(definition.contents@, expected)
    } else {
        match definition.scheduler_xml {
            Some(xml) => task_owner_problem(xml@, expected),
            None => None,
        }
    }
}

/// What the read definition leads to.
pub open spec fn definition_leads_to(
    platform: Platform,
    expected: HostPath,
    definition: Option<ServiceDefinition>,
    step: CaptureStep,
) -> bool {
    match platform {
        Platform::MacOs => match definition {
            Some(found) => step == CaptureStep::Await(CaptureStage::Convert { definition: found }),
            None => step == CaptureStep::Await(CaptureStage::LookRuntime { definition }),
        },
        Platform::Linux => match definition {
            Some(found) => match systemd_owner_problem(found.contents@, expected) {
                Some(messages) => capture_fails(step, messages),
                None => step == CaptureStep::Await(CaptureStage::AskActive { definition }),
            },
            None => step == CaptureStep::Await(CaptureStage::AskActive { definition }),
        },
        Platform::Windows => match definition {
            Some(found) => match task_state_problem(found, expected) {
                Some(messages) => capture_fails(step, messages),
                None => step == CaptureStep::Await(
                    CaptureStage::LookTaskManager { definition: found },
                ),
            },
            None => step == CaptureStep::Finished(
                Ok(
                    ServiceStateSnapshot {
                        definition,
                        loaded: false,
                        enabled: false,
                        active: false,
                        manager_pid: None,
                    },
                ),
            ),
        },
        Platform::OtherUnix | Platform::Other => capture_fails(step, misfit()),
    }
}

/// What capturing the state begins with.
pub open spec fn capture_begins(platform: Platform, expected: HostPath, step: CaptureStep) -> bool {
    match (executable_problem(expected), unsupported_action(platform, ServiceAction::Snapshot)) {
        (Some(message), _) => capture_fails(step, seq![message]),
        (None, Some(message)) => capture_fails(step, seq![message]),
        (None, None) => step == CaptureStep::Await(CaptureStage::ReadDefinition),
    }
}

/// What capturing the state does next: the owner is checked as soon as the
/// definition was read, and what the manager reports must fit together.
pub open spec fn capture_next(
    platform: Platform,
    expected: HostPath,
    stage: CaptureStage,
    reply: CaptureReply,
    step: CaptureStep,
) -> bool {
    match (stage, reply) {
        (_, CaptureReply::Definition(Err(error))) => capture_fails(step, error@),
        (_, CaptureReply::Document(Err(error))) => capture_fails(step, error@),
        (_, CaptureReply::Runtime(Err(error))) => capture_fails(step, error@),
        (_, CaptureReply::Answer(Err(error))) => capture_fails(step, error@),
        (_, CaptureReply::Pid(Err(error))) => capture_fails(step, error@),
        (CaptureStage::ReadDefinition, CaptureReply::Definition(Ok(definition))) => {
            definition_leads_to(platform, expected, definition, step)
        },
        (CaptureStage::Convert { definition }, CaptureReply::Document(Ok(document))) => {
            match launchd_document_problem(document@, expected) {
                Some(messages) => capture_fails(step, messages),
                None => step == CaptureStep::Await(
                    CaptureStage::LookRuntime { definition: Some(definition) },
                ),
            }
        },
        (CaptureStage::LookRuntime { definition }, CaptureReply::Runtime(Ok(runtime))) => {
            if definition is None && runtime.loaded {
                capture_fails(
                    step,
                    seq![
                        "LaunchAgent is loaded without an exact definition that can bind runtime ownership"@,
                    ],
                )
            } else {
                step == CaptureStep::Finished(
                    Ok(
                        ServiceStateSnapshot {
                            definition,
                            loaded: runtime.loaded,
                            enabled: false,
                            active: false,
                            manager_pid: runtime.manager_pid,
                        },
                    ),
                )
            }
        },
        (CaptureStage::AskActive { definition }, CaptureReply::Answer(Ok(active))) => step
            == CaptureStep::Await(CaptureStage::AskEnabled { definition, active }),
        (CaptureStage::AskEnabled { definition, active }, CaptureReply::Answer(Ok(enabled))) => {
            if definition is None && (active || enabled) {
                capture_fails(
                    step,
                    seq![
                        "systemd user service is active or enabled without an exact definition that can bind runtime ownership"@,
                    ],
                )
            } else {
                step == CaptureStep::Await(
                    CaptureStage::AskMainPid { definition, active, enabled },
                )
            }
        },
        (
            CaptureStage::AskMainPid { definition, active, enabled },
            CaptureReply::Pid(Ok(manager_pid)),
        ) => if active != (manager_pid is Some) {
            capture_fails(
                step,
                seq![
                    inconsistent_runtime("systemd"@, "active"@, active, "MainPID"@, manager_pid),
                ],
            )
        } else {
            step == CaptureStep::Finished(
                Ok(
                    ServiceStateSnapshot { definition, loaded: false, enabled, active, manager_pid },
                ),
            )
        },
        (CaptureStage::LookTaskManager { definition }, CaptureReply::Pid(Ok(manager_pid))) => step
            == CaptureStep::Finished(
            Ok(
                ServiceStateSnapshot {
                    definition: Some(definition),
                    loaded: false,
                    enabled: false,
                    active: false,
                    manager_pid,
                },
            ),
        ),
        _ => capture_fails(step, misfit()),
    }
}

fn capture_fault(fault: Fault) -> (r: CaptureStep)
    ensures
        capture_fails(r, fault@),
{
    CaptureStep::Finished(Err(fault))
}

/// What capturing the state begins with.
pub fn begin_capture(platform: Platform, expected: &HostPath) -> (r: CaptureStep)
    ensures
        capture_begins(platform, *expected, r),
{
    match validate_expected_executable(expected) {
        Ok(()) => {},
        Err(fault) => {
            return capture_fault(fault);
        },
    }
    match require_service_support(platform, ServiceAction::Snapshot) {
        Ok(()) => CaptureStep::Await(CaptureStage::ReadDefinition),
        Err(fault) => capture_fault(fault),
    }
}

fn judge_task(definition: &ServiceDefinition, expected: &HostPath) -> (r: Result<(), Fault>)
    ensures
        match task_state_problem(*definition, *expected) {
            Some(messages) => r matches Err(fault) && fault@ == messages,
            None => r is Ok,
        },
{
    match validate_task_scheduler_definition_owner(definition.contents.as_slice(), expected) {
        Ok(()) => {},
        Err(fault) => {
            return Err(fault);
        },
    }
    match &definition.scheduler_xml {
        Some(xml) => validate_task_scheduler_definition_owner(xml.as_slice(), expected),
        None => Ok(()),
    }
}

fn judge_definition(
    platform: Platform,
    expected: &HostPath,
    definition: Option<ServiceDefinition>,
) -> (r: CaptureStep)
    ensures
        definition_leads_to(platform, *expected, definition, r),
{
    match platform {
        Platform::MacOs => match definition {
            Some(found) => CaptureStep::Await(CaptureStage::Convert { definition: found }),
            None => CaptureStep::Await(CaptureStage::LookRuntime { definition: None }),
        },
        Platform::Linux => {
            if let Some(found) = &definition {
                match validate_systemd_definition_owner(found.contents.as_slice(), expected) {
                    Ok(()) => {},
                    Err(fault) => {
                        return capture_fault(fault);
                    },
                }
            }
            CaptureStep::Await(CaptureStage::AskActive { definition })
        },
        Platform::Windows => match definition {
            Some(found) => match judge_task(&found, expected) {
                Ok(()) => CaptureStep::Await(CaptureStage::LookTaskManager { definition: found }),
                Err(fault) => capture_fault(fault),
            },
            None => CaptureStep::Finished(
                Ok(
                    ServiceStateSnapshot {
                        definition: None,
                        loaded: false,
                        enabled: false,
                        active: false,
                        manager_pid: None,
                    },
                ),
            ),
        },
        Platform::OtherUnix => capture_fault(misfit_fault()),
        Platform::Other => capture_fault(misfit_fault()),
    }
}

/// What capturing the state does next. It starts with what `begin_capture`
/// gives.
pub fn capture_service_state_snapshot(
    platform: Platform,
    expected: &HostPath,
    stage: CaptureStage,
    reply: CaptureReply,
) -> (r: CaptureStep)
    ensures
        capture_next(platform, *expected, stage, reply, r),
{
    match (stage, reply) {
        (_, CaptureReply::Definition(Err(error))) => capture_fault(error),
        (_, CaptureReply::Document(Err(error))) => capture_fault(error),
        (_, CaptureReply::Runtime(Err(error))) => capture_fault(error),
        (_, CaptureReply::Answer(Err(error))) => capture_fault(error),
        (_, CaptureReply::Pid(Err(error))) => capture_fault(error),
        (CaptureStage::ReadDefinition, CaptureReply::Definition(Ok(definition))) => {
            judge_definition(platform, expected, definition)
        },
        (CaptureStage::Convert { definition }, CaptureReply::Document(Ok(document))) => {
            match validate_launchd_definition_owner(document.as_slice(), expected) {
                Ok(()) => CaptureStep::Await(
                    CaptureStage::LookRuntime { definition: Some(definition) },
                ),
                Err(fault) => capture_fault(fault),
            }
        },
        (CaptureStage::LookRuntime { definition }, CaptureReply::Runtime(Ok(runtime))) => {
            if definition.is_none() && runtime.loaded {
                capture_fault(
                    Fault::of(
                        "LaunchAgent is loaded without an exact definition that can bind runtime ownership",
                    ),
                )
            } else {
                CaptureStep::Finished(
                    Ok(
                        ServiceStateSnapshot {
                            definition,
                            loaded: runtime.loaded,
                            enabled: false,
                            active: false,
                            manager_pid: runtime.manager_pid,
                        },
                    ),
                )
            }
        },
        (CaptureStage::AskActive { definition }, CaptureReply::Answer(Ok(active))) => {
            CaptureStep::Await(CaptureStage::AskEnabled { definition, active })
        },
        (CaptureStage::AskEnabled { definition, active }, CaptureReply::Answer(Ok(enabled))) => {
            if definition.is_none() && (active || enabled) {
                capture_fault(
                    Fault::of(
                        "systemd user service is active or enabled without an exact definition that can bind runtime ownership",
                    ),
                )
            } else {
                CaptureStep::Await(CaptureStage::AskMainPid { definition, active, enabled })
            }
        },
        (
            CaptureStage::AskMainPid { definition, active, enabled },
            CaptureReply::Pid(Ok(manager_pid)),
        ) => {
            match require_manager_runtime_consistency(
                "systemd",
                "active",
                active,
                "MainPID",
                manager_pid,
            ) {
                Ok(()) => CaptureStep::Finished(
                    Ok(
                        ServiceStateSnapshot {
                            definition,
                            loaded: false,
                            enabled,
                            active,
                            manager_pid,
                        },
                    ),
                ),
                Err(fault) => capture_fault(fault),
            }
        },
        (CaptureStage::LookTaskManager { definition }, CaptureReply::Pid(Ok(manager_pid))) => {
            CaptureStep::Finished(
                Ok(
                    ServiceStateSnapshot {
                        definition: Some(definition),
                        loaded: false,
                        enabled: false,
                        active: false,
                        manager_pid,
                    },
                ),
            )
        },
        _ => capture_fault(misfit_fault()),
    }
}

// -- Laws --

/// Whether a systemd unit or a task, if there is one, is owned.
pub open spec fn definition_owned(
    platform: Platform,
    expected: HostPath,
    definition: Option<ServiceDefinition>,
) -> bool {
    definition matches Some(found) ==> match platform {
        Platform::Linux => systemd_owner_problem(found.contents@, expected) is None,
        Platform::Windows => task_state_problem(found, expected) is None,
        _ => true,
    }
}

/// What holds of a stage that capturing the state has come to.
pub open spec fn capture_wf(platform: Platform, expected: HostPath, stage: CaptureStage) -> bool {
    match stage {
        CaptureStage::ReadDefinition => true,
        CaptureStage::Convert { .. } => platform == Platform::MacOs,
        CaptureStage::LookRuntime { .. } => platform == Platform::MacOs,
        CaptureStage::AskActive { definition } => platform == Platform::Linux && definition_owned(
            platform,
            expected,
            definition,
        ),
        CaptureStage::AskEnabled { definition, .. } => platform == Platform::Linux
            && definition_owned(platform, expected, definition),
        CaptureStage::AskMainPid { definition, .. } => platform == Platform::Linux
            && definition_owned(platform, expected, definition),
        CaptureStage::LookTaskManager { definition } => platform == Platform::Windows
            && definition_owned(platform, expected, Some(definition)),
    }
}

/// The manager is asked only about a service whose definition is owned by the
/// expected executable, and a captured state has no other definition: for a
/// LaunchAgent the converted document was accepted before launchd was asked.
pub proof fn law_captured_state_is_owned(
    platform: Platform,
    expected: HostPath,
    stage: CaptureStage,
    reply: CaptureReply,
    step: CaptureStep,
)
    requires
        capture_wf(platform, expected, stage),
        capture_next(platform, expected, stage, reply, step),
    ensures
        step matches CaptureStep::Await(next) ==> capture_wf(platform, expected, next),
        step matches CaptureStep::Finished(Ok(state)) ==> definition_owned(
            platform,
            expected,
            state.definition,
        ),
        step matches CaptureStep::Await(CaptureStage::LookRuntime { definition: Some(found) })
            ==> stage == (CaptureStage::Convert { definition: found }) && (reply matches
            CaptureReply::Document(Ok(document)) && launchd_document_problem(document@, expected)
            is None),
{
}

/// A started, stopped or removed service was seen to be owned by the executable,
/// on a system with a service manager.
pub proof fn law_actions_follow_ownership(
    platform: Platform,
    action: ServiceAction,
    expected: HostPath,
    existing: Option<HostPath>,
    stage: ActionStage,
    reply: ActionReply,
    step: ActionStep,
)
    requires
        step == ActionStep::Await(ActionStage::Act),
    ensures
        action_begins(platform, action, expected, existing, step) ==> !looks_at_owner(action)
            && unsupported_action(platform, action) is None,
        action_next(platform, action, expected, stage, reply, step) ==> (stage
            == ActionStage::LookOwner && (reply matches ActionReply::Look(look)
            && uninstall_owner_problem(expected, look) is None)) && unsupported_action(
            platform,
            action,
        ) is None,
{
}

} // verus!
