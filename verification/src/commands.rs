//! The daemon's commands: starting, stopping and removing it, step by step.
use vstd::prelude::*;

use crate::background_marker::{fresh_ready_nonce, validate_background_ready_nonce};
use crate::fault::{join2, join3, joined, Fault};
use crate::fs_ops::{token_reading, FileToken};
use crate::host_path::{HostPath, Platform};
use crate::lifecycle_steps::{lifecycle_ends, lifecycle_fails, LifecycleStep};
use crate::number::{decimal, decimal_text};
use crate::outside::{hex_bytes, hex_refusal, hex_text};
use crate::removal::{misfit, misfit_fault};
use crate::service_owner::{executable_problem, validate_expected_executable};
use crate::settlement::DaemonGeneration;

verus! {

/// The reply to an operation of a command.
#[derive(Debug, PartialEq, Eq)]
pub enum CommandReply {
    Done(Result<(), Fault>),
    /// The process that holds the lock.
    Pid(Result<Option<u32>, Fault>),
    Answer(Result<bool, Fault>),
    Generation(Result<Option<DaemonGeneration>, Fault>),
    /// Where this program's executable is.
    Located(Result<HostPath, Fault>),
}

// -- What a command asks for --

/// A command.
#[derive(Clone, Copy, Debug, PartialEq, Eq, Structural)]
pub enum DaemonCommand {
    /// `expected` says that an executable was named.
    Start { foreground: bool, expected: bool },
    Stop { expected: bool },
    Status { installer_state: bool },
    Install,
    Uninstall { check_owner: bool },
}

/// What a command comes to.
#[derive(Clone, Copy, Debug, PartialEq, Eq, Structural)]
pub enum CommandPlan {
    StartForeground,
    StartBackground,
    /// Starting the named executable.
    StartOwned,
    Stop,
    /// Stopping the service of the named executable.
    StopOwned,
    InstallerState,
    Status { json: bool },
    Install,
    CheckOwner,
    Uninstall,
}

/// What a command comes to, or why it is refused.
pub open spec fn planned(platform: Platform, command: DaemonCommand, json: bool) -> Result<
    CommandPlan,
    Seq<char>,
> {
    match command {
        DaemonCommand::Start { foreground, expected } => if expected && foreground {
            Err("--expected-executable cannot be combined with --foreground"@)
        } else if expected && platform != Platform::Windows {
            Err("--expected-executable is supported only on Windows"@)
        } else if expected {
            Ok(CommandPlan::StartOwned)
        } else if !platform.starts_daemons() {
            Err("The background daemon is not supported on this platform."@)
        } else if foreground {
            Ok(CommandPlan::StartForeground)
        } else {
            Ok(CommandPlan::StartBackground)
        },
        DaemonCommand::Stop { expected } => if !expected {
            Ok(CommandPlan::Stop)
        } else if platform == Platform::Windows {
            Ok(CommandPlan::StopOwned)
        } else {
            Err("--expected-service-executable is supported only on Windows"@)
        },
        DaemonCommand::Status { installer_state } => if !installer_state {
            Ok(CommandPlan::Status { json })
        } else if json {
            Err("--installer-state cannot be combined with a JSON output mode"@)
        } else {
            Ok(CommandPlan::InstallerState)
        },
        DaemonCommand::Install => Ok(CommandPlan::Install),
        DaemonCommand::Uninstall { check_owner } => if check_owner {
            Ok(CommandPlan::CheckOwner)
        } else {
            Ok(CommandPlan::Uninstall)
        },
    }
}

/// Decides what a command comes to.
pub fn dispatch(platform: Platform, command: DaemonCommand, json: bool) -> (r: Result<
    CommandPlan,
    Fault,
>)
    ensures
        match planned(platform, command, json) {
            Ok(plan) => r == Ok::<CommandPlan, Fault>(plan),
            Err(message) => r matches Err(fault) && fault@ == seq![message],
        },
{
    match command {
        DaemonCommand::Start { foreground, expected } => if expected && foreground {
            Err(Fault::of("--expected-executable cannot be combined with --foreground"))
        } else if expected && platform != Platform::Windows {
            Err(Fault::of("--expected-executable is supported only on Windows"))
        } else if expected {
            Ok(CommandPlan::StartOwned)
        } else if !platform.supports_daemon() {
            Err(Fault::of("The background daemon is not supported on this platform."))
        } else if foreground {
            Ok(CommandPlan::StartForeground)
        } else {
            Ok(CommandPlan::StartBackground)
        },
        DaemonCommand::Stop { expected } => if !expected {
            Ok(CommandPlan::Stop)
        } else if platform == Platform::Windows {
            Ok(CommandPlan::StopOwned)
        } else {
            Err(Fault::of("--expected-service-executable is supported only on Windows"))
        },
        DaemonCommand::Status { installer_state } => if !installer_state {
            Ok(CommandPlan::Status { json })
        } else if json {
            Err(Fault::of("--installer-state cannot be combined with a JSON output mode"))
        } else {
            Ok(CommandPlan::InstallerState)
        },
        DaemonCommand::Install => Ok(CommandPlan::Install),
        DaemonCommand::Uninstall { check_owner } => if check_owner {
            Ok(CommandPlan::CheckOwner)
        } else {
            Ok(CommandPlan::Uninstall)
        },
    }
}

// -- Starting --

/// How a start was asked for.
#[derive(Clone, Copy, Debug, PartialEq, Eq, Structural)]
pub enum StartKind {
    Foreground,
    Background,
    /// For an executable that was named.
    Owned,
}

/// The operation that a start waits for.
#[derive(Clone, Copy, Debug, PartialEq, Eq, Structural)]
pub enum StartStage {
    /// Acquiring the right to change the service.
    Lease,
    LookPid,
    /// Locating this program's executable.
    Locate,
    LookInstalled,
    /// Making sure that the log can be written.
    Logging { installed: bool },
    /// Removing a stale identity.
    Cleanup { installed: bool },
    RunForeground,
    StartInstalled,
    StartDetached,
}

/// Whether a start waits for an operation.
pub open spec fn start_awaits(step: LifecycleStep<StartStage, ()>, stage: StartStage) -> bool {
    step == LifecycleStep::<StartStage, ()>::Await(stage)
}

/// How a start begins.
pub open spec fn start_beginning(
    kind: StartKind,
    expected: Option<HostPath>,
    step: LifecycleStep<StartStage, ()>,
) -> bool {
    match kind {
        StartKind::Foreground => start_awaits(step, StartStage::LookPid),
        StartKind::Background => start_awaits(step, StartStage::Lease),
        StartKind::Owned => match expected {
            None => lifecycle_fails(step, misfit()),
            Some(path) => match executable_problem(path) {
                Some(message) => lifecycle_fails(step, seq![message]),
                None => start_awaits(step, StartStage::Lease),
            },
        },
    }
}

/// How a start goes on. Nothing is started while a daemon runs or while the log
/// cannot be written, and a stale identity is removed first.
pub open spec fn start_next(
    kind: StartKind,
    stage: StartStage,
    reply: CommandReply,
    step: LifecycleStep<StartStage, ()>,
) -> bool {
    match (stage, reply) {
        (StartStage::Lease, CommandReply::Done(Err(error))) => lifecycle_fails(step, error@),
        (StartStage::Lease, CommandReply::Done(Ok(_))) => start_awaits(step, StartStage::LookPid),
        (StartStage::LookPid, CommandReply::Pid(Err(error))) => lifecycle_fails(step, error@),
        (StartStage::LookPid, CommandReply::Pid(Ok(Some(pid)))) => lifecycle_fails(
            step,
            seq![
                if kind == StartKind::Owned {
                    "Daemon is already running"@
                } else {
                    "Daemon is already running (PID "@ + decimal(pid as nat) + ")"@
                },
            ],
        ),
        (StartStage::LookPid, CommandReply::Pid(Ok(None))) => start_awaits(
            step,
            match kind {
                StartKind::Foreground => StartStage::Logging { installed: false },
                StartKind::Background => StartStage::Locate,
                StartKind::Owned => StartStage::LookInstalled,
            },
        ),
        (StartStage::Locate, CommandReply::Done(Err(error))) => lifecycle_fails(step, error@),
        (StartStage::Locate, CommandReply::Done(Ok(_))) => start_awaits(
            step,
            StartStage::LookInstalled,
        ),
        (StartStage::LookInstalled, CommandReply::Answer(Err(error))) => lifecycle_fails(
            step,
            error@,
        ),
        (StartStage::LookInstalled, CommandReply::Answer(Ok(installed))) => start_awaits(
            step,
            StartStage::Logging { installed },
        ),
        (StartStage::Logging { installed }, CommandReply::Done(Err(error))) => lifecycle_fails(
            step,
            seq!["initializing secure file logging before daemon readiness"@] + error@,
        ),
        (StartStage::Logging { installed }, CommandReply::Done(Ok(_))) => start_awaits(
            step,
            StartStage::Cleanup { installed },
        ),
        (StartStage::Cleanup { installed }, CommandReply::Done(Err(error))) => lifecycle_fails(
            step,
            error@,
        ),
        (StartStage::Cleanup { installed }, CommandReply::Done(Ok(_))) => start_awaits(
            step,
            if kind == StartKind::Foreground {
                StartStage::RunForeground
            } else if installed {
                StartStage::StartInstalled
            } else {
                StartStage::StartDetached
            },
        ),
        (StartStage::RunForeground, CommandReply::Done(r)) => step == LifecycleStep::<
            StartStage,
            (),
        >::Finished(r),
        (StartStage::StartInstalled, CommandReply::Done(r)) => step == LifecycleStep::<
            StartStage,
            (),
        >::Finished(r),
        (StartStage::StartDetached, CommandReply::Done(r)) => step == LifecycleStep::<
            StartStage,
            (),
        >::Finished(r),
        _ => lifecycle_fails(step, misfit()),
    }
}

fn optional_host_path(path: Option<&HostPath>) -> (r: Result<(), Fault>)
    ensures
        match path {
            None => r matches Err(fault) && fault@ == misfit(),
            Some(p) => match executable_problem(*p) {
                Some(message) => r matches Err(fault) && fault@ == seq![message],
                None => r is Ok,
            },
        },
{
    match path {
        None => Err(misfit_fault()),
        Some(p) => validate_expected_executable(p),
    }
}

/// The path behind an optional reference.
pub open spec fn path_behind(path: Option<&HostPath>) -> Option<HostPath> {
    match path {
        Some(p) => Some(*p),
        None => None,
    }
}

/// Begins to start the daemon.
pub fn begin_start(kind: StartKind, expected: Option<&HostPath>) -> (r: LifecycleStep<
    StartStage,
    (),
>)
    ensures
        start_beginning(kind, path_behind(expected), r),
{
    match kind {
        StartKind::Foreground => LifecycleStep::Await(StartStage::LookPid),
        StartKind::Background => LifecycleStep::Await(StartStage::Lease),
        StartKind::Owned => match optional_host_path(expected) {
            Err(fault) => LifecycleStep::Finished(Err(fault)),
            Ok(()) => LifecycleStep::Await(StartStage::Lease),
        },
    }
}

/// Goes on starting the daemon.
pub fn start(kind: StartKind, stage: StartStage, reply: CommandReply) -> (r: LifecycleStep<
    StartStage,
    (),
>)
    ensures
        start_next(kind, stage, reply, r),
{
    match (stage, reply) {
        (StartStage::Lease, CommandReply::Done(Err(error))) => LifecycleStep::Finished(Err(error)),
        (StartStage::Lease, CommandReply::Done(Ok(()))) => LifecycleStep::Await(
            StartStage::LookPid,
        ),
        (StartStage::LookPid, CommandReply::Pid(Err(error))) => LifecycleStep::Finished(
            Err(error),
        ),
        (StartStage::LookPid, CommandReply::Pid(Ok(Some(pid)))) => {
            let text = if kind == StartKind::Owned {
                "Daemon is already running".to_owned()
            } else {
                join3("Daemon is already running (PID ", decimal_text(pid as u64).as_str(), ")")
            };
            LifecycleStep::Finished(Err(Fault::from_text(text)))
        },
        (StartStage::LookPid, CommandReply::Pid(Ok(None))) => match kind {
            StartKind::Foreground => LifecycleStep::Await(
                StartStage::Logging { installed: false },
            ),
            StartKind::Background => LifecycleStep::Await(StartStage::Locate),
            StartKind::Owned => LifecycleStep::Await(StartStage::LookInstalled),
        },
        (StartStage::Locate, CommandReply::Done(Err(error))) => LifecycleStep::Finished(
            Err(error),
        ),
        (StartStage::Locate, CommandReply::Done(Ok(()))) => LifecycleStep::Await(
            StartStage::LookInstalled,
        ),
        (StartStage::LookInstalled, CommandReply::Answer(Err(error))) => LifecycleStep::Finished(
            Err(error),
        ),
        (StartStage::LookInstalled, CommandReply::Answer(Ok(installed))) => LifecycleStep::Await(
            StartStage::Logging { installed },
        ),
        (StartStage::Logging { installed: _ }, CommandReply::Done(Err(error))) => {
            LifecycleStep::Finished(
                Err(error.within("initializing secure file logging before daemon readiness")),
            )
        },
        (StartStage::Logging { installed }, CommandReply::Done(Ok(()))) => LifecycleStep::Await(
            StartStage::Cleanup { installed },
        ),
        (StartStage::Cleanup { installed: _ }, CommandReply::Done(Err(error))) => {
            LifecycleStep::Finished(Err(error))
        },
        (StartStage::Cleanup { installed }, CommandReply::Done(Ok(()))) => {
            if kind == StartKind::Foreground {
                LifecycleStep::Await(StartStage::RunForeground)
            } else if installed {
                LifecycleStep::Await(StartStage::StartInstalled)
            } else {
                LifecycleStep::Await(StartStage::StartDetached)
            }
        },
        (StartStage::RunForeground, CommandReply::Done(r)) => LifecycleStep::Finished(r),
        (StartStage::StartInstalled, CommandReply::Done(r)) => LifecycleStep::Finished(r),
        (StartStage::StartDetached, CommandReply::Done(r)) => LifecycleStep::Finished(r),
        _ => LifecycleStep::Finished(Err(misfit_fault())),
    }
}

/// Nothing is started while a daemon runs.
pub proof fn law_running_daemon_is_not_started(
    kind: StartKind,
    pid: u32,
    step: LifecycleStep<StartStage, ()>,
)
    requires
        start_next(kind, StartStage::LookPid, CommandReply::Pid(Ok(Some(pid))), step),
    ensures
        step matches LifecycleStep::Finished(Err(_)),
{
}

// -- Stopping a daemon outside the service --

/// The operation that stopping a daemon outside the service waits for.
#[derive(Debug, PartialEq, Eq)]
pub enum DetachedStage {
    /// Looking for a running generation; which process the identity named.
    LookGeneration { observed: Option<u32> },
    /// Stopping that generation.
    Stop { target: DaemonGeneration },
    /// Removing its identity.
    Cleanup { pid: u32 },
    /// Removing a stale identity.
    CleanupStale,
}

/// Whether a stop ends with a message.
pub open spec fn detached_says(
    step: LifecycleStep<DetachedStage, String>,
    message: Seq<char>,
) -> bool {
    step matches LifecycleStep::Finished(Ok(text)) && text@ == message
}

/// How stopping a daemon outside the service goes on.
pub open spec fn detached_next(
    stage: DetachedStage,
    reply: CommandReply,
    step: LifecycleStep<DetachedStage, String>,
) -> bool {
    match (stage, reply) {
        (DetachedStage::LookGeneration { observed }, CommandReply::Generation(Err(error))) => {
            lifecycle_fails(step, error@)
        },
        (DetachedStage::LookGeneration { observed }, CommandReply::Generation(Ok(Some(target)))) => step
            == LifecycleStep::<DetachedStage, String>::Await(DetachedStage::Stop { target }),
        (DetachedStage::LookGeneration { observed }, CommandReply::Generation(Ok(None))) => if observed
            is None {
            lifecycle_fails(step, seq!["No daemon PID file found; daemon may not be running"@])
        } else {
            step == LifecycleStep::<DetachedStage, String>::Await(DetachedStage::CleanupStale)
        },
        (DetachedStage::Stop { target }, CommandReply::Done(Err(error))) => lifecycle_fails(
            step,
            error@,
        ),
        (DetachedStage::Stop { target }, CommandReply::Done(Ok(_))) => step == LifecycleStep::<
            DetachedStage,
            String,
        >::Await(DetachedStage::Cleanup { pid: target.pid }),
        (DetachedStage::Cleanup { pid }, CommandReply::Done(Err(error))) => lifecycle_fails(
            step,
            error@,
        ),
        (DetachedStage::Cleanup { pid }, CommandReply::Done(Ok(_))) => detached_says(
            step,
            "Stopped daemon (PID "@ + decimal(pid as nat) + ")"@,
        ),
        (DetachedStage::CleanupStale, CommandReply::Done(Err(error))) => lifecycle_fails(
            step,
            error@,
        ),
        (DetachedStage::CleanupStale, CommandReply::Done(Ok(_))) => detached_says(
            step,
            "Daemon was not running (stale PID file cleaned up)"@,
        ),
        _ => lifecycle_fails(step, misfit()),
    }
}

/// Goes on stopping a daemon outside the service.
pub fn stop_detached_locked(stage: DetachedStage, reply: CommandReply) -> (r: LifecycleStep<
    DetachedStage,
    String,
>)
    ensures
        detached_next(stage, reply, r),
{
    match (stage, reply) {
        (DetachedStage::LookGeneration { observed: _ }, CommandReply::Generation(Err(error))) => {
            LifecycleStep::Finished(Err(error))
        },
        (
            DetachedStage::LookGeneration { observed: _ },
            CommandReply::Generation(Ok(Some(target))),
        ) => LifecycleStep::Await(DetachedStage::Stop { target }),
        (DetachedStage::LookGeneration { observed }, CommandReply::Generation(Ok(None))) => {
            if observed.is_none() {
                LifecycleStep::Finished(
                    Err(Fault::of("No daemon PID file found; daemon may not be running")),
                )
            } else {
                LifecycleStep::Await(DetachedStage::CleanupStale)
            }
        },
        (DetachedStage::Stop { target: _ }, CommandReply::Done(Err(error))) => {
            LifecycleStep::Finished(Err(error))
        },
        (DetachedStage::Stop { target }, CommandReply::Done(Ok(()))) => LifecycleStep::Await(
            DetachedStage::Cleanup { pid: target.pid },
        ),
        (DetachedStage::Cleanup { pid: _ }, CommandReply::Done(Err(error))) => {
            LifecycleStep::Finished(Err(error))
        },
        (DetachedStage::Cleanup { pid }, CommandReply::Done(Ok(()))) => LifecycleStep::Finished(
            Ok(join3("Stopped daemon (PID ", decimal_text(pid as u64).as_str(), ")")),
        ),
        (DetachedStage::CleanupStale, CommandReply::Done(Err(error))) => LifecycleStep::Finished(
            Err(error),
        ),
        (DetachedStage::CleanupStale, CommandReply::Done(Ok(()))) => LifecycleStep::Finished(
            Ok("Daemon was not running (stale PID file cleaned up)".to_owned()),
        ),
        _ => LifecycleStep::Finished(Err(misfit_fault())),
    }
}

// -- Stopping --

/// The operation that a stop waits for.
#[derive(Clone, Copy, Debug, PartialEq, Eq, Structural)]
pub enum StopCommandStage {
    /// Acquiring the right to change the service.
    Lease,
    /// Locating this program's executable.
    Locate,
    LookPid,
    /// Removing a stale identity before the service is looked at.
    CleanupStale,
    LookInstalled,
    StopInstalled,
    /// Removing the identity of the stopped service.
    CleanupStopped,
    /// Stopping a daemon outside the service.
    StopDetached,
}

/// Whether a stop waits for an operation.
pub open spec fn stop_awaits(
    step: LifecycleStep<StopCommandStage, ()>,
    stage: StopCommandStage,
) -> bool {
    step == LifecycleStep::<StopCommandStage, ()>::Await(stage)
}

/// How a stop goes on. On Windows a daemon that runs is asked to end before the
/// service manager, which would force it, is turned to.
pub open spec fn stop_command_next(
    platform: Platform,
    stage: StopCommandStage,
    reply: CommandReply,
    step: LifecycleStep<StopCommandStage, ()>,
) -> bool {
    match (stage, reply) {
        (StopCommandStage::Lease, CommandReply::Done(Err(error))) => lifecycle_fails(step, error@),
        (StopCommandStage::Lease, CommandReply::Done(Ok(_))) => stop_awaits(
            step,
            StopCommandStage::Locate,
        ),
        (StopCommandStage::Locate, CommandReply::Located(Err(error))) => lifecycle_fails(
            step,
            seq!["locating daemon executable for stop"@] + error@,
        ),
        (StopCommandStage::Locate, CommandReply::Located(Ok(path))) => match executable_problem(
            path,
        ) {
            Some(message) => lifecycle_fails(step, seq![message]),
            None => stop_awaits(
                step,
                if platform == Platform::Windows {
                    StopCommandStage::LookPid
                } else {
                    StopCommandStage::LookInstalled
                },
            ),
        },
        (StopCommandStage::LookPid, CommandReply::Pid(Err(error))) => lifecycle_fails(step, error@),
        (StopCommandStage::LookPid, CommandReply::Pid(Ok(Some(_)))) => stop_awaits(
            step,
            StopCommandStage::StopDetached,
        ),
        (StopCommandStage::LookPid, CommandReply::Pid(Ok(None))) => stop_awaits(
            step,
            StopCommandStage::CleanupStale,
        ),
        (StopCommandStage::CleanupStale, CommandReply::Done(Err(error))) => lifecycle_fails(
            step,
            error@,
        ),
        (StopCommandStage::CleanupStale, CommandReply::Done(Ok(_))) => stop_awaits(
            step,
            StopCommandStage::LookInstalled,
        ),
        (StopCommandStage::LookInstalled, CommandReply::Answer(Err(error))) => lifecycle_fails(
            step,
            error@,
        ),
        (StopCommandStage::LookInstalled, CommandReply::Answer(Ok(installed))) => stop_awaits(
            step,
            if installed {
                StopCommandStage::StopInstalled
            } else {
                StopCommandStage::StopDetached
            },
        ),
        (StopCommandStage::StopInstalled, CommandReply::Done(Err(error))) => lifecycle_fails(
            step,
            error@,
        ),
        (StopCommandStage::StopInstalled, CommandReply::Done(Ok(_))) => stop_awaits(
            step,
            StopCommandStage::CleanupStopped,
        ),
        (StopCommandStage::CleanupStopped, CommandReply::Done(r)) => step == LifecycleStep::<
            StopCommandStage,
            (),
        >::Finished(r),
        (StopCommandStage::StopDetached, CommandReply::Done(r)) => step == LifecycleStep::<
            StopCommandStage,
            (),
        >::Finished(r),
        _ => lifecycle_fails(step, misfit()),
    }
}

/// Goes on stopping the daemon.
pub fn stop(platform: Platform, stage: StopCommandStage, reply: CommandReply) -> (r: LifecycleStep<
    StopCommandStage,
    (),
>)
    ensures
        stop_command_next(platform, stage, reply, r),
{
    match (stage, reply) {
        (StopCommandStage::Lease, CommandReply::Done(Err(error))) => LifecycleStep::Finished(
            Err(error),
        ),
        (StopCommandStage::Lease, CommandReply::Done(Ok(()))) => LifecycleStep::Await(
            StopCommandStage::Locate,
        ),
        (StopCommandStage::Locate, CommandReply::Located(Err(error))) => LifecycleStep::Finished(
            Err(error.within("locating daemon executable for stop")),
        ),
        (StopCommandStage::Locate, CommandReply::Located(Ok(path))) => {
            match validate_expected_executable(&path) {
                Err(fault) => LifecycleStep::Finished(Err(fault)),
                Ok(()) => if platform == Platform::Windows {
                    LifecycleStep::Await(StopCommandStage::LookPid)
                } else {
                    LifecycleStep::Await(StopCommandStage::LookInstalled)
                },
            }
        },
        (StopCommandStage::LookPid, CommandReply::Pid(Err(error))) => LifecycleStep::Finished(
            Err(error),
        ),
        (StopCommandStage::LookPid, CommandReply::Pid(Ok(Some(_)))) => LifecycleStep::Await(
            StopCommandStage::StopDetached,
        ),
        (StopCommandStage::LookPid, CommandReply::Pid(Ok(None))) => LifecycleStep::Await(
            StopCommandStage::CleanupStale,
        ),
        (StopCommandStage::CleanupStale, CommandReply::Done(Err(error))) => {
            LifecycleStep::Finished(Err(error))
        },
        (StopCommandStage::CleanupStale, CommandReply::Done(Ok(()))) => LifecycleStep::Await(
            StopCommandStage::LookInstalled,
        ),
        (StopCommandStage::LookInstalled, CommandReply::Answer(Err(error))) => {
            LifecycleStep::Finished(Err(error))
        },
        (StopCommandStage::LookInstalled, CommandReply::Answer(Ok(installed))) => if installed {
            LifecycleStep::Await(StopCommandStage::StopInstalled)
        } else {
            LifecycleStep::Await(StopCommandStage::StopDetached)
        },
        (StopCommandStage::StopInstalled, CommandReply::Done(Err(error))) => {
            LifecycleStep::Finished(Err(error))
        },
        (StopCommandStage::StopInstalled, CommandReply::Done(Ok(()))) => LifecycleStep::Await(
            StopCommandStage::CleanupStopped,
        ),
        (StopCommandStage::CleanupStopped, CommandReply::Done(r)) => LifecycleStep::Finished(r),
        (StopCommandStage::StopDetached, CommandReply::Done(r)) => LifecycleStep::Finished(r),
        _ => LifecycleStep::Finished(Err(misfit_fault())),
    }
}

// -- Stopping the service of a named executable --

/// What the daemon was before an installer stopped it.
#[derive(Clone, Copy, Debug, PartialEq, Eq, Structural)]
pub struct PriorRun {
    pub installed: bool,
    pub running: bool,
}

/// The operation that an installer's stop waits for.
#[derive(Debug, PartialEq, Eq)]
pub enum OwnedStopStage {
    /// Acquiring the right to change the service.
    Lease,
    /// Making sure that the service belongs to the named executable.
    ValidateOwner,
    LookInstalled,
    LookPid { installed: bool },
    /// Stopping the daemon by asking it.
    StopDetached { prior: PriorRun },
    /// Removing a stale identity.
    Cleanup { prior: PriorRun },
    StopInstalled { prior: PriorRun },
    /// Removing the identity of the stopped service.
    CleanupStopped { prior: PriorRun },
    /// Looking for a process that still holds the lock.
    LookStill { prior: PriorRun },
    /// Looking for a running process after a failure.
    LookAgain { prior: PriorRun, error: Fault },
    /// Starting the daemon again.
    Restart { prior: PriorRun, error: Fault },
    /// Making sure that the daemon runs as before.
    LookRestored { prior: PriorRun, error: Fault },
}

/// Whether a stop waits for an operation.
pub open spec fn owned_awaits(
    step: LifecycleStep<OwnedStopStage, ()>,
    stage: OwnedStopStage,
) -> bool {
    step == LifecycleStep::<OwnedStopStage, ()>::Await(stage)
}

/// Whether a failure leads to restoring the prior state.
pub open spec fn owned_restores(
    step: LifecycleStep<OwnedStopStage, ()>,
    prior: PriorRun,
    messages: Seq<Seq<char>>,
) -> bool {
    step matches LifecycleStep::Await(OwnedStopStage::LookAgain { prior: p, error }) && p == prior
        && error@ == messages
}

/// Whether a stop ends with the prior state not restored.
pub open spec fn owned_incomplete(
    step: LifecycleStep<OwnedStopStage, ()>,
    error: Seq<Seq<char>>,
    restoration: Seq<Seq<char>>,
) -> bool {
    lifecycle_fails(
        step,
        seq![
            "installer stop failed and prior daemon state restoration was incomplete: "@ + joined(
                restoration,
            ),
        ] + error,
    )
}

/// The next operation of an installer's stop after the daemon was asked to end.
pub open spec fn owned_after_end(prior: PriorRun) -> OwnedStopStage {
    if prior.installed {
        OwnedStopStage::StopInstalled { prior }
    } else {
        OwnedStopStage::LookStill { prior }
    }
}

/// How an installer's stop goes on. Once the prior state is known, every failure
/// leads to restoring it.
pub open spec fn owned_stop_next(
    stage: OwnedStopStage,
    reply: CommandReply,
    step: LifecycleStep<OwnedStopStage, ()>,
) -> bool {
    match (stage, reply) {
        (OwnedStopStage::Lease, CommandReply::Done(Err(error))) => lifecycle_fails(step, error@),
        (OwnedStopStage::Lease, CommandReply::Done(Ok(_))) => owned_awaits(
            step,
            OwnedStopStage::ValidateOwner,
        ),
        (OwnedStopStage::ValidateOwner, CommandReply::Done(Err(error))) => lifecycle_fails(
            step,
            error@,
        ),
        (OwnedStopStage::ValidateOwner, CommandReply::Done(Ok(_))) => owned_awaits(
            step,
            OwnedStopStage::LookInstalled,
        ),
        (OwnedStopStage::LookInstalled, CommandReply::Answer(Err(error))) => lifecycle_fails(
            step,
            error@,
        ),
        (OwnedStopStage::LookInstalled, CommandReply::Answer(Ok(installed))) => owned_awaits(
            step,
            OwnedStopStage::LookPid { installed },
        ),
        (OwnedStopStage::LookPid { installed }, CommandReply::Pid(Err(error))) => lifecycle_fails(
            step,
            error@,
        ),
        (OwnedStopStage::LookPid { installed }, CommandReply::Pid(Ok(pid))) => {
            let prior = PriorRun { installed, running: pid is Some };
            owned_awaits(
                step,
                if prior.running {
                    OwnedStopStage::StopDetached { prior }
                } else {
                    OwnedStopStage::Cleanup { prior }
                },
            )
        },
        (OwnedStopStage::StopDetached { prior }, CommandReply::Done(Err(error))) => owned_restores(
            step,
            prior,
            error@,
        ),
        (OwnedStopStage::StopDetached { prior }, CommandReply::Done(Ok(_))) => owned_awaits(
            step,
            owned_after_end(prior),
        ),
        (OwnedStopStage::Cleanup { prior }, CommandReply::Done(Err(error))) => owned_restores(
            step,
            prior,
            error@,
        ),
        (OwnedStopStage::Cleanup { prior }, CommandReply::Done(Ok(_))) => owned_awaits(
            step,
            owned_after_end(prior),
        ),
        (OwnedStopStage::StopInstalled { prior }, CommandReply::Done(Err(error))) => owned_restores(
            step,
            prior,
            error@,
        ),
        (OwnedStopStage::StopInstalled { prior }, CommandReply::Done(Ok(_))) => owned_awaits(
            step,
            OwnedStopStage::CleanupStopped { prior },
        ),
        (OwnedStopStage::CleanupStopped { prior }, CommandReply::Done(Err(error))) => {
            owned_restores(step, prior, error@)
        },
        (OwnedStopStage::CleanupStopped { prior }, CommandReply::Done(Ok(_))) => owned_awaits(
            step,
            OwnedStopStage::LookStill { prior },
        ),
        (OwnedStopStage::LookStill { prior }, CommandReply::Pid(Err(error))) => owned_restores(
            step,
            prior,
            error@,
        ),
        (OwnedStopStage::LookStill { prior }, CommandReply::Pid(Ok(Some(pid)))) => owned_restores(
            step,
            prior,
            seq![
                "Daemon PID "@ + decimal(pid as nat)
                    + " still owns the PID lock after the installer stop boundary"@,
            ],
        ),
        (OwnedStopStage::LookStill { prior }, CommandReply::Pid(Ok(None))) => lifecycle_ends(step),
        (OwnedStopStage::LookAgain { prior, error }, CommandReply::Pid(Err(failure))) => {
            owned_incomplete(step, error@, failure@)
        },
        (OwnedStopStage::LookAgain { prior, error }, CommandReply::Pid(Ok(pid))) => {
            if prior.running && pid is None {
                owned_awaits(step, OwnedStopStage::Restart { prior, error })
            } else if !prior.running && pid is Some {
                owned_incomplete(
                    step,
                    error@,
                    seq!["daemon started while the installer stop boundary was failing"@],
                )
            } else {
                owned_awaits(step, OwnedStopStage::LookRestored { prior, error })
            }
        },
        (OwnedStopStage::Restart { prior, error }, CommandReply::Done(Err(failure))) => {
            owned_incomplete(step, error@, failure@)
        },
        (OwnedStopStage::Restart { prior, error }, CommandReply::Done(Ok(_))) => owned_awaits(
            step,
            OwnedStopStage::LookRestored { prior, error },
        ),
        (OwnedStopStage::LookRestored { prior, error }, CommandReply::Pid(Err(failure))) => {
            owned_incomplete(step, error@, failure@)
        },
        (OwnedStopStage::LookRestored { prior, error }, CommandReply::Pid(Ok(pid))) => {
            if (pid is Some) == prior.running {
                lifecycle_fails(
                    step,
                    seq!["installer stop failed; prior daemon state was restored"@] + error@,
                )
            } else {
                owned_incomplete(
                    step,
                    error@,
                    seq!["daemon running state did not match its pre-stop value"@],
                )
            }
        },
        _ => lifecycle_fails(step, misfit()),
    }
}

fn restore_owned(prior: PriorRun, error: Fault) -> (r: LifecycleStep<OwnedStopStage, ()>)
    ensures
        owned_restores(r, prior, error@),
{
    LifecycleStep::Await(OwnedStopStage::LookAgain { prior, error })
}

fn incomplete_owned(error: Fault, restoration: Fault) -> (r: LifecycleStep<OwnedStopStage, ()>)
    ensures
        owned_incomplete(r, error@, restoration@),
{
    LifecycleStep::Finished(
        Err(
            error.context(
                join2(
                    "installer stop failed and prior daemon state restoration was incomplete: ",
                    restoration.detail().as_str(),
                ),
            ),
        ),
    )
}

fn after_owned_end(prior: PriorRun) -> (r: LifecycleStep<OwnedStopStage, ()>)
    ensures
        owned_awaits(r, owned_after_end(prior)),
{
    if prior.installed {
        LifecycleStep::Await(OwnedStopStage::StopInstalled { prior })
    } else {
        LifecycleStep::Await(OwnedStopStage::LookStill { prior })
    }
}

/// Begins an installer's stop of the service of a named executable.
pub fn begin_stop_windows_installer_owned(expected: &HostPath) -> (r: LifecycleStep<
    OwnedStopStage,
    (),
>)
    ensures
        match executable_problem(*expected) {
            Some(message) => lifecycle_fails(r, seq![message]),
            None => owned_awaits(r, OwnedStopStage::Lease),
        },
{
    match validate_expected_executable(expected) {
        Err(fault) => LifecycleStep::Finished(Err(fault)),
        Ok(()) => LifecycleStep::Await(OwnedStopStage::Lease),
    }
}

/// Goes on with an installer's stop.
pub fn stop_windows_installer_owned(stage: OwnedStopStage, reply: CommandReply) -> (r:
    LifecycleStep<OwnedStopStage, ()>)
    ensures
        owned_stop_next(stage, reply, r),
{
    match (stage, reply) {
        (OwnedStopStage::Lease, CommandReply::Done(r)) => match r {
            Err(error) => LifecycleStep::Finished(Err(error)),
            Ok(()) => LifecycleStep::Await(OwnedStopStage::ValidateOwner),
        },
        (OwnedStopStage::ValidateOwner, CommandReply::Done(r)) => match r {
            Err(error) => LifecycleStep::Finished(Err(error)),
            Ok(()) => LifecycleStep::Await(OwnedStopStage::LookInstalled),
        },
        (OwnedStopStage::LookInstalled, CommandReply::Answer(r)) => match r {
            Err(error) => LifecycleStep::Finished(Err(error)),
            Ok(installed) => LifecycleStep::Await(OwnedStopStage::LookPid { installed }),
        },
        (OwnedStopStage::LookPid { installed }, CommandReply::Pid(r)) => match r {
            Err(error) => LifecycleStep::Finished(Err(error)),
            Ok(pid) => {
                let prior = PriorRun { installed, running: pid.is_some() };
                if prior.running {
                    LifecycleStep::Await(OwnedStopStage::StopDetached { prior })
                } else {
                    LifecycleStep::Await(OwnedStopStage::Cleanup { prior })
                }
            },
        },
        (OwnedStopStage::StopDetached { prior }, CommandReply::Done(r)) => match r {
            Err(error) => restore_owned(prior, error),
            Ok(()) => after_owned_end(prior),
        },
        (OwnedStopStage::Cleanup { prior }, CommandReply::Done(r)) => match r {
            Err(error) => restore_owned(prior, error),
            Ok(()) => after_owned_end(prior),
        },
        (OwnedStopStage::StopInstalled { prior }, CommandReply::Done(r)) => match r {
            Err(error) => restore_owned(prior, error),
            Ok(()) => LifecycleStep::Await(OwnedStopStage::CleanupStopped { prior }),
        },
        (OwnedStopStage::CleanupStopped { prior }, CommandReply::Done(r)) => match r {
            Err(error) => restore_owned(prior, error),
            Ok(()) => LifecycleStep::Await(OwnedStopStage::LookStill { prior }),
        },
        (OwnedStopStage::LookStill { prior }, CommandReply::Pid(r)) => match r {
            Err(error) => restore_owned(prior, error),
            Ok(Some(pid)) => restore_owned(
                prior,
                Fault::from_text(
                    join3(
                        "Daemon PID ",
                        decimal_text(pid as u64).as_str(),
                        " still owns the PID lock after the installer stop boundary",
                    ),
                ),
            ),
            Ok(None) => LifecycleStep::Finished(Ok(())),
        },
        (OwnedStopStage::LookAgain { prior, error }, CommandReply::Pid(r)) => match r {
            Err(failure) => incomplete_owned(error, failure),
            Ok(pid) => if prior.running && pid.is_none() {
                LifecycleStep::Await(OwnedStopStage::Restart { prior, error })
            } else if !prior.running && pid.is_some() {
                incomplete_owned(
                    error,
                    Fault::of("daemon started while the installer stop boundary was failing"),
                )
            } else {
                LifecycleStep::Await(OwnedStopStage::LookRestored { prior, error })
            },
        },
        (OwnedStopStage::Restart { prior, error }, CommandReply::Done(r)) => match r {
            Err(failure) => incomplete_owned(error, failure),
            Ok(()) => LifecycleStep::Await(OwnedStopStage::LookRestored { prior, error }),
        },
        (OwnedStopStage::LookRestored { prior, error }, CommandReply::Pid(r)) => match r {
            Err(failure) => incomplete_owned(error, failure),
            Ok(pid) => if pid.is_some() == prior.running {
                LifecycleStep::Finished(
                    Err(error.within("installer stop failed; prior daemon state was restored")),
                )
            } else {
                incomplete_owned(
                    error,
                    Fault::of("daemon running state did not match its pre-stop value"),
                )
            },
        },
        _ => LifecycleStep::Finished(Err(misfit_fault())),
    }
}

/// An installer's stop succeeds only where no process holds the lock. Once the
/// prior state is known, a failed operation ends nothing: the prior state is
/// looked at again.
pub proof fn law_owned_stop_restores_after_failures(
    stage: OwnedStopStage,
    reply: CommandReply,
    step: LifecycleStep<OwnedStopStage, ()>,
)
    requires
        owned_stop_next(stage, reply, step),
    ensures
        lifecycle_ends(step) ==> stage is LookStill && (reply matches CommandReply::Pid(Ok(None))),
        (stage is StopDetached || stage is Cleanup || stage is StopInstalled
            || stage is CleanupStopped) && (reply matches CommandReply::Done(Err(_))) ==> (step
            matches LifecycleStep::Await(next) && next is LookAgain),
        stage is LookStill && (reply matches CommandReply::Pid(Ok(Some(_)))) ==> (step matches
            LifecycleStep::Await(next) && next is LookAgain),
{
}

// -- Removing --

/// The operation that a removal waits for.
#[derive(Debug, PartialEq, Eq)]
pub enum UninstallStage {
    /// Making sure, before anything is changed, that the executable may remove
    /// the service.
    Preflight { check_only: bool },
    /// Acquiring the right to change the service.
    Lease,
    /// Making sure of it again.
    ValidateOwner,
    LookPid,
    /// Stopping the daemon by asking it.
    StopDetached,
    /// Removing a stale identity.
    Cleanup,
    /// Looking for a process that still holds the lock.
    LookStill { running: bool },
    /// Removing the service; whether a daemon ran.
    Remove { running: bool },
    /// Restoring the prior running state.
    Restore { running: bool, error: Fault },
}

/// Whether a removal waits for an operation.
pub open spec fn uninstall_awaits(
    step: LifecycleStep<UninstallStage, ()>,
    stage: UninstallStage,
) -> bool {
    step == LifecycleStep::<UninstallStage, ()>::Await(stage)
}

/// Whether a failure leads to restoring the prior running state.
pub open spec fn uninstall_restores(
    step: LifecycleStep<UninstallStage, ()>,
    was: bool,
    messages: Seq<Seq<char>>,
) -> bool {
    step matches LifecycleStep::Await(UninstallStage::Restore { running, error }) && running == was
        && error@ == messages
}

/// How a removal begins.
pub open spec fn uninstall_beginning(
    located: Result<HostPath, Fault>,
    check_only: bool,
    step: LifecycleStep<UninstallStage, ()>,
) -> bool {
    match located {
        Err(error) => lifecycle_fails(
            step,
            seq!["locating the daemon executable for uninstall"@] + error@,
        ),
        Ok(path) => match executable_problem(path) {
            Some(message) => lifecycle_fails(step, seq![message]),
            None => uninstall_awaits(step, UninstallStage::Preflight { check_only }),
        },
    }
}

/// How a removal goes on. On Windows, where removing a task forces its daemon to
/// end, the daemon is asked first, and only checked absence lets the removal go
/// on.
pub open spec fn uninstall_command_next(
    platform: Platform,
    stage: UninstallStage,
    reply: CommandReply,
    step: LifecycleStep<UninstallStage, ()>,
) -> bool {
    match (stage, reply) {
        (UninstallStage::Preflight { check_only }, CommandReply::Done(Err(error))) => {
            lifecycle_fails(step, error@)
        },
        (UninstallStage::Preflight { check_only }, CommandReply::Done(Ok(_))) => if check_only {
            lifecycle_ends(step)
        } else {
            uninstall_awaits(step, UninstallStage::Lease)
        },
        (UninstallStage::Lease, CommandReply::Done(Err(error))) => lifecycle_fails(step, error@),
        (UninstallStage::Lease, CommandReply::Done(Ok(_))) => uninstall_awaits(
            step,
            UninstallStage::ValidateOwner,
        ),
        (UninstallStage::ValidateOwner, CommandReply::Done(Err(error))) => lifecycle_fails(
            step,
            error@,
        ),
        (UninstallStage::ValidateOwner, CommandReply::Done(Ok(_))) => uninstall_awaits(
            step,
            UninstallStage::LookPid,
        ),
        (UninstallStage::LookPid, CommandReply::Pid(Err(error))) => lifecycle_fails(step, error@),
        (UninstallStage::LookPid, CommandReply::Pid(Ok(pid))) => uninstall_awaits(
            step,
            if platform != Platform::Windows {
                UninstallStage::Remove { running: pid is Some }
            } else if pid is Some {
                UninstallStage::StopDetached
            } else {
                UninstallStage::Cleanup
            },
        ),
        (UninstallStage::StopDetached, CommandReply::Done(Err(error))) => uninstall_restores(
            step,
            true,
            error@,
        ),
        (UninstallStage::StopDetached, CommandReply::Done(Ok(_))) => uninstall_awaits(
            step,
            UninstallStage::LookStill { running: true },
        ),
        (UninstallStage::Cleanup, CommandReply::Done(Err(error))) => uninstall_restores(
            step,
            false,
            error@,
        ),
        (UninstallStage::Cleanup, CommandReply::Done(Ok(_))) => uninstall_awaits(
            step,
            UninstallStage::LookStill { running: false },
        ),
        (UninstallStage::LookStill { running }, CommandReply::Pid(Err(error))) => {
            uninstall_restores(step, running, error@)
        },
        (UninstallStage::LookStill { running }, CommandReply::Pid(Ok(Some(pid)))) => {
            uninstall_restores(
                step,
                running,
                seq![
                    "Daemon PID "@ + decimal(pid as nat)
                        + " still owns the PID lock after the graceful stop request; refusing to force-terminate it during uninstall"@,
                ],
            )
        },
        (UninstallStage::LookStill { running }, CommandReply::Pid(Ok(None))) => uninstall_awaits(
            step,
            UninstallStage::Remove { running },
        ),
        (UninstallStage::Remove { running }, CommandReply::Done(Err(error))) => if platform
            == Platform::Windows {
            uninstall_restores(step, running, error@)
        } else {
            lifecycle_fails(step, error@)
        },
        (UninstallStage::Remove { running }, CommandReply::Done(Ok(_))) => lifecycle_ends(step),
        (UninstallStage::Restore { running, error }, CommandReply::Done(Ok(_))) => lifecycle_fails(
            step,
            seq![
                "Windows scheduled-task uninstall failed; the prior daemon running state was restored"@,
            ] + error@,
        ),
        (UninstallStage::Restore { running, error }, CommandReply::Done(Err(failure))) => {
            lifecycle_fails(
                step,
                seq![
                    "Windows scheduled-task uninstall failed and prior daemon running-state restoration was incomplete: "@
                        + joined(failure@),
                ] + error@,
            )
        },
        _ => lifecycle_fails(step, misfit()),
    }
}

/// Begins to remove the service of an executable.
pub fn begin_uninstall(located: Result<HostPath, Fault>, check_only: bool) -> (r: LifecycleStep<
    UninstallStage,
    (),
>)
    ensures
        uninstall_beginning(located, check_only, r),
{
    match located {
        Err(error) => LifecycleStep::Finished(
            Err(error.within("locating the daemon executable for uninstall")),
        ),
        Ok(path) => match validate_expected_executable(&path) {
            Err(fault) => LifecycleStep::Finished(Err(fault)),
            Ok(()) => LifecycleStep::Await(UninstallStage::Preflight { check_only }),
        },
    }
}

/// Goes on removing the service.
pub fn uninstall(platform: Platform, stage: UninstallStage, reply: CommandReply) -> (r:
    LifecycleStep<UninstallStage, ()>)
    ensures
        uninstall_command_next(platform, stage, reply, r),
{
    match (stage, reply) {
        (UninstallStage::Preflight { check_only }, CommandReply::Done(r)) => match r {
            Err(error) => LifecycleStep::Finished(Err(error)),
            Ok(()) => if check_only {
                LifecycleStep::Finished(Ok(()))
            } else {
                LifecycleStep::Await(UninstallStage::Lease)
            },
        },
        (UninstallStage::Lease, CommandReply::Done(r)) => match r {
            Err(error) => LifecycleStep::Finished(Err(error)),
            Ok(()) => LifecycleStep::Await(UninstallStage::ValidateOwner),
        },
        (UninstallStage::ValidateOwner, CommandReply::Done(r)) => match r {
            Err(error) => LifecycleStep::Finished(Err(error)),
            Ok(()) => LifecycleStep::Await(UninstallStage::LookPid),
        },
        (UninstallStage::LookPid, CommandReply::Pid(r)) => match r {
            Err(error) => LifecycleStep::Finished(Err(error)),
            Ok(pid) => if platform != Platform::Windows {
                LifecycleStep::Await(UninstallStage::Remove { running: pid.is_some() })
            } else if pid.is_some() {
                LifecycleStep::Await(UninstallStage::StopDetached)
            } else {
                LifecycleStep::Await(UninstallStage::Cleanup)
            },
        },
        (UninstallStage::StopDetached, CommandReply::Done(r)) => match r {
            Err(error) => LifecycleStep::Await(UninstallStage::Restore { running: true, error }),
            Ok(()) => LifecycleStep::Await(UninstallStage::LookStill { running: true }),
        },
        (UninstallStage::Cleanup, CommandReply::Done(r)) => match r {
            Err(error) => LifecycleStep::Await(UninstallStage::Restore { running: false, error }),
            Ok(()) => LifecycleStep::Await(UninstallStage::LookStill { running: false }),
        },
        (UninstallStage::LookStill { running }, CommandReply::Pid(r)) => match r {
            Err(error) => LifecycleStep::Await(UninstallStage::Restore { running, error }),
            Ok(Some(pid)) => LifecycleStep::Await(
                UninstallStage::Restore {
                    running,
                    error: Fault::from_text(
                        join3(
                            "Daemon PID ",
                            decimal_text(pid as u64).as_str(),
                            " still owns the PID lock after the graceful stop request; refusing to force-terminate it during uninstall",
                        ),
                    ),
                },
            ),
            Ok(None) => LifecycleStep::Await(UninstallStage::Remove { running }),
        },
        (UninstallStage::Remove { running }, CommandReply::Done(r)) => match r {
            Err(error) => if platform == Platform::Windows {
                LifecycleStep::Await(UninstallStage::Restore { running, error })
            } else {
                LifecycleStep::Finished(Err(error))
            },
            Ok(()) => LifecycleStep::Finished(Ok(())),
        },
        (UninstallStage::Restore { running: _, error }, CommandReply::Done(r)) => match r {
            Ok(()) => LifecycleStep::Finished(
                Err(
                    error.within(
                        "Windows scheduled-task uninstall failed; the prior daemon running state was restored",
                    ),
                ),
            ),
            Err(failure) => LifecycleStep::Finished(
                Err(
                    error.context(
                        join2(
                            "Windows scheduled-task uninstall failed and prior daemon running-state restoration was incomplete: ",
                            failure.detail().as_str(),
                        ),
                    ),
                ),
            ),
        },
        _ => LifecycleStep::Finished(Err(misfit_fault())),
    }
}

/// On Windows a task is removed only after its daemon was asked to end and no
/// process holds the lock; a check of the owner changes nothing.
pub proof fn law_uninstall_forces_no_daemon(
    stage: UninstallStage,
    reply: CommandReply,
    step: LifecycleStep<UninstallStage, ()>,
)
    requires
        uninstall_command_next(Platform::Windows, stage, reply, step),
    ensures
        (step matches LifecycleStep::Await(next) && next is Remove) ==> stage is LookStill && (reply
            matches CommandReply::Pid(Ok(None))),
        stage == (UninstallStage::Preflight { check_only: true }) ==> step is Finished,
{
}

// -- The holder of an update's boundary --

/// What a holder must run as, or why it may not begin.
pub open spec fn holder_expectation(
    replacement: HostPath,
    token: Option<Seq<char>>,
    nonce: Option<Seq<char>>,
) -> Result<bool, Seq<Seq<char>>> {
    match executable_problem(replacement) {
        Some(message) => Err(seq![message]),
        None => match (token, nonce) {
            (None, None) => Ok(false),
            (Some(text), Some(word)) => match hex_bytes(word) {
                None => Err(
                    seq!["background readiness nonce is not hexadecimal"@, hex_refusal(word)],
                ),
                Some(bytes) => if bytes.len() != 16 {
                    Err(seq!["background readiness nonce must encode exactly 128 bits"@])
                } else {
                    match token_reading(text) {
                        Err(messages) => Err(
                            seq!["parsing self-update lifecycle holder executable token"@]
                                + messages,
                        ),
                        Ok(_) => Ok(true),
                    }
                },
            },
            _ => Err(
                seq![
                    "self-update lifecycle holder requires both executable token and readiness nonce"@,
                ],
            ),
        },
    }
}

/// The text of an optional argument.
pub open spec fn argument(text: Option<&str>) -> Option<Seq<char>> {
    match text {
        Some(t) => Some(t@),
        None => None,
    }
}

/// Reads the arguments of a holder: the token of the executable that it must run
/// as, where one is given.
pub fn read_holder_arguments(
    replacement: &HostPath,
    token: Option<&str>,
    nonce: Option<&str>,
) -> (r: Result<Option<FileToken>, Fault>)
    ensures
        match holder_expectation(*replacement, argument(token), argument(nonce)) {
            Err(messages) => r matches Err(fault) && fault@ == messages,
            Ok(false) => r == Ok::<Option<FileToken>, Fault>(None),
            Ok(true) => r matches Ok(Some(expected)) && token_reading(token->0@) == Ok::<
                _,
                Seq<Seq<char>>,
            >(expected@),
        },
{
    match validate_expected_executable(replacement) {
        Ok(()) => {},
        Err(fault) => {
            return Err(fault);
        },
    }
    match (token, nonce) {
        (None, None) => Ok(None),
        (Some(text), Some(word)) => {
            match validate_background_ready_nonce(word) {
                Ok(()) => {},
                Err(fault) => {
                    return Err(fault);
                },
            }
            match FileToken::from_str(text) {
                Err(fault) => Err(
                    fault.within("parsing self-update lifecycle holder executable token"),
                ),
                Ok(expected) => Ok(Some(expected)),
            }
        },
        _ => Err(
            Fault::of(
                "self-update lifecycle holder requires both executable token and readiness nonce",
            ),
        ),
    }
}

/// A holder must run as the executable that it was started as.
pub fn verify_holder_executable(
    expected: &FileToken,
    located: Result<HostPath, Fault>,
    observed: Result<FileToken, Fault>,
) -> (r: Result<(), Fault>)
    ensures
        match (located, observed) {
            (Err(error), _) => r matches Err(fault) && fault@ == seq![
                "locating the self-update lifecycle holder executable"@,
            ] + error@,
            (Ok(_), Err(error)) => r matches Err(fault) && fault@ == seq![
                "binding the self-update lifecycle holder executable"@,
            ] + error@,
            (Ok(path), Ok(token)) => if token@ == expected@ {
                r is Ok
            } else {
                r matches Err(fault) && fault@ == seq![
                    "self-update lifecycle holder executable changed before readiness: "@
                        + path.display@,
                ]
            },
        },
{
    let path = match located {
        Err(error) => {
            return Err(error.within("locating the self-update lifecycle holder executable"));
        },
        Ok(path) => path,
    };
    match observed {
        Err(error) => Err(error.within("binding the self-update lifecycle holder executable")),
        Ok(token) => if token.same(expected) {
            Ok(())
        } else {
            Err(
                Fault::from_text(
                    join2(
                        "self-update lifecycle holder executable changed before readiness: ",
                        path.display.as_str(),
                    ),
                ),
            )
        },
    }
}

// -- A background executable --

/// The looks at an executable that is to run in the background.
#[derive(Debug, PartialEq, Eq)]
pub struct SpawnLooks {
    /// Whether it is a regular file and no link.
    pub direct: Result<bool, Fault>,
    /// Whether it could be held open.
    pub pinned: Result<(), Fault>,
    pub observed: Result<FileToken, Fault>,
}

/// Why an executable may not run in the background.
pub open spec fn spawn_problem(path: Seq<char>, expected: FileToken, looks: SpawnLooks) -> Option<
    Seq<Seq<char>>,
> {
    match looks.direct {
        Err(error) => Some(seq!["inspecting verified background executable "@ + path] + error@),
        Ok(false) => Some(
            seq!["verified background executable is not a direct regular file: "@ + path],
        ),
        Ok(true) => match looks.pinned {
            Err(error) => Some(seq!["pinning verified background executable "@ + path] + error@),
            Ok(_) => match looks.observed {
                Err(error) => Some(
                    seq!["binding verified background executable "@ + path] + error@,
                ),
                Ok(token) => if token@ == expected@ {
                    None
                } else {
                    Some(
                        seq![
                            "background executable changed before it could be pinned: "@ + path,
                        ],
                    )
                },
            },
        },
    }
}

/// Prepares a start in the background: the executable must be the expected one
/// and be held open; the start gets a nonce of its own.
pub fn prepare_verified_background_spawn(path: &str, expected: &FileToken, looks: SpawnLooks) -> (r:
    Result<String, Fault>)
    ensures
        match spawn_problem(path@, *expected, looks) {
            Some(messages) => r matches Err(fault) && fault@ == messages,
            None => r matches Ok(nonce) && (hex_bytes(nonce@) matches Some(bytes) && bytes.len()
                == 16 && nonce@ == hex_text(bytes)),
        },
{
    match looks.direct {
        Err(error) => {
            return Err(error.context(join2("inspecting verified background executable ", path)));
        },
        Ok(direct) => if !direct {
            return Err(
                Fault::from_text(
                    join2("verified background executable is not a direct regular file: ", path),
                ),
            );
        },
    }
    match looks.pinned {
        Err(error) => {
            return Err(error.context(join2("pinning verified background executable ", path)));
        },
        Ok(()) => {},
    }
    match looks.observed {
        Err(error) => Err(error.context(join2("binding verified background executable ", path))),
        Ok(token) => if token.same(expected) {
            Ok(fresh_ready_nonce())
        } else {
            Err(
                Fault::from_text(
                    join2("background executable changed before it could be pinned: ", path),
                ),
            )
        },
    }
}

/// What is said of the daemon where it is not supported.
pub fn unsupported_platform_line(os: &str) -> (r: String)
    ensures
        r@ == "Daemon is not supported on this platform ("@ + os@ + ")"@,
{
    join3("Daemon is not supported on this platform (", os, ")")
}

} // verus!
