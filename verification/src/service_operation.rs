//! The outside work of the service procedures.
//!
//! A procedure is a list of checks. A check names the operation that the caller
//! performs, and says which reply lets the procedure go on and how it fails
//! otherwise. A procedure may look at one thing in its middle and go on in one
//! of two ways.
use vstd::prelude::*;

use crate::fault::{headline_of, join2, join3, join5, Fault};
use crate::number::{decimal, decimal_text};
use crate::removal::{misfit, misfit_fault};
use crate::service_render::{
    task_failure, task_scheduler_failure_message, LAUNCHD_LABEL, SYSTEMD_UNIT_NAME,
    WINDOWS_TASK_NAME,
};
use crate::text::{chars_of, text_of, texts, trim, trim_both, CharClass};

verus! {

/// A call of `systemctl --user`.
#[derive(Clone, Copy, Debug, PartialEq, Eq, Structural)]
pub enum SystemctlCommand {
    DaemonReload,
    Start,
    Stop,
    Enable,
    Disable,
    EnableNow,
    DisableNow,
}

/// The words after `systemctl --user`.
pub open spec fn systemctl_words(command: SystemctlCommand) -> Seq<Seq<char>> {
    match command {
        SystemctlCommand::DaemonReload => seq!["daemon-reload"@],
        SystemctlCommand::Start => seq!["start"@, SYSTEMD_UNIT_NAME@],
        SystemctlCommand::Stop => seq!["stop"@, SYSTEMD_UNIT_NAME@],
        SystemctlCommand::Enable => seq!["enable"@, SYSTEMD_UNIT_NAME@],
        SystemctlCommand::Disable => seq!["disable"@, SYSTEMD_UNIT_NAME@],
        SystemctlCommand::EnableNow => seq!["enable"@, "--now"@, SYSTEMD_UNIT_NAME@],
        SystemctlCommand::DisableNow => seq!["disable"@, "--now"@, SYSTEMD_UNIT_NAME@],
    }
}

/// The words after `systemctl --user`.
pub fn systemctl_arguments(command: SystemctlCommand) -> (r: Vec<String>)
    ensures
        texts(r@) == systemctl_words(command),
{
    let mut out: Vec<String> = Vec::new();
    match command {
        SystemctlCommand::DaemonReload => {
            out.push("daemon-reload".to_owned());
        },
        SystemctlCommand::Start => {
            out.push("start".to_owned());
        },
        SystemctlCommand::Stop => {
            out.push("stop".to_owned());
        },
        SystemctlCommand::Enable => {
            out.push("enable".to_owned());
        },
        SystemctlCommand::Disable => {
            out.push("disable".to_owned());
        },
        SystemctlCommand::EnableNow => {
            out.push("enable".to_owned());
            out.push("--now".to_owned());
        },
        SystemctlCommand::DisableNow => {
            out.push("disable".to_owned());
            out.push("--now".to_owned());
        },
    }
    if command != SystemctlCommand::DaemonReload {
        out.push(SYSTEMD_UNIT_NAME.to_owned());
    }
    assert(texts(out@) =~= systemctl_words(command));
    out
}

/// A call of `schtasks` on the daemon's task.
#[derive(Clone, Copy, Debug, PartialEq, Eq, Structural)]
pub enum SchtasksCommand {
    Run,
    End,
    Delete,
    Query,
    QueryXml,
}

/// The words after `schtasks`.
pub open spec fn schtasks_words(command: SchtasksCommand) -> Seq<Seq<char>> {
    match command {
        SchtasksCommand::Run => seq!["/Run"@, "/TN"@, WINDOWS_TASK_NAME@],
        SchtasksCommand::End => seq!["/End"@, "/TN"@, WINDOWS_TASK_NAME@],
        SchtasksCommand::Delete => seq!["/Delete"@, "/TN"@, WINDOWS_TASK_NAME@, "/F"@],
        SchtasksCommand::Query => seq!["/Query"@, "/TN"@, WINDOWS_TASK_NAME@],
        SchtasksCommand::QueryXml => seq!["/Query"@, "/TN"@, WINDOWS_TASK_NAME@, "/XML"@],
    }
}

/// The words after `schtasks`.
pub fn schtasks_arguments(command: SchtasksCommand) -> (r: Vec<String>)
    ensures
        texts(r@) == schtasks_words(command),
{
    let mut out: Vec<String> = Vec::new();
    out.push(
        match command {
            SchtasksCommand::Run => "/Run".to_owned(),
            SchtasksCommand::End => "/End".to_owned(),
            SchtasksCommand::Delete => "/Delete".to_owned(),
            SchtasksCommand::Query => "/Query".to_owned(),
            SchtasksCommand::QueryXml => "/Query".to_owned(),
        },
    );
    out.push("/TN".to_owned());
    out.push(WINDOWS_TASK_NAME.to_owned());
    if command == SchtasksCommand::Delete {
        out.push("/F".to_owned());
    } else if command == SchtasksCommand::QueryXml {
        out.push("/XML".to_owned());
    }
    assert(texts(out@) =~= schtasks_words(command));
    out
}

/// The words after `schtasks` that create a task which runs at logon.
pub open spec fn create_task_words(name: Seq<char>, task_run: Seq<char>, replace: bool) -> Seq<
    Seq<char>,
> {
    let words = seq![
        "/Create"@,
        "/TN"@,
        name,
        "/TR"@,
        task_run,
        "/SC"@,
        "ONLOGON"@,
        "/RL"@,
        "LIMITED"@,
        "/IT"@,
    ];
    if replace {
        words.push("/F"@)
    } else {
        words
    }
}

/// The words after `schtasks` that create a task which runs at logon.
pub fn create_scheduled_task(name: &str, task_run: &str, replace_existing: bool) -> (r: Vec<String>)
    ensures
        texts(r@) == create_task_words(name@, task_run@, replace_existing),
{
    let mut out: Vec<String> = Vec::new();
    out.push("/Create".to_owned());
    out.push("/TN".to_owned());
    out.push(name.to_owned());
    out.push("/TR".to_owned());
    out.push(task_run.to_owned());
    out.push("/SC".to_owned());
    out.push("ONLOGON".to_owned());
    out.push("/RL".to_owned());
    out.push("LIMITED".to_owned());
    out.push("/IT".to_owned());
    if replace_existing {
        out.push("/F".to_owned());
    }
    assert(texts(out@) =~= create_task_words(name@, task_run@, replace_existing));
    out
}

/// What became of a command that was run.
#[derive(Debug, PartialEq, Eq)]
pub enum CommandRun {
    NotStarted(Fault),
    NotAwaited(Fault),
    Ended { success: bool, detail: String },
}

/// What a required `systemctl` call gave.
pub fn systemctl_require(action: &str, run: CommandRun) -> (r: Result<(), Fault>)
    ensures
        match run {
            CommandRun::NotStarted(error) => r matches Err(fault) && fault@ == seq![
                "starting systemctl to "@ + action@,
            ] + error@,
            CommandRun::NotAwaited(error) => r matches Err(fault) && fault@ == seq![
                "waiting for systemctl to "@ + action@,
            ] + error@,
            CommandRun::Ended { success, detail } => if success {
                r is Ok
            } else {
                r matches Err(fault) && fault@ == seq!["failed to "@ + action@ + ": "@ + detail@]
            },
        },
{
    match run {
        CommandRun::NotStarted(error) => Err(
            error.context(join2("starting systemctl to ", action)),
        ),
        CommandRun::NotAwaited(error) => Err(
            error.context(join2("waiting for systemctl to ", action)),
        ),
        CommandRun::Ended { success, detail } => if success {
            Ok(())
        } else {
            Err(Fault::from_text(join2(join3("failed to ", action, ": ").as_str(), detail.as_str())))
        },
    }
}

/// What a required `schtasks` call gave.
pub fn schtasks(action: &str, success: bool, stderr: &str, stdout: &str) -> (r: Result<(), Fault>)
    ensures
        if success {
            r is Ok
        } else {
            r matches Err(fault) && fault@ == seq![
                task_failure(
                    action@,
                    if trim_both(stderr@, CharClass::WhiteSpace).len() == 0 {
                        trim_both(stdout@, CharClass::WhiteSpace)
                    } else {
                        trim_both(stderr@, CharClass::WhiteSpace)
                    },
                ),
            ]
        },
{
    if success {
        return Ok(());
    }
    let err = chars_of(stderr);
    let detail = trim(err.as_slice(), CharClass::WhiteSpace);
    if detail.len() > 0 {
        return Err(
            Fault::from_text(task_scheduler_failure_message(action, text_of(detail).as_str())),
        );
    }
    let out = chars_of(stdout);
    let printed = trim(out.as_slice(), CharClass::WhiteSpace);
    Err(Fault::from_text(task_scheduler_failure_message(action, text_of(printed).as_str())))
}

/// Whether the LaunchAgent is loaded or not, in words.
pub open spec fn loaded_word(loaded: bool) -> Seq<char> {
    if loaded {
        "loaded"@
    } else {
        "unloaded"@
    }
}

/// What a call of `launchctl` gave. Its exit status is not trusted: the full
/// listing afterwards decides.
pub fn launchctl_require_loaded_state(
    action: &str,
    expected_loaded: bool,
    run: CommandRun,
    loaded: Result<bool, Fault>,
) -> (r: Result<(), Fault>)
    ensures
        match run {
            CommandRun::NotStarted(error) => r matches Err(fault) && fault@ == seq![
                "starting launchctl for "@ + action@,
            ] + error@,
            CommandRun::NotAwaited(error) => r matches Err(fault) && fault@ == seq![
                "waiting for launchctl to "@ + action@,
            ] + error@,
            CommandRun::Ended { detail, .. } => match loaded {
                Err(error) => r matches Err(fault) && fault@ == seq![
                    "verifying LaunchAgent state after "@ + action@,
                ] + error@,
                Ok(loaded) => if loaded == expected_loaded {
                    r is Ok
                } else {
                    r matches Err(fault) && fault@ == seq![
                        action@ + " did not leave LaunchAgent "@ + LAUNCHD_LABEL@ + " "@
                            + loaded_word(expected_loaded) + ": "@ + detail@,
                    ]
                },
            },
        },
{
    match run {
        CommandRun::NotStarted(error) => Err(
            error.context(join2("starting launchctl for ", action)),
        ),
        CommandRun::NotAwaited(error) => Err(
            error.context(join2("waiting for launchctl to ", action)),
        ),
        CommandRun::Ended { success: _, detail } => match loaded {
            Err(error) => Err(
                error.context(join2("verifying LaunchAgent state after ", action)),
            ),
            Ok(loaded) => if loaded == expected_loaded {
                Ok(())
            } else {
                let word = if expected_loaded {
                    "loaded"
                } else {
                    "unloaded"
                };
                Err(
                    Fault::from_text(
                        join3(
                            join5(
                                action,
                                " did not leave LaunchAgent ",
                                LAUNCHD_LABEL,
                                " ",
                                word,
                            ).as_str(),
                            ": ",
                            detail.as_str(),
                        ),
                    ),
                )
            },
        },
    }
}

/// What a `launchctl start` of the loaded LaunchAgent gave.
pub fn launchctl_start(run: CommandRun, loaded: Result<bool, Fault>) -> (r: Result<(), Fault>)
    ensures
        match run {
            CommandRun::NotStarted(error) => r matches Err(fault) && fault@ == seq![
                "starting loaded LaunchAgent"@,
            ] + error@,
            CommandRun::NotAwaited(error) => r matches Err(fault) && fault@ == seq![
                "starting loaded LaunchAgent"@,
            ] + error@,
            CommandRun::Ended { success, detail } => match (success, loaded) {
                (true, Err(error)) => r matches Err(fault) && fault@ == error@,
                (true, Ok(true)) => r is Ok,
                _ => r matches Err(fault) && fault@ == seq![
                    "launchctl start did not preserve a loaded LaunchAgent: "@ + detail@,
                ],
            },
        },
{
    match run {
        CommandRun::NotStarted(error) => Err(error.within("starting loaded LaunchAgent")),
        CommandRun::NotAwaited(error) => Err(error.within("starting loaded LaunchAgent")),
        CommandRun::Ended { success, detail } => match (success, loaded) {
            (true, Err(error)) => Err(error),
            (true, Ok(true)) => Ok(()),
            _ => Err(
                Fault::from_text(
                    join2(
                        "launchctl start did not preserve a loaded LaunchAgent: ",
                        detail.as_str(),
                    ),
                ),
            ),
        },
    }
}

/// Which state of the scheduled task an operation is held to.
#[derive(Clone, Copy, Debug, PartialEq, Eq, Structural)]
pub enum TaskState {
    /// The state that is to be rolled back.
    Current,
    /// The state that was captured before anything was changed.
    Previous,
    /// The state that was captured after the new task was published.
    Published,
    Absent,
}

/// An operation of a service procedure.
#[derive(Clone, Copy, Debug, PartialEq, Eq, Structural)]
pub enum ServiceOperation {
    /// No operation.
    Nothing,
    /// Making sure that the definition is still the one that was read.
    RequireUnchanged,
    /// Asking systemd whether the unit is active.
    AskActive,
    /// Asking systemd whether the unit is enabled.
    AskEnabled,
    /// Asking launchd whether the job is loaded.
    AskLoaded,
    Systemctl(SystemctlCommand),
    /// Stopping the unit; where that fails, asking systemd whether it is active.
    StopUnit,
    /// Loading the LaunchAgent; it must then be loaded.
    Load,
    /// Unloading the LaunchAgent; it must then not be loaded.
    Unload,
    /// Starting the loaded LaunchAgent.
    StartLoaded,
    Schtasks(SchtasksCommand),
    /// Creating the task under its staging name.
    CreateStagedTask,
    /// Deleting the staged task.
    DeleteStagedTask,
    /// Creating the task, over the one that is there or not.
    CreateTask { replace: bool },
    /// Reading the task's file and its exported definition.
    InspectTask,
    /// Putting the captured task definition back from its file.
    CreateFromXml,
    /// Asking whether the task's exported definition is the captured one.
    AskTaskXml,
    /// Stopping the daemon of the task, whichever generation it is.
    StopScheduledDaemon,
    /// Making sure that the task's file is in a state.
    RequireTaskFile(TaskState),
    /// Making sure that the task's exported definition is in a state.
    RequireTaskXml(TaskState),
    /// Making sure that the task's file is there again.
    ConfirmTaskFile,
    /// Asking whether the task's file is there.
    AskTaskFile,
    /// Asking whether the task's file is the captured one.
    AskTaskFileUnchanged,
    /// Reading which process holds the daemon's lock.
    RunningPid,
    /// Waiting until no process holds the daemon's lock.
    AwaitAbsence,
    /// Waiting until a daemon of the new executable holds the lock.
    AwaitPresence,
    /// Waiting until a daemon of the previous executable holds the lock.
    AwaitPreviousPresence,
    /// Making sure that a daemon of the previous executable holds the lock.
    RequirePreviousIdentity,
    RollBackPublication,
    MoveAway,
    CommitRemoval,
    RollBackRemoval,
}

/// What lets a procedure go on.
#[derive(Clone, Copy, Debug, PartialEq, Eq)]
pub enum Expectation<'a> {
    /// That the operation succeeds.
    Done,
    /// That a question is answered in one way.
    Is { value: bool, refusal: &'a str },
    /// That no process holds the lock.
    Vacant { before: &'a str, after: &'a str },
    /// That the unit was stopped, or failing that is known not to be active.
    Stopped { active: &'a str, unknown: &'a str },
    /// Any answer: the procedure goes on by it.
    Look,
    /// Nothing.
    Never(&'a str),
}

/// One step of a procedure.
#[derive(Clone, Copy, Debug, PartialEq, Eq)]
pub struct Check<'a> {
    pub operation: ServiceOperation,
    /// What messages call the operation.
    pub action: &'a str,
    /// What a failure of the operation is put behind.
    pub context: Option<&'a str>,
    pub expectation: Expectation<'a>,
}

/// An operation that must succeed.
#[verifier::allow_in_spec]
pub fn done<'a>(operation: ServiceOperation, action: &'a str) -> Check<'a>
    returns
        (Check { operation, action, context: None::<&'a str>, expectation: Expectation::Done }),
{
    Check { operation, action, context: None, expectation: Expectation::Done }
}

/// An operation that must succeed, with the context of its failure.
#[verifier::allow_in_spec]
pub fn done_within<'a>(operation: ServiceOperation, action: &'a str, context: &'a str) -> Check<'a>
    returns
        (Check { operation, action, context: Some(context), expectation: Expectation::Done }),
{
    Check { operation, action, context: Some(context), expectation: Expectation::Done }
}

/// A question that must be answered in one way.
#[verifier::allow_in_spec]
pub fn answers<'a>(operation: ServiceOperation, value: bool, refusal: &'a str) -> Check<'a>
    returns
        (Check {
            operation,
            action: "",
            context: None::<&'a str>,
            expectation: Expectation::Is { value, refusal },
        }),
{
    Check {
        operation,
        action: "",
        context: None,
        expectation: Expectation::Is { value, refusal },
    }
}

/// A question with a name and a context that must be answered in one way.
#[verifier::allow_in_spec]
pub fn asks<'a>(
    operation: ServiceOperation,
    action: &'a str,
    context: Option<&'a str>,
    value: bool,
    refusal: &'a str,
) -> Check<'a>
    returns
        (Check { operation, action, context, expectation: Expectation::Is { value, refusal } }),
{
    Check { operation, action, context, expectation: Expectation::Is { value, refusal } }
}

/// No process may hold the lock.
#[verifier::allow_in_spec]
pub fn vacant<'a>(context: &'a str, before: &'a str, after: &'a str) -> Check<'a>
    returns
        (Check {
            operation: ServiceOperation::RunningPid,
            action: "",
            context: Some(context),
            expectation: Expectation::Vacant { before, after },
        }),
{
    Check {
        operation: ServiceOperation::RunningPid,
        action: "",
        context: Some(context),
        expectation: Expectation::Vacant { before, after },
    }
}

/// The unit must be stopped, or failing that be known not to be active.
#[verifier::allow_in_spec]
pub fn stopped<'a>(action: &'a str, active: &'a str, unknown: &'a str) -> Check<'a>
    returns
        (Check {
            operation: ServiceOperation::StopUnit,
            action,
            context: None::<&'a str>,
            expectation: Expectation::Stopped { active, unknown },
        }),
{
    Check {
        operation: ServiceOperation::StopUnit,
        action,
        context: None,
        expectation: Expectation::Stopped { active, unknown },
    }
}

/// A question by whose answer the procedure goes on.
#[verifier::allow_in_spec]
pub fn look<'a>(operation: ServiceOperation, context: Option<&'a str>) -> Check<'a>
    returns
        (Check { operation, action: "", context, expectation: Expectation::Look }),
{
    Check { operation, action: "", context, expectation: Expectation::Look }
}

/// The end of a procedure that cannot go on.
#[verifier::allow_in_spec]
pub fn never<'a>(refusal: &'a str) -> Check<'a>
    returns
        (Check {
            operation: ServiceOperation::Nothing,
            action: "",
            context: None::<&'a str>,
            expectation: Expectation::Never(refusal),
        }),
{
    Check {
        operation: ServiceOperation::Nothing,
        action: "",
        context: None,
        expectation: Expectation::Never(refusal),
    }
}

/// One script after another.
pub fn then_script<'a>(first: Vec<Check<'a>>, second: Vec<Check<'a>>) -> (r: Vec<Check<'a>>)
    ensures
        r@ == first@ + second@,
{
    let mut all = first;
    let mut more = second;
    all.append(&mut more);
    all
}

/// What an operation gave.
#[derive(Debug, PartialEq, Eq)]
pub enum CheckReply {
    Done,
    Answer(bool),
    Pid(Option<u32>),
    /// The unit could not be stopped; whether it is active.
    NotStopped { error: Fault, active: Result<bool, Fault> },
    Failed(Fault),
}

/// A failure behind its context.
pub open spec fn placed(context: Option<&str>, messages: Seq<Seq<char>>) -> Seq<Seq<char>> {
    match context {
        Some(c) => seq![c@] + messages,
        None => messages,
    }
}

/// Why a check does not hold.
pub open spec fn refusal(check: Check, reply: CheckReply) -> Option<Seq<Seq<char>>> {
    match (check.expectation, reply) {
        (Expectation::Never(message), _) => Some(seq![message@]),
        (_, CheckReply::Failed(fault)) => Some(placed(check.context, fault@)),
        (Expectation::Done, CheckReply::Done) => None,
        (Expectation::Is { value, refusal }, CheckReply::Answer(answer)) => if answer == value {
            None
        } else {
            Some(seq![refusal@])
        },
        (Expectation::Vacant { .. }, CheckReply::Pid(None)) => None,
        (Expectation::Vacant { before, after }, CheckReply::Pid(Some(pid))) => Some(
            seq![before@ + decimal(pid as nat) + after@],
        ),
        (Expectation::Stopped { .. }, CheckReply::Done) => None,
        (
            Expectation::Stopped { active: still, unknown },
            CheckReply::NotStopped { error, active },
        ) => match active {
            Ok(false) => None,
            Ok(true) => Some(seq![still@] + error@),
            Err(state) => Some(seq![unknown@ + ": "@ + headline_of(state@)] + error@),
        },
        (Expectation::Look, CheckReply::Answer(_)) => None,
        (Expectation::Look, CheckReply::Pid(_)) => None,
        _ => Some(misfit()),
    }
}

/// Whether a look found what it looked for.
pub open spec fn found(reply: CheckReply) -> bool {
    match reply {
        CheckReply::Answer(answer) => answer,
        CheckReply::Pid(pid) => pid is Some,
        _ => false,
    }
}

/// The part of a procedure: before its look, or after it.
#[derive(Clone, Copy, Debug, PartialEq, Eq, Structural)]
pub enum Part {
    First,
    Second(bool),
}

/// Where a procedure stands.
#[derive(Clone, Copy, Debug, PartialEq, Eq, Structural)]
pub struct Cursor {
    pub part: Part,
    pub at: usize,
}

/// Where a procedure begins.
#[verifier::allow_in_spec]
pub fn beginning() -> Cursor
    returns
        (Cursor { part: Part::First, at: 0 }),
{
    Cursor { part: Part::First, at: 0 }
}

/// What a procedure does next.
#[derive(Debug, PartialEq, Eq)]
pub enum Progress {
    Go(Cursor),
    Failed(Fault),
}

/// The check that a procedure waits for; none when it has ended.
pub fn pending<'a, 'b>(script: &'b [Check<'a>], cursor: Cursor) -> (r: Option<&'b Check<'a>>)
    ensures
        r is None <==> cursor.at >= script@.len(),
        r matches Some(check) ==> *check == script@[cursor.at as int],
{
    if cursor.at < script.len() {
        Some(&script[cursor.at])
    } else {
        None
    }
}

/// What a procedure does after a check.
pub open spec fn progress(check: Check, cursor: Cursor, reply: CheckReply, step: Progress) -> bool {
    match refusal(check, reply) {
        Some(messages) => step matches Progress::Failed(fault) && fault@ == messages,
        None => step == Progress::Go(
            match check.expectation {
                Expectation::Look => Cursor { part: Part::Second(found(reply)), at: 0 },
                _ => Cursor { part: cursor.part, at: (cursor.at + 1) as usize },
            },
        ),
    }
}

/// What a procedure does after a check.
pub fn advance(check: &Check, cursor: Cursor, reply: CheckReply) -> (r: Progress)
    requires
        cursor.at < usize::MAX,
    ensures
        progress(*check, cursor, reply, r),
{
    let further = Progress::Go(Cursor { part: cursor.part, at: cursor.at + 1 });
    match check.expectation {
        Expectation::Never(message) => Progress::Failed(Fault::of(message)),
        Expectation::Done => match reply {
            CheckReply::Done => further,
            CheckReply::Failed(fault) => Progress::Failed(put_behind(check.context, fault)),
            _ => Progress::Failed(misfit_fault()),
        },
        Expectation::Is { value, refusal } => match reply {
            CheckReply::Answer(answer) => if answer == value {
                further
            } else {
                Progress::Failed(Fault::of(refusal))
            },
            CheckReply::Failed(fault) => Progress::Failed(put_behind(check.context, fault)),
            _ => Progress::Failed(misfit_fault()),
        },
        Expectation::Vacant { before, after } => match reply {
            CheckReply::Pid(None) => further,
            CheckReply::Pid(Some(pid)) => Progress::Failed(
                Fault::from_text(join3(before, decimal_text(pid as u64).as_str(), after)),
            ),
            CheckReply::Failed(fault) => Progress::Failed(put_behind(check.context, fault)),
            _ => Progress::Failed(misfit_fault()),
        },
        Expectation::Stopped { active: still, unknown } => match reply {
            CheckReply::Done => further,
            CheckReply::NotStopped { error, active } => match active {
                Ok(false) => further,
                Ok(true) => Progress::Failed(error.within(still)),
                Err(state) => Progress::Failed(
                    error.context(join3(unknown, ": ", state.headline().as_str())),
                ),
            },
            CheckReply::Failed(fault) => Progress::Failed(put_behind(check.context, fault)),
            _ => Progress::Failed(misfit_fault()),
        },
        Expectation::Look => match reply {
            CheckReply::Answer(answer) => Progress::Go(Cursor { part: Part::Second(answer), at: 0 }),
            CheckReply::Pid(Some(_)) => Progress::Go(Cursor { part: Part::Second(true), at: 0 }),
            CheckReply::Pid(None) => Progress::Go(Cursor { part: Part::Second(false), at: 0 }),
            CheckReply::Failed(fault) => Progress::Failed(put_behind(check.context, fault)),
            _ => Progress::Failed(misfit_fault()),
        },
    }
}

/// A failure behind its context.
fn put_behind(context: Option<&str>, fault: Fault) -> (r: Fault)
    ensures
        r@ == placed(context, fault@),
{
    match context {
        Some(c) => fault.within(c),
        None => fault,
    }
}

/// Whether a script makes sure somewhere that no process holds the lock.
pub open spec fn requires_absence(script: Seq<Check>) -> bool {
    exists|i: int|
        0 <= i < script.len() && ((#[trigger] script[i]).operation == ServiceOperation::AwaitAbsence
            || script[i].expectation is Vacant)
}

/// Whether every start stands directly behind a check that no process holds the
/// lock.
pub open spec fn starts_only_when_vacant(script: Seq<Check>, start: ServiceOperation) -> bool {
    forall|i: int|
        0 <= i < script.len() && (#[trigger] script[i]).operation == start ==> i > 0 && script[i
            - 1].expectation is Vacant
}

/// Whether each check of a part holds by its reply.
pub open spec fn all_hold(script: Seq<Check>, replies: Seq<CheckReply>) -> bool {
    replies.len() == script.len() && forall|i: int|
        0 <= i < script.len() ==> refusal(#[trigger] script[i], replies[i]) is None
}

/// Whether a part without a look passes from one place to the next by each
/// reply in turn.
pub open spec fn passes(script: Seq<Check>, at: int, replies: Seq<CheckReply>) -> bool
    decreases replies.len(),
{
    if replies.len() == 0 {
        at == script.len()
    } else {
        0 <= at < script.len() && refusal(script[at], replies[0]) is None && passes(
            script,
            at + 1,
            replies.skip(1),
        )
    }
}

/// A part is through exactly when each of its operations gave what lets the
/// procedure go on: no operation is left out, and none may fail.
pub proof fn law_a_part_passes_only_as_a_whole(script: Seq<Check>, replies: Seq<CheckReply>)
    ensures
        passes(script, 0, replies) <==> all_hold(script, replies),
{
    lemma_passes_from(script, 0, replies);
    assert(script.skip(0) =~= script);
}

proof fn lemma_passes_from(script: Seq<Check>, at: int, replies: Seq<CheckReply>)
    requires
        0 <= at <= script.len(),
    ensures
        passes(script, at, replies) <==> all_hold(script.skip(at), replies),
    decreases replies.len(),
{
    let rest = script.skip(at);
    if replies.len() > 0 {
        let tail = replies.skip(1);
        if at < script.len() {
            lemma_passes_from(script, at + 1, tail);
            let after = script.skip(at + 1);
            assert(rest[0] == script[at]);
            assert forall|i: int| 0 <= i < after.len() implies #[trigger] after[i] == rest[i + 1] by {}
            if all_hold(rest, replies) {
                assert forall|i: int| 0 <= i < after.len() implies refusal(
                    #[trigger] after[i],
                    tail[i],
                ) is None by {
                    assert(refusal(rest[i + 1], replies[i + 1]) is None);
                }
            }
            if refusal(script[at], replies[0]) is None && all_hold(after, tail) {
                assert forall|i: int| 0 <= i < rest.len() implies refusal(
                    #[trigger] rest[i],
                    replies[i],
                ) is None by {
                    if i > 0 {
                        assert(after[i - 1] == rest[i]);
                        assert(refusal(after[i - 1], tail[i - 1]) is None);
                    }
                }
            }
        }
    }
}

} // verus!
