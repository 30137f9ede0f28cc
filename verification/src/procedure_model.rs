//! A model of what the service procedures act on: what the service manager says of
//! the service, which definition is in place, and who holds the daemon's lock.
use vstd::prelude::*;

use crate::service_operation::{
    refusal, Check, CheckReply, SchtasksCommand, ServiceOperation, SystemctlCommand, TaskState,
};

verus! {

/// A definition of the service.
pub enum Form {
    Missing,
    /// The one that was captured before anything was changed.
    Previous,
    /// The one of the new executable.
    Published,
}

/// Who holds the daemon's lock.
pub enum Holder {
    Nobody,
    /// A daemon of the previous executable.
    Previous,
    /// A daemon of the new executable.
    New,
    /// A daemon that the manager did not start.
    Stranger,
}

/// What a procedure acts on.
pub struct Scene {
    /// Whether the manager says that the service runs: that its unit is active, or its
    /// agent loaded.
    pub runs: bool,
    /// Whether the manager starts the service by itself.
    pub enabled: bool,
    pub holder: Holder,
    /// The definition that is in place.
    pub definition: Form,
    /// The definition that the manager goes by.
    pub known: Form,
}

/// The daemon that a definition starts.
pub open spec fn started(form: Form) -> Holder {
    match form {
        Form::Missing => Holder::Nobody,
        Form::Previous => Holder::Previous,
        Form::Published => Holder::New,
    }
}

/// Whether a form is the one that a task must have.
pub open spec fn in_state(prior: Form, form: Form, state: TaskState) -> bool {
    match state {
        TaskState::Current => true,
        TaskState::Previous => form == prior,
        TaskState::Published => form is Published,
        TaskState::Absent => form is Missing,
    }
}

/// Whether a reply says that an operation succeeded exactly if something held.
pub open spec fn done_if(held: bool, reply: CheckReply) -> bool {
    if held {
        reply is Done
    } else {
        reply is Failed
    }
}

/// Whether an operation that only looks gave what is the case. The others are left
/// open.
pub open spec fn seen(
    prior: Form,
    operation: ServiceOperation,
    scene: Scene,
    reply: CheckReply,
) -> bool {
    match operation {
        ServiceOperation::AskActive => reply == CheckReply::Answer(scene.runs),
        ServiceOperation::AskLoaded => reply == CheckReply::Answer(scene.runs),
        ServiceOperation::AskEnabled => reply == CheckReply::Answer(scene.enabled),
        ServiceOperation::RunningPid => reply matches CheckReply::Pid(pid) && (pid is Some) == !(
        scene.holder is Nobody),
        ServiceOperation::AwaitAbsence => done_if(scene.holder is Nobody, reply),
        ServiceOperation::AwaitPresence => done_if(scene.holder is New, reply),
        ServiceOperation::AwaitPreviousPresence => done_if(scene.holder is Previous, reply),
        ServiceOperation::RequirePreviousIdentity => done_if(scene.holder is Previous, reply),
        ServiceOperation::RequireTaskFile(state) => done_if(
            in_state(prior, scene.definition, state),
            reply,
        ),
        ServiceOperation::RequireTaskXml(state) => done_if(
            in_state(prior, scene.known, state),
            reply,
        ),
        ServiceOperation::AskTaskXml => reply == CheckReply::Answer(scene.known is Previous),
        ServiceOperation::AskTaskFileUnchanged => reply == CheckReply::Answer(
            scene.definition is Previous,
        ),
        ServiceOperation::AskTaskFile => reply == CheckReply::Answer(
            !(scene.definition is Missing),
        ),
        ServiceOperation::ConfirmTaskFile => done_if(!(scene.definition is Missing), reply),
        _ => true,
    }
}

/// Whether an operation only looks.
pub open spec fn only_looks(operation: ServiceOperation) -> bool {
    match operation {
        ServiceOperation::Nothing => true,
        ServiceOperation::RequireUnchanged => true,
        ServiceOperation::AskActive => true,
        ServiceOperation::AskLoaded => true,
        ServiceOperation::AskEnabled => true,
        ServiceOperation::RunningPid => true,
        ServiceOperation::AwaitAbsence => true,
        ServiceOperation::AwaitPresence => true,
        ServiceOperation::AwaitPreviousPresence => true,
        ServiceOperation::RequirePreviousIdentity => true,
        ServiceOperation::RequireTaskFile(_) => true,
        ServiceOperation::RequireTaskXml(_) => true,
        ServiceOperation::AskTaskXml => true,
        ServiceOperation::AskTaskFileUnchanged => true,
        ServiceOperation::AskTaskFile => true,
        ServiceOperation::ConfirmTaskFile => true,
        ServiceOperation::InspectTask => true,
        ServiceOperation::Schtasks(SchtasksCommand::Query) => true,
        ServiceOperation::Schtasks(SchtasksCommand::QueryXml) => true,
        _ => false,
    }
}

/// What an operation on the definition's file leaves of it where it succeeds.
pub open spec fn filed(operation: ServiceOperation, prior: Form) -> Option<Form> {
    match operation {
        ServiceOperation::RollBackPublication => Some(prior),
        ServiceOperation::RollBackRemoval => Some(prior),
        ServiceOperation::MoveAway => Some(Form::Missing),
        ServiceOperation::CommitRemoval => Some(Form::Missing),
        _ => None,
    }
}

/// What an operation may give and leave, whatever the manager does with the commands
/// that it gets: what is looked at is the case, what is confirmed of a load or a stop
/// is the case, and what is done to a file is done.
pub open spec fn truthful(
    prior: Form,
    operation: ServiceOperation,
    before: Scene,
    after: Scene,
    reply: CheckReply,
) -> bool {
    &&& seen(prior, operation, before, reply)
    &&& only_looks(operation) ==> after == before
    &&& operation == ServiceOperation::RequireUnchanged ==> done_if(
        before.definition == prior,
        reply,
    )
    &&& filed(operation, prior) matches Some(form) ==> (reply is Done ==> after == (Scene {
        definition: form,
        ..before
    }))
    &&& operation == ServiceOperation::Systemctl(SystemctlCommand::DaemonReload) ==> after.runs
        == before.runs && after.enabled == before.enabled && after.holder == before.holder
    &&& operation == ServiceOperation::Load && reply is Done ==> after.runs
    &&& operation == ServiceOperation::Unload && reply is Done ==> !after.runs
    &&& operation == ServiceOperation::StopUnit ==> (reply matches CheckReply::NotStopped {
        active: Ok(active),
        ..
    } ==> active == after.runs)
    &&& operation == ServiceOperation::StopScheduledDaemon && reply is Done
        ==> after.holder is Nobody
    &&& filed(operation, prior) is None && !acts_on_task(operation) ==> after.definition
        == before.definition
}

/// Whether an operation replaces or removes the scheduled task.
pub open spec fn acts_on_task(operation: ServiceOperation) -> bool {
    match operation {
        ServiceOperation::CreateTask { .. } => true,
        ServiceOperation::CreateFromXml => true,
        ServiceOperation::Schtasks(SchtasksCommand::Delete) => true,
        _ => false,
    }
}

/// A start by the manager: what runs goes on, and what does not is started where
/// nobody holds the lock and there is a definition.
pub open spec fn startable(scene: Scene, form: Form) -> bool {
    scene.runs || (scene.holder is Nobody && !(form is Missing))
}

/// The scene after a start.
pub open spec fn running(scene: Scene, form: Form) -> Scene {
    if scene.runs && !(scene.holder is Nobody) {
        scene
    } else {
        Scene { runs: true, holder: started(form), known: form, ..scene }
    }
}

/// The scene after a stop.
pub open spec fn stilled(scene: Scene) -> Scene {
    Scene {
        runs: false,
        holder: if scene.runs {
            Holder::Nobody
        } else {
            scene.holder
        },
        ..scene
    }
}

/// What an operation gives and leaves where the manager does what it is told.
pub open spec fn obeyed(
    prior: Form,
    operation: ServiceOperation,
    before: Scene,
    after: Scene,
    reply: CheckReply,
) -> bool {
    &&& truthful(prior, operation, before, after, reply)
    &&& match operation {
        ServiceOperation::Systemctl(SystemctlCommand::DaemonReload) => after == (Scene {
            known: before.definition,
            ..before
        }) && reply is Done,
        ServiceOperation::Systemctl(SystemctlCommand::Start) => if startable(before, before.known) {
            after == running(before, before.known) && reply is Done
        } else {
            after == before && reply is Failed
        },
        ServiceOperation::Systemctl(SystemctlCommand::Stop) => after == stilled(before)
            && reply is Done,
        ServiceOperation::Systemctl(SystemctlCommand::Enable) => after == (Scene {
            enabled: true,
            ..before
        }) && reply is Done,
        ServiceOperation::Systemctl(SystemctlCommand::Disable) => after == (Scene {
            enabled: false,
            ..before
        }) && reply is Done,
        ServiceOperation::Systemctl(SystemctlCommand::EnableNow) => if startable(
            before,
            before.known,
        ) {
            after == (Scene { enabled: true, ..running(before, before.known) }) && reply is Done
        } else {
            after == before && reply is Failed
        },
        ServiceOperation::Systemctl(SystemctlCommand::DisableNow) => after == (Scene {
            enabled: false,
            ..stilled(before)
        }) && reply is Done,
        ServiceOperation::StopUnit => after == stilled(before) && reply is Done,
        ServiceOperation::Load => if startable(before, before.definition) {
            after == running(before, before.definition) && reply is Done
        } else {
            after == before && reply is Failed
        },
        ServiceOperation::StartLoaded => if before.runs {
            after == running(before, before.known) && reply is Done
        } else {
            after == before && reply is Failed
        },
        ServiceOperation::Unload => after == stilled(before) && reply is Done,
        ServiceOperation::Schtasks(SchtasksCommand::Run) => if startable(before, before.known) {
            after == running(before, before.known) && reply is Done
        } else {
            after == before && reply is Failed
        },
        ServiceOperation::Schtasks(SchtasksCommand::End) => after == stilled(before)
            && reply is Done,
        ServiceOperation::Schtasks(SchtasksCommand::Delete) => after == (Scene {
            definition: Form::Missing,
            known: Form::Missing,
            ..before
        }) && reply is Done,
        ServiceOperation::Schtasks(SchtasksCommand::Query) => done_if(
            !(before.known is Missing),
            reply,
        ),
        ServiceOperation::StopScheduledDaemon => after == (Scene {
            runs: false,
            holder: Holder::Nobody,
            ..before
        }) && reply is Done,
        ServiceOperation::CreateFromXml => after == (Scene {
            definition: Form::Previous,
            known: Form::Previous,
            ..before
        }) && reply is Done,
        ServiceOperation::RollBackPublication => reply is Done,
        ServiceOperation::RollBackRemoval => reply is Done,
        ServiceOperation::MoveAway => reply is Done,
        ServiceOperation::CommitRemoval => reply is Done,
        _ => true,
    }
}

/// A run of the first checks of a script, with what each operation gave and left.
pub struct Run {
    pub prior: Form,
    pub scenes: Seq<Scene>,
    pub replies: Seq<CheckReply>,
}

/// Whether the first checks of a script ran truthfully.
pub open spec fn ran(run: Run, script: Seq<Check>, n: int) -> bool
    decreases n,
{
    n <= 0 || (ran(run, script, n - 1) && truthful(
        run.prior,
        script[n - 1].operation,
        run.scenes[n - 1],
        run.scenes[n],
        run.replies[n - 1],
    ))
}

/// Whether the first checks of a script ran with a manager that did what it was told.
pub open spec fn ran_obeyed(run: Run, script: Seq<Check>, n: int) -> bool
    decreases n,
{
    n <= 0 || (ran_obeyed(run, script, n - 1) && obeyed(
        run.prior,
        script[n - 1].operation,
        run.scenes[n - 1],
        run.scenes[n],
        run.replies[n - 1],
    ))
}

/// Whether the first checks of a script all let the procedure go on.
pub open spec fn through(run: Run, script: Seq<Check>, n: int) -> bool
    decreases n,
{
    n <= 0 || (through(run, script, n - 1) && refusal(script[n - 1], run.replies[n - 1]) is None)
}

/// Whether a script ran truthfully and passed.
pub open spec fn passed(run: Run, script: Seq<Check>) -> bool {
    ran(run, script, script.len() as int) && through(run, script, script.len() as int)
}

/// The scene in which a script ended.
pub open spec fn end(run: Run, script: Seq<Check>) -> Scene {
    run.scenes[script.len() as int]
}

} // verus!
