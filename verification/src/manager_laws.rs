//! The commands that the service managers get, what they come to, and which procedure
//! acts on which system.
use vstd::prelude::*;

use crate::cause::stems_from;
use crate::fault::Fault;
use crate::host_path::{HostPath, Platform};
use crate::launchd_service::{
    install_launchd, launchd_activation, launchd_preparation, launchd_restart_unchanged,
    require_no_definitionless_launchd_service, require_restorable_launch_agent,
    require_valid_launch_agent, restore_launchd_after_prepublication_stop, rollback_launchd_install,
    rollback_launchd_uninstall, start_launchd, stop_launchd, stop_launchd_manager,
    uninstall_launchd,
};
use crate::procedure_model::{ran, through, Run};
use crate::service_execution::{
    restore_uninstalled_daemon, rollback_of, script_of, Execution, ExecutionContext, ExecutionWords,
    Judged,
};
use crate::service_install::{definition_was_moved, service_transaction_path, InstallPhase};
use crate::service_operation::{
    create_scheduled_task, launchctl_require_loaded_state, launchctl_start, schtasks,
    schtasks_arguments, systemctl_arguments, systemctl_require, Check, CommandRun, Part,
    SchtasksCommand, ServiceOperation, SystemctlCommand,
};
use crate::service_owner::{validate_uninstall_owner, OwnerLook};
use crate::systemd_service::{
    install_systemd, require_no_definitionless_systemd_service, require_restorable_systemd_unit,
    require_valid_systemd_unit, restore_systemd_after_prepublication_stop, rollback_systemd_install,
    rollback_systemd_uninstall, start_systemd, stop_systemd, stop_systemd_manager,
    systemd_activation, systemd_preparation, systemd_restart_unchanged, uninstall_systemd,
};
use crate::task_service::{
    activate_published_task, after_failed_task_start, checked_regular_file, confirm_restored_task,
    create_from_xml, install_task_phase, optional_bytes, published_task_definition,
    remove_staged_task, require_task_definition_snapshot, restoration_of, restore_scheduled_task,
    restore_uninstall_running_state_locked, rollback_task_scheduler_uninstall, start_task_scheduler,
    stop_task_scheduler, task_preparation, task_scheduler_uninstall_error, uninstall_task_scheduler,
    validate_task_forms, DefinitionSight, TaskInstallFacts, TaskInstallPhase, TaskRestoration,
};
use crate::text::texts;

verus! {

// -- Commands --

/// A command to systemd is one word, or it names the unit last: it starts, stops,
/// enables or disables it, at once where it says so.
pub proof fn law_systemd_gets_the_command_it_is_for(command: SystemctlCommand, r: Vec<String>)
    requires
        call_ensures(systemctl_arguments, (command,), r),
    ensures
        command == SystemctlCommand::DaemonReload <==> r@.len() == 1,
        command == SystemctlCommand::DaemonReload ==> r@[0]@ == "daemon-reload"@,
        r@.len() > 1 ==> r@.last()@ == crate::service_render::SYSTEMD_UNIT_NAME@,
        command == SystemctlCommand::Start ==> r@.len() == 2 && r@[0]@ == "start"@,
        command == SystemctlCommand::Stop ==> r@.len() == 2 && r@[0]@ == "stop"@,
        command == SystemctlCommand::Enable ==> r@.len() == 2 && r@[0]@ == "enable"@,
        command == SystemctlCommand::Disable ==> r@.len() == 2 && r@[0]@ == "disable"@,
        command == SystemctlCommand::EnableNow ==> r@.len() == 3 && r@[0]@ == "enable"@ && r@[1]@
            == "--now"@,
        command == SystemctlCommand::DisableNow ==> r@.len() == 3 && r@[0]@ == "disable"@ && r@[1]@
            == "--now"@,
{
    let words = texts(r@);
    assert(words.len() == r@.len());
    assert(forall|i: int| 0 <= i < r@.len() ==> #[trigger] r@[i]@ == words[i]);
}

/// A command to the scheduler begins with what it does and names the task.
pub proof fn law_the_scheduler_gets_the_command_it_is_for(
    command: SchtasksCommand,
    r: Vec<String>,
)
    requires
        call_ensures(schtasks_arguments, (command,), r),
    ensures
        r@.len() >= 3 && r@[1]@ == "/TN"@ && r@[2]@ == crate::service_render::WINDOWS_TASK_NAME@,
        command == SchtasksCommand::Run ==> r@[0]@ == "/Run"@ && r@.len() == 3,
        command == SchtasksCommand::End ==> r@[0]@ == "/End"@ && r@.len() == 3,
        command == SchtasksCommand::Delete ==> r@[0]@ == "/Delete"@ && r@.last()@ == "/F"@,
        command == SchtasksCommand::Query ==> r@[0]@ == "/Query"@ && r@.len() == 3,
        command == SchtasksCommand::QueryXml ==> r@[0]@ == "/Query"@ && r@.len() == 4
            && r@.last()@ == "/XML"@,
{
    let words = texts(r@);
    assert(words.len() == r@.len());
    assert(forall|i: int| 0 <= i < r@.len() ==> #[trigger] r@[i]@ == words[i]);
}

/// Whether a word is followed by another.
pub open spec fn followed_by(list: Seq<String>, word: Seq<char>, next: Seq<char>) -> bool {
    exists|i: int| 0 <= i < list.len() - 1 && #[trigger] list[i]@ == word && list[i + 1]@ == next
}

/// A task is created under its name, runs its command at logon with limited rights, and
/// replaces another exactly where that is asked for.
pub proof fn law_a_task_is_created_as_asked(
    name: &str,
    task_run: &str,
    replace: bool,
    r: Vec<String>,
)
    requires
        call_ensures(create_scheduled_task, (name, task_run, replace), r),
    ensures
        r@[0]@ == "/Create"@,
        followed_by(r@, "/TN"@, name@),
        followed_by(r@, "/TR"@, task_run@),
        followed_by(r@, "/SC"@, "ONLOGON"@),
        followed_by(r@, "/RL"@, "LIMITED"@),
        replace ==> r@.last()@ == "/F"@ && r@.len() == 11,
        !replace ==> r@.last()@ == "/IT"@ && r@.len() == 10,
{
    let words = texts(r@);
    assert(words.len() == r@.len());
    assert(forall|i: int| 0 <= i < r@.len() ==> #[trigger] r@[i]@ == words[i]);
    assert(r@[1]@ == "/TN"@ && r@[2]@ == name@);
    assert(r@[3]@ == "/TR"@ && r@[4]@ == task_run@);
    assert(r@[5]@ == "/SC"@ && r@[6]@ == "ONLOGON"@);
    assert(r@[7]@ == "/RL"@ && r@[8]@ == "LIMITED"@);
}

/// The staged task is removed under its own name, and a captured task is put back from
/// its file over whatever is there.
pub proof fn law_tasks_are_removed_and_put_back_by_name(
    name: &str,
    path: &HostPath,
    label: &str,
    removal: Vec<String>,
    creation: Result<Vec<String>, Fault>,
)
    requires
        call_ensures(remove_staged_task, (name,), removal),
        call_ensures(create_from_xml, (path, label), creation),
    ensures
        removal@[0]@ == "/Delete"@ && followed_by(removal@, "/TN"@, name@) && removal@.last()@
            == "/F"@,
        creation is Ok <==> path.unicode is Some,
        creation matches Ok(words) ==> words@[0]@ == "/Create"@ && followed_by(
            words@,
            "/TN"@,
            crate::service_render::WINDOWS_TASK_NAME@,
        ) && followed_by(words@, "/XML"@, path.unicode->0@) && words@.last()@ == "/F"@,
{
    assert(texts(removal@).len() == removal@.len());
    assert(forall|i: int| 0 <= i < removal@.len() ==> #[trigger] removal@[i]@ == texts(removal@)[i]);
    assert(removal@[1]@ == "/TN"@ && removal@[2]@ == name@);
    if let Ok(words) = creation {
        assert(texts(words@).len() == words@.len());
        assert(forall|i: int| 0 <= i < words@.len() ==> #[trigger] words@[i]@ == texts(words@)[i]);
        assert(words@[1]@ == "/TN"@);
        assert(words@[2]@ == crate::service_render::WINDOWS_TASK_NAME@);
        assert(words@[3]@ == "/XML"@ && words@[4]@ == path.unicode->0@);
    }
}

/// A required command succeeds exactly if it ran and succeeded; what kept it from
/// running is why it failed.
pub proof fn law_a_required_command_must_succeed(
    action: &str,
    run: CommandRun,
    success: bool,
    stderr: &str,
    stdout: &str,
    a: Result<(), Fault>,
    b: Result<(), Fault>,
)
    requires
        call_ensures(systemctl_require, (action, run), a),
        call_ensures(schtasks, (action, success, stderr, stdout), b),
    ensures
        a is Ok <==> (run matches CommandRun::Ended { success: done, .. } && done),
        b is Ok <==> success,
        run matches CommandRun::NotStarted(error) ==> (a matches Err(fault) && stems_from(
            fault@,
            error@,
        )),
        run matches CommandRun::NotAwaited(error) ==> (a matches Err(fault) && stems_from(
            fault@,
            error@,
        )),
{
}

/// A command to launchd did what it is for exactly if the full listing says so
/// afterwards, whatever its exit status; a start needs both.
pub proof fn law_launchd_is_believed_by_its_listing(
    action: &str,
    expected: bool,
    run: CommandRun,
    loaded: Result<bool, Fault>,
    a: Result<(), Fault>,
    b: Result<(), Fault>,
)
    requires
        call_ensures(launchctl_require_loaded_state, (action, expected, run, loaded), a),
        call_ensures(launchctl_start, (run, loaded), b),
    ensures
        a is Ok <==> run is Ended && loaded == Ok::<bool, Fault>(expected),
        b is Ok <==> (run matches CommandRun::Ended { success, .. } && success) && loaded == Ok::<
            bool,
            Fault,
        >(true),
        run is Ended ==> (loaded matches Err(error) ==> (a matches Err(fault) && stems_from(
            fault@,
            error@,
        ))),
{
}

// -- Procedures --

/// Which procedure acts: the one of the system and of what is to be done, for a
/// definition that is there or is missing.
pub proof fn law_each_system_has_its_procedure<'a>(
    platform: Platform,
    execution: Execution,
    judged: &Judged,
    words: ExecutionWords<'a>,
    part: Part,
    r: Vec<Check<'a>>,
    a: Vec<Check<'static>>,
    t: Vec<Check<'a>>,
    running: bool,
)
    requires
        call_ensures(script_of, (platform, execution, judged, words, part), r),
        running == (match *judged {
            Judged::File { running: runs, .. } => runs,
            _ => false,
        }),
    ensures
        platform == Platform::Linux && execution == Execution::Start && call_ensures(
            start_systemd,
            (!(*judged is Missing),),
            a,
        ) ==> r@ == a@,
        platform == Platform::Linux && execution == Execution::Stop && call_ensures(
            stop_systemd,
            (!(*judged is Missing), part),
            a,
        ) ==> r@ == a@,
        platform == Platform::Linux && execution == Execution::StopManager && call_ensures(
            stop_systemd_manager,
            (!(*judged is Missing), part),
            a,
        ) ==> r@ == a@,
        platform == Platform::Linux && execution == Execution::Uninstall && call_ensures(
            uninstall_systemd,
            (!(*judged is Missing),),
            a,
        ) ==> r@ == a@,
        platform == Platform::MacOs && execution == Execution::Start && call_ensures(
            start_launchd,
            (!(*judged is Missing), part),
            a,
        ) ==> r@ == a@,
        platform == Platform::MacOs && execution == Execution::Stop && call_ensures(
            stop_launchd,
            (!(*judged is Missing), part),
            a,
        ) ==> r@ == a@,
        platform == Platform::MacOs && execution == Execution::StopManager && call_ensures(
            stop_launchd_manager,
            (!(*judged is Missing), part),
            a,
        ) ==> r@ == a@,
        platform == Platform::MacOs && execution == Execution::Uninstall && call_ensures(
            uninstall_launchd,
            (!(*judged is Missing), running),
            a,
        ) ==> r@ == a@,
        platform == Platform::Windows && execution == Execution::Start && call_ensures(
            start_task_scheduler,
            (),
            a,
        ) ==> r@ == a@,
        platform == Platform::Windows && execution == Execution::Stop && call_ensures(
            stop_task_scheduler,
            (),
            a,
        ) ==> r@ == a@,
        platform == Platform::Windows && execution == Execution::Uninstall && call_ensures(
            uninstall_task_scheduler,
            (!(*judged is Missing), words.reading, words.changed, words.remains),
            t,
        ) ==> r@ == t@,
{
}

/// An uninstallation is taken back by the procedure of the system, to what was judged
/// before it.
pub proof fn law_each_system_has_its_rollback<'a>(
    context: &ExecutionContext,
    judged: &Judged,
    away: bool,
    words: ExecutionWords<'a>,
    part: Part,
    r: Vec<Check<'a>>,
    a: Vec<Check<'a>>,
    runs: bool,
    on: bool,
)
    requires
        call_ensures(rollback_of, (context, judged, away, words, part), r),
        *judged matches Judged::File { running, enabled, .. } ==> running == runs && enabled == on,
    ensures
        *judged is File && context.platform == Platform::Linux && call_ensures(
            rollback_systemd_uninstall,
            (away, on, runs, words.restoring, part),
            a,
        ) ==> r@ == a@,
        *judged is File && context.platform == Platform::MacOs && call_ensures(
            rollback_launchd_uninstall,
            (away, runs, words.restoring, part),
            a,
        ) ==> r@ == a@,
        context.platform == Platform::Windows && call_ensures(
            rollback_task_scheduler_uninstall,
            (!away, context.was_running, words.rereading, words.changed_since, part),
            a,
        ) ==> r@ == a@,
{
}

/// The daemon of a task that could not be uninstalled is brought back exactly by who
/// owns the task.
pub proof fn law_only_the_owner_brings_the_daemon_back(
    expected: &HostPath,
    look: OwnerLook,
    was_running: bool,
    owner: Result<(), Fault>,
    first: Vec<Check<'static>>,
    r: Result<Vec<Check<'static>>, Fault>,
)
    requires
        call_ensures(restore_uninstalled_daemon, (expected, look, was_running), r),
        call_ensures(validate_uninstall_owner, (expected, look), owner),
        call_ensures(restore_uninstall_running_state_locked, (was_running, Part::First), first),
    ensures
        r is Ok <==> owner is Ok,
        r matches Ok(script) ==> script@ == first@,
        owner matches Err(error) ==> (r matches Err(fault) && fault@ == error@),
{
}

/// Each phase of an installation runs its own procedure; publishing and committing run
/// none.
pub proof fn law_each_phase_has_its_procedure<'a>(
    phase: &InstallPhase,
    was_enabled: bool,
    was_running: bool,
    replaced: bool,
    restoring: &'a str,
    part: Part,
    unit: Vec<Check<'static>>,
    agent: Vec<Check<'a>>,
    a: Vec<Check<'static>>,
    b: Vec<Check<'a>>,
)
    requires
        call_ensures(install_systemd, (phase, was_enabled, was_running, replaced, part), unit),
        call_ensures(install_launchd, (phase, was_running, restoring, part), agent),
    ensures
        *phase is Publish || *phase is Commit ==> unit@.len() == 0 && agent@.len() == 0,
        *phase is Prepare && call_ensures(systemd_preparation, (was_running,), a) ==> unit@ == a@,
        *phase is Prepare && call_ensures(launchd_preparation, (was_running,), a) ==> agent@ == a@,
        *phase is Activate && call_ensures(systemd_activation, (), a) ==> unit@ == a@,
        *phase is Activate && call_ensures(launchd_activation, (), a) ==> agent@ == a@,
        *phase is RestartUnchanged && call_ensures(systemd_restart_unchanged, (), a) ==> unit@
            == a@,
        *phase is RestartUnchanged && call_ensures(launchd_restart_unchanged, (), a) ==> agent@
            == a@,
        *phase is RestorePrepared && call_ensures(
            restore_systemd_after_prepublication_stop,
            (was_enabled, was_running, part),
            a,
        ) ==> unit@ == a@,
        *phase is RestorePrepared && call_ensures(
            restore_launchd_after_prepublication_stop,
            (was_running, part),
            a,
        ) ==> agent@ == a@,
        *phase is RollBack && call_ensures(
            rollback_systemd_install,
            (was_enabled, was_running, replaced),
            a,
        ) ==> unit@ == a@,
        *phase is RollBack && call_ensures(
            rollback_launchd_install,
            (was_running, restoring, part),
            b,
        ) ==> agent@ == b@,
{
}

/// Each phase of a task's installation does its own work: a task is staged and unstaged,
/// what runs is stopped, the task is created over the one that was there, looked at and
/// activated, and every failure restores what was captured.
pub proof fn law_each_task_phase_has_its_procedure(
    facts: &TaskInstallFacts,
    phase: &TaskInstallPhase,
    part: Part,
    r: Result<Vec<Check<'static>>, Fault>,
    a: Vec<Check<'static>>,
    restoration: TaskRestoration,
)
    requires
        call_ensures(install_task_phase, (facts, phase, part), r),
    ensures
        *phase is Stage ==> (r matches Ok(script) && script@.len() == 1 && script@[0].operation
            == ServiceOperation::CreateStagedTask),
        *phase is Unstage ==> (r matches Ok(script) && script@.len() == 1 && script@[0].operation
            == ServiceOperation::DeleteStagedTask),
        *phase is Prepare && call_ensures(task_preparation, (facts.previous is Some,), a) ==> (r
            matches Ok(script) && script@ == a@),
        *phase is Create ==> (r matches Ok(script) && script@.len() == 1 && script@[0].operation
            == (ServiceOperation::CreateTask { replace: facts.previous is Some })),
        *phase is Inspect ==> (r matches Ok(script) && script@.len() == 1 && script@[0].operation
            == ServiceOperation::InspectTask),
        *phase is RestorePrepared ==> r is Ok,
        *phase is RollBack ==> r is Ok,
        *phase is RollBack && restoration.previous_present == (facts.previous is Some)
            && restoration.xml_captured == (facts.previous is Some) && restoration.executable_known
            == (facts.previous is Some) && restoration.was_running == facts.was_running
            && restoration.current_present == (facts.current is Some) && restoration.unchanged == (
        match (facts.current, facts.previous) {
            (Some((now, _)), Some((before, _))) => now@ == before@,
            (None, None) => true,
            _ => false,
        }) && call_ensures(restore_scheduled_task, (restoration, part), a) ==> (r matches Ok(script)
            && script@ == a@),
{
}

/// A published task is activated exactly if both of its forms are owned.
pub proof fn law_only_an_owned_task_is_activated(
    definition: &[u8],
    xml: &[u8],
    expected: &HostPath,
    forms: Result<(), Fault>,
    a: Result<(), Fault>,
    b: Result<(), Fault>,
    r: Result<Vec<Check<'static>>, Fault>,
)
    requires
        call_ensures(validate_task_forms, (definition, xml, expected), forms),
        call_ensures(
            crate::service_owner::validate_task_scheduler_definition_owner,
            (definition, expected),
            a,
        ),
        call_ensures(
            crate::service_owner::validate_task_scheduler_definition_owner,
            (xml, expected),
            b,
        ),
        call_ensures(activate_published_task, (definition, xml, expected), r),
    ensures
        forms is Ok <==> a is Ok && b is Ok,
        r is Ok <==> forms is Ok,
        r matches Ok(script) ==> script@.len() > 0,
{
}

// -- Definitions --

/// What a restoration goes by is told by the two forms alone.
pub proof fn law_a_restoration_goes_by_what_is_there(
    current: Option<&[u8]>,
    previous: Option<&[u8]>,
    xml_captured: bool,
    was_running: bool,
    executable_known: bool,
    r: TaskRestoration,
)
    requires
        call_ensures(
            restoration_of,
            (current, previous, xml_captured, was_running, executable_known),
            r,
        ),
    ensures
        r.unchanged <==> optional_bytes(current) == optional_bytes(previous),
        r.current_present <==> current is Some,
        r.previous_present <==> previous is Some,
        r.xml_captured == xml_captured && r.was_running == was_running && r.executable_known
            == executable_known,
{
}

/// A restored task is confirmed exactly if its file is there, and the captured one where
/// nothing was replaced; a published one must be there; and a task stays exactly as it
/// was captured.
pub proof fn law_a_restored_task_is_confirmed(
    path: &str,
    unchanged: bool,
    current: Option<&[u8]>,
    previous: Option<&[u8]>,
    definition: Option<Vec<u8>>,
    a: Result<(), Fault>,
    b: Result<(), Fault>,
    c: Result<Vec<u8>, Fault>,
)
    requires
        call_ensures(confirm_restored_task, (path, unchanged, current, previous), a),
        call_ensures(require_task_definition_snapshot, (path, current, previous), b),
        call_ensures(published_task_definition, (path, definition), c),
    ensures
        a is Ok <==> current is Some && (unchanged ==> optional_bytes(current) == optional_bytes(
            previous,
        )),
        b is Ok <==> optional_bytes(current) == optional_bytes(previous),
        c is Ok <==> definition is Some,
        c matches Ok(bytes) ==> definition == Some(bytes),
{
}

/// There is a definition exactly where there is a regular file, and none exactly where
/// nothing is.
pub proof fn law_only_a_regular_file_is_a_definition(
    path: &str,
    description: &str,
    sight: DefinitionSight,
    r: Result<bool, Fault>,
)
    requires
        call_ensures(checked_regular_file, (path, description, sight), r),
    ensures
        r == Ok::<bool, Fault>(true) <==> sight is File,
        r == Ok::<bool, Fault>(false) <==> sight is Missing,
        sight matches DefinitionSight::Unknown(error) ==> (r matches Err(fault) && stems_from(
            fault@,
            error@,
        )),
{
}

/// What is published must have passed validation, and what is replaced must be one that
/// can be restored.
pub proof fn law_only_what_is_valid_and_restorable_passes(
    valid: bool,
    detail: &str,
    path: &str,
    defined: bool,
    active: bool,
    enabled: bool,
    a: Result<(), Fault>,
    b: Result<(), Fault>,
    c: Result<(), Fault>,
    d: Result<(), Fault>,
)
    requires
        call_ensures(require_valid_systemd_unit, (valid, detail), a),
        call_ensures(require_valid_launch_agent, (valid, detail), b),
        call_ensures(require_restorable_systemd_unit, (path, defined, active, enabled), c),
        call_ensures(require_restorable_launch_agent, (path, defined, active), d),
    ensures
        a is Ok <==> valid,
        b is Ok <==> valid,
        c is Ok <==> defined || (!active && !enabled),
        d is Ok <==> defined || !active,
{
}

/// Where there is no definition, the procedure that makes sure of it passes exactly if
/// the manager knows no service either.
#[verifier::rlimit(60)]
pub proof fn law_no_service_runs_without_a_definition(
    unit: Vec<Check<'static>>,
    agent: Vec<Check<'static>>,
    run: Run,
)
    requires
        call_ensures(require_no_definitionless_systemd_service, (), unit),
        call_ensures(require_no_definitionless_launchd_service, (), agent),
    ensures
        ran(run, unit@, unit@.len() as int) ==> (through(run, unit@, unit@.len() as int) <==> !(
        run.scenes[0].runs) && !run.scenes[0].enabled),
        ran(run, agent@, agent@.len() as int) ==> (through(run, agent@, agent@.len() as int)
            <==> !run.scenes[0].runs),
{
    reveal_with_fuel(ran, 4);
    reveal_with_fuel(through, 4);
}

/// A file beside a definition lies in its directory under a hidden name that no other
/// suffix has.
pub proof fn law_files_beside_a_definition_are_told_apart(
    path: &HostPath,
    suffix: &str,
    other: &str,
    a: Result<String, Fault>,
    b: Result<String, Fault>,
)
    requires
        call_ensures(service_transaction_path, (path, suffix), a),
        call_ensures(service_transaction_path, (path, other), b),
    ensures
        a is Ok <==> path.parent is Some && path.file_name is Some,
        a matches Ok(text) ==> text@.take(path.parent->0@.len() as int) == path.parent->0@
            && text@.skip(text@.len() - ("."@ + path.file_name->0@ + suffix@).len()) == "."@
            + path.file_name->0@ + suffix@,
        a is Ok && b is Ok && a->Ok_0@ == b->Ok_0@ ==> suffix@ == other@,
{
    if let Ok(text) = a {
        let leaf = "."@ + path.file_name->0@ + suffix@;
        assert(text@.take(path.parent->0@.len() as int) =~= path.parent->0@);
        assert(text@.skip(text@.len() - leaf.len()) =~= leaf);
        if let Ok(second) = b {
            let leaf2 = "."@ + path.file_name->0@ + other@;
            if text@ == second@ {
                assert(leaf.len() == leaf2.len());
                assert(second@.skip(second@.len() - leaf2.len()) =~= leaf2);
                let n = ("."@ + path.file_name->0@).len() as int;
                assert(leaf.skip(n) =~= suffix@);
                assert(leaf2.skip(n) =~= other@);
            }
        }
    }
}

/// A definition was moved away exactly if the procedure got past the operation that
/// moves it.
pub proof fn law_a_moved_definition_is_known(script: &[Check], at: usize, r: bool)
    requires
        call_ensures(definition_was_moved, (script, at), r),
    ensures
        r <==> exists|i: int|
            0 <= i < at && i < script@.len() && (#[trigger] script@[i]).operation
                == ServiceOperation::MoveAway,
{
}

/// What starting or removing a task failed with stays what it failed with.
pub proof fn law_a_failed_task_keeps_its_cause(
    error: Fault,
    outcome: Result<(), Fault>,
    a: Fault,
    b: Fault,
)
    requires
        call_ensures(after_failed_task_start, (error, outcome), a),
        call_ensures(task_scheduler_uninstall_error, (error, outcome), b),
    ensures
        stems_from(a@, error@) && a@.len() == error@.len() + 1,
        stems_from(b@, error@) && b@.len() == error@.len() + 1,
{
}

} // verus!
