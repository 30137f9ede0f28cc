use codex_switch_daemon::definition_read::{
    begin_definition_snapshot, definition_snapshot, DefinitionKind, ReadReply, ReadStage, ReadStep,
};
use codex_switch_daemon::fault::Fault;
use codex_switch_daemon::fs_ops::{token_for_file, FileSnapshot, FileToken};
use codex_switch_daemon::host_path::{HostPath, PathComponent, Platform};
use codex_switch_daemon::launchd_service::restoring_launch_agent;
use codex_switch_daemon::service_installed::{
    begin_is_installed_checked, is_installed_checked, InstalledReply, InstalledStage,
    InstalledStep,
};
use codex_switch_daemon::service_operation::{
    advance, beginning, pending, Check, CheckReply, Cursor, Expectation, Part, Progress,
    SchtasksCommand, ServiceOperation, TaskState,
};
use codex_switch_daemon::scheduled_stop::{
    stop_scheduled_daemon_for_rollback, RollbackStopReply, RollbackStopStage, RollbackStopStep,
};
use codex_switch_daemon::service_capture::{
    begin_capture, capture_service_state_snapshot, CaptureReply, CaptureStage, CaptureStep,
};
use codex_switch_daemon::service_render::{task_scheduler_command, WINDOWS_TASK_NAME};
use codex_switch_daemon::service_state::{require_task_xml_snapshot, ServiceDefinition};
use codex_switch_daemon::settlement::DaemonGeneration;
use codex_switch_daemon::systemd_service::restoring_systemd_definition;
use codex_switch_daemon::task_service::{
    activate_published_task, admit_task_installation, confirm_restored_task, create_from_xml,
    install_task_phase, install_task_scheduler, published_task_definition, remove_staged_task,
    restoration_of, restore_after_uncertain_task_publication, restore_scheduled_task,
    restore_uninstall_running_state_locked, rollback_task_scheduler_uninstall,
    running_instance_query_failure, stop_task_scheduler, task_activation, task_preparation,
    task_removal_texts, task_scheduler_uninstall_error, uninstall_task_scheduler,
    validate_task_forms, DefinitionSight, TaskInstallFacts, TaskInstallPhase, TaskInstallStep,
};

const EXECUTABLE: &str = r"C:\Program Files\codex-switch-global-pace.exe";
const FILE: &str = r"C:\Windows\System32\Tasks\codex-switch-global-pace-daemon";

fn windows_path(path: &str) -> HostPath {
    let mut components = vec![PathComponent::Prefix, PathComponent::Root];
    for name in path.split('\\').skip(1) {
        components.push(PathComponent::Normal(name.to_string()));
    }
    HostPath {
        unicode: Some(path.to_string()),
        display: path.to_string(),
        absolute: true,
        components,
        parent: path.rsplit_once('\\').map(|(parent, _)| parent.to_string()),
        file_name: path.rsplit('\\').next().map(str::to_string),
    }
}

fn task_of(executable: &str) -> Vec<u8> {
    let command = task_scheduler_command(
        &windows_path(executable),
        &windows_path(r"C:\Users\A\.codex"),
        &windows_path(r"C:\Users\A\.codex-switch"),
    )
    .unwrap();
    let arguments = command
        .strip_prefix("cmd.exe ")
        .unwrap()
        .replace('&', "&amp;")
        .replace('"', "&quot;");
    format!(
        "<Task><Actions><Exec><Command>cmd.exe</Command><Arguments>{arguments}</Arguments></Exec></Actions></Task>"
    )
    .into_bytes()
}

fn token_of(contents: &[u8]) -> FileToken {
    let snapshot = FileSnapshot {
        identity_high: 1,
        identity_low: 2,
        length: contents.len() as u64,
        changed_high: 3,
        changed_low: 4,
    };
    token_for_file(snapshot, contents, snapshot).unwrap()
}

fn operations(script: &[Check]) -> Vec<ServiceOperation> {
    script.iter().map(|check| check.operation).collect()
}

/// Carries a procedure out with replies that let it pass.
fn pass(script: impl Fn(Part) -> Vec<Check<'static>>, running: bool) -> Vec<ServiceOperation> {
    let mut cursor: Cursor = beginning();
    let mut done = Vec::new();
    loop {
        let checks = script(cursor.part);
        let Some(check) = pending(&checks, cursor) else {
            return done;
        };
        done.push(check.operation);
        let reply = match (check.expectation, check.operation) {
            (Expectation::Is { value, .. }, _) => CheckReply::Answer(value),
            (Expectation::Vacant { .. }, _) => CheckReply::Pid(None),
            (Expectation::Look, ServiceOperation::RunningPid) => {
                CheckReply::Pid(if running { Some(7) } else { None })
            }
            (Expectation::Look, _) => CheckReply::Answer(running),
            _ => CheckReply::Done,
        };
        match advance(check, cursor, reply) {
            Progress::Go(next) => cursor = next,
            Progress::Failed(fault) => panic!("{}", fault.detail()),
        }
    }
}

#[test]
fn both_forms_of_a_task_are_owned_by_its_executable() {
    let mine = task_of(EXECUTABLE);
    let other = task_of(r"C:\Other\codex-switch-global-pace.exe");
    let expected = windows_path(EXECUTABLE);
    validate_task_forms(&mine, &mine, &expected).unwrap();
    assert!(validate_task_forms(&other, &mine, &expected).is_err());
    assert!(validate_task_forms(&mine, &other, &expected).is_err());
}

#[test]
fn a_task_is_installed_only_where_it_can_be_restored() {
    let mine = task_of(EXECUTABLE);
    let expected = windows_path(EXECUTABLE);
    let forms = Some((mine.as_slice(), mine.as_slice()));
    assert!(admit_task_installation(forms, &expected, false, Ok(Some(5))).unwrap());
    assert!(!admit_task_installation(forms, &expected, false, Ok(None)).unwrap());
    assert!(!admit_task_installation(None, &expected, false, Ok(None)).unwrap());
    assert_eq!(
        admit_task_installation(None, &expected, true, Ok(None))
            .unwrap_err()
            .headline(),
        "an existing scheduled task was required for executable migration, but no definition is installed"
    );
    assert_eq!(
        admit_task_installation(None, &expected, false, Ok(Some(5)))
            .unwrap_err()
            .headline(),
        "a detached daemon is running without an installed scheduled task; stop it before installing the service"
    );
    assert_eq!(
        admit_task_installation(forms, &expected, false, Err(Fault::of("locked")))
            .unwrap_err()
            .detail(),
        "checking the existing daemon PID lock before scheduled-task installation: locked"
    );
}

#[test]
fn an_installation_goes_through_its_phases() {
    let mut phase = TaskInstallPhase::Stage;
    let mut entered = Vec::new();
    loop {
        match install_task_scheduler("staged", true, phase, Ok(())) {
            TaskInstallStep::Enter(next) => {
                entered.push(format!("{next:?}"));
                phase = next;
            }
            TaskInstallStep::Finished(outcome) => {
                outcome.unwrap();
                break;
            }
        }
    }
    assert_eq!(entered, ["Unstage", "Prepare", "Create", "Inspect", "Activate"]);
    assert_eq!(
        remove_staged_task("staged"),
        ["/Delete", "/TN", "staged", "/F"]
    );
}

#[test]
fn an_existing_task_is_stopped_before_it_is_replaced() {
    assert_eq!(
        operations(&task_preparation(true)),
        [
            ServiceOperation::StopScheduledDaemon,
            ServiceOperation::RequireTaskFile(TaskState::Previous),
            ServiceOperation::RequireTaskXml(TaskState::Previous),
        ]
    );
    assert_eq!(task_preparation(false).len(), 2);
    assert_eq!(
        operations(&task_activation())[2..4],
        [
            ServiceOperation::Schtasks(SchtasksCommand::Run),
            ServiceOperation::AwaitPresence,
        ]
    );
}

#[test]
fn a_published_task_is_started_only_for_its_owner() {
    let mine = task_of(EXECUTABLE);
    let other = task_of(r"C:\Other\codex-switch-global-pace.exe");
    let expected = windows_path(EXECUTABLE);
    assert_eq!(
        activate_published_task(&mine, &mine, &expected).unwrap(),
        task_activation()
    );
    for (definition, xml) in [(&mine, &other), (&other, &mine)] {
        let refused = activate_published_task(definition, xml, &expected).unwrap_err();
        assert_eq!(
            refused,
            validate_task_forms(definition, xml, &expected).unwrap_err()
        );
        let facts = TaskInstallFacts {
            executable: &expected,
            previous: None,
            was_running: false,
            current: Some((definition, xml)),
        };
        assert_eq!(
            install_task_phase(&facts, &TaskInstallPhase::Activate, Part::First),
            Err(refused)
        );
    }
}

#[test]
fn each_phase_of_an_installation_has_its_script() {
    let mine = task_of(EXECUTABLE);
    let old = task_of(r"C:\Old\codex-switch-global-pace.exe");
    let expected = windows_path(EXECUTABLE);
    let facts = |previous, current| TaskInstallFacts {
        executable: &expected,
        previous,
        was_running: true,
        current,
    };
    let prior = Some((old.as_slice(), old.as_slice()));
    let published = Some((mine.as_slice(), mine.as_slice()));
    let script = |facts: TaskInstallFacts, phase| {
        install_task_phase(&facts, &phase, Part::First).unwrap()
    };
    let replaced = facts(prior, published);
    assert_eq!(
        operations(&script(replaced, TaskInstallPhase::Stage)),
        [ServiceOperation::CreateStagedTask]
    );
    assert_eq!(
        operations(&script(replaced, TaskInstallPhase::Unstage)),
        [ServiceOperation::DeleteStagedTask]
    );
    assert_eq!(
        script(replaced, TaskInstallPhase::Prepare),
        task_preparation(true)
    );
    assert_eq!(
        script(facts(None, None), TaskInstallPhase::Prepare),
        task_preparation(false)
    );
    assert_eq!(
        operations(&script(replaced, TaskInstallPhase::Create)),
        [ServiceOperation::CreateTask { replace: true }]
    );
    assert_eq!(
        operations(&script(facts(None, None), TaskInstallPhase::Create)),
        [ServiceOperation::CreateTask { replace: false }]
    );
    assert_eq!(
        operations(&script(replaced, TaskInstallPhase::Inspect)),
        [ServiceOperation::InspectTask]
    );
    assert_eq!(
        script(replaced, TaskInstallPhase::Activate),
        task_activation()
    );
    let cause = || Fault::of("dead");
    assert_eq!(
        script(replaced, TaskInstallPhase::RollBack(cause())),
        restore_scheduled_task(
            restoration_of(Some(&mine), Some(&old), true, true, true),
            Part::First
        )
    );
    assert_eq!(
        script(replaced, TaskInstallPhase::RestorePrepared(cause())),
        restore_scheduled_task(
            restoration_of(Some(&old), Some(&old), true, true, true),
            Part::First
        )
    );
    assert_eq!(
        script(replaced, TaskInstallPhase::RestoreUncertain(cause())),
        script(replaced, TaskInstallPhase::RollBack(cause()))
    );
    let unclassified = facts(prior, None);
    for phase in [
        TaskInstallPhase::RestoreUncertain(cause()),
        TaskInstallPhase::RestoreUninspected(cause()),
    ] {
        assert_eq!(
            install_task_phase(&unclassified, &phase, Part::First)
                .unwrap_err()
                .headline(),
            "scheduled-task publication post-state was neither the exact prior definition nor an exactly owned replacement"
        );
    }
    assert!(install_task_phase(&unclassified, &TaskInstallPhase::Activate, Part::First).is_err());
}

#[test]
fn an_uncertain_publication_is_taken_back_only_where_it_is_classified() {
    let old = task_of(r"C:\Old\codex-switch-global-pace.exe");
    let new = task_of(EXECUTABLE);
    let foreign = task_of(r"C:\Foreign\codex-switch-global-pace.exe");
    let replacement = windows_path(EXECUTABLE);
    let prior = (Some(old.as_slice()), Some(old.as_slice()));
    let same = restore_after_uncertain_task_publication(&replacement, prior, prior, true, true);
    assert!(same.unwrap().unchanged);
    let replaced = restore_after_uncertain_task_publication(
        &replacement,
        (Some(&new), Some(&new)),
        prior,
        true,
        true,
    )
    .unwrap();
    assert!(!replaced.unchanged && replaced.current_present && replaced.previous_present);
    let foreign = (Some(foreign.as_slice()), Some(foreign.as_slice()));
    assert!(restore_after_uncertain_task_publication(&replacement, foreign, prior, true, true)
        .is_err());
    assert_eq!(
        restore_after_uncertain_task_publication(&replacement, (None, None), prior, true, true)
            .unwrap_err()
            .headline(),
        "scheduled-task publication post-state was neither the exact prior definition nor an exactly owned replacement"
    );
    assert!(
        restore_after_uncertain_task_publication(
            &replacement,
            (None, None),
            (None, None),
            false,
            false
        )
        .unwrap()
        .unchanged
    );
}

#[test]
fn a_restored_task_is_confirmed() {
    confirm_restored_task(FILE, true, Some(b"x"), Some(b"x")).unwrap();
    confirm_restored_task(FILE, false, Some(b"y"), Some(b"x")).unwrap();
    assert_eq!(
        confirm_restored_task(FILE, true, Some(b"y"), Some(b"x"))
            .unwrap_err()
            .headline(),
        "scheduled-task definition changed while restoring its pre-install state"
    );
    assert_eq!(
        confirm_restored_task(FILE, true, None, Some(b"x"))
            .unwrap_err()
            .headline(),
        format!("restored scheduled-task definition {FILE} is missing")
    );
}

#[test]
fn a_published_task_has_a_file() {
    assert_eq!(published_task_definition(FILE, Some(vec![1])).unwrap(), [1]);
    assert_eq!(
        published_task_definition(FILE, None).unwrap_err().headline(),
        format!("scheduled-task creation returned success, but definition {FILE} is missing")
    );
}

#[test]
fn the_exported_task_must_stay_the_same() {
    require_task_xml_snapshot(FILE, None, None).unwrap();
    require_task_xml_snapshot(FILE, Some(b"x"), Some(b"x")).unwrap();
    assert_eq!(
        require_task_xml_snapshot(FILE, None, Some(b"x"))
            .unwrap_err()
            .headline(),
        format!("scheduled-task definition {FILE} disappeared during the operation")
    );
    assert_eq!(
        require_task_xml_snapshot(FILE, Some(b"x"), None)
            .unwrap_err()
            .headline(),
        format!("a scheduled-task definition appeared at {FILE} during the operation")
    );
    assert_eq!(
        require_task_xml_snapshot(FILE, Some(b"x"), Some(b"y"))
            .unwrap_err()
            .headline(),
        "Task Scheduler XML changed during the operation; refusing to mutate the task"
    );
}

#[test]
fn a_task_is_put_back_from_its_file() {
    assert_eq!(
        create_from_xml(&windows_path(r"C:\t.xml"), "rollback file").unwrap(),
        ["/Create", "/TN", WINDOWS_TASK_NAME, "/XML", r"C:\t.xml", "/F"]
    );
    let mut odd = windows_path(r"C:\t.xml");
    odd.unicode = None;
    assert_eq!(
        create_from_xml(&odd, "rollback file").unwrap_err().headline(),
        r"rollback file is not valid Unicode: C:\t.xml"
    );
}

#[test]
fn a_task_is_deleted_only_after_its_daemon_is_gone() {
    let texts = task_removal_texts(FILE);
    assert_eq!(
        texts.changed,
        format!("scheduled-task definition {FILE} changed during uninstall; refusing to delete it")
    );
    let script = uninstall_task_scheduler(true, &texts.reading, &texts.changed, &texts.remains);
    let place = |wanted: ServiceOperation| {
        operations(&script)
            .iter()
            .position(|operation| *operation == wanted)
            .unwrap()
    };
    assert!(
        place(ServiceOperation::AwaitAbsence)
            < place(ServiceOperation::Schtasks(SchtasksCommand::Delete))
    );
    assert_eq!(script[2].context, Some(texts.reading.as_str()));
}

#[test]
fn a_failed_removal_is_taken_back() {
    let texts = task_removal_texts(FILE);
    let gone =
        rollback_task_scheduler_uninstall(false, true, &texts.rereading, "", Part::First);
    assert_eq!(gone[0].operation, ServiceOperation::CreateFromXml);
    let there = rollback_task_scheduler_uninstall(
        true,
        false,
        &texts.rereading,
        &texts.changed_since,
        Part::First,
    );
    assert_eq!(there[0].operation, ServiceOperation::AskTaskFileUnchanged);
    match advance(&there[0], beginning(), CheckReply::Answer(false)) {
        Progress::Failed(fault) => assert_eq!(fault.headline(), texts.changed_since),
        Progress::Go(_) => panic!("a changed definition was accepted"),
    }
    assert_eq!(
        task_scheduler_uninstall_error(Fault::of("busy"), Ok(())).detail(),
        "Windows scheduled-task uninstall failed; its prior definition and running state were restored: busy"
    );
    assert_eq!(
        task_scheduler_uninstall_error(Fault::of("busy"), Err(Fault::of("gone"))).headline(),
        "Windows scheduled-task uninstall failed and rollback was incomplete: gone"
    );
}

#[test]
fn the_daemon_of_a_task_that_stays_is_restored() {
    let started = pass(|part| restore_uninstall_running_state_locked(true, part), false);
    assert_eq!(
        started,
        [
            ServiceOperation::RunningPid,
            ServiceOperation::Schtasks(SchtasksCommand::Run),
            ServiceOperation::AwaitPreviousPresence,
            ServiceOperation::RequirePreviousIdentity,
        ]
    );
    let kept = pass(|part| restore_uninstall_running_state_locked(true, part), true);
    assert_eq!(kept.len(), 2);
}

#[test]
fn a_stopped_task_has_no_daemon() {
    assert_eq!(
        operations(&stop_task_scheduler()),
        [
            ServiceOperation::RequireTaskFile(TaskState::Previous),
            ServiceOperation::RequireTaskXml(TaskState::Previous),
            ServiceOperation::Schtasks(SchtasksCommand::End),
            ServiceOperation::AwaitAbsence,
        ]
    );
}

/// The looks at a task's file and at its exported form.
struct TaskLooks {
    listed: [bool; 2],
    xml: [Vec<u8>; 2],
    path_token: Option<FileToken>,
    opened: FileToken,
    contents: Vec<u8>,
}

fn looks() -> TaskLooks {
    let contents = task_of(EXECUTABLE);
    TaskLooks {
        listed: [true, true],
        xml: [contents.clone(), contents.clone()],
        path_token: Some(token_of(&contents)),
        opened: token_of(&contents),
        contents,
    }
}

fn listing(listed: bool) -> Vec<u8> {
    if listed {
        format!("\"{WINDOWS_TASK_NAME}\",\"N/A\",\"Ready\"\r\n").into_bytes()
    } else {
        b"\"\\Other\",\"N/A\",\"Ready\"\r\n".to_vec()
    }
}

fn read_task(looks: TaskLooks) -> Result<Option<ServiceDefinition>, Fault> {
    let kind = DefinitionKind::ScheduledTask;
    let mut stage = begin_definition_snapshot(kind);
    loop {
        let reply = match &stage {
            ReadStage::List => ReadReply::Bytes(Ok(listing(looks.listed[0]))),
            ReadStage::Export => ReadReply::Bytes(Ok(looks.xml[0].clone())),
            ReadStage::LookPath { .. } => ReadReply::Sight(Ok(looks.path_token)),
            ReadStage::Open { .. } => ReadReply::Done(Ok(())),
            ReadStage::BindOpened { .. }
            | ReadStage::BindAfter { .. }
            | ReadStage::RebindPath { .. } => ReadReply::Token(Ok(looks.opened)),
            ReadStage::ReadContents { .. } => ReadReply::Bytes(Ok(looks.contents.clone())),
            ReadStage::ListAgain { .. } => ReadReply::Bytes(Ok(listing(looks.listed[1]))),
            ReadStage::ExportAgain { .. } => ReadReply::Bytes(Ok(looks.xml[1].clone())),
        };
        match definition_snapshot(kind, FILE, stage, reply) {
            ReadStep::Await(next) => stage = next,
            ReadStep::Finished(outcome) => return outcome,
        }
    }
}

#[test]
fn a_task_is_captured_only_unchanged() {
    let captured = read_task(looks()).unwrap().unwrap();
    assert_eq!(captured.contents, task_of(EXECUTABLE));
    assert_eq!(captured.scheduler_xml, Some(task_of(EXECUTABLE)));
    let mut absent = looks();
    absent.listed[0] = false;
    absent.path_token = None;
    assert_eq!(read_task(absent).unwrap(), None);
    let mut torn = looks();
    torn.listed[0] = false;
    assert!(read_task(torn)
        .unwrap_err()
        .headline()
        .ends_with("disagreed while capturing lifecycle state"));
    let mut replaced = looks();
    replaced.opened = token_of(b"other");
    assert_eq!(
        read_task(replaced).unwrap_err().headline(),
        format!("scheduled-task definition changed while it was opened: {FILE}")
    );
    let mut rewritten = looks();
    rewritten.contents = b"other".to_vec();
    assert_eq!(
        read_task(rewritten).unwrap_err().headline(),
        format!("scheduled-task definition changed while its lifecycle snapshot was read: {FILE}")
    );
    let mut exported = looks();
    exported.xml[1] = b"other".to_vec();
    assert_eq!(
        read_task(exported).unwrap_err().headline(),
        "Task Scheduler XML changed while its lifecycle snapshot was captured"
    );
    let mut gone = looks();
    gone.listed[1] = false;
    assert_eq!(
        read_task(gone).unwrap_err().headline(),
        format!("Task Scheduler no longer reports {WINDOWS_TASK_NAME} while its XML was required")
    );
    assert_eq!(
        ReadStage::Export.task_action(),
        Some("export scheduled task while capturing its exact lifecycle snapshot")
    );
}

#[test]
fn the_state_of_a_task_names_its_manager() {
    let contents = task_of(EXECUTABLE);
    let definition = || ServiceDefinition {
        token: token_of(&contents),
        scheduler_xml: Some(contents.clone()),
        contents: contents.clone(),
    };
    let capture = |definition: Option<ServiceDefinition>, expected: &str| {
        let expected = windows_path(expected);
        let mut definition = Some(definition);
        let mut asked = false;
        let mut step = begin_capture(Platform::Windows, &expected);
        loop {
            let stage = match step {
                CaptureStep::Await(stage) => stage,
                CaptureStep::Finished(outcome) => return (asked, outcome),
            };
            let reply = match &stage {
                CaptureStage::ReadDefinition => {
                    CaptureReply::Definition(Ok(definition.take().unwrap()))
                }
                CaptureStage::LookTaskManager { .. } => {
                    asked = true;
                    CaptureReply::Pid(Ok(Some(9)))
                }
                stage => panic!("{stage:?}"),
            };
            step = capture_service_state_snapshot(Platform::Windows, &expected, stage, reply);
        }
    };
    let (asked, state) = capture(Some(definition()), EXECUTABLE);
    let state = state.unwrap();
    assert!(asked);
    assert_eq!(state.manager_pid(), Some(9));
    assert!(state.is_installed());
    let (asked, absent) = capture(None, EXECUTABLE);
    assert!(!asked);
    assert_eq!(absent.unwrap().manager_pid(), None);
    let (asked, foreign) = capture(Some(definition()), r"C:\x.exe");
    assert!(!asked);
    assert!(foreign.is_err());
}

#[test]
fn a_failed_instance_query_is_reported() {
    assert_eq!(
        running_instance_query_failure("denied").headline(),
        "Task Scheduler running-instance PID query failed: failed to query running scheduled-task instance: denied"
    );
}

#[test]
fn restorations_name_what_they_restore() {
    assert_eq!(
        restoring_systemd_definition("/u.service"),
        "restoring systemd definition /u.service"
    );
    assert_eq!(
        restoring_launch_agent("/a.plist"),
        "restoring LaunchAgent definition /a.plist"
    );
}

fn installed(
    platform: Platform,
    listed: bool,
    sight: fn() -> DefinitionSight,
    known: Result<(), Fault>,
) -> Result<bool, Fault> {
    let mut known = Some(known);
    let mut step = begin_is_installed_checked(platform);
    loop {
        let stage = match step {
            InstalledStep::Await(stage) => stage,
            InstalledStep::Finished(outcome) => return outcome,
        };
        let reply = match stage {
            InstalledStage::LookFile | InstalledStage::LookTaskFile { .. } => {
                InstalledReply::Sight(sight())
            }
            InstalledStage::RequireNoService => InstalledReply::Done(known.take().unwrap()),
            InstalledStage::ListTasks => InstalledReply::Bytes(Ok(listing(listed))),
            InstalledStage::ExportTask | InstalledStage::ReadTaskFile { .. } => {
                InstalledReply::Bytes(Ok(task_of(EXECUTABLE)))
            }
        };
        step = is_installed_checked(platform, "/u", stage, reply);
    }
}

#[test]
fn a_service_is_installed_only_with_its_definition() {
    for platform in [Platform::Linux, Platform::MacOs] {
        assert_eq!(
            installed(platform, false, || DefinitionSight::File, Ok(())),
            Ok(true)
        );
        assert_eq!(
            installed(platform, false, || DefinitionSight::Missing, Ok(())),
            Ok(false)
        );
        assert_eq!(
            installed(
                platform,
                false,
                || DefinitionSight::Missing,
                Err(Fault::of("still loaded"))
            ),
            Err(Fault::of("still loaded"))
        );
    }
    assert_eq!(
        installed(Platform::Linux, false, || DefinitionSight::OtherKind, Ok(())),
        Err(Fault::of(
            "systemd user-service definition is not a regular file: /u"
        ))
    );
    assert_eq!(
        installed(
            Platform::MacOs,
            false,
            || DefinitionSight::Unknown(Fault::of("denied")),
            Ok(())
        )
        .unwrap_err()
        .detail(),
        "inspecting LaunchAgent definition /u: denied"
    );
    assert_eq!(
        begin_is_installed_checked(Platform::OtherUnix),
        InstalledStep::Finished(Ok(false))
    );
}

#[test]
fn a_task_is_installed_only_where_both_have_it() {
    let windows = |listed: bool, sight: fn() -> DefinitionSight| {
        installed(Platform::Windows, listed, sight, Ok(()))
    };
    assert_eq!(windows(true, || DefinitionSight::File), Ok(true));
    assert_eq!(windows(false, || DefinitionSight::Missing), Ok(false));
    assert!(windows(true, || DefinitionSight::Missing).is_err());
    assert!(windows(false, || DefinitionSight::File).is_err());
    assert_eq!(
        windows(false, || DefinitionSight::OtherKind),
        Err(Fault::of(
            "Windows scheduled-task definition is not a regular file: /u"
        ))
    );
}

#[test]
fn a_scheduled_daemon_is_asked_once_and_then_awaited() {
    let mut requests = 0;
    let mut ends = 0;
    let mut observations = vec![
        Ok(true),
        Err(Fault::of("busy")),
        Ok(false),
    ]
    .into_iter();
    let mut stage = RollbackStopStage::LookGeneration;
    let outcome = loop {
        let reply = match &stage {
            RollbackStopStage::LookGeneration => {
                RollbackStopReply::Generation(Ok(Some(DaemonGeneration {
                    pid: 9,
                    generation: "g".to_string(),
                })))
            }
            RollbackStopStage::Request { target } => {
                assert_eq!(target.pid, 9);
                requests += 1;
                RollbackStopReply::Done(Ok(()))
            }
            RollbackStopStage::Observe { .. } => {
                RollbackStopReply::Running(observations.next().unwrap())
            }
            RollbackStopStage::EndTask { .. } => {
                ends += 1;
                RollbackStopReply::Done(Ok(()))
            }
            RollbackStopStage::CleanUp { .. } | RollbackStopStage::RequireDurable { .. } => {
                RollbackStopReply::Done(Ok(()))
            }
        };
        match stop_scheduled_daemon_for_rollback(stage, reply) {
            RollbackStopStep::Await(next) => stage = next,
            RollbackStopStep::Finished(outcome) => break outcome,
        }
    };
    assert_eq!((requests, ends), (1, 1));
    assert_eq!(
        outcome,
        Err(Fault::of(
            "scheduled daemon stopped and Task Scheduler was finalized after transient authority-probe failures: 1 transient authority-probe failure: transiently failed to inspect already-requested scheduled daemon PID 9: checking the exact scheduled daemon shutdown target: busy"
        ))
    );
    assert_eq!(
        stop_scheduled_daemon_for_rollback(
            RollbackStopStage::LookGeneration,
            RollbackStopReply::Generation(Ok(None))
        ),
        RollbackStopStep::Await(RollbackStopStage::EndTask { asked: None })
    );
    assert_eq!(
        stop_scheduled_daemon_for_rollback(
            RollbackStopStage::EndTask { asked: None },
            RollbackStopReply::Done(Err(Fault::of("denied")))
        ),
        RollbackStopStep::Finished(Err(Fault::of("denied")))
    );
}
