use codex_switch_daemon::fault::Fault;
use codex_switch_daemon::fs_ops::FileToken;
use codex_switch_daemon::host_path::{HostPath, PathComponent, Platform};
use codex_switch_daemon::launchd_service::{start_launchd, uninstall_launchd};
use codex_switch_daemon::service_execution::{
    begin_execution, execute_service, restore_uninstalled_daemon, rollback_of, script_of,
    Execution, ExecutionContext, ExecutionReply, ExecutionStage, ExecutionStep, ExecutionWords,
    Judged,
};
use codex_switch_daemon::service_operation::{Part, ServiceOperation};
use codex_switch_daemon::service_owner::{
    validate_launchd_definition_owner, validate_systemd_definition_owner,
    validate_task_scheduler_definition_owner, OwnerLook,
};
use codex_switch_daemon::service_render::{
    systemd_unit, task_scheduler_command, LAUNCHD_LABEL, WINDOWS_TASK_NAME,
};
use codex_switch_daemon::service_state::ServiceDefinition;
use codex_switch_daemon::state::DaemonState;
use codex_switch_daemon::state_file::{
    read_state, write_state, FileRead, StateReadReply, StateReadStage, StateReadStep,
    StateWriteReply, StateWriteStage, StateWriteStep,
};
use codex_switch_daemon::systemd_service::{rollback_systemd_uninstall, uninstall_systemd};
use codex_switch_daemon::task_service::{
    restore_uninstall_running_state_locked, rollback_task_scheduler_uninstall,
    start_task_scheduler, stop_task_scheduler, uninstall_task_scheduler, DefinitionSight,
};

const OWNER: &str = "/opt/bin/codex-switch-global-pace";
const EXECUTABLE: &str = r"C:\Program Files\codex-switch-global-pace.exe";

const WORDS: ExecutionWords<'static> = ExecutionWords {
    reading: "reading",
    changed: "changed",
    remains: "remains",
    rereading: "rereading",
    changed_since: "changed since",
    restoring: "restoring",
};

fn unix_path(path: &str) -> HostPath {
    let mut components = vec![PathComponent::Root];
    for name in path.split('/').skip(1) {
        components.push(PathComponent::Normal(name.to_string()));
    }
    HostPath {
        unicode: Some(path.to_string()),
        display: path.to_string(),
        absolute: true,
        components,
        parent: path.rsplit_once('/').map(|(parent, _)| parent.to_string()),
        file_name: path.rsplit('/').next().map(str::to_string),
    }
}

fn windows_path(path: &str) -> HostPath {
    let mut components = vec![PathComponent::Prefix, PathComponent::Root];
    for name in path.split('\\').skip(1) {
        components.push(PathComponent::Normal(name.to_string()));
    }
    HostPath {
        unicode: Some(path.to_string()),
        display: path.to_string(),
        absolute: true,
        components,
        parent: path.rsplit_once('\\').map(|(parent, _)| parent.to_string()),
        file_name: path.rsplit('\\').next().map(str::to_string),
    }
}

fn task_of(executable: &str) -> Vec<u8> {
    let command = task_scheduler_command(
        &windows_path(executable),
        &windows_path(r"C:\Users\A\.codex"),
        &windows_path(r"C:\Users\A\.codex-switch"),
    )
    .unwrap();
    let arguments = command
        .strip_prefix("cmd.exe ")
        .unwrap()
        .replace('&', "&amp;")
        .replace('"', "&quot;");
    format!(
        "<Task><Actions><Exec><Command>cmd.exe</Command><Arguments>{arguments}</Arguments></Exec></Actions></Task>"
    )
    .into_bytes()
}

fn unit(executable: &str) -> Vec<u8> {
    systemd_unit(executable, "/h", "/h/.codex", "/h/.s").into_bytes()
}

fn agent(executable: &str) -> Vec<u8> {
    format!(
        r#"{{"Label":"{LAUNCHD_LABEL}","ProgramArguments":["{executable}","daemon","start","--foreground"]}}"#
    )
    .into_bytes()
}

fn definition(contents: Vec<u8>) -> ServiceDefinition {
    ServiceDefinition {
        token: FileToken {
            identity_high: 1,
            identity_low: 2,
            digest: [3; 32],
        },
        contents,
        scheduler_xml: None,
    }
}

fn context(platform: Platform, execution: Execution) -> ExecutionContext {
    ExecutionContext {
        platform,
        execution,
        expected: match platform {
            Platform::Windows => windows_path(EXECUTABLE),
            _ => unix_path(OWNER),
        },
        path: "/d/unit".to_string(),
        was_running: true,
    }
}

fn awaited(step: ExecutionStep) -> ExecutionStage {
    match step {
        ExecutionStep::Await(stage) => stage,
        other => panic!("{other:?}"),
    }
}

fn refused(step: ExecutionStep) -> Fault {
    match step {
        ExecutionStep::Finished(Err(fault)) => fault,
        other => panic!("{other:?}"),
    }
}

fn listing(listed: bool) -> Vec<u8> {
    let name = if listed { WINDOWS_TASK_NAME } else { r"\other" };
    format!("\"{name}\",\"N/A\",\"Ready\"\r\n").into_bytes()
}

fn ran(outcome: Result<(), Fault>, at: usize) -> ExecutionReply {
    ExecutionReply::Ran {
        outcome,
        at,
        unconfirmed: None,
    }
}

#[test]
fn an_execution_begins_with_what_has_to_be_judged() {
    for execution in [
        Execution::Start,
        Execution::Stop,
        Execution::StopManager,
        Execution::Uninstall,
    ] {
        for platform in [Platform::Linux, Platform::MacOs] {
            assert_eq!(
                begin_execution(&context(platform, execution)),
                ExecutionStep::Await(ExecutionStage::Capture)
            );
        }
        assert!(matches!(
            begin_execution(&context(Platform::OtherUnix, execution)),
            ExecutionStep::Finished(Err(_))
        ));
    }
    let windows = |execution| begin_execution(&context(Platform::Windows, execution));
    assert_eq!(
        windows(Execution::Start),
        ExecutionStep::Await(ExecutionStage::ReadTaskFile)
    );
    assert_eq!(
        windows(Execution::Uninstall),
        ExecutionStep::Await(ExecutionStage::CaptureTask)
    );
    assert_eq!(
        refused(windows(Execution::StopManager)),
        Fault::of("Service stop is not supported on this platform")
    );
}

#[test]
fn a_unit_is_judged_by_the_bytes_that_are_acted_on() {
    for execution in [Execution::Start, Execution::Stop, Execution::StopManager] {
        let context = context(Platform::Linux, execution);
        let capture = |contents| {
            execute_service(
                &context,
                ExecutionStage::Capture,
                ExecutionReply::Definition(Ok(contents)),
            )
        };
        assert_eq!(
            capture(Some(definition(unit(OWNER)))),
            ExecutionStep::Await(ExecutionStage::Perform {
                judged: Judged::File {
                    definition: definition(unit(OWNER)),
                    running: false,
                    enabled: false,
                }
            })
        );
        assert_eq!(
            refused(capture(Some(definition(unit("/tmp/other"))))),
            validate_systemd_definition_owner(&unit("/tmp/other"), &context.expected).unwrap_err()
        );
        assert_eq!(
            capture(None),
            ExecutionStep::Await(ExecutionStage::Perform {
                judged: Judged::Missing
            })
        );
        assert_eq!(
            execute_service(
                &context,
                ExecutionStage::Perform {
                    judged: Judged::Missing
                },
                ran(Err(Fault::of("not there")), 1),
            ),
            ExecutionStep::Finished(Err(Fault::of("not there")))
        );
    }
}

#[test]
fn a_launch_agent_is_judged_by_the_form_of_its_own_bytes() {
    let context = context(Platform::MacOs, Execution::Start);
    let plist = definition(b"plist".to_vec());
    let stage = awaited(execute_service(
        &context,
        ExecutionStage::Capture,
        ExecutionReply::Definition(Ok(Some(plist))),
    ));
    assert_eq!(
        stage,
        ExecutionStage::Convert {
            definition: definition(b"plist".to_vec())
        }
    );
    let converted = |document| {
        execute_service(
            &context,
            ExecutionStage::Convert {
                definition: definition(b"plist".to_vec()),
            },
            ExecutionReply::Bytes(document),
        )
    };
    assert_eq!(
        converted(Ok(agent(OWNER))),
        ExecutionStep::Await(ExecutionStage::Perform {
            judged: Judged::File {
                definition: definition(b"plist".to_vec()),
                running: false,
                enabled: false,
            }
        })
    );
    assert_eq!(
        refused(converted(Ok(agent("/tmp/other")))),
        validate_launchd_definition_owner(&agent("/tmp/other"), &context.expected).unwrap_err()
    );
    assert_eq!(
        refused(converted(Err(Fault::of("no plutil")))),
        Fault::of("no plutil")
    );
}

#[test]
fn an_uninstallation_asks_how_the_service_runs() {
    let linux = context(Platform::Linux, Execution::Uninstall);
    let stage = awaited(execute_service(
        &linux,
        ExecutionStage::Capture,
        ExecutionReply::Definition(Ok(Some(definition(unit(OWNER))))),
    ));
    assert!(matches!(stage, ExecutionStage::AskRunning { .. }));
    let stage = awaited(execute_service(&linux, stage, ExecutionReply::Answer(Ok(true))));
    assert!(matches!(
        stage,
        ExecutionStage::AskEnabled { running: true, .. }
    ));
    let stage = awaited(execute_service(&linux, stage, ExecutionReply::Answer(Ok(false))));
    assert!(matches!(
        &stage,
        ExecutionStage::Perform {
            judged: Judged::File {
                running: true,
                enabled: false,
                ..
            }
        }
    ));
    let mac = context(Platform::MacOs, Execution::Uninstall);
    let asked = ExecutionStage::AskRunning {
        definition: definition(Vec::new()),
    };
    assert!(matches!(
        awaited(execute_service(&mac, asked, ExecutionReply::Answer(Ok(true)))),
        ExecutionStage::Perform {
            judged: Judged::File { running: true, .. }
        }
    ));
    let asked = ExecutionStage::AskRunning {
        definition: definition(Vec::new()),
    };
    assert_eq!(
        refused(execute_service(
            &mac,
            asked,
            ExecutionReply::Answer(Err(Fault::of("no answer")))
        )),
        Fault::of("no answer")
    );
}

fn unit_judged() -> Judged {
    Judged::File {
        definition: definition(unit(OWNER)),
        running: true,
        enabled: true,
    }
}

#[test]
fn a_failed_uninstallation_is_taken_back() {
    let context = context(Platform::Linux, Execution::Uninstall);
    let script = script_of(
        context.platform,
        context.execution,
        &unit_judged(),
        WORDS,
        Part::First,
    );
    assert_eq!(script, uninstall_systemd(true));
    let moving = script
        .iter()
        .position(|check| check.operation == ServiceOperation::MoveAway)
        .unwrap();
    for at in 0..script.len() {
        let stage = awaited(execute_service(
            &context,
            ExecutionStage::Perform {
                judged: unit_judged(),
            },
            ran(Err(Fault::of("broken")), at),
        ));
        let away = at > moving;
        assert_eq!(
            stage,
            ExecutionStage::RollBack {
                judged: unit_judged(),
                error: Fault::of("broken"),
                away,
            }
        );
        assert_eq!(
            rollback_of(&context, &unit_judged(), away, WORDS, Part::First),
            rollback_systemd_uninstall(away, true, true, "restoring", Part::First)
        );
        let back = refused(execute_service(&context, stage, ExecutionReply::Done(Ok(()))));
        assert_eq!(back.messages.last().unwrap(), "broken");
        assert_eq!(back.messages.len(), 2);
    }
    let rollback = ExecutionStage::RollBack {
        judged: unit_judged(),
        error: Fault::of("broken"),
        away: true,
    };
    let incomplete = refused(execute_service(
        &context,
        rollback,
        ExecutionReply::Done(Err(Fault::of("stuck"))),
    ));
    assert!(incomplete.headline().ends_with(": stuck"));
    let perform = |unconfirmed| {
        execute_service(
            &context,
            ExecutionStage::Perform {
                judged: unit_judged(),
            },
            ExecutionReply::Ran {
                outcome: Ok(()),
                at: 0,
                unconfirmed,
            },
        )
    };
    assert_eq!(perform(None), ExecutionStep::Finished(Ok(())));
    assert_eq!(
        refused(perform(Some(Fault::of("left over")))).messages.len(),
        2
    );
}

#[test]
fn a_missing_definition_is_not_taken_back() {
    for platform in [Platform::Linux, Platform::MacOs, Platform::Windows] {
        let context = context(platform, Execution::Uninstall);
        assert_eq!(
            execute_service(
                &context,
                ExecutionStage::Perform {
                    judged: Judged::Missing
                },
                ran(Err(Fault::of("running without one")), 0),
            ),
            ExecutionStep::Finished(Err(Fault::of("running without one")))
        );
    }
}

#[test]
fn a_task_is_started_only_for_the_owner_of_both_forms() {
    let context = context(Platform::Windows, Execution::Start);
    let mine = task_of(EXECUTABLE);
    let other = task_of(r"C:\Other\codex-switch-global-pace.exe");
    assert_eq!(
        refused(execute_service(
            &context,
            ExecutionStage::ReadTaskFile,
            ExecutionReply::Bytes(Err(Fault::of("gone")))
        ))
        .detail(),
        "reading Windows scheduled-task definition: gone"
    );
    let export = |contents: &Vec<u8>, xml: &Vec<u8>| {
        let stage = awaited(execute_service(
            &context,
            ExecutionStage::ReadTaskFile,
            ExecutionReply::Bytes(Ok(contents.clone())),
        ));
        let stage = awaited(execute_service(
            &context,
            stage,
            ExecutionReply::Bytes(Ok(listing(true))),
        ));
        execute_service(&context, stage, ExecutionReply::Bytes(Ok(xml.clone())))
    };
    assert_eq!(
        export(&mine, &mine),
        ExecutionStep::Await(ExecutionStage::Perform {
            judged: Judged::Task {
                contents: mine.clone(),
                xml: mine.clone(),
            }
        })
    );
    let foreign =
        validate_task_scheduler_definition_owner(&other, &context.expected).unwrap_err();
    assert_eq!(refused(export(&mine, &other)), foreign);
    assert_eq!(refused(export(&other, &mine)), foreign);
    assert_eq!(
        refused(execute_service(
            &context,
            ExecutionStage::ListTasks {
                contents: mine.clone()
            },
            ExecutionReply::Bytes(Ok(listing(false)))
        )),
        Fault::from_text(format!(
            "Task Scheduler no longer reports {WINDOWS_TASK_NAME} while its XML was required"
        ))
    );
}

#[test]
fn a_started_task_has_a_daemon_or_is_stopped() {
    let context = context(Platform::Windows, Execution::Start);
    let judged = || Judged::Task {
        contents: Vec::new(),
        xml: Vec::new(),
    };
    let stage = awaited(execute_service(
        &context,
        ExecutionStage::Perform { judged: judged() },
        ran(Ok(()), 0),
    ));
    assert_eq!(stage, ExecutionStage::AwaitDaemon);
    assert_eq!(
        execute_service(&context, stage, ExecutionReply::Done(Ok(()))),
        ExecutionStep::Finished(Ok(()))
    );
    let failed = |stop| {
        let stage = awaited(execute_service(
            &context,
            ExecutionStage::AwaitDaemon,
            ExecutionReply::Done(Err(Fault::of("not ready"))),
        ));
        refused(execute_service(&context, stage, ExecutionReply::Done(stop))).detail()
    };
    assert_eq!(
        failed(Ok(())),
        "scheduled daemon did not become ready and was stopped: not ready"
    );
    assert_eq!(
        failed(Err(Fault::of("stuck").within("ending"))),
        "scheduled daemon did not become ready and cleanup also failed: ending: not ready"
    );
}

#[test]
fn a_task_is_uninstalled_only_for_the_owner_of_each_form() {
    let context = context(Platform::Windows, Execution::Uninstall);
    let mine = task_of(EXECUTABLE);
    let other = task_of(r"C:\Other\codex-switch-global-pace.exe");
    let capture = |contents| {
        execute_service(
            &context,
            ExecutionStage::CaptureTask,
            ExecutionReply::Task(Ok(contents)),
        )
    };
    let foreign =
        validate_task_scheduler_definition_owner(&other, &context.expected).unwrap_err();
    assert_eq!(refused(capture(Some(other.clone()))), foreign);
    assert_eq!(
        capture(None),
        ExecutionStep::Await(ExecutionStage::Perform {
            judged: Judged::Missing
        })
    );
    let export = |xml: &Vec<u8>| {
        execute_service(
            &context,
            ExecutionStage::ExportTask {
                contents: mine.clone(),
            },
            ExecutionReply::Bytes(Ok(xml.clone())),
        )
    };
    assert_eq!(refused(export(&other)), foreign);
    let kept = awaited(export(&mine));
    assert!(matches!(kept, ExecutionStage::KeepXml { .. }));
    let stage = awaited(execute_service(&context, kept, ExecutionReply::Done(Ok(()))));
    let judged = || Judged::Task {
        contents: mine.clone(),
        xml: mine.clone(),
    };
    assert_eq!(stage, ExecutionStage::Perform { judged: judged() });
    for (sight, away) in [
        (DefinitionSight::File, false),
        (DefinitionSight::Missing, true),
    ] {
        let stage = awaited(execute_service(
            &context,
            ExecutionStage::Perform { judged: judged() },
            ran(Err(Fault::of("broken")), 3),
        ));
        let stage = awaited(execute_service(&context, stage, ExecutionReply::Sight(sight)));
        assert_eq!(
            stage,
            ExecutionStage::RollBack {
                judged: judged(),
                error: Fault::of("broken"),
                away,
            }
        );
        assert_eq!(
            rollback_of(&context, &judged(), away, WORDS, Part::First),
            rollback_task_scheduler_uninstall(
                !away,
                true,
                "rereading",
                "changed since",
                Part::First
            )
        );
        assert_eq!(
            refused(execute_service(&context, stage, ExecutionReply::Done(Ok(())))).detail(),
            "Windows scheduled-task uninstall failed; its prior definition and running state were restored: broken"
        );
    }
    let looked = ExecutionStage::LookTaskFile {
        judged: judged(),
        error: Fault::of("broken"),
    };
    let unseen = refused(execute_service(
        &context,
        looked,
        ExecutionReply::Sight(DefinitionSight::Unknown(Fault::of("denied"))),
    ));
    assert!(unseen
        .headline()
        .starts_with("Windows scheduled-task uninstall failed and rollback was incomplete: "));
    assert_eq!(unseen.messages.last().unwrap(), "broken");
}

#[test]
fn each_execution_has_its_script() {
    let script = |platform, execution, judged: &Judged| {
        script_of(platform, execution, judged, WORDS, Part::First)
    };
    let task = Judged::Task {
        contents: Vec::new(),
        xml: Vec::new(),
    };
    assert_eq!(
        script(Platform::MacOs, Execution::Start, &unit_judged()),
        start_launchd(true, Part::First)
    );
    assert_eq!(
        script(Platform::MacOs, Execution::Uninstall, &unit_judged()),
        uninstall_launchd(true, true)
    );
    assert_eq!(
        script(Platform::MacOs, Execution::Start, &Judged::Missing),
        start_launchd(false, Part::First)
    );
    assert_eq!(
        script(Platform::Windows, Execution::Start, &task),
        start_task_scheduler()
    );
    assert_eq!(
        script(Platform::Windows, Execution::Stop, &task),
        stop_task_scheduler()
    );
    assert_eq!(
        script(Platform::Windows, Execution::Uninstall, &task),
        uninstall_task_scheduler(true, "reading", "changed", "remains")
    );
}

#[test]
fn only_the_owner_brings_a_daemon_back() {
    let mine = task_of(EXECUTABLE);
    let other = task_of(r"C:\Other\codex-switch-global-pace.exe");
    let restore = |definition: &Vec<u8>, was_running| {
        restore_uninstalled_daemon(
            &windows_path(EXECUTABLE),
            OwnerLook::Task {
                definition: definition.clone(),
                exported: Ok(mine.clone()),
            },
            was_running,
        )
    };
    for was_running in [false, true] {
        assert_eq!(
            restore(&mine, was_running).unwrap(),
            restore_uninstall_running_state_locked(was_running, Part::First)
        );
        assert!(restore(&other, was_running).is_err());
    }
}

#[test]
fn a_reply_that_does_not_fit_is_refused() {
    let context = context(Platform::Linux, Execution::Start);
    assert!(matches!(
        execute_service(
            &context,
            ExecutionStage::Capture,
            ExecutionReply::Answer(Ok(true))
        ),
        ExecutionStep::Finished(Err(_))
    ));
}

#[test]
fn only_a_missing_state_file_holds_no_state() {
    let read = |file| read_state("/s", StateReadStage::Read, StateReadReply::File(file));
    assert_eq!(
        read(FileRead::Missing),
        StateReadStep::Finished(Ok(None))
    );
    assert_eq!(
        read(FileRead::Unreadable(Fault::of("denied"))),
        StateReadStep::Finished(Err(
            Fault::of("denied").within("reading daemon state snapshot /s")
        ))
    );
    assert_eq!(
        read(FileRead::Contents(b"{}".to_vec())),
        StateReadStep::Await(StateReadStage::Parse {
            contents: b"{}".to_vec()
        })
    );
    let parse = |parsed| {
        read_state(
            "/s",
            StateReadStage::Parse {
                contents: b"{}".to_vec(),
            },
            StateReadReply::Parsed(parsed),
        )
    };
    assert_eq!(
        parse(Err(Fault::of("odd"))),
        StateReadStep::Finished(Err(
            Fault::of("odd").within("parsing daemon state snapshot /s")
        ))
    );
    assert_eq!(
        parse(Ok(DaemonState::started(7, 100))),
        StateReadStep::Finished(Ok(Some(DaemonState::started(7, 100))))
    );
    assert!(matches!(
        read_state(
            "/s",
            StateReadStage::Read,
            StateReadReply::Parsed(Err(Fault::of("odd")))
        ),
        StateReadStep::Finished(Err(_))
    ));
}

#[test]
fn a_written_state_is_known_to_last() {
    let failed = |stage, reply| match write_state(stage, reply) {
        StateWriteStep::Finished(Err(fault)) => fault.detail(),
        other => panic!("{other:?}"),
    };
    assert_eq!(
        failed(
            StateWriteStage::Locate,
            StateWriteReply::Located(Err(Fault::of("no home")))
        ),
        "resolving daemon state snapshot path: no home"
    );
    let serialize = || StateWriteStage::Serialize {
        path: "/s".to_string(),
    };
    assert_eq!(
        write_state(
            StateWriteStage::Locate,
            StateWriteReply::Located(Ok("/s".to_string()))
        ),
        StateWriteStep::Await(serialize())
    );
    assert_eq!(
        failed(
            serialize(),
            StateWriteReply::Serialized(Err(Fault::of("odd")))
        ),
        "serializing daemon state snapshot: odd"
    );
    let write = || StateWriteStage::Write {
        path: "/s".to_string(),
        bytes: b"{}".to_vec(),
    };
    assert_eq!(
        write_state(
            serialize(),
            StateWriteReply::Serialized(Ok(b"{}".to_vec()))
        ),
        StateWriteStep::Await(write())
    );
    assert_eq!(
        failed(write(), StateWriteReply::Written(Err(Fault::of("full")))),
        "writing daemon state snapshot /s: full"
    );
    assert_eq!(
        failed(
            write(),
            StateWriteReply::Written(Ok(Some(Fault::of("unsynced"))))
        ),
        "confirming daemon state snapshot /s: unsynced"
    );
    assert_eq!(
        write_state(write(), StateWriteReply::Written(Ok(None))),
        StateWriteStep::Finished(Ok(()))
    );
}
