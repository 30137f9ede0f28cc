use codex_switch_daemon::background_marker::{
    await_daemon_ready, await_expected_background_marker, background_marker_failure,
    fresh_ready_nonce, read_bounded_background_marker, silent_child,
    terminate_and_reap_background_child, terminate_background_child_on_error,
    terminate_failed_daemon_child, validate_background_ready_nonce, MarkerWaitStep, ReapReply,
    ReapStage, ReapStep, StartupReply, StartupStage, StartupStep,
};
use codex_switch_daemon::boundary_client::{
    abandoned_holder_report, accept_initial_marker, close_and_wait, ClientAnswer, ClientRequest,
    HolderExit, SelfUpdateBoundaryClientPhase, SelfUpdateBoundaryRestart,
    SelfUpdateDaemonBoundaryClient,
};
use codex_switch_daemon::boundary_phase::{
    FailedStopRestoration, InstallerBoundaryPhase, INSTALLER_DAEMON_BOUNDARY_PREFIX,
};
use codex_switch_daemon::boundary_protocol::{
    begin_installer_daemon_boundary, finalize_installer_boundary_error, marker_line,
    read_boundary_command, run_installer_daemon_boundary_protocol, BoundaryCommand,
    BoundaryContext, BoundaryMarker, BoundaryReply, BoundaryStep,
    FinalizationResult, InstallerRollbackTransition, InstallerUninstallTransition,
    UninstallBoundaryState,
};
use codex_switch_daemon::fault::Fault;

const NONCE: &str = "00112233445566778899aabbccddeeff";

fn context(nonce: Option<&str>) -> BoundaryContext<'_> {
    BoundaryContext {
        initially_running: true,
        service_installed: false,
        uninstall_paths_match: true,
        ready_nonce: nonce,
    }
}

fn command(word: &str) -> BoundaryReply {
    BoundaryReply::Command(Ok(Some(format!("{word}\r\n"))))
}

fn done() -> BoundaryReply {
    BoundaryReply::Outcome(Ok(()))
}

fn converse(
    context: &BoundaryContext,
    replies: Vec<BoundaryReply>,
) -> (InstallerBoundaryPhase, Vec<String>, Option<Result<(), Fault>>) {
    let mut phase = InstallerBoundaryPhase::Stopping;
    let mut stage = begin_installer_daemon_boundary(&mut phase);
    let mut said = Vec::new();
    for reply in replies {
        match run_installer_daemon_boundary_protocol(context, &mut phase, stage, reply) {
            BoundaryStep::Await {
                stage: next,
                diagnostic,
            } => {
                said.extend(diagnostic);
                stage = next;
            }
            BoundaryStep::Finished(r) => return (phase, said, Some(r)),
        }
    }
    (phase, said, None)
}

#[test]
fn a_replacement_is_confirmed_and_released() {
    let (phase, said, end) = converse(
        &context(None),
        vec![
            done(),
            command("new"),
            done(),
            done(),
            command("finish"),
            done(),
            done(),
            command("release"),
            done(),
            done(),
        ],
    );
    assert_eq!(phase, InstallerBoundaryPhase::FinalConfirmed);
    assert!(said.is_empty());
    assert_eq!(end, Some(Ok(())));
}

#[test]
fn a_failed_replacement_is_reported_and_rolled_back() {
    let (phase, said, end) = converse(
        &context(None),
        vec![
            done(),
            command("new"),
            BoundaryReply::Outcome(Err(Fault::of("no start").within("replacement"))),
            done(),
            done(),
            command("rollback"),
            BoundaryReply::Rollback(Ok(InstallerRollbackTransition::Restored)),
            done(),
        ],
    );
    assert_eq!(phase, InstallerBoundaryPhase::PriorRestored);
    assert_eq!(
        said,
        ["Error: replacement daemon start failed and daemon absence was re-established: replacement: no start"]
    );
    assert_eq!(end, Some(Ok(())));
}

#[test]
fn a_replacement_that_cannot_be_stopped_ends_the_boundary() {
    let (phase, _, end) = converse(
        &context(None),
        vec![
            done(),
            command("new"),
            BoundaryReply::Outcome(Err(Fault::of("no start"))),
            BoundaryReply::Outcome(Err(Fault::of("still there"))),
        ],
    );
    assert_eq!(phase, InstallerBoundaryPhase::ReplacementTransition);
    assert_eq!(
        end.unwrap().unwrap_err().detail(),
        "replacement daemon start failed and daemon absence could not be re-established: still there: no start"
    );
}

#[test]
fn an_uninstallation_is_confirmed_or_kept_stopped() {
    let (phase, _, end) = converse(
        &context(None),
        vec![
            done(),
            command("uninstall"),
            BoundaryReply::Uninstall(Ok(InstallerUninstallTransition::Ready)),
            done(),
            command("finish"),
            done(),
            done(),
        ],
    );
    assert_eq!((phase, end), (InstallerBoundaryPhase::FinalConfirmed, None));
    let (phase, said, end) = converse(
        &context(None),
        vec![
            done(),
            command("uninstall"),
            BoundaryReply::Uninstall(Ok(InstallerUninstallTransition::RestoredStopped(
                Fault::of("busy"),
            ))),
            done(),
        ],
    );
    assert_eq!((phase, end), (InstallerBoundaryPhase::Stopped, None));
    assert_eq!(
        said,
        ["Error: service uninstall failed; its exact definition was restored stopped and daemon absence remains held: busy"]
    );
    let mut apart = context(None);
    apart.uninstall_paths_match = false;
    let (phase, _, end) = converse(&apart, vec![done(), command("uninstall")]);
    assert_eq!(phase, InstallerBoundaryPhase::Stopped);
    assert_eq!(
        end.unwrap().unwrap_err().headline(),
        "installer uninstall requires identical initial and replacement executable paths"
    );
}

#[test]
fn commands_out_of_turn_and_a_closed_channel_keep_the_phase() {
    for word in ["finish", "abort", "release", "begin", ""] {
        let (phase, _, end) = converse(&context(None), vec![done(), command(word)]);
        assert_eq!(phase, InstallerBoundaryPhase::Stopped);
        assert_eq!(
            end.unwrap().unwrap_err().headline(),
            format!(
                "invalid installer daemon-boundary command '{word}' for the current transaction phase"
            )
        );
    }
    let (phase, _, end) = converse(
        &context(None),
        vec![done(), BoundaryReply::Command(Ok(None))],
    );
    assert_eq!(phase, InstallerBoundaryPhase::Stopped);
    assert_eq!(
        end.unwrap().unwrap_err().headline(),
        "installer daemon-boundary control channel closed before an explicit final state acknowledgement"
    );
    let (_, _, end) = converse(
        &context(None),
        vec![done(), BoundaryReply::Command(Err(Fault::of("broken")))],
    );
    assert_eq!(
        end.unwrap().unwrap_err().detail(),
        "reading installer daemon-boundary command: broken"
    );
}

#[test]
fn a_lost_line_keeps_what_was_applied() {
    let (phase, _, end) = converse(
        &context(None),
        vec![
            done(),
            command("new"),
            done(),
            BoundaryReply::Outcome(Err(Fault::of("closed pipe"))),
        ],
    );
    assert_eq!(phase, InstallerBoundaryPhase::NewReady);
    assert_eq!(end, Some(Err(Fault::of("closed pipe"))));
}

#[test]
fn a_confirmed_replacement_can_still_be_aborted() {
    let (phase, _, end) = converse(
        &context(None),
        vec![
            done(),
            command("new"),
            done(),
            done(),
            command("finish"),
            done(),
            done(),
            command("abort"),
            done(),
            done(),
            command("rollback"),
            BoundaryReply::Rollback(Ok(InstallerRollbackTransition::FailedStopped(
                Fault::of("gone"),
            ))),
            done(),
        ],
    );
    assert_eq!(
        (phase, end),
        (InstallerBoundaryPhase::RollbackFailedStopped, None)
    );
}

#[test]
fn command_words_are_exact() {
    for (word, expected) in [
        ("new", BoundaryCommand::New),
        ("uninstall", BoundaryCommand::Uninstall),
        ("rollback", BoundaryCommand::Rollback),
        ("finish", BoundaryCommand::Finish),
        ("abort", BoundaryCommand::Abort),
        ("release", BoundaryCommand::Release),
        ("New", BoundaryCommand::Other),
        ("new ", BoundaryCommand::Other),
    ] {
        let chars: Vec<char> = word.chars().collect();
        assert_eq!(read_boundary_command(&chars), expected);
    }
}

#[test]
fn a_boundary_that_ends_early_says_what_it_left() {
    let report = |phase, result| {
        let fault = finalize_installer_boundary_error(phase, result, Fault::of("lost"));
        assert!(fault.detail().ends_with(": lost"));
        fault.headline()
    };
    assert_eq!(
        report(
            InstallerBoundaryPhase::Stopping,
            FinalizationResult::FailedStop(Ok(FailedStopRestoration::Exact))
        ),
        "installer daemon-boundary stop failed or unwound; the exact prior daemon state was restored before authority was released"
    );
    assert_eq!(
        report(
            InstallerBoundaryPhase::UninstallTransition,
            FinalizationResult::Uninstall(Ok(UninstallBoundaryState::Applied))
        ),
        "installer daemon-boundary protocol failed during uninstall; exact service removal and daemon absence were verified before authority was released"
    );
    let both = report(
        InstallerBoundaryPhase::NewReady,
        FinalizationResult::Final {
            verified: Err(Fault::of("v")),
            uninstall_applied: false,
            stopped: Err(Fault::of("s")),
        },
    );
    assert!(both.ends_with(
        "neither the final nor a safe stopped state could be classified: v; stopped-state verification: s"
    ));
}

#[test]
fn both_sides_understand_each_other() {
    for nonce in [None, Some(NONCE)] {
        let context = context(nonce);
        let line = |marker| marker_line(&context, marker);
        let ready = line(BoundaryMarker::Ready);
        accept_initial_marker(nonce, &ready).unwrap();
        assert!(ready.starts_with(INSTALLER_DAEMON_BOUNDARY_PREFIX));

        let mut client = SelfUpdateDaemonBoundaryClient::started();
        assert_eq!(client.ask(ClientRequest::RestartReplacement), Ok("new"));
        assert!(client.transition_is_ambiguous());
        assert_eq!(
            client.answer(
                ClientRequest::RestartReplacement,
                &line(BoundaryMarker::NewReady)
            ),
            Ok(ClientAnswer::Restarted(SelfUpdateBoundaryRestart::Ready))
        );
        assert!(client.replacement_is_running());
        assert_eq!(client.ask(ClientRequest::VerifyReplacement), Ok("finish"));
        assert_eq!(
            client.answer(
                ClientRequest::VerifyReplacement,
                &line(BoundaryMarker::FinalConfirmed)
            ),
            Ok(ClientAnswer::Verified)
        );
        assert!(client.replacement_is_finally_verified());
        assert_eq!(client.ask(ClientRequest::Release), Ok("release"));
        assert_eq!(
            client.answer(
                ClientRequest::Release,
                &line(BoundaryMarker::AuthorityReleased)
            ),
            Ok(ClientAnswer::Close)
        );
        assert!(client.is_finished());
    }
}

#[test]
fn a_replacement_is_stopped_and_the_prior_daemon_restored() {
    let context = context(None);
    let mut client = SelfUpdateDaemonBoundaryClient {
        phase: SelfUpdateBoundaryClientPhase::NewReady,
    };
    assert_eq!(client.ask(ClientRequest::StopReplacement), Ok("abort"));
    assert_eq!(
        client.answer(
            ClientRequest::StopReplacement,
            &marker_line(&context, BoundaryMarker::NewStopped)
        ),
        Ok(ClientAnswer::Stopped)
    );
    assert_eq!(client.ask(ClientRequest::RestorePrior), Ok("rollback"));
    assert!(client
        .answer(
            ClientRequest::RestorePrior,
            &marker_line(&context, BoundaryMarker::OldFailed)
        )
        .is_err());
    assert_eq!(
        client.phase,
        SelfUpdateBoundaryClientPhase::ReplacementFailedStopped
    );
    assert_eq!(client.ask(ClientRequest::RestorePrior), Ok("rollback"));
    assert_eq!(
        client.answer(
            ClientRequest::RestorePrior,
            &marker_line(&context, BoundaryMarker::OldRestored)
        ),
        Ok(ClientAnswer::Close)
    );
}

#[test]
fn an_unknown_answer_leaves_the_state_open() {
    let mut client = SelfUpdateDaemonBoundaryClient::started();
    client.ask(ClientRequest::RestartReplacement).unwrap();
    assert_eq!(
        client.answer(ClientRequest::RestartReplacement, "hello"),
        Err(Fault::of(
            "self-update lifecycle holder returned an unexpected replacement marker: hello"
        ))
    );
    assert!(client.transition_is_ambiguous());
    for request in [
        ClientRequest::RestartReplacement,
        ClientRequest::RestorePrior,
        ClientRequest::StopReplacement,
        ClientRequest::VerifyReplacement,
        ClientRequest::Release,
    ] {
        assert!(client.ask(request).is_err());
        assert_eq!(
            client.phase,
            SelfUpdateBoundaryClientPhase::ReplacementTransition
        );
    }
}

#[test]
fn the_first_line_must_attest_the_nonce_and_name_a_state() {
    let plain = marker_line(&context(None), BoundaryMarker::Ready);
    let attested = marker_line(&context(Some(NONCE)), BoundaryMarker::Ready);
    assert!(accept_initial_marker(Some(NONCE), &plain).is_err());
    assert!(accept_initial_marker(None, &attested).is_err());
    assert_eq!(
        accept_initial_marker(None, &format!("{plain}!")),
        Err(Fault::from_text(format!(
            "self-update lifecycle holder returned an invalid initial state: {plain}!"
        )))
    );
}

#[test]
fn the_holder_must_end_well() {
    let ended = |success| HolderExit::Ended {
        success,
        status: "exit status: 3".to_string(),
    };
    close_and_wait(ended(true)).unwrap();
    assert_eq!(
        close_and_wait(ended(false)),
        Err(Fault::of(
            "self-update lifecycle holder exited with status exit status: 3"
        ))
    );
    assert!(close_and_wait(HolderExit::Reaped).is_err());
    assert_eq!(
        close_and_wait(HolderExit::Lost(Fault::of("gone")))
            .unwrap_err()
            .detail(),
        "waiting for self-update lifecycle holder to exit: gone"
    );
    assert!(abandoned_holder_report(ended(true)).is_none());
    assert!(abandoned_holder_report(ended(false)).is_some());
}

#[test]
fn nonces_are_fresh_and_encode_sixteen_bytes() {
    let (first, second) = (fresh_ready_nonce(), fresh_ready_nonce());
    assert_ne!(first, second);
    assert_eq!(first.len(), 32);
    validate_background_ready_nonce(&first).unwrap();
    validate_background_ready_nonce("00112233445566778899AABBCCDDEEFF").unwrap();
    assert_eq!(
        validate_background_ready_nonce("0011"),
        Err(Fault::of(
            "background readiness nonce must encode exactly 128 bits"
        ))
    );
    for (text, cause) in [
        ("001", "Odd number of digits"),
        ("0011xy", "Invalid character 'x' at position 4"),
    ] {
        assert_eq!(
            validate_background_ready_nonce(text).unwrap_err().messages,
            ["background readiness nonce is not hexadecimal", cause]
        );
    }
}

#[test]
fn a_marker_is_one_short_complete_line() {
    let read = |bytes: &[u8]| read_bounded_background_marker("child", Ok(bytes.to_vec()));
    assert_eq!(read(b"ready\r\n"), Ok(("ready".to_string(), 7)));
    assert_eq!(read(b"\n"), Ok((String::new(), 1)));
    assert_eq!(
        read(b""),
        Err(Fault::of("child closed stdout before its marker"))
    );
    assert_eq!(
        read(b"ready"),
        Err(Fault::of("child closed stdout with an incomplete marker"))
    );
    assert_eq!(
        read(b"a\xff\n").unwrap_err().messages,
        [
            "child emitted a non-UTF-8 marker",
            "invalid utf-8 sequence of 1 bytes from index 1",
        ]
    );
    let mut longest = vec![b'x'; 511];
    longest.push(b'\n');
    assert_eq!(read(&longest).unwrap().1, 512);
    longest.push(b'\n');
    assert_eq!(
        read(&longest),
        Err(Fault::of("child exceeded the 512-byte marker line limit"))
    );
    assert_eq!(
        read_bounded_background_marker("child", Err(Fault::of("broken")))
            .unwrap_err()
            .detail(),
        "reading bounded child marker: broken"
    );
}

#[test]
fn a_wait_for_one_line_is_bounded() {
    let wait = |total, before, marker, bytes| {
        await_expected_background_marker("child", "go", total, before, marker, bytes)
    };
    assert_eq!(wait(10, 0, "go", 3), MarkerWaitStep::Found);
    assert_eq!(wait(10, 4, "no", 3), MarkerWaitStep::Again(7));
    assert_eq!(
        wait(10, 8, "go", 3),
        MarkerWaitStep::Refused(Fault::of(
            "child exceeded the 10-byte total marker output limit"
        ))
    );
    assert_eq!(
        wait(usize::MAX, usize::MAX, "go", 3),
        MarkerWaitStep::Refused(Fault::of("child marker byte count overflowed"))
    );
    assert_eq!(
        silent_child("child", "10").headline(),
        "child did not emit a complete marker within 10s"
    );
}

#[test]
fn a_failed_child_is_killed_and_reaped() {
    let exited = |status: Option<&str>| ReapReply::Exited(Ok(status.map(str::to_string)));
    assert_eq!(
        terminate_and_reap_background_child(ReapStage::Check, exited(Some("0"))),
        ReapStep::Finished(Ok("0".to_string()))
    );
    assert_eq!(
        terminate_and_reap_background_child(ReapStage::Check, exited(None)),
        ReapStep::Await(ReapStage::Kill)
    );
    assert_eq!(
        terminate_and_reap_background_child(ReapStage::Kill, ReapReply::Killed(Ok(()))),
        ReapStep::Await(ReapStage::Wait)
    );
    let refused = ReapStage::Recheck(Fault::of("denied"));
    assert_eq!(
        terminate_and_reap_background_child(
            ReapStage::Kill,
            ReapReply::Killed(Err(Fault::of("denied")))
        ),
        ReapStep::Await(ReapStage::Recheck(Fault::of("denied")))
    );
    let ReapStep::Finished(Err(error)) = terminate_and_reap_background_child(refused, exited(None))
    else {
        panic!("the child still runs");
    };
    assert_eq!(
        error.detail(),
        "terminating failed background child: denied"
    );
    assert_eq!(
        background_marker_failure(Fault::of("silent"), Ok("9".to_string()), false).detail(),
        "child was reaped (9), but its marker reader panicked: silent"
    );
    assert_eq!(
        terminate_background_child_on_error(Fault::of("silent"), Err(Fault::of("stuck"))).detail(),
        "child termination/reap failed: stuck: silent"
    );
}

#[test]
fn a_start_succeeds_only_with_its_own_child() {
    let lock = || StartupStage::Lock {
        last_probe_error: None,
    };
    assert_eq!(
        await_daemon_ready(7, StartupStage::Child, None, StartupReply::Exited(None)),
        StartupStep::Await(lock())
    );
    assert_eq!(
        await_daemon_ready(
            7,
            lock(),
            None,
            StartupReply::Lock {
                running: Ok(Some(7)),
                expired: true
            }
        ),
        StartupStep::Finished(Ok(7))
    );
    let StartupStep::Await(cleanup) = await_daemon_ready(
        7,
        lock(),
        None,
        StartupReply::Lock {
            running: Ok(Some(8)),
            expired: false,
        },
    ) else {
        panic!("another child holds the lock");
    };
    assert_eq!(
        await_daemon_ready(7, cleanup, None, StartupReply::Cleanup(Ok(()))),
        StartupStep::Finished(Err(Fault::of(
            "Daemon startup PID 7 lost the PID-lock authority to PID 8; the new child was rejected; the rejected startup child was stopped"
        )))
    );
    assert_eq!(
        await_daemon_ready(
            7,
            lock(),
            None,
            StartupReply::Lock {
                running: Err(Fault::of("unreadable")),
                expired: false
            }
        ),
        StartupStep::Again(Some(Fault::of("unreadable")))
    );
    assert_eq!(
        await_daemon_ready(
            7,
            StartupStage::Child,
            None,
            StartupReply::Exited(Some("exit status: 1".to_string()))
        ),
        StartupStep::Finished(Err(Fault::of(
            "Daemon process (PID 7) exited immediately (exit status: 1); check logs for details"
        )))
    );
}

#[test]
fn a_start_that_is_too_slow_is_ended() {
    let StartupStep::Await(cleanup) = await_daemon_ready(
        7,
        StartupStage::Lock {
            last_probe_error: None,
        },
        None,
        StartupReply::Lock {
            running: Ok(None),
            expired: true,
        },
    ) else {
        panic!("the time is over");
    };
    let StartupStep::Finished(Err(error)) = await_daemon_ready(
        7,
        cleanup,
        None,
        StartupReply::Cleanup(Err(Fault::of("denied"))),
    ) else {
        panic!("the start has failed");
    };
    assert_eq!(
        error.detail(),
        "timed-out startup child cleanup was incomplete: denied: Daemon (PID 7) did not initialize within 10s (no locked PID identity published); check logs"
    );
    terminate_failed_daemon_child(Ok(()), Ok(()), Ok(false)).unwrap();
    terminate_failed_daemon_child(Err(Fault::of("k")), Ok(()), Ok(true)).unwrap();
    assert_eq!(
        terminate_failed_daemon_child(Err(Fault::of("k")), Ok(()), Ok(false))
            .unwrap_err()
            .detail(),
        "daemon startup child remained live after its cleanup kill request failed: k"
    );
}
