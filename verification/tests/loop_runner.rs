use std::cell::Cell;

use codex_switch_daemon::codex_process::CodexActivity;
use codex_switch_daemon::daemon_loop::{run_daemon_loop, LoopAction, LoopEvent, LoopSettings};
use codex_switch_daemon::fault::Fault;
use codex_switch_daemon::loop_runner::{
    current_usage_percent_for_switch, poll_backoff_secs, preflight_candidate_profiles_with,
    switch_defer_reason, LastUse, UsageBasis, WindowUse,
};
use codex_switch_daemon::monitor::{
    check_and_switch, PollReply, PollStage, PollStep, ThresholdComparison,
};
use codex_switch_daemon::state::{DaemonState, PendingSwitch, PollOutcome};

fn window(used_percent: Option<f64>) -> Option<WindowUse> {
    Some(match used_percent {
        None => WindowUse::Unreported,
        Some(percent) if percent >= 100.0 => WindowUse::Full,
        Some(_) => WindowUse::Partly,
    })
}

fn settings() -> LoopSettings {
    LoopSettings {
        poll_secs: 60,
        auto_warmup: true,
    }
}

#[test]
fn poll_backoff_doubles_and_caps_at_sixteen_intervals() {
    assert_eq!(poll_backoff_secs(60, 1).unwrap(), 120);
    assert_eq!(poll_backoff_secs(60, 2).unwrap(), 240);
    assert_eq!(poll_backoff_secs(60, 4).unwrap(), 960);
    assert_eq!(poll_backoff_secs(60, 10).unwrap(), 960);
    assert!(poll_backoff_secs(u64::MAX, 1).is_err());
}

#[test]
fn account_limited_usage_bypasses_low_usage_switch_threshold() {
    assert_eq!(
        current_usage_percent_for_switch(true, window(Some(1.0)), None),
        UsageBasis::Exhausted
    );
}

#[test]
fn auth_mutation_and_failed_inspection_always_defer_switching() {
    for defer_sessions in [false, true] {
        assert!(switch_defer_reason(CodexActivity::AuthMutation, defer_sessions).is_some());
        assert!(switch_defer_reason(CodexActivity::Unknown, defer_sessions).is_some());
    }
    assert!(switch_defer_reason(CodexActivity::Session, true).is_some());
    assert!(switch_defer_reason(CodexActivity::Session, false).is_none());
    assert!(switch_defer_reason(CodexActivity::Idle, true).is_none());
}

#[test]
fn exhausted_weekly_usage_bypasses_low_primary_switch_threshold() {
    assert_eq!(
        current_usage_percent_for_switch(false, window(Some(20.0)), window(Some(100.0))),
        UsageBasis::Exhausted
    );
}

#[test]
fn usage_without_any_quota_window_does_not_authorize_a_switch() {
    assert_eq!(
        current_usage_percent_for_switch(false, None, None),
        UsageBasis::Unknown
    );
}

#[test]
fn quota_exhaustion_boundary_requires_a_full_hundred_percent() {
    assert_eq!(
        current_usage_percent_for_switch(false, window(Some(20.0)), window(Some(99.999))),
        UsageBasis::Primary
    );
    assert_eq!(
        current_usage_percent_for_switch(false, window(Some(20.0)), window(Some(100.0))),
        UsageBasis::Exhausted
    );
    assert_eq!(
        current_usage_percent_for_switch(false, None, window(Some(50.0))),
        UsageBasis::Secondary
    );
    assert_eq!(
        current_usage_percent_for_switch(false, window(None), window(Some(50.0))),
        UsageBasis::Unknown
    );
}

#[test]
fn automatic_selection_preflights_every_candidate_before_spawning_workers() {
    let profiles = vec![
        "current".to_string(),
        "alice".to_string(),
        "bob".to_string(),
    ];
    let path_reads = Cell::new(0usize);
    let info_reads = Cell::new(0usize);

    let error = preflight_candidate_profiles_with(
        &profiles,
        "current",
        &[],
        |alias: &str| -> Result<String, Fault> {
            path_reads.set(path_reads.get() + 1);
            Ok(alias.to_string())
        },
        |alias: &str, _path: &String| -> Result<u8, Fault> {
            info_reads.set(info_reads.get() + 1);
            if alias == "bob" {
                return Err(Fault::of("injected later metadata failure"));
            }
            Ok(0)
        },
    )
    .expect_err("a later preflight failure must reject the complete candidate batch");

    assert!(error.detail().contains("injected later metadata failure"));
    assert_eq!(path_reads.get(), 2);
    assert_eq!(info_reads.get(), 2);
}

#[test]
fn candidates_are_every_other_profile_with_its_last_use() {
    let profiles = vec!["a".to_string(), "b".to_string(), "c".to_string()];
    let history = vec![
        LastUse {
            alias: "c".to_string(),
            at: 77,
        },
        LastUse {
            alias: "b".to_string(),
            at: 55,
        },
    ];
    let candidates = preflight_candidate_profiles_with(
        &profiles,
        "b",
        &history,
        |alias: &str| -> Result<String, Fault> { Ok(format!("/{alias}")) },
        |alias: &str, path: &String| -> Result<usize, Fault> { Ok(alias.len() + path.len()) },
    )
    .unwrap();
    assert_eq!(candidates.len(), 2);
    assert_eq!(candidates[0].alias, "a");
    assert_eq!(candidates[0].path, "/a");
    assert_eq!(candidates[0].info, 3);
    assert_eq!(candidates[1].alias, "c");
    assert_eq!(candidates[1].last_used, 77);
}

#[test]
fn a_poll_of_one_profile_does_nothing() {
    assert_eq!(
        check_and_switch(PollStage::ListProfiles, PollReply::Profiles(Ok(1))),
        PollStep::Finished(Ok(PollOutcome::NoAction))
    );
    assert_eq!(
        check_and_switch(PollStage::ListProfiles, PollReply::Profiles(Ok(2))),
        PollStep::Await(PollStage::SyncCurrent)
    );
}

#[test]
fn a_poll_below_the_threshold_does_nothing() {
    let stage = PollStage::Compare {
        current: "a".to_string(),
    };
    assert_eq!(
        check_and_switch(stage, PollReply::Comparison(ThresholdComparison::Below)),
        PollStep::Finished(Ok(PollOutcome::NoAction))
    );
}

#[test]
fn a_poll_waits_while_a_session_runs() {
    let reply = |defer: bool| PollReply::Activity {
        activity: CodexActivity::Session,
        defer_interactive_session: defer,
    };
    let stage = || PollStage::Activity {
        current: "a".to_string(),
        target: "b".to_string(),
    };
    assert_eq!(
        check_and_switch(stage(), reply(true)),
        PollStep::Finished(Ok(PollOutcome::Deferred {
            to: "b".to_string()
        }))
    );
    assert_eq!(
        check_and_switch(stage(), reply(false)),
        PollStep::Await(PollStage::Switch {
            current: "a".to_string(),
            target: "b".to_string()
        })
    );
}

#[test]
fn a_reply_that_does_not_fit_its_stage_fails() {
    assert!(matches!(
        check_and_switch(PollStage::SyncCurrent, PollReply::Profiles(Ok(2))),
        PollStep::Finished(Err(_))
    ));
}

#[test]
fn failed_polls_suspend_polling_and_nothing_else() {
    let mut state = DaemonState::started(7, 1000);
    let event = LoopEvent::Polled {
        outcome: Err(Fault::of("no network").within("polling")),
        polled_at: Ok(2000),
        now: Ok(2001),
    };
    assert_eq!(
        run_daemon_loop(&settings(), &mut state, event),
        LoopAction::WriteSuspension { seconds: 120 }
    );
    assert_eq!(state.consecutive_failures, 1);
    assert_eq!(state.last_error.as_deref(), Some("polling"));
    assert_eq!(state.last_poll_at, Some(2000));
    assert_eq!(state.backoff_until, Some(2121));
    assert_eq!(
        run_daemon_loop(&settings(), &mut state, LoopEvent::PollTick { now: Ok(2120) }),
        LoopAction::Wait
    );
    assert_eq!(
        run_daemon_loop(&settings(), &mut state, LoopEvent::TokenTick),
        LoopAction::CheckTokens
    );
    assert_eq!(
        run_daemon_loop(&settings(), &mut state, LoopEvent::CacheTick),
        LoopAction::RefreshCache { auto_warmup: true }
    );
    assert_eq!(
        run_daemon_loop(&settings(), &mut state, LoopEvent::PollTick { now: Ok(2121) }),
        LoopAction::Poll
    );
    assert_eq!(state.backoff_until, None);
    assert_eq!(
        run_daemon_loop(&settings(), &mut state, LoopEvent::Signal),
        LoopAction::End(Ok(()))
    );
}

#[test]
fn a_pending_switch_keeps_its_time_while_its_target_stays() {
    let mut state = DaemonState::started(7, 1000);
    state.consecutive_failures = 3;
    let deferred = |to: &str| LoopEvent::Polled {
        outcome: Ok(PollOutcome::Deferred { to: to.to_string() }),
        polled_at: Ok(2000),
        now: Ok(2001),
    };
    assert_eq!(
        run_daemon_loop(&settings(), &mut state, deferred("b")),
        LoopAction::WriteState
    );
    assert_eq!(state.consecutive_failures, 0);
    let pending = |to: &str, since: i64| {
        Some(PendingSwitch {
            to: to.to_string(),
            since,
        })
    };
    assert_eq!(state.pending_switch, pending("b", 2001));
    let again = LoopEvent::Polled {
        outcome: Ok(PollOutcome::Deferred { to: "b".to_string() }),
        polled_at: Ok(3000),
        now: Err(Fault::of("no clock")),
    };
    assert_eq!(
        run_daemon_loop(&settings(), &mut state, again),
        LoopAction::WriteState
    );
    assert_eq!(state.pending_switch, pending("b", 2001));
    run_daemon_loop(&settings(), &mut state, deferred("c"));
    assert_eq!(state.pending_switch, pending("c", 2001));
    let switched = LoopEvent::Polled {
        outcome: Ok(PollOutcome::Switched {
            from: "a".to_string(),
            to: "c".to_string(),
        }),
        polled_at: Ok(4000),
        now: Ok(4001),
    };
    run_daemon_loop(&settings(), &mut state, switched);
    assert_eq!(state.pending_switch, None);
    let record = state.last_switch.expect("a switch is recorded");
    assert_eq!((record.from.as_str(), record.to.as_str(), record.at), ("a", "c", 4001));
}

#[test]
fn a_clock_that_cannot_be_read_ends_the_loop() {
    let mut state = DaemonState::started(7, 1000);
    let tick = LoopEvent::PollTick {
        now: Err(Fault::of("no clock")),
    };
    assert_eq!(
        run_daemon_loop(&settings(), &mut state, tick),
        LoopAction::End(Err(Fault::of("no clock")))
    );
    let refreshed = LoopEvent::CacheRefreshed { now: Ok(5000) };
    assert_eq!(
        run_daemon_loop(&settings(), &mut state, refreshed),
        LoopAction::WriteState
    );
    assert_eq!(state.last_cache_refresh_at, Some(5000));
}

#[test]
fn a_suspension_that_does_not_fit_ends_the_loop() {
    let mut state = DaemonState::started(7, 1000);
    let event = |now: i64| LoopEvent::Polled {
        outcome: Err(Fault::of("down")),
        polled_at: Ok(2000),
        now: Ok(now),
    };
    let huge = LoopSettings {
        poll_secs: u64::MAX,
        auto_warmup: false,
    };
    assert_eq!(
        run_daemon_loop(&huge, &mut state, event(0)),
        LoopAction::End(Err(Fault::of(
            "daemon poll backoff exceeds the supported timer range"
        )))
    );
    let large = LoopSettings {
        poll_secs: 1 << 61,
        auto_warmup: false,
    };
    assert_eq!(
        run_daemon_loop(&large, &mut state, event(0)),
        LoopAction::End(Err(Fault {
            messages: vec![
                "daemon poll backoff exceeds persisted state range".to_string(),
                "out of range integral type conversion attempted".to_string(),
            ],
        }))
    );
    assert_eq!(
        run_daemon_loop(&settings(), &mut state, event(i64::MAX)),
        LoopAction::End(Err(Fault::of("daemon poll backoff timestamp overflowed")))
    );
}

#[test]
fn a_preflight_reports_the_first_profile_that_fails() {
    let profiles = vec!["bob".to_string(), "alice".to_string(), "carol".to_string()];
    let error = preflight_candidate_profiles_with(
        &profiles,
        "bob",
        &[],
        |alias: &str| -> Result<String, Fault> {
            match alias {
                "bob" => panic!("the current profile is not read"),
                alias => Ok(alias.to_string()),
            }
        },
        |alias: &str, _path: &String| -> Result<u8, Fault> { Err(Fault::of(alias)) },
    )
    .unwrap_err();
    assert!(error.detail().contains("alice"));
    assert!(!error.detail().contains("carol"));
}
