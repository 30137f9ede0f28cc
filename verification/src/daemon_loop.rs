//! The daemon's main loop: what each event does to its state, and what is to be
//! done next.
use vstd::prelude::*;

use crate::fault::{headline_of, Fault};
use crate::state::{poll_failure, poll_success, DaemonState, PendingSwitch, PollOutcome};
use crate::text::same_text;

verus! {

/// What the loop is set to.
#[derive(Clone, Copy, Debug, PartialEq, Eq)]
pub struct LoopSettings {
    /// Seconds between two polls.
    pub poll_secs: u64,
    /// Whether a refresh of the cache also warms accounts up.
    pub auto_warmup: bool,
}

/// What happened. Times are Unix seconds, read when the event is handed over.
#[derive(Debug, PartialEq, Eq)]
pub enum LoopEvent {
    /// A poll is due.
    PollTick { now: Result<i64, Fault> },
    /// A poll has ended; the clock was read after it, and once more.
    Polled {
        outcome: Result<PollOutcome, Fault>,
        polled_at: Result<i64, Fault>,
        now: Result<i64, Fault>,
    },
    /// Tokens are to be looked at.
    TokenTick,
    TokensChecked,
    /// The cache is to be refreshed.
    CacheTick,
    CacheRefreshed { now: Result<i64, Fault> },
    /// The system asks the daemon to end.
    Signal,
    /// A request to end names this run of the daemon.
    ShutdownRequest,
}

/// What is to be done next.
#[derive(Debug, PartialEq, Eq)]
pub enum LoopAction {
    /// Waiting for the next event.
    Wait,
    Poll,
    CheckTokens,
    RefreshCache { auto_warmup: bool },
    /// Writing the state, then waiting.
    WriteState,
    /// Writing the state and reporting for how long polling is suspended, then
    /// waiting.
    WriteSuspension { seconds: u64 },
    End(Result<(), Fault>),
}

/// Whether recording an outcome needs the time once more.
pub open spec fn needs_time(pending: Option<PendingSwitch>, outcome: PollOutcome) -> bool {
    match outcome {
        PollOutcome::NoAction => false,
        PollOutcome::Switched { .. } => true,
        PollOutcome::Deferred { to } => !(pending matches Some(p) && p.to@ == to@),
    }
}

/// Whether the loop ends with a failure.
pub open spec fn loop_fails(action: LoopAction, messages: Seq<Seq<char>>) -> bool {
    action matches LoopAction::End(Err(fault)) && fault@ == messages
}

/// The time that was read, or an arbitrary one where none was.
pub open spec fn time_or_zero(now: Result<i64, Fault>) -> i64 {
    match now {
        Ok(seconds) => seconds,
        Err(_) => 0,
    }
}

/// What an event leads to. Failures of polls suspend polling and nothing else;
/// only a clock that cannot be read, a suspension that cannot be computed, a
/// signal or a request ends the loop.
pub open spec fn loop_next(
    settings: LoopSettings,
    before: DaemonState,
    event: LoopEvent,
    after: DaemonState,
    action: LoopAction,
) -> bool {
    match event {
        LoopEvent::PollTick { now } => match now {
            Err(error) => after == before && loop_fails(action, error@),
            Ok(seconds) => if before.backoff_until matches Some(until) && seconds < until {
                after == before && action == LoopAction::Wait
            } else {
                after == (DaemonState { backoff_until: None, ..before }) && action
                    == LoopAction::Poll
            },
        },
        LoopEvent::Polled { outcome, polled_at, now } => match polled_at {
            Err(error) => after == before && loop_fails(action, error@),
            Ok(polled) => match outcome {
                Ok(found) => match now {
                    Err(error) => if needs_time(before.pending_switch, found) {
                        after == before && loop_fails(action, error@)
                    } else {
                        poll_success(before, found, polled, 0, after) && action
                            == LoopAction::WriteState
                    },
                    Ok(seconds) => poll_success(before, found, polled, seconds, after) && action
                        == LoopAction::WriteState,
                },
                Err(failure) => exists|r: Result<u64, Fault>| #[trigger]
                    poll_failure(
                        before,
                        headline_of(failure@),
                        settings.poll_secs,
                        polled,
                        time_or_zero(now),
                        after,
                        r,
                    ) && match r {
                        Err(fault) => loop_fails(action, fault@),
                        Ok(seconds) => match now {
                            Err(error) => loop_fails(action, error@),
                            Ok(_) => action == LoopAction::WriteSuspension { seconds },
                        },
                    },
            },
        },
        LoopEvent::TokenTick => after == before && action == LoopAction::CheckTokens,
        LoopEvent::TokensChecked => after == before && action == LoopAction::Wait,
        LoopEvent::CacheTick => after == before && action == LoopAction::RefreshCache {
            auto_warmup: settings.auto_warmup,
        },
        LoopEvent::CacheRefreshed { now } => match now {
            Err(error) => after == before && loop_fails(action, error@),
            Ok(seconds) => after == (DaemonState { last_cache_refresh_at: Some(seconds), ..before })
                && action == LoopAction::WriteState,
        },
        LoopEvent::Signal => after == before && (action matches LoopAction::End(Ok(_))),
        LoopEvent::ShutdownRequest => after == before && (action matches LoopAction::End(Ok(_))),
    }
}

fn is_pending(pending: &Option<PendingSwitch>, to: &str) -> (r: bool)
    ensures
        r == (*pending matches Some(p) && p.to@ == to@),
{
    match pending {
        Some(p) => same_text(p.to.as_str(), to),
        None => false,
    }
}

/// Handles one event of the main loop.
pub fn run_daemon_loop(settings: &LoopSettings, state: &mut DaemonState, event: LoopEvent) -> (r:
    LoopAction)
    requires
        event matches LoopEvent::Polled { outcome: Err(_), .. } ==> old(state).consecutive_failures
            < u32::MAX,
    ensures
        loop_next(*settings, *old(state), event, *final(state), r),
{
    match event {
        LoopEvent::PollTick { now } => match now {
            Err(error) => LoopAction::End(Err(error)),
            Ok(seconds) => if state.begin_poll(seconds) {
                LoopAction::Poll
            } else {
                LoopAction::Wait
            },
        },
        LoopEvent::Polled { outcome, polled_at, now } => {
            let polled: i64 = match polled_at {
                Err(error) => {
                    return LoopAction::End(Err(error));
                },
                Ok(seconds) => seconds,
            };
            match outcome {
                Ok(found) => {
                    let needed = match &found {
                        PollOutcome::NoAction => false,
                        PollOutcome::Switched { from: _, to: _ } => true,
                        PollOutcome::Deferred { to } => !is_pending(
                            &state.pending_switch,
                            to.as_str(),
                        ),
                    };
                    let seconds: i64 = match now {
                        Ok(seconds) => seconds,
                        Err(error) => {
                            if needed {
                                return LoopAction::End(Err(error));
                            }
                            0
                        },
                    };
                    state.poll_succeeded(found, polled, seconds);
                    LoopAction::WriteState
                },
                Err(failure) => {
                    let message = failure.headline();
                    let seconds: i64 = match &now {
                        Ok(seconds) => *seconds,
                        Err(_) => 0,
                    };
                    let ghost before = *state;
                    let suspended = state.poll_failed(
                        message,
                        settings.poll_secs,
                        polled,
                        seconds,
                    );
                    assert(poll_failure(
                        before,
                        headline_of(failure@),
                        settings.poll_secs,
                        polled,
                        time_or_zero(now),
                        *state,
                        suspended,
                    ));
                    match suspended {
                        Err(fault) => LoopAction::End(Err(fault)),
                        Ok(seconds) => match now {
                            Err(error) => LoopAction::End(Err(error)),
                            Ok(_) => LoopAction::WriteSuspension { seconds },
                        },
                    }
                },
            }
        },
        LoopEvent::TokenTick => LoopAction::CheckTokens,
        LoopEvent::TokensChecked => LoopAction::Wait,
        LoopEvent::CacheTick => LoopAction::RefreshCache { auto_warmup: settings.auto_warmup },
        LoopEvent::CacheRefreshed { now } => match now {
            Err(error) => LoopAction::End(Err(error)),
            Ok(seconds) => {
                state.cache_refreshed(seconds);
                LoopAction::WriteState
            },
        },
        LoopEvent::Signal => LoopAction::End(Ok(())),
        LoopEvent::ShutdownRequest => LoopAction::End(Ok(())),
    }
}

/// While polling is suspended, tokens are still checked and the cache is still
/// refreshed; a signal or a request still ends the loop.
pub proof fn law_suspension_stops_polls_only(
    settings: LoopSettings,
    before: DaemonState,
    event: LoopEvent,
    after: DaemonState,
    action: LoopAction,
)
    requires
        loop_next(settings, before, event, after, action),
        before.backoff_until is Some,
    ensures
        event matches LoopEvent::PollTick { now: Ok(seconds) } ==> ((action == LoopAction::Poll)
            <==> seconds >= before.backoff_until->0),
        event is TokenTick ==> action == LoopAction::CheckTokens,
        event is CacheTick ==> action is RefreshCache,
        event is Signal || event is ShutdownRequest ==> action is End,
{
}

/// A poll that succeeded ends the count of failures; one that failed is counted
/// and changes no record of a switch.
pub proof fn law_failures_are_counted(
    settings: LoopSettings,
    before: DaemonState,
    event: LoopEvent,
    after: DaemonState,
    action: LoopAction,
)
    requires
        loop_next(settings, before, event, after, action),
        before.consecutive_failures < u32::MAX,
    ensures
        event matches LoopEvent::Polled { outcome: Ok(_), .. } && action is WriteState
            ==> after.consecutive_failures == 0 && after.last_error is None,
        event matches LoopEvent::Polled { outcome: Err(_), .. } && action is WriteSuspension
            ==> after.consecutive_failures == before.consecutive_failures + 1 && after.last_error is Some
            && after.backoff_until is Some && after.last_switch == before.last_switch
            && after.pending_switch == before.pending_switch,
        !(event is Polled) ==> after.consecutive_failures == before.consecutive_failures,
{
}

} // verus!
