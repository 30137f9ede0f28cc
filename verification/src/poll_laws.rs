//! What polling is for: an account that has reached its threshold is left for a
//! better one, and every poll is accounted for in the daemon's state.
use vstd::prelude::*;

use crate::cause::stems_from;
use crate::codex_process::CodexActivity;
use crate::daemon_loop::{loop_next, LoopAction, LoopEvent, LoopSettings};
use crate::fault::{headline_of, Fault};
use crate::loop_runner::{
    backoff_factor, current_usage_percent_for_switch, last_use_of, others, poll_backoff_secs,
    power_of_two, switch_defer_reason, LastUse, UsageBasis, WindowUse,
};
use crate::monitor::{
    check_and_switch, collect_workers, failed_count, failed_workers, refresh_profile,
    refresh_summary, refreshed_count, usable_workers, warmed_count, CacheRefreshSummary, PollReply,
    PollStage, PollStep, ProfileRefresh, RefreshReply, RefreshStage, RefreshStep,
    ThresholdComparison, WorkerFailure, WorkerOutcome,
};
use crate::state::{poll_failure, poll_success, DaemonState, PollOutcome, SwitchRecord};

verus! {

// -- One poll --

/// Whether a reply is the one that a stage asks for, and lets the poll go on: two
/// profiles or more, a live one, usage that reached the threshold, a better
/// profile, and nothing that holds the switch back.
pub open spec fn lets_poll_go_on(stage: PollStage, reply: PollReply) -> bool {
    match stage {
        PollStage::ListProfiles => reply matches PollReply::Profiles(Ok(count)) && count >= 2,
        PollStage::SyncCurrent => reply matches PollReply::Current(Ok(Some(_))),
        PollStage::Compare { .. } => reply == PollReply::Comparison(ThresholdComparison::Reached),
        PollStage::Pick { .. } => reply matches PollReply::Picked(Some(_)),
        PollStage::Activity { .. } => reply matches PollReply::Activity {
            activity,
            defer_interactive_session,
        } && (activity == CodexActivity::Idle || (activity == CodexActivity::Session
            && !defer_interactive_session)),
        PollStage::Switch { .. } => reply == PollReply::Switched(Ok(true)),
        _ => reply matches PollReply::Outcome(Ok(_)),
    }
}

/// The profile that a stage is about to leave.
pub open spec fn left_profile(stage: PollStage) -> Option<String> {
    match stage {
        PollStage::ListProfiles => None,
        PollStage::SyncCurrent => None,
        PollStage::FetchCurrent { current } => Some(current),
        PollStage::Compare { current } => Some(current),
        PollStage::LastUsed { current } => Some(current),
        PollStage::CurrentInfo { current } => Some(current),
        PollStage::Preflight { current } => Some(current),
        PollStage::FetchCandidates { current } => Some(current),
        PollStage::Pick { current } => Some(current),
        PollStage::Activity { current, .. } => Some(current),
        PollStage::Switch { current, .. } => Some(current),
    }
}

/// The profile that a stage is about to take.
pub open spec fn taken_profile(stage: PollStage) -> Option<String> {
    match stage {
        PollStage::Activity { target, .. } => Some(target),
        PollStage::Switch { target, .. } => Some(target),
        _ => None,
    }
}

/// Progress of a poll: whatever lets it go on leads to a next stage, until the
/// switch itself ends it with both profiles named. The profile that is left is the
/// live one that was found, and the one that is taken is the one that was picked.
pub proof fn law_a_poll_goes_on_to_the_switch(stage: PollStage, reply: PollReply, step: PollStep)
    requires
        call_ensures(check_and_switch, (stage, reply), step),
        lets_poll_go_on(stage, reply),
    ensures
        !(stage is Switch) ==> step is Await,
        stage matches PollStage::Switch { current, target } ==> step == PollStep::Finished(
            Ok(PollOutcome::Switched { from: current, to: target }),
        ),
        step matches PollStep::Await(next) ==> {
            &&& left_profile(stage) is Some ==> left_profile(next) == left_profile(stage)
            &&& taken_profile(stage) is Some ==> taken_profile(next) == taken_profile(stage)
        },
        reply matches PollReply::Current(Ok(Some(found))) ==> (step matches PollStep::Await(next)
            && left_profile(next) == Some(found)),
        reply matches PollReply::Picked(Some(best)) ==> (step matches PollStep::Await(next)
            && taken_profile(next) == Some(best)),
{
}

/// One turn of a poll: what it waited for, what it was given, and what it did.
pub struct PollTurn {
    pub stage: PollStage,
    pub reply: PollReply,
    pub step: PollStep,
}

/// Whether turns follow each other from the beginning of a poll.
pub open spec fn poll_run(turns: Seq<PollTurn>) -> bool {
    &&& turns.len() > 0
    &&& turns[0].stage == PollStage::ListProfiles
    &&& forall|i: int|
        0 <= i < turns.len() ==> call_ensures(
            check_and_switch,
            ((#[trigger] turns[i]).stage, turns[i].reply),
            turns[i].step,
        )
    &&& forall|i: int|
        0 <= i < turns.len() - 1 ==> (#[trigger] turns[i]).step == PollStep::Await(
            turns[i + 1].stage,
        )
}

/// A poll in which everything lets it go on is over only after the switch: it has
/// then left the profile that was found for the one that was picked.
pub proof fn law_a_poll_that_reaches_the_threshold_switches(turns: Seq<PollTurn>)
    requires
        poll_run(turns),
        forall|i: int|
            0 <= i < turns.len() ==> lets_poll_go_on((#[trigger] turns[i]).stage, turns[i].reply),
        turns.last().step is Finished,
    ensures
        turns.len() == 11,
        turns[1].reply matches PollReply::Current(Ok(Some(found))) && (turns[8].reply matches
            PollReply::Picked(Some(best)) && turns.last().step == PollStep::Finished(
            Ok(PollOutcome::Switched { from: found, to: best }),
        )),
{
    assert(turns[0].step is Await);
    assert(turns[1].stage is SyncCurrent);
    assert(turns[1].step is Await);
    assert(turns[2].stage is FetchCurrent);
    assert(turns[2].step is Await);
    assert(turns[3].stage is Compare);
    assert(turns[3].step is Await);
    assert(turns[4].stage is LastUsed);
    assert(turns[4].step is Await);
    assert(turns[5].stage is CurrentInfo);
    assert(turns[5].step is Await);
    assert(turns[6].stage is Preflight);
    assert(turns[6].step is Await);
    assert(turns[7].stage is FetchCandidates);
    assert(turns[7].step is Await);
    assert(turns[8].stage is Pick);
    assert(turns[8].step is Await);
    assert(turns[9].stage is Activity);
    assert(turns[9].step is Await);
    assert(turns[10].stage is Switch);
    assert(turns[10].step is Finished);
}

/// A poll does nothing for five reasons only: there is one profile at most, none is
/// live, its usage is not known or below the threshold, no other is better, or the
/// active profile changed meanwhile. It is put off exactly where something holds
/// the switch back, and then names the profile that was picked.
pub proof fn law_a_poll_without_a_switch_has_a_reason(
    stage: PollStage,
    reply: PollReply,
    step: PollStep,
)
    requires
        call_ensures(check_and_switch, (stage, reply), step),
    ensures
        step == PollStep::Finished(Ok(PollOutcome::NoAction)) <==> {
            ||| stage is ListProfiles && (reply matches PollReply::Profiles(Ok(count)) && count < 2)
            ||| stage is SyncCurrent && reply == PollReply::Current(Ok(None))
            ||| stage is Compare && (reply == PollReply::Comparison(ThresholdComparison::Below)
                || reply == PollReply::Comparison(ThresholdComparison::NoPercentage))
            ||| stage is Pick && reply == PollReply::Picked(None)
            ||| stage is Switch && reply == PollReply::Switched(Ok(false))
        },
        stage matches PollStage::Activity { current, target } ==> (reply matches
            PollReply::Activity { activity, defer_interactive_session } ==> if activity
            == CodexActivity::AuthMutation || activity == CodexActivity::Unknown || (activity
            == CodexActivity::Session && defer_interactive_session) {
            step == PollStep::Finished(Ok(PollOutcome::Deferred { to: target }))
        } else {
            step == PollStep::Await(PollStage::Switch { current, target })
        }),
        step matches PollStep::Finished(Ok(PollOutcome::Deferred { .. })) ==> stage is Activity,
        step matches PollStep::Finished(Ok(PollOutcome::Switched { .. })) ==> stage is Switch
            && reply == PollReply::Switched(Ok(true)),
{
}

/// A poll fails with whatever failed.
pub proof fn law_a_failed_poll_says_why(stage: PollStage, reply: PollReply, step: PollStep)
    requires
        call_ensures(check_and_switch, (stage, reply), step),
    ensures
        stage is ListProfiles ==> (reply matches PollReply::Profiles(Err(error)) ==> (step matches
            PollStep::Finished(Err(fault)) && stems_from(fault@, error@))),
        stage is SyncCurrent ==> (reply matches PollReply::Current(Err(error)) ==> (step matches
            PollStep::Finished(Err(fault)) && stems_from(fault@, error@))),
        stage is Switch ==> (reply matches PollReply::Switched(Err(error)) ==> (step matches
            PollStep::Finished(Err(fault)) && stems_from(fault@, error@))),
        stage is FetchCurrent || stage is LastUsed || stage is CurrentInfo || stage is Preflight
            || stage is FetchCandidates ==> (reply matches PollReply::Outcome(Err(error)) ==> (step
            matches PollStep::Finished(Err(fault)) && stems_from(fault@, error@))),
{
}

/// Only a reason holds a switch back: a change of the credential and a failed
/// inspection always, a session where that was configured, an idle system never.
pub proof fn law_a_switch_waits_only_for_a_reason(
    activity: CodexActivity,
    defer: bool,
    r: Option<&'static str>,
)
    requires
        call_ensures(switch_defer_reason, (activity, defer), r),
    ensures
        r is Some <==> (activity == CodexActivity::AuthMutation || activity
            == CodexActivity::Unknown || (activity == CodexActivity::Session && defer)),
{
}

// -- The share that decides --

/// A full window, or an account that cannot run, is decisive whatever else is
/// known. Otherwise the primary window decides where it is known, and the
/// secondary one only in its place.
pub proof fn law_the_deciding_share(
    limited: bool,
    primary: Option<WindowUse>,
    secondary: Option<WindowUse>,
    r: UsageBasis,
)
    requires
        call_ensures(current_usage_percent_for_switch, (limited, primary, secondary), r),
    ensures
        r == UsageBasis::Exhausted <==> (limited || primary == Some(WindowUse::Full) || secondary
            == Some(WindowUse::Full)),
        r == UsageBasis::Primary ==> primary == Some(WindowUse::Partly),
        r == UsageBasis::Secondary ==> primary is None && secondary == Some(WindowUse::Partly),
        !limited && primary == Some(WindowUse::Partly) && secondary != Some(WindowUse::Full) ==> r
            == UsageBasis::Primary,
        !limited && primary is None && secondary == Some(WindowUse::Partly) ==> r
            == UsageBasis::Secondary,
{
}

// -- Backing off --

/// The wait doubles with each failure until it is sixteen intervals long, and
/// stays there.
pub proof fn law_the_wait_doubles(
    poll_secs: u64,
    failures: u32,
    a: Result<u64, Fault>,
    b: Result<u64, Fault>,
)
    requires
        failures < u32::MAX,
        call_ensures(poll_backoff_secs, (poll_secs, failures), a),
        call_ensures(poll_backoff_secs, (poll_secs, (failures + 1) as u32), b),
        16 * poll_secs <= u64::MAX,
    ensures
        a is Ok,
        b is Ok,
        failures == 0 ==> a->Ok_0 == poll_secs,
        failures < 4 ==> b->Ok_0 == 2 * a->Ok_0,
        failures >= 4 ==> a->Ok_0 == 16 * poll_secs && b->Ok_0 == 16 * poll_secs,
{
    reveal_with_fuel(power_of_two, 6);
    if failures >= 4 {
        crate::loop_runner::law_backoff_grows_and_is_capped(4, failures as nat);
        crate::loop_runner::law_backoff_grows_and_is_capped(4, (failures + 1) as nat);
        assert(backoff_factor(failures as nat) == 16);
        assert(backoff_factor((failures + 1) as nat) == 16);
    } else {
        assert(failures == 0 || failures == 1 || failures == 2 || failures == 3);
    }
    assert(poll_secs * backoff_factor(failures as nat) <= poll_secs * 16) by (nonlinear_arith)
        requires
            backoff_factor(failures as nat) <= 16,
            poll_secs >= 0,
    ;
    assert(poll_secs * backoff_factor((failures + 1) as nat) <= poll_secs * 16)
        by (nonlinear_arith)
        requires
            backoff_factor((failures + 1) as nat) <= 16,
            poll_secs >= 0,
    ;
    if failures == 0 {
        assert(backoff_factor(failures as nat) == 1);
        assert(poll_secs * 1 == poll_secs);
    }
    if failures < 4 {
        assert(backoff_factor((failures + 1) as nat) == 2 * backoff_factor(failures as nat));
        assert(poll_secs * (2 * backoff_factor(failures as nat)) == 2 * (poll_secs
            * backoff_factor(failures as nat))) by (nonlinear_arith);
    }
}

// -- What is kept of a poll --

/// What a successful poll did is what is kept of it: a switch with both names and
/// its time, a switch that waits with the time since when it does, or neither. The
/// record of an earlier switch stays until the next one.
pub proof fn law_a_successful_poll_is_recorded(
    before: DaemonState,
    outcome: PollOutcome,
    polled_at: i64,
    now: i64,
    after: DaemonState,
)
    requires
        poll_success(before, outcome, polled_at, now, after),
    ensures
        after.last_poll_at == Some(polled_at),
        after.consecutive_failures == 0,
        after.last_error is None,
        outcome matches PollOutcome::Switched { from, to } ==> after.last_switch == Some(
            SwitchRecord { from, to, at: now },
        ) && after.pending_switch is None,
        !(outcome is Switched) ==> after.last_switch == before.last_switch,
        outcome is NoAction ==> after.pending_switch is None,
        outcome matches PollOutcome::Deferred { to } ==> (after.pending_switch matches Some(waits)
            && waits.to == to && (before.pending_switch matches Some(p) && p.to@ == to@
            ==> waits.since == before.pending_switch->0.since) && (!(before.pending_switch matches
            Some(p) && p.to@ == to@) ==> waits.since == now)),
        after.pid == before.pid && after.started_at == before.started_at,
        after.last_cache_refresh_at == before.last_cache_refresh_at,
{
}

/// A failed poll is counted, keeps its error, and suspends polling from now on for
/// as long as is reported; nothing about switches is forgotten.
pub proof fn law_a_failed_poll_is_recorded(
    before: DaemonState,
    error: Seq<char>,
    poll_secs: u64,
    polled_at: i64,
    now: i64,
    after: DaemonState,
    r: Result<u64, Fault>,
)
    requires
        poll_failure(before, error, poll_secs, polled_at, now, after, r),
        before.consecutive_failures < u32::MAX,
    ensures
        after.consecutive_failures == before.consecutive_failures + 1,
        after.last_poll_at == Some(polled_at),
        after.last_error matches Some(text) && text@ == error,
        after.last_switch == before.last_switch,
        after.pending_switch == before.pending_switch,
        r matches Ok(secs) ==> after.backoff_until == Some((now + secs) as i64) && secs >= poll_secs
            && secs <= 16 * poll_secs,
        r is Err ==> after.backoff_until == before.backoff_until,
        16 * poll_secs <= i64::MAX && now + 16 * poll_secs <= i64::MAX ==> r is Ok,
        after.pid == before.pid && after.started_at == before.started_at,
{
    let factor = backoff_factor((before.consecutive_failures + 1) as nat);
    crate::loop_runner::law_backoff_grows_and_is_capped(
        0,
        (before.consecutive_failures + 1) as nat,
    );
    assert(poll_secs <= poll_secs * factor <= 16 * poll_secs) by (nonlinear_arith)
        requires
            1 <= factor <= 16,
            poll_secs >= 0,
    ;
}

/// Every event leads to what it is for: a poll that is due is made, tokens are
/// checked, the cache is refreshed as configured, what was done is written down, and
/// a signal or a request ends the loop well.
pub proof fn law_every_event_has_its_effect(
    settings: LoopSettings,
    before: DaemonState,
    event: LoopEvent,
    after: DaemonState,
    action: LoopAction,
)
    requires
        loop_next(settings, before, event, after, action),
    ensures
        event matches LoopEvent::PollTick { now: Ok(seconds) } ==> {
            &&& before.backoff_until is None ==> action == LoopAction::Poll
            &&& before.backoff_until matches Some(until) ==> if seconds < until {
                action == LoopAction::Wait && after == before
            } else {
                action == LoopAction::Poll && after.backoff_until is None
            }
        },
        event matches LoopEvent::Polled { outcome: Ok(found), polled_at: Ok(at), now: Ok(_) }
            ==> action == LoopAction::WriteState && after.last_poll_at == Some(at),
        event matches LoopEvent::Polled { outcome: Ok(PollOutcome::NoAction), polled_at: Ok(_), .. }
            ==> action == LoopAction::WriteState,
        event matches LoopEvent::Polled {
            outcome: Ok(PollOutcome::Switched { from, to }),
            polled_at: Ok(_),
            now: Ok(seconds),
        } ==> after.last_switch == Some(SwitchRecord { from, to, at: seconds }),
        event matches LoopEvent::Polled { outcome: Err(failure), polled_at: Ok(_), now: Ok(seconds) }
            ==> (before.consecutive_failures < u32::MAX && 16 * settings.poll_secs <= i64::MAX
            && seconds + 16 * settings.poll_secs <= i64::MAX ==> (action matches
            LoopAction::WriteSuspension { seconds: pause } && settings.poll_secs <= pause
            && after.backoff_until == Some((seconds + pause) as i64) && (after.last_error matches
            Some(text) && text@ == headline_of(failure@)))),
        event is TokenTick ==> action == LoopAction::CheckTokens && after == before,
        event is TokensChecked ==> action == LoopAction::Wait && after == before,
        event is CacheTick ==> action == (LoopAction::RefreshCache {
            auto_warmup: settings.auto_warmup,
        }) && after == before,
        event matches LoopEvent::CacheRefreshed { now: Ok(seconds) } ==> action
            == LoopAction::WriteState && after.last_cache_refresh_at == Some(seconds),
        event is Signal || event is ShutdownRequest ==> (action matches LoopAction::End(Ok(_))),
        action matches LoopAction::End(Ok(_)) ==> event is Signal || event is ShutdownRequest,
        event matches LoopEvent::PollTick { now: Err(error) } ==> (action matches LoopAction::End(
            Err(fault),
        ) && stems_from(fault@, error@)),
{
    if let LoopEvent::Polled { outcome: Err(failure), polled_at: Ok(polled), now: Ok(seconds) } =
        event {
        if before.consecutive_failures < u32::MAX {
            let r = choose|r: Result<u64, Fault>| #[trigger]
                poll_failure(
                    before,
                    headline_of(failure@),
                    settings.poll_secs,
                    polled,
                    seconds,
                    after,
                    r,
                ) && match r {
                    Err(fault) => crate::daemon_loop::loop_fails(action, fault@),
                    Ok(pause) => action == LoopAction::WriteSuspension { seconds: pause },
                };
            law_a_failed_poll_is_recorded(
                before,
                headline_of(failure@),
                settings.poll_secs,
                polled,
                seconds,
                after,
                r,
            );
        }
    }
}

// -- Candidates --

/// Every profile but the current one is a candidate, none twice as often as it is
/// listed, and none comes from elsewhere.
pub proof fn law_all_other_profiles_are_candidates(profiles: Seq<String>, current: Seq<char>)
    ensures
        forall|i: int|
            0 <= i < profiles.len() && (#[trigger] profiles[i])@ != current ==> others(
                profiles,
                current,
            ).contains(profiles[i]),
        forall|k: int|
            0 <= k < others(profiles, current).len() ==> (#[trigger] others(profiles, current)[k])@
                != current && profiles.contains(others(profiles, current)[k]),
        others(profiles, current).len() <= profiles.len(),
        (forall|i: int| 0 <= i < profiles.len() ==> (#[trigger] profiles[i])@ != current) ==> others(
            profiles,
            current,
        ) == profiles,
    decreases profiles.len(),
{
    if profiles.len() > 0 {
        let head = profiles.drop_last();
        let found = others(head, current);
        let all = others(profiles, current);
        law_all_other_profiles_are_candidates(head, current);
        assert forall|i: int|
            0 <= i < profiles.len() && (#[trigger] profiles[i])@ != current implies all.contains(
            profiles[i],
        ) by {
            if i < head.len() {
                assert(head[i] == profiles[i]);
                let k = choose|k: int| 0 <= k < found.len() && found[k] == profiles[i];
                assert(all[k] == profiles[i]);
            } else {
                assert(all[all.len() - 1] == profiles[i]);
            }
        }
        assert forall|k: int| 0 <= k < all.len() implies (#[trigger] all[k])@ != current
            && profiles.contains(all[k]) by {
            if k < found.len() {
                assert(all[k] == found[k]);
                assert(head.contains(found[k]));
                let i = choose|i: int| 0 <= i < head.len() && head[i] == found[k];
                assert(profiles[i] == all[k]);
            } else {
                assert(profiles[profiles.len() - 1] == all[k]);
            }
        }
        if forall|i: int| 0 <= i < profiles.len() ==> (#[trigger] profiles[i])@ != current {
            assert forall|i: int| 0 <= i < head.len() implies (#[trigger] head[i])@ != current by {
                assert(head[i] == profiles[i]);
            }
            assert(profiles[profiles.len() - 1]@ != current);
            assert(all =~= profiles);
        }
    } else {
        assert(others(profiles, current) =~= profiles);
    }
}

/// A profile was last used when its first entry says so, and at zero where it has
/// none.
pub proof fn law_the_last_use_is_looked_up(history: Seq<LastUse>, alias: Seq<char>, k: int)
    requires
        forall|i: int| 0 <= i < k ==> (#[trigger] history[i]).alias@ != alias,
        0 <= k <= history.len(),
    ensures
        k < history.len() && history[k].alias@ == alias ==> last_use_of(history, alias)
            == history[k].at,
        k == history.len() ==> last_use_of(history, alias) == 0,
    decreases k,
{
    if k > 0 {
        assert(history[0].alias@ != alias);
        assert forall|i: int| 0 <= i < k - 1 implies (#[trigger] history.skip(1)[i]).alias@
            != alias by {
            assert(history.skip(1)[i] == history[i + 1]);
        }
        law_the_last_use_is_looked_up(history.skip(1), alias, k - 1);
    }
}

proof fn lemma_usable_positions(outcomes: Seq<WorkerOutcome>)
    ensures
        forall|k: int|
            0 <= k < usable_workers(outcomes).len() ==> 0 <= #[trigger] usable_workers(outcomes)[k]
                < outcomes.len() && outcomes[usable_workers(outcomes)[k]] is Fetched,
        forall|i: int|
            0 <= i < outcomes.len() && (#[trigger] outcomes[i]) is Fetched ==> usable_workers(
                outcomes,
            ).contains(i),
        forall|a: int, b: int|
            0 <= a < b < usable_workers(outcomes).len() ==> #[trigger] usable_workers(outcomes)[a]
                < #[trigger] usable_workers(outcomes)[b],
        failed_workers(outcomes).len() == 0 <==> forall|i: int|
            0 <= i < outcomes.len() ==> !((#[trigger] outcomes[i]) is WorkerFailed),
    decreases outcomes.len(),
{
    if outcomes.len() > 0 {
        let head = outcomes.drop_last();
        let before = usable_workers(head);
        let all = usable_workers(outcomes);
        lemma_usable_positions(head);
        assert forall|k: int| 0 <= k < all.len() implies 0 <= #[trigger] all[k] < outcomes.len()
            && outcomes[all[k]] is Fetched by {
            if k < before.len() {
                assert(all[k] == before[k]);
                assert(head[before[k]] == outcomes[before[k]]);
            }
        }
        assert forall|i: int| 0 <= i < outcomes.len() && (#[trigger] outcomes[i]) is Fetched implies all
            .contains(i) by {
            if i < head.len() {
                assert(head[i] == outcomes[i]);
                let k = choose|k: int| 0 <= k < before.len() && before[k] == i;
                assert(all[k] == i);
            } else {
                assert(all[all.len() - 1] == i);
            }
        }
        assert forall|a: int, b: int| 0 <= a < b < all.len() implies #[trigger] all[a]
            < #[trigger] all[b] by {
            assert(all[a] == before[a]);
            if b < before.len() {
                assert(all[b] == before[b]);
            }
        }
        assert((forall|i: int| 0 <= i < outcomes.len() ==> !((#[trigger] outcomes[i]) is WorkerFailed))
            <==> ((forall|i: int| 0 <= i < head.len() ==> !((#[trigger] head[i]) is WorkerFailed))
            && !(outcomes.last() is WorkerFailed))) by {
            if forall|i: int| 0 <= i < outcomes.len() ==> !((#[trigger] outcomes[i]) is WorkerFailed) {
                assert forall|i: int| 0 <= i < head.len() implies !((#[trigger] head[i])
                    is WorkerFailed) by {
                    assert(head[i] == outcomes[i]);
                }
                assert(!(outcomes[outcomes.len() - 1] is WorkerFailed));
            }
            if (forall|i: int| 0 <= i < head.len() ==> !((#[trigger] head[i]) is WorkerFailed))
                && !(outcomes.last() is WorkerFailed) {
                assert forall|i: int| 0 <= i < outcomes.len() implies !((#[trigger] outcomes[i])
                    is WorkerFailed) by {
                    if i < head.len() {
                        assert(head[i] == outcomes[i]);
                    }
                }
            }
        }
    }
}

/// Exactly the candidates whose usage was fetched are ranked, each once and in
/// their order; a worker that failed, and nothing else, stops the selection.
pub proof fn law_every_fetched_candidate_is_ranked(
    outcomes: &[WorkerOutcome],
    r: Result<Vec<usize>, Vec<WorkerFailure>>,
)
    requires
        call_ensures(collect_workers, (outcomes,), r),
    ensures
        r is Ok <==> forall|i: int|
            0 <= i < outcomes@.len() ==> !((#[trigger] outcomes@[i]) is WorkerFailed),
        r matches Ok(usable) ==> {
            &&& forall|k: int|
                0 <= k < usable@.len() ==> (#[trigger] usable@[k]) < outcomes@.len()
                    && outcomes@[usable@[k] as int] is Fetched
            &&& forall|i: int|
                0 <= i < outcomes@.len() && (#[trigger] outcomes@[i]) is Fetched ==> exists|k: int|
                    0 <= k < usable@.len() && #[trigger] usable@[k] == i
            &&& forall|a: int, b: int|
                0 <= a < b < usable@.len() ==> #[trigger] usable@[a] < #[trigger] usable@[b]
        },
{
    lemma_usable_positions(outcomes@);
    if let Ok(usable) = r {
        let positions = usable_workers(outcomes@);
        assert(usable@.map_values(|i: usize| i as int) == positions);
        assert forall|k: int| 0 <= k < usable@.len() implies (#[trigger] usable@[k])
            < outcomes@.len() && outcomes@[usable@[k] as int] is Fetched by {
            assert(positions[k] == usable@[k]);
        }
        assert forall|i: int| 0 <= i < outcomes@.len() && (#[trigger] outcomes@[i]) is Fetched implies exists|
            k: int,
        |
            0 <= k < usable@.len() && #[trigger] usable@[k] == i by {
            let k = choose|k: int| 0 <= k < positions.len() && positions[k] == i;
            assert(usable@[k] == i);
        }
        assert forall|a: int, b: int| 0 <= a < b < usable@.len() implies #[trigger] usable@[a]
            < #[trigger] usable@[b] by {
            assert(positions[a] < positions[b]);
        }
    }
}

// -- Refreshing --

/// A refresh goes on until the usage was fetched; an account without an active
/// window is then warmed up exactly where that is wanted. It says what it did: what
/// was fetched counts as refreshed, and only a warmup that succeeded as warmed.
pub proof fn law_a_refresh_does_what_it_says(
    auto_warmup: bool,
    stage: RefreshStage,
    reply: RefreshReply,
    step: RefreshStep,
)
    requires
        call_ensures(refresh_profile, (auto_warmup, stage, reply), step),
    ensures
        stage == RefreshStage::Permit && reply == RefreshReply::Permit(true) ==> step
            == RefreshStep::Await(RefreshStage::ResolvePath),
        stage == RefreshStage::ResolvePath && (reply matches RefreshReply::Path(Ok(_))) ==> step
            == RefreshStep::Await(RefreshStage::Fetch),
        stage == RefreshStage::Fetch ==> (reply matches RefreshReply::Fetched(Ok(active)) ==> if auto_warmup
            && !active {
            step == RefreshStep::Await(RefreshStage::Warmup)
        } else {
            step matches RefreshStep::Finished(end) && end.refreshed && !end.warmed
                && end.failure is None
        }),
        stage == RefreshStage::Warmup && (reply matches RefreshReply::Warmed(Ok(_))) ==> step
            == RefreshStep::Await(RefreshStage::Refetch),
        stage == RefreshStage::Warmup && (reply matches RefreshReply::Warmed(Err(_))) ==> (step
            matches RefreshStep::Finished(end) && end.refreshed && !end.warmed
            && end.failure is Some),
        stage == RefreshStage::Refetch && reply is Refetched ==> (step matches
            RefreshStep::Finished(end) && end.refreshed && end.warmed && end.failure is None),
        step == RefreshStep::Await(RefreshStage::Warmup) ==> auto_warmup,
        stage == RefreshStage::ResolvePath ==> (reply matches RefreshReply::Path(Err(error)) ==> (
        step matches RefreshStep::Finished(end) && !end.refreshed && !end.warmed && (end.failure
            matches Some(text) && text@ == error@))),
        stage == RefreshStage::Fetch ==> (reply matches RefreshReply::Fetched(Err(error)) ==> (step
            matches RefreshStep::Finished(end) && !end.refreshed && !end.warmed && (end.failure
            matches Some(text) && text@ == error@))),
        stage == RefreshStage::Permit && reply == RefreshReply::Permit(false) ==> (step matches
            RefreshStep::Finished(end) && !end.refreshed && !end.warmed && end.failure is Some),
{
}

proof fn lemma_counts_grow(ends: Seq<Option<ProfileRefresh>>, more: Option<ProfileRefresh>)
    ensures
        refreshed_count(ends.push(more)) == refreshed_count(ends) + (if more matches Some(end)
            && end.refreshed {
            1int
        } else {
            0
        }),
        warmed_count(ends.push(more)) == warmed_count(ends) + (if more matches Some(end)
            && end.warmed {
            1int
        } else {
            0
        }),
        failed_count(ends.push(more)) == failed_count(ends) + (if more is None || (more matches
            Some(end) && end.failure is Some) {
            1int
        } else {
            0
        }),
{
    assert(ends.push(more).drop_last() =~= ends);
}

/// A summary counts: one more profile adds one to what it came to and nothing to
/// the rest, and a worker that is lost counts as failed.
pub proof fn law_a_summary_counts(
    ends: &[Option<ProfileRefresh>],
    longer: &[Option<ProfileRefresh>],
    more: Option<ProfileRefresh>,
    a: CacheRefreshSummary,
    b: CacheRefreshSummary,
)
    requires
        call_ensures(refresh_summary, (ends,), a),
        call_ensures(refresh_summary, (longer,), b),
        longer@ == ends@.push(more),
    ensures
        b.refreshed - a.refreshed == (if more matches Some(end) && end.refreshed {
            1int
        } else {
            0
        }),
        b.warmed - a.warmed == (if more matches Some(end) && end.warmed {
            1int
        } else {
            0
        }),
        b.failed - a.failed == (if more is None || (more matches Some(end) && end.failure is Some) {
            1int
        } else {
            0
        }),
        ends@.len() == 0 ==> a.refreshed == 0 && a.warmed == 0 && a.failed == 0,
{
    lemma_counts_grow(ends@, more);
}

} // verus!
