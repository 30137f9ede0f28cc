//! What the daemon keeps of its own state for others to read.
use vstd::prelude::*;

use crate::fault::Fault;
use crate::host_path::{below, join_leaf, Platform};
use crate::loop_runner::{backoff_factor, poll_backoff_secs};
use crate::outside::{i64_refusal, i64_words};
use crate::text::{owned_text, same_text};

verus! {

/// The state of the daemon. The score of a switch is kept beside it.
#[derive(Debug, PartialEq, Eq)]
pub struct DaemonState {
    pub pid: u32,
    pub started_at: i64,
    pub updated_at: i64,
    pub last_poll_at: Option<i64>,
    pub last_error: Option<String>,
    pub consecutive_failures: u32,
    /// Unix seconds until which polling is suspended after failures.
    pub backoff_until: Option<i64>,
    pub last_switch: Option<SwitchRecord>,
    pub pending_switch: Option<PendingSwitch>,
    pub last_cache_refresh_at: Option<i64>,
}

/// A switch that was made.
#[derive(Debug, PartialEq, Eq)]
pub struct SwitchRecord {
    pub from: String,
    pub to: String,
    pub at: i64,
}

/// A switch that is due and waits.
#[derive(Debug, PartialEq, Eq)]
pub struct PendingSwitch {
    pub to: String,
    pub since: i64,
}

/// Outcome of one poll.
#[derive(Debug, PartialEq, Eq)]
pub enum PollOutcome {
    NoAction,
    Switched { from: String, to: String },
    Deferred { to: String },
}

/// The file that holds the state.
pub fn state_path(platform: Platform, app_home: &str) -> (r: String)
    ensures
        r@ == below(platform, app_home@, "daemon-state.json"@),
{
    join_leaf(platform, app_home, "daemon-state.json")
}

/// Since when a switch to `to` has been pending: a target that stays keeps its
/// time.
pub open spec fn pending_since(pending: Option<PendingSwitch>, to: Seq<char>, now: i64) -> i64 {
    match pending {
        Some(p) => if p.to@ == to {
            p.since
        } else {
            now
        },
        None => now,
    }
}

/// Whether two states agree on what no poll changes.
pub open spec fn same_run(a: DaemonState, b: DaemonState) -> bool {
    a.pid == b.pid && a.started_at == b.started_at && a.updated_at == b.updated_at
        && a.last_cache_refresh_at == b.last_cache_refresh_at
}

/// The state after a poll that succeeded.
pub open spec fn poll_success(
    before: DaemonState,
    outcome: PollOutcome,
    polled_at: i64,
    now: i64,
    after: DaemonState,
) -> bool {
    same_run(after, before) && after.consecutive_failures == 0 && after.last_error is None
        && after.last_poll_at == Some(polled_at) && after.backoff_until == before.backoff_until
        && match outcome {
        PollOutcome::NoAction => after.pending_switch is None && after.last_switch
            == before.last_switch,
        PollOutcome::Switched { from, to } => after.pending_switch is None && after.last_switch
            == Some(SwitchRecord { from, to, at: now }),
        PollOutcome::Deferred { to } => after.last_switch == before.last_switch
            && after.pending_switch == Some(
            PendingSwitch { to, since: pending_since(before.pending_switch, to@, now) },
        ),
    }
}

/// The state after a poll that failed, and for how long polling is suspended.
pub open spec fn poll_failure(
    before: DaemonState,
    error: Seq<char>,
    poll_secs: u64,
    polled_at: i64,
    now: i64,
    after: DaemonState,
    r: Result<u64, Fault>,
) -> bool {
    let secs = poll_secs * backoff_factor((before.consecutive_failures + 1) as nat);
    same_run(after, before) && after.consecutive_failures == before.consecutive_failures + 1
        && after.last_poll_at == Some(polled_at) && owned_text(after.last_error) == Some(error)
        && after.last_switch == before.last_switch && after.pending_switch == before.pending_switch
        && if secs > u64::MAX {
        (r matches Err(fault) && fault@ == seq![
            "daemon poll backoff exceeds the supported timer range"@,
        ]) && after.backoff_until == before.backoff_until
    } else if secs > i64::MAX {
        (r matches Err(fault) && fault@ == seq![
            "daemon poll backoff exceeds persisted state range"@,
            i64_refusal(secs as u64),
        ]) && after.backoff_until == before.backoff_until
    } else if now + secs > i64::MAX {
        (r matches Err(fault) && fault@ == seq!["daemon poll backoff timestamp overflowed"@])
            && after.backoff_until == before.backoff_until
    } else {
        r == Ok::<u64, Fault>(secs as u64) && after.backoff_until == Some((now + secs) as i64)
    }
}

impl DaemonState {
    /// The state of a daemon that starts.
    pub fn started(pid: u32, started_at: i64) -> (r: Self)
        ensures
            r.pid == pid,
            r.started_at == started_at,
            r.updated_at == 0,
            r.last_poll_at is None,
            r.last_error is None,
            r.consecutive_failures == 0,
            r.backoff_until is None,
            r.last_switch is None,
            r.pending_switch is None,
            r.last_cache_refresh_at is None,
    {
        DaemonState {
            pid,
            started_at,
            updated_at: 0,
            last_poll_at: None,
            last_error: None,
            consecutive_failures: 0,
            backoff_until: None,
            last_switch: None,
            pending_switch: None,
            last_cache_refresh_at: None,
        }
    }

    /// Whether a poll is due. While polling is suspended nothing changes; after
    /// that the suspension is forgotten.
    pub fn begin_poll(&mut self, now: i64) -> (r: bool)
        ensures
            r == !(old(self).backoff_until matches Some(until) && now < until),
            !r ==> *final(self) == *old(self),
            r ==> *final(self) == (DaemonState { backoff_until: None, ..*old(self) }),
    {
        if let Some(until) = self.backoff_until {
            if now < until {
                return false;
            }
            self.backoff_until = None;
        }
        true
    }

    /// Records a poll that succeeded: failures are forgotten, and a pending
    /// switch is kept only while it stays pending.
    pub fn poll_succeeded(&mut self, outcome: PollOutcome, polled_at: i64, now: i64)
        ensures
            poll_success(*old(self), outcome, polled_at, now, *final(self)),
    {
        self.consecutive_failures = 0;
        self.last_error = None;
        self.last_poll_at = Some(polled_at);
        match outcome {
            PollOutcome::NoAction => {
                self.pending_switch = None;
            },
            PollOutcome::Switched { from, to } => {
                self.pending_switch = None;
                self.last_switch = Some(SwitchRecord { from, to, at: now });
            },
            PollOutcome::Deferred { to } => {
                let since: i64 = match &self.pending_switch {
                    Some(p) => if same_text(p.to.as_str(), to.as_str()) {
                        p.since
                    } else {
                        now
                    },
                    None => now,
                };
                self.pending_switch = Some(PendingSwitch { to, since });
            },
        }
    }

    /// Records a poll that failed, and suspends polling. Where the suspension
    /// cannot be computed the failure is recorded all the same.
    pub fn poll_failed(&mut self, error: String, poll_secs: u64, polled_at: i64, now: i64) -> (r:
        Result<u64, Fault>)
        requires
            old(self).consecutive_failures < u32::MAX,
        ensures
            poll_failure(*old(self), error@, poll_secs, polled_at, now, *final(self), r),
    {
        self.consecutive_failures = self.consecutive_failures + 1;
        self.last_poll_at = Some(polled_at);
        self.last_error = Some(error);
        let secs: u64 = match poll_backoff_secs(poll_secs, self.consecutive_failures) {
            Ok(secs) => secs,
            Err(fault) => {
                return Err(fault);
            },
        };
        if secs > i64::MAX as u64 {
            return Err(
                Fault::because("daemon poll backoff exceeds persisted state range", i64_words(secs)),
            );
        }
        match now.checked_add(secs as i64) {
            Some(until) => {
                self.backoff_until = Some(until);
                Ok(secs)
            },
            None => Err(Fault::of("daemon poll backoff timestamp overflowed")),
        }
    }

    /// Records a refresh of the cache.
    pub fn cache_refreshed(&mut self, now: i64)
        ensures
            *final(self) == (DaemonState { last_cache_refresh_at: Some(now), ..*old(self) }),
    {
        self.last_cache_refresh_at = Some(now);
    }

    /// Marks the state as written.
    pub fn touched(&mut self, now: i64)
        ensures
            *final(self) == (DaemonState { updated_at: now, ..*old(self) }),
    {
        self.updated_at = now;
    }
}

} // verus!
