//! One poll of the daemon, and one refresh of its cache, step by step.
use vstd::prelude::*;

use crate::codex_process::CodexActivity;
use crate::fault::{join2, join3, join4, Fault};
use crate::loop_runner::{defer_reason, switch_defer_reason};
use crate::removal::{misfit, misfit_fault};
use crate::state::PollOutcome;

verus! {

/// What a poll waits for. From the second stage on the current profile is
/// known.
#[derive(Debug, PartialEq, Eq)]
pub enum PollStage {
    ListProfiles,
    /// Which saved profile is the live one.
    SyncCurrent,
    /// The usage of the current profile.
    FetchCurrent { current: String },
    /// How the usage compares with the threshold.
    Compare { current: String },
    /// When each profile was last used.
    LastUsed { current: String },
    /// What is known of the current profile's account.
    CurrentInfo { current: String },
    /// Resolving and reading every other profile.
    Preflight { current: String },
    /// Fetching the usage of every candidate.
    FetchCandidates { current: String },
    /// The best candidate, if one is better.
    Pick { current: String },
    /// What Codex is doing.
    Activity { current: String, target: String },
    Switch { current: String, target: String },
}

/// How the usage of the current profile compares with the threshold.
#[derive(Clone, Copy, Debug, PartialEq, Eq, Structural)]
pub enum ThresholdComparison {
    /// No window reports a share.
    NoPercentage,
    Below,
    Reached,
}

/// What a poll was given.
#[derive(Debug, PartialEq, Eq)]
pub enum PollReply {
    Profiles(Result<usize, Fault>),
    Current(Result<Option<String>, Fault>),
    /// Whether a read or a fetch succeeded.
    Outcome(Result<(), Fault>),
    Comparison(ThresholdComparison),
    Picked(Option<String>),
    Activity { activity: CodexActivity, defer_interactive_session: bool },
    /// Whether the switch was made; not where the active profile has changed.
    Switched(Result<bool, Fault>),
}

/// What a poll does next.
#[derive(Debug, PartialEq, Eq)]
pub enum PollStep {
    Await(PollStage),
    Finished(Result<PollOutcome, Fault>),
}

/// Whether a poll ends without doing anything.
pub open spec fn does_nothing(step: PollStep) -> bool {
    step == PollStep::Finished(Ok(PollOutcome::NoAction))
}

/// Whether a poll fails.
pub open spec fn poll_fails(step: PollStep, messages: Seq<Seq<char>>) -> bool {
    step matches PollStep::Finished(Err(fault)) && fault@ == messages
}

/// What a poll does next. It switches only from a profile whose usage has
/// reached the threshold, to one that was picked, while nothing holds a switch
/// back.
pub open spec fn poll_next(stage: PollStage, reply: PollReply, step: PollStep) -> bool {
    match (stage, reply) {
        (PollStage::ListProfiles, PollReply::Profiles(Err(error))) => poll_fails(step, error@),
        (PollStage::ListProfiles, PollReply::Profiles(Ok(count))) => if count < 2 {
            does_nothing(step)
        } else {
            step == PollStep::Await(PollStage::SyncCurrent)
        },
        (PollStage::SyncCurrent, PollReply::Current(Err(error))) => poll_fails(step, error@),
        (PollStage::SyncCurrent, PollReply::Current(Ok(None))) => does_nothing(step),
        (PollStage::SyncCurrent, PollReply::Current(Ok(Some(current)))) => step == PollStep::Await(
            PollStage::FetchCurrent { current },
        ),
        (PollStage::FetchCurrent { .. }, PollReply::Outcome(Err(error))) => poll_fails(
            step,
            error@,
        ),
        (PollStage::FetchCurrent { current }, PollReply::Outcome(Ok(_))) => step == PollStep::Await(
            PollStage::Compare { current },
        ),
        (PollStage::Compare { current }, PollReply::Comparison(comparison)) => match comparison {
            ThresholdComparison::NoPercentage => does_nothing(step),
            ThresholdComparison::Below => does_nothing(step),
            ThresholdComparison::Reached => step == PollStep::Await(
                PollStage::LastUsed { current },
            ),
        },
        (PollStage::LastUsed { .. }, PollReply::Outcome(Err(error))) => poll_fails(
            step,
            seq!["loading profile-selection history for automatic ranking"@] + error@,
        ),
        (PollStage::LastUsed { current }, PollReply::Outcome(Ok(_))) => step == PollStep::Await(
            PollStage::CurrentInfo { current },
        ),
        (PollStage::CurrentInfo { current }, PollReply::Outcome(Err(error))) => poll_fails(
            step,
            seq!["reading current profile metadata for automatic ranking: "@ + current@] + error@,
        ),
        (PollStage::CurrentInfo { current }, PollReply::Outcome(Ok(_))) => step == PollStep::Await(
            PollStage::Preflight { current },
        ),
        (PollStage::Preflight { .. }, PollReply::Outcome(Err(error))) => poll_fails(step, error@),
        (PollStage::Preflight { current }, PollReply::Outcome(Ok(_))) => step == PollStep::Await(
            PollStage::FetchCandidates { current },
        ),
        (PollStage::FetchCandidates { .. }, PollReply::Outcome(Err(error))) => poll_fails(
            step,
            error@,
        ),
        (PollStage::FetchCandidates { current }, PollReply::Outcome(Ok(_))) => step
            == PollStep::Await(PollStage::Pick { current }),
        (PollStage::Pick { .. }, PollReply::Picked(None)) => does_nothing(step),
        (PollStage::Pick { current }, PollReply::Picked(Some(target))) => step == PollStep::Await(
            PollStage::Activity { current, target },
        ),
        (
            PollStage::Activity { current, target },
            PollReply::Activity { activity, defer_interactive_session },
        ) => if defer_reason(activity, defer_interactive_session) is Some {
            step == PollStep::Finished(Ok(PollOutcome::Deferred { to: target }))
        } else {
            step == PollStep::Await(PollStage::Switch { current, target })
        },
        (PollStage::Switch { .. }, PollReply::Switched(Err(error))) => poll_fails(step, error@),
        (PollStage::Switch { .. }, PollReply::Switched(Ok(false))) => does_nothing(step),
        (PollStage::Switch { current, target }, PollReply::Switched(Ok(true))) => step
            == PollStep::Finished(Ok(PollOutcome::Switched { from: current, to: target })),
        _ => poll_fails(step, misfit()),
    }
}

fn nothing() -> (r: PollStep)
    ensures
        does_nothing(r),
{
    PollStep::Finished(Ok(PollOutcome::NoAction))
}

fn fail(fault: Fault) -> (r: PollStep)
    ensures
        poll_fails(r, fault@),
{
    PollStep::Finished(Err(fault))
}

/// What a poll does next.
pub fn check_and_switch(stage: PollStage, reply: PollReply) -> (r: PollStep)
    ensures
        poll_next(stage, reply, r),
{
    match (stage, reply) {
        (PollStage::ListProfiles, PollReply::Profiles(Err(error))) => fail(error),
        (PollStage::ListProfiles, PollReply::Profiles(Ok(count))) => if count < 2 {
            nothing()
        } else {
            PollStep::Await(PollStage::SyncCurrent)
        },
        (PollStage::SyncCurrent, PollReply::Current(Err(error))) => fail(error),
        (PollStage::SyncCurrent, PollReply::Current(Ok(None))) => nothing(),
        (PollStage::SyncCurrent, PollReply::Current(Ok(Some(current)))) => PollStep::Await(
            PollStage::FetchCurrent { current },
        ),
        (PollStage::FetchCurrent { current: _ }, PollReply::Outcome(Err(error))) => fail(error),
        (PollStage::FetchCurrent { current }, PollReply::Outcome(Ok(()))) => PollStep::Await(
            PollStage::Compare { current },
        ),
        (PollStage::Compare { current }, PollReply::Comparison(comparison)) => match comparison {
            ThresholdComparison::NoPercentage => nothing(),
            ThresholdComparison::Below => nothing(),
            ThresholdComparison::Reached => PollStep::Await(PollStage::LastUsed { current }),
        },
        (PollStage::LastUsed { current: _ }, PollReply::Outcome(Err(error))) => fail(
            error.within("loading profile-selection history for automatic ranking"),
        ),
        (PollStage::LastUsed { current }, PollReply::Outcome(Ok(()))) => PollStep::Await(
            PollStage::CurrentInfo { current },
        ),
        (PollStage::CurrentInfo { current }, PollReply::Outcome(Err(error))) => fail(
            error.context(
                join2(
                    "reading current profile metadata for automatic ranking: ",
                    current.as_str(),
                ),
            ),
        ),
        (PollStage::CurrentInfo { current }, PollReply::Outcome(Ok(()))) => PollStep::Await(
            PollStage::Preflight { current },
        ),
        (PollStage::Preflight { current: _ }, PollReply::Outcome(Err(error))) => fail(error),
        (PollStage::Preflight { current }, PollReply::Outcome(Ok(()))) => PollStep::Await(
            PollStage::FetchCandidates { current },
        ),
        (PollStage::FetchCandidates { current: _ }, PollReply::Outcome(Err(error))) => fail(error),
        (PollStage::FetchCandidates { current }, PollReply::Outcome(Ok(()))) => PollStep::Await(
            PollStage::Pick { current },
        ),
        (PollStage::Pick { current: _ }, PollReply::Picked(None)) => nothing(),
        (PollStage::Pick { current }, PollReply::Picked(Some(target))) => PollStep::Await(
            PollStage::Activity { current, target },
        ),
        (
            PollStage::Activity { current, target },
            PollReply::Activity { activity, defer_interactive_session },
        ) => match switch_defer_reason(activity, defer_interactive_session) {
            Some(_) => PollStep::Finished(Ok(PollOutcome::Deferred { to: target })),
            None => PollStep::Await(PollStage::Switch { current, target }),
        },
        (PollStage::Switch { current: _, target: _ }, PollReply::Switched(Err(error))) => fail(
            error,
        ),
        (PollStage::Switch { current: _, target: _ }, PollReply::Switched(Ok(false))) => nothing(),
        (PollStage::Switch { current, target }, PollReply::Switched(Ok(true))) => {
            PollStep::Finished(Ok(PollOutcome::Switched { from: current, to: target }))
        },
        _ => fail(misfit_fault()),
    }
}

/// Credentials are replaced only directly after Codex was seen to be doing
/// nothing that holds a switch back; a failed inspection and a change of
/// authentication always hold it back.
pub proof fn law_switch_only_when_nothing_holds_it_back(
    stage: PollStage,
    reply: PollReply,
    step: PollStep,
)
    requires
        poll_next(stage, reply, step),
        step matches PollStep::Await(PollStage::Switch { .. }),
    ensures
        stage is Activity,
        reply matches PollReply::Activity { activity, .. } && !(activity is AuthMutation) && !(
        activity is Unknown),
{
}

/// How far a stage is from the end of a poll.
pub open spec fn poll_distance(stage: PollStage) -> nat {
    match stage {
        PollStage::ListProfiles => 10,
        PollStage::SyncCurrent => 9,
        PollStage::FetchCurrent { .. } => 8,
        PollStage::Compare { .. } => 7,
        PollStage::LastUsed { .. } => 6,
        PollStage::CurrentInfo { .. } => 5,
        PollStage::Preflight { .. } => 4,
        PollStage::FetchCandidates { .. } => 3,
        PollStage::Pick { .. } => 2,
        PollStage::Activity { .. } => 1,
        PollStage::Switch { .. } => 0,
    }
}

/// A poll ends: each stage is followed by the next one or by the end.
pub proof fn law_poll_ends(stage: PollStage, reply: PollReply, step: PollStep)
    requires
        poll_next(stage, reply, step),
    ensures
        step matches PollStep::Await(next) ==> poll_distance(next) + 1 == poll_distance(stage),
{
}

// -- Candidate workers --

/// What the worker of a candidate gave.
#[derive(Debug, PartialEq, Eq)]
pub enum WorkerOutcome {
    Fetched { alias: String },
    /// The usage could not be fetched: the candidate is left out.
    FetchFailed { alias: String },
    /// The worker itself failed: no candidate can be trusted.
    WorkerFailed { alias: String, detail: String },
}

/// A worker that failed.
#[derive(Debug, PartialEq, Eq)]
pub struct WorkerFailure {
    pub alias: String,
    pub detail: String,
}

/// The positions of the candidates that can be ranked.
pub open spec fn usable_workers(outcomes: Seq<WorkerOutcome>) -> Seq<int>
    decreases outcomes.len(),
{
    if outcomes.len() == 0 {
        Seq::empty()
    } else if outcomes.last() is Fetched {
        usable_workers(outcomes.drop_last()).push(outcomes.len() - 1)
    } else {
        usable_workers(outcomes.drop_last())
    }
}

/// The workers that failed, in their order.
pub open spec fn failed_workers(outcomes: Seq<WorkerOutcome>) -> Seq<(Seq<char>, Seq<char>)>
    decreases outcomes.len(),
{
    if outcomes.len() == 0 {
        Seq::empty()
    } else {
        match outcomes.last() {
            WorkerOutcome::WorkerFailed { alias, detail } => failed_workers(
                outcomes.drop_last(),
            ).push((alias@, detail@)),
            _ => failed_workers(outcomes.drop_last()),
        }
    }
}

/// What is said of a failed worker.
pub open spec fn failure_views(failures: Seq<WorkerFailure>) -> Seq<(Seq<char>, Seq<char>)> {
    Seq::new(failures.len(), |i: int| (failures[i].alias@, failures[i].detail@))
}

/// Which candidates can be ranked. A candidate whose usage could not be fetched
/// is left out; a worker that failed stops the selection.
pub fn collect_workers(outcomes: &[WorkerOutcome]) -> (r: Result<Vec<usize>, Vec<WorkerFailure>>)
    ensures
        match r {
            Ok(usable) => failed_workers(outcomes@).len() == 0 && usable@.map_values(
                |i: usize| i as int,
            ) == usable_workers(outcomes@),
            Err(failures) => failures@.len() > 0 && failure_views(failures@) == failed_workers(
                outcomes@,
            ),
        },
{
    let mut usable: Vec<usize> = Vec::new();
    let mut failures: Vec<WorkerFailure> = Vec::new();
    let mut i: usize = 0;
    assert(outcomes@.take(0) =~= Seq::empty());
    assert(usable@.map_values(|i: usize| i as int) =~= usable_workers(outcomes@.take(0)));
    assert(failure_views(failures@) =~= failed_workers(outcomes@.take(0)));
    while i < outcomes.len()
        invariant
            i <= outcomes@.len(),
            usable@.map_values(|i: usize| i as int) == usable_workers(outcomes@.take(i as int)),
            failure_views(failures@) == failed_workers(outcomes@.take(i as int)),
        decreases outcomes@.len() - i,
    {
        let ghost ok = usable@;
        let ghost bad = failures@;
        proof {
            let now = outcomes@.take(i + 1);
            assert(now.drop_last() =~= outcomes@.take(i as int));
            assert(now.last() == outcomes@[i as int]);
        }
        match &outcomes[i] {
            WorkerOutcome::Fetched { alias: _ } => {
                usable.push(i);
                assert(usable@.map_values(|i: usize| i as int) =~= ok.map_values(
                    |i: usize| i as int,
                ).push(i as int));
            },
            WorkerOutcome::FetchFailed { alias: _ } => {},
            WorkerOutcome::WorkerFailed { alias, detail } => {
                failures.push(WorkerFailure { alias: alias.clone(), detail: detail.clone() });
                assert(failure_views(failures@) =~= failure_views(bad).push((alias@, detail@)));
            },
        }
        i = i + 1;
    }
    assert(outcomes@.take(i as int) =~= outcomes@);
    if failures.len() == 0 {
        assert(failure_views(failures@).len() == 0);
        Ok(usable)
    } else {
        Err(failures)
    }
}

/// The failed workers in words, one behind the other.
pub open spec fn failure_words(failures: Seq<(Seq<char>, Seq<char>)>) -> Seq<char>
    decreases failures.len(),
{
    if failures.len() == 0 {
        Seq::empty()
    } else {
        let word = "["@ + failures.last().0 + "] "@ + failures.last().1;
        if failures.len() == 1 {
            word
        } else {
            failure_words(failures.drop_last()) + "; "@ + word
        }
    }
}

/// The failure of a selection whose workers failed: each of them with its
/// detail, in their order.
pub fn batch_failure(failures: &[WorkerFailure]) -> (r: Fault)
    ensures
        r@ == seq![
            "one or more automatic-selection candidate workers failed: "@ + failure_words(
                failure_views(failures@),
            ),
        ],
{
    let mut words = String::new();
    let mut i: usize = 0;
    let ghost all = failure_views(failures@);
    assert(all.take(0) =~= Seq::empty());
    while i < failures.len()
        invariant
            i <= failures@.len(),
            all == failure_views(failures@),
            words@ == failure_words(all.take(i as int)),
        decreases failures@.len() - i,
    {
        let word = join4(
            "[",
            failures[i].alias.as_str(),
            "] ",
            failures[i].detail.as_str(),
        );
        let ghost now = all.take(i + 1);
        assert(now.drop_last() =~= all.take(i as int));
        assert(now.last() == all[i as int]);
        if i == 0 {
            words = word;
        } else {
            words = join3(words.as_str(), "; ", word.as_str());
        }
        i = i + 1;
    }
    assert(all.take(i as int) =~= all);
    Fault::from_text(
        join2("one or more automatic-selection candidate workers failed: ", words.as_str()),
    )
}

// -- Refreshing the cache --

/// What refreshing one profile came to.
#[derive(Debug, PartialEq, Eq)]
pub struct ProfileRefresh {
    pub refreshed: bool,
    pub warmed: bool,
    pub failure: Option<String>,
}

/// What refreshing one profile waits for.
#[derive(Clone, Copy, Debug, PartialEq, Eq, Structural)]
pub enum RefreshStage {
    /// A place among the concurrent requests.
    Permit,
    ResolvePath,
    Fetch,
    Warmup,
    /// Fetching once more after a warmup; its failure is only reported.
    Refetch,
}

/// What refreshing one profile was given; failures are given in words.
#[derive(Debug, PartialEq, Eq)]
pub enum RefreshReply {
    Permit(bool),
    Path(Result<(), String>),
    /// Whether a window is active already.
    Fetched(Result<bool, String>),
    Warmed(Result<(), String>),
    Refetched,
}

/// What refreshing one profile does next.
#[derive(Debug, PartialEq, Eq)]
pub enum RefreshStep {
    Await(RefreshStage),
    Finished(ProfileRefresh),
}

/// Whether a refresh ends like this.
pub open spec fn refresh_ends(
    step: RefreshStep,
    refreshed: bool,
    warmed: bool,
    failure: Option<Seq<char>>,
) -> bool {
    step matches RefreshStep::Finished(end) && end.refreshed == refreshed && end.warmed == warmed
        && crate::text::owned_text(end.failure) == failure
}

/// What refreshing one profile does next: a profile is warmed up only where
/// that is wanted and no window is active yet.
pub open spec fn refresh_next(
    auto_warmup: bool,
    stage: RefreshStage,
    reply: RefreshReply,
    step: RefreshStep,
) -> bool {
    match (stage, reply) {
        (RefreshStage::Permit, RefreshReply::Permit(true)) => step == RefreshStep::Await(
            RefreshStage::ResolvePath,
        ),
        (RefreshStage::Permit, RefreshReply::Permit(false)) => refresh_ends(
            step,
            false,
            false,
            Some("usage limiter closed"@),
        ),
        (RefreshStage::ResolvePath, RefreshReply::Path(Ok(_))) => step == RefreshStep::Await(
            RefreshStage::Fetch,
        ),
        (RefreshStage::ResolvePath, RefreshReply::Path(Err(error))) => refresh_ends(
            step,
            false,
            false,
            Some(error@),
        ),
        (RefreshStage::Fetch, RefreshReply::Fetched(Err(error))) => refresh_ends(
            step,
            false,
            false,
            Some(error@),
        ),
        (RefreshStage::Fetch, RefreshReply::Fetched(Ok(active))) => if !auto_warmup || active {
            refresh_ends(step, true, false, None)
        } else {
            step == RefreshStep::Await(RefreshStage::Warmup)
        },
        (RefreshStage::Warmup, RefreshReply::Warmed(Ok(_))) => step == RefreshStep::Await(
            RefreshStage::Refetch,
        ),
        (RefreshStage::Warmup, RefreshReply::Warmed(Err(error))) => refresh_ends(
            step,
            true,
            false,
            Some("warmup failed: "@ + error@),
        ),
        (RefreshStage::Refetch, RefreshReply::Refetched) => refresh_ends(step, true, true, None),
        _ => refresh_ends(step, false, false, Some(misfit()[0])),
    }
}

fn refresh_end(refreshed: bool, warmed: bool, failure: Option<String>) -> (r: RefreshStep)
    ensures
        refresh_ends(r, refreshed, warmed, crate::text::owned_text(failure)),
{
    RefreshStep::Finished(ProfileRefresh { refreshed, warmed, failure })
}

/// What refreshing one profile does next.
pub fn refresh_profile(auto_warmup: bool, stage: RefreshStage, reply: RefreshReply) -> (r:
    RefreshStep)
    ensures
        refresh_next(auto_warmup, stage, reply, r),
{
    match (stage, reply) {
        (RefreshStage::Permit, RefreshReply::Permit(true)) => RefreshStep::Await(
            RefreshStage::ResolvePath,
        ),
        (RefreshStage::Permit, RefreshReply::Permit(false)) => refresh_end(
            false,
            false,
            Some("usage limiter closed".to_owned()),
        ),
        (RefreshStage::ResolvePath, RefreshReply::Path(Ok(()))) => RefreshStep::Await(
            RefreshStage::Fetch,
        ),
        (RefreshStage::ResolvePath, RefreshReply::Path(Err(error))) => refresh_end(
            false,
            false,
            Some(error),
        ),
        (RefreshStage::Fetch, RefreshReply::Fetched(Err(error))) => refresh_end(
            false,
            false,
            Some(error),
        ),
        (RefreshStage::Fetch, RefreshReply::Fetched(Ok(active))) => if !auto_warmup || active {
            refresh_end(true, false, None)
        } else {
            RefreshStep::Await(RefreshStage::Warmup)
        },
        (RefreshStage::Warmup, RefreshReply::Warmed(Ok(()))) => RefreshStep::Await(
            RefreshStage::Refetch,
        ),
        (RefreshStage::Warmup, RefreshReply::Warmed(Err(error))) => refresh_end(
            true,
            false,
            Some(join2("warmup failed: ", error.as_str())),
        ),
        (RefreshStage::Refetch, RefreshReply::Refetched) => refresh_end(true, true, None),
        _ => refresh_end(false, false, Some(misfit_fault().headline())),
    }
}

/// How a refresh of the cache went.
#[derive(Clone, Copy, Debug, PartialEq, Eq, Structural)]
pub struct CacheRefreshSummary {
    pub refreshed: usize,
    pub warmed: usize,
    pub failed: usize,
}

/// How many profiles were refreshed.
pub open spec fn refreshed_count(ends: Seq<Option<ProfileRefresh>>) -> nat
    decreases ends.len(),
{
    if ends.len() == 0 {
        0
    } else {
        refreshed_count(ends.drop_last()) + (if ends.last() matches Some(end) && end.refreshed {
            1nat
        } else {
            0
        })
    }
}

/// How many profiles were warmed up.
pub open spec fn warmed_count(ends: Seq<Option<ProfileRefresh>>) -> nat
    decreases ends.len(),
{
    if ends.len() == 0 {
        0
    } else {
        warmed_count(ends.drop_last()) + (if ends.last() matches Some(end) && end.warmed {
            1nat
        } else {
            0
        })
    }
}

/// How many profiles failed: those that say so, and those whose worker is lost.
pub open spec fn failed_count(ends: Seq<Option<ProfileRefresh>>) -> nat
    decreases ends.len(),
{
    if ends.len() == 0 {
        0
    } else {
        failed_count(ends.drop_last()) + (match ends.last() {
            None => 1nat,
            Some(end) => if end.failure is Some {
                1nat
            } else {
                0
            },
        })
    }
}

/// How a refresh of the cache went, given what each worker came to; one that is
/// lost came to nothing.
pub fn refresh_summary(ends: &[Option<ProfileRefresh>]) -> (r: CacheRefreshSummary)
    ensures
        r.refreshed == refreshed_count(ends@),
        r.warmed == warmed_count(ends@),
        r.failed == failed_count(ends@),
{
    let mut summary = CacheRefreshSummary { refreshed: 0, warmed: 0, failed: 0 };
    let mut i: usize = 0;
    assert(ends@.take(0) =~= Seq::empty());
    while i < ends.len()
        invariant
            i <= ends@.len(),
            summary.refreshed <= i,
            summary.warmed <= i,
            summary.failed <= i,
            summary.refreshed == refreshed_count(ends@.take(i as int)),
            summary.warmed == warmed_count(ends@.take(i as int)),
            summary.failed == failed_count(ends@.take(i as int)),
        decreases ends@.len() - i,
    {
        proof {
            let now = ends@.take(i + 1);
            assert(now.drop_last() =~= ends@.take(i as int));
            assert(now.last() == ends@[i as int]);
        }
        match &ends[i] {
            None => {
                summary.failed = summary.failed + 1;
            },
            Some(end) => {
                if end.refreshed {
                    summary.refreshed = summary.refreshed + 1;
                }
                if end.warmed {
                    summary.warmed = summary.warmed + 1;
                }
                if end.failure.is_some() {
                    summary.failed = summary.failed + 1;
                }
            },
        }
        i = i + 1;
    }
    assert(ends@.take(i as int) =~= ends@);
    summary
}

} // verus!
