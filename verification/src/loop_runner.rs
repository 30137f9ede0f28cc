//! The decisions of the daemon's loop: when it polls, when it switches, and what
//! it remembers of both.
use vstd::prelude::*;

use crate::codex_process::CodexActivity;
use crate::fault::{join2, Fault};
use crate::text::same_text;

verus! {

// -- Backing off --

/// The largest factor by which failures stretch the poll interval.
pub const POLL_BACKOFF_MAX_MULTIPLIER: u64 = 16;

/// Two to the power of `n`.
pub open spec fn power_of_two(n: nat) -> nat
    decreases n,
{
    if n == 0 {
        1
    } else {
        2 * power_of_two((n - 1) as nat)
    }
}

/// The factor after so many failures in a row: it doubles with each, up to
/// sixteen.
pub open spec fn backoff_factor(failures: nat) -> nat {
    if power_of_two(failures) < POLL_BACKOFF_MAX_MULTIPLIER {
        power_of_two(failures)
    } else {
        POLL_BACKOFF_MAX_MULTIPLIER as nat
    }
}

proof fn lemma_power_grows(a: nat, b: nat)
    requires
        a <= b,
    ensures
        power_of_two(a) <= power_of_two(b),
        power_of_two(a) >= 1,
    decreases b,
{
    if b > 0 {
        if a == b {
            lemma_power_grows((a - 1) as nat, (b - 1) as nat);
        } else {
            lemma_power_grows(a, (b - 1) as nat);
        }
    }
}

/// More failures never shorten the wait, which is never longer than sixteen
/// intervals.
pub proof fn law_backoff_grows_and_is_capped(a: nat, b: nat)
    requires
        a <= b,
    ensures
        1 <= backoff_factor(a) <= backoff_factor(b) <= 16,
        b >= 4 ==> backoff_factor(b) == 16,
{
    lemma_power_grows(a, b);
    if b >= 4 {
        lemma_power_grows(4, b);
        reveal_with_fuel(power_of_two, 5);
    }
}

/// How long polling waits after failures in a row.
pub fn poll_backoff_secs(poll_secs: u64, consecutive_failures: u32) -> (r: Result<u64, Fault>)
    ensures
        if poll_secs * backoff_factor(consecutive_failures as nat) <= u64::MAX {
            r matches Ok(secs) && secs == poll_secs * backoff_factor(consecutive_failures as nat)
        } else {
            r matches Err(fault) && fault@ == seq![
                "daemon poll backoff exceeds the supported timer range"@,
            ]
        },
{
    let factor: u64 = match consecutive_failures {
        0 => 1,
        1 => 2,
        2 => 4,
        3 => 8,
        _ => 16,
    };
    proof {
        reveal_with_fuel(power_of_two, 5);
        if consecutive_failures >= 4 {
            law_backoff_grows_and_is_capped(4, consecutive_failures as nat);
        }
        assert(factor == backoff_factor(consecutive_failures as nat));
    }
    match poll_secs.checked_mul(factor) {
        Some(secs) => Ok(secs),
        None => Err(Fault::of("daemon poll backoff exceeds the supported timer range")),
    }
}

// -- Deferring --

/// Why a switch has to wait.
pub open spec fn defer_reason(activity: CodexActivity, defer_interactive_session: bool) -> Option<
    Seq<char>,
> {
    match activity {
        CodexActivity::AuthMutation => Some("Codex is changing authentication"@),
        CodexActivity::Unknown => Some("Codex process inspection failed"@),
        CodexActivity::Session => if defer_interactive_session {
            Some("a Codex session is running"@)
        } else {
            None
        },
        CodexActivity::Idle => None,
    }
}

/// Why a switch has to wait.
pub fn switch_defer_reason(activity: CodexActivity, defer_interactive_session: bool) -> (r: Option<
    &'static str,
>)
    ensures
        crate::text::optional_text(r) == defer_reason(activity, defer_interactive_session),
{
    match activity {
        CodexActivity::AuthMutation => Some("Codex is changing authentication"),
        CodexActivity::Unknown => Some("Codex process inspection failed"),
        CodexActivity::Session => if defer_interactive_session {
            Some("a Codex session is running")
        } else {
            None
        },
        CodexActivity::Idle => None,
    }
}

/// Changing authentication and a failed inspection hold a switch back whatever
/// the configuration says; an idle system never does.
pub proof fn law_only_sessions_are_configurable(a: bool, b: bool)
    ensures
        defer_reason(CodexActivity::AuthMutation, a) is Some,
        defer_reason(CodexActivity::Unknown, a) is Some,
        defer_reason(CodexActivity::AuthMutation, a) == defer_reason(
            CodexActivity::AuthMutation,
            b,
        ),
        defer_reason(CodexActivity::Unknown, a) == defer_reason(CodexActivity::Unknown, b),
        defer_reason(CodexActivity::Idle, a) is None,
        defer_reason(CodexActivity::Session, a) is Some <==> a,
{
}

// -- How much of a quota is used --

/// What is known of a quota window.
#[derive(Clone, Copy, Debug, PartialEq, Eq, Structural)]
pub enum WindowUse {
    /// The window reports no share.
    Unreported,
    /// The window reports a share below the whole.
    Partly,
    /// The whole window is used.
    Full,
}

/// Which share decides about a switch.
#[derive(Clone, Copy, Debug, PartialEq, Eq, Structural)]
pub enum UsageBasis {
    /// The account cannot run at all.
    Exhausted,
    Primary,
    Secondary,
    /// There is nothing to decide by.
    Unknown,
}

/// Which share decides about a switch: an account that cannot run counts as
/// used up, whichever window says so; else the primary window decides, and the
/// secondary one only where there is no primary.
pub fn current_usage_percent_for_switch(
    account_limited: bool,
    primary: Option<WindowUse>,
    secondary: Option<WindowUse>,
) -> (r: UsageBasis)
    ensures
        r == (if account_limited || primary == Some(WindowUse::Full) || secondary == Some(
            WindowUse::Full,
        ) {
            UsageBasis::Exhausted
        } else if primary is Some {
            if primary->0 is Partly {
                UsageBasis::Primary
            } else {
                UsageBasis::Unknown
            }
        } else if secondary == Some(WindowUse::Partly) {
            UsageBasis::Secondary
        } else {
            UsageBasis::Unknown
        }),
{
    if account_limited {
        return UsageBasis::Exhausted;
    }
    match (primary, secondary) {
        (Some(WindowUse::Full), _) => UsageBasis::Exhausted,
        (_, Some(WindowUse::Full)) => UsageBasis::Exhausted,
        (Some(WindowUse::Partly), _) => UsageBasis::Primary,
        (Some(WindowUse::Unreported), _) => UsageBasis::Unknown,
        (None, Some(WindowUse::Partly)) => UsageBasis::Secondary,
        (None, _) => UsageBasis::Unknown,
    }
}

// -- Candidates --

/// A profile that could be switched to.
#[derive(Debug, PartialEq, Eq)]
pub struct CandidateProfile<P, I> {
    pub alias: String,
    pub path: P,
    pub info: I,
    pub last_used: i64,
}

/// When a profile was last used.
#[derive(Debug, PartialEq, Eq)]
pub struct LastUse {
    pub alias: String,
    pub at: i64,
}

/// When a profile was last used; zero where that is not known.
pub open spec fn last_use_of(history: Seq<LastUse>, alias: Seq<char>) -> i64
    decreases history.len(),
{
    if history.len() == 0 {
        0
    } else if history[0].alias@ == alias {
        history[0].at
    } else {
        last_use_of(history.skip(1), alias)
    }
}

fn last_use(history: &[LastUse], alias: &str) -> (r: i64)
    ensures
        r == last_use_of(history@, alias@),
{
    let mut i: usize = 0;
    assert(history@.skip(0) =~= history@);
    while i < history.len()
        invariant
            i <= history@.len(),
            last_use_of(history@, alias@) == last_use_of(history@.skip(i as int), alias@),
        decreases history@.len() - i,
    {
        if same_text(history[i].alias.as_str(), alias) {
            return history[i].at;
        }
        assert(history@.skip(i as int).skip(1) =~= history@.skip(i + 1));
        i = i + 1;
    }
    0
}

/// The names that are not the current one, in their order.
pub open spec fn others(profiles: Seq<String>, current: Seq<char>) -> Seq<String>
    decreases profiles.len(),
{
    if profiles.len() == 0 {
        Seq::empty()
    } else if profiles.last()@ == current {
        others(profiles.drop_last(), current)
    } else {
        others(profiles.drop_last(), current).push(profiles.last())
    }
}

/// What resolving a name can give.
pub open spec fn resolves<P, R: Fn(&str) -> Result<P, Fault>>(
    resolve_path: R,
    alias: Seq<char>,
    out: Result<P, Fault>,
) -> bool {
    exists|name: &str| name@ == alias && #[trigger] resolve_path.ensures((name,), out)
}

/// What reading a profile can give.
pub open spec fn reads<P, I, Q: Fn(&str, &P) -> Result<I, Fault>>(
    read_info: Q,
    alias: Seq<char>,
    path: P,
    out: Result<I, Fault>,
) -> bool {
    exists|name: &str| name@ == alias && #[trigger] read_info.ensures((name, &path), out)
}

/// Whether a candidate is what resolving and reading its profile gave.
pub open spec fn is_candidate<
    P,
    I,
    R: Fn(&str) -> Result<P, Fault>,
    Q: Fn(&str, &P) -> Result<I, Fault>,
>(
    candidate: CandidateProfile<P, I>,
    alias: Seq<char>,
    history: Seq<LastUse>,
    resolve_path: R,
    read_info: Q,
) -> bool {
    candidate.alias@ == alias && resolves(resolve_path, alias, Ok(candidate.path)) && reads(
        read_info,
        alias,
        candidate.path,
        Ok(candidate.info),
    ) && candidate.last_used == last_use_of(history, alias)
}

/// Whether a failure is that of resolving or reading one profile.
pub open spec fn is_preflight_failure<
    P,
    I,
    R: Fn(&str) -> Result<P, Fault>,
    Q: Fn(&str, &P) -> Result<I, Fault>,
>(fault: Fault, alias: Seq<char>, resolve_path: R, read_info: Q) -> bool {
    (exists|error: Fault| #[trigger]
        resolves(resolve_path, alias, Err::<P, Fault>(error)) && fault@ == seq![
            "resolving candidate profile path: "@ + alias,
        ] + error@) || (exists|path: P, error: Fault| #[trigger]
        reads(read_info, alias, path, Err::<I, Fault>(error)) && resolves(
            resolve_path,
            alias,
            Ok(path),
        ) && fault@ == seq!["reading candidate profile metadata: "@ + alias] + error@)
}

/// Whether resolving and reading a profile succeeded.
pub open spec fn passes_preflight<
    P,
    I,
    R: Fn(&str) -> Result<P, Fault>,
    Q: Fn(&str, &P) -> Result<I, Fault>,
>(alias: Seq<char>, resolve_path: R, read_info: Q) -> bool {
    exists|path: P, info: I|
        resolves(resolve_path, alias, Ok(path)) && #[trigger] reads(
            read_info,
            alias,
            path,
            Ok(info),
        )
}

/// Resolves and reads every profile but the current one. Either all of them
/// become candidates, in their order, or the first that fails ends it.
pub fn preflight_candidate_profiles_with<P, I, R, Q>(
    profiles: &[String],
    current: &str,
    history: &[LastUse],
    resolve_path: R,
    read_info: Q,
) -> (r: Result<Vec<CandidateProfile<P, I>>, Fault>) where
    R: Fn(&str) -> Result<P, Fault>,
    Q: Fn(&str, &P) -> Result<I, Fault>,

    requires
        forall|name: &str| name@ != current@ ==> resolve_path.requires((name,)),
        forall|name: &str, path: P| name@ != current@ ==> read_info.requires((name, &path)),
    ensures
        match r {
            Ok(candidates) => candidates@.len() == others(profiles@, current@).len() && forall|
                i: int,
            |
                0 <= i < candidates@.len() ==> is_candidate(
                    #[trigger] candidates@[i],
                    others(profiles@, current@)[i]@,
                    history@,
                    resolve_path,
                    read_info,
                ),
            Err(fault) => exists|i: int|
                0 <= i < profiles@.len() && (#[trigger] profiles@[i])@ != current@
                    && is_preflight_failure::<P, I, R, Q>(
                    fault,
                    profiles@[i]@,
                    resolve_path,
                    read_info,
                ) && forall|k: int|
                    0 <= k < i && (#[trigger] profiles@[k])@ != current@ ==> passes_preflight::<
                        P,
                        I,
                        R,
                        Q,
                    >(profiles@[k]@, resolve_path, read_info),
        },
{
    let mut candidates: Vec<CandidateProfile<P, I>> = Vec::new();
    let mut i: usize = 0;
    assert(profiles@.take(0) =~= Seq::empty());
    while i < profiles.len()
        invariant
            i <= profiles@.len(),
            forall|name: &str| name@ != current@ ==> resolve_path.requires((name,)),
            forall|name: &str, path: P| name@ != current@ ==> read_info.requires((name, &path)),
            forall|k: int|
                0 <= k < i && (#[trigger] profiles@[k])@ != current@ ==> passes_preflight::<
                    P,
                    I,
                    R,
                    Q,
                >(profiles@[k]@, resolve_path, read_info),
            candidates@.len() == others(profiles@.take(i as int), current@).len(),
            forall|k: int|
                0 <= k < candidates@.len() ==> is_candidate(
                    #[trigger] candidates@[k],
                    others(profiles@.take(i as int), current@)[k]@,
                    history@,
                    resolve_path,
                    read_info,
                ),
        decreases profiles@.len() - i,
    {
        let alias = &profiles[i];
        let ghost before = others(profiles@.take(i as int), current@);
        proof {
            let now = profiles@.take(i + 1);
            assert(now.drop_last() =~= profiles@.take(i as int));
            assert(now.last() == profiles@[i as int]);
        }
        if same_text(alias.as_str(), current) {
            i = i + 1;
            continue ;
        }
        let path = match resolve_path(alias.as_str()) {
            Ok(path) => path,
            Err(error) => {
                proof {
                    assert(resolves(resolve_path, alias@, Err::<P, Fault>(error)));
                }
                let fault = error.context(
                    join2("resolving candidate profile path: ", alias.as_str()),
                );
                assert(is_preflight_failure::<P, I, R, Q>(fault, alias@, resolve_path, read_info));
                assert(profiles@[i as int]@ != current@);
                return Err(fault);
            },
        };
        let info = match read_info(alias.as_str(), &path) {
            Ok(info) => info,
            Err(error) => {
                proof {
                    assert(resolves(resolve_path, alias@, Ok(path)));
                    assert(reads(read_info, alias@, path, Err::<I, Fault>(error)));
                }
                let fault = error.context(
                    join2("reading candidate profile metadata: ", alias.as_str()),
                );
                assert(is_preflight_failure::<P, I, R, Q>(fault, alias@, resolve_path, read_info));
                assert(profiles@[i as int]@ != current@);
                return Err(fault);
            },
        };
        let candidate = CandidateProfile {
            alias: alias.clone(),
            path,
            info,
            last_used: last_use(history, alias.as_str()),
        };
        assert(is_candidate(candidate, alias@, history@, resolve_path, read_info));
        assert(reads(read_info, alias@, candidate.path, Ok(candidate.info)));
        assert(passes_preflight::<P, I, R, Q>(alias@, resolve_path, read_info));
        let ghost earlier = candidates@;
        candidates.push(candidate);
        i = i + 1;
        proof {
            let after = others(profiles@.take(i as int), current@);
            assert(after == before.push(profiles@[i - 1]));
            assert forall|k: int| 0 <= k < candidates@.len() implies is_candidate(
                #[trigger] candidates@[k],
                after[k]@,
                history@,
                resolve_path,
                read_info,
            ) by {
                if k < earlier.len() {
                    assert(candidates@[k] == earlier[k]);
                    assert(after[k] == before[k]);
                }
            }
        }
    }
    assert(profiles@.take(i as int) =~= profiles@);
    Ok(candidates)
}

} // verus!
