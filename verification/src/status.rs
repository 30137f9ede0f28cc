//! What `daemon status` says.
use vstd::prelude::*;

use crate::commands::unsupported_platform_line;
use crate::fault::{join2, join3, join4, join5, Fault};
use crate::host_path::Platform;
use crate::number::{decimal, decimal_text, signed_decimal, signed_decimal_text};
use crate::outside::{calendar, calendar_text};
use crate::removal::{misfit, misfit_fault};
use crate::state::DaemonState;
use crate::text::{chars_of, control, is_control, text_of, texts};

verus! {

// -- Parts --

/// How much of the last error is shown.
pub const STATUS_LAST_ERROR_MAX_CHARS: usize = 512;

/// The characters that a terminal only shows.
pub open spec fn printable(s: Seq<char>) -> Seq<char>
    decreases s.len(),
{
    if s.len() == 0 {
        Seq::empty()
    } else if is_control(s.last()) {
        printable(s.drop_last())
    } else {
        printable(s.drop_last()).push(s.last())
    }
}

/// At most so many characters from the front.
pub open spec fn clipped(s: Seq<char>, limit: nat) -> Seq<char> {
    if s.len() <= limit {
        s
    } else {
        s.take(limit as int)
    }
}

/// An error as it may be shown: without control characters, and not too long.
pub fn bounded_status_last_error(error: &str) -> (r: String)
    ensures
        r@ == clipped(printable(error@), STATUS_LAST_ERROR_MAX_CHARS as nat),
{
    let chars = chars_of(error);
    let mut out: Vec<char> = Vec::new();
    let mut i: usize = 0;
    assert(chars@.take(0) =~= Seq::empty());
    assert(out@ =~= clipped(printable(chars@.take(0)), STATUS_LAST_ERROR_MAX_CHARS as nat));
    while i < chars.len()
        invariant
            i <= chars@.len(),
            out@ == clipped(
                printable(chars@.take(i as int)),
                STATUS_LAST_ERROR_MAX_CHARS as nat,
            ),
            out@.len() <= STATUS_LAST_ERROR_MAX_CHARS,
        decreases chars@.len() - i,
    {
        let c = chars[i];
        let ghost before = printable(chars@.take(i as int));
        let ghost shown = out@;
        proof {
            let now = chars@.take(i + 1);
            assert(now.drop_last() =~= chars@.take(i as int));
            assert(now.last() == c);
        }
        if !control(c) {
            if out.len() < STATUS_LAST_ERROR_MAX_CHARS {
                out.push(c);
                assert(shown =~= before);
                assert(out@ =~= before.push(c));
            } else {
                assert(before.push(c).take(STATUS_LAST_ERROR_MAX_CHARS as int) =~= before.take(
                    STATUS_LAST_ERROR_MAX_CHARS as int,
                ));
                assert(shown =~= before.take(STATUS_LAST_ERROR_MAX_CHARS as int));
            }
        }
        i = i + 1;
    }
    assert(chars@.take(i as int) =~= chars@);
    text_of(out.as_slice())
}

proof fn lemma_printable_has_no_control(s: Seq<char>)
    ensures
        forall|i: int| 0 <= i < printable(s).len() ==> !is_control(#[trigger] printable(s)[i]),
    decreases s.len(),
{
    if s.len() > 0 {
        lemma_printable_has_no_control(s.drop_last());
        let front = printable(s.drop_last());
        assert forall|i: int| 0 <= i < printable(s).len() implies !is_control(
            #[trigger] printable(s)[i],
        ) by {
            if i < front.len() {
                assert(printable(s)[i] == front[i]);
            }
        }
    }
}

/// No error moves the cursor, changes the terminal or fills the screen: what is
/// shown holds no control character and is at most so long.
pub proof fn law_shown_errors_are_plain_and_short(error: Seq<char>)
    ensures
        clipped(printable(error), STATUS_LAST_ERROR_MAX_CHARS as nat).len()
            <= STATUS_LAST_ERROR_MAX_CHARS,
        forall|i: int|
            0 <= i < clipped(printable(error), STATUS_LAST_ERROR_MAX_CHARS as nat).len()
                ==> !is_control(
                #[trigger] clipped(printable(error), STATUS_LAST_ERROR_MAX_CHARS as nat)[i],
            ),
{
    lemma_printable_has_no_control(error);
}

/// How a Unix time is written: the day, the time of day and the time zone.
pub const TIME_PATTERN: &'static str = "%Y-%m-%d %H:%M:%S UTC";

/// A Unix time in words: its calendar form, or the number where it has none.
pub open spec fn time_words(ts: i64) -> Seq<char> {
    match calendar(ts as int, TIME_PATTERN@) {
        Some(text) => text,
        None => signed_decimal(ts as int),
    }
}

/// A Unix time in words, given its calendar form.
pub fn time_or_number(ts: i64, calendar_form: Option<String>) -> (r: String)
    ensures
        r@ == (match calendar_form {
            Some(text) => text@,
            None => signed_decimal(ts as int),
        }),
{
    match calendar_form {
        Some(text) => text,
        None => signed_decimal_text(ts),
    }
}

/// A Unix time in words.
pub fn format_unix(ts: i64) -> (r: String)
    ensures
        r@ == time_words(ts),
{
    proof {
        reveal_strlit("%Y-%m-%d %H:%M:%S UTC");
    }
    time_or_number(ts, calendar_text(ts, TIME_PATTERN))
}

/// The name of the system's service manager.
pub open spec fn manager_word(platform: Platform) -> Seq<char> {
    match platform {
        Platform::MacOs => "launchd"@,
        Platform::Linux => "systemd-user"@,
        Platform::Windows => "task-scheduler"@,
        Platform::OtherUnix | Platform::Other => "unsupported"@,
    }
}

/// The name of the system's service manager.
pub fn service_manager_name(platform: Platform) -> (r: &'static str)
    ensures
        r@ == manager_word(platform),
{
    match platform {
        Platform::MacOs => "launchd",
        Platform::Linux => "systemd-user",
        Platform::Windows => "task-scheduler",
        Platform::OtherUnix | Platform::Other => "unsupported",
    }
}

/// Whether the daemon runs, left an identity behind, or does neither.
pub open spec fn state_word(pid: Option<u32>, running: bool) -> Seq<char> {
    match pid {
        Some(_) => if running {
            "running"@
        } else {
            "stale"@
        },
        None => "stopped"@,
    }
}

/// Whether the daemon runs, left an identity behind, or does neither.
pub fn daemon_state_word(pid: Option<u32>, running: bool) -> (r: &'static str)
    ensures
        r@ == state_word(pid, running),
{
    match pid {
        Some(_) => if running {
            "running"
        } else {
            "stale"
        },
        None => "stopped",
    }
}

// -- The configuration --

/// The configuration of the daemon. The threshold is given in words.
#[derive(Debug, PartialEq, Eq)]
pub struct DaemonConfig {
    pub poll_interval_secs: u64,
    pub cache_refresh_interval_secs: u64,
    pub auto_warmup: bool,
    pub token_check_interval_secs: u64,
    pub switch_threshold: String,
    pub notify: bool,
    pub defer_switch_while_codex_running: bool,
    pub log_level: String,
}

/// A flag in words.
pub open spec fn flag_word(flag: bool) -> Seq<char> {
    if flag {
        "true"@
    } else {
        "false"@
    }
}

fn flag_name(flag: bool) -> (r: &'static str)
    ensures
        r@ == flag_word(flag),
{
    if flag {
        "true"
    } else {
        "false"
    }
}

/// What is said of the service and of the configuration.
pub open spec fn metadata_lines(
    platform: Platform,
    service_installed: bool,
    cfg: DaemonConfig,
) -> Seq<Seq<char>> {
    seq![
        "Service: "@ + (if service_installed {
            "installed"@
        } else {
            "not installed"@
        }) + " (manager: "@ + manager_word(platform) + ")"@,
        "Config:"@,
        "  poll_interval_secs: "@ + decimal(cfg.poll_interval_secs as nat),
        "  cache_refresh_interval_secs: "@ + decimal(cfg.cache_refresh_interval_secs as nat),
        "  auto_warmup: "@ + flag_word(cfg.auto_warmup),
        "  token_check_interval_secs: "@ + decimal(cfg.token_check_interval_secs as nat),
        "  switch_threshold: "@ + cfg.switch_threshold@,
        "  notify: "@ + flag_word(cfg.notify),
        "  defer_switch_while_codex_running: "@ + flag_word(cfg.defer_switch_while_codex_running),
        "  log_level: "@ + cfg.log_level@,
    ]
}

/// What is said of the service and of the configuration.
pub fn status_metadata_lines(platform: Platform, service_installed: bool, cfg: &DaemonConfig) -> (r:
    Vec<String>)
    ensures
        texts(r@) == metadata_lines(platform, service_installed, *cfg),
{
    let installed = if service_installed {
        "installed"
    } else {
        "not installed"
    };
    let mut out: Vec<String> = Vec::new();
    out.push(
        join5("Service: ", installed, " (manager: ", service_manager_name(platform), ")"),
    );
    out.push("Config:".to_owned());
    out.push(join2("  poll_interval_secs: ", decimal_text(cfg.poll_interval_secs).as_str()));
    out.push(
        join2(
            "  cache_refresh_interval_secs: ",
            decimal_text(cfg.cache_refresh_interval_secs).as_str(),
        ),
    );
    out.push(join2("  auto_warmup: ", flag_name(cfg.auto_warmup)));
    out.push(
        join2(
            "  token_check_interval_secs: ",
            decimal_text(cfg.token_check_interval_secs).as_str(),
        ),
    );
    out.push(join2("  switch_threshold: ", cfg.switch_threshold.as_str()));
    out.push(join2("  notify: ", flag_name(cfg.notify)));
    out.push(
        join2(
            "  defer_switch_while_codex_running: ",
            flag_name(cfg.defer_switch_while_codex_running),
        ),
    );
    out.push(join2("  log_level: ", cfg.log_level.as_str()));
    assert(texts(out@) =~= metadata_lines(platform, service_installed, *cfg));
    out
}

// -- The daemon --

/// The last poll.
pub open spec fn poll_lines(snapshot: DaemonState) -> Seq<Seq<char>> {
    match snapshot.last_poll_at {
        Some(at) => seq!["  Last poll: "@ + time_words(at)],
        None => Seq::empty(),
    }
}

/// The last switch, with its score in words.
pub open spec fn switch_lines(snapshot: DaemonState, score: Seq<char>) -> Seq<Seq<char>> {
    match snapshot.last_switch {
        Some(sw) => seq![
            "  Last switch: '"@ + sw.from@ + "' -> '"@ + sw.to@ + "' at "@ + time_words(sw.at)
                + " (score "@ + score + ")"@,
        ],
        None => Seq::empty(),
    }
}

/// The pending switch.
pub open spec fn pending_lines(snapshot: DaemonState) -> Seq<Seq<char>> {
    match snapshot.pending_switch {
        Some(p) => seq![
            "  Pending switch to '"@ + p.to@ + "' since "@ + time_words(p.since)
                + " (waiting for Codex session to end)"@,
        ],
        None => Seq::empty(),
    }
}

/// The last error.
pub open spec fn error_lines(snapshot: DaemonState) -> Seq<Seq<char>> {
    match snapshot.last_error {
        Some(err) => seq![
            "  Last error ("@ + decimal(snapshot.consecutive_failures as nat) + " consecutive): "@
                + clipped(printable(err@), STATUS_LAST_ERROR_MAX_CHARS as nat),
        ],
        None => Seq::empty(),
    }
}

/// What is said of a suspension of so many seconds.
pub open spec fn suspension_words(until: i64, remaining: int) -> Seq<char> {
    "  Polling suspended for another "@ + signed_decimal(remaining) + "s (until "@ + time_words(
        until,
    ) + ") after repeated failures; `daemon stop` then `daemon start` resumes it immediately"@
}

/// How long polling is still suspended: nothing where the suspension is over, and
/// a failure where the rest of it does not fit in the time's range.
pub fn suspension_line(until: i64, now: i64) -> (r: Result<Option<String>, Fault>)
    ensures
        if until - now > i64::MAX || until - now < i64::MIN {
            r matches Err(fault) && fault@ == seq![
                "daemon backoff timestamp exceeds the signed time range"@,
            ]
        } else if until - now > 0 {
            r matches Ok(Some(line)) && line@ == suspension_words(until, until - now)
        } else {
            r == Ok::<Option<String>, Fault>(None)
        },
{
    match until.checked_sub(now) {
        None => Err(Fault::of("daemon backoff timestamp exceeds the signed time range")),
        Some(remaining) => if remaining > 0 {
            Ok(
                Some(
                    join5(
                        "  Polling suspended for another ",
                        signed_decimal_text(remaining).as_str(),
                        "s (until ",
                        format_unix(until).as_str(),
                        ") after repeated failures; `daemon stop` then `daemon start` resumes it immediately",
                    ),
                ),
            )
        } else {
            Ok(None)
        },
    }
}

/// What a running daemon last wrote, with the score of its last switch in words.
#[derive(Debug, PartialEq, Eq)]
pub struct StatusSnapshot {
    pub state: DaemonState,
    pub score: String,
}

/// What is said of a running daemon, but for its suspension.
pub open spec fn snapshot_lines(snapshot: StatusSnapshot) -> Seq<Seq<char>> {
    poll_lines(snapshot.state) + switch_lines(snapshot.state, snapshot.score@) + pending_lines(
        snapshot.state,
    ) + error_lines(snapshot.state)
}

/// The lines about the daemon, but for its suspension.
pub open spec fn daemon_lines(
    pid: Option<u32>,
    running: bool,
    snapshot: Option<StatusSnapshot>,
) -> Seq<Seq<char>> {
    match pid {
        Some(number) => if running {
            seq!["Daemon is running (PID "@ + decimal(number as nat) + ")"@] + (match snapshot {
                Some(found) => snapshot_lines(found),
                None => Seq::empty(),
            })
        } else {
            seq!["Daemon is not running (stale PID "@ + decimal(number as nat) + ")"@]
        },
        None => seq!["Daemon is not running"@],
    }
}

fn push_line(lines: &mut Vec<String>, line: String)
    ensures
        texts(final(lines)@) == texts(old(lines)@) + seq![line@],
{
    let ghost before = lines@;
    lines.push(line);
    assert(texts(lines@) =~= texts(before) + seq![line@]);
}

/// What is said of the daemon, but for its suspension.
pub fn status_lines(pid: Option<u32>, running: bool, snapshot: &Option<StatusSnapshot>) -> (r: Vec<
    String,
>)
    ensures
        texts(r@) == daemon_lines(pid, running, *snapshot),
{
    let mut lines: Vec<String> = Vec::new();
    let ghost whole = daemon_lines(pid, running, *snapshot);
    assert(texts(lines@) =~= Seq::empty());
    let number = match pid {
        None => {
            push_line(&mut lines, "Daemon is not running".to_owned());
            assert(texts(lines@) =~= whole);
            return lines;
        },
        Some(number) => decimal_text(number as u64),
    };
    if !running {
        push_line(
            &mut lines,
            join3("Daemon is not running (stale PID ", number.as_str(), ")"),
        );
        assert(texts(lines@) =~= whole);
        return lines;
    }
    push_line(&mut lines, join3("Daemon is running (PID ", number.as_str(), ")"));
    let ghost first = texts(lines@);
    assert(first =~= seq!["Daemon is running (PID "@ + decimal(pid->0 as nat) + ")"@]);
    let found = match snapshot {
        None => {
            assert(texts(lines@) =~= whole);
            return lines;
        },
        Some(found) => found,
    };
    let snap = &found.state;
    if let Some(at) = snap.last_poll_at {
        push_line(&mut lines, join2("  Last poll: ", format_unix(at).as_str()));
    }
    assert(texts(lines@) =~= first + poll_lines(*snap));
    if let Some(sw) = &snap.last_switch {
        push_line(
            &mut lines,
            join5(
                join5("  Last switch: '", sw.from.as_str(), "' -> '", sw.to.as_str(), "' at ").as_str(),
                format_unix(sw.at).as_str(),
                " (score ",
                found.score.as_str(),
                ")",
            ),
        );
    }
    assert(texts(lines@) =~= first + poll_lines(*snap) + switch_lines(*snap, found.score@));
    if let Some(p) = &snap.pending_switch {
        push_line(
            &mut lines,
            join5(
                "  Pending switch to '",
                p.to.as_str(),
                "' since ",
                format_unix(p.since).as_str(),
                " (waiting for Codex session to end)",
            ),
        );
    }
    assert(texts(lines@) =~= first + poll_lines(*snap) + switch_lines(*snap, found.score@)
        + pending_lines(*snap));
    if let Some(err) = &snap.last_error {
        push_line(
            &mut lines,
            join4(
                "  Last error (",
                decimal_text(snap.consecutive_failures as u64).as_str(),
                " consecutive): ",
                bounded_status_last_error(err.as_str()).as_str(),
            ),
        );
    }
    assert(texts(lines@) =~= whole);
    lines
}

// -- The command --

/// What the process that runs and the one that the PID file names decide.
#[derive(Clone, Copy, Debug, PartialEq, Eq, Structural)]
pub struct StatusPlan {
    pub pid: Option<u32>,
    pub running: bool,
    /// Whether the snapshot says anything: only while the daemon runs.
    pub reads_snapshot: bool,
    /// Whether the PID file was left behind.
    pub cleans_up: bool,
}

/// The plan for a process that runs and one that the PID file names.
pub open spec fn plan_of(running_pid: Option<u32>, pidfile: Option<u32>) -> StatusPlan {
    StatusPlan {
        pid: if running_pid is Some {
            running_pid
        } else {
            pidfile
        },
        running: running_pid is Some,
        reads_snapshot: running_pid is Some,
        cleans_up: running_pid is None && pidfile is Some,
    }
}

/// What the process that runs and the one that the PID file names decide. The
/// PID file counts only where nothing runs.
pub fn status_plan(running_pid: Option<u32>, pidfile: Option<u32>) -> (r: StatusPlan)
    ensures
        r.pid == (if running_pid is Some {
            running_pid
        } else {
            pidfile
        }),
        r.running == (running_pid is Some),
        r.reads_snapshot == r.running,
        r.cleans_up == (running_pid is None && pidfile is Some),
        r == plan_of(running_pid, pidfile),
{
    StatusPlan {
        pid: match running_pid {
            Some(_) => running_pid,
            None => pidfile,
        },
        running: running_pid.is_some(),
        reads_snapshot: running_pid.is_some(),
        cleans_up: running_pid.is_none() && pidfile.is_some(),
    }
}

impl StatusPlan {
    /// The state in one word.
    pub fn word(&self) -> (r: &'static str)
        ensures
            r@ == state_word(self.pid, self.running),
    {
        daemon_state_word(self.pid, self.running)
    }
}

/// Whether the daemon can be started on a system.
pub fn daemon_start_supported(platform: Platform) -> (r: bool)
    ensures
        r == (platform != Platform::Other),
{
    platform != Platform::Other
}

/// Whether the daemon can be installed as a service on a system.
pub fn service_install_supported(platform: Platform) -> (r: bool)
    ensures
        r == (platform == Platform::MacOs || platform == Platform::Linux || platform
            == Platform::Windows),
{
    platform == Platform::MacOs || platform == Platform::Linux || platform == Platform::Windows
}

/// How the state is asked for.
#[derive(Debug, PartialEq, Eq)]
pub struct StatusContext {
    pub json: bool,
    pub platform: Platform,
    /// The system's name.
    pub os: String,
    pub config: DaemonConfig,
}

/// The operation that showing the state waits for.
#[derive(Debug, PartialEq, Eq)]
pub enum StatusStage {
    /// Finding out where the PID file is.
    LocatePidfile,
    /// Looking for the process that runs.
    LookRunning,
    /// Reading the process out of the PID file.
    ReadPidfile,
    ReadSnapshot { plan: StatusPlan },
    /// Looking whether the service is installed.
    LookService { plan: StatusPlan, snapshot: Option<StatusSnapshot> },
    PrintJson { plan: StatusPlan, snapshot: Option<StatusSnapshot>, service_installed: bool },
    /// Printing what is said of the daemon.
    Print {
        plan: StatusPlan,
        lines: Vec<String>,
        suspended_until: Option<i64>,
        service_installed: bool,
    },
    ReadTime { until: i64, service_installed: bool },
    PrintSuspension { line: String, service_installed: bool },
    /// Removing the PID file that was left behind.
    CleanUp { plan: StatusPlan, service_installed: bool },
    /// Printing what is said of the service and of the configuration.
    PrintMetadata { lines: Vec<String> },
}

/// What the operation gave.
#[derive(Debug, PartialEq, Eq)]
pub enum StatusReply {
    Done(Result<(), Fault>),
    Pid(Result<Option<u32>, Fault>),
    Pidfile(Option<u32>),
    Snapshot(Result<Option<StatusSnapshot>, Fault>),
    Installed(Result<bool, Fault>),
    Time(Result<i64, Fault>),
}

/// What showing the state does next.
#[derive(Debug, PartialEq, Eq)]
pub enum StatusStep {
    Await(StatusStage),
    Finished(Result<(), Fault>),
}

/// Whether showing the state ends with a failure.
pub open spec fn status_fails(step: StatusStep, messages: Seq<Seq<char>>) -> bool {
    step matches StatusStep::Finished(Err(fault)) && fault@ == messages
}

/// Whether the service and the configuration are shown next.
pub open spec fn shows_metadata(
    context: StatusContext,
    service_installed: bool,
    step: StatusStep,
) -> bool {
    step matches StatusStep::Await(StatusStage::PrintMetadata { lines }) && texts(lines@)
        == metadata_lines(context.platform, service_installed, context.config)
}

/// Until when polling is suspended, as the snapshot tells.
pub open spec fn suspension_of(snapshot: Option<StatusSnapshot>) -> Option<i64> {
    match snapshot {
        Some(found) => found.state.backoff_until,
        None => None,
    }
}

/// Whether the daemon is shown next: that it is not supported, or its state.
pub open spec fn shows_daemon(
    context: StatusContext,
    plan: StatusPlan,
    snapshot: Option<StatusSnapshot>,
    service_installed: bool,
    step: StatusStep,
) -> bool {
    step matches StatusStep::Await(
        StatusStage::Print { plan: p, lines, suspended_until, service_installed: i },
    ) && i == service_installed && if context.platform == Platform::Other {
        p == (StatusPlan { cleans_up: false, ..plan }) && suspended_until is None && texts(lines@)
            == seq!["Daemon is not supported on this platform ("@ + context.os@ + ")"@]
    } else {
        p == plan && suspended_until == suspension_of(snapshot) && texts(lines@) == daemon_lines(
            plan.pid,
            plan.running,
            snapshot,
        )
    }
}

/// What showing the state does next. The PID file is read only where nothing
/// runs, the snapshot only where something does; a PID file that was left behind
/// is removed after it was reported, and no other is.
pub open spec fn status_next(
    context: StatusContext,
    stage: StatusStage,
    reply: StatusReply,
    step: StatusStep,
) -> bool {
    match (stage, reply) {
        (_, StatusReply::Done(Err(error))) => status_fails(step, error@),
        (_, StatusReply::Pid(Err(error))) => status_fails(step, error@),
        (_, StatusReply::Snapshot(Err(error))) => status_fails(step, error@),
        (_, StatusReply::Installed(Err(error))) => status_fails(step, error@),
        (_, StatusReply::Time(Err(error))) => status_fails(step, error@),
        (StatusStage::LocatePidfile, StatusReply::Done(Ok(_))) => step == StatusStep::Await(
            StatusStage::LookRunning,
        ),
        (StatusStage::LookRunning, StatusReply::Pid(Ok(Some(pid)))) => step == StatusStep::Await(
            StatusStage::ReadSnapshot { plan: plan_of(Some(pid), None) },
        ),
        (StatusStage::LookRunning, StatusReply::Pid(Ok(None))) => step == StatusStep::Await(
            StatusStage::ReadPidfile,
        ),
        (StatusStage::ReadPidfile, StatusReply::Pidfile(pidfile)) => step == StatusStep::Await(
            StatusStage::LookService { plan: plan_of(None, pidfile), snapshot: None },
        ),
        (StatusStage::ReadSnapshot { plan }, StatusReply::Snapshot(Ok(snapshot))) => step
            == StatusStep::Await(StatusStage::LookService { plan, snapshot }),
        (
            StatusStage::LookService { plan, snapshot },
            StatusReply::Installed(Ok(service_installed)),
        ) => if context.json {
            step == StatusStep::Await(
                StatusStage::PrintJson { plan, snapshot, service_installed },
            )
        } else {
            shows_daemon(context, plan, snapshot, service_installed, step)
        },
        (
            StatusStage::PrintJson { plan, snapshot: _, service_installed },
            StatusReply::Done(Ok(_)),
        ) => if plan.cleans_up {
            step == StatusStep::Await(StatusStage::CleanUp { plan, service_installed })
        } else {
            step matches StatusStep::Finished(Ok(_))
        },
        (
            StatusStage::Print { plan, lines: _, suspended_until, service_installed },
            StatusReply::Done(Ok(_)),
        ) => if suspended_until is Some {
            step == StatusStep::Await(
                StatusStage::ReadTime { until: suspended_until->0, service_installed },
            )
        } else if plan.cleans_up {
            step == StatusStep::Await(StatusStage::CleanUp { plan, service_installed })
        } else {
            shows_metadata(context, service_installed, step)
        },
        (StatusStage::ReadTime { until, service_installed }, StatusReply::Time(Ok(now))) => {
            if until - now > i64::MAX || until - now < i64::MIN {
                status_fails(
                    step,
                    seq!["daemon backoff timestamp exceeds the signed time range"@],
                )
            } else if until - now > 0 {
                step matches StatusStep::Await(
                    StatusStage::PrintSuspension { line, service_installed: i },
                ) && i == service_installed && line@ == suspension_words(until, until - now)
            } else {
                shows_metadata(context, service_installed, step)
            }
        },
        (
            StatusStage::PrintSuspension { line: _, service_installed },
            StatusReply::Done(Ok(_)),
        ) => shows_metadata(context, service_installed, step),
        (StatusStage::CleanUp { plan: _, service_installed }, StatusReply::Done(Ok(_))) => {
            if context.json {
                step matches StatusStep::Finished(Ok(_))
            } else {
                shows_metadata(context, service_installed, step)
            }
        },
        (StatusStage::PrintMetadata { .. }, StatusReply::Done(Ok(_))) => step matches
            StatusStep::Finished(Ok(_)),
        _ => status_fails(step, misfit()),
    }
}

fn status_fault(fault: Fault) -> (r: StatusStep)
    ensures
        status_fails(r, fault@),
{
    StatusStep::Finished(Err(fault))
}

fn show_metadata(context: &StatusContext, service_installed: bool) -> (r: StatusStep)
    ensures
        shows_metadata(*context, service_installed, r),
{
    StatusStep::Await(
        StatusStage::PrintMetadata {
            lines: status_metadata_lines(context.platform, service_installed, &context.config),
        },
    )
}

fn show_daemon(
    context: &StatusContext,
    plan: StatusPlan,
    snapshot: Option<StatusSnapshot>,
    service_installed: bool,
) -> (r: StatusStep)
    ensures
        shows_daemon(*context, plan, snapshot, service_installed, r),
{
    if !daemon_start_supported(context.platform) {
        let mut lines: Vec<String> = Vec::new();
        lines.push(unsupported_platform_line(context.os.as_str()));
        assert(texts(lines@) =~= seq![
            "Daemon is not supported on this platform ("@ + context.os@ + ")"@,
        ]);
        return StatusStep::Await(
            StatusStage::Print {
                plan: StatusPlan { cleans_up: false, ..plan },
                lines,
                suspended_until: None,
                service_installed,
            },
        );
    }
    let lines = status_lines(plan.pid, plan.running, &snapshot);
    let suspended_until: Option<i64> = match &snapshot {
        Some(found) => found.state.backoff_until,
        None => None,
    };
    StatusStep::Await(StatusStage::Print { plan, lines, suspended_until, service_installed })
}

/// What showing the state does next. It starts with
/// `StatusStage::LocatePidfile`.
pub fn status(context: &StatusContext, stage: StatusStage, reply: StatusReply) -> (r: StatusStep)
    ensures
        status_next(*context, stage, reply, r),
{
    match (stage, reply) {
        (_, StatusReply::Done(Err(error))) => status_fault(error),
        (_, StatusReply::Pid(Err(error))) => status_fault(error),
        (_, StatusReply::Snapshot(Err(error))) => status_fault(error),
        (_, StatusReply::Installed(Err(error))) => status_fault(error),
        (_, StatusReply::Time(Err(error))) => status_fault(error),
        (StatusStage::LocatePidfile, StatusReply::Done(Ok(()))) => StatusStep::Await(
            StatusStage::LookRunning,
        ),
        (StatusStage::LookRunning, StatusReply::Pid(Ok(Some(pid)))) => StatusStep::Await(
            StatusStage::ReadSnapshot { plan: status_plan(Some(pid), None) },
        ),
        (StatusStage::LookRunning, StatusReply::Pid(Ok(None))) => StatusStep::Await(
            StatusStage::ReadPidfile,
        ),
        (StatusStage::ReadPidfile, StatusReply::Pidfile(pidfile)) => StatusStep::Await(
            StatusStage::LookService { plan: status_plan(None, pidfile), snapshot: None },
        ),
        (StatusStage::ReadSnapshot { plan }, StatusReply::Snapshot(Ok(snapshot))) => {
            StatusStep::Await(StatusStage::LookService { plan, snapshot })
        },
        (
            StatusStage::LookService { plan, snapshot },
            StatusReply::Installed(Ok(service_installed)),
        ) => {
            if context.json {
                StatusStep::Await(StatusStage::PrintJson { plan, snapshot, service_installed })
            } else {
                show_daemon(context, plan, snapshot, service_installed)
            }
        },
        (
            StatusStage::PrintJson { plan, snapshot: _, service_installed },
            StatusReply::Done(Ok(())),
        ) => {
            if plan.cleans_up {
                StatusStep::Await(StatusStage::CleanUp { plan, service_installed })
            } else {
                StatusStep::Finished(Ok(()))
            }
        },
        (
            StatusStage::Print { plan, lines: _, suspended_until, service_installed },
            StatusReply::Done(Ok(())),
        ) => {
            if let Some(until) = suspended_until {
                StatusStep::Await(StatusStage::ReadTime { until, service_installed })
            } else if plan.cleans_up {
                StatusStep::Await(StatusStage::CleanUp { plan, service_installed })
            } else {
                show_metadata(context, service_installed)
            }
        },
        (StatusStage::ReadTime { until, service_installed }, StatusReply::Time(Ok(now))) => {
            match suspension_line(until, now) {
                Err(fault) => status_fault(fault),
                Ok(Some(line)) => StatusStep::Await(
                    StatusStage::PrintSuspension { line, service_installed },
                ),
                Ok(None) => show_metadata(context, service_installed),
            }
        },
        (
            StatusStage::PrintSuspension { line: _, service_installed },
            StatusReply::Done(Ok(())),
        ) => show_metadata(context, service_installed),
        (StatusStage::CleanUp { plan: _, service_installed }, StatusReply::Done(Ok(()))) => {
            if context.json {
                StatusStep::Finished(Ok(()))
            } else {
                show_metadata(context, service_installed)
            }
        },
        (StatusStage::PrintMetadata { .. }, StatusReply::Done(Ok(()))) => StatusStep::Finished(
            Ok(()),
        ),
        _ => status_fault(misfit_fault()),
    }
}

// -- Laws --

/// Whether a plan is one that two looks at the processes decide.
pub open spec fn planned(plan: StatusPlan) -> bool {
    exists|running_pid: Option<u32>, pidfile: Option<u32>|
        plan == #[trigger] plan_of(running_pid, pidfile)
}

/// What holds of a stage that showing the state has come to.
pub open spec fn status_wf(context: StatusContext, stage: StatusStage) -> bool {
    match stage {
        StatusStage::ReadSnapshot { plan } => planned(plan) && plan.reads_snapshot,
        StatusStage::LookService { plan, snapshot } => planned(plan) && (snapshot is Some
            ==> plan.running),
        StatusStage::PrintJson { plan, snapshot, .. } => context.json && planned(plan) && (
        snapshot is Some ==> plan.running),
        StatusStage::Print { plan, suspended_until, .. } => !context.json && (
        suspended_until is Some ==> plan.running) && (if context.platform == Platform::Other {
            !plan.cleans_up
        } else {
            planned(plan)
        }),
        StatusStage::CleanUp { plan, .. } => planned(plan) && plan.cleans_up && (!context.json
            ==> context.platform != Platform::Other),
        _ => true,
    }
}

/// The state is running where a process runs, stale where none runs and the PID
/// file names one, and stopped otherwise; the three exclude each other.
pub proof fn law_state_word_tells_what_was_seen(running_pid: Option<u32>, pidfile: Option<u32>)
    ensures
        ({
            let plan = plan_of(running_pid, pidfile);
            let word = state_word(plan.pid, plan.running);
            &&& (word == "running"@ <==> running_pid is Some)
            &&& (word == "stale"@ <==> running_pid is None && pidfile is Some)
            &&& (word == "stopped"@ <==> running_pid is None && pidfile is None)
            &&& (plan.cleans_up <==> word == "stale"@)
            &&& (plan.reads_snapshot <==> word == "running"@)
        }),
{
    reveal_strlit("running");
    reveal_strlit("stale");
    reveal_strlit("stopped");
    assert("running"@.len() != "stale"@.len());
    assert("running"@[0] != "stopped"@[0]);
    assert("stale"@.len() != "stopped"@.len());
}

/// Wherever showing the state has come to, the snapshot is read and reported only
/// while the daemon runs, and the PID file is removed only where the state is
/// stale.
pub proof fn law_status_stages_fit_the_state(
    context: StatusContext,
    stage: StatusStage,
    reply: StatusReply,
    step: StatusStep,
)
    requires
        status_wf(context, stage),
        status_next(context, stage, reply, step),
    ensures
        status_wf(context, StatusStage::LocatePidfile),
        step matches StatusStep::Await(next) ==> status_wf(context, next),
{
    match (stage, reply) {
        (StatusStage::LookRunning, StatusReply::Pid(Ok(Some(pid)))) => {
            assert(planned(plan_of(Some(pid), None)));
        },
        (StatusStage::ReadPidfile, StatusReply::Pidfile(pidfile)) => {
            assert(planned(plan_of(None, pidfile)));
        },
        _ => {},
    }
}

/// A stale PID file is removed as soon as its state was reported, and where the
/// state is another one the report is not followed by a removal.
pub proof fn law_a_stale_identity_is_removed_after_the_report(
    context: StatusContext,
    stage: StatusStage,
    step: StatusStep,
)
    requires
        status_wf(context, stage),
        status_next(context, stage, StatusReply::Done(Ok(())), step),
    ensures
        stage matches StatusStage::PrintJson { plan, .. } ==> (plan.cleans_up <==> step matches
            StatusStep::Await(StatusStage::CleanUp { .. })),
        stage matches StatusStage::Print { plan, .. } ==> (plan.cleans_up <==> step matches
            StatusStep::Await(StatusStage::CleanUp { .. })),
{
}

/// What is asked for once the processes were looked for.
pub open spec fn second_reply(
    running_pid: Option<u32>,
    pidfile: Option<u32>,
    snapshot: Option<StatusSnapshot>,
) -> StatusReply {
    if running_pid is Some {
        StatusReply::Snapshot(Ok(snapshot))
    } else {
        StatusReply::Pidfile(pidfile)
    }
}

/// Where every look succeeds, the report is of exactly what was seen: the process
/// that runs or else the one that the PID file names, and the snapshot only of
/// a daemon that runs. Right after it the PID file is removed if and only if
/// nothing runs and the file names a process.
pub proof fn law_status_reports_what_was_seen(
    context: StatusContext,
    running_pid: Option<u32>,
    pidfile: Option<u32>,
    snapshot: Option<StatusSnapshot>,
    installed: bool,
    second: StatusStage,
    third: StatusStage,
    report: StatusStage,
    after: StatusStep,
)
    requires
        context.json || context.platform != Platform::Other,
        status_next(
            context,
            StatusStage::LookRunning,
            StatusReply::Pid(Ok(running_pid)),
            StatusStep::Await(second),
        ),
        status_next(
            context,
            second,
            second_reply(running_pid, pidfile, snapshot),
            StatusStep::Await(third),
        ),
        status_next(
            context,
            third,
            StatusReply::Installed(Ok(installed)),
            StatusStep::Await(report),
        ),
        status_next(context, report, StatusReply::Done(Ok(())), after),
    ensures
        second is ReadSnapshot <==> running_pid is Some,
        second == StatusStage::ReadPidfile <==> running_pid is None,
        ({
            let plan = plan_of(running_pid, pidfile);
            let shown = if running_pid is Some {
                snapshot
            } else {
                None
            };
            &&& context.json ==> report == (StatusStage::PrintJson {
                plan,
                snapshot: shown,
                service_installed: installed,
            })
            &&& !context.json ==> (report matches StatusStage::Print { plan: p, lines, .. } && p
                == plan && texts(lines@) == daemon_lines(plan.pid, plan.running, shown))
        }),
        after matches StatusStep::Await(StatusStage::CleanUp { .. }) <==> running_pid is None
            && pidfile is Some,
{
}

} // verus!
