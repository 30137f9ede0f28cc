//! What is said of the daemon, read back from the lines that say it, and what reading
//! and writing its state come to.
use vstd::prelude::*;

use crate::cause::stems_from;
use crate::fault::Fault;
use crate::host_path::{join_leaf, Platform};
use crate::number::{decimal, signed_decimal};
use crate::state::state_path;
use crate::state_file::{
    read_state, write_state, FileRead, StateReadReply, StateReadStage, StateReadStep,
    StateWriteReply, StateWriteStage, StateWriteStep,
};
use crate::status::{
    bounded_status_last_error, clipped, daemon_start_supported, daemon_state_word, format_unix,
    printable, service_install_supported, service_manager_name, status, status_lines,
    status_metadata_lines, status_plan, suspension_line, time_or_number, DaemonConfig,
    StatusContext, StatusPlan, StatusReply, StatusSnapshot, StatusStage, StatusStep,
};
use crate::text::{is_control, texts};

verus! {

/// Whether one of some lines is a label and what stands behind it.
pub open spec fn tells(lines: Seq<Seq<char>>, label: Seq<char>, value: Seq<char>) -> bool {
    exists|i: int| 0 <= i < lines.len() && #[trigger] lines[i] == label + value
}

/// A flag as a line tells it.
pub open spec fn truth(flag: bool) -> Seq<char> {
    if flag {
        "true"@
    } else {
        "false"@
    }
}

/// Every setting is told under its own name, and the service with its manager.
pub proof fn law_every_setting_is_told(
    platform: Platform,
    service_installed: bool,
    cfg: &DaemonConfig,
    name: &'static str,
    r: Vec<String>,
)
    requires
        call_ensures(status_metadata_lines, (platform, service_installed, cfg), r),
        call_ensures(service_manager_name, (platform,), name),
    ensures
        texts(r@)[0] == (if service_installed {
            "Service: "@ + "installed"@
        } else {
            "Service: "@ + "not installed"@
        }) + " (manager: "@ + name@ + ")"@,
        tells(texts(r@), "  poll_interval_secs: "@, decimal(cfg.poll_interval_secs as nat)),
        tells(
            texts(r@),
            "  cache_refresh_interval_secs: "@,
            decimal(cfg.cache_refresh_interval_secs as nat),
        ),
        tells(texts(r@), "  auto_warmup: "@, truth(cfg.auto_warmup)),
        tells(
            texts(r@),
            "  token_check_interval_secs: "@,
            decimal(cfg.token_check_interval_secs as nat),
        ),
        tells(texts(r@), "  switch_threshold: "@, cfg.switch_threshold@),
        tells(texts(r@), "  notify: "@, truth(cfg.notify)),
        tells(
            texts(r@),
            "  defer_switch_while_codex_running: "@,
            truth(cfg.defer_switch_while_codex_running),
        ),
        tells(texts(r@), "  log_level: "@, cfg.log_level@),
        r@.len() == 10,
{
    let lines = texts(r@);
    assert(lines[2] == "  poll_interval_secs: "@ + decimal(cfg.poll_interval_secs as nat));
    assert(lines[3] == "  cache_refresh_interval_secs: "@ + decimal(
        cfg.cache_refresh_interval_secs as nat,
    ));
    assert(lines[4] == "  auto_warmup: "@ + truth(cfg.auto_warmup));
    assert(lines[5] == "  token_check_interval_secs: "@ + decimal(
        cfg.token_check_interval_secs as nat,
    ));
    assert(lines[6] == "  switch_threshold: "@ + cfg.switch_threshold@);
    assert(lines[7] == "  notify: "@ + truth(cfg.notify));
    assert(lines[8] == "  defer_switch_while_codex_running: "@ + truth(
        cfg.defer_switch_while_codex_running,
    ));
    assert(lines[9] == "  log_level: "@ + cfg.log_level@);
    assert(lines.len() == r@.len());
}

/// The manager of each system.
pub proof fn law_every_system_has_its_manager(
    platform: Platform,
    name: &'static str,
    starts: bool,
    installs: bool,
)
    requires
        call_ensures(service_manager_name, (platform,), name),
        call_ensures(daemon_start_supported, (platform,), starts),
        call_ensures(service_install_supported, (platform,), installs),
    ensures
        platform == Platform::MacOs ==> name@ == "launchd"@ && installs && starts,
        platform == Platform::Linux ==> name@ == "systemd-user"@ && installs && starts,
        platform == Platform::Windows ==> name@ == "task-scheduler"@ && installs && starts,
        platform == Platform::OtherUnix ==> name@ == "unsupported"@ && !installs && starts,
        platform == Platform::Other ==> name@ == "unsupported"@ && !installs && !starts,
{
}

/// What a running daemon wrote is told, each thing in a line of its own: one for the
/// daemon and one for everything that it has to say. A daemon that does not run says
/// nothing, and its process is told as left behind.
pub proof fn law_everything_written_is_told(
    pid: Option<u32>,
    running: bool,
    snapshot: &Option<StatusSnapshot>,
    r: Vec<String>,
)
    requires
        call_ensures(status_lines, (pid, running, snapshot), r),
    ensures
        pid matches Some(number) ==> {
            &&& running ==> texts(r@)[0] == "Daemon is running (PID "@ + decimal(number as nat)
                + ")"@
            &&& !running ==> texts(r@) == seq![
                "Daemon is not running (stale PID "@ + decimal(number as nat) + ")"@,
            ]
        },
        pid is None ==> texts(r@) == seq!["Daemon is not running"@],
        pid is Some && running && *snapshot is None ==> r@.len() == 1,
        pid is Some && running ==> (*snapshot matches Some(found) ==> r@.len() == 1 + (
        if found.state.last_poll_at is Some {
            1int
        } else {
            0int
        }) + (if found.state.last_switch is Some {
            1int
        } else {
            0int
        }) + (if found.state.pending_switch is Some {
            1int
        } else {
            0int
        }) + (if found.state.last_error is Some {
            1int
        } else {
            0int
        })),
{
    assert(texts(r@).len() == r@.len());
}

/// The last poll, the last switch, the pending switch and the last error of a running
/// daemon are told with their own values.
pub proof fn law_each_thing_is_told_with_its_value(
    pid: u32,
    found: StatusSnapshot,
    time: String,
    shown: String,
    r: Vec<String>,
)
    requires
        call_ensures(status_lines, (Some(pid), true, &Some(found)), r),
    ensures
        found.state.last_poll_at matches Some(at) ==> (call_ensures(format_unix, (at,), time)
            ==> tells(texts(r@), "  Last poll: "@, time@)),
        found.state.last_switch matches Some(sw) ==> (call_ensures(format_unix, (sw.at,), time)
            ==> tells(
            texts(r@),
            "  Last switch: '"@,
            sw.from@ + "' -> '"@ + sw.to@ + "' at "@ + time@ + " (score "@ + found.score@ + ")"@,
        )),
        found.state.pending_switch matches Some(p) ==> (call_ensures(format_unix, (p.since,), time)
            ==> tells(
            texts(r@),
            "  Pending switch to '"@,
            p.to@ + "' since "@ + time@ + " (waiting for Codex session to end)"@,
        )),
        found.state.last_error matches Some(error) ==> (shown@ == clipped(printable(error@), 512)
            ==> tells(
            texts(r@),
            "  Last error ("@,
            decimal(found.state.consecutive_failures as nat) + " consecutive): "@ + shown@,
        )),
{
    let lines = texts(r@);
    let polls: int = if found.state.last_poll_at is Some {
        1
    } else {
        0
    };
    let switches: int = if found.state.last_switch is Some {
        1
    } else {
        0
    };
    let pendings: int = if found.state.pending_switch is Some {
        1
    } else {
        0
    };
    if let Some(at) = found.state.last_poll_at {
        if call_ensures(format_unix, (at,), time) {
            assert(lines[1] =~= "  Last poll: "@ + time@);
        }
    }
    if let Some(sw) = found.state.last_switch {
        if call_ensures(format_unix, (sw.at,), time) {
            assert(lines[1 + polls] =~= "  Last switch: '"@ + (sw.from@ + "' -> '"@ + sw.to@
                + "' at "@ + time@ + " (score "@ + found.score@ + ")"@));
        }
    }
    if let Some(p) = found.state.pending_switch {
        if call_ensures(format_unix, (p.since,), time) {
            assert(lines[1 + polls + switches] =~= "  Pending switch to '"@ + (p.to@
                + "' since "@ + time@ + " (waiting for Codex session to end)"@));
        }
    }
    if let Some(error) = found.state.last_error {
        if shown@ == clipped(printable(error@), 512) {
            assert(lines[1 + polls + switches + pendings] =~= "  Last error ("@ + (decimal(
                found.state.consecutive_failures as nat,
            ) + " consecutive): "@ + shown@));
        }
    }
}

proof fn lemma_printable_keeps(s: Seq<char>)
    requires
        forall|i: int| 0 <= i < s.len() ==> !is_control(#[trigger] s[i]),
    ensures
        printable(s) == s,
    decreases s.len(),
{
    if s.len() > 0 {
        assert forall|i: int| 0 <= i < s.drop_last().len() implies !is_control(
            #[trigger] s.drop_last()[i],
        ) by {
            assert(s.drop_last()[i] == s[i]);
        }
        lemma_printable_keeps(s.drop_last());
        assert(s.drop_last().push(s.last()) =~= s);
    }
}

proof fn lemma_printable_is_part(s: Seq<char>)
    ensures
        printable(s).len() <= s.len(),
        forall|i: int|
            0 <= i < printable(s).len() ==> s.contains(#[trigger] printable(s)[i]) && !is_control(
                printable(s)[i],
            ),
    decreases s.len(),
{
    if s.len() > 0 {
        lemma_printable_is_part(s.drop_last());
        assert forall|i: int| 0 <= i < printable(s).len() implies s.contains(
            #[trigger] printable(s)[i],
        ) && !is_control(printable(s)[i]) by {
            if i < printable(s.drop_last()).len() {
                let c = printable(s.drop_last())[i];
                assert(printable(s)[i] == c);
                assert(s.drop_last().contains(c));
                let k = choose|k: int| 0 <= k < s.drop_last().len() && s.drop_last()[k] == c;
                assert(s[k] == c);
            } else {
                assert(s[s.len() - 1] == printable(s)[i]);
            }
        }
    }
}

/// An error that only prints is shown as it is, or its front where it is too long; of
/// any other only what prints is shown.
pub proof fn law_an_error_is_shown_as_it_prints(error: &str, r: String)
    requires
        call_ensures(bounded_status_last_error, (error,), r),
    ensures
        (forall|i: int| 0 <= i < error@.len() ==> !is_control(#[trigger] error@[i])) ==> r@ == (
        if error@.len() <= 512 {
            error@
        } else {
            error@.take(512)
        }),
        r@.len() <= 512,
        forall|i: int|
            0 <= i < r@.len() ==> error@.contains(#[trigger] r@[i]) && !is_control(r@[i]),
{
    lemma_printable_is_part(error@);
    if forall|i: int| 0 <= i < error@.len() ==> !is_control(#[trigger] error@[i]) {
        lemma_printable_keeps(error@);
    }
    assert forall|i: int| 0 <= i < r@.len() implies error@.contains(#[trigger] r@[i])
        && !is_control(r@[i]) by {
        assert(r@[i] == printable(error@)[i]);
    }
}

/// A suspension is told exactly while it lasts, with the seconds that are left.
pub proof fn law_a_suspension_is_told_while_it_lasts(
    until: i64,
    now: i64,
    time: String,
    r: Result<Option<String>, Fault>,
)
    requires
        call_ensures(suspension_line, (until, now), r),
        call_ensures(format_unix, (until,), time),
    ensures
        (r matches Ok(Some(_))) <==> until > now && until - now <= i64::MAX,
        r == Ok::<Option<String>, Fault>(None) <==> until <= now && until - now >= i64::MIN,
        r matches Ok(Some(line)) ==> tells(
            seq![line@],
            "  Polling suspended for another "@ + signed_decimal(until - now) + "s (until "@
                + time@,
            ") after repeated failures; `daemon stop` then `daemon start` resumes it immediately"@,
        ),
{
    if let Ok(Some(line)) = r {
        assert(seq![line@][0] =~= ("  Polling suspended for another "@ + signed_decimal(until - now)
            + "s (until "@ + time@)
            + ") after repeated failures; `daemon stop` then `daemon start` resumes it immediately"@);
    }
}

/// A time in words is its calendar form, or its number.
pub proof fn law_a_time_without_a_form_is_a_number(
    ts: i64,
    form: Option<String>,
    r: String,
)
    requires
        call_ensures(time_or_number, (ts, form), r),
    ensures
        form matches Some(text) ==> r@ == text@,
        form is None ==> r@ == signed_decimal(ts as int),
{
}

/// Of a process that runs and one that the file names, the one that runs counts; the
/// word tells which of the two there is.
pub proof fn law_the_running_process_counts(
    running_pid: Option<u32>,
    pidfile: Option<u32>,
    plan: StatusPlan,
    word: &'static str,
)
    requires
        call_ensures(status_plan, (running_pid, pidfile), plan),
        call_ensures(daemon_state_word, (plan.pid, plan.running), word),
    ensures
        running_pid is Some ==> plan.pid == running_pid && plan.running && plan.reads_snapshot
            && !plan.cleans_up && word@ == "running"@,
        running_pid is None && pidfile is Some ==> plan.pid == pidfile && !plan.running
            && !plan.reads_snapshot && plan.cleans_up && word@ == "stale"@,
        running_pid is None && pidfile is None ==> plan.pid is None && !plan.running
            && !plan.reads_snapshot && !plan.cleans_up && word@ == "stopped"@,
{
}

/// Showing the state goes from the file's place over the processes, the snapshot and
/// the service to the report, and ends once that was printed. What fails on the way is
/// what it fails with.
pub proof fn law_the_state_is_shown_to_its_end(
    context: &StatusContext,
    stage: StatusStage,
    reply: StatusReply,
    step: StatusStep,
)
    requires
        call_ensures(status, (context, stage, reply), step),
    ensures
        stage is LocatePidfile && (reply matches StatusReply::Done(Ok(_))) ==> step
            == StatusStep::Await(StatusStage::LookRunning),
        stage is LookRunning ==> (reply matches StatusReply::Pid(Ok(Some(pid))) ==> (step matches
            StatusStep::Await(StatusStage::ReadSnapshot { plan }) && plan.pid == Some(pid)
            && plan.running && !plan.cleans_up)),
        stage is LookRunning && reply == StatusReply::Pid(Ok(None)) ==> step == StatusStep::Await(
            StatusStage::ReadPidfile,
        ),
        stage is ReadPidfile ==> (reply matches StatusReply::Pidfile(pidfile) ==> (step matches
            StatusStep::Await(StatusStage::LookService { plan, snapshot }) && plan.pid == pidfile
            && !plan.running && plan.cleans_up == (pidfile is Some) && snapshot is None)),
        stage matches StatusStage::ReadSnapshot { plan } ==> (reply matches StatusReply::Snapshot(
            Ok(snapshot),
        ) ==> step == StatusStep::Await(StatusStage::LookService { plan, snapshot })),
        stage matches StatusStage::LookService { plan, snapshot } ==> (reply matches
            StatusReply::Installed(Ok(installed)) ==> if context.json {
            step == StatusStep::Await(
                StatusStage::PrintJson { plan, snapshot, service_installed: installed },
            )
        } else {
            step matches StatusStep::Await(StatusStage::Print {
                plan: p,
                service_installed,
                suspended_until,
                ..
            }) && service_installed == installed && p.pid == plan.pid && (context.platform
                != Platform::Other ==> p == plan && (snapshot matches Some(found)
                ==> suspended_until == found.state.backoff_until) && (snapshot is None
                ==> suspended_until is None))
        }),
        stage matches StatusStage::Print { suspended_until: Some(until), service_installed, .. }
            ==> ((reply matches StatusReply::Done(Ok(_))) ==> step == StatusStep::Await(
            StatusStage::ReadTime { until, service_installed },
        )),
        stage matches StatusStage::Print { plan, suspended_until: None, .. } ==> ((reply matches
            StatusReply::Done(Ok(_))) ==> if plan.cleans_up {
            step matches StatusStep::Await(StatusStage::CleanUp { .. })
        } else {
            step matches StatusStep::Await(StatusStage::PrintMetadata { .. })
        }),
        stage matches StatusStage::ReadTime { until, .. } ==> (reply matches StatusReply::Time(
            Ok(now),
        ) ==> if until > now && until - now <= i64::MAX {
            step matches StatusStep::Await(StatusStage::PrintSuspension { .. })
        } else if until <= now && until - now >= i64::MIN {
            step matches StatusStep::Await(StatusStage::PrintMetadata { .. })
        } else {
            step matches StatusStep::Finished(Err(_))
        }),
        stage is PrintSuspension && (reply matches StatusReply::Done(Ok(_))) ==> (step matches
            StatusStep::Await(StatusStage::PrintMetadata { .. })),
        stage is CleanUp && (reply matches StatusReply::Done(Ok(_))) ==> if context.json {
            step matches StatusStep::Finished(Ok(_))
        } else {
            step matches StatusStep::Await(StatusStage::PrintMetadata { .. })
        },
        stage is PrintMetadata && (reply matches StatusReply::Done(Ok(_))) ==> (step matches
            StatusStep::Finished(Ok(_))),
        reply matches StatusReply::Done(Err(error)) ==> (step matches StatusStep::Finished(
            Err(fault),
        ) && stems_from(fault@, error@)),
        reply matches StatusReply::Pid(Err(error)) ==> (step matches StatusStep::Finished(
            Err(fault),
        ) && stems_from(fault@, error@)),
        reply matches StatusReply::Snapshot(Err(error)) ==> (step matches StatusStep::Finished(
            Err(fault),
        ) && stems_from(fault@, error@)),
        reply matches StatusReply::Installed(Err(error)) ==> (step matches StatusStep::Finished(
            Err(fault),
        ) && stems_from(fault@, error@)),
        reply matches StatusReply::Time(Err(error)) ==> (step matches StatusStep::Finished(
            Err(fault),
        ) && stems_from(fault@, error@)),
{
}

// -- The state's file --

/// A state that is there and can be parsed is what reading gives; a failure says what
/// failed.
pub proof fn law_a_readable_state_is_read(
    path: &str,
    stage: StateReadStage,
    reply: StateReadReply,
    step: StateReadStep,
)
    requires
        call_ensures(read_state, (path, stage, reply), step),
    ensures
        stage is Read ==> {
            &&& reply matches StateReadReply::File(FileRead::Contents(bytes)) ==> step
                == StateReadStep::Await(StateReadStage::Parse { contents: bytes })
            &&& reply == StateReadReply::File(FileRead::Missing) ==> step
                == StateReadStep::Finished(Ok(None))
            &&& reply matches StateReadReply::File(FileRead::Unreadable(error)) ==> (step matches
                StateReadStep::Finished(Err(fault)) && stems_from(fault@, error@))
        },
        stage is Parse ==> {
            &&& reply matches StateReadReply::Parsed(Ok(state)) ==> step
                == StateReadStep::Finished(Ok(Some(state)))
            &&& reply matches StateReadReply::Parsed(Err(error)) ==> (step matches
                StateReadStep::Finished(Err(fault)) && stems_from(fault@, error@))
        },
{
}

/// A state is located, turned into bytes and written where it was located; it is
/// written exactly if the file is known to last.
pub proof fn law_a_state_is_written(
    stage: StateWriteStage,
    reply: StateWriteReply,
    step: StateWriteStep,
)
    requires
        call_ensures(write_state, (stage, reply), step),
    ensures
        stage is Locate ==> {
            &&& reply matches StateWriteReply::Located(Ok(found)) ==> step == StateWriteStep::Await(
                StateWriteStage::Serialize { path: found },
            )
            &&& reply matches StateWriteReply::Located(Err(error)) ==> (step matches
                StateWriteStep::Finished(Err(fault)) && stems_from(fault@, error@))
        },
        stage matches StateWriteStage::Serialize { path } ==> {
            &&& reply matches StateWriteReply::Serialized(Ok(bytes)) ==> step
                == StateWriteStep::Await(StateWriteStage::Write { path, bytes })
            &&& reply matches StateWriteReply::Serialized(Err(error)) ==> (step matches
                StateWriteStep::Finished(Err(fault)) && stems_from(fault@, error@))
        },
        stage is Write ==> {
            &&& reply == StateWriteReply::Written(Ok(None)) <==> (step matches
                StateWriteStep::Finished(Ok(_)))
            &&& reply matches StateWriteReply::Written(Ok(Some(error))) ==> (step matches
                StateWriteStep::Finished(Err(fault)) && stems_from(fault@, error@))
            &&& reply matches StateWriteReply::Written(Err(error)) ==> (step matches
                StateWriteStep::Finished(Err(fault)) && stems_from(fault@, error@))
        },
{
}

/// A name below a directory begins with the directory and ends with the name, and one
/// separator at most stands between them; the state's file is such a name.
pub proof fn law_a_name_is_put_below_its_directory(
    platform: Platform,
    base: &str,
    leaf: &str,
    r: String,
    state: String,
)
    requires
        call_ensures(join_leaf, (platform, base, leaf), r),
        call_ensures(state_path, (platform, base), state),
    ensures
        r@.take(base@.len() as int) == base@,
        r@.skip(r@.len() - leaf@.len()) == leaf@,
        r@.len() == base@.len() + leaf@.len() || r@.len() == base@.len() + leaf@.len() + 1,
        base@.len() > 0 && (base@.last() == '/' || (platform == Platform::Windows && base@.last()
            == '\\')) ==> r@ == base@ + leaf@,
        base@.len() > 2 && base@.last() != '/' && base@.last() != '\\' ==> r@ == base@ + (
        if platform == Platform::Windows {
            seq!['\\']
        } else {
            seq!['/']
        }) + leaf@,
        leaf@ == "daemon-state.json"@ ==> r@ == state@,
{
    assert(r@.take(base@.len() as int) =~= base@);
    assert(r@.skip(r@.len() - leaf@.len()) =~= leaf@);
    if base@.len() > 2 && base@.last() != '/' && base@.last() != '\\' {
        assert(r@ =~= base@ + (if platform == Platform::Windows {
            seq!['\\']
        } else {
            seq!['/']
        }) + leaf@);
    }
}

} // verus!
