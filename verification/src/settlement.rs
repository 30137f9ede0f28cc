//! Waiting for a daemon generation that was asked to stop.
//!
//! A wait is a function from what it has seen so far and what was just observed
//! to its end or to the next round; the caller observes, reads the clock and
//! sleeps. Times are nanoseconds since the wait began.
use vstd::prelude::*;

use crate::fault::{join2, join4, join5, joined, Fault};
use crate::number::{decimal, decimal_text};
use crate::text::{owned_text, same_text, texts};

verus! {

/// How long a daemon may take to come up or to go down.
pub const DAEMON_TRANSITION_TIMEOUT_NANOS: u64 = 10_000_000_000;

/// How often a long wait is reported.
pub const SETTLE_REPORT_INTERVAL_NANOS: u64 = 10_000_000_000;

/// One run of the daemon: its process, and the nonce of that run.
#[derive(Debug, PartialEq, Eq)]
pub struct DaemonGeneration {
    pub pid: u32,
    pub generation: String,
}

/// What identifies a generation.
pub open spec fn generation_view(g: DaemonGeneration) -> (u32, Seq<char>) {
    (g.pid, g.generation@)
}

/// What identifies an optional generation.
pub open spec fn optional_generation(g: Option<DaemonGeneration>) -> Option<(u32, Seq<char>)> {
    match g {
        Some(found) => Some(generation_view(found)),
        None => None,
    }
}

impl DaemonGeneration {
    /// Whether two generations are the same run.
    pub fn same(&self, other: &Self) -> (r: bool)
        ensures
            r == (generation_view(*self) == generation_view(*other)),
    {
        self.pid == other.pid && same_text(self.generation.as_str(), other.generation.as_str())
    }
}

/// Failures of observations that were repeated: the first, the last and how
/// many there were.
#[derive(Debug, PartialEq, Eq)]
pub struct TransientDiagnostics {
    pub first: Option<String>,
    pub last: Option<String>,
    pub count: usize,
}

impl TransientDiagnostics {
    /// A count goes with a first and a last message.
    pub open spec fn wf(self) -> bool {
        (self.count == 0 <==> self.first is None) && (self.count == 0 <==> self.last is None)
    }

    /// Nothing recorded.
    pub fn new() -> (r: Self)
        ensures
            r.wf(),
            r.count == 0,
    {
        TransientDiagnostics { first: None, last: None, count: 0 }
    }

    /// Records one more failure.
    pub fn record(&mut self, diagnostic: String)
        requires
            old(self).wf(),
        ensures
            final(self).wf(),
            final(self).count == (if old(self).count == usize::MAX {
                usize::MAX
            } else {
                (old(self).count + 1) as usize
            }),
            owned_text(final(self).first) == (if old(self).first is None {
                Some(diagnostic@)
            } else {
                owned_text(old(self).first)
            }),
            owned_text(final(self).last) == Some(diagnostic@),
    {
        if self.count < usize::MAX {
            self.count = self.count + 1;
        }
        if self.first.is_none() {
            self.first = Some(diagnostic.clone());
        }
        self.last = Some(diagnostic);
    }

    /// What a settled wait reports: the first failure; of several also the last
    /// where it differs, and how many there were.
    pub open spec fn messages(self) -> Seq<Seq<char>> {
        if self.count == 0 {
            Seq::empty()
        } else if self.count == 1 {
            seq![self.first->0@]
        } else {
            let number = decimal(self.count as nat)
                + " transient lifecycle observation failures occurred while authority remained held"@;
            if self.last->0@ == self.first->0@ {
                seq![self.first->0@, number]
            } else {
                seq![self.first->0@, "last transient observation: "@ + self.last->0@, number]
            }
        }
    }

    /// What a settled wait reports.
    pub fn into_messages(self) -> (r: Vec<String>)
        requires
            self.wf(),
        ensures
            texts(r@) == self.messages(),
    {
        let mut out: Vec<String> = Vec::new();
        let count: usize = self.count;
        match (self.first, self.last) {
            (Some(first), Some(last)) => {
                let different = !same_text(last.as_str(), first.as_str());
                out.push(first);
                if count > 1 {
                    if different {
                        out.push(join2("last transient observation: ", last.as_str()));
                    }
                    out.push(
                        join2(
                            decimal_text(count as u64).as_str(),
                            " transient lifecycle observation failures occurred while authority remained held",
                        ),
                    );
                }
            },
            _ => {},
        }
        assert(texts(out@) =~= self.messages());
        out
    }

    /// One line about the recorded failures.
    pub open spec fn summary(self, label: Seq<char>) -> Option<Seq<char>> {
        if self.count == 0 {
            None
        } else if self.count == 1 {
            Some("1 "@ + label + ": "@ + self.first->0@)
        } else {
            Some(
                decimal(self.count as nat) + " "@ + label + "s; first: "@ + self.first->0@
                    + "; last: "@ + self.last->0@,
            )
        }
    }

    /// One line about the recorded failures.
    pub fn into_summary(self, label: &str) -> (r: Option<String>)
        requires
            self.wf(),
        ensures
            owned_text(r) == self.summary(label@),
    {
        match (self.first, self.last) {
            (Some(first), Some(last)) => {
                if self.count == 1 {
                    return Some(join4("1 ", label, ": ", first.as_str()));
                }
                let mut text = join5(
                    decimal_text(self.count as u64).as_str(),
                    " ",
                    label,
                    "s; first: ",
                    first.as_str(),
                );
                text.append("; last: ");
                text.append(last.as_str());
                Some(text)
            },
            _ => None,
        }
    }
}

/// What an observation of a generation that was asked to stop shows.
#[derive(Debug, PartialEq, Eq)]
pub enum RequestedGenerationObservation {
    TargetRunning,
    /// The target is gone; another generation may run in its place.
    Settled(Option<DaemonGeneration>),
}

/// What the running generation means for the one that was asked to stop.
pub fn observe_requested_generation(target: &DaemonGeneration, running: Option<DaemonGeneration>) -> (r:
    RequestedGenerationObservation)
    ensures
        if optional_generation(running) == Some(generation_view(*target)) {
            r == RequestedGenerationObservation::TargetRunning
        } else {
            r == RequestedGenerationObservation::Settled(running)
        },
{
    let same = match &running {
        Some(found) => found.same(target),
        None => false,
    };
    if same {
        RequestedGenerationObservation::TargetRunning
    } else {
        RequestedGenerationObservation::Settled(running)
    }
}

/// What a bounded wait does next.
#[derive(Debug, PartialEq, Eq)]
pub enum StopWaitStep {
    Stopped,
    Failed(Fault),
    Again(TransientDiagnostics),
}

/// The diagnostics after one more failed observation.
pub open spec fn recorded(
    before: TransientDiagnostics,
    message: Seq<char>,
    after: TransientDiagnostics,
) -> bool {
    &&& after.wf()
    &&& after.count == (if before.count == usize::MAX {
        usize::MAX
    } else {
        (before.count + 1) as usize
    })
    &&& owned_text(after.first) == (if before.first is None {
        Some(message)
    } else {
        owned_text(before.first)
    })
    &&& owned_text(after.last) == Some(message)
}

/// How a bounded wait that ran out of time ends.
pub open spec fn timed_out(diagnostics: TransientDiagnostics) -> Seq<char> {
    "Daemon did not stop within 10s"@ + (match diagnostics.summary(
        "transient daemon-state observation failure"@,
    ) {
        Some(summary) => "; "@ + summary,
        None => ""@,
    })
}

/// A failed observation of a bounded wait.
pub open spec fn failed_inspection(pid: u32, fault: Seq<Seq<char>>) -> Seq<char> {
    "failed to inspect the already-requested daemon PID "@ + decimal(pid as nat) + ": "@ + joined(
        fault,
    )
}

/// What a bounded wait for process `pid` does, given its last observation and
/// the time since it began. It ends well only where nothing runs any more; a
/// different generation ends it at once; a failed observation is repeated until
/// the time is over.
pub fn wait_for_requested_generation_stop(
    pid: u32,
    diagnostics: TransientDiagnostics,
    observation: Result<RequestedGenerationObservation, Fault>,
    elapsed_nanos: u64,
) -> (r: StopWaitStep)
    requires
        diagnostics.wf(),
    ensures
        match observation {
            Ok(RequestedGenerationObservation::Settled(None)) => r == StopWaitStep::Stopped,
            Ok(RequestedGenerationObservation::Settled(Some(current))) => r matches
                StopWaitStep::Failed(fault) && fault@ == seq![
                "Daemon changed to a different generation while waiting for PID "@ + decimal(
                    pid as nat,
                ) + " to stop (current PID "@ + decimal(current.pid as nat) + ")"@,
            ],
            Ok(RequestedGenerationObservation::TargetRunning) => if elapsed_nanos
                >= DAEMON_TRANSITION_TIMEOUT_NANOS {
                r matches StopWaitStep::Failed(fault) && fault@ == seq![timed_out(diagnostics)]
            } else {
                r == StopWaitStep::Again(diagnostics)
            },
            Err(fault) => if elapsed_nanos >= DAEMON_TRANSITION_TIMEOUT_NANOS {
                exists|after: TransientDiagnostics| #[trigger]
                    recorded(diagnostics, failed_inspection(pid, fault@), after) && (r matches
                        StopWaitStep::Failed(f) && f@ == seq![timed_out(after)])
            } else {
                r matches StopWaitStep::Again(after) && recorded(
                    diagnostics,
                    failed_inspection(pid, fault@),
                    after,
                )
            },
        },
{
    let ghost given = diagnostics;
    let mut diagnostics = diagnostics;
    match observation {
        Ok(RequestedGenerationObservation::Settled(None)) => {
            return StopWaitStep::Stopped;
        },
        Ok(RequestedGenerationObservation::Settled(Some(current))) => {
            return StopWaitStep::Failed(
                Fault::from_text(
                    join5(
                        "Daemon changed to a different generation while waiting for PID ",
                        decimal_text(pid as u64).as_str(),
                        " to stop (current PID ",
                        decimal_text(current.pid as u64).as_str(),
                        ")",
                    ),
                ),
            );
        },
        Ok(RequestedGenerationObservation::TargetRunning) => {},
        Err(fault) => {
            diagnostics.record(
                join4(
                    "failed to inspect the already-requested daemon PID ",
                    decimal_text(pid as u64).as_str(),
                    ": ",
                    fault.detail().as_str(),
                ),
            );
            assert(recorded(given, failed_inspection(pid, fault@), diagnostics));
        },
    }
    if elapsed_nanos >= DAEMON_TRANSITION_TIMEOUT_NANOS {
        let ghost after = diagnostics;
        let mut text = "Daemon did not stop within 10s".to_owned();
        match diagnostics.into_summary("transient daemon-state observation failure") {
            Some(summary) => {
                text.append(join2("; ", summary.as_str()).as_str());
            },
            None => {
                text.append("");
            },
        }
        assert(text@ == timed_out(after));
        return StopWaitStep::Failed(Fault::from_text(text));
    }
    StopWaitStep::Again(diagnostics)
}

/// How a stop ends, given how the wait ended and whether the request that
/// caused it is durable.
pub fn stop_request_outcome(stopped: Result<(), Fault>, durable: Result<(), Fault>) -> (r: Result<
    (),
    Fault,
>)
    ensures
        match (stopped, durable) {
            (Ok(_), Ok(_)) => r is Ok,
            (Err(stop), Ok(_)) => r matches Err(fault) && fault@ == seq![unfinished_stop(stop@)],
            (Ok(_), Err(request)) => r matches Err(fault) && fault@ == seq![
                "daemon stopped from a visible shutdown request whose durability was not confirmed"@,
            ] + request@,
            (Err(stop), Err(request)) => r matches Err(fault) && fault@ == seq![
                "daemon shutdown request durability was also unconfirmed: "@ + joined(request@),
                unfinished_stop(stop@),
            ],
        },
{
    match (stopped, durable) {
        (Ok(()), Ok(())) => Ok(()),
        (Err(stop), Ok(())) => Err(unfinished_stop_fault(&stop)),
        (Ok(()), Err(request)) => Err(
            request.within(
                "daemon stopped from a visible shutdown request whose durability was not confirmed",
            ),
        ),
        (Err(stop), Err(request)) => {
            let r = unfinished_stop_fault(&stop).context(
                join2(
                    "daemon shutdown request durability was also unconfirmed: ",
                    request.detail().as_str(),
                ),
            );
            assert(r@ =~= seq![
                "daemon shutdown request durability was also unconfirmed: "@ + joined(request@),
                unfinished_stop(stop@),
            ]);
            Err(r)
        },
    }
}

/// A stop that did not finish in time.
pub open spec fn unfinished_stop(stop: Seq<Seq<char>>) -> Seq<char> {
    (if stop.len() == 0 {
        Seq::empty()
    } else {
        stop[0]
    })
        + ". The daemon may still be finishing an in-flight credential rotation; refusing to force-terminate it. Retry `codex-switch-global-pace daemon stop` shortly."@
}

fn unfinished_stop_fault(stop: &Fault) -> (r: Fault)
    ensures
        r@ == seq![unfinished_stop(stop@)],
{
    Fault::from_text(
        join2(
            stop.headline().as_str(),
            ". The daemon may still be finishing an in-flight credential rotation; refusing to force-terminate it. Retry `codex-switch-global-pace daemon stop` shortly.",
        ),
    )
}

/// An unbounded wait: what it has seen, and when it reports next.
#[derive(Debug, PartialEq, Eq)]
pub struct SettleWait {
    pub diagnostics: TransientDiagnostics,
    pub next_report_nanos: u64,
}

impl SettleWait {
    /// A wait that begins now.
    pub fn new() -> (r: Self)
        ensures
            r.diagnostics.wf(),
            r.diagnostics.count == 0,
            r.next_report_nanos == SETTLE_REPORT_INTERVAL_NANOS,
    {
        SettleWait {
            diagnostics: TransientDiagnostics::new(),
            next_report_nanos: SETTLE_REPORT_INTERVAL_NANOS,
        }
    }

    /// When the next report is due, given the time since the wait began.
    pub open spec fn next_report(self, elapsed_nanos: u64) -> u64 {
        if elapsed_nanos < self.next_report_nanos {
            self.next_report_nanos
        } else if elapsed_nanos > u64::MAX - SETTLE_REPORT_INTERVAL_NANOS {
            u64::MAX
        } else {
            (elapsed_nanos + SETTLE_REPORT_INTERVAL_NANOS) as u64
        }
    }
}

fn report_time(next_report_nanos: u64, elapsed_nanos: u64) -> (r: u64)
    ensures
        r == (if elapsed_nanos < next_report_nanos {
            next_report_nanos
        } else if elapsed_nanos > u64::MAX - SETTLE_REPORT_INTERVAL_NANOS {
            u64::MAX
        } else {
            (elapsed_nanos + SETTLE_REPORT_INTERVAL_NANOS) as u64
        }),
{
    if elapsed_nanos < next_report_nanos {
        next_report_nanos
    } else if elapsed_nanos > u64::MAX - SETTLE_REPORT_INTERVAL_NANOS {
        u64::MAX
    } else {
        elapsed_nanos + SETTLE_REPORT_INTERVAL_NANOS
    }
}

/// How an unbounded wait ended.
#[derive(Debug, PartialEq, Eq)]
pub struct RequestedGenerationSettlement {
    pub observed_generation: Option<DaemonGeneration>,
    pub diagnostics: Vec<String>,
}

/// What an unbounded wait does next.
#[derive(Debug, PartialEq, Eq)]
pub enum SettleStep {
    Settled(RequestedGenerationSettlement),
    /// Another round; a report is due first where `report` says so.
    Again { wait: SettleWait, report: bool },
}

/// A failed observation of an unbounded wait.
pub open spec fn transient_inspection(pid: u32, fault: Seq<Seq<char>>) -> Seq<char> {
    "transiently failed to inspect the already-requested daemon PID "@ + decimal(pid as nat) + ": "@
        + joined(fault)
}

/// What an unbounded wait for process `pid` does, given its last observation
/// and the time since it began. It ends only where the target is gone: neither
/// time nor a failed observation ends it.
pub fn wait_for_requested_generation_to_settle(
    pid: u32,
    wait: SettleWait,
    observation: Result<RequestedGenerationObservation, Fault>,
    elapsed_nanos: u64,
) -> (r: SettleStep)
    requires
        wait.diagnostics.wf(),
    ensures
        match observation {
            Ok(RequestedGenerationObservation::Settled(observed)) => r matches SettleStep::Settled(
                settlement,
            ) && settlement.observed_generation == observed && texts(settlement.diagnostics@)
                == wait.diagnostics.messages(),
            Ok(RequestedGenerationObservation::TargetRunning) => r matches SettleStep::Again {
                wait: after,
                report,
            } && after.diagnostics == wait.diagnostics && report == (elapsed_nanos
                >= wait.next_report_nanos) && after.next_report_nanos == wait.next_report(
                elapsed_nanos,
            ),
            Err(fault) => r matches SettleStep::Again { wait: after, report } && recorded(
                wait.diagnostics,
                transient_inspection(pid, fault@),
                after.diagnostics,
            ) && report == (elapsed_nanos >= wait.next_report_nanos) && after.next_report_nanos
                == wait.next_report(elapsed_nanos),
        },
{
    let next: u64 = report_time(wait.next_report_nanos, elapsed_nanos);
    let report = elapsed_nanos >= wait.next_report_nanos;
    let mut diagnostics = wait.diagnostics;
    match observation {
        Ok(RequestedGenerationObservation::Settled(observed_generation)) => SettleStep::Settled(
            RequestedGenerationSettlement {
                observed_generation,
                diagnostics: diagnostics.into_messages(),
            },
        ),
        Ok(RequestedGenerationObservation::TargetRunning) => SettleStep::Again {
            wait: SettleWait { diagnostics, next_report_nanos: next },
            report,
        },
        Err(fault) => {
            diagnostics.record(
                join4(
                    "transiently failed to inspect the already-requested daemon PID ",
                    decimal_text(pid as u64).as_str(),
                    ": ",
                    fault.detail().as_str(),
                ),
            );
            SettleStep::Again { wait: SettleWait { diagnostics, next_report_nanos: next }, report }
        },
    }
}

/// The diagnostics of a settled generation, with a note where the request that
/// stopped it is not known to be durable.
pub fn settle_for_lifecycle(
    pid: u32,
    settlement: RequestedGenerationSettlement,
    durable: Result<(), Fault>,
) -> (r: RequestedGenerationSettlement)
    ensures
        r.observed_generation == settlement.observed_generation,
        texts(r.diagnostics@) == (match durable {
            Ok(_) => texts(settlement.diagnostics@),
            Err(fault) => texts(settlement.diagnostics@).push(
                "the exact shutdown request for daemon PID "@ + decimal(pid as nat)
                    + " was visible, but its durability was not confirmed: "@ + joined(fault@),
            ),
        }),
{
    let mut diagnostics = settlement.diagnostics;
    let ghost before = diagnostics@;
    if let Err(fault) = durable {
        let note = join4(
            "the exact shutdown request for daemon PID ",
            decimal_text(pid as u64).as_str(),
            " was visible, but its durability was not confirmed: ",
            fault.detail().as_str(),
        );
        diagnostics.push(note);
        assert(texts(diagnostics@) =~= texts(before).push(note@));
    }
    RequestedGenerationSettlement { observed_generation: settlement.observed_generation, diagnostics }
}

/// Whether a contending daemon is known yet.
#[derive(Debug, PartialEq, Eq)]
pub enum ContendingDaemonIdentity {
    Pending,
    Published(DaemonGeneration),
}

/// How waiting for a contending daemon ended.
#[derive(Debug, PartialEq, Eq)]
pub struct InstallerContenderSettlement {
    pub resolution: InstallerContenderResolution,
    pub diagnostics: Vec<String>,
}

/// What became of a contending daemon.
#[derive(Debug, PartialEq, Eq)]
pub enum InstallerContenderResolution {
    /// The absence lease was acquired.
    Absence,
    /// The contender is known.
    Published(DaemonGeneration),
}

/// What a wait for a contending daemon does next.
#[derive(Debug, PartialEq, Eq)]
pub enum ContenderStep {
    Resolved(InstallerContenderSettlement),
    /// The lease is not to be had; the contender is to be identified.
    Identify(SettleWait),
    /// Another round; a report is due first where `report` says so.
    Again { wait: SettleWait, report: bool },
}

/// What a wait for a contending daemon does after it tried to acquire the
/// absence lease: `Ok(true)` means that it has it.
pub fn contender_after_acquire(wait: SettleWait, acquired: Result<bool, Fault>) -> (r: ContenderStep)
    requires
        wait.diagnostics.wf(),
    ensures
        match acquired {
            Ok(true) => r matches ContenderStep::Resolved(settlement) && settlement.resolution
                == InstallerContenderResolution::Absence && texts(settlement.diagnostics@)
                == wait.diagnostics.messages(),
            Ok(false) => r == ContenderStep::Identify(wait),
            Err(fault) => r matches ContenderStep::Identify(after) && after.next_report_nanos
                == wait.next_report_nanos && recorded(
                wait.diagnostics,
                "transiently failed to acquire the daemon absence lease while a foreground contender was settling: "@
                    + joined(fault@),
                after.diagnostics,
            ),
        },
{
    let mut wait = wait;
    match acquired {
        Ok(true) => ContenderStep::Resolved(
            InstallerContenderSettlement {
                resolution: InstallerContenderResolution::Absence,
                diagnostics: wait.diagnostics.into_messages(),
            },
        ),
        Ok(false) => ContenderStep::Identify(wait),
        Err(fault) => {
            wait.diagnostics.record(
                join2(
                    "transiently failed to acquire the daemon absence lease while a foreground contender was settling: ",
                    fault.detail().as_str(),
                ),
            );
            ContenderStep::Identify(wait)
        },
    }
}

/// What a wait for a contending daemon does after it tried to identify the
/// contender.
pub fn contender_after_identify(
    wait: SettleWait,
    identity: Result<ContendingDaemonIdentity, Fault>,
    elapsed_nanos: u64,
) -> (r: ContenderStep)
    requires
        wait.diagnostics.wf(),
    ensures
        match identity {
            Ok(ContendingDaemonIdentity::Published(target)) => r matches ContenderStep::Resolved(
                settlement,
            ) && settlement.resolution == InstallerContenderResolution::Published(target) && texts(
                settlement.diagnostics@,
            ) == wait.diagnostics.messages(),
            Ok(ContendingDaemonIdentity::Pending) => r matches ContenderStep::Again {
                wait: after,
                report,
            } && after.diagnostics == wait.diagnostics && report == (elapsed_nanos
                >= wait.next_report_nanos) && after.next_report_nanos == wait.next_report(
                elapsed_nanos,
            ),
            Err(fault) => r matches ContenderStep::Again { wait: after, report } && recorded(
                wait.diagnostics,
                "transiently failed to inspect the foreground daemon contender: "@ + joined(fault@),
                after.diagnostics,
            ) && report == (elapsed_nanos >= wait.next_report_nanos) && after.next_report_nanos
                == wait.next_report(elapsed_nanos),
        },
{
    let next: u64 = report_time(wait.next_report_nanos, elapsed_nanos);
    let report = elapsed_nanos >= wait.next_report_nanos;
    let mut diagnostics = wait.diagnostics;
    match identity {
        Ok(ContendingDaemonIdentity::Published(target)) => ContenderStep::Resolved(
            InstallerContenderSettlement {
                resolution: InstallerContenderResolution::Published(target),
                diagnostics: diagnostics.into_messages(),
            },
        ),
        Ok(ContendingDaemonIdentity::Pending) => ContenderStep::Again {
            wait: SettleWait { diagnostics, next_report_nanos: next },
            report,
        },
        Err(fault) => {
            diagnostics.record(
                join2(
                    "transiently failed to inspect the foreground daemon contender: ",
                    fault.detail().as_str(),
                ),
            );
            ContenderStep::Again {
                wait: SettleWait { diagnostics, next_report_nanos: next },
                report,
            }
        },
    }
}

} // verus!
