//! Background children: the bounded lines they report with, and how one that
//! failed is ended.
use vstd::prelude::*;
use vstd::slice::slice_subrange;
use vstd::utf8::{decode_utf8, valid_utf8};

use crate::fault::{join2, join3, join5, joined, Fault};
use crate::fs_ops::lemma_hex_round_trip;
use crate::number::{decimal, decimal_text};
use crate::outside::{
    hex_bytes, hex_decode, hex_encode, hex_refusal, hex_text, random_nonce, utf8_refusal, utf8_text,
};
use crate::removal::{misfit, misfit_fault};
use crate::text::same_text;

verus! {

/// A nonce of a background child is 128 bits in hexadecimal.
pub fn validate_background_ready_nonce(ready_nonce: &str) -> (r: Result<(), Fault>)
    ensures
        match hex_bytes(ready_nonce@) {
            None => r matches Err(fault) && fault@ == seq![
                "background readiness nonce is not hexadecimal"@,
                hex_refusal(ready_nonce@),
            ],
            Some(bytes) => if bytes.len() == 16 {
                r is Ok
            } else {
                r matches Err(fault) && fault@ == seq![
                    "background readiness nonce must encode exactly 128 bits"@,
                ]
            },
        },
{
    match hex_decode(ready_nonce) {
        Err(words) => Err(
            Fault::because("background readiness nonce is not hexadecimal", words),
        ),
        Ok(bytes) => if bytes.len() == 16 {
            Ok(())
        } else {
            Err(Fault::of("background readiness nonce must encode exactly 128 bits"))
        },
    }
}

/// The longest line that a background child may report, with its line end.
pub const BACKGROUND_MARKER_LINE_MAX_BYTES: usize = 512;

/// Whether a byte ends a line.
pub open spec fn ends_line(byte: u8) -> bool {
    byte == 0x0a || byte == 0x0d
}

/// Bytes without the line ends behind them.
pub open spec fn without_line_ends(bytes: Seq<u8>) -> Seq<u8>
    decreases bytes.len(),
{
    if bytes.len() > 0 && ends_line(bytes.last()) {
        without_line_ends(bytes.drop_last())
    } else {
        bytes
    }
}

/// What a line reads as: its text and how many bytes it took, or why it is
/// refused.
pub open spec fn marker_reading(purpose: Seq<char>, line: Seq<u8>) -> Result<
    (Seq<char>, nat),
    Seq<Seq<char>>,
> {
    if line.len() == 0 {
        Err(seq![purpose + " closed stdout before its marker"@])
    } else if line.len() > BACKGROUND_MARKER_LINE_MAX_BYTES {
        Err(seq![purpose + " exceeded the 512-byte marker line limit"@])
    } else if line.last() != 0x0a {
        Err(seq![purpose + " closed stdout with an incomplete marker"@])
    } else if !valid_utf8(without_line_ends(line)) {
        Err(
            seq![
                purpose + " emitted a non-UTF-8 marker"@,
                utf8_refusal(without_line_ends(line)),
            ],
        )
    } else {
        Ok((decode_utf8(without_line_ends(line)), line.len()))
    }
}

/// The bytes of a line, without the line ends behind them.
fn drop_line_ends<'a>(bytes: &'a [u8]) -> (r: &'a [u8])
    ensures
        r@ == without_line_ends(bytes@),
{
    let mut n: usize = bytes.len();
    assert(bytes@.take(n as int) =~= bytes@);
    while n > 0 && (bytes[n - 1] == 0x0a || bytes[n - 1] == 0x0d)
        invariant
            n <= bytes@.len(),
            without_line_ends(bytes@.take(n as int)) == without_line_ends(bytes@),
        decreases n,
    {
        assert(bytes@.take(n as int).drop_last() =~= bytes@.take(n - 1));
        n = n - 1;
    }
    let out = slice_subrange(bytes, 0, n);
    assert(out@ =~= bytes@.take(n as int));
    out
}

/// The line that a child reported: at most one byte more than the limit is
/// read, up to the end of the line.
pub fn read_bounded_background_marker(purpose: &str, read: Result<Vec<u8>, Fault>) -> (r: Result<
    (String, usize),
    Fault,
>)
    ensures
        match read {
            Err(error) => r matches Err(fault) && fault@ == seq![
                "reading bounded "@ + purpose@ + " marker"@,
            ] + error@,
            Ok(line) => match marker_reading(purpose@, line@) {
                Err(messages) => r matches Err(fault) && fault@ == messages,
                Ok((text, bytes)) => r matches Ok((marker, count)) && marker@ == text && count
                    == bytes,
            },
        },
{
    let line = match read {
        Err(error) => {
            return Err(error.context(join3("reading bounded ", purpose, " marker")));
        },
        Ok(line) => line,
    };
    let n: usize = line.len();
    if n == 0 {
        return Err(Fault::from_text(join2(purpose, " closed stdout before its marker")));
    }
    if n > BACKGROUND_MARKER_LINE_MAX_BYTES {
        return Err(Fault::from_text(join2(purpose, " exceeded the 512-byte marker line limit")));
    }
    if line[n - 1] != 0x0a {
        return Err(Fault::from_text(join2(purpose, " closed stdout with an incomplete marker")));
    }
    match utf8_text(drop_line_ends(line.as_slice())) {
        Err(words) => Err(
            Fault::because(join2(purpose, " emitted a non-UTF-8 marker").as_str(), words),
        ),
        Ok(text) => Ok((text, n)),
    }
}

// -- Ending a child --

/// What ending a child waits for.
#[derive(Debug, PartialEq, Eq)]
pub enum ReapStage {
    /// Whether it has exited already.
    Check,
    Kill,
    /// Whether it has exited after it could not be killed.
    Recheck(Fault),
    Wait,
}

/// What an operation on the child gave; an exit status is given in words.
#[derive(Debug, PartialEq, Eq)]
pub enum ReapReply {
    Exited(Result<Option<String>, Fault>),
    Killed(Result<(), Fault>),
    Waited(Result<String, Fault>),
}

/// What ending a child does next.
#[derive(Debug, PartialEq, Eq)]
pub enum ReapStep {
    Await(ReapStage),
    Finished(Result<String, Fault>),
}

/// What ending a child does next: a child that has not exited is killed and
/// waited for; one that cannot be killed must have exited.
pub open spec fn reap_next(stage: ReapStage, reply: ReapReply, step: ReapStep) -> bool {
    match (stage, reply) {
        (ReapStage::Check, ReapReply::Exited(Ok(Some(status)))) => step == ReapStep::Finished(
            Ok(status),
        ),
        (ReapStage::Check, ReapReply::Exited(Ok(None))) => step == ReapStep::Await(ReapStage::Kill),
        (ReapStage::Check, ReapReply::Exited(Err(error))) => reap_fails(
            step,
            seq!["checking failed background child"@] + error@,
        ),
        (ReapStage::Kill, ReapReply::Killed(Ok(_))) => step == ReapStep::Await(ReapStage::Wait),
        (ReapStage::Kill, ReapReply::Killed(Err(error))) => step == ReapStep::Await(
            ReapStage::Recheck(error),
        ),
        (ReapStage::Recheck(_), ReapReply::Exited(Ok(Some(status)))) => step == ReapStep::Finished(
            Ok(status),
        ),
        (ReapStage::Recheck(cause), ReapReply::Exited(Ok(None))) => reap_fails(
            step,
            seq!["terminating failed background child"@] + cause@,
        ),
        (ReapStage::Recheck(_), ReapReply::Exited(Err(error))) => reap_fails(
            step,
            seq!["rechecking background child after termination failed"@] + error@,
        ),
        (ReapStage::Wait, ReapReply::Waited(Ok(status))) => step == ReapStep::Finished(Ok(status)),
        (ReapStage::Wait, ReapReply::Waited(Err(error))) => reap_fails(
            step,
            seq!["reaping terminated background child"@] + error@,
        ),
        _ => reap_fails(step, misfit()),
    }
}

/// Whether ending a child fails.
pub open spec fn reap_fails(step: ReapStep, messages: Seq<Seq<char>>) -> bool {
    step matches ReapStep::Finished(Err(fault)) && fault@ == messages
}

/// What ending a child does next.
pub fn terminate_and_reap_background_child(stage: ReapStage, reply: ReapReply) -> (r: ReapStep)
    ensures
        reap_next(stage, reply, r),
{
    match (stage, reply) {
        (ReapStage::Check, ReapReply::Exited(Ok(Some(status)))) => ReapStep::Finished(Ok(status)),
        (ReapStage::Check, ReapReply::Exited(Ok(None))) => ReapStep::Await(ReapStage::Kill),
        (ReapStage::Check, ReapReply::Exited(Err(error))) => ReapStep::Finished(
            Err(error.within("checking failed background child")),
        ),
        (ReapStage::Kill, ReapReply::Killed(Ok(()))) => ReapStep::Await(ReapStage::Wait),
        (ReapStage::Kill, ReapReply::Killed(Err(error))) => ReapStep::Await(
            ReapStage::Recheck(error),
        ),
        (ReapStage::Recheck(_), ReapReply::Exited(Ok(Some(status)))) => ReapStep::Finished(
            Ok(status),
        ),
        (ReapStage::Recheck(cause), ReapReply::Exited(Ok(None))) => ReapStep::Finished(
            Err(cause.within("terminating failed background child")),
        ),
        (ReapStage::Recheck(_), ReapReply::Exited(Err(error))) => ReapStep::Finished(
            Err(error.within("rechecking background child after termination failed")),
        ),
        (ReapStage::Wait, ReapReply::Waited(Ok(status))) => ReapStep::Finished(Ok(status)),
        (ReapStage::Wait, ReapReply::Waited(Err(error))) => ReapStep::Finished(
            Err(error.within("reaping terminated background child")),
        ),
        _ => ReapStep::Finished(Err(misfit_fault())),
    }
}

/// What became of a child that failed, and of the reader of its lines.
pub open spec fn child_end(reap: Result<String, Fault>, reader_joined: bool) -> Seq<char> {
    match (reap, reader_joined) {
        (Ok(status), true) => "child was terminated and reaped ("@ + status@ + ")"@,
        (Err(error), true) => "child termination/reap failed: "@ + joined(error@),
        (Ok(status), false) => "child was reaped ("@ + status@
            + "), but its marker reader panicked"@,
        (Err(error), false) => "child termination/reap failed ("@ + joined(error@)
            + ") and its marker reader panicked"@,
    }
}

/// A failure of a child's line, behind what became of the child.
pub fn background_marker_failure(
    marker_error: Fault,
    reap: Result<String, Fault>,
    reader_joined: bool,
) -> (r: Fault)
    ensures
        r@ == seq![child_end(reap, reader_joined)] + marker_error@,
{
    let said = match (reap, reader_joined) {
        (Ok(status), true) => join3("child was terminated and reaped (", status.as_str(), ")"),
        (Err(error), true) => join2("child termination/reap failed: ", error.detail().as_str()),
        (Ok(status), false) => join3(
            "child was reaped (",
            status.as_str(),
            "), but its marker reader panicked",
        ),
        (Err(error), false) => join3(
            "child termination/reap failed (",
            error.detail().as_str(),
            ") and its marker reader panicked",
        ),
    };
    marker_error.context(said)
}

/// A failure, behind what became of the child that it ended.
pub fn terminate_background_child_on_error(error: Fault, reap: Result<String, Fault>) -> (r: Fault)
    ensures
        r@ == seq![child_end(reap, true)] + error@,
{
    background_marker_failure(error, reap, true)
}

/// The failure of a child that reported nothing in time.
pub fn silent_child(purpose: &str, seconds: &str) -> (r: Fault)
    ensures
        r@ == seq![
            purpose@ + " did not emit a complete marker within "@ + seconds@ + "s"@,
        ],
{
    Fault::from_text(
        join2(join3(purpose, " did not emit a complete marker within ", seconds).as_str(), "s"),
    )
}

/// What a wait for one certain line does after a line.
#[derive(Debug, PartialEq, Eq)]
pub enum MarkerWaitStep {
    Found,
    /// Another line; so many bytes have been read.
    Again(usize),
    Refused(Fault),
}

/// What a wait for one certain line does after a line, given how many bytes
/// were read before it.
pub fn await_expected_background_marker(
    purpose: &str,
    expected: &str,
    total_max_bytes: usize,
    before: usize,
    marker: &str,
    bytes: usize,
) -> (r: MarkerWaitStep)
    ensures
        if before + bytes > usize::MAX {
            r matches MarkerWaitStep::Refused(fault) && fault@ == seq![
                purpose@ + " marker byte count overflowed"@,
            ]
        } else if before + bytes > total_max_bytes {
            r matches MarkerWaitStep::Refused(fault) && fault@ == seq![
                purpose@ + " exceeded the "@ + decimal(total_max_bytes as nat)
                    + "-byte total marker output limit"@,
            ]
        } else if marker@ == expected@ {
            r is Found
        } else {
            r == MarkerWaitStep::Again((before + bytes) as usize)
        },
{
    if bytes > usize::MAX - before {
        return MarkerWaitStep::Refused(
            Fault::from_text(join2(purpose, " marker byte count overflowed")),
        );
    }
    let total: usize = before + bytes;
    if total > total_max_bytes {
        return MarkerWaitStep::Refused(
            Fault::from_text(
                join2(
                    join3(
                        purpose,
                        " exceeded the ",
                        decimal_text(total_max_bytes as u64).as_str(),
                    ).as_str(),
                    "-byte total marker output limit",
                ),
            ),
        );
    }
    if same_text(marker, expected) {
        MarkerWaitStep::Found
    } else {
        MarkerWaitStep::Again(total)
    }
}

// -- A daemon that was just started --

/// What a start waits for.
#[derive(Debug, PartialEq, Eq)]
pub enum StartupStage {
    /// Whether the child has exited.
    Child,
    /// Which process holds the lock.
    Lock { last_probe_error: Option<Fault> },
    /// Whether the child was ended; the start has failed already.
    Cleanup { error: Fault, lost_to: bool },
}

/// What a start was told.
#[derive(Debug, PartialEq, Eq)]
pub enum StartupReply {
    /// The exit status in words, if the child has exited and that is known.
    Exited(Option<String>),
    /// Which process holds the lock, and whether the time is over.
    Lock { running: Result<Option<u32>, Fault>, expired: bool },
    Cleanup(Result<(), Fault>),
}

/// What a start does next.
#[derive(Debug, PartialEq, Eq)]
pub enum StartupStep {
    Await(StartupStage),
    /// Another round after a pause.
    Again(Option<Fault>),
    Finished(Result<u32, Fault>),
}

/// Whether a start fails.
pub open spec fn startup_fails(step: StartupStep, messages: Seq<Seq<char>>) -> bool {
    step matches StartupStep::Finished(Err(fault)) && fault@ == messages
}

/// What a start that ran out of time says.
pub open spec fn startup_timeout(pid: u32, last_probe_error: Option<Fault>) -> Seq<Seq<char>> {
    match last_probe_error {
        Some(error) => seq![
            "Daemon (PID "@ + decimal(pid as nat)
                + ") did not publish a valid, locked identity within 10s"@,
        ] + error@,
        None => seq![
            "Daemon (PID "@ + decimal(pid as nat)
                + ") did not initialize within 10s (no locked PID identity published); check logs"@,
        ],
    }
}

/// What a start does next. It is done once its own child holds the lock; a child
/// that lost the lock or was too slow is ended, and the start fails.
pub open spec fn startup_next(
    pid: u32,
    stage: StartupStage,
    before: Option<Fault>,
    reply: StartupReply,
    step: StartupStep,
) -> bool {
    match (stage, reply) {
        (StartupStage::Child, StartupReply::Exited(Some(status))) => startup_fails(
            step,
            seq![
                "Daemon process (PID "@ + decimal(pid as nat) + ") exited immediately ("@ + status@
                    + "); check logs for details"@,
            ],
        ),
        (StartupStage::Child, StartupReply::Exited(None)) => step == StartupStep::Await(
            StartupStage::Lock { last_probe_error: before },
        ),
        (StartupStage::Lock { last_probe_error }, StartupReply::Lock { running, expired }) => {
            match running {
                Ok(Some(running_pid)) => if running_pid == pid {
                    step == StartupStep::Finished(Ok(pid))
                } else {
                    step matches StartupStep::Await(StartupStage::Cleanup { error, lost_to: true })
                        && error@ == seq![
                        "Daemon startup PID "@ + decimal(pid as nat)
                            + " lost the PID-lock authority to PID "@ + decimal(running_pid as nat)
                            + "; the new child was rejected"@,
                    ]
                },
                _ => {
                    let last = match running {
                        Err(error) => Some(error),
                        _ => last_probe_error,
                    };
                    if expired {
                        step matches StartupStep::Await(
                            StartupStage::Cleanup { error, lost_to: false },
                        ) && error@ == startup_timeout(pid, last)
                    } else {
                        step == StartupStep::Again(last)
                    }
                },
            }
        },
        (StartupStage::Cleanup { error, lost_to }, StartupReply::Cleanup(Ok(_))) => startup_fails(
            step,
            seq![
                joined(error@) + (if lost_to {
                    "; the rejected startup child was stopped"@
                } else {
                    "; the timed-out startup child was stopped"@
                }),
            ],
        ),
        (StartupStage::Cleanup { error, lost_to }, StartupReply::Cleanup(Err(cleanup))) => {
            startup_fails(
                step,
                seq![
                    (if lost_to {
                        "failed startup child cleanup was incomplete: "@
                    } else {
                        "timed-out startup child cleanup was incomplete: "@
                    }) + joined(cleanup@),
                ] + error@,
            )
        },
        _ => startup_fails(step, misfit()),
    }
}

/// What a start does next. `before` is the last failed look of earlier rounds.
pub fn await_daemon_ready(
    pid: u32,
    stage: StartupStage,
    before: Option<Fault>,
    reply: StartupReply,
) -> (r: StartupStep)
    ensures
        startup_next(pid, stage, before, reply, r),
{
    let number = decimal_text(pid as u64);
    match (stage, reply) {
        (StartupStage::Child, StartupReply::Exited(Some(status))) => StartupStep::Finished(
            Err(
                Fault::from_text(
                    join5(
                        "Daemon process (PID ",
                        number.as_str(),
                        ") exited immediately (",
                        status.as_str(),
                        "); check logs for details",
                    ),
                ),
            ),
        ),
        (StartupStage::Child, StartupReply::Exited(None)) => StartupStep::Await(
            StartupStage::Lock { last_probe_error: before },
        ),
        (StartupStage::Lock { last_probe_error }, StartupReply::Lock { running, expired }) => {
            let last = match running {
                Ok(Some(running_pid)) => {
                    if running_pid == pid {
                        return StartupStep::Finished(Ok(pid));
                    }
                    let error = Fault::from_text(
                        join5(
                            "Daemon startup PID ",
                            number.as_str(),
                            " lost the PID-lock authority to PID ",
                            decimal_text(running_pid as u64).as_str(),
                            "; the new child was rejected",
                        ),
                    );
                    return StartupStep::Await(StartupStage::Cleanup { error, lost_to: true });
                },
                Ok(None) => last_probe_error,
                Err(error) => Some(error),
            };
            if expired {
                let error = match last {
                    Some(error) => error.context(
                        join3(
                            "Daemon (PID ",
                            number.as_str(),
                            ") did not publish a valid, locked identity within 10s",
                        ),
                    ),
                    None => Fault::from_text(
                        join3(
                            "Daemon (PID ",
                            number.as_str(),
                            ") did not initialize within 10s (no locked PID identity published); check logs",
                        ),
                    ),
                };
                StartupStep::Await(StartupStage::Cleanup { error, lost_to: false })
            } else {
                StartupStep::Again(last)
            }
        },
        (StartupStage::Cleanup { error, lost_to }, StartupReply::Cleanup(Ok(()))) => {
            let end = if lost_to {
                "; the rejected startup child was stopped"
            } else {
                "; the timed-out startup child was stopped"
            };
            StartupStep::Finished(Err(Fault::from_text(join2(error.detail().as_str(), end))))
        },
        (StartupStage::Cleanup { error, lost_to }, StartupReply::Cleanup(Err(cleanup))) => {
            let start = if lost_to {
                "failed startup child cleanup was incomplete: "
            } else {
                "timed-out startup child cleanup was incomplete: "
            };
            StartupStep::Finished(Err(error.context(join2(start, cleanup.detail().as_str()))))
        },
        _ => StartupStep::Finished(Err(misfit_fault())),
    }
}

/// A start succeeds only with its own child as the holder of the lock, and
/// every other end comes after the child exited or was ended.
pub proof fn law_start_succeeds_only_with_its_own_child(
    pid: u32,
    stage: StartupStage,
    before: Option<Fault>,
    reply: StartupReply,
    step: StartupStep,
    started: u32,
)
    requires
        startup_next(pid, stage, before, reply, step),
        step == StartupStep::Finished(Ok(started)),
    ensures
        started == pid,
        reply matches StartupReply::Lock { running: Ok(Some(running_pid)), .. } && running_pid == pid,
{
}

/// What became of a child that could not be used: killed, or found to have
/// exited where it could not be killed.
pub fn terminate_failed_daemon_child(
    killed: Result<(), Fault>,
    reaped: Result<(), Fault>,
    exited: Result<bool, Fault>,
) -> (r: Result<(), Fault>)
    ensures
        match killed {
            Ok(_) => match reaped {
                Ok(_) => r is Ok,
                Err(error) => r matches Err(fault) && fault@ == seq![
                    "reaping the terminated daemon startup child"@,
                ] + error@,
            },
            Err(kill) => match exited {
                Err(error) => r matches Err(fault) && fault@ == seq![
                    "classifying the daemon startup child after kill failed"@,
                ] + error@,
                Ok(true) => r is Ok,
                Ok(false) => r matches Err(fault) && fault@ == seq![
                    "daemon startup child remained live after its cleanup kill request failed"@,
                ] + kill@,
            },
        },
{
    match killed {
        Ok(()) => match reaped {
            Ok(()) => Ok(()),
            Err(error) => Err(error.within("reaping the terminated daemon startup child")),
        },
        Err(kill) => match exited {
            Err(error) => Err(
                error.within("classifying the daemon startup child after kill failed"),
            ),
            Ok(true) => Ok(()),
            Ok(false) => Err(
                kill.within(
                    "daemon startup child remained live after its cleanup kill request failed",
                ),
            ),
        },
    }
}

/// A nonce for a background child: sixteen random bytes in hexadecimal, which a
/// child accepts as one.
pub fn fresh_ready_nonce() -> (r: String)
    ensures
        hex_bytes(r@) matches Some(bytes) && bytes.len() == 16 && r@ == hex_text(bytes),
{
    let nonce = random_nonce();
    proof {
        lemma_hex_round_trip(nonce@);
    }
    hex_encode(nonce.as_slice())
}

} // verus!
