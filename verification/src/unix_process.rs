//! Inspection of Unix processes: what the process listings say, and which
//! process is worth a closer look.
use vstd::prelude::*;
use vstd::slice::slice_subrange;

use crate::codex_process::{candidate_name, possible_codex_process_name, ProcessInspection};
use crate::number::{i32_value, parse_i32, parse_u32, u32_value};
use crate::outside::{utf8_lossy, utf8_lossy_text};
use crate::text::{
    after_prefix, chars_of, lines, position, runs, split_lines, split_words, strip_prefix, text_of,
    texts, trim, trim_both, trim_front, trim_start, until, words, CharClass,
};

verus! {

/// What the first line with `prefix` holds after it.
pub open spec fn first_with_prefix(list: Seq<Seq<char>>, prefix: Seq<char>) -> Option<Seq<char>>
    decreases list.len(),
{
    if list.len() == 0 {
        None
    } else if after_prefix(list[0], prefix) is Some {
        after_prefix(list[0], prefix)
    } else {
        first_with_prefix(list.skip(1), prefix)
    }
}

/// The effective user of a Linux process status: the second number of its
/// first `Uid:` line.
pub open spec fn effective_uid(status: Seq<char>) -> Option<nat> {
    match first_with_prefix(lines(status), "Uid:"@) {
        None => None,
        Some(fields) => {
            let numbers = words(fields, CharClass::WhiteSpace);
            if numbers.len() >= 2 {
                u32_value(numbers[1])
            } else {
                None
            }
        },
    }
}

/// The effective user of a Linux process status.
pub fn linux_effective_uid(status: &str) -> (r: Option<u32>)
    ensures
        match r {
            Some(uid) => effective_uid(status@) == Some(uid as nat),
            None => effective_uid(status@) is None,
        },
{
    let chars = chars_of(status);
    let rows = split_lines(chars.as_slice());
    let ghost all = runs(rows@);
    let mut i: usize = 0;
    assert(all.skip(0) =~= all);
    while i < rows.len()
        invariant
            i <= rows@.len(),
            all == runs(rows@),
            all == lines(status@),
            first_with_prefix(all, "Uid:"@) == first_with_prefix(all.skip(i as int), "Uid:"@),
        decreases rows@.len() - i,
    {
        let row = rows[i];
        assert(all.skip(i as int)[0] == row@);
        assert(all.skip(i as int).skip(1) =~= all.skip(i + 1));
        if let Some(fields) = strip_prefix(row, "Uid:") {
            let numbers = split_words(fields, CharClass::WhiteSpace);
            assert(runs(numbers@).len() == numbers@.len());
            if numbers.len() < 2 {
                return None;
            }
            assert(runs(numbers@)[1] == numbers@[1]@);
            return parse_u32(numbers[1]);
        }
        i = i + 1;
    }
    assert(all.skip(i as int) =~= Seq::empty());
    None
}

/// Whether an operating-system error means that the process is gone: nothing
/// was found or, on Unix, no such process exists (`ESRCH`).
pub fn process_vanished(not_found: bool, unix: bool, os_error: Option<i32>) -> (r: bool)
    ensures
        r == (not_found || (unix && os_error == Some(3i32))),
{
    not_found || (unix && match os_error {
        Some(code) => code == 3,
        None => false,
    })
}

/// A part of `/proc/<pid>` that an inspection reads.
#[derive(Clone, Copy, Debug, PartialEq, Eq, Structural)]
pub enum LinuxProbe {
    /// The owner of the process directory.
    Owner,
    /// `comm`.
    CommandName,
    /// `status`.
    Status,
    /// `cmdline`.
    CommandLine,
    /// The process directory itself, after one of its files was not found.
    Directory,
}

/// What reading a part of `/proc/<pid>` gave.
#[derive(Debug, PartialEq, Eq)]
pub enum LinuxReply {
    Owner(u32),
    Text(String),
    Bytes(Vec<u8>),
    /// Reading failed because the process is gone.
    Vanished,
    /// Reading failed for another reason.
    Failed,
}

/// What an inspection does next.
#[derive(Debug, PartialEq, Eq)]
pub enum LinuxStep {
    Read(LinuxProbe),
    Done(ProcessInspection),
}

/// The non-empty runs of bytes between zero bytes.
pub open spec fn zero_separated(bytes: Seq<u8>) -> Seq<Seq<u8>>
    decreases bytes.len(),
{
    let n = bytes_until_zero(bytes);
    let head = if n > 0 {
        seq![bytes.take(n as int)]
    } else {
        Seq::empty()
    };
    if n >= bytes.len() {
        head
    } else {
        head + zero_separated(bytes.skip(n as int + 1))
    }
}

/// How many bytes precede the first zero byte: all of them where there is none.
pub open spec fn bytes_until_zero(bytes: Seq<u8>) -> nat
    decreases bytes.len(),
{
    if bytes.len() == 0 || bytes[0] == 0 {
        0
    } else {
        1 + bytes_until_zero(bytes.skip(1))
    }
}

/// The texts of several runs of bytes, invalid UTF-8 replaced.
pub open spec fn lossy_texts(list: Seq<Seq<u8>>) -> Seq<Seq<char>> {
    Seq::new(list.len(), |i: int| utf8_lossy(list[i]))
}

fn zero_position(bytes: &[u8]) -> (r: usize)
    ensures
        r == bytes_until_zero(bytes@),
        r <= bytes@.len(),
        r < bytes@.len() ==> bytes@[r as int] == 0,
{
    let mut i: usize = 0;
    assert(bytes@.skip(0) =~= bytes@);
    while i < bytes.len() && bytes[i] != 0
        invariant
            i <= bytes@.len(),
            bytes_until_zero(bytes@) == i + bytes_until_zero(bytes@.skip(i as int)),
        decreases bytes@.len() - i,
    {
        i = i + 1;
        assert(bytes@.skip(i - 1).skip(1) =~= bytes@.skip(i as int));
    }
    i
}

/// The arguments that `/proc/<pid>/cmdline` holds.
pub fn linux_command_arguments(cmdline: &[u8]) -> (r: Vec<String>)
    ensures
        texts(r@) == lossy_texts(zero_separated(cmdline@)),
{
    let mut out: Vec<String> = Vec::new();
    let mut rest = cmdline;
    let ghost whole = lossy_texts(zero_separated(cmdline@));
    assert(texts(out@) + lossy_texts(zero_separated(rest@)) =~= whole);
    loop
        invariant
            texts(out@) + lossy_texts(zero_separated(rest@)) == whole,
            whole == lossy_texts(zero_separated(cmdline@)),
        decreases rest@.len(),
    {
        let n: usize = zero_position(rest);
        let ghost before = out@;
        let ghost now = zero_separated(rest@);
        if n > 0 {
            let piece = slice_subrange(rest, 0, n);
            assert(piece@ =~= rest@.take(n as int));
            out.push(utf8_lossy_text(piece));
            assert(texts(out@) =~= texts(before).push(utf8_lossy(piece@)));
        }
        if n == rest.len() {
            assert(texts(out@) =~= texts(before) + lossy_texts(now));
            return out;
        }
        let tail = slice_subrange(rest, n + 1, rest.len());
        assert(tail@ =~= rest@.skip(n as int + 1));
        assert(texts(out@) + lossy_texts(zero_separated(tail@)) =~= texts(before) + lossy_texts(
            now,
        ));
        rest = tail;
    }
}

/// Whether `step` is what an inspection concludes or reads next, given what the
/// last read gave.
///
/// A process of another user, or whose name cannot be that of a Codex process,
/// is irrelevant. A file that is gone means that the process vanished only
/// where its directory is gone too; any other failure fails the inspection.
pub open spec fn linux_next(
    current_uid: u32,
    probe: LinuxProbe,
    reply: LinuxReply,
    step: LinuxStep,
) -> bool {
    match (probe, reply) {
        (LinuxProbe::Owner, LinuxReply::Owner(uid)) => if uid == current_uid {
            step == LinuxStep::Read(LinuxProbe::CommandName)
        } else {
            step == LinuxStep::Done(ProcessInspection::Irrelevant)
        },
        (LinuxProbe::Owner, LinuxReply::Vanished) => step == LinuxStep::Done(
            ProcessInspection::Vanished,
        ),
        (LinuxProbe::CommandName, LinuxReply::Text(name)) => if candidate_name(
            trim_both(name@, CharClass::WhiteSpace),
        ) {
            step == LinuxStep::Read(LinuxProbe::Status)
        } else {
            step == LinuxStep::Done(ProcessInspection::Irrelevant)
        },
        (LinuxProbe::Status, LinuxReply::Text(status)) => match effective_uid(status@) {
            Some(uid) => if uid == current_uid {
                step == LinuxStep::Read(LinuxProbe::CommandLine)
            } else {
                step == LinuxStep::Done(ProcessInspection::Irrelevant)
            },
            None => step == LinuxStep::Done(ProcessInspection::Failed),
        },
        (LinuxProbe::CommandLine, LinuxReply::Bytes(cmdline)) => {
            let arguments = lossy_texts(zero_separated(cmdline@));
            if arguments.len() == 0 {
                step == LinuxStep::Done(ProcessInspection::Irrelevant)
            } else {
                step matches LinuxStep::Done(ProcessInspection::Arguments(list)) && texts(list@)
                    == arguments
            }
        },
        (LinuxProbe::CommandName, LinuxReply::Vanished) => step == LinuxStep::Read(
            LinuxProbe::Directory,
        ),
        (LinuxProbe::Status, LinuxReply::Vanished) => step == LinuxStep::Read(
            LinuxProbe::Directory,
        ),
        (LinuxProbe::CommandLine, LinuxReply::Vanished) => step == LinuxStep::Read(
            LinuxProbe::Directory,
        ),
        (LinuxProbe::Directory, LinuxReply::Vanished) => step == LinuxStep::Done(
            ProcessInspection::Vanished,
        ),
        _ => step == LinuxStep::Done(ProcessInspection::Failed),
    }
}

/// What an inspection of a Linux process concludes or reads next. It starts
/// with reading the owner.
pub fn linux_process_arguments(current_uid: u32, probe: LinuxProbe, reply: LinuxReply) -> (r:
    LinuxStep)
    ensures
        linux_next(current_uid, probe, reply, r),
{
    match (probe, reply) {
        (LinuxProbe::Owner, LinuxReply::Owner(uid)) => if uid != current_uid {
            LinuxStep::Done(ProcessInspection::Irrelevant)
        } else {
            LinuxStep::Read(LinuxProbe::CommandName)
        },
        (LinuxProbe::Owner, LinuxReply::Vanished) => LinuxStep::Done(ProcessInspection::Vanished),
        (LinuxProbe::CommandName, LinuxReply::Text(name)) => {
            let chars = chars_of(name.as_str());
            let trimmed = text_of(trim(chars.as_slice(), CharClass::WhiteSpace));
            if possible_codex_process_name(trimmed.as_str()) {
                LinuxStep::Read(LinuxProbe::Status)
            } else {
                LinuxStep::Done(ProcessInspection::Irrelevant)
            }
        },
        (LinuxProbe::Status, LinuxReply::Text(status)) => match linux_effective_uid(
            status.as_str(),
        ) {
            Some(uid) => if uid == current_uid {
                LinuxStep::Read(LinuxProbe::CommandLine)
            } else {
                LinuxStep::Done(ProcessInspection::Irrelevant)
            },
            None => LinuxStep::Done(ProcessInspection::Failed),
        },
        (LinuxProbe::CommandLine, LinuxReply::Bytes(cmdline)) => {
            let arguments = linux_command_arguments(cmdline.as_slice());
            assert(texts(arguments@).len() == arguments@.len());
            if arguments.len() == 0 {
                LinuxStep::Done(ProcessInspection::Irrelevant)
            } else {
                LinuxStep::Done(ProcessInspection::Arguments(arguments))
            }
        },
        (LinuxProbe::Directory, LinuxReply::Vanished) => LinuxStep::Done(
            linux_process_file_failure(true, true),
        ),
        (LinuxProbe::CommandName, LinuxReply::Vanished) => LinuxStep::Read(LinuxProbe::Directory),
        (LinuxProbe::Status, LinuxReply::Vanished) => LinuxStep::Read(LinuxProbe::Directory),
        (LinuxProbe::CommandLine, LinuxReply::Vanished) => LinuxStep::Read(LinuxProbe::Directory),
        _ => LinuxStep::Done(ProcessInspection::Failed),
    }
}

/// What a missing process file means: the process vanished where its directory
/// is missing too; every other combination is a failed inspection.
pub fn linux_process_file_failure(file_vanished: bool, directory_vanished: bool) -> (r:
    ProcessInspection)
    ensures
        r == (if file_vanished && directory_vanished {
            ProcessInspection::Vanished
        } else {
            ProcessInspection::Failed
        }),
{
    if file_vanished && directory_vanished {
        ProcessInspection::Vanished
    } else {
        ProcessInspection::Failed
    }
}

/// An inspection reads a file at most once each and then stops: the number of
/// reads that may still follow falls with every step.
pub open spec fn reads_left(probe: LinuxProbe) -> nat {
    match probe {
        LinuxProbe::Owner => 4,
        LinuxProbe::CommandName => 3,
        LinuxProbe::Status => 2,
        LinuxProbe::CommandLine => 1,
        LinuxProbe::Directory => 0,
    }
}

/// Every inspection comes to an end, and one that says `Vanished` has seen the
/// process directory itself missing.
pub proof fn law_linux_inspection_ends(
    current_uid: u32,
    probe: LinuxProbe,
    reply: LinuxReply,
    step: LinuxStep,
)
    requires
        linux_next(current_uid, probe, reply, step),
    ensures
        step matches LinuxStep::Read(next) ==> reads_left(next) < reads_left(probe),
        step == LinuxStep::Done(ProcessInspection::Vanished) ==> (reply is Vanished && (probe
            == LinuxProbe::Owner || probe == LinuxProbe::Directory)),
{
}

// -- macOS --

/// One row of a process listing: process, user and command.
#[derive(Debug, PartialEq, Eq)]
pub struct MacosProcessRow {
    pub pid: i32,
    pub uid: u32,
    pub command: String,
}

/// The process, user and command that a listing row holds: two numbers and the
/// rest of the line, spaces included.
pub open spec fn macos_row(line: Seq<char>) -> Option<(int, nat, Seq<char>)> {
    let line = trim_front(line, CharClass::WhiteSpace);
    let n = until(line, CharClass::WhiteSpace);
    let rest = trim_front(line.skip(n as int), CharClass::WhiteSpace);
    let m = until(rest, CharClass::WhiteSpace);
    let command = trim_front(rest.skip(m as int), CharClass::WhiteSpace);
    if n < line.len() && m < rest.len() && command.len() > 0 {
        match (i32_value(line.take(n as int)), u32_value(rest.take(m as int))) {
            (Some(pid), Some(uid)) => Some((pid, uid, command)),
            _ => None,
        }
    } else {
        None
    }
}

/// The content of a parsed row.
pub open spec fn row_view(row: Option<MacosProcessRow>) -> Option<(int, nat, Seq<char>)> {
    match row {
        Some(r) => Some((r.pid as int, r.uid as nat, r.command@)),
        None => None,
    }
}

/// The process, user and command that a listing row holds.
pub fn parse_macos_process_row(line: &[char]) -> (r: Option<MacosProcessRow>)
    ensures
        row_view(r) == macos_row(line@),
{
    let line = trim_start(line, CharClass::WhiteSpace);
    let n: usize = position(line, CharClass::WhiteSpace);
    if n == line.len() {
        return None;
    }
    let pid_text = slice_subrange(line, 0, n);
    assert(pid_text@ =~= line@.take(n as int));
    let after_pid = slice_subrange(line, n, line.len());
    assert(after_pid@ =~= line@.skip(n as int));
    let rest = trim_start(after_pid, CharClass::WhiteSpace);
    let m: usize = position(rest, CharClass::WhiteSpace);
    if m == rest.len() {
        return None;
    }
    let uid_text = slice_subrange(rest, 0, m);
    assert(uid_text@ =~= rest@.take(m as int));
    let after_uid = slice_subrange(rest, m, rest.len());
    assert(after_uid@ =~= rest@.skip(m as int));
    let command = trim_start(after_uid, CharClass::WhiteSpace);
    if command.len() == 0 {
        return None;
    }
    match (parse_i32(pid_text), parse_u32(uid_text)) {
        (Some(pid), Some(uid)) => Some(MacosProcessRow { pid, uid, command: text_of(command) }),
        _ => None,
    }
}

/// The processes of a listing that may be Codex processes of `uid`.
pub open spec fn macos_candidates(rows: Seq<Seq<char>>, uid: u32) -> Seq<int>
    decreases rows.len(),
{
    if rows.len() == 0 {
        Seq::empty()
    } else {
        let head = macos_candidates(rows.drop_last(), uid);
        match macos_row(rows.last()) {
            Some((pid, owner, command)) if owner == uid && candidate_name(command) => head.push(
                pid,
            ),
            _ => head,
        }
    }
}

/// The values of a list of process numbers.
pub open spec fn pid_values(pids: Seq<i32>) -> Seq<int> {
    Seq::new(pids.len(), |i: int| pids[i] as int)
}

/// The processes of a listing that may be Codex processes of `current_uid`;
/// `None` where a row cannot be read.
pub fn macos_candidate_pids(listing: &str, current_uid: u32) -> (r: Option<Vec<i32>>)
    ensures
        match r {
            Some(pids) => {
                &&& forall|i: int|
                    0 <= i < lines(listing@).len() ==> macos_row(
                        #[trigger] lines(listing@)[i],
                    ) is Some
                &&& pid_values(pids@) == macos_candidates(lines(listing@), current_uid)
            },
            None => exists|i: int|
                0 <= i < lines(listing@).len() && macos_row(#[trigger] lines(listing@)[i]) is None,
        },
{
    let chars = chars_of(listing);
    let rows = split_lines(chars.as_slice());
    let ghost all = lines(listing@);
    let mut pids: Vec<i32> = Vec::new();
    let mut i: usize = 0;
    assert(all.take(0) =~= Seq::empty());
    assert(pid_values(pids@) =~= macos_candidates(all.take(0), current_uid));
    while i < rows.len()
        invariant
            i <= rows@.len(),
            all == lines(listing@),
            all == runs(rows@),
            forall|k: int| 0 <= k < i ==> macos_row(#[trigger] all[k]) is Some,
            pid_values(pids@) == macos_candidates(all.take(i as int), current_uid),
        decreases rows@.len() - i,
    {
        assert(all[i as int] == rows@[i as int]@);
        let row = match parse_macos_process_row(rows[i]) {
            Some(row) => row,
            None => {
                assert(macos_row(all[i as int]) is None);
                return None;
            },
        };
        let ghost before = pids@;
        if row.uid == current_uid && possible_codex_process_name(row.command.as_str()) {
            pids.push(row.pid);
        }
        i = i + 1;
        proof {
            assert(all.take(i as int).drop_last() =~= all.take(i - 1));
            if pids@ != before {
                assert(pid_values(pids@) =~= pid_values(before).push(row.pid as int));
            }
        }
    }
    assert(all.take(i as int) =~= all);
    Some(pids)
}

/// What the arguments of a listed process mean. The executable is looked at
/// again: the process number may have been taken over since the listing.
pub fn classify_macos_process_arguments(arguments: Option<Vec<String>>) -> (r: ProcessInspection)
    ensures
        match arguments {
            None => r == ProcessInspection::Failed,
            Some(list) => if list@.len() == 0 {
                r == ProcessInspection::Failed
            } else if candidate_name(list@[0]@) {
                r == ProcessInspection::Arguments(list)
            } else {
                r == ProcessInspection::Irrelevant
            },
        },
{
    match arguments {
        None => ProcessInspection::Failed,
        Some(list) => {
            if list.len() == 0 {
                return ProcessInspection::Failed;
            }
            if possible_codex_process_name(list[0].as_str()) {
                ProcessInspection::Arguments(list)
            } else {
                ProcessInspection::Irrelevant
            }
        },
    }
}

/// How many zero bytes stand at the front.
pub open spec fn leading_zeros(bytes: Seq<u8>) -> nat
    decreases bytes.len(),
{
    if bytes.len() > 0 && bytes[0] == 0 {
        1 + leading_zeros(bytes.skip(1))
    } else {
        0
    }
}

/// The first `count` zero-terminated texts.
pub open spec fn terminated_texts(bytes: Seq<u8>, count: nat) -> Option<Seq<Seq<char>>>
    decreases count,
{
    if count == 0 {
        Some(Seq::empty())
    } else {
        let n = bytes_until_zero(bytes);
        if n >= bytes.len() {
            None
        } else {
            match terminated_texts(bytes.skip(n as int + 1), (count - 1) as nat) {
                Some(rest) => Some(seq![utf8_lossy(bytes.take(n as int))] + rest),
                None => None,
            }
        }
    }
}

/// The four bytes of a little-endian number.
pub open spec fn little_endian(bytes: Seq<u8>) -> int {
    bytes[0] + 256 * bytes[1] + 65536 * bytes[2] + 16777216 * bytes[3]
}

/// The arguments in a process-arguments buffer: a positive little-endian count,
/// the executable path, padding, and that many zero-terminated texts.
pub open spec fn macos_arguments(buffer: Seq<u8>) -> Option<Seq<Seq<char>>> {
    if buffer.len() < 4 || little_endian(buffer) == 0 || little_endian(buffer) > i32::MAX {
        None
    } else {
        let body = buffer.skip(4);
        let n = bytes_until_zero(body);
        if n >= body.len() {
            None
        } else {
            let padded = body.skip(n as int + 1);
            terminated_texts(padded.skip(leading_zeros(padded) as int), little_endian(buffer) as nat)
        }
    }
}

/// The texts of an optional list of strings.
pub open spec fn optional_texts(list: Option<Vec<String>>) -> Option<Seq<Seq<char>>> {
    match list {
        Some(l) => Some(texts(l@)),
        None => None,
    }
}

/// The arguments in a process-arguments buffer.
pub fn parse_macos_process_arguments(buffer: &[u8]) -> (r: Option<Vec<String>>)
    ensures
        optional_texts(r) == macos_arguments(buffer@),
{
    if buffer.len() < 4 {
        return None;
    }
    let count: u32 = buffer[0] as u32 + 256 * buffer[1] as u32 + 65536 * buffer[2] as u32
        + 16777216 * buffer[3] as u32;
    if count == 0 || count > 0x7fff_ffff {
        return None;
    }
    let body = slice_subrange(buffer, 4, buffer.len());
    assert(body@ =~= buffer@.skip(4));
    let n: usize = zero_position(body);
    if n == body.len() {
        return None;
    }
    let padded = slice_subrange(body, n + 1, body.len());
    assert(padded@ =~= body@.skip(n as int + 1));
    let mut z: usize = 0;
    assert(padded@.skip(0) =~= padded@);
    while z < padded.len() && padded[z] == 0
        invariant
            z <= padded@.len(),
            leading_zeros(padded@) == z + leading_zeros(padded@.skip(z as int)),
        decreases padded@.len() - z,
    {
        z = z + 1;
        assert(padded@.skip(z - 1).skip(1) =~= padded@.skip(z as int));
    }
    let mut rest = slice_subrange(padded, z, padded.len());
    assert(rest@ =~= padded@.skip(leading_zeros(padded@) as int));
    let ghost whole = terminated_texts(rest@, count as nat);
    let mut left: u32 = count;
    let mut args: Vec<String> = Vec::new();
    assert(texts(args@) =~= Seq::empty());
    while left > 0
        invariant
            left <= count,
            whole == macos_arguments(buffer@),
            match terminated_texts(rest@, left as nat) {
                Some(tail) => whole is Some && whole->0 =~= texts(args@) + tail,
                None => whole is None,
            },
        decreases left,
    {
        let end: usize = zero_position(rest);
        if end == rest.len() {
            return None;
        }
        let piece = slice_subrange(rest, 0, end);
        assert(piece@ =~= rest@.take(end as int));
        let tail = slice_subrange(rest, end + 1, rest.len());
        assert(tail@ =~= rest@.skip(end as int + 1));
        let ghost before = args@;
        args.push(utf8_lossy_text(piece));
        assert(texts(args@) =~= texts(before).push(utf8_lossy(piece@)));
        rest = tail;
        left = left - 1;
    }
    assert(texts(args@) + Seq::<Seq<char>>::empty() =~= texts(args@));
    Some(args)
}

} // verus!
