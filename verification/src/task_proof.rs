//! The proof that a running scheduled task owns the daemon: the task's instance
//! and the daemon's whole process ancestry up to the task's engine, each
//! observed twice.
use vstd::prelude::*;
use vstd::utf8::{decode_utf8, valid_utf8};

use crate::fault::{join2, join3, join4, join5, Fault};
use crate::number::{decimal, decimal_text, digit_value, parse_u32, parse_u64, u32_value, u64_value};
use crate::outside::{
    u32_refusal, u32_words, u64_refusal, u64_words, utf8_refusal, utf8_text,
};
use crate::text::{
    begins_with, chars_of, equals, lines, nonempty, pieces, runs, split, split_lines, starts_with,
    text_of, trim, trim_both, CharClass,
};

verus! {

/// One observed process: its number, its parent's, and when it was created.
#[derive(Clone, Copy, Debug, PartialEq, Eq, Structural)]
pub struct WindowsProcessGeneration {
    pub pid: u32,
    pub parent_pid: u32,
    pub creation_ticks: u64,
}

/// The texts without white space around them, the empty ones left out.
pub open spec fn trimmed_rows(list: Seq<Seq<char>>) -> Seq<Seq<char>> {
    nonempty(Seq::new(list.len(), |i: int| trim_both(list[i], CharClass::WhiteSpace)))
}

/// A GUID in its canonical form: digits in groups, joined by hyphens.
pub open spec fn canonical_guid(s: Seq<char>) -> bool {
    s.len() == 36 && forall|i: int|
        0 <= i < 36 ==> (if i == 8 || i == 13 || i == 18 || i == 23 {
            #[trigger] s[i] == '-'
        } else {
            digit_value(s[i], 16) is Some
        })
}

fn is_hex_digit(c: char) -> (r: bool)
    ensures
        r == (digit_value(c, 16) is Some),
{
    ('0' <= c && c <= '9') || ('a' <= c && c <= 'f') || ('A' <= c && c <= 'F')
}

fn is_canonical_guid(s: &[char]) -> (r: bool)
    ensures
        r == canonical_guid(s@),
{
    if s.len() != 36 {
        return false;
    }
    let mut i: usize = 0;
    while i < 36
        invariant
            i <= 36,
            s@.len() == 36,
            forall|k: int|
                0 <= k < i ==> (if k == 8 || k == 13 || k == 18 || k == 23 {
                    #[trigger] s@[k] == '-'
                } else {
                    digit_value(s@[k], 16) is Some
                }),
        decreases 36 - i,
    {
        let fits = if i == 8 || i == 13 || i == 18 || i == 23 {
            s[i] == '-'
        } else {
            is_hex_digit(s[i])
        };
        if !fits {
            assert(s@[i as int] == s@[i as int]);
            return false;
        }
        i = i + 1;
    }
    true
}

/// A row that is not the one expected.
pub open spec fn unexpected_row(tag: Seq<char>, line: Seq<char>) -> Seq<char> {
    "Task Scheduler ownership proof expected "@ + tag + ", got '"@ + line + "'"@
}

/// The instance and the engine process of a row.
pub open spec fn instance_row(line: Seq<char>, tag: Seq<char>) -> Result<
    (Seq<char>, nat),
    Seq<Seq<char>>,
> {
    let fields = pieces(line, CharClass::Just('\t'));
    if fields.len() != 3 || fields[0] != tag {
        Err(seq![unexpected_row(tag, line)])
    } else if !canonical_guid(fields[1]) || fields[1] == "00000000-0000-0000-0000-000000000000"@ {
        Err(seq!["Task Scheduler ownership proof contained an invalid instance GUID"@])
    } else {
        match u32_value(fields[2]) {
            None => Err(
                seq![
                    "Task Scheduler reported an invalid engine PID '"@ + fields[2] + "'"@,
                    u32_refusal(fields[2]),
                ],
            ),
            Some(pid) => if pid == 0 {
                Err(seq!["Task Scheduler reported reserved engine PID zero"@])
            } else {
                Ok((fields[1], pid))
            },
        }
    }
}

/// The instance and the engine process of a row.
pub fn parse_task_scheduler_instance_row<'a>(line: &'a [char], expected_tag: &str) -> (r: Result<
    (&'a [char], u32),
    Fault,
>)
    ensures
        match (r, instance_row(line@, expected_tag@)) {
            (Ok((guid, pid)), Ok(row)) => guid@ == row.0 && pid == row.1,
            (Err(fault), Err(messages)) => fault@ == messages,
            _ => false,
        },
{
    let fields = split(line, CharClass::Just('\t'));
    let ghost all = pieces(line@, CharClass::Just('\t'));
    assert(all.len() == fields@.len());
    assert(all[0] == fields@[0]@);
    if fields.len() != 3 || !equals(fields[0], expected_tag) {
        return Err(
            Fault::from_text(
                join5(
                    "Task Scheduler ownership proof expected ",
                    expected_tag,
                    ", got '",
                    text_of(line).as_str(),
                    "'",
                ),
            ),
        );
    }
    assert(all[1] == fields@[1]@ && all[2] == fields@[2]@);
    let guid = fields[1];
    if !is_canonical_guid(guid) || equals(guid, "00000000-0000-0000-0000-000000000000") {
        return Err(
            Fault::of("Task Scheduler ownership proof contained an invalid instance GUID"),
        );
    }
    match parse_u32(fields[2]) {
        None => {
            let text = text_of(fields[2]);
            Err(
                quoted_fault(
                    "Task Scheduler reported an invalid engine PID '",
                    text.as_str(),
                    u32_words(text.as_str()),
                ),
            )
        },
        Some(pid) => if pid == 0 {
            Err(Fault::of("Task Scheduler reported reserved engine PID zero"))
        } else {
            Ok((guid, pid))
        },
    }
}

/// The process of a row.
pub open spec fn process_row(line: Seq<char>, tag: Seq<char>) -> Result<
    WindowsProcessGeneration,
    Seq<Seq<char>>,
> {
    let fields = pieces(line, CharClass::Just('\t'));
    if fields.len() != 4 || fields[0] != tag {
        Err(seq![unexpected_row(tag, line)])
    } else if u32_value(fields[1]) is None {
        Err(
            seq![
                "Task Scheduler reported an invalid process PID '"@ + fields[1] + "'"@,
                u32_refusal(fields[1]),
            ],
        )
    } else if u32_value(fields[2]) is None {
        Err(
            seq![
                "Task Scheduler reported an invalid parent PID '"@ + fields[2] + "'"@,
                u32_refusal(fields[2]),
            ],
        )
    } else if u64_value(fields[3]) is None {
        Err(
            seq![
                "Task Scheduler reported an invalid process creation time '"@ + fields[3] + "'"@,
                u64_refusal(fields[3]),
            ],
        )
    } else if u32_value(fields[1])->0 == 0 || u64_value(fields[3])->0 == 0 {
        Err(seq!["Task Scheduler ownership proof contained a reserved PID or creation time"@])
    } else {
        Ok(
            WindowsProcessGeneration {
                pid: u32_value(fields[1])->0 as u32,
                parent_pid: u32_value(fields[2])->0 as u32,
                creation_ticks: u64_value(fields[3])->0 as u64,
            },
        )
    }
}

fn quoted_fault(what: &str, value: &str, words: String) -> (r: Fault)
    ensures
        r@ == seq![what@ + value@ + "'"@, words@],
{
    Fault::because(join3(what, value, "'").as_str(), words)
}

/// The process of a row.
pub fn parse_task_scheduler_process_row(line: &[char], expected_tag: &str) -> (r: Result<
    WindowsProcessGeneration,
    Fault,
>)
    ensures
        match (r, process_row(line@, expected_tag@)) {
            (Ok(generation), Ok(row)) => generation == row,
            (Err(fault), Err(messages)) => fault@ == messages,
            _ => false,
        },
{
    let fields = split(line, CharClass::Just('\t'));
    let ghost all = pieces(line@, CharClass::Just('\t'));
    assert(all.len() == fields@.len());
    assert(all[0] == fields@[0]@);
    if fields.len() != 4 || !equals(fields[0], expected_tag) {
        return Err(
            Fault::from_text(
                join5(
                    "Task Scheduler ownership proof expected ",
                    expected_tag,
                    ", got '",
                    text_of(line).as_str(),
                    "'",
                ),
            ),
        );
    }
    assert(all[1] == fields@[1]@ && all[2] == fields@[2]@ && all[3] == fields@[3]@);
    let pid = match parse_u32(fields[1]) {
        Some(pid) => pid,
        None => {
            let text = text_of(fields[1]);
            return Err(
                quoted_fault(
                    "Task Scheduler reported an invalid process PID '",
                    text.as_str(),
                    u32_words(text.as_str()),
                ),
            );
        },
    };
    let parent_pid = match parse_u32(fields[2]) {
        Some(pid) => pid,
        None => {
            let text = text_of(fields[2]);
            return Err(
                quoted_fault(
                    "Task Scheduler reported an invalid parent PID '",
                    text.as_str(),
                    u32_words(text.as_str()),
                ),
            );
        },
    };
    let creation_ticks = match parse_u64(fields[3]) {
        Some(ticks) => ticks,
        None => {
            let text = text_of(fields[3]);
            return Err(
                quoted_fault(
                    "Task Scheduler reported an invalid process creation time '",
                    text.as_str(),
                    u64_words(text.as_str()),
                ),
            );
        },
    };
    if pid == 0 || creation_ticks == 0 {
        return Err(
            Fault::of("Task Scheduler ownership proof contained a reserved PID or creation time"),
        );
    }
    Ok(WindowsProcessGeneration { pid, parent_pid, creation_ticks })
}

/// The processes of several rows, or the first problem.
pub open spec fn process_rows(rows: Seq<Seq<char>>, tag: Seq<char>) -> Result<
    Seq<WindowsProcessGeneration>,
    Seq<Seq<char>>,
>
    decreases rows.len(),
{
    if rows.len() == 0 {
        Ok(Seq::empty())
    } else {
        match process_row(rows[0], tag) {
            Err(messages) => Err(messages),
            Ok(generation) => match process_rows(rows.skip(1), tag) {
                Err(messages) => Err(messages),
                Ok(rest) => Ok(seq![generation] + rest),
            },
        }
    }
}

fn parse_process_rows(rows: &Vec<&[char]>, from: usize, to: usize, tag: &str) -> (r: Result<
    Vec<WindowsProcessGeneration>,
    Fault,
>)
    requires
        from <= to <= rows@.len(),
    ensures
        match (r, process_rows(runs(rows@).subrange(from as int, to as int), tag@)) {
            (Ok(list), Ok(generations)) => list@ == generations,
            (Err(fault), Err(messages)) => fault@ == messages,
            _ => false,
        },
{
    let ghost all = runs(rows@).subrange(from as int, to as int);
    let mut out: Vec<WindowsProcessGeneration> = Vec::new();
    let mut i: usize = from;
    assert(all.skip(0) =~= all);
    proof {
        if process_rows(all, tag@) is Ok {
            assert(out@ + process_rows(all, tag@)->Ok_0 =~= process_rows(all, tag@)->Ok_0);
        }
    }
    while i < to
        invariant
            from <= i <= to <= rows@.len(),
            all == runs(rows@).subrange(from as int, to as int),
            match (process_rows(all.skip(i - from), tag@), process_rows(all, tag@)) {
                (Ok(rest), Ok(whole)) => out@ + rest == whole,
                (Err(a), Err(b)) => a == b,
                _ => false,
            },
        decreases to - i,
    {
        let ghost here = all.skip(i - from);
        let ghost before = out@;
        assert(here[0] == rows@[i as int]@);
        assert(here.skip(1) =~= all.skip(i - from + 1));
        let generation = match parse_task_scheduler_process_row(rows[i], tag) {
            Ok(generation) => generation,
            Err(fault) => {
                return Err(fault);
            },
        };
        out.push(generation);
        proof {
            let rest = process_rows(here.skip(1), tag@);
            if rest is Ok {
                assert(out@ + rest->Ok_0 =~= before + (seq![generation] + rest->Ok_0));
            }
        }
        i = i + 1;
    }
    assert(all.skip(i - from) =~= Seq::empty());
    assert(out@ + Seq::<WindowsProcessGeneration>::empty() =~= out@);
    Ok(out)
}

/// A daemon that the task's engine did not start.
pub open spec fn not_descended(daemon: u32, engine: u32) -> Seq<char> {
    "authoritative daemon PID "@ + decimal(daemon as nat)
        + " is not descended from Task Scheduler engine PID "@ + decimal(engine as nat)
}

fn not_descended_fault(daemon: u32, engine: u32) -> (r: Fault)
    ensures
        r@ == seq![not_descended(daemon, engine)],
{
    Fault::from_text(
        join4(
            "authoritative daemon PID ",
            decimal_text(daemon as u64).as_str(),
            " is not descended from Task Scheduler engine PID ",
            decimal_text(engine as u64).as_str(),
        ),
    )
}

/// Whether a process appears among the first `n`.
pub open spec fn appeared(generations: Seq<WindowsProcessGeneration>, n: int, pid: u32) -> bool {
    exists|k: int| 0 <= k < n && (#[trigger] generations[k]).pid == pid
}

/// What is wrong with an ancestry from place `i` on, where process `expected`
/// must stand, whose child was created at `child`.
pub open spec fn ancestry_problem(
    generations: Seq<WindowsProcessGeneration>,
    i: int,
    expected: u32,
    child: Option<u64>,
    daemon: u32,
    engine: u32,
) -> Option<Seq<char>>
    decreases generations.len() - i,
{
    if i < 0 || i >= generations.len() {
        None
    } else {
        let g = generations[i];
        if g.pid != expected {
            Some(
                "Task Scheduler process ancestry changed before reaching PID "@ + decimal(
                    expected as nat,
                ),
            )
        } else if appeared(generations, i, g.pid) {
            Some("cycle in Windows process parent chain"@)
        } else if child is Some && g.creation_ticks > child->0 {
            Some(
                "Windows process parent "@ + decimal(g.pid as nat) + " is newer than its child"@,
            )
        } else if g.pid == engine {
            if i + 1 == generations.len() {
                None
            } else {
                Some("Task Scheduler ownership proof continued past its engine process"@)
            }
        } else if g.parent_pid == 0 {
            Some(not_descended(daemon, engine))
        } else {
            ancestry_problem(
                generations,
                i + 1,
                g.parent_pid,
                Some(g.creation_ticks),
                daemon,
                engine,
            )
        }
    }
}

fn has_appeared(generations: &Vec<WindowsProcessGeneration>, n: usize, pid: u32) -> (r: bool)
    requires
        n <= generations@.len(),
    ensures
        r == appeared(generations@, n as int, pid),
{
    let mut k: usize = 0;
    while k < n
        invariant
            k <= n <= generations@.len(),
            forall|j: int| 0 <= j < k ==> (#[trigger] generations@[j]).pid != pid,
        decreases n - k,
    {
        if generations[k].pid == pid {
            return true;
        }
        k = k + 1;
    }
    false
}

fn check_ancestry(generations: &Vec<WindowsProcessGeneration>, daemon: u32, engine: u32) -> (r: Result<
    (),
    Fault,
>)
    ensures
        match ancestry_problem(generations@, 0, daemon, None, daemon, engine) {
            Some(message) => r matches Err(fault) && fault@ == seq![message],
            None => r is Ok,
        },
{
    let mut expected: u32 = daemon;
    let mut child: Option<u64> = None;
    let mut i: usize = 0;
    while i < generations.len()
        invariant
            i <= generations@.len(),
            ancestry_problem(generations@, i as int, expected, child, daemon, engine)
                == ancestry_problem(generations@, 0, daemon, None, daemon, engine),
        decreases generations@.len() - i,
    {
        let g = generations[i];
        if g.pid != expected {
            return Err(
                Fault::from_text(
                    join2(
                        "Task Scheduler process ancestry changed before reaching PID ",
                        decimal_text(expected as u64).as_str(),
                    ),
                ),
            );
        }
        if has_appeared(generations, i, g.pid) {
            return Err(Fault::of("cycle in Windows process parent chain"));
        }
        let newer = match child {
            Some(ticks) => g.creation_ticks > ticks,
            None => false,
        };
        if newer {
            return Err(
                Fault::from_text(
                    join3(
                        "Windows process parent ",
                        decimal_text(g.pid as u64).as_str(),
                        " is newer than its child",
                    ),
                ),
            );
        }
        if g.pid == engine {
            if i + 1 != generations.len() {
                return Err(
                    Fault::of("Task Scheduler ownership proof continued past its engine process"),
                );
            }
            return Ok(());
        }
        if g.parent_pid == 0 {
            return Err(not_descended_fault(daemon, engine));
        }
        expected = g.parent_pid;
        child = Some(g.creation_ticks);
        i = i + 1;
    }
    Ok(())
}

/// The first row that ends the proof.
pub open spec fn end_row(rows: Seq<Seq<char>>, at: int) -> Option<int>
    decreases rows.len() - at,
{
    if at < 0 || at >= rows.len() {
        None
    } else if begins_with(rows[at], "instance-end\t"@) {
        Some(at)
    } else {
        end_row(rows, at + 1)
    }
}

fn find_end_row(rows: &Vec<&[char]>) -> (r: Option<usize>)
    ensures
        match r {
            Some(i) => end_row(runs(rows@), 0) == Some(i as int) && i < rows@.len(),
            None => end_row(runs(rows@), 0) is None,
        },
{
    let mut i: usize = 0;
    while i < rows.len()
        invariant
            i <= rows@.len(),
            end_row(runs(rows@), 0) == end_row(runs(rows@), i as int),
        decreases rows@.len() - i,
    {
        assert(runs(rows@)[i as int] == rows@[i as int]@);
        if starts_with(rows[i], "instance-end\t") {
            return Some(i);
        }
        i = i + 1;
    }
    None
}

/// What both observations of the processes show, between the first row and row
/// `end`: the ancestry of the daemon up to the engine, twice the same.
pub open spec fn observed_ancestry(rows: Seq<Seq<char>>, end: int, daemon: u32, engine: u32) -> Option<
    Seq<Seq<char>>,
> {
    let count = (end - 1) / 2;
    match process_rows(rows.subrange(1, 1 + count), "process-start"@) {
        Err(messages) => Some(messages),
        Ok(start) => match process_rows(rows.subrange(1 + count, end), "process-end"@) {
            Err(messages) => Some(messages),
            Ok(finish) => match ancestry_problem(start, 0, daemon, None, daemon, engine) {
                Some(message) => Some(seq![message]),
                None => if start.len() == 0 || start.last().pid != engine {
                    Some(seq![not_descended(daemon, engine)])
                } else if start != finish {
                    Some(
                        seq![
                            "a Windows process generation changed during Task Scheduler ownership inspection"@,
                        ],
                    )
                } else {
                    None
                },
            },
        },
    }
}

/// What a proof shows: that no instance runs, or that the daemon is the one
/// that the running instance started.
pub open spec fn manager_proof(rows: Seq<Seq<char>>, daemon: Option<u32>) -> Result<
    Option<u32>,
    Seq<Seq<char>>,
> {
    if rows == seq!["none"@] {
        Ok(None)
    } else if daemon is None || daemon->0 == 0 {
        Err(
            seq!["Task Scheduler has a running instance without an authoritative daemon PID"@],
        )
    } else if rows.len() < 4 {
        Err(seq!["Task Scheduler ownership proof was incomplete"@])
    } else {
        match instance_row(rows[0], "instance-start"@) {
            Err(messages) => Err(messages),
            Ok((guid, engine)) => match end_row(rows, 0) {
                None => Err(
                    seq!["Task Scheduler ownership proof omitted its final instance observation"@],
                ),
                Some(end) => if end < 3 || end + 1 != rows.len() {
                    Err(seq!["Task Scheduler ownership proof had an invalid observation order"@])
                } else if (end - 1) % 2 != 0 {
                    Err(seq!["Task Scheduler ownership proof had unmatched process observations"@])
                } else {
                    match observed_ancestry(rows, end, daemon->0, engine as u32) {
                        Some(messages) => Err(messages),
                        None => match instance_row(rows[end], "instance-end"@) {
                            Err(messages) => Err(messages),
                            Ok((end_guid, end_engine)) => if guid != end_guid || engine
                                != end_engine {
                                Err(
                                    seq![
                                        "Task Scheduler running-instance identity changed during ownership inspection"@,
                                    ],
                                )
                            } else {
                                Ok(daemon)
                            },
                        },
                    }
                },
            },
        }
    }
}

fn rows_of<'a>(text: &'a [char]) -> (r: Vec<&'a [char]>)
    ensures
        runs(r@) == trimmed_rows(lines(text@)),
{
    let all = split_lines(text);
    let ghost trimmed = Seq::new(
        lines(text@).len(),
        |i: int| trim_both(lines(text@)[i], CharClass::WhiteSpace),
    );
    let mut out: Vec<&'a [char]> = Vec::new();
    let mut i: usize = 0;
    assert(trimmed.take(0) =~= Seq::empty());
    while i < all.len()
        invariant
            i <= all@.len(),
            runs(all@) == lines(text@),
            trimmed == Seq::new(
                lines(text@).len(),
                |i: int| trim_both(lines(text@)[i], CharClass::WhiteSpace),
            ),
            runs(out@) == nonempty(trimmed.take(i as int)),
        decreases all@.len() - i,
    {
        let ghost before = out@;
        assert(runs(all@)[i as int] == all@[i as int]@);
        let row = trim(all[i], CharClass::WhiteSpace);
        if row.len() > 0 {
            out.push(row);
        }
        i = i + 1;
        proof {
            assert(trimmed.take(i as int).drop_last() =~= trimmed.take(i - 1));
            assert(trimmed.take(i as int).last() == row@);
            if row@.len() > 0 {
                assert(runs(out@) =~= runs(before).push(row@));
            }
        }
    }
    assert(trimmed.take(i as int) =~= trimmed);
    out
}

fn same_generations(
    a: &Vec<WindowsProcessGeneration>,
    b: &Vec<WindowsProcessGeneration>,
) -> (r: bool)
    ensures
        r == (a@ == b@),
{
    if a.len() != b.len() {
        return false;
    }
    let mut i: usize = 0;
    while i < a.len()
        invariant
            i <= a@.len() == b@.len(),
            forall|k: int| 0 <= k < i ==> a@[k] == b@[k],
        decreases a@.len() - i,
    {
        if a[i] != b[i] {
            return false;
        }
        i = i + 1;
    }
    assert(a@ =~= b@);
    true
}

fn check_observed_ancestry(rows: &Vec<&[char]>, end: usize, daemon: u32, engine: u32) -> (r: Result<
    (),
    Fault,
>)
    requires
        3 <= end < rows@.len(),
        (end - 1) % 2 == 0,
    ensures
        match observed_ancestry(runs(rows@), end as int, daemon, engine) {
            Some(messages) => r matches Err(fault) && fault@ == messages,
            None => r is Ok,
        },
{
    let count: usize = (end - 1) / 2;
    let start = match parse_process_rows(rows, 1, 1 + count, "process-start") {
        Ok(start) => start,
        Err(fault) => {
            return Err(fault);
        },
    };
    let finish = match parse_process_rows(rows, 1 + count, end, "process-end") {
        Ok(finish) => finish,
        Err(fault) => {
            return Err(fault);
        },
    };
    if let Err(fault) = check_ancestry(&start, daemon, engine) {
        return Err(fault);
    }
    if start.len() == 0 || start[start.len() - 1].pid != engine {
        return Err(not_descended_fault(daemon, engine));
    }
    if !same_generations(&start, &finish) {
        return Err(
            Fault::of(
                "a Windows process generation changed during Task Scheduler ownership inspection",
            ),
        );
    }
    Ok(())
}

fn same_run(a: &[char], b: &[char]) -> (r: bool)
    ensures
        r == (a@ == b@),
{
    equals(a, text_of(b).as_str())
}

/// Which process the running scheduled task owns, as its proof output shows:
/// none where no instance runs, and otherwise the authoritative daemon process,
/// which must descend from the task's engine.
pub fn parse_task_scheduler_manager_proof_output(output: &[u8], authoritative_daemon_pid: Option<u32>) -> (r:
    Result<Option<u32>, Fault>)
    ensures
        if !valid_utf8(output@) {
            r matches Err(fault) && fault@ == seq![
                "Task Scheduler ownership proof output is not UTF-8"@,
                utf8_refusal(output@),
            ]
        } else {
            match (
                r,
                manager_proof(trimmed_rows(lines(decode_utf8(output@))), authoritative_daemon_pid),
            ) {
                (Ok(pid), Ok(owned)) => pid == owned,
                (Err(fault), Err(messages)) => fault@ == messages,
                _ => false,
            }
        },
{
    let text = match utf8_text(output) {
        Ok(text) => text,
        Err(words) => {
            return Err(
                Fault::because("Task Scheduler ownership proof output is not UTF-8", words),
            );
        },
    };
    let chars = chars_of(text.as_str());
    let rows = rows_of(chars.as_slice());
    let ghost all = runs(rows@);
    assert(all.len() == rows@.len());
    if rows.len() == 1 && equals(rows[0], "none") {
        assert(all =~= seq!["none"@]);
        return Ok(None);
    }
    proof {
        if all == seq!["none"@] {
            assert(all.len() == 1 && all[0] == "none"@);
            assert(all[0] == rows@[0]@);
        }
    }
    let daemon: u32 = match authoritative_daemon_pid {
        Some(pid) => pid,
        None => 0,
    };
    if daemon == 0 {
        return Err(
            Fault::of("Task Scheduler has a running instance without an authoritative daemon PID"),
        );
    }
    if rows.len() < 4 {
        return Err(Fault::of("Task Scheduler ownership proof was incomplete"));
    }
    assert(all[0] == rows@[0]@);
    let (guid, engine) = match parse_task_scheduler_instance_row(rows[0], "instance-start") {
        Ok(row) => row,
        Err(fault) => {
            return Err(fault);
        },
    };
    let end: usize = match find_end_row(&rows) {
        Some(end) => end,
        None => {
            return Err(
                Fault::of(
                    "Task Scheduler ownership proof omitted its final instance observation",
                ),
            );
        },
    };
    if end < 3 || end + 1 != rows.len() {
        return Err(
            Fault::of("Task Scheduler ownership proof had an invalid observation order"),
        );
    }
    if (end - 1) % 2 != 0 {
        return Err(
            Fault::of("Task Scheduler ownership proof had unmatched process observations"),
        );
    }
    if let Err(fault) = check_observed_ancestry(&rows, end, daemon, engine) {
        return Err(fault);
    }
    assert(all[end as int] == rows@[end as int]@);
    let (end_guid, end_engine) = match parse_task_scheduler_instance_row(
        rows[end],
        "instance-end",
    ) {
        Ok(row) => row,
        Err(fault) => {
            return Err(fault);
        },
    };
    if !same_run(guid, end_guid) || engine != end_engine {
        return Err(
            Fault::of(
                "Task Scheduler running-instance identity changed during ownership inspection",
            ),
        );
    }
    Ok(Some(daemon))
}

/// In an ancestry without a problem each process is the parent of the one
/// before it, none is newer than its child, and none appears twice.
pub proof fn law_accepted_ancestry_is_a_chain(
    generations: Seq<WindowsProcessGeneration>,
    i: int,
    expected: u32,
    child: Option<u64>,
    daemon: u32,
    engine: u32,
)
    requires
        0 <= i,
        ancestry_problem(generations, i, expected, child, daemon, engine) is None,
    ensures
        i < generations.len() ==> generations[i].pid == expected,
        forall|k: int|
            i <= k < generations.len() - 1 ==> (#[trigger] generations[k]).parent_pid
                == generations[k + 1].pid && generations[k + 1].creation_ticks
                <= generations[k].creation_ticks,
        forall|k: int, m: int|
            i <= m < generations.len() && 0 <= k < m ==> (#[trigger] generations[k]).pid != (
            #[trigger] generations[m]).pid,
    decreases generations.len() - i,
{
    if i < generations.len() {
        let g = generations[i];
        if g.pid != engine {
            law_accepted_ancestry_is_a_chain(
                generations,
                i + 1,
                g.parent_pid,
                Some(g.creation_ticks),
                daemon,
                engine,
            );
            if i + 1 < generations.len() {
                assert(generations[i + 1].creation_ticks <= g.creation_ticks);
            }
        }
        assert forall|k: int, m: int|
            i <= m < generations.len() && 0 <= k < m implies (#[trigger] generations[k]).pid != (
        #[trigger] generations[m]).pid by {
            if m == i {
                assert(!appeared(generations, i, g.pid));
            }
        }
    }
}

} // verus!
