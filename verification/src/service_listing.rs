//! What the service managers report: which services they know, and which
//! process runs the daemon for them.
use vstd::prelude::*;
use vstd::slice::slice_subrange;
use vstd::utf8::{decode_utf8, encode_utf8, valid_utf8};

use crate::fault::{join2, join3, join4, join5, Fault};
use crate::number::{parse_u32, u32_value};
use crate::outside::{u32_refusal, u32_words, utf8_refusal, utf8_text};
use crate::service_render::LAUNCHD_LABEL;
use crate::text::{
    begins_with, chars_of, equals, equals_ignore_case, find, first_match, lines, lower, pieces,
    position, runs, split, split_lines, split_words, text_of, trim, trim_back, trim_both, trim_end,
    until, without_return, words, CharClass,
};

verus! {

// -- launchd --

/// The last word of a line.
pub open spec fn last_word(line: Seq<char>) -> Option<Seq<char>> {
    let all = words(line, CharClass::AsciiWhiteSpace);
    if all.len() > 0 {
        Some(all.last())
    } else {
        None
    }
}

/// Whether a `launchctl list` output names the daemon's label: as the last word
/// of a line, in full.
pub fn launchd_list_contains_label(stdout: &[u8]) -> (r: Result<bool, Fault>)
    ensures
        match r {
            Ok(listed) => valid_utf8(stdout@) && (listed <==> exists|i: int|
                0 <= i < lines(decode_utf8(stdout@)).len() && last_word(
                    #[trigger] lines(decode_utf8(stdout@))[i],
                ) == Some(LAUNCHD_LABEL@)),
            Err(fault) => !valid_utf8(stdout@) && fault@ == seq![
                "launchctl list output is not UTF-8"@,
                utf8_refusal(stdout@),
            ],
        },
{
    let text = match utf8_text(stdout) {
        Ok(text) => text,
        Err(words) => {
            return Err(Fault::because("launchctl list output is not UTF-8", words));
        },
    };
    let chars = chars_of(text.as_str());
    let rows = split_lines(chars.as_slice());
    let ghost all = lines(decode_utf8(stdout@));
    let mut i: usize = 0;
    while i < rows.len()
        invariant
            i <= rows@.len(),
            valid_utf8(stdout@),
            all == lines(decode_utf8(stdout@)),
            all == runs(rows@),
            forall|k: int| 0 <= k < i ==> last_word(#[trigger] all[k]) != Some(LAUNCHD_LABEL@),
        decreases rows@.len() - i,
    {
        let list = split_words(rows[i], CharClass::AsciiWhiteSpace);
        assert(all[i as int] == rows@[i as int]@);
        assert(runs(list@).len() == list@.len());
        if list.len() > 0 {
            let last = list[list.len() - 1];
            assert(runs(list@).last() == last@);
            if equals(last, LAUNCHD_LABEL) {
                assert(last_word(all[i as int]) == Some(LAUNCHD_LABEL@));
                return Ok(true);
            }
        }
        i = i + 1;
    }
    Ok(false)
}

/// The value of a line that reports a process: `"PID" = value;`.
pub open spec fn pid_field(line: Seq<char>) -> Option<Seq<char>> {
    let line = trim_both(line, CharClass::WhiteSpace);
    let n = until(line, CharClass::Just('='));
    if n < line.len() && trim_both(
        trim_both(line.take(n as int), CharClass::WhiteSpace),
        CharClass::Just('"'),
    ) == "PID"@ {
        Some(
            trim_both(
                trim_back(
                    trim_both(line.skip(n as int + 1), CharClass::WhiteSpace),
                    CharClass::Just(';'),
                ),
                CharClass::WhiteSpace,
            ),
        )
    } else {
        None
    }
}

/// The process of the job that these lines report, after `pid` was reported
/// already.
pub open spec fn job_pid(rows: Seq<Seq<char>>, pid: Option<nat>) -> Result<
    Option<nat>,
    Seq<Seq<char>>,
>
    decreases rows.len(),
{
    if rows.len() == 0 {
        Ok(pid)
    } else {
        match pid_field(rows[0]) {
            None => job_pid(rows.skip(1), pid),
            Some(value) => if pid is Some {
                Err(seq!["launchctl job output contained more than one PID field"@])
            } else {
                match u32_value(value) {
                    None => Err(
                        seq![
                            "launchctl reported invalid job PID '"@ + value + "'"@,
                            u32_refusal(value),
                        ],
                    ),
                    Some(parsed) => if parsed == 0 {
                        Err(seq!["launchctl reported reserved job PID zero"@])
                    } else {
                        job_pid(rows.skip(1), Some(parsed))
                    },
                }
            },
        }
    }
}

/// The value of an optional process number.
pub open spec fn pid_value(pid: Option<u32>) -> Option<nat> {
    match pid {
        Some(p) => Some(p as nat),
        None => None,
    }
}

fn pid_field_of<'a>(line: &'a [char]) -> (r: Option<&'a [char]>)
    ensures
        crate::text::slice_view(r) == pid_field(line@),
{
    let line = trim(line, CharClass::WhiteSpace);
    let n: usize = position(line, CharClass::Just('='));
    if n == line.len() {
        return None;
    }
    let field = slice_subrange(line, 0, n);
    assert(field@ =~= line@.take(n as int));
    if !equals(trim(trim(field, CharClass::WhiteSpace), CharClass::Just('"')), "PID") {
        return None;
    }
    let value = slice_subrange(line, n + 1, line.len());
    assert(value@ =~= line@.skip(n as int + 1));
    Some(
        trim(
            trim_end(trim(value, CharClass::WhiteSpace), CharClass::Just(';')),
            CharClass::WhiteSpace,
        ),
    )
}

/// The process of the daemon's job in a `launchctl list <label>` output: the
/// one that its only `PID` field gives, if it has one.
pub fn launchd_job_pid(stdout: &[u8]) -> (r: Result<Option<u32>, Fault>)
    ensures
        if valid_utf8(stdout@) {
            match (r, job_pid(lines(decode_utf8(stdout@)), None)) {
                (Ok(pid), Ok(value)) => pid_value(pid) == value,
                (Err(fault), Err(messages)) => fault@ == messages,
                _ => false,
            }
        } else {
            r matches Err(fault) && fault@ == seq![
                "launchctl job output is not UTF-8"@,
                utf8_refusal(stdout@),
            ]
        },
{
    let text = match utf8_text(stdout) {
        Ok(text) => text,
        Err(words) => {
            return Err(Fault::because("launchctl job output is not UTF-8", words));
        },
    };
    let chars = chars_of(text.as_str());
    let rows = split_lines(chars.as_slice());
    let ghost all = lines(decode_utf8(stdout@));
    let mut pid: Option<u32> = None;
    let mut i: usize = 0;
    assert(all.skip(0) =~= all);
    while i < rows.len()
        invariant
            i <= rows@.len(),
            valid_utf8(stdout@),
            all == lines(decode_utf8(stdout@)),
            all == runs(rows@),
            job_pid(all.skip(i as int), pid_value(pid)) == job_pid(all, None),
        decreases rows@.len() - i,
    {
        let ghost here = all.skip(i as int);
        assert(here[0] == rows@[i as int]@);
        assert(here.skip(1) =~= all.skip(i + 1));
        if let Some(value) = pid_field_of(rows[i]) {
            if pid.is_some() {
                return Err(Fault::of("launchctl job output contained more than one PID field"));
            }
            let parsed: u32 = match parse_u32(value) {
                Some(parsed) => parsed,
                None => {
                    let text = text_of(value);
                    return Err(
                        Fault::because(
                            join3("launchctl reported invalid job PID '", text.as_str(), "'").as_str(),
                            u32_words(text.as_str()),
                        ),
                    );
                },
            };
            if parsed == 0 {
                return Err(Fault::of("launchctl reported reserved job PID zero"));
            }
            pid = Some(parsed);
        }
        i = i + 1;
    }
    assert(all.skip(i as int) =~= Seq::empty());
    Ok(pid)
}

// -- systemd --

/// The process of a unit: what `systemctl show --property=MainPID --value`
/// prints, where zero stands for none.
pub fn systemd_main_pid(stdout: &[u8]) -> (r: Result<Option<u32>, Fault>)
    ensures
        if !valid_utf8(stdout@) {
            r matches Err(fault) && fault@ == seq![
                "systemctl MainPID output is not UTF-8"@,
                utf8_refusal(stdout@),
            ]
        } else {
            let value = trim_both(decode_utf8(stdout@), CharClass::WhiteSpace);
            match u32_value(value) {
                None => r matches Err(fault) && fault@ == seq![
                    "systemctl reported invalid MainPID '"@ + value + "'"@,
                    u32_refusal(value),
                ],
                Some(pid) => r matches Ok(found) && pid_value(found) == (if pid == 0 {
                    None
                } else {
                    Some(pid)
                }),
            }
        },
{
    let text = match utf8_text(stdout) {
        Ok(text) => text,
        Err(words) => {
            return Err(Fault::because("systemctl MainPID output is not UTF-8", words));
        },
    };
    let chars = chars_of(text.as_str());
    let value = trim(chars.as_slice(), CharClass::WhiteSpace);
    match parse_u32(value) {
        None => {
            let text = text_of(value);
            Err(
                Fault::because(
                    join3("systemctl reported invalid MainPID '", text.as_str(), "'").as_str(),
                    u32_words(text.as_str()),
                ),
            )
        },
        Some(pid) => if pid == 0 {
            Ok(None)
        } else {
            Ok(Some(pid))
        },
    }
}

/// What `systemctl` is asked about a unit.
#[derive(Clone, Copy, Debug, PartialEq, Eq, Structural)]
pub enum SystemdQuestion {
    IsActive,
    IsEnabled,
}

/// The name of a question.
pub open spec fn question_name(question: SystemdQuestion) -> Seq<char> {
    match question {
        SystemdQuestion::IsActive => "is-active"@,
        SystemdQuestion::IsEnabled => "is-enabled"@,
    }
}

/// The states that answer a question with yes.
pub open spec fn affirms(question: SystemdQuestion, state: Seq<char>) -> bool {
    match question {
        SystemdQuestion::IsActive => state == "active"@ || state == "reloading"@,
        SystemdQuestion::IsEnabled => state == "enabled"@,
    }
}

/// The states that answer a question with no.
pub open spec fn denies(question: SystemdQuestion, state: Seq<char>) -> bool {
    match question {
        SystemdQuestion::IsActive => state == "inactive"@ || state == "failed"@ || state
            == "unknown"@ || state == "not-found"@,
        SystemdQuestion::IsEnabled => state == "disabled"@ || state == "static"@ || state
            == "not-found"@,
    }
}

/// The answer to a question about the unit, given whether the command
/// succeeded and what it printed. A state that is none of the known ones is an
/// error, never an answer.
pub fn systemctl_query(question: SystemdQuestion, success: bool, stdout: &str, stderr: &str) -> (r:
    Result<bool, Fault>)
    ensures
        ({
            let state = trim_both(stdout@, CharClass::WhiteSpace);
            let detail = trim_both(stderr@, CharClass::WhiteSpace);
            if success && affirms(question, state) {
                r == Ok::<bool, Fault>(true)
            } else if success {
                r matches Err(fault) && fault@ == seq![
                    "systemctl --user "@ + question_name(question)
                        + " returned unsupported state '"@ + state
                        + "'; refusing to change service state"@,
                ]
            } else if denies(question, state) {
                r == Ok::<bool, Fault>(false)
            } else {
                r matches Err(fault) && fault@ == seq![
                    "systemctl --user "@ + question_name(question)
                        + " could not determine service state: "@ + (if detail.len() == 0 {
                        state
                    } else {
                        detail
                    }),
                ]
            }
        }),
{
    let out = chars_of(stdout);
    let state = trim(out.as_slice(), CharClass::WhiteSpace);
    let name = match question {
        SystemdQuestion::IsActive => "is-active",
        SystemdQuestion::IsEnabled => "is-enabled",
    };
    if success {
        let known = match question {
            SystemdQuestion::IsActive => equals(state, "active") || equals(state, "reloading"),
            SystemdQuestion::IsEnabled => equals(state, "enabled"),
        };
        if known {
            return Ok(true);
        }
        return Err(
            Fault::from_text(
                join5(
                    "systemctl --user ",
                    name,
                    " returned unsupported state '",
                    text_of(state).as_str(),
                    "'; refusing to change service state",
                ),
            ),
        );
    }
    let known = match question {
        SystemdQuestion::IsActive => equals(state, "inactive") || equals(state, "failed") || equals(
            state,
            "unknown",
        ) || equals(state, "not-found"),
        SystemdQuestion::IsEnabled => equals(state, "disabled") || equals(state, "static")
            || equals(state, "not-found"),
    };
    if known {
        return Ok(false);
    }
    let err = chars_of(stderr);
    let detail = trim(err.as_slice(), CharClass::WhiteSpace);
    let shown = if detail.len() == 0 {
        text_of(state)
    } else {
        text_of(detail)
    };
    Err(
        Fault::from_text(
            join4(
                "systemctl --user ",
                name,
                " could not determine service state: ",
                shown.as_str(),
            ),
        ),
    )
}

/// The detail of a failed service command: what it printed as an error, else
/// what it printed, else its exit status.
pub fn service_command_failure_detail(stderr: &str, stdout: &str, status: &str) -> (r: String)
    ensures
        r@ == (if trim_both(stderr@, CharClass::WhiteSpace).len() > 0 {
            trim_both(stderr@, CharClass::WhiteSpace)
        } else if trim_both(stdout@, CharClass::WhiteSpace).len() > 0 {
            trim_both(stdout@, CharClass::WhiteSpace)
        } else {
            "exit status "@ + status@
        }),
{
    let err = chars_of(stderr);
    let detail = trim(err.as_slice(), CharClass::WhiteSpace);
    if detail.len() > 0 {
        return text_of(detail);
    }
    let out = chars_of(stdout);
    let printed = trim(out.as_slice(), CharClass::WhiteSpace);
    if printed.len() > 0 {
        return text_of(printed);
    }
    join2("exit status ", status)
}

// -- Windows Task Scheduler --

/// Bytes as the characters with the same numbers.
pub open spec fn latin(bytes: Seq<u8>) -> Seq<char> {
    Seq::new(bytes.len(), |i: int| bytes[i] as char)
}

fn latin_chars(bytes: &[u8]) -> (r: Vec<char>)
    ensures
        r@ == latin(bytes@),
{
    let mut out: Vec<char> = Vec::new();
    let mut i: usize = 0;
    while i < bytes.len()
        invariant
            i <= bytes@.len(),
            out@.len() == i,
            forall|k: int| 0 <= k < i ==> #[trigger] out@[k] == bytes@[k] as char,
        decreases bytes@.len() - i,
    {
        out.push(bytes[i] as char);
        i = i + 1;
    }
    assert(out@ =~= latin(bytes@));
    out
}

/// A byte-order mark in UTF-8.
pub open spec fn byte_order_mark() -> Seq<char> {
    seq!['\u{ef}', '\u{bb}', '\u{bf}']
}

/// A listing row without its line end and, in the first row, without a
/// byte-order mark.
pub open spec fn listing_row(row: Seq<char>, first: bool) -> Seq<char> {
    let line = without_return(row);
    if first && begins_with(line, byte_order_mark()) {
        line.skip(3)
    } else {
        line
    }
}

/// The task name of a row: its first field, in quotes.
pub open spec fn listed_name(line: Seq<char>) -> Result<Seq<char>, Seq<char>> {
    if line.len() == 0 || line[0] != '"' {
        Err("Task Scheduler CSV listing contained a non-CSV row"@)
    } else {
        match first_match(line.skip(1), "\","@) {
            None => Err("Task Scheduler CSV listing contained an unterminated task name"@),
            Some(end) => Ok(line.skip(1).take(end)),
        }
    }
}

/// Whether these rows list a task, after `found` was decided.
pub open spec fn listing_has(rows: Seq<Seq<char>>, first: bool, name: Seq<char>, found: bool) -> Result<
    bool,
    Seq<char>,
>
    decreases rows.len(),
{
    if rows.len() == 0 {
        Ok(found)
    } else {
        let line = listing_row(rows[0], first);
        if line.len() == 0 {
            listing_has(rows.skip(1), false, name, found)
        } else {
            match listed_name(line) {
                Err(message) => Err(message),
                Ok(listed) => if lower(listed) != lower(name) {
                    listing_has(rows.skip(1), false, name, found)
                } else if found {
                    Err("Task Scheduler CSV listing contained the service task more than once"@)
                } else {
                    listing_has(rows.skip(1), false, name, true)
                },
            }
        }
    }
}

fn trimmed_row<'a>(row: &'a [char], first: bool) -> (r: &'a [char])
    ensures
        r@ == listing_row(row@, first),
{
    let n: usize = row.len();
    let line = if n > 0 && row[n - 1] == '\r' {
        slice_subrange(row, 0, n - 1)
    } else {
        row
    };
    assert(line@ =~= without_return(row@));
    if first && line.len() >= 3 && line[0] == '\u{ef}' && line[1] == '\u{bb}' && line[2]
        == '\u{bf}' {
        assert(line@.take(3) =~= byte_order_mark());
        let rest = slice_subrange(line, 3, line.len());
        assert(rest@ =~= line@.skip(3));
        rest
    } else {
        proof {
            if first && begins_with(line@, byte_order_mark()) {
                let head = line@.take(3);
                assert(head[0] == line@[0] && head[1] == line@[1] && head[2] == line@[2]);
                assert(head[0] == '\u{ef}' && head[1] == '\u{bb}' && head[2] == '\u{bf}');
            }
        }
        line
    }
}

/// Whether a `schtasks /Query /FO CSV /NH` output lists a task, exactly once
/// and by its whole name in any case.
pub fn task_listing_contains_name(listing: &[u8], expected_name: &str) -> (r: Result<bool, Fault>)
    ensures
        match (
            r,
            listing_has(
                pieces(latin(listing@), CharClass::Just('\n')),
                true,
                latin(encode_utf8(expected_name@)),
                false,
            ),
        ) {
            (Ok(listed), Ok(found)) => listed == found,
            (Err(fault), Err(message)) => fault@ == seq![message],
            _ => false,
        },
{
    let chars = latin_chars(listing);
    let name_chars = latin_chars(expected_name.as_bytes());
    let name = text_of(name_chars.as_slice());
    let rows = split(chars.as_slice(), CharClass::Just('\n'));
    let ghost all = pieces(latin(listing@), CharClass::Just('\n'));
    let mut found = false;
    let mut i: usize = 0;
    assert(all.skip(0) =~= all);
    while i < rows.len()
        invariant
            i <= rows@.len(),
            all == runs(rows@),
            listing_has(all.skip(i as int), i == 0, name@, found) == listing_has(
                all,
                true,
                name@,
                false,
            ),
            name@ == latin(encode_utf8(expected_name@)),
            all == pieces(latin(listing@), CharClass::Just('\n')),
        decreases rows@.len() - i,
    {
        let ghost here = all.skip(i as int);
        assert(here[0] == rows@[i as int]@);
        assert(here.skip(1) =~= all.skip(i + 1));
        let line = trimmed_row(rows[i], i == 0);
        i = i + 1;
        if line.len() == 0 {
            continue ;
        }
        if line[0] != '"' {
            return Err(Fault::of("Task Scheduler CSV listing contained a non-CSV row"));
        }
        let rest = slice_subrange(line, 1, line.len());
        assert(rest@ =~= line@.skip(1));
        let end: usize = match find(rest, "\",") {
            Some(end) => end,
            None => {
                return Err(
                    Fault::of("Task Scheduler CSV listing contained an unterminated task name"),
                );
            },
        };
        let listed = slice_subrange(rest, 0, end);
        assert(listed@ =~= rest@.take(end as int));
        if equals_ignore_case(listed, name.as_str()) {
            if found {
                return Err(
                    Fault::of(
                        "Task Scheduler CSV listing contained the service task more than once",
                    ),
                );
            }
            found = true;
        }
    }
    assert(all.skip(i as int) =~= Seq::empty());
    Ok(found)
}

} // verus!
