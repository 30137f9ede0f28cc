//! What is written in the forms that other programs use is read back.
use vstd::prelude::*;
use vstd::utf8::{decode_utf8, valid_utf8};

use crate::codex_process::{candidate_name, ProcessInspection};
use crate::fault::Fault;
use crate::number::{
    decimal, digit_value, i32_value, law_decimal_round_trip, lemma_decimal_value, u32_value,
};
use crate::outside::utf8_lossy;
use crate::service_listing::{
    job_pid, listed_name, listing_has, listing_row, pid_field, service_command_failure_detail,
    systemctl_query, systemd_main_pid, SystemdQuestion,
};
use crate::task_proof::{process_row, WindowsProcessGeneration};
use crate::text::{
    begins_with, first_match, lemma_find_from, lines, lower, nonempty, pieces, texts, trim_back,
    trim_both, trim_front, until, words, CharClass,
};
use crate::unix_process::{
    bytes_until_zero, classify_macos_process_arguments, effective_uid, first_with_prefix,
    leading_zeros, linux_effective_uid, linux_process_arguments, linux_process_file_failure,
    little_endian, lossy_texts, macos_arguments, macos_candidates, macos_row,
    parse_macos_process_arguments, process_vanished, terminated_texts, zero_separated, LinuxProbe,
    LinuxReply, LinuxStep,
};

verus! {

// -- Bytes ended by zeros --

/// Some texts, each ended by a zero byte.
pub open spec fn ended_by_zeros(list: Seq<Seq<u8>>) -> Seq<u8>
    decreases list.len(),
{
    if list.len() == 0 {
        Seq::empty()
    } else {
        list[0] + seq![0u8] + ended_by_zeros(list.skip(1))
    }
}

/// Whether a text holds no zero byte.
pub open spec fn without_zeros(bytes: Seq<u8>) -> bool {
    forall|i: int| 0 <= i < bytes.len() ==> #[trigger] bytes[i] != 0
}

proof fn lemma_until_zero(a: Seq<u8>, rest: Seq<u8>)
    requires
        without_zeros(a),
    ensures
        bytes_until_zero(a + seq![0u8] + rest) == a.len(),
        (a + seq![0u8] + rest).take(a.len() as int) == a,
        (a + seq![0u8] + rest).skip(a.len() as int + 1) == rest,
    decreases a.len(),
{
    let whole = a + seq![0u8] + rest;
    assert(whole.take(a.len() as int) =~= a);
    assert(whole.skip(a.len() as int + 1) =~= rest);
    if a.len() > 0 {
        assert(whole[0] == a[0]);
        assert(whole.skip(1) =~= a.skip(1) + seq![0u8] + rest);
        assert(without_zeros(a.skip(1))) by {
            assert forall|i: int| 0 <= i < a.skip(1).len() implies #[trigger] a.skip(1)[i] != 0 by {
                assert(a.skip(1)[i] == a[i + 1]);
            }
        }
        lemma_until_zero(a.skip(1), rest);
    }
}

/// Arguments that are written one after the other, each ended by a zero byte, are read
/// as these arguments.
pub proof fn law_ended_arguments_are_read_back(list: Seq<Seq<u8>>)
    requires
        forall|i: int|
            0 <= i < list.len() ==> without_zeros(#[trigger] list[i]) && list[i].len() > 0,
    ensures
        zero_separated(ended_by_zeros(list)) == list,
    decreases list.len(),
{
    if list.len() == 0 {
        assert(zero_separated(Seq::<u8>::empty()) =~= list);
    } else {
        let rest = ended_by_zeros(list.skip(1));
        assert forall|i: int| 0 <= i < list.skip(1).len() implies without_zeros(
            #[trigger] list.skip(1)[i],
        ) && list.skip(1)[i].len() > 0 by {
            assert(list.skip(1)[i] == list[i + 1]);
        }
        law_ended_arguments_are_read_back(list.skip(1));
        assert(without_zeros(list[0]));
        lemma_until_zero(list[0], rest);
        assert(seq![list[0]] + list.skip(1) =~= list);
    }
}

proof fn lemma_terminated(list: Seq<Seq<u8>>, tail: Seq<u8>)
    requires
        forall|i: int| 0 <= i < list.len() ==> without_zeros(#[trigger] list[i]),
    ensures
        terminated_texts(ended_by_zeros(list) + tail, list.len()) == Some(lossy_texts(list)),
    decreases list.len(),
{
    if list.len() == 0 {
        assert(lossy_texts(list) =~= Seq::<Seq<char>>::empty());
    } else {
        let rest = ended_by_zeros(list.skip(1)) + tail;
        assert forall|i: int| 0 <= i < list.skip(1).len() implies without_zeros(
            #[trigger] list.skip(1)[i],
        ) by {
            assert(list.skip(1)[i] == list[i + 1]);
        }
        lemma_terminated(list.skip(1), tail);
        assert(without_zeros(list[0]));
        lemma_until_zero(list[0], rest);
        assert(ended_by_zeros(list) + tail =~= list[0] + seq![0u8] + rest);
        assert(seq![utf8_lossy(list[0])] + lossy_texts(list.skip(1)) =~= lossy_texts(list));
    }
}

/// So many zero bytes.
pub open spec fn zeros(n: nat) -> Seq<u8> {
    Seq::new(n, |i: int| 0u8)
}

proof fn lemma_leading(n: nat, rest: Seq<u8>)
    requires
        rest.len() > 0,
        rest[0] != 0,
    ensures
        leading_zeros(zeros(n) + rest) == n,
    decreases n,
{
    if n > 0 {
        assert((zeros(n) + rest)[0] == 0);
        assert((zeros(n) + rest).skip(1) =~= zeros((n - 1) as nat) + rest);
        lemma_leading((n - 1) as nat, rest);
    } else {
        assert(zeros(0) + rest =~= rest);
    }
}

/// A buffer of a count, the executable's path, padding and so many ended arguments is
/// read as these arguments, whatever follows them.
pub proof fn law_a_process_buffer_is_read_back(
    count: Seq<u8>,
    path: Seq<u8>,
    padding: nat,
    list: Seq<Seq<u8>>,
    tail: Seq<u8>,
)
    requires
        count.len() == 4,
        little_endian(count) == list.len(),
        0 < list.len() <= i32::MAX,
        without_zeros(path),
        forall|i: int| 0 <= i < list.len() ==> without_zeros(#[trigger] list[i]),
        list[0].len() > 0,
    ensures
        macos_arguments(
            count + (path + seq![0u8] + (zeros(padding) + (ended_by_zeros(list) + tail))),
        ) == Some(lossy_texts(list)),
{
    let texts = ended_by_zeros(list) + tail;
    let padded = zeros(padding) + texts;
    let body = path + seq![0u8] + padded;
    let buffer = count + body;
    assert(buffer.skip(4) =~= body);
    assert(little_endian(buffer) == little_endian(count));
    lemma_until_zero(path, padded);
    assert(without_zeros(list[0]));
    assert(texts[0] == list[0][0]);
    lemma_leading(padding, texts);
    assert(padded.skip(padding as int) =~= texts);
    lemma_terminated(list, tail);
}

/// A buffer whose count is not positive, or that is cut off, is not read.
pub proof fn law_a_broken_process_buffer_is_refused(buffer: &[u8], r: Option<Vec<String>>)
    requires
        call_ensures(parse_macos_process_arguments, (buffer,), r),
        buffer@.len() < 4 || little_endian(buffer@) == 0 || little_endian(buffer@) > i32::MAX
            || without_zeros(buffer@.skip(4)),
    ensures
        r is None,
{
    if buffer@.len() >= 4 && without_zeros(buffer@.skip(4)) {
        lemma_no_zero(buffer@.skip(4));
    }
}

proof fn lemma_no_zero(a: Seq<u8>)
    requires
        without_zeros(a),
    ensures
        bytes_until_zero(a) == a.len(),
    decreases a.len(),
{
    if a.len() > 0 {
        assert(without_zeros(a.skip(1))) by {
            assert forall|i: int| 0 <= i < a.skip(1).len() implies #[trigger] a.skip(1)[i] != 0 by {
                assert(a.skip(1)[i] == a[i + 1]);
            }
        }
        lemma_no_zero(a.skip(1));
    }
}

// -- Processes --

/// A process of the user whose name may be Codex's is inspected to its arguments; of
/// any other nothing more is read.
pub proof fn law_an_own_process_is_inspected(
    uid: u32,
    probe: LinuxProbe,
    reply: LinuxReply,
    step: LinuxStep,
)
    requires
        call_ensures(linux_process_arguments, (uid, probe, reply), step),
    ensures
        probe == LinuxProbe::Owner ==> (reply matches LinuxReply::Owner(owner) ==> if owner == uid {
            step == LinuxStep::Read(LinuxProbe::CommandName)
        } else {
            step == LinuxStep::Done(ProcessInspection::Irrelevant)
        }),
        probe == LinuxProbe::CommandName ==> (reply matches LinuxReply::Text(name) ==> (
        candidate_name(trim_both(name@, CharClass::WhiteSpace)) <==> step == LinuxStep::Read(
            LinuxProbe::Status,
        ))),
        probe == LinuxProbe::Status ==> (reply matches LinuxReply::Text(status) ==> (effective_uid(
            status@,
        ) == Some(uid as nat) <==> step == LinuxStep::Read(LinuxProbe::CommandLine))),
        probe == LinuxProbe::CommandLine ==> (reply matches LinuxReply::Bytes(bytes) ==> {
            &&& zero_separated(bytes@).len() > 0 ==> (step matches LinuxStep::Done(
                ProcessInspection::Arguments(list),
            ) && texts(list@) == lossy_texts(zero_separated(bytes@)))
            &&& zero_separated(bytes@).len() == 0 ==> step == LinuxStep::Done(
                ProcessInspection::Irrelevant,
            )
        }),
        reply is Vanished && (probe == LinuxProbe::Owner || probe == LinuxProbe::Directory) <==> step
            == LinuxStep::Done(ProcessInspection::Vanished),
        reply is Vanished && (probe == LinuxProbe::CommandName || probe == LinuxProbe::Status
            || probe == LinuxProbe::CommandLine) <==> step == LinuxStep::Read(
            LinuxProbe::Directory,
        ),
        reply is Failed ==> step == LinuxStep::Done(ProcessInspection::Failed),
{
    if let LinuxReply::Bytes(bytes) = reply {
        assert(lossy_texts(zero_separated(bytes@)).len() == zero_separated(bytes@).len());
    }
}

/// A process is gone exactly if nothing was found or the system says so.
pub proof fn law_a_gone_process_is_told(
    not_found: bool,
    unix: bool,
    os_error: Option<i32>,
    file: bool,
    directory: bool,
    r: bool,
    inspection: ProcessInspection,
)
    requires
        call_ensures(process_vanished, (not_found, unix, os_error), r),
        call_ensures(linux_process_file_failure, (file, directory), inspection),
    ensures
        not_found ==> r,
        !not_found && !unix ==> !r,
        !not_found && unix ==> (r <==> os_error == Some(3i32)),
        inspection is Vanished <==> file && directory,
        inspection is Vanished || inspection is Failed,
{
}

/// A listed process is inspected by its own arguments exactly if their executable may be
/// Codex's.
pub proof fn law_a_listed_process_is_looked_at_again(
    arguments: Option<Vec<String>>,
    r: ProcessInspection,
)
    requires
        call_ensures(classify_macos_process_arguments, (arguments,), r),
    ensures
        r is Failed <==> arguments is None || arguments->0@.len() == 0,
        r matches ProcessInspection::Arguments(list) ==> arguments == Some(list) && candidate_name(
            list@[0]@,
        ),
        arguments matches Some(list) ==> (list@.len() > 0 && candidate_name(list@[0]@) ==> r
            is Arguments),
        !(r is Vanished),
{
}

/// The processes of a listing that are looked at are exactly those of the user whose
/// name may be Codex's.
pub proof fn law_candidates_are_the_users_own(rows: Seq<Seq<char>>, uid: u32, pid: int)
    ensures
        macos_candidates(rows, uid).contains(pid) <==> exists|i: int|
            0 <= i < rows.len() && (#[trigger] macos_row(rows[i]) matches Some((p, owner, command))
                && p == pid && owner == uid && candidate_name(command)),
    decreases rows.len(),
{
    if rows.len() > 0 {
        let front = rows.drop_last();
        law_candidates_are_the_users_own(front, uid, pid);
        let before = macos_candidates(front, uid);
        let all = macos_candidates(rows, uid);
        if all.contains(pid) {
            let k = choose|k: int| 0 <= k < all.len() && all[k] == pid;
            if k < before.len() {
                assert(before[k] == pid);
                assert(before.contains(pid));
                let i = choose|i: int|
                    0 <= i < front.len() && (#[trigger] macos_row(front[i]) matches Some(
                        (p, owner, command),
                    ) && p == pid && owner == uid && candidate_name(command));
                assert(front[i] == rows[i]);
                assert(macos_row(rows[i]) is Some);
            } else {
                assert(macos_row(rows[rows.len() - 1]) is Some);
            }
        }
        if exists|i: int|
            0 <= i < rows.len() && (#[trigger] macos_row(rows[i]) matches Some((p, owner, command))
                && p == pid && owner == uid && candidate_name(command)) {
            let i = choose|i: int|
                0 <= i < rows.len() && (#[trigger] macos_row(rows[i]) matches Some(
                    (p, owner, command),
                ) && p == pid && owner == uid && candidate_name(command));
            if i < front.len() {
                assert(front[i] == rows[i]);
                assert(macos_row(front[i]) is Some);
                assert(before.contains(pid));
                let k = choose|k: int| 0 <= k < before.len() && before[k] == pid;
                assert(all[k] == pid);
            } else {
                assert(all.last() == pid);
                assert(all[all.len() - 1] == pid);
            }
        }
    }
}

// -- Numbers in lines --

proof fn lemma_until_mark(a: Seq<char>, b: Seq<char>, class: CharClass)
    requires
        forall|i: int| 0 <= i < a.len() ==> !class.has(#[trigger] a[i]),
        b.len() > 0 ==> class.has(b[0]),
    ensures
        until(a + b, class) == a.len(),
        (a + b).take(a.len() as int) == a,
        (a + b).skip(a.len() as int) == b,
    decreases a.len(),
{
    assert((a + b).take(a.len() as int) =~= a);
    assert((a + b).skip(a.len() as int) =~= b);
    if a.len() > 0 {
        assert((a + b)[0] == a[0]);
        assert((a + b).skip(1) =~= a.skip(1) + b);
        assert forall|i: int| 0 <= i < a.skip(1).len() implies !class.has(
            #[trigger] a.skip(1)[i],
        ) by {
            assert(a.skip(1)[i] == a[i + 1]);
        }
        lemma_until_mark(a.skip(1), b, class);
    } else {
        assert(a + b =~= b);
    }
}

proof fn lemma_decimal_is_plain(n: nat)
    ensures
        decimal(n).len() > 0,
        forall|i: int|
            #![trigger decimal(n)[i]]
            0 <= i < decimal(n).len() ==> '0' <= decimal(n)[i] <= '9',
{
    lemma_decimal_value(n);
    assert forall|i: int| 0 <= i < decimal(n).len() implies '0' <= #[trigger] decimal(n)[i]
        <= '9' by {
        assert(digit_value(decimal(n)[i], 10) is Some);
    }
}

/// A row of a listing, with a process, its user and its command, is read as these.
pub proof fn law_a_process_row_is_read_back(pid: u32, uid: u32, command: Seq<char>)
    requires
        pid <= i32::MAX,
        command.len() > 0,
        !CharClass::WhiteSpace.has(command[0]),
    ensures
        macos_row(
            decimal(pid as nat) + (seq![' '] + (decimal(uid as nat) + (seq![' '] + command))),
        ) == Some((pid as int, uid as nat, command)),
{
    let class = CharClass::WhiteSpace;
    let a = decimal(pid as nat);
    let b = decimal(uid as nat);
    lemma_decimal_is_plain(pid as nat);
    lemma_decimal_is_plain(uid as nat);
    let last = seq![' '] + command;
    let rest = b + last;
    let middle = seq![' '] + rest;
    let line = a + middle;
    assert(line[0] == a[0]);
    assert(trim_front(line, class) == line);
    lemma_until_mark(a, middle, class);
    assert(middle[0] == ' ');
    assert(middle.skip(1) =~= rest);
    assert(rest[0] == b[0]);
    assert(trim_front(rest, class) == rest);
    assert(trim_front(middle, class) == rest);
    lemma_until_mark(b, last, class);
    assert(last[0] == ' ');
    assert(last.skip(1) =~= command);
    assert(trim_front(command, class) == command);
    assert(trim_front(last, class) == command);
    law_decimal_round_trip(pid as u64);
    law_decimal_round_trip(uid as u64);
    lemma_decimal_value(pid as nat);
    assert(a[0] != '-');
    assert(i32_value(a) == Some(pid as int));
}

proof fn lemma_first_piece(a: Seq<char>, b: Seq<char>, class: CharClass, mark: char)
    requires
        forall|i: int| 0 <= i < a.len() ==> !class.has(#[trigger] a[i]),
        class.has(mark),
    ensures
        pieces(a + (seq![mark] + b), class) == seq![a] + pieces(b, class),
{
    let rest = seq![mark] + b;
    assert(rest[0] == mark);
    lemma_until_mark(a, rest, class);
    assert((a + rest).skip(a.len() as int + 1) =~= b);
}

proof fn lemma_only_piece(a: Seq<char>, class: CharClass)
    requires
        forall|i: int| 0 <= i < a.len() ==> !class.has(#[trigger] a[i]),
    ensures
        pieces(a, class) == seq![a],
{
    lemma_until_mark(a, Seq::<char>::empty(), class);
    assert(a + Seq::<char>::empty() =~= a);
}

/// A row of the ownership proof is read as the process that it names.
pub proof fn law_a_proof_row_is_read_back(tag: Seq<char>, pid: u32, parent: u32, ticks: u64)
    requires
        pid > 0,
        ticks > 0,
        forall|i: int| 0 <= i < tag.len() ==> #[trigger] tag[i] != '\t',
    ensures
        process_row(
            tag + (seq!['\t'] + (decimal(pid as nat) + (seq!['\t'] + (decimal(parent as nat) + (
            seq!['\t'] + decimal(ticks as nat)))))),
            tag,
        ) == Ok::<WindowsProcessGeneration, Seq<Seq<char>>>(
            WindowsProcessGeneration { pid, parent_pid: parent, creation_ticks: ticks },
        ),
{
    let class = CharClass::Just('\t');
    lemma_decimal_is_plain(pid as nat);
    lemma_decimal_is_plain(parent as nat);
    lemma_decimal_is_plain(ticks as nat);
    let d = decimal(ticks as nat);
    let c = decimal(parent as nat) + (seq!['\t'] + d);
    let b = decimal(pid as nat) + (seq!['\t'] + c);
    lemma_only_piece(d, class);
    lemma_first_piece(decimal(parent as nat), d, class, '\t');
    lemma_first_piece(decimal(pid as nat), c, class, '\t');
    lemma_first_piece(tag, b, class, '\t');
    let fields = pieces(tag + (seq!['\t'] + b), class);
    assert(fields =~= seq![tag, decimal(pid as nat), decimal(parent as nat), d]);
    law_decimal_round_trip(pid as u64);
    law_decimal_round_trip(parent as u64);
    law_decimal_round_trip(ticks);
}

proof fn lemma_nonempty_joined(a: Seq<Seq<char>>, b: Seq<Seq<char>>)
    ensures
        nonempty(a + b) == nonempty(a) + nonempty(b),
    decreases b.len(),
{
    if b.len() == 0 {
        assert(a + b =~= a);
        assert(nonempty(a) + nonempty(b) =~= nonempty(a));
    } else {
        lemma_nonempty_joined(a, b.drop_last());
        assert((a + b).drop_last() =~= a + b.drop_last());
        assert((a + b).last() == b.last());
        if b.last().len() != 0 {
            assert((nonempty(a) + nonempty(b.drop_last())).push(b.last()) =~= nonempty(a)
                + nonempty(b.drop_last()).push(b.last()));
        }
    }
}

proof fn lemma_first_with_prefix(list: Seq<Seq<char>>, prefix: Seq<char>, k: int)
    requires
        0 <= k < list.len(),
        begins_with(list[k], prefix),
        forall|i: int| 0 <= i < k ==> !begins_with(#[trigger] list[i], prefix),
    ensures
        first_with_prefix(list, prefix) == Some(list[k].skip(prefix.len() as int)),
    decreases k,
{
    if k > 0 {
        assert(!begins_with(list[0], prefix));
        assert forall|i: int| 0 <= i < k - 1 implies !begins_with(
            #[trigger] list.skip(1)[i],
            prefix,
        ) by {
            assert(list.skip(1)[i] == list[i + 1]);
        }
        assert(list.skip(1)[k - 1] == list[k]);
        lemma_first_with_prefix(list.skip(1), prefix, k - 1);
    }
}

/// The effective user of a process is the second number of the first line on users.
pub proof fn law_the_effective_user_is_read(
    status: &str,
    k: int,
    owner_id: u32,
    effective: u32,
    rest: Seq<char>,
    r: Option<u32>,
)
    requires
        call_ensures(linux_effective_uid, (status,), r),
        0 <= k < lines(status@).len(),
        lines(status@)[k] == "Uid:"@ + (seq!['\t'] + (decimal(owner_id as nat) + (seq!['\t'] + (decimal(
            effective as nat,
        ) + (seq!['\t'] + rest))))),
        forall|i: int| 0 <= i < k ==> !begins_with(#[trigger] lines(status@)[i], "Uid:"@),
    ensures
        r == Some(effective),
{
    let class = CharClass::WhiteSpace;
    lemma_decimal_is_plain(owner_id as nat);
    lemma_decimal_is_plain(effective as nat);
    let list = lines(status@);
    let c = decimal(effective as nat) + (seq!['\t'] + rest);
    let b = decimal(owner_id as nat) + (seq!['\t'] + c);
    let fields = seq!['\t'] + b;
    assert(list[k].take("Uid:"@.len() as int) =~= "Uid:"@);
    assert(list[k].skip("Uid:"@.len() as int) =~= fields);
    lemma_first_with_prefix(list, "Uid:"@, k);
    let none = Seq::<char>::empty();
    lemma_first_piece(none, b, class, '\t');
    assert(none + (seq!['\t'] + b) =~= fields);
    lemma_first_piece(decimal(owner_id as nat), c, class, '\t');
    lemma_first_piece(decimal(effective as nat), rest, class, '\t');
    let front = seq![none, decimal(owner_id as nat), decimal(effective as nat)];
    assert(pieces(fields, class) =~= front + pieces(rest, class));
    lemma_nonempty_joined(front, pieces(rest, class));
    reveal_with_fuel(nonempty, 4);
    assert(front.drop_last() =~= seq![none, decimal(owner_id as nat)]);
    assert(front.drop_last().drop_last() =~= seq![none]);
    assert(front.drop_last().drop_last().drop_last() =~= Seq::<Seq<char>>::empty());
    assert(nonempty(front) =~= seq![decimal(owner_id as nat), decimal(effective as nat)]);
    assert(words(fields, class)[1] == decimal(effective as nat));
    law_decimal_round_trip(effective as u64);
}

// -- Service managers --

/// A unit is active, or enabled, exactly where a command that succeeded says so, and
/// not where one that failed says so in a known way; every other answer is refused.
pub proof fn law_a_unit_is_what_its_manager_says(
    success: bool,
    stdout: &str,
    stderr: &str,
    active: Result<bool, Fault>,
    enabled: Result<bool, Fault>,
)
    requires
        call_ensures(systemctl_query, (SystemdQuestion::IsActive, success, stdout, stderr), active),
        call_ensures(
            systemctl_query,
            (SystemdQuestion::IsEnabled, success, stdout, stderr),
            enabled,
        ),
    ensures
        ({
            let state = trim_both(stdout@, CharClass::WhiteSpace);
            &&& active == Ok::<bool, Fault>(true) <==> success && (state == "active"@ || state
                == "reloading"@)
            &&& active == Ok::<bool, Fault>(false) <==> !success && (state == "inactive"@ || state
                == "failed"@ || state == "unknown"@ || state == "not-found"@)
            &&& enabled == Ok::<bool, Fault>(true) <==> success && state == "enabled"@
            &&& enabled == Ok::<bool, Fault>(false) <==> !success && (state == "disabled"@ || state
                == "static"@ || state == "not-found"@)
        }),
{
}

/// What failed is told by what was printed as an error, else by what was printed, and
/// never by nothing.
pub proof fn law_a_failed_command_is_told(stderr: &str, stdout: &str, status: &str, r: String)
    requires
        call_ensures(service_command_failure_detail, (stderr, stdout, status), r),
    ensures
        ({
            let error = trim_both(stderr@, CharClass::WhiteSpace);
            let printed = trim_both(stdout@, CharClass::WhiteSpace);
            &&& error.len() > 0 ==> r@ == error
            &&& error.len() == 0 && printed.len() > 0 ==> r@ == printed
            &&& error.len() == 0 && printed.len() == 0 ==> r@ == "exit status "@ + status@
        }),
{
}

proof fn lemma_trim_number(n: nat, after: Seq<char>)
    requires
        after == Seq::<char>::empty() || after == seq!['\n'],
    ensures
        trim_both(decimal(n) + after, CharClass::WhiteSpace) == decimal(n),
{
    let class = CharClass::WhiteSpace;
    lemma_decimal_is_plain(n);
    let line = decimal(n) + after;
    assert(line[0] == decimal(n)[0]);
    assert(trim_front(line, class) == line);
    assert(trim_back(decimal(n), class) == decimal(n));
    if after.len() == 0 {
        assert(line =~= decimal(n));
    } else {
        assert(line.last() == '\n');
        assert(line.drop_last() =~= decimal(n));
    }
}

/// The process of a unit is the number that is printed, and none where that is zero.
pub proof fn law_a_main_process_is_read_back(stdout: &[u8], pid: u32, r: Result<Option<u32>, Fault>)
    requires
        call_ensures(systemd_main_pid, (stdout,), r),
        valid_utf8(stdout@),
        decode_utf8(stdout@) == decimal(pid as nat) + seq!['\n'],
    ensures
        pid > 0 ==> r == Ok::<Option<u32>, Fault>(Some(pid)),
        pid == 0 ==> r == Ok::<Option<u32>, Fault>(None),
{
    lemma_trim_number(pid as nat, seq!['\n']);
    law_decimal_round_trip(pid as u64);
}

/// A line that reports a process gives its number.
pub proof fn law_a_job_line_is_read_back(pid: u32)
    ensures
        pid_field("\t\"PID\" = "@ + (decimal(pid as nat) + seq![';'])) == Some(decimal(pid as nat)),
{
    let space = CharClass::WhiteSpace;
    let quote = CharClass::Just('"');
    let n = decimal(pid as nat);
    lemma_decimal_is_plain(pid as nat);
    reveal_strlit("\t\"PID\" = ");
    reveal_strlit("PID");
    let line = "\t\"PID\" = "@ + (n + seq![';']);
    assert(line[0] == '\t' && line[1] == '"');
    let inner = line.skip(1);
    assert(inner[0] == '"');
    assert(trim_front(inner, space) == inner);
    assert(trim_front(line, space) == inner);
    assert(inner.last() == ';');
    assert(trim_back(inner, space) == inner);
    assert(trim_both(line, space) == inner);
    let key = seq!['"', 'P', 'I', 'D', '"', ' '];
    let value = seq!['=', ' '] + (n + seq![';']);
    assert(inner =~= key + value);
    lemma_until_mark(key, value, CharClass::Just('='));
    assert(trim_front(key, space) == key);
    assert(key.last() == ' ');
    assert(key.drop_last() =~= seq!['"', 'P', 'I', 'D', '"']);
    let quoted = seq!['"', 'P', 'I', 'D', '"'];
    assert(trim_back(quoted, space) == quoted);
    assert(trim_back(key, space) == quoted);
    assert(quoted.skip(1) =~= seq!['P', 'I', 'D', '"']);
    let tail = seq!['P', 'I', 'D', '"'];
    assert(trim_front(tail, quote) == tail);
    assert(trim_front(quoted, quote) == tail);
    assert(tail.drop_last() =~= seq!['P', 'I', 'D']);
    assert(trim_back(seq!['P', 'I', 'D'], quote) == seq!['P', 'I', 'D']);
    assert(trim_back(tail, quote) == seq!['P', 'I', 'D']);
    assert("PID"@ =~= seq!['P', 'I', 'D']);
    let after = inner.skip(key.len() as int + 1);
    assert(after =~= seq![' '] + (n + seq![';']));
    let ended = n + seq![';'];
    assert(after.skip(1) =~= ended);
    assert(ended[0] == n[0]);
    assert(trim_front(ended, space) == ended);
    assert(trim_front(after, space) == ended);
    assert(ended.last() == ';');
    assert(trim_back(ended, space) == ended);
    assert(ended.drop_last() =~= n);
    assert(trim_back(n, CharClass::Just(';')) == n);
    assert(trim_back(ended, CharClass::Just(';')) == n);
    lemma_trim_number(pid as nat, Seq::<char>::empty());
    assert(n + Seq::<char>::empty() =~= n);
}

/// How many lines report a process.
pub open spec fn reports(rows: Seq<Seq<char>>) -> nat
    decreases rows.len(),
{
    if rows.len() == 0 {
        0
    } else {
        reports(rows.drop_last()) + (if pid_field(rows.last()) is Some {
            1nat
        } else {
            0nat
        })
    }
}

proof fn lemma_reports_first(rows: Seq<Seq<char>>)
    requires
        rows.len() > 0,
    ensures
        reports(rows) == reports(rows.skip(1)) + (if pid_field(rows[0]) is Some {
            1nat
        } else {
            0nat
        }),
    decreases rows.len(),
{
    if rows.len() == 1 {
        assert(rows.skip(1) =~= Seq::<Seq<char>>::empty());
        assert(rows.drop_last() =~= Seq::<Seq<char>>::empty());
        reveal_with_fuel(reports, 2);
    } else {
        lemma_reports_first(rows.drop_last());
        assert(rows.drop_last().skip(1) =~= rows.skip(1).drop_last());
        assert(rows.skip(1).last() == rows.last());
    }
}

/// A job has the one process that its lines report, none where none does, and more than
/// one is refused.
pub proof fn law_a_job_has_its_one_process(rows: Seq<Seq<char>>, seen: Option<nat>)
    requires
        forall|i: int|
            0 <= i < rows.len() ==> (pid_field(#[trigger] rows[i]) matches Some(value) ==> (
            u32_value(value) matches Some(n) && n > 0)),
    ensures
        reports(rows) == 0 ==> job_pid(rows, seen) == Ok::<Option<nat>, Seq<Seq<char>>>(seen),
        reports(rows) + (if seen is Some {
            1nat
        } else {
            0nat
        }) > 1 ==> job_pid(rows, seen) is Err,
        seen is None && reports(rows) == 1 ==> exists|i: int|
            0 <= i < rows.len() && (pid_field(#[trigger] rows[i]) matches Some(value) && job_pid(
                rows,
                seen,
            ) == Ok::<Option<nat>, Seq<Seq<char>>>(u32_value(value))),
    decreases rows.len(),
{
    if rows.len() > 0 {
        lemma_reports_first(rows);
        let rest = rows.skip(1);
        assert forall|i: int| 0 <= i < rest.len() implies (pid_field(#[trigger] rest[i]) matches
            Some(value) ==> (u32_value(value) matches Some(n) && n > 0)) by {
            assert(rest[i] == rows[i + 1]);
        }
        match pid_field(rows[0]) {
            None => {
                law_a_job_has_its_one_process(rest, seen);
                if seen is None && reports(rows) == 1 {
                    let i = choose|i: int|
                        0 <= i < rest.len() && (pid_field(#[trigger] rest[i]) matches Some(value)
                            && job_pid(rest, seen) == Ok::<Option<nat>, Seq<Seq<char>>>(
                            u32_value(value),
                        ));
                    assert(rows[i + 1] == rest[i]);
                }
            },
            Some(value) => {
                law_a_job_has_its_one_process(rest, u32_value(value));
                assert(rows[0] == rows[0]);
            },
        }
    }
}

/// A row that begins with a name in quotes and a comma names that task.
pub proof fn law_a_listed_name_is_read_back(name: Seq<char>, rest: Seq<char>)
    requires
        forall|i: int| 0 <= i < name.len() ==> #[trigger] name[i] != '"',
    ensures
        listed_name(seq!['"'] + (name + (seq!['"', ','] + rest))) == Ok::<Seq<char>, Seq<char>>(
            name,
        ),
{
    reveal_strlit("\",");
    let mark = "\","@;
    assert(mark =~= seq!['"', ',']);
    let body = name + (mark + rest);
    let line = seq!['"'] + body;
    assert(seq!['"'] + (name + (seq!['"', ','] + rest)) =~= line);
    assert(line.skip(1) =~= body);
    lemma_find_from(body, mark, 0);
    let at = name.len() as int;
    assert(body.subrange(at, at + mark.len()) =~= mark);
    match first_match(body, mark) {
        None => {
            assert(false);
        },
        Some(found) => {
            if found < at {
                assert(body.subrange(found, found + mark.len())[0] == name[found]);
                assert(false);
            }
            assert(found == at);
        },
    }
    assert(body.take(at) =~= name);
}

/// How many rows name a task, in any case.
pub open spec fn listed_times(rows: Seq<Seq<char>>, first: bool, name: Seq<char>) -> nat
    decreases rows.len(),
{
    if rows.len() == 0 {
        0
    } else {
        let line = listing_row(rows[0], first);
        (if line.len() > 0 && (listed_name(line) matches Ok(listed) && lower(listed) == lower(
            name,
        )) {
            1nat
        } else {
            0nat
        }) + listed_times(rows.skip(1), false, name)
    }
}

/// Whether every row that is not empty names a task.
pub open spec fn well_listed(rows: Seq<Seq<char>>) -> bool {
    forall|i: int|
        0 <= i < rows.len() ==> (listing_row(#[trigger] rows[i], i == 0).len() > 0 ==> listed_name(
            listing_row(rows[i], i == 0),
        ) is Ok) && (listing_row(rows[i], false).len() > 0 ==> listed_name(
            listing_row(rows[i], false),
        ) is Ok)
}

/// A task is listed exactly if one row names it; a listing that names it more often is
/// refused.
pub proof fn law_a_task_is_listed_once(
    rows: Seq<Seq<char>>,
    first: bool,
    name: Seq<char>,
    found: bool,
)
    requires
        well_listed(rows),
    ensures
        ({
            let times = listed_times(rows, first, name) + (if found {
                1nat
            } else {
                0nat
            });
            &&& times == 0 ==> listing_has(rows, first, name, found) == Ok::<bool, Seq<char>>(false)
            &&& times == 1 ==> listing_has(rows, first, name, found) == Ok::<bool, Seq<char>>(true)
            &&& times > 1 ==> listing_has(rows, first, name, found) is Err
        }),
    decreases rows.len(),
{
    if rows.len() > 0 {
        let rest = rows.skip(1);
        assert(well_listed(rest)) by {
            assert forall|i: int| 0 <= i < rest.len() implies (listing_row(
                #[trigger] rest[i],
                i == 0,
            ).len() > 0 ==> listed_name(listing_row(rest[i], i == 0)) is Ok) && (listing_row(
                rest[i],
                false,
            ).len() > 0 ==> listed_name(listing_row(rest[i], false)) is Ok) by {
                assert(rest[i] == rows[i + 1]);
                if i == 0 {
                    lemma_first_row(rest[0]);
                }
            }
        }
        assert(rows[0] == rows[0]);
        let line = listing_row(rows[0], first);
        law_a_task_is_listed_once(rest, false, name, found);
        law_a_task_is_listed_once(rest, false, name, true);
    }
}

proof fn lemma_first_row(row: Seq<char>)
    requires
        listing_row(row, false).len() > 0 ==> listed_name(listing_row(row, false)) is Ok,
    ensures
        listing_row(row, true).len() > 0 ==> listed_name(listing_row(row, true)) is Ok,
{
    let plain = listing_row(row, false);
    if plain.len() > 0 {
        assert(plain[0] == '"');
    }
    if begins_with(plain, crate::service_listing::byte_order_mark()) {
        assert(plain.take(3)[0] == crate::service_listing::byte_order_mark()[0]);
        assert(plain[0] == '\u{ef}');
    }
}

} // verus!
