//! What an installation writes is what the ownership checks accept.
use vstd::prelude::*;
use vstd::utf8::{encode_scalar, encode_utf8, encode_utf8_decode_utf8, encode_utf8_valid_utf8};

use crate::host_path::HostPath;
use crate::outside::hex_digit;
use crate::service_owner::{exec_lines, systemd_owner_problem, xml_decoded, xml_entity};
use crate::service_render::{
    byte_escapes, environment_line, exec_start, line_text, systemd_char, systemd_inside,
    systemd_quoted, unit_lines, xml_char, xml_escaped,
};
use crate::text::{
    begins_with, is_control, lemma_until, lines, trim_front, until, without_return, CharClass,
};

verus! {

/// Whether a text holds no line end.
pub open spec fn one_line(s: Seq<char>) -> bool {
    forall|i: int| 0 <= i < s.len() ==> #[trigger] s[i] != '\n' && s[i] != '\r'
}

proof fn lemma_one_line_concat(a: Seq<char>, b: Seq<char>)
    requires
        one_line(a),
        one_line(b),
    ensures
        one_line(a + b),
{
    assert forall|i: int| 0 <= i < (a + b).len() implies #[trigger] (a + b)[i] != '\n' && (a + b)[i]
        != '\r' by {
        if i < a.len() {
            assert((a + b)[i] == a[i]);
        } else {
            assert((a + b)[i] == b[i - a.len()]);
        }
    }
}

/// Lines that hold no line end are read back as they were written, before
/// whatever follows them.
proof fn lemma_lines_read_back(rows: Seq<Seq<char>>, more: Seq<char>)
    requires
        forall|i: int| 0 <= i < rows.len() ==> one_line(#[trigger] rows[i]),
    ensures
        lines(line_text(rows) + more) == rows + lines(more),
    decreases rows.len(),
{
    if rows.len() == 0 {
        assert(line_text(rows) + more =~= more);
        assert(rows + lines(more) =~= lines(more));
    } else {
        let row = rows[0];
        let rest = line_text(rows.skip(1)) + more;
        let s = line_text(rows) + more;
        assert(s =~= row.push('\n') + rest);
        assert(one_line(row));
        lemma_until(s, CharClass::Just('\n'));
        let n = until(s, CharClass::Just('\n'));
        assert(s[row.len() as int] == '\n');
        if n < row.len() {
            assert(s[n as int] == row[n as int]);
            assert(false);
        }
        assert(n == row.len());
        assert(s.take(n as int) =~= row);
        assert(s.skip(n as int + 1) =~= rest);
        assert(without_return(row) == row) by {
            if row.len() > 0 {
                assert(row[row.len() - 1] != '\r');
            }
        }
        assert forall|i: int| 0 <= i < rows.skip(1).len() implies one_line(
            #[trigger] rows.skip(1)[i],
        ) by {
            assert(rows.skip(1)[i] == rows[i + 1]);
        }
        lemma_lines_read_back(rows.skip(1), more);
        assert(lines(s) == seq![row] + (rows.skip(1) + lines(more)));
        assert(seq![row] + (rows.skip(1) + lines(more)) =~= rows + lines(more));
    }
}

proof fn lemma_byte_escapes_one_line(bytes: Seq<u8>)
    ensures
        one_line(byte_escapes(bytes)),
    decreases bytes.len(),
{
    if bytes.len() > 0 {
        lemma_byte_escapes_one_line(bytes.drop_last());
        let high = (bytes.last() / 16) as nat;
        let low = (bytes.last() % 16) as nat;
        assert('0' as u32 == 48 && 'a' as u32 == 97);
        let tail = seq!['\\', 'x', hex_digit(high), hex_digit(low)];
        assert(one_line(tail));
        lemma_one_line_concat(byte_escapes(bytes.drop_last()), tail);
    }
}

/// A quoted systemd value stays on one line.
proof fn lemma_quoted_one_line(s: Seq<char>, escape_dollar: bool)
    ensures
        one_line(systemd_quoted(s, escape_dollar)),
{
    lemma_inside_one_line(s, escape_dollar);
    lemma_one_line_concat(seq!['"'], systemd_inside(s, escape_dollar));
    lemma_one_line_concat(seq!['"'] + systemd_inside(s, escape_dollar), seq!['"']);
}

proof fn lemma_inside_one_line(s: Seq<char>, escape_dollar: bool)
    ensures
        one_line(systemd_inside(s, escape_dollar)),
    decreases s.len(),
{
    if s.len() > 0 {
        lemma_inside_one_line(s.drop_last(), escape_dollar);
        let c = s.last();
        lemma_byte_escapes_one_line(encode_utf8(seq![c]));
        assert(one_line(systemd_char(c, escape_dollar)));
        lemma_one_line_concat(
            systemd_inside(s.drop_last(), escape_dollar),
            systemd_char(c, escape_dollar),
        );
    }
}

/// Whether a line sets the command of a unit.
spec fn sets_command(row: Seq<char>) -> bool {
    begins_with(trim_front(row, CharClass::WhiteSpace), "ExecStart="@)
}

proof fn lemma_only_command_line(rows: Seq<Seq<char>>, k: int)
    requires
        0 <= k < rows.len(),
        sets_command(rows[k]),
        forall|i: int| 0 <= i < rows.len() && i != k ==> !sets_command(#[trigger] rows[i]),
    ensures
        exec_lines(rows) == seq![rows[k]],
    decreases rows.len(),
{
    let head = rows.drop_last();
    assert forall|i: int| 0 <= i < head.len() && i != k implies !sets_command(#[trigger] head[i]) by {
        assert(head[i] == rows[i]);
    }
    if k < rows.len() - 1 {
        assert(head[k] == rows[k]);
        lemma_only_command_line(head, k);
        assert(!sets_command(rows[rows.len() - 1]));
    } else {
        assert forall|i: int| 0 <= i < head.len() implies !sets_command(#[trigger] head[i]) by {
            assert(head[i] == rows[i]);
        }
        lemma_no_command_line(head);
        assert(exec_lines(rows) =~= seq![rows[k]]);
    }
}

proof fn lemma_no_command_line(rows: Seq<Seq<char>>)
    requires
        forall|i: int| 0 <= i < rows.len() ==> !sets_command(#[trigger] rows[i]),
    ensures
        exec_lines(rows) == Seq::<Seq<char>>::empty(),
    decreases rows.len(),
{
    if rows.len() > 0 {
        let head = rows.drop_last();
        assert forall|i: int| 0 <= i < head.len() implies !sets_command(#[trigger] head[i]) by {
            assert(head[i] == rows[i]);
        }
        lemma_no_command_line(head);
        assert(!sets_command(rows[rows.len() - 1]));
    }
}

/// A line that starts with another character, or is empty, sets no command.
proof fn lemma_other_line(row: Seq<char>)
    requires
        row.len() >= 2 ==> (row[0] != 'E' || row[1] != 'x') && row[0] != ' ' && row[0] as u32 > 32
            && (row[0] as u32) < 127,
        row.len() < 2 ==> row.len() == 0,
    ensures
        !sets_command(row),
{
    reveal_strlit("ExecStart=");
    if row.len() >= 2 {
        assert(trim_front(row, CharClass::WhiteSpace) == row);
        if sets_command(row) {
            assert("ExecStart="@[0] == 'E' && "ExecStart="@[1] == 'x');
            assert(row.take("ExecStart="@.len() as int)[0] == row[0]);
            assert(row.take("ExecStart="@.len() as int)[1] == row[1]);
        }
    }
}

proof fn lemma_environment_line(name: Seq<char>, value: Seq<char>)
    requires
        one_line(name),
    ensures
        one_line(environment_line(name, value)),
        !sets_command(environment_line(name, value)),
{
    reveal_strlit("Environment=");
    let quoted = systemd_quoted(name + value, false);
    lemma_quoted_one_line(name + value, false);
    assert(one_line("Environment="@));
    lemma_one_line_concat("Environment="@, quoted);
    let row = environment_line(name, value);
    assert(row[0] == "Environment="@[0] && row[1] == "Environment="@[1]);
    lemma_other_line(row);
}

/// The command lines of two runs of lines are those of both, in their order.
proof fn lemma_command_lines_add_up(a: Seq<Seq<char>>, b: Seq<Seq<char>>)
    ensures
        exec_lines(a + b) == exec_lines(a) + exec_lines(b),
    decreases b.len(),
{
    if b.len() == 0 {
        assert(a + b =~= a);
        assert(exec_lines(a) + exec_lines(b) =~= exec_lines(a));
    } else {
        lemma_command_lines_add_up(a, b.drop_last());
        assert((a + b).drop_last() =~= a + b.drop_last());
        assert((a + b).last() == b.last());
        assert(exec_lines(a + b) =~= exec_lines(a) + exec_lines(b));
    }
}

/// The unit that an installation writes has exactly one `ExecStart=` line, the
/// one that the ownership check looks for, whatever the paths are; lines behind
/// it add only their own.
pub proof fn law_systemd_unit_is_owned(
    exe: Seq<char>,
    home: Seq<char>,
    codex_home: Seq<char>,
    app_home: Seq<char>,
    more: Seq<char>,
)
    ensures
        exec_lines(lines(line_text(unit_lines(exe, home, codex_home, app_home)) + more)) == seq![
            exec_start(exe),
        ] + exec_lines(lines(more)),
        lines(line_text(unit_lines(exe, home, codex_home, app_home)) + more) == unit_lines(
            exe,
            home,
            codex_home,
            app_home,
        ) + lines(more),
{
    let rows = unit_lines(exe, home, codex_home, app_home);
    reveal_strlit("[Unit]");
    reveal_strlit("Description=codex-switch-global-pace auto-switching daemon");
    reveal_strlit("After=network-online.target");
    reveal_strlit("");
    reveal_strlit("[Service]");
    reveal_strlit("Type=simple");
    reveal_strlit("Restart=on-failure");
    reveal_strlit("RestartSec=10");
    reveal_strlit("[Install]");
    reveal_strlit("WantedBy=default.target");
    reveal_strlit("HOME=");
    reveal_strlit("CODEX_HOME=");
    reveal_strlit("CODEX_SWITCH_HOME=");
    reveal_strlit("ExecStart=");
    reveal_strlit(" daemon start --foreground");
    lemma_quoted_one_line(exe, true);
    lemma_one_line_concat("ExecStart="@, systemd_quoted(exe, true));
    lemma_one_line_concat(
        "ExecStart="@ + systemd_quoted(exe, true),
        " daemon start --foreground"@,
    );
    let command = exec_start(exe);
    assert(command[0] == 'E');
    assert(trim_front(command, CharClass::WhiteSpace) == command);
    assert(command.take("ExecStart="@.len() as int) =~= "ExecStart="@);
    assert(sets_command(command));
    lemma_environment_line("HOME="@, home);
    lemma_environment_line("CODEX_HOME="@, codex_home);
    lemma_environment_line("CODEX_SWITCH_HOME="@, app_home);
    lemma_other_line("[Unit]"@);
    lemma_other_line("Description=codex-switch-global-pace auto-switching daemon"@);
    lemma_other_line("After=network-online.target"@);
    lemma_other_line(""@);
    lemma_other_line("[Service]"@);
    lemma_other_line("Type=simple"@);
    lemma_other_line("Restart=on-failure"@);
    lemma_other_line("RestartSec=10"@);
    lemma_other_line("[Install]"@);
    lemma_other_line("WantedBy=default.target"@);
    assert(one_line("[Unit]"@) && one_line(
        "Description=codex-switch-global-pace auto-switching daemon"@,
    ) && one_line("After=network-online.target"@) && one_line(""@) && one_line("[Service]"@)
        && one_line("Type=simple"@) && one_line("Restart=on-failure"@) && one_line("RestartSec=10"@)
        && one_line("[Install]"@) && one_line("WantedBy=default.target"@));
    assert forall|i: int| 0 <= i < rows.len() implies one_line(#[trigger] rows[i]) by {}
    lemma_lines_read_back(rows, more);
    assert forall|i: int| 0 <= i < rows.len() && i != 6 implies !sets_command(
        #[trigger] rows[i],
    ) by {}
    lemma_only_command_line(rows, 6);
    lemma_command_lines_add_up(rows, lines(more));
}

// -- Quoting --

/// The inside of a quoted value, from the front.
pub proof fn lemma_inside_front(s: Seq<char>, escape_dollar: bool)
    requires
        s.len() > 0,
    ensures
        systemd_inside(s, escape_dollar) == systemd_char(s[0], escape_dollar) + systemd_inside(
            s.skip(1),
            escape_dollar,
        ),
    decreases s.len(),
{
    if s.len() == 1 {
        assert(s.drop_last() =~= Seq::empty());
        assert(s.skip(1) =~= Seq::empty());
        assert(systemd_inside(s.drop_last(), escape_dollar) =~= Seq::empty());
        assert(systemd_inside(s.skip(1), escape_dollar) =~= Seq::empty());
        assert(systemd_inside(s, escape_dollar) =~= systemd_char(s[0], escape_dollar)
            + systemd_inside(s.skip(1), escape_dollar));
    } else {
        lemma_inside_front(s.drop_last(), escape_dollar);
        assert(s.drop_last().skip(1) =~= s.skip(1).drop_last());
        assert(s.skip(1).last() == s.last());
        assert(systemd_inside(s, escape_dollar) =~= systemd_char(s[0], escape_dollar) + (
        systemd_inside(s.skip(1).drop_last(), escape_dollar) + systemd_char(
            s.last(),
            escape_dollar,
        )));
    }
}

/// The escapes of a control character that has none of its own: one byte, or two
/// of which the first is no such character.
pub proof fn lemma_control_bytes(c: char)
    requires
        is_control(c),
    ensures
        ({
            let bytes = encode_utf8(seq![c]);
            let e = byte_escapes(bytes);
            if (c as u32) < 0x80 {
                &&& bytes.len() == 1 && bytes[0] == c as u32
                &&& e == seq![
                    '\\',
                    'x',
                    hex_digit((bytes[0] / 16) as nat),
                    hex_digit((bytes[0] % 16) as nat),
                ]
            } else {
                &&& bytes.len() == 2 && bytes[0] == 0xc2 && bytes[1] == c as u32
                &&& e == seq![
                    '\\',
                    'x',
                    'c',
                    '2',
                    '\\',
                    'x',
                    hex_digit((bytes[1] / 16) as nat),
                    hex_digit((bytes[1] % 16) as nat),
                ]
            }
        }),
{
    let bytes = encode_utf8(seq![c]);
    let v = c as u32;
    assert(seq![c].drop_first() =~= Seq::<char>::empty());
    assert(encode_utf8(Seq::<char>::empty()) =~= Seq::<u8>::empty());
    assert(bytes =~= encode_scalar(v));
    reveal_with_fuel(byte_escapes, 3);
    assert('0' as u32 == 48 && 'a' as u32 == 97 && '2' as u32 == 50 && 'c' as u32 == 99);
    if v < 0x80 {
        assert((v & 0x7f) as u8 == v) by (bit_vector)
            requires
                v < 0x80,
        ;
        assert(bytes.drop_last() =~= Seq::<u8>::empty());
        assert(byte_escapes(bytes) =~= seq![
            '\\',
            'x',
            hex_digit((bytes[0] / 16) as nat),
            hex_digit((bytes[0] % 16) as nat),
        ]);
    } else {
        assert(0xc0u8 | ((v >> 6) & 0x1f) as u8 == 0xc2u8) by (bit_vector)
            requires
                0x80 <= v <= 0x9f,
        ;
        assert(0x80u8 | (v & 0x3f) as u8 == v) by (bit_vector)
            requires
                0x80 <= v <= 0x9f,
        ;
        assert(bytes.drop_last() =~= seq![0xc2u8]);
        assert(bytes.drop_last().drop_last() =~= Seq::<u8>::empty());
        assert(hex_digit(12) == 'c' && hex_digit(2) == '2');
        assert(byte_escapes(bytes) =~= seq![
            '\\',
            'x',
            'c',
            '2',
            '\\',
            'x',
            hex_digit((bytes[1] / 16) as nat),
            hex_digit((bytes[1] % 16) as nat),
        ]);
    }
}

/// Hexadecimal digits tell their values apart.
proof fn lemma_hex_digits_differ(m: nat, n: nat)
    requires
        m < 16,
        n < 16,
        hex_digit(m) == hex_digit(n),
    ensures
        m == n,
{
    assert('0' as u32 == 48 && 'a' as u32 == 97);
    vstd::utf8::char_is_scalar(hex_digit(m));
    let a: int = if m < 10 {
        48 + m as int
    } else {
        87 + m as int
    };
    let b: int = if n < 10 {
        48 + n as int
    } else {
        87 + n as int
    };
    assert(hex_digit(m) as u32 == a);
    assert(hex_digit(n) as u32 == b);
}

/// What stands for one character tells where it ends and which one it is.
#[verifier::spinoff_prover]
#[verifier::rlimit(60)]
proof fn lemma_char_is_read_back(
    c: char,
    d: char,
    x: Seq<char>,
    y: Seq<char>,
    escape_dollar: bool,
)
    requires
        systemd_char(c, escape_dollar) + x == systemd_char(d, escape_dollar) + y,
    ensures
        c == d,
{
    let a = systemd_char(c, escape_dollar);
    let b = systemd_char(d, escape_dollar);
    let s = a + x;
    let t = b + y;
    if is_control(c) {
        lemma_control_bytes(c);
    }
    if is_control(d) {
        lemma_control_bytes(d);
    }
    assert(s[0] == a[0] && t[0] == b[0]);
    if a.len() >= 2 {
        assert(s[1] == a[1]);
    }
    if b.len() >= 2 {
        assert(t[1] == b[1]);
    }
    if a.len() >= 4 && b.len() >= 4 {
        assert(s[2] == a[2] && s[3] == a[3] && t[2] == b[2] && t[3] == b[3]);
        let p = encode_utf8(seq![c]);
        let q = encode_utf8(seq![d]);
        assert(hex_digit(12) == 'c' && hex_digit(2) == '2') by {
            assert('0' as u32 == 48 && 'a' as u32 == 97 && '2' as u32 == 50 && 'c' as u32 == 99);
        }
        assert(a[2] == hex_digit((p[0] / 16) as nat) && a[3] == hex_digit((p[0] % 16) as nat));
        assert(b[2] == hex_digit((q[0] / 16) as nat) && b[3] == hex_digit((q[0] % 16) as nat));
        lemma_hex_digits_differ((p[0] / 16) as nat, (q[0] / 16) as nat);
        lemma_hex_digits_differ((p[0] % 16) as nat, (q[0] % 16) as nat);
        assert(p[0] == q[0]);
        if (c as u32) >= 0x80 {
            assert(s[6] == a[6] && s[7] == a[7] && t[6] == b[6] && t[7] == b[7]);
            lemma_hex_digits_differ((p[1] / 16) as nat, (q[1] / 16) as nat);
            lemma_hex_digits_differ((p[1] % 16) as nat, (q[1] % 16) as nat);
            assert(p[1] == q[1]);
        }
        assert(c as u32 == d as u32);
    }
}

/// A quoted value stands for one text only.
proof fn lemma_inside_is_injective(s: Seq<char>, t: Seq<char>, escape_dollar: bool)
    requires
        systemd_inside(s, escape_dollar) == systemd_inside(t, escape_dollar),
    ensures
        s == t,
    decreases s.len(),
{
    if s.len() == 0 {
        if t.len() > 0 {
            lemma_inside_front(t, escape_dollar);
            lemma_char_is_shown(t[0], escape_dollar);
            assert(systemd_inside(s, escape_dollar).len() == 0);
        }
        assert(s =~= t);
    } else {
        lemma_inside_front(s, escape_dollar);
        lemma_char_is_shown(s[0], escape_dollar);
        if t.len() == 0 {
            assert(systemd_inside(t, escape_dollar).len() == 0);
        } else {
            lemma_inside_front(t, escape_dollar);
            let x = systemd_inside(s.skip(1), escape_dollar);
            let y = systemd_inside(t.skip(1), escape_dollar);
            lemma_char_is_read_back(s[0], t[0], x, y, escape_dollar);
            let n = systemd_char(s[0], escape_dollar).len() as int;
            assert((systemd_char(s[0], escape_dollar) + x).skip(n) =~= x);
            assert((systemd_char(t[0], escape_dollar) + y).skip(n) =~= y);
            lemma_inside_is_injective(s.skip(1), t.skip(1), escape_dollar);
            assert(s =~= seq![s[0]] + s.skip(1));
            assert(t =~= seq![t[0]] + t.skip(1));
        }
    }
}

/// Every character stands for something.
proof fn lemma_char_is_shown(c: char, escape_dollar: bool)
    ensures
        systemd_char(c, escape_dollar).len() > 0,
{
    if is_control(c) {
        lemma_control_bytes(c);
    }
}

/// Quoting loses nothing: two texts with the same quoted form are the same.
pub proof fn law_quoting_is_injective(s: Seq<char>, t: Seq<char>, escape_dollar: bool)
    requires
        systemd_quoted(s, escape_dollar) == systemd_quoted(t, escape_dollar),
    ensures
        s == t,
{
    let a = systemd_inside(s, escape_dollar);
    let b = systemd_inside(t, escape_dollar);
    let p = systemd_quoted(s, escape_dollar);
    let q = systemd_quoted(t, escape_dollar);
    assert(p.len() == a.len() + 2 && q.len() == b.len() + 2);
    assert(p.subrange(1, p.len() - 1) =~= a);
    assert(q.subrange(1, q.len() - 1) =~= b);
    lemma_inside_is_injective(s, t, escape_dollar);
}

proof fn lemma_command_has_one_executable(s: Seq<char>, t: Seq<char>)
    requires
        exec_start(s) == exec_start(t),
    ensures
        s == t,
{
    let n = "ExecStart="@.len() as int;
    let m = " daemon start --foreground"@.len() as int;
    let p = exec_start(s);
    let q = exec_start(t);
    assert(p.subrange(n, p.len() - m) =~= systemd_quoted(s, true));
    assert(q.subrange(n, q.len() - m) =~= systemd_quoted(t, true));
    law_quoting_is_injective(s, t, true);
}

/// The ownership check accepts the bytes of an installed unit for exactly the
/// executable that it was installed for, whatever characters the paths hold; and
/// where anything follows the unit, only as long as that sets no further command.
pub proof fn law_installed_systemd_unit_has_one_owner(
    exe: Seq<char>,
    home: Seq<char>,
    codex_home: Seq<char>,
    app_home: Seq<char>,
    more: Seq<char>,
    expected: HostPath,
)
    requires
        expected.unicode is Some,
    ensures
        systemd_owner_problem(
            encode_utf8(line_text(unit_lines(exe, home, codex_home, app_home))),
            expected,
        ) is None <==> expected.unicode->0@ == exe,
        systemd_owner_problem(
            encode_utf8(line_text(unit_lines(exe, home, codex_home, app_home)) + more),
            expected,
        ) is None <==> expected.unicode->0@ == exe && exec_lines(lines(more)).len() == 0,
{
    let unit = line_text(unit_lines(exe, home, codex_home, app_home));
    let nothing = Seq::<char>::empty();
    let own = exec_start(exe);
    let wanted = exec_start(expected.unicode->0@);
    if own == wanted {
        lemma_command_has_one_executable(exe, expected.unicode->0@);
    }
    law_systemd_unit_is_owned(exe, home, codex_home, app_home, nothing);
    law_systemd_unit_is_owned(exe, home, codex_home, app_home, more);
    assert(unit + nothing =~= unit);
    assert(lines(nothing) =~= Seq::empty());
    assert(exec_lines(lines(nothing)) =~= Seq::empty());
    assert(seq![own] + exec_lines(lines(nothing)) =~= seq![own]);
    assert(seq![own][0] == own && seq![wanted][0] == wanted);
    encode_utf8_valid_utf8(unit);
    encode_utf8_decode_utf8(unit);
    encode_utf8_valid_utf8(unit + more);
    encode_utf8_decode_utf8(unit + more);
    let all = seq![own] + exec_lines(lines(more));
    if exec_lines(lines(more)).len() == 0 {
        assert(all =~= seq![own]);
    } else {
        assert(all.len() != seq![wanted].len());
    }
}

/// A unit with one more `ExecStart=` line is owned by no executable.
pub proof fn law_a_second_command_is_refused(
    exe: Seq<char>,
    home: Seq<char>,
    codex_home: Seq<char>,
    app_home: Seq<char>,
    command: Seq<char>,
    expected: HostPath,
)
    ensures
        systemd_owner_problem(
            encode_utf8(
                line_text(unit_lines(exe, home, codex_home, app_home)) + "ExecStart="@ + command
                    + seq!['\n'],
            ),
            expected,
        ) is Some,
{
    if expected.unicode is Some {
        let more = "ExecStart="@ + command + seq!['\n'];
        let unit = line_text(unit_lines(exe, home, codex_home, app_home));
        assert(unit + "ExecStart="@ + command + seq!['\n'] =~= unit + more);
        law_installed_systemd_unit_has_one_owner(
            exe,
            home,
            codex_home,
            app_home,
            more,
            expected,
        );
        reveal_strlit("ExecStart=");
        lemma_until(more, CharClass::Just('\n'));
        let n = until(more, CharClass::Just('\n'));
        assert(more.last() == '\n');
        assert(more[more.len() - 1] == '\n');
        assert("ExecStart="@.len() == 10);
        assert(forall|i: int| 0 <= i < 10 ==> more[i] == "ExecStart="@[i]);
        assert(n >= 10) by {
            if n < 10 {
                assert(more[n as int] == "ExecStart="@[n as int]);
            }
        }
        assert(n < more.len());
        let first = without_return(more.take(n as int));
        assert(first.len() >= 10) by {
            if n == 10 {
                assert(more.take(n as int).last() == "ExecStart="@[9]);
            }
        }
        assert(first.take(10) =~= "ExecStart="@);
        assert(first[0] == 'E');
        assert(trim_front(first, CharClass::WhiteSpace) == first);
        assert(sets_command(first));
        let rest = lines(more.skip(n as int + 1));
        assert(lines(more) == seq![first] + rest);
        lemma_command_lines_add_up(seq![first], rest);
        assert(seq![first].drop_last() =~= Seq::<Seq<char>>::empty());
        assert(seq![first].last() == first);
        assert(exec_lines(Seq::<Seq<char>>::empty()) =~= Seq::empty());
        assert(exec_lines(seq![first]).len() == 1);
    }
}

// -- XML --

proof fn lemma_xml_escaped_front(s: Seq<char>)
    requires
        s.len() > 0,
    ensures
        xml_escaped(s) == xml_char(s[0]) + xml_escaped(s.skip(1)),
    decreases s.len(),
{
    if s.len() == 1 {
        assert(s.drop_last() =~= Seq::empty());
        assert(s.skip(1) =~= Seq::empty());
        assert(xml_escaped(s.skip(1)) =~= Seq::empty());
        assert(xml_escaped(s.drop_last()) =~= Seq::empty());
        assert(xml_escaped(s) =~= xml_char(s[0]) + xml_escaped(s.skip(1)));
    } else {
        lemma_xml_escaped_front(s.drop_last());
        assert(s.drop_last().skip(1) =~= s.skip(1).drop_last());
        assert(s.skip(1).last() == s.last());
        assert(xml_escaped(s) =~= xml_char(s[0]) + (xml_escaped(s.skip(1).drop_last()) + xml_char(
            s.last(),
        )));
    }
}

/// A plain character in front is kept.
proof fn lemma_decoded_plain(c: char, tail: Seq<char>)
    requires
        c != '&',
        xml_decoded(tail) is Ok,
    ensures
        xml_decoded(seq![c] + tail) == Ok::<Seq<char>, Seq<Seq<char>>>(
            seq![c] + xml_decoded(tail)->Ok_0,
        ),
{
    let s = seq![c] + tail;
    assert(s.skip(1) =~= tail);
    let n = until(tail, CharClass::Just('&'));
    assert(until(s, CharClass::Just('&')) == 1 + n);
    lemma_until(tail, CharClass::Just('&'));
    if n < tail.len() {
        assert(s.skip(n as int + 2) =~= tail.skip(n as int + 1));
        let rest = tail.skip(n as int + 1);
        let m = until(rest, CharClass::Just(';'));
        let e = xml_entity(rest.take(m as int))->Ok_0;
        let end = xml_decoded(rest.skip(m as int + 1))->Ok_0;
        assert(s.take(n as int + 1) =~= seq![c] + tail.take(n as int));
        assert(s.take(n as int + 1) + seq![e] + end =~= seq![c] + (tail.take(n as int) + seq![e]
            + end));
    }
}

/// An entity in front is replaced.
proof fn lemma_decoded_entity(entity: Seq<char>, c: char, tail: Seq<char>)
    requires
        xml_entity(entity) == Ok::<char, Seq<Seq<char>>>(c),
        forall|i: int| 0 <= i < entity.len() ==> #[trigger] entity[i] != ';',
        xml_decoded(tail) is Ok,
    ensures
        xml_decoded(seq!['&'] + entity + seq![';'] + tail) == Ok::<Seq<char>, Seq<Seq<char>>>(
            seq![c] + xml_decoded(tail)->Ok_0,
        ),
{
    let s = seq!['&'] + entity + seq![';'] + tail;
    assert(s[0] == '&');
    assert(until(s, CharClass::Just('&')) == 0);
    let rest = s.skip(1);
    assert(s.skip(0int + 1) =~= rest);
    assert(rest =~= entity + seq![';'] + tail);
    lemma_until(rest, CharClass::Just(';'));
    let m = until(rest, CharClass::Just(';'));
    assert(rest[entity.len() as int] == ';');
    if m < entity.len() {
        assert(rest[m as int] == entity[m as int]);
        assert(false);
    }
    assert(m == entity.len());
    assert(rest.take(m as int) =~= entity);
    assert(rest.skip(m as int + 1) =~= tail);
    assert(s.take(0) + seq![c] + xml_decoded(tail)->Ok_0 =~= seq![c] + xml_decoded(tail)->Ok_0);
}

/// The names of the five entities that escaping writes.
#[verifier::spinoff_prover]
#[verifier::rlimit(30)]
proof fn lemma_entity_names()
    ensures
        xml_entity("amp"@) == Ok::<char, Seq<Seq<char>>>('&'),
        xml_entity("lt"@) == Ok::<char, Seq<Seq<char>>>('<'),
        xml_entity("gt"@) == Ok::<char, Seq<Seq<char>>>('>'),
        xml_entity("quot"@) == Ok::<char, Seq<Seq<char>>>('"'),
        xml_entity("apos"@) == Ok::<char, Seq<Seq<char>>>('\''),
{
    reveal_strlit("amp");
    reveal_strlit("lt");
    reveal_strlit("gt");
    reveal_strlit("quot");
    reveal_strlit("apos");
    assert("lt"@.len() != "amp"@.len());
    assert("gt"@[0] != "lt"@[0]);
    assert("quot"@.len() == 4 && "amp"@.len() == 3 && "lt"@.len() == 2 && "gt"@.len() == 2);
    assert("apos"@[0] != "quot"@[0]);
}

/// What escaping wrote for one character is decoded to it.
#[verifier::spinoff_prover]
#[verifier::rlimit(30)]
proof fn lemma_xml_char_decoded(c: char, tail: Seq<char>)
    requires
        xml_decoded(tail) is Ok,
    ensures
        xml_decoded(xml_char(c) + tail) == Ok::<Seq<char>, Seq<Seq<char>>>(
            seq![c] + xml_decoded(tail)->Ok_0,
        ),
{
    lemma_entity_names();
    if c == '&' {
        reveal_strlit("&amp;");
        reveal_strlit("amp");
        lemma_decoded_entity("amp"@, c, tail);
        assert(xml_char(c) + tail =~= seq!['&'] + "amp"@ + seq![';'] + tail);
    } else if c == '<' {
        reveal_strlit("&lt;");
        reveal_strlit("lt");
        lemma_decoded_entity("lt"@, c, tail);
        assert(xml_char(c) + tail =~= seq!['&'] + "lt"@ + seq![';'] + tail);
    } else if c == '>' {
        reveal_strlit("&gt;");
        reveal_strlit("gt");
        lemma_decoded_entity("gt"@, c, tail);
        assert(xml_char(c) + tail =~= seq!['&'] + "gt"@ + seq![';'] + tail);
    } else if c == '"' {
        reveal_strlit("&quot;");
        reveal_strlit("quot");
        lemma_decoded_entity("quot"@, c, tail);
        assert(xml_char(c) + tail =~= seq!['&'] + "quot"@ + seq![';'] + tail);
    } else if c == '\'' {
        reveal_strlit("&apos;");
        reveal_strlit("apos");
        lemma_decoded_entity("apos"@, c, tail);
        assert(xml_char(c) + tail =~= seq!['&'] + "apos"@ + seq![';'] + tail);
    } else {
        lemma_decoded_plain(c, tail);
    }
}

/// What stands for one character begins no element.
proof fn lemma_xml_char_opens_nothing(c: char)
    ensures
        forall|i: int| 0 <= i < xml_char(c).len() ==> #[trigger] xml_char(c)[i] != '<',
{
    reveal_strlit("&amp;");
    reveal_strlit("&lt;");
    reveal_strlit("&gt;");
    reveal_strlit("&quot;");
    reveal_strlit("&apos;");
}

/// Decoding what escaping wrote gives the text back, and nothing that escaping
/// wrote begins an element.
pub proof fn law_xml_round_trip(s: Seq<char>)
    ensures
        xml_decoded(xml_escaped(s)) == Ok::<Seq<char>, Seq<Seq<char>>>(s),
        forall|i: int| 0 <= i < xml_escaped(s).len() ==> #[trigger] xml_escaped(s)[i] != '<',
    decreases s.len(),
{
    if s.len() == 0 {
        assert(xml_escaped(s) =~= s);
    } else {
        law_xml_round_trip(s.skip(1));
        lemma_xml_escaped_front(s);
        lemma_xml_char_decoded(s[0], xml_escaped(s.skip(1)));
        assert(seq![s[0]] + s.skip(1) =~= s);
        lemma_xml_char_opens_nothing(s[0]);
        let front = xml_char(s[0]);
        let tail = xml_escaped(s.skip(1));
        assert forall|i: int| 0 <= i < xml_escaped(s).len() implies #[trigger] xml_escaped(s)[i]
            != '<' by {
            if i < front.len() {
                assert(xml_escaped(s)[i] == front[i]);
            } else {
                assert(xml_escaped(s)[i] == tail[i - front.len()]);
            }
        }
    }
}

} // verus!
