//! Who owns a scheduled task: exactly the executable that its document starts.
use vstd::prelude::*;
use vstd::utf8::{
    encode_scalar, encode_utf8, encode_utf8_decode_utf8, encode_utf8_first_scalar,
    encode_utf8_valid_utf8,
};

use crate::host_path::HostPath;
use crate::service_owner::{
    after_set_value, code_unit, code_units, element_text, started_executable, task_definition,
    task_owner_problem, task_starts, utf16_text, xml_decoded,
};
use crate::service_render::{cmd_escaped, cmd_special, has_char, task_arguments};
use crate::text::{begins_with, lemma_find_from, lemma_until, until, CharClass};

verus! {

// -- Arguments --

/// A value that a scheduled task can carry.
pub open spec fn carriable(s: Seq<char>) -> bool {
    !has_char(s, '%') && !has_char(s, '"') && !has_char(s, '\r') && !has_char(s, '\n')
}

proof fn lemma_has_char(s: Seq<char>, c: char, i: int)
    requires
        0 <= i < s.len(),
        s[i] == c,
    ensures
        has_char(s, c),
{
    lemma_until(s, CharClass::Just(c));
}

/// A generated value and its separator are passed over as a whole.
proof fn lemma_set_value_is_passed(
    value: Seq<char>,
    separator: Seq<char>,
    rest: Seq<char>,
    saw_value: bool,
)
    requires
        forall|i: int|
            0 <= i < value.len() ==> #[trigger] value[i] != '%' && value[i] != '"' && value[i]
                != '\r' && value[i] != '\n',
        separator.len() > 0 && separator[0] == '&',
        saw_value || value.len() > 0,
    ensures
        after_set_value(cmd_escaped(value) + separator + rest, separator, saw_value) == Some(rest),
    decreases value.len(),
{
    let s = cmd_escaped(value) + separator + rest;
    if value.len() == 0 {
        assert(cmd_escaped(value) =~= Seq::empty());
        assert(s =~= separator + rest);
        assert(s.take(separator.len() as int) =~= separator);
        assert(s.skip(separator.len() as int) =~= rest);
    } else {
        let c = value[0];
        let tail = value.skip(1);
        assert forall|i: int| 0 <= i < tail.len() implies #[trigger] tail[i] != '%' && tail[i]
            != '"' && tail[i] != '\r' && tail[i] != '\n' by {
            assert(tail[i] == value[i + 1]);
        }
        lemma_set_value_is_passed(tail, separator, rest, true);
        let later = cmd_escaped(tail) + separator + rest;
        assert(value[0] != '%' && value[0] != '"' && value[0] != '\r' && value[0] != '\n');
        if cmd_special(c) {
            assert(s =~= seq!['^', c] + later);
            assert(s.skip(2) =~= later);
            assert(s[0] == '^' && s[1] == c);
        } else {
            assert(s =~= seq![c] + later);
            assert(s.skip(1) =~= later);
            assert(s[0] == c);
        }
        if begins_with(s, separator) {
            assert(s.take(separator.len() as int)[0] == s[0]);
            assert(false);
        }
    }
}

/// The scheduled task that an installation writes starts exactly the executable
/// that it was written for: the ownership check finds that executable in its
/// arguments.
pub proof fn law_scheduled_task_is_owned(exe: Seq<char>, codex_home: Seq<char>, app_home: Seq<char>)
    requires
        codex_home.len() > 0 && carriable(codex_home),
        app_home.len() > 0 && carriable(app_home),
    ensures
        started_executable(task_arguments(exe, codex_home, app_home)) == Some(exe),
        task_starts("cmd.exe"@, task_arguments(exe, codex_home, app_home), exe),
{
    let prefix = "/D /V:OFF /S /C set CODEX_HOME="@;
    let between = "&& set CODEX_SWITCH_HOME="@;
    let before = "&& \""@;
    let suffix = "\" daemon start --foreground"@;
    reveal_strlit("&& set CODEX_SWITCH_HOME=");
    reveal_strlit("&& \"");
    let arguments = task_arguments(exe, codex_home, app_home);
    let last = exe + suffix;
    let home = cmd_escaped(app_home) + before + last;
    let homes = cmd_escaped(codex_home) + between + home;
    assert(arguments =~= prefix + homes);
    assert(arguments.take(prefix.len() as int) =~= prefix);
    assert(arguments.skip(prefix.len() as int) =~= homes);
    assert forall|i: int| 0 <= i < codex_home.len() implies #[trigger] codex_home[i] != '%'
        && codex_home[i] != '"' && codex_home[i] != '\r' && codex_home[i] != '\n' by {
        if codex_home[i] == '%' || codex_home[i] == '"' || codex_home[i] == '\r' || codex_home[i]
            == '\n' {
            lemma_has_char(codex_home, codex_home[i], i);
        }
    }
    assert forall|i: int| 0 <= i < app_home.len() implies #[trigger] app_home[i] != '%'
        && app_home[i] != '"' && app_home[i] != '\r' && app_home[i] != '\n' by {
        if app_home[i] == '%' || app_home[i] == '"' || app_home[i] == '\r' || app_home[i] == '\n' {
            lemma_has_char(app_home, app_home[i], i);
        }
    }
    lemma_set_value_is_passed(codex_home, between, home, false);
    lemma_set_value_is_passed(app_home, before, last, false);
    assert(last.skip(last.len() - suffix.len()) =~= suffix);
    assert(last.take(last.len() - suffix.len()) =~= exe);
}

/// A value that is followed by another command is no generated one.
proof fn lemma_set_value_is_stopped(
    value: Seq<char>,
    separator: Seq<char>,
    rest: Seq<char>,
    saw_value: bool,
)
    requires
        carriable(value),
        rest.len() > 0 && rest[0] == '&',
        separator.len() > 0 && separator[0] == '&',
        !begins_with(rest, separator),
    ensures
        after_set_value(cmd_escaped(value) + rest, separator, saw_value) is None,
    decreases value.len(),
{
    let s = cmd_escaped(value) + rest;
    if value.len() == 0 {
        assert(cmd_escaped(value) =~= Seq::empty());
        assert(s =~= rest);
    } else {
        let c = value[0];
        let tail = value.skip(1);
        lemma_carriable_tail(value);
        lemma_set_value_is_stopped(tail, separator, rest, true);
        let later = cmd_escaped(tail) + rest;
        if cmd_special(c) {
            assert(s =~= seq!['^', c] + later);
            assert(s.skip(2) =~= later);
            assert(s[0] == '^' && s[1] == c);
        } else {
            assert(s =~= seq![c] + later);
            assert(s.skip(1) =~= later);
            assert(s[0] == c);
        }
        if begins_with(s, separator) {
            assert(s.take(separator.len() as int)[0] == s[0]);
            assert(false);
        }
    }
}

proof fn lemma_char_of_tail(value: Seq<char>, c: char)
    requires
        value.len() > 0,
    ensures
        has_char(value.skip(1), c) ==> has_char(value, c),
{
    let tail = value.skip(1);
    if has_char(tail, c) {
        lemma_until(tail, CharClass::Just(c));
        let n = until(tail, CharClass::Just(c)) as int;
        assert(tail[n] == c);
        lemma_has_char(value, c, n + 1);
    }
}

proof fn lemma_carriable_tail(value: Seq<char>)
    requires
        value.len() > 0,
        carriable(value),
    ensures
        carriable(value.skip(1)),
{
    lemma_char_of_tail(value, '%');
    lemma_char_of_tail(value, '"');
    lemma_char_of_tail(value, '\r');
    lemma_char_of_tail(value, '\n');
}

/// The arguments up to where the first value ends.
pub open spec fn first_assignment(codex_home: Seq<char>) -> Seq<char> {
    "/D /V:OFF /S /C set CODEX_HOME="@ + cmd_escaped(codex_home)
}

/// The arguments up to where the second value ends.
pub open spec fn both_assignments(codex_home: Seq<char>, app_home: Seq<char>) -> Seq<char> {
    first_assignment(codex_home) + "&& set CODEX_SWITCH_HOME="@ + cmd_escaped(app_home)
}

/// Arguments with a command between the two assignments, or between them and the
/// executable, start no executable that the ownership check knows.
pub proof fn law_an_inserted_command_starts_nothing_known(
    codex_home: Seq<char>,
    app_home: Seq<char>,
    rest: Seq<char>,
)
    requires
        carriable(codex_home),
        carriable(app_home),
    ensures
        !begins_with(rest, "set CODEX_SWITCH_HOME="@) ==> started_executable(
            first_assignment(codex_home) + "&& "@ + rest,
        ) is None,
        codex_home.len() > 0 && !begins_with(rest, "\""@) ==> started_executable(
            both_assignments(codex_home, app_home) + "&& "@ + rest,
        ) is None,
{
    let prefix = "/D /V:OFF /S /C set CODEX_HOME="@;
    let between = "&& set CODEX_SWITCH_HOME="@;
    let before = "&& \""@;
    reveal_strlit("&& ");
    reveal_strlit("\"");
    reveal_strlit("&& \"");
    reveal_strlit("set CODEX_SWITCH_HOME=");
    reveal_strlit("&& set CODEX_SWITCH_HOME=");
    let more = "&& "@ + rest;
    assert(more[0] == '&');
    if !begins_with(rest, "set CODEX_SWITCH_HOME="@) {
        let arguments = first_assignment(codex_home) + "&& "@ + rest;
        assert(arguments =~= prefix + (cmd_escaped(codex_home) + more));
        assert(arguments.take(prefix.len() as int) =~= prefix);
        assert(arguments.skip(prefix.len() as int) =~= cmd_escaped(codex_home) + more);
        if begins_with(more, between) {
            let n = "set CODEX_SWITCH_HOME="@.len() as int;
            assert(more.take(between.len() as int) == between);
            assert(rest.take(n) =~= more.take(between.len() as int).skip(3));
            assert(between.skip(3) =~= "set CODEX_SWITCH_HOME="@);
        }
        lemma_set_value_is_stopped(codex_home, between, more, false);
    }
    if codex_home.len() > 0 && !begins_with(rest, "\""@) {
        let arguments = both_assignments(codex_home, app_home) + "&& "@ + rest;
        let home = cmd_escaped(app_home) + more;
        assert(arguments =~= prefix + (cmd_escaped(codex_home) + between + home));
        assert(arguments.take(prefix.len() as int) =~= prefix);
        assert(arguments.skip(prefix.len() as int) =~= cmd_escaped(codex_home) + between + home);
        assert forall|i: int| 0 <= i < codex_home.len() implies #[trigger] codex_home[i] != '%'
            && codex_home[i] != '"' && codex_home[i] != '\r' && codex_home[i] != '\n' by {
            if codex_home[i] == '%' || codex_home[i] == '"' || codex_home[i] == '\r'
                || codex_home[i] == '\n' {
                lemma_has_char(codex_home, codex_home[i], i);
            }
        }
        lemma_set_value_is_passed(codex_home, between, home, false);
        if begins_with(more, before) {
            assert(more.take(before.len() as int) == before);
            assert(rest.take(1) =~= more.take(before.len() as int).skip(3));
            assert(before.skip(3) =~= "\""@);
        }
        lemma_set_value_is_stopped(app_home, before, more, false);
    }
}

// -- Elements --

/// Whether `needle` stands at a place of `s`.
pub open spec fn stands_at(s: Seq<char>, needle: Seq<char>, at: int) -> bool {
    0 <= at <= s.len() - needle.len() && s.subrange(at, at + needle.len()) == needle
}

/// Whether a document opens an element once, and that element holds `text`.
pub open spec fn holds_one(xml: Seq<char>, element: Seq<char>, text: Seq<char>) -> bool {
    exists|at: int|
        #[trigger] stands_at(
            xml,
            "<"@ + element + ">"@ + text + "</"@ + element + ">"@,
            at,
        ) && forall|i: int| #[trigger] stands_at(xml, "<"@ + element + ">"@, i) ==> i == at
}

/// Whether a text begins no element.
pub open spec fn opens_nothing(text: Seq<char>) -> bool {
    forall|i: int| 0 <= i < text.len() ==> #[trigger] text[i] != '<'
}

/// The only element of its name is read, with its entities replaced.
proof fn lemma_element_is_read(
    xml: Seq<char>,
    element: Seq<char>,
    text: Seq<char>,
    decoded: Seq<char>,
)
    requires
        holds_one(xml, element, text),
        opens_nothing(text),
        xml_decoded(text) == Ok::<Seq<char>, Seq<Seq<char>>>(decoded),
    ensures
        element_text(xml, element) == Ok::<Seq<char>, Seq<Seq<char>>>(decoded),
{
    reveal_strlit("<");
    reveal_strlit("</");
    reveal_strlit(">");
    let opening = "<"@ + element + ">"@;
    let closing = "</"@ + element + ">"@;
    let whole = "<"@ + element + ">"@ + text + "</"@ + element + ">"@;
    assert(whole =~= opening + text + closing);
    let at = choose|at: int|
        #[trigger] stands_at(
            xml,
            "<"@ + element + ">"@ + text + "</"@ + element + ">"@,
            at,
        ) && forall|i: int| #[trigger] stands_at(xml, "<"@ + element + ">"@, i) ==> i == at;
    let here = xml.subrange(at, at + whole.len());
    assert(here == whole);
    assert(xml.subrange(at, at + opening.len()) =~= here.take(opening.len() as int));
    assert(whole.take(opening.len() as int) =~= opening);
    assert(stands_at(xml, opening, at));
    lemma_find_from(xml, opening, 0);
    let found = crate::text::first_match(xml, opening);
    if found is None {
        assert(xml.subrange(at, at + opening.len()) != opening);
    } else {
        assert(stands_at(xml, opening, found->0));
    }
    assert(found == Some(at));
    let body = xml.skip(at + opening.len());
    let n = text.len() as int;
    assert(body.take(n) =~= here.subrange(opening.len() as int, opening.len() + n));
    assert(whole.subrange(opening.len() as int, opening.len() + n) =~= text);
    assert(body.subrange(n, n + closing.len()) =~= here.subrange(
        opening.len() + n,
        opening.len() + n + closing.len(),
    ));
    assert(whole.subrange(opening.len() + n, opening.len() + n + closing.len()) =~= closing);
    lemma_find_from(body, closing, 0);
    let end = crate::text::first_match(body, closing);
    if end is None {
        assert(body.subrange(n, n + closing.len()) != closing);
    } else if end->0 < n {
        assert(body.subrange(end->0, end->0 + closing.len())[0] == body[end->0]);
        assert(body[end->0] == body.take(n)[end->0]);
        assert(text[end->0] != '<');
        assert(closing[0] == '<');
        assert(false);
    } else if end->0 > n {
        assert(body.subrange(n, n + closing.len()) != closing);
    }
    assert(end == Some(n));
    let after = body.skip(n + closing.len());
    if crate::text::has_text(after, opening) {
        let i = choose|i: int|
            0 <= i <= after.len() - opening.len() && #[trigger] after.subrange(
                i,
                i + opening.len(),
            ) == opening;
        let j = at + opening.len() + n + closing.len() + i;
        assert(xml.subrange(j, j + opening.len()) =~= after.subrange(i, i + opening.len()));
        assert(stands_at(xml, opening, j));
        assert(false);
    }
}

/// An element stands where it stood behind a first character that opens none.
proof fn lemma_element_behind_a_mark(xml: Seq<char>, element: Seq<char>, text: Seq<char>)
    requires
        holds_one(xml, element, text),
        xml.len() > 0,
        xml[0] != '<',
    ensures
        holds_one(xml.skip(1), element, text),
{
    reveal_strlit("<");
    let opening = "<"@ + element + ">"@;
    let whole = "<"@ + element + ">"@ + text + "</"@ + element + ">"@;
    let at = choose|at: int|
        #[trigger] stands_at(
            xml,
            "<"@ + element + ">"@ + text + "</"@ + element + ">"@,
            at,
        ) && forall|i: int| #[trigger] stands_at(xml, "<"@ + element + ">"@, i) ==> i == at;
    assert(whole[0] == '<');
    assert(xml.subrange(at, at + whole.len())[0] == xml[at]);
    assert(at > 0);
    let tail = xml.skip(1);
    assert(tail.subrange(at - 1, at - 1 + whole.len()) =~= xml.subrange(at, at + whole.len()));
    assert(stands_at(tail, whole, at - 1));
    assert forall|i: int| #[trigger] stands_at(tail, opening, i) implies i == at - 1 by {
        assert(xml.subrange(i + 1, i + 1 + opening.len()) =~= tail.subrange(
            i,
            i + opening.len(),
        ));
        assert(stands_at(xml, opening, i + 1));
    }
}

// -- Encodings --

/// The UTF-16 code units of one character.
pub open spec fn char_units(c: char) -> Seq<u16> {
    let v = c as u32;
    if v < 0x10000 {
        seq![v as u16]
    } else {
        seq![
            (0xd800 + (v - 0x10000) / 0x400) as u16,
            (0xdc00 + (v - 0x10000) % 0x400) as u16,
        ]
    }
}

/// The UTF-16 code units of a text.
pub open spec fn utf16_units(text: Seq<char>) -> Seq<u16>
    decreases text.len(),
{
    if text.len() == 0 {
        Seq::empty()
    } else {
        char_units(text[0]) + utf16_units(text.skip(1))
    }
}

/// The bytes of UTF-16 code units.
pub open spec fn unit_bytes(units: Seq<u16>, little_endian: bool) -> Seq<u8> {
    Seq::new(
        2 * units.len(),
        |i: int|
            if (i % 2 == 0) == little_endian {
                (units[i / 2] % 256) as u8
            } else {
                (units[i / 2] / 256) as u8
            },
    )
}

/// How a definition is encoded.
pub enum TaskEncoding {
    Utf8,
    /// UTF-8 behind a byte-order mark.
    MarkedUtf8,
    /// UTF-16 behind a byte-order mark.
    Utf16 { little_endian: bool },
}

/// The bytes of a definition.
pub open spec fn encoded(xml: Seq<char>, encoding: TaskEncoding) -> Seq<u8> {
    match encoding {
        TaskEncoding::Utf8 => encode_utf8(xml),
        TaskEncoding::MarkedUtf8 => seq![0xefu8, 0xbbu8, 0xbfu8] + encode_utf8(xml),
        TaskEncoding::Utf16 { little_endian } => (if little_endian {
            seq![0xffu8, 0xfeu8]
        } else {
            seq![0xfeu8, 0xffu8]
        }) + unit_bytes(utf16_units(xml), little_endian),
    }
}

/// Code units are read back from their bytes.
proof fn lemma_units_are_read_back(units: Seq<u16>, little_endian: bool)
    ensures
        unit_bytes(units, little_endian).len() == 2 * units.len(),
        code_units(unit_bytes(units, little_endian), little_endian) == units,
{
    let bytes = unit_bytes(units, little_endian);
    assert forall|i: int| 0 <= i < units.len() implies #[trigger] code_unit(
        bytes[2 * i],
        bytes[2 * i + 1],
        little_endian,
    ) == units[i] by {
        assert((2 * i) % 2 == 0 && (2 * i) / 2 == i);
        assert((2 * i + 1) % 2 == 1 && (2 * i + 1) / 2 == i);
        let u = units[i];
        assert(u / 256 < 256 && u % 256 < 256 && u == 256 * (u / 256) + u % 256);
    }
    assert(code_units(bytes, little_endian) =~= units);
}

/// Reading the UTF-16 code units of a text gives the text back.
pub proof fn law_utf16_round_trip(text: Seq<char>)
    ensures
        utf16_text(utf16_units(text)) == Some(text),
    decreases text.len(),
{
    if text.len() == 0 {
        assert(utf16_units(text) =~= Seq::empty());
        assert(text =~= Seq::empty());
    } else {
        let c = text[0];
        let v = c as u32;
        let tail = text.skip(1);
        let front = char_units(c);
        let units = utf16_units(text);
        law_utf16_round_trip(tail);
        vstd::utf8::char_is_scalar(c);
        assert(units.skip(front.len() as int) =~= utf16_units(tail));
        assert(units[0] == front[0]);
        if v < 0x10000 {
            assert(front[0] == v);
            vstd::utf8::char_u32_cast(c, v);
            assert((units[0] as u32) as char == c);
        } else {
            let w: int = v - 0x10000;
            assert(0 <= w < 0x100000);
            assert(units[1] == front[1]);
            assert(front[0] == 0xd800 + w / 0x400 && front[1] == 0xdc00 + w % 0x400);
            let u = (0x10000 + (units[0] - 0xd800) * 0x400 + (units[1] - 0xdc00)) as u32;
            assert(u == v);
            vstd::utf8::char_u32_cast(c, v);
        }
        assert(seq![c] + tail =~= text);
    }
}

/// A definition is read back from its bytes, but for a byte-order mark that is
/// the first character of the UTF-8 form.
proof fn lemma_definition_is_read(xml: Seq<char>, encoding: TaskEncoding)
    ensures
        task_definition(encoded(xml, encoding)) == Ok::<Seq<char>, Seq<Seq<char>>>(xml) || (
        xml.len() > 0 && xml[0] as u32 == 0xfeff && task_definition(encoded(xml, encoding))
            == Ok::<Seq<char>, Seq<Seq<char>>>(xml.skip(1))),
{
    let bytes = encoded(xml, encoding);
    match encoding {
        TaskEncoding::Utf8 => {
            encode_utf8_valid_utf8(xml);
            encode_utf8_decode_utf8(xml);
            if xml.len() > 0 {
                encode_utf8_first_scalar(xml);
                assert(bytes.len() > 0 && bytes[0] <= 0xf7);
                if bytes.len() >= 3 && bytes[0] == 0xef && bytes[1] == 0xbb && bytes[2] == 0xbf {
                    assert((((0xefu8 & 0x0fu8) as u32) << 12) | (((0xbbu8 & 0x3fu8) as u32) << 6)
                        | ((0xbfu8 & 0x3fu8) as u32) == 0xfeffu32) by (bit_vector);
                    assert(xml[0] as u32 == 0xfeff);
                    assert(xml.drop_first() =~= xml.skip(1));
                    assert(bytes == encode_scalar(xml[0] as u32) + encode_utf8(xml.skip(1)));
                    assert(bytes.skip(3) =~= encode_utf8(xml.skip(1)));
                    encode_utf8_valid_utf8(xml.skip(1));
                    encode_utf8_decode_utf8(xml.skip(1));
                }
            }
        },
        TaskEncoding::MarkedUtf8 => {
            encode_utf8_valid_utf8(xml);
            encode_utf8_decode_utf8(xml);
            assert(bytes.skip(3) =~= encode_utf8(xml));
        },
        TaskEncoding::Utf16 { little_endian } => {
            lemma_units_are_read_back(utf16_units(xml), little_endian);
            law_utf16_round_trip(xml);
            assert(bytes.skip(2) =~= unit_bytes(utf16_units(xml), little_endian));
        },
    }
}

// -- Ownership --

/// The document of a task: one command, and one text of arguments that decodes
/// to `arguments`.
pub open spec fn task_document(
    xml: Seq<char>,
    command: Seq<char>,
    escaped: Seq<char>,
    arguments: Seq<char>,
) -> bool {
    holds_one(xml, "Command"@, command) && holds_one(xml, "Arguments"@, escaped) && opens_nothing(
        escaped,
    ) && xml_decoded(escaped) == Ok::<Seq<char>, Seq<Seq<char>>>(arguments)
}

/// What the ownership check makes of a document that runs the command
/// interpreter, in every encoding.
proof fn lemma_document_decides(
    xml: Seq<char>,
    escaped: Seq<char>,
    arguments: Seq<char>,
    encoding: TaskEncoding,
    expected: HostPath,
)
    requires
        task_document(xml, "cmd.exe"@, escaped, arguments),
        expected.unicode is Some,
    ensures
        task_owner_problem(encoded(xml, encoding), expected) is None <==> started_executable(
            arguments,
        ) == Some(expected.unicode->0@),
{
    reveal_strlit("cmd.exe");
    let command = "cmd.exe"@;
    assert(opens_nothing(command));
    lemma_until(command, CharClass::Just('&'));
    let n = until(command, CharClass::Just('&'));
    if n < command.len() {
        assert(command[n as int] == '&');
        assert(false);
    }
    assert(xml_decoded(command) == Ok::<Seq<char>, Seq<Seq<char>>>(command));
    lemma_definition_is_read(xml, encoding);
    lemma_element_is_read(xml, "Command"@, command, command);
    lemma_element_is_read(xml, "Arguments"@, escaped, arguments);
    if xml.len() > 0 && xml[0] as u32 == 0xfeff {
        assert('<' as u32 == 60);
        lemma_element_behind_a_mark(xml, "Command"@, command);
        lemma_element_behind_a_mark(xml, "Arguments"@, escaped);
        lemma_element_is_read(xml.skip(1), "Command"@, command, command);
        lemma_element_is_read(xml.skip(1), "Arguments"@, escaped, arguments);
    }
}

/// The ownership check accepts the document of an installed task for exactly the
/// executable that the task was written for: however its arguments were escaped,
/// in UTF-8 as in UTF-16.
pub proof fn law_installed_task_has_one_owner(
    exe: Seq<char>,
    codex_home: Seq<char>,
    app_home: Seq<char>,
    xml: Seq<char>,
    escaped: Seq<char>,
    encoding: TaskEncoding,
    expected: HostPath,
)
    requires
        codex_home.len() > 0 && carriable(codex_home),
        app_home.len() > 0 && carriable(app_home),
        task_document(xml, "cmd.exe"@, escaped, task_arguments(exe, codex_home, app_home)),
        expected.unicode is Some,
    ensures
        task_owner_problem(encoded(xml, encoding), expected) is None
            <==> expected.unicode->0@ == exe,
{
    law_scheduled_task_is_owned(exe, codex_home, app_home);
    lemma_document_decides(
        xml,
        escaped,
        task_arguments(exe, codex_home, app_home),
        encoding,
        expected,
    );
}

/// A document with a command between the two assignments, or between them and
/// the executable, is owned by no executable.
pub proof fn law_a_task_with_an_inserted_command_is_refused(
    codex_home: Seq<char>,
    app_home: Seq<char>,
    rest: Seq<char>,
    xml: Seq<char>,
    escaped: Seq<char>,
    arguments: Seq<char>,
    encoding: TaskEncoding,
    expected: HostPath,
)
    requires
        carriable(codex_home),
        carriable(app_home),
        task_document(xml, "cmd.exe"@, escaped, arguments),
        arguments == first_assignment(codex_home) + "&& "@ + rest && !begins_with(
            rest,
            "set CODEX_SWITCH_HOME="@,
        ) || arguments == both_assignments(codex_home, app_home) + "&& "@ + rest
            && codex_home.len() > 0 && !begins_with(rest, "\""@),
    ensures
        task_owner_problem(encoded(xml, encoding), expected) is Some,
{
    law_an_inserted_command_starts_nothing_known(codex_home, app_home, rest);
    if expected.unicode is Some {
        lemma_document_decides(xml, escaped, arguments, encoding, expected);
    }
}

} // verus!
