//! Who owns an installed service definition: the executable that its command
//! line starts.
use vstd::prelude::*;
use vstd::slice::slice_subrange;
use vstd::utf8::{decode_utf8, valid_utf8};

use crate::fault::{join2, join3, Fault};
use crate::host_path::{HostPath, PathComponent, Platform};
use crate::number::{parse_unsigned, unsigned_value};
use crate::outside::{
    u32_radix_refusal, u32_radix_words, u32_refusal, u32_words, utf16_refusal, utf16_words,
    utf8_refusal, utf8_text,
};
use crate::service_render::{
    cmd_special, exec_start, exec_start_line, is_cmd_special, LAUNCHD_LABEL,
};
use crate::text::{
    after_prefix, before_suffix, begins_with, chars_of, contains_text, equals, equals_ignore_case,
    find, first_match, has_text, lines, lower, optional_text, owned_text, position, runs, same_text,
    slice_view, split_lines, starts_with, strip_prefix, strip_suffix, text_of, trim_front,
    trim_start, until, CharClass,
};

verus! {

/// `char::from_u32`: the character with this code point, where there is one.
pub assume_specification[ char::from_u32 ](value: u32) -> (r: Option<char>)
    ensures
        match r {
            Some(c) => c as u32 == value && is_code_point(value),
            None => !is_code_point(value),
        },
;

/// The code points that are characters: all but the surrogates.
pub open spec fn is_code_point(value: u32) -> bool {
    value < 0xd800 || 0xe000 <= value <= 0x10ffff
}

// -- Expected executables --

/// Whether a path goes through the current or the parent directory.
pub open spec fn has_relative_component(components: Seq<PathComponent>) -> bool {
    exists|i: int|
        0 <= i < components.len() && (#[trigger] components[i] is Current || components[i] is Parent)
}

/// What is wrong with an expected service executable.
pub open spec fn executable_problem(path: HostPath) -> Option<Seq<char>> {
    if !path.absolute {
        Some("expected service executable must be an absolute path: "@ + path.display@)
    } else if has_relative_component(path.components@) {
        Some("expected service executable must not contain '.' or '..': "@ + path.display@)
    } else {
        None
    }
}

/// An expected service executable must be absolute and lexically normal.
pub fn validate_expected_executable(path: &HostPath) -> (r: Result<(), Fault>)
    ensures
        match executable_problem(*path) {
            Some(message) => r matches Err(fault) && fault@ == seq![message],
            None => r is Ok,
        },
{
    if !path.absolute {
        return Err(
            Fault::from_text(
                join2(
                    "expected service executable must be an absolute path: ",
                    path.display.as_str(),
                ),
            ),
        );
    }
    let mut i: usize = 0;
    while i < path.components.len()
        invariant
            i <= path.components@.len(),
            path.absolute,
            forall|k: int|
                0 <= k < i ==> !(#[trigger] path.components@[k] is Current || path.components@[k] is Parent),
        decreases path.components@.len() - i,
    {
        let relative = match &path.components[i] {
            PathComponent::Current => true,
            PathComponent::Parent => true,
            _ => false,
        };
        if relative {
            assert(has_relative_component(path.components@));
            return Err(
                Fault::from_text(
                    join2(
                        "expected service executable must not contain '.' or '..': ",
                        path.display.as_str(),
                    ),
                ),
            );
        }
        i = i + 1;
    }
    Ok(())
}

/// What forbids moving a service from another executable.
pub open spec fn migration_problem(platform: Platform, expected: Option<HostPath>) -> Option<
    Seq<char>,
> {
    match expected {
        None => None,
        Some(path) => if executable_problem(path) is Some {
            executable_problem(path)
        } else if platform == Platform::Windows {
            Some(
                "scheduled-task executable migration is not supported on Windows; uninstall the exactly owned task before installing a different executable"@,
            )
        } else {
            None
        },
    }
}

/// The content of an optional reference.
pub open spec fn optional_path(path: Option<&HostPath>) -> Option<HostPath> {
    match path {
        Some(p) => Some(*p),
        None => None,
    }
}

/// A service may be moved from another executable only where that executable is
/// named exactly, and not on Windows.
pub fn validate_install_migration_authority(platform: Platform, expected: Option<&HostPath>) -> (r:
    Result<(), Fault>)
    ensures
        match migration_problem(platform, optional_path(expected)) {
            Some(message) => r matches Err(fault) && fault@ == seq![message],
            None => r is Ok,
        },
{
    match expected {
        None => Ok(()),
        Some(path) => match validate_expected_executable(path) {
            Err(fault) => Err(fault),
            Ok(()) => if platform == Platform::Windows {
                Err(
                    Fault::of(
                        "scheduled-task executable migration is not supported on Windows; uninstall the exactly owned task before installing a different executable",
                    ),
                )
            } else {
                Ok(())
            },
        },
    }
}

// -- systemd --

/// The lines that set the command of a unit.
pub open spec fn exec_lines(rows: Seq<Seq<char>>) -> Seq<Seq<char>>
    decreases rows.len(),
{
    if rows.len() == 0 {
        Seq::empty()
    } else {
        let head = exec_lines(rows.drop_last());
        if begins_with(trim_front(rows.last(), CharClass::WhiteSpace), "ExecStart="@) {
            head.push(rows.last())
        } else {
            head
        }
    }
}

/// What keeps a unit from being owned by an executable.
pub open spec fn systemd_owner_problem(contents: Seq<u8>, expected: HostPath) -> Option<
    Seq<Seq<char>>,
> {
    match expected.unicode {
        None => Some(
            seq!["expected systemd executable is not valid Unicode: "@ + expected.display@],
        ),
        Some(exe) => if !valid_utf8(contents) {
            Some(seq!["systemd definition is not UTF-8"@, utf8_refusal(contents)])
        } else if exec_lines(lines(decode_utf8(contents))) != seq![exec_start(exe@)] {
            Some(seq!["systemd definition is not owned by executable "@ + expected.display@])
        } else {
            None
        },
    }
}

/// A unit is owned by an executable where its one `ExecStart=` line is exactly
/// the one that an installation for that executable writes.
pub fn validate_systemd_definition_owner(contents: &[u8], expected: &HostPath) -> (r: Result<
    (),
    Fault,
>)
    ensures
        match systemd_owner_problem(contents@, *expected) {
            Some(messages) => r matches Err(fault) && fault@ == messages,
            None => r is Ok,
        },
{
    let exe = match &expected.unicode {
        Some(exe) => exe,
        None => {
            return Err(
                Fault::from_text(
                    join2(
                        "expected systemd executable is not valid Unicode: ",
                        expected.display.as_str(),
                    ),
                ),
            );
        },
    };
    let expected_line = exec_start_line(exe.as_str());
    let definition = match utf8_text(contents) {
        Ok(text) => text,
        Err(words) => {
            return Err(Fault::because("systemd definition is not UTF-8", words));
        },
    };
    let chars = chars_of(definition.as_str());
    let rows = split_lines(chars.as_slice());
    let ghost all = lines(definition@);
    let mut found: usize = 0;
    let mut exact = true;
    let mut i: usize = 0;
    assert(all.take(0) =~= Seq::empty());
    while i < rows.len()
        invariant
            i <= rows@.len(),
            all == runs(rows@),
            found <= i,
            found == exec_lines(all.take(i as int)).len(),
            exact <==> forall|k: int|
                0 <= k < found ==> #[trigger] exec_lines(all.take(i as int))[k] == expected_line@,
        decreases rows@.len() - i,
    {
        let row = rows[i];
        let ghost before = exec_lines(all.take(i as int));
        proof {
            assert(all.take(i + 1).drop_last() =~= all.take(i as int));
            assert(all.take(i + 1).last() == row@);
        }
        if starts_with(trim_start(row, CharClass::WhiteSpace), "ExecStart=") {
            let same = equals(row, expected_line.as_str());
            proof {
                let after = exec_lines(all.take(i + 1));
                assert(after == before.push(row@));
                if exact && same {
                    assert forall|k: int| 0 <= k < found + 1 implies #[trigger] after[k]
                        == expected_line@ by {
                        if k < found {
                            assert(after[k] == before[k]);
                        }
                    }
                }
                if !exact {
                    let k = choose|k: int|
                        0 <= k < found && #[trigger] before[k] != expected_line@;
                    assert(after[k] == before[k]);
                }
                if !same {
                    assert(after[found as int] == row@);
                }
            }
            exact = exact && same;
            found = found + 1;
        }
        i = i + 1;
    }
    assert(all.take(i as int) =~= all);
    let ghost listed = exec_lines(all);
    if found == 1 && exact {
        assert(listed[0] == expected_line@);
        assert(listed =~= seq![expected_line@]);
        Ok(())
    } else {
        proof {
            if listed == seq![expected_line@] {
                assert(listed.len() == 1);
                assert forall|k: int| 0 <= k < 1 implies #[trigger] listed[k] == expected_line@ by {
                    assert(seq![expected_line@][k] == expected_line@);
                }
                assert(false);
            }
        }
        Err(
            Fault::from_text(
                join2("systemd definition is not owned by executable ", expected.display.as_str()),
            ),
        )
    }
}

// -- launchd --

/// Whether the arguments are those that an installation for `exe` writes.
pub open spec fn launchd_arguments_match(arguments: Seq<Option<String>>, exe: Seq<char>) -> bool {
    arguments.len() == 4 && owned_text(arguments[0]) == Some(exe) && owned_text(arguments[1])
        == Some("daemon"@) && owned_text(arguments[2]) == Some("start"@) && owned_text(arguments[3])
        == Some("--foreground"@)
}

/// What keeps a LaunchAgent from being owned by an executable. Its arguments
/// are given as far as they are texts.
pub open spec fn launchd_owner_problem(
    label: Option<Seq<char>>,
    arguments: Option<Seq<Option<String>>>,
    expected: HostPath,
) -> Option<Seq<char>> {
    match expected.unicode {
        None => Some("expected LaunchAgent executable is not valid Unicode: "@ + expected.display@),
        Some(exe) => if label == Some(LAUNCHD_LABEL@) && arguments is Some && launchd_arguments_match(
            arguments->0,
            exe@,
        ) {
            None
        } else {
            Some("LaunchAgent definition is not owned by executable "@ + expected.display@)
        },
    }
}

/// The list behind an optional reference.
pub open spec fn optional_list(list: Option<&Vec<Option<String>>>) -> Option<Seq<Option<String>>> {
    match list {
        Some(l) => Some(l@),
        None => None,
    }
}

fn is_text(value: &Option<String>, text: &str) -> (r: bool)
    ensures
        r == (owned_text(*value) == Some(text@)),
{
    match value {
        Some(v) => same_text(v.as_str(), text),
        None => false,
    }
}

/// A LaunchAgent is owned by an executable where its label is the daemon's and
/// its arguments are exactly those that an installation for that executable
/// writes.
pub fn validate_launchd_definition_value(
    label: Option<&str>,
    arguments: Option<&Vec<Option<String>>>,
    expected: &HostPath,
) -> (r: Result<(), Fault>)
    ensures
        match launchd_owner_problem(optional_text(label), optional_list(arguments), *expected) {
            Some(message) => r matches Err(fault) && fault@ == seq![message],
            None => r is Ok,
        },
{
    let exe = match &expected.unicode {
        Some(exe) => exe,
        None => {
            return Err(
                Fault::from_text(
                    join2(
                        "expected LaunchAgent executable is not valid Unicode: ",
                        expected.display.as_str(),
                    ),
                ),
            );
        },
    };
    let labelled = match label {
        Some(text) => same_text(text, LAUNCHD_LABEL),
        None => false,
    };
    let owned = labelled && match arguments {
        Some(list) => list.len() == 4 && is_text(&list[0], exe.as_str()) && is_text(
            &list[1],
            "daemon",
        ) && is_text(&list[2], "start") && is_text(&list[3], "--foreground"),
        None => false,
    };
    if owned {
        Ok(())
    } else {
        Err(
            Fault::from_text(
                join2(
                    "LaunchAgent definition is not owned by executable ",
                    expected.display.as_str(),
                ),
            ),
        )
    }
}

/// A text member and a list member of a JSON document, the elements of the list
/// as far as they are texts; the parser's words where the document is not JSON.
pub uninterp spec fn json_members(
    document: Seq<u8>,
    text_key: Seq<char>,
    list_key: Seq<char>,
) -> Result<(Option<Seq<char>>, Option<Seq<Option<Seq<char>>>>), Seq<char>>;

/// The texts of a list of optional strings.
pub open spec fn optional_views(list: Seq<Option<String>>) -> Seq<Option<Seq<char>>> {
    Seq::new(list.len(), |i: int| owned_text(list[i]))
}

/// The texts of a list of optional strings, if there is a list.
pub open spec fn optional_list_views(list: Option<Vec<Option<String>>>) -> Option<
    Seq<Option<Seq<char>>>,
> {
    match list {
        Some(items) => Some(optional_views(items@)),
        None => None,
    }
}

/// `serde_json::from_slice` into a `serde_json::Value`, then `get` with `as_str`
/// for one key, and `get` with `as_array` and `as_str` of each element for the
/// other: what they give, the error's words included, is a function of the
/// document and the keys alone.
#[verifier::external_body]
fn json_members_of(document: &[u8], text_key: &str, list_key: &str) -> (r: Result<
    (Option<String>, Option<Vec<Option<String>>>),
    String,
>)
    ensures
        match r {
            Err(words) => json_members(document@, text_key@, list_key@)
                == Err::<(Option<Seq<char>>, Option<Seq<Option<Seq<char>>>>), Seq<char>>(words@),
            Ok((text, list)) => json_members(document@, text_key@, list_key@) == Ok::<
                (Option<Seq<char>>, Option<Seq<Option<Seq<char>>>>),
                Seq<char>,
            >((owned_text(text), optional_list_views(list))),
        },
{
    let value = serde_json::from_slice::<serde_json::Value>(document).map_err(|e| e.to_string())?;
    let text = value.get(text_key).and_then(serde_json::Value::as_str).map(str::to_owned);
    let list = value.get(list_key).and_then(serde_json::Value::as_array).map(
        |items| items.iter().map(|item| item.as_str().map(str::to_owned)).collect(),
    );
    Ok((text, list))
}

/// Whether the texts are those that an installation for `exe` writes.
pub open spec fn launchd_texts_match(arguments: Seq<Option<Seq<char>>>, exe: Seq<char>) -> bool {
    arguments == seq![
        Some(exe),
        Some("daemon"@),
        Some("start"@),
        Some("--foreground"@),
    ]
}

proof fn lemma_launchd_texts(list: Seq<Option<String>>, exe: Seq<char>)
    ensures
        launchd_arguments_match(list, exe) <==> launchd_texts_match(optional_views(list), exe),
{
    let views = optional_views(list);
    let wanted = seq![Some(exe), Some("daemon"@), Some("start"@), Some("--foreground"@)];
    if launchd_arguments_match(list, exe) {
        assert(views =~= wanted);
    }
    if views == wanted {
        assert(views[0] == wanted[0] && views[1] == wanted[1] && views[2] == wanted[2] && views[3]
            == wanted[3]);
        assert(wanted.len() == 4 && views.len() == list.len());
    }
}

/// Why a LaunchAgent definition, converted to JSON, is not owned by an
/// executable.
pub open spec fn launchd_document_problem(document: Seq<u8>, expected: HostPath) -> Option<
    Seq<Seq<char>>,
> {
    match json_members(document, "Label"@, "ProgramArguments"@) {
        Ok((label, arguments)) => {
            let owned = expected.unicode is Some && label == Some(LAUNCHD_LABEL@)
                && arguments is Some && launchd_texts_match(arguments->0, expected.unicode->0@);
            if owned {
                None
            } else if expected.unicode is None {
                Some(
                    seq![
                        "expected LaunchAgent executable is not valid Unicode: "@
                            + expected.display@,
                    ],
                )
            } else {
                Some(
                    seq![
                        "LaunchAgent definition is not owned by executable "@ + expected.display@,
                    ],
                )
            }
        },
        Err(words) => Some(seq!["parsing plutil LaunchAgent JSON output"@, words]),
    }
}

/// A LaunchAgent definition, converted to JSON, is owned by an executable as
/// `validate_launchd_definition_value` says of its label and arguments.
pub fn validate_launchd_definition_owner(document: &[u8], expected: &HostPath) -> (r: Result<
    (),
    Fault,
>)
    ensures
        match launchd_document_problem(document@, *expected) {
            Some(messages) => r matches Err(fault) && fault@ == messages,
            None => r is Ok,
        },
{
    match json_members_of(document, "Label", "ProgramArguments") {
        Err(words) => Err(
            Fault::from_text(words).within("parsing plutil LaunchAgent JSON output"),
        ),
        Ok((label, arguments)) => {
            let label_text = match &label {
                Some(text) => Some(text.as_str()),
                None => None,
            };
            proof {
                if arguments is Some && expected.unicode is Some {
                    lemma_launchd_texts(arguments->0@, expected.unicode->0@);
                }
            }
            validate_launchd_definition_value(
                label_text,
                match &arguments {
                    Some(list) => Some(list),
                    None => None,
                },
                expected,
            )
        },
    }
}

// -- Windows Task Scheduler --

/// The character that an XML entity stands for, or what is wrong with it.
pub open spec fn xml_entity(entity: Seq<char>) -> Result<char, Seq<Seq<char>>> {
    if entity == "amp"@ {
        Ok('&')
    } else if entity == "lt"@ {
        Ok('<')
    } else if entity == "gt"@ {
        Ok('>')
    } else if entity == "quot"@ {
        Ok('"')
    } else if entity == "apos"@ {
        Ok('\'')
    } else if begins_with(entity, "#x"@) {
        numbered_char(
            unsigned_value(entity.skip("#x"@.len() as int), 16, u32::MAX as nat),
            seq![
                "invalid hexadecimal XML entity"@,
                u32_radix_refusal(entity.skip("#x"@.len() as int), 16),
            ],
        )
    } else if begins_with(entity, "#"@) {
        numbered_char(
            unsigned_value(entity.skip("#"@.len() as int), 10, u32::MAX as nat),
            seq!["invalid decimal XML entity"@, u32_refusal(entity.skip("#"@.len() as int))],
        )
    } else {
        Err(seq!["unsupported XML entity '&"@ + entity + ";' in scheduled-task definition"@])
    }
}

/// The character with a given code point.
pub open spec fn numbered_char(value: Option<nat>, problem: Seq<Seq<char>>) -> Result<
    char,
    Seq<Seq<char>>,
> {
    match value {
        None => Err(problem),
        Some(v) => if is_code_point(v as u32) {
            Ok((v as u32) as char)
        } else {
            Err(seq!["invalid Unicode XML entity"@])
        },
    }
}

/// XML text with its entities replaced, or what is wrong with it.
pub open spec fn xml_decoded(s: Seq<char>) -> Result<Seq<char>, Seq<Seq<char>>>
    decreases s.len(),
{
    let n = until(s, CharClass::Just('&'));
    if n >= s.len() {
        Ok(s)
    } else {
        let rest = s.skip(n as int + 1);
        let m = until(rest, CharClass::Just(';'));
        if m >= rest.len() {
            Err(seq!["unterminated XML entity in scheduled-task definition"@])
        } else {
            match xml_entity(rest.take(m as int)) {
                Err(messages) => Err(messages),
                Ok(c) => match xml_decoded(rest.skip(m as int + 1)) {
                    Err(messages) => Err(messages),
                    Ok(tail) => Ok(s.take(n as int) + seq![c] + tail),
                },
            }
        }
    }
}

fn numbered(value: Option<u64>, problem: Fault) -> (r: Result<char, Fault>)
    requires
        value matches Some(v) ==> v <= u32::MAX,
    ensures
        match (
            r,
            numbered_char(
                match value {
                    Some(v) => Some(v as nat),
                    None => None,
                },
                problem@,
            ),
        ) {
            (Ok(c), Ok(d)) => c == d,
            (Err(fault), Err(messages)) => fault@ == messages,
            _ => false,
        },
{
    match value {
        None => Err(problem),
        Some(v) => match char::from_u32(v as u32) {
            Some(c) => {
                proof {
                    vstd::utf8::char_u32_cast(c, v as u32);
                }
                Ok(c)
            },
            None => Err(Fault::of("invalid Unicode XML entity")),
        },
    }
}

fn entity_char(entity: &[char]) -> (r: Result<char, Fault>)
    ensures
        match (r, xml_entity(entity@)) {
            (Ok(c), Ok(d)) => c == d,
            (Err(fault), Err(messages)) => fault@ == messages,
            _ => false,
        },
{
    if equals(entity, "amp") {
        return Ok('&');
    }
    if equals(entity, "lt") {
        return Ok('<');
    }
    if equals(entity, "gt") {
        return Ok('>');
    }
    if equals(entity, "quot") {
        return Ok('"');
    }
    if equals(entity, "apos") {
        return Ok('\'');
    }
    if let Some(digits) = strip_prefix(entity, "#x") {
        return numbered(
            parse_unsigned(digits, 16, u32::MAX as u64),
            Fault::because(
                "invalid hexadecimal XML entity",
                u32_radix_words(text_of(digits).as_str(), 16),
            ),
        );
    }
    if let Some(digits) = strip_prefix(entity, "#") {
        return numbered(
            parse_unsigned(digits, 10, u32::MAX as u64),
            Fault::because("invalid decimal XML entity", u32_words(text_of(digits).as_str())),
        );
    }
    Err(
        Fault::from_text(
            join3(
                "unsupported XML entity '&",
                text_of(entity).as_str(),
                ";' in scheduled-task definition",
            ),
        ),
    )
}

fn append_run(out: &mut Vec<char>, run: &[char])
    ensures
        final(out)@ == old(out)@ + run@,
{
    let mut i: usize = 0;
    assert(out@ =~= old(out)@ + run@.take(0));
    while i < run.len()
        invariant
            i <= run@.len(),
            out@ == old(out)@ + run@.take(i as int),
        decreases run@.len() - i,
    {
        out.push(run[i]);
        i = i + 1;
        assert(out@ =~= old(out)@ + run@.take(i as int));
    }
    assert(run@.take(i as int) =~= run@);
}

/// XML text with its entities replaced.
pub fn decode_xml_text(text: &[char]) -> (r: Result<Vec<char>, Fault>)
    ensures
        match (r, xml_decoded(text@)) {
            (Ok(chars), Ok(decoded)) => chars@ == decoded,
            (Err(fault), Err(messages)) => fault@ == messages,
            _ => false,
        },
{
    let mut decoded: Vec<char> = Vec::new();
    let mut rest = text;
    proof {
        if xml_decoded(text@) is Ok {
            assert(decoded@ + xml_decoded(text@)->Ok_0 =~= xml_decoded(text@)->Ok_0);
        }
    }
    loop
        invariant
            match (xml_decoded(rest@), xml_decoded(text@)) {
                (Ok(tail), Ok(whole)) => decoded@ + tail == whole,
                (Err(a), Err(b)) => a == b,
                _ => false,
            },
        decreases rest@.len(),
    {
        let n: usize = position(rest, CharClass::Just('&'));
        let ghost before = decoded@;
        if n == rest.len() {
            append_run(&mut decoded, rest);
            return Ok(decoded);
        }
        let plain = slice_subrange(rest, 0, n);
        assert(plain@ =~= rest@.take(n as int));
        let tail = slice_subrange(rest, n + 1, rest.len());
        assert(tail@ =~= rest@.skip(n as int + 1));
        let m: usize = position(tail, CharClass::Just(';'));
        if m == tail.len() {
            return Err(Fault::of("unterminated XML entity in scheduled-task definition"));
        }
        let entity = slice_subrange(tail, 0, m);
        assert(entity@ =~= tail@.take(m as int));
        let c = match entity_char(entity) {
            Ok(c) => c,
            Err(fault) => {
                return Err(fault);
            },
        };
        append_run(&mut decoded, plain);
        decoded.push(c);
        let next = slice_subrange(tail, m + 1, tail.len());
        assert(next@ =~= tail@.skip(m as int + 1));
        proof {
            if xml_decoded(next@) is Ok {
                assert(decoded@ + xml_decoded(next@)->Ok_0 =~= before + (rest@.take(n as int)
                    + seq![c] + xml_decoded(next@)->Ok_0));
            }
        }
        rest = next;
    }
}

/// The text of the only `element` of a document, or what is wrong with it.
pub open spec fn element_text(xml: Seq<char>, element: Seq<char>) -> Result<
    Seq<char>,
    Seq<Seq<char>>,
> {
    let opening = "<"@ + element + ">"@;
    let closing = "</"@ + element + ">"@;
    match first_match(xml, opening) {
        None => Err(seq!["scheduled-task XML is missing <"@ + element + ">"@]),
        Some(at) => {
            let body = xml.skip(at + opening.len());
            match first_match(body, closing) {
                None => Err(seq!["scheduled-task XML is missing </"@ + element + ">"@]),
                Some(end) => if has_text(body.skip(end + closing.len()), opening) {
                    Err(seq!["scheduled-task XML contains multiple <"@ + element + "> elements"@])
                } else {
                    xml_decoded(body.take(end))
                },
            }
        },
    }
}

/// The text of the only `element` of a document.
pub fn single_xml_element_text(xml: &[char], element: &str) -> (r: Result<Vec<char>, Fault>)
    ensures
        match (r, element_text(xml@, element@)) {
            (Ok(chars), Ok(text)) => chars@ == text,
            (Err(fault), Err(messages)) => fault@ == messages,
            _ => false,
        },
{
    let opening = join3("<", element, ">");
    let closing = join3("</", element, ">");
    let opening_len: usize = chars_of(opening.as_str()).len();
    let closing_len: usize = chars_of(closing.as_str()).len();
    let total: usize = xml.len();
    let at: usize = match find(xml, opening.as_str()) {
        Some(at) => at,
        None => {
            return Err(
                Fault::from_text(join3("scheduled-task XML is missing <", element, ">")),
            );
        },
    };
    let body = slice_subrange(xml, at + opening_len, total);
    assert(body@ =~= xml@.skip(at + opening@.len()));
    let left: usize = body.len();
    let end: usize = match find(body, closing.as_str()) {
        Some(end) => end,
        None => {
            return Err(
                Fault::from_text(join3("scheduled-task XML is missing </", element, ">")),
            );
        },
    };
    let after = slice_subrange(body, end + closing_len, left);
    assert(after@ =~= body@.skip(end + closing@.len()));
    if contains_text(after, opening.as_str()) {
        return Err(
            Fault::from_text(
                join3("scheduled-task XML contains multiple <", element, "> elements"),
            ),
        );
    }
    let inside = slice_subrange(body, 0, end);
    assert(inside@ =~= body@.take(end as int));
    decode_xml_text(inside)
}

/// A character that no generated `set` value holds unescaped.
pub open spec fn cmd_forbidden(c: char) -> bool {
    (cmd_special(c) && c != '^') || c == '%' || c == '"' || c == '\r' || c == '\n'
}

/// What follows a generated `set` value and its separator. The value must not
/// be empty, and every special character in it must be escaped.
pub open spec fn after_set_value(value: Seq<char>, separator: Seq<char>, saw_value: bool) -> Option<
    Seq<char>,
>
    decreases value.len(),
{
    if value.len() == 0 {
        None
    } else if begins_with(value, separator) {
        if saw_value {
            Some(value.skip(separator.len() as int))
        } else {
            None
        }
    } else if value[0] == '^' {
        if value.len() >= 2 && cmd_special(value[1]) {
            after_set_value(value.skip(2), separator, true)
        } else {
            None
        }
    } else if cmd_forbidden(value[0]) {
        None
    } else {
        after_set_value(value.skip(1), separator, true)
    }
}

/// What follows a generated `set` value and its separator.
pub fn strip_generated_cmd_set_value<'a>(value: &'a [char], separator: &str) -> (r: Option<
    &'a [char],
>)
    ensures
        slice_view(r) == after_set_value(value@, separator@, false),
{
    let mut rest = value;
    let mut saw_value = false;
    loop
        invariant
            after_set_value(rest@, separator@, saw_value) == after_set_value(
                value@,
                separator@,
                false,
            ),
        decreases rest@.len(),
    {
        if rest.len() == 0 {
            return None;
        }
        if let Some(tail) = strip_prefix(rest, separator) {
            return if saw_value {
                Some(tail)
            } else {
                None
            };
        }
        let c = rest[0];
        if c == '^' {
            if rest.len() < 2 || !is_cmd_special(rest[1]) {
                return None;
            }
            let tail = slice_subrange(rest, 2, rest.len());
            assert(tail@ =~= rest@.skip(2));
            rest = tail;
        } else {
            if is_cmd_special(c) || c == '%' || c == '"' || c == '\r' || c == '\n' {
                return None;
            }
            let tail = slice_subrange(rest, 1, rest.len());
            assert(tail@ =~= rest@.skip(1));
            rest = tail;
        }
        saw_value = true;
    }
}

/// The executable that the arguments of a scheduled task start, as far as they
/// have the shape that an installation writes.
pub open spec fn started_executable(arguments: Seq<char>) -> Option<Seq<char>> {
    match after_prefix(arguments, "/D /V:OFF /S /C set CODEX_HOME="@) {
        None => None,
        Some(homes) => match after_set_value(homes, "&& set CODEX_SWITCH_HOME="@, false) {
            None => None,
            Some(home) => match after_set_value(home, "&& \""@, false) {
                None => None,
                Some(tail) => before_suffix(tail, "\" daemon start --foreground"@),
            },
        },
    }
}

/// Two bytes as one UTF-16 code unit.
pub open spec fn code_unit(a: u8, b: u8, little_endian: bool) -> u16 {
    if little_endian {
        (a + 256 * b) as u16
    } else {
        (256 * a + b) as u16
    }
}

/// The UTF-16 code units of an even number of bytes.
pub open spec fn code_units(bytes: Seq<u8>, little_endian: bool) -> Seq<u16> {
    Seq::new(
        bytes.len() / 2,
        |i: int| code_unit(bytes[2 * i], bytes[2 * i + 1], little_endian),
    )
}

/// The text that UTF-16 code units encode: a unit outside the surrogates is a
/// character, a high and a low surrogate together are one, and nothing else is
/// valid.
pub open spec fn utf16_text(units: Seq<u16>) -> Option<Seq<char>>
    decreases units.len(),
{
    if units.len() == 0 {
        Some(Seq::empty())
    } else if units[0] < 0xd800 || units[0] >= 0xe000 {
        match utf16_text(units.skip(1)) {
            Some(rest) => Some(seq![(units[0] as u32) as char] + rest),
            None => None,
        }
    } else if units[0] < 0xdc00 && units.len() >= 2 && 0xdc00 <= units[1] < 0xe000 {
        match utf16_text(units.skip(2)) {
            Some(rest) => Some(
                seq![
                    (0x10000 + (units[0] - 0xd800) * 0x400 + (units[1] - 0xdc00)) as u32 as char,
                ] + rest,
            ),
            None => None,
        }
    } else {
        None
    }
}

/// The text of a scheduled-task definition: UTF-16 behind a byte-order mark,
/// and UTF-8 with or without one otherwise.
pub open spec fn task_definition(definition: Seq<u8>) -> Result<Seq<char>, Seq<Seq<char>>> {
    if definition.len() >= 2 && (definition[0] == 0xff && definition[1] == 0xfe || definition[0]
        == 0xfe && definition[1] == 0xff) {
        let body = definition.skip(2);
        if body.len() % 2 != 0 {
            Err(seq!["scheduled-task UTF-16 XML has an odd byte length"@])
        } else {
            let units = code_units(body, definition[0] == 0xff);
            match utf16_text(units) {
                Some(text) => Ok(text),
                None => Err(
                    seq!["scheduled-task XML contains invalid UTF-16"@, utf16_refusal(units)],
                ),
            }
        }
    } else {
        let body = if definition.len() >= 3 && definition[0] == 0xef && definition[1] == 0xbb
            && definition[2] == 0xbf {
            definition.skip(3)
        } else {
            definition
        };
        if valid_utf8(body) {
            Ok(decode_utf8(body))
        } else {
            Err(
                seq![
                    "scheduled-task XML is neither valid UTF-8 nor BOM-marked UTF-16"@,
                    utf8_refusal(body),
                ],
            )
        }
    }
}

fn decode_utf16(units: &Vec<u16>) -> (r: Option<Vec<char>>)
    ensures
        match r {
            Some(chars) => utf16_text(units@) == Some(chars@),
            None => utf16_text(units@) is None,
        },
{
    let mut out: Vec<char> = Vec::new();
    let mut i: usize = 0;
    assert(units@.skip(0) =~= units@);
    proof {
        if utf16_text(units@) is Some {
            assert(out@ + utf16_text(units@)->0 =~= utf16_text(units@)->0);
        }
    }
    while i < units.len()
        invariant
            i <= units@.len(),
            match (utf16_text(units@.skip(i as int)), utf16_text(units@)) {
                (Some(tail), Some(whole)) => out@ + tail == whole,
                (None, None) => true,
                _ => false,
            },
        decreases units@.len() - i,
    {
        let ghost here = units@.skip(i as int);
        let ghost before = out@;
        let unit: u32 = units[i] as u32;
        assert(here[0] == units@[i as int]);
        let width: usize = if unit < 0xd800 || unit >= 0xe000 {
            1
        } else {
            2
        };
        let code: u32 = if width == 1 {
            unit
        } else {
            if unit >= 0xdc00 || i + 1 >= units.len() {
                return None;
            }
            assert(here[1] == units@[i + 1]);
            let low: u32 = units[i + 1] as u32;
            if low < 0xdc00 || low >= 0xe000 {
                return None;
            }
            0x10000 + (unit - 0xd800) * 0x400 + (low - 0xdc00)
        };
        match char::from_u32(code) {
            Some(c) => {
                out.push(c);
                i = i + width;
                proof {
                    vstd::utf8::char_u32_cast(c, code);
                    assert(here.skip(width as int) =~= units@.skip(i as int));
                    let tail = utf16_text(units@.skip(i as int));
                    if tail is Some {
                        assert(out@ + tail->0 =~= before + (seq![c] + tail->0));
                    }
                }
            },
            None => {
                assert(false);
                return None;
            },
        }
    }
    assert(units@.skip(i as int) =~= Seq::empty());
    assert(out@ + Seq::<char>::empty() =~= out@);
    Some(out)
}

fn units_of(bytes: &[u8], little_endian: bool) -> (r: Vec<u16>)
    requires
        bytes@.len() % 2 == 0,
    ensures
        r@ == code_units(bytes@, little_endian),
{
    let mut out: Vec<u16> = Vec::new();
    let mut i: usize = 0;
    let n: usize = bytes.len();
    let half: usize = n / 2;
    while i < half
        invariant
            i <= half,
            n == bytes@.len(),
            half == bytes@.len() / 2,
            bytes@.len() % 2 == 0,
            out@.len() == i,
            forall|k: int|
                0 <= k < i ==> #[trigger] out@[k] == code_unit(
                    bytes@[2 * k],
                    bytes@[2 * k + 1],
                    little_endian,
                ),
        decreases half - i,
    {
        let a = bytes[2 * i];
        let b = bytes[2 * i + 1];
        if little_endian {
            out.push(a as u16 + 256 * (b as u16));
        } else {
            out.push(256 * (a as u16) + b as u16);
        }
        i = i + 1;
    }
    assert(out@ =~= code_units(bytes@, little_endian));
    out
}

/// The text of a scheduled-task definition.
pub fn decode_task_definition_xml(definition: &[u8]) -> (r: Result<Vec<char>, Fault>)
    ensures
        match (r, task_definition(definition@)) {
            (Ok(chars), Ok(text)) => chars@ == text,
            (Err(fault), Err(messages)) => fault@ == messages,
            _ => false,
        },
{
    let n: usize = definition.len();
    if n >= 2 && ((definition[0] == 0xff && definition[1] == 0xfe) || (definition[0] == 0xfe
        && definition[1] == 0xff)) {
        let body = slice_subrange(definition, 2, n);
        assert(body@ =~= definition@.skip(2));
        if body.len() % 2 != 0 {
            return Err(Fault::of("scheduled-task UTF-16 XML has an odd byte length"));
        }
        let units = units_of(body, definition[0] == 0xff);
        return match decode_utf16(&units) {
            Some(chars) => Ok(chars),
            None => Err(
                Fault::because(
                    "scheduled-task XML contains invalid UTF-16",
                    utf16_words(units.as_slice()),
                ),
            ),
        };
    }
    let body = if n >= 3 && definition[0] == 0xef && definition[1] == 0xbb && definition[2]
        == 0xbf {
        slice_subrange(definition, 3, n)
    } else {
        definition
    };
    assert(n >= 3 ==> definition@.subrange(3, n as int) =~= definition@.skip(3));
    match utf8_text(body) {
        Ok(text) => Ok(chars_of(text.as_str())),
        Err(words) => Err(
            Fault::because(
                "scheduled-task XML is neither valid UTF-8 nor BOM-marked UTF-16",
                words,
            ),
        ),
    }
}

/// Whether a scheduled task with this command and these arguments starts
/// exactly `exe`.
pub open spec fn task_starts(command: Seq<char>, arguments: Seq<char>, exe: Seq<char>) -> bool {
    started_executable(arguments) == Some(exe) && lower(command) == lower("cmd.exe"@)
}

/// What keeps a scheduled task from being owned by an executable.
pub open spec fn task_owner_problem(definition: Seq<u8>, expected: HostPath) -> Option<
    Seq<Seq<char>>,
> {
    match expected.unicode {
        None => Some(
            seq!["expected scheduled-task executable is not valid Unicode: "@ + expected.display@],
        ),
        Some(exe) => match task_definition(definition) {
            Err(messages) => Some(messages),
            Ok(xml) => match element_text(xml, "Command"@) {
                Err(messages) => Some(messages),
                Ok(command) => match element_text(xml, "Arguments"@) {
                    Err(messages) => Some(messages),
                    Ok(arguments) => if task_starts(command, arguments, exe@) {
                        None
                    } else {
                        Some(
                            seq![
                                "scheduled-task definition is not owned by executable "@
                                    + expected.display@,
                            ],
                        )
                    },
                },
            },
        },
    }
}

fn starts_exactly(command: &[char], arguments: &[char], exe: &str) -> (r: bool)
    ensures
        r == task_starts(command@, arguments@, exe@),
{
    let homes = match strip_prefix(arguments, "/D /V:OFF /S /C set CODEX_HOME=") {
        Some(rest) => rest,
        None => {
            return false;
        },
    };
    let home = match strip_generated_cmd_set_value(homes, "&& set CODEX_SWITCH_HOME=") {
        Some(rest) => rest,
        None => {
            return false;
        },
    };
    let tail = match strip_generated_cmd_set_value(home, "&& \"") {
        Some(rest) => rest,
        None => {
            return false;
        },
    };
    match strip_suffix(tail, "\" daemon start --foreground") {
        Some(started) => equals(started, exe) && equals_ignore_case(command, "cmd.exe"),
        None => false,
    }
}

/// A scheduled task is owned by an executable where its one command is the
/// command interpreter and its arguments, in the exact shape that an
/// installation writes, start that executable.
pub fn validate_task_scheduler_definition_owner(definition: &[u8], expected: &HostPath) -> (r:
    Result<(), Fault>)
    ensures
        match task_owner_problem(definition@, *expected) {
            Some(messages) => r matches Err(fault) && fault@ == messages,
            None => r is Ok,
        },
{
    let exe = match &expected.unicode {
        Some(exe) => exe,
        None => {
            return Err(
                Fault::from_text(
                    join2(
                        "expected scheduled-task executable is not valid Unicode: ",
                        expected.display.as_str(),
                    ),
                ),
            );
        },
    };
    let xml = match decode_task_definition_xml(definition) {
        Ok(xml) => xml,
        Err(fault) => {
            return Err(fault);
        },
    };
    let command = match single_xml_element_text(xml.as_slice(), "Command") {
        Ok(command) => command,
        Err(fault) => {
            return Err(fault);
        },
    };
    let arguments = match single_xml_element_text(xml.as_slice(), "Arguments") {
        Ok(arguments) => arguments,
        Err(fault) => {
            return Err(fault);
        },
    };
    if starts_exactly(command.as_slice(), arguments.as_slice(), exe.as_str()) {
        Ok(())
    } else {
        Err(
            Fault::from_text(
                join2(
                    "scheduled-task definition is not owned by executable ",
                    expected.display.as_str(),
                ),
            ),
        )
    }
}

// -- Who may remove the service --

/// A look at the installed definition.
#[derive(Debug, PartialEq, Eq)]
pub enum OwnerLook {
    /// It could not be read.
    Unreadable(Fault),
    /// There is none; whether the manager then knows no such service.
    Absent(Result<(), Fault>),
    /// A LaunchAgent, converted to JSON.
    LaunchAgent(Vec<u8>),
    /// A systemd unit.
    Unit(Vec<u8>),
    /// A scheduled task's file and its exported form.
    Task { definition: Vec<u8>, exported: Result<Vec<u8>, Fault> },
}

/// Why an executable may not remove the service.
pub open spec fn uninstall_owner_problem(expected: HostPath, look: OwnerLook) -> Option<
    Seq<Seq<char>>,
> {
    match executable_problem(expected) {
        Some(message) => Some(seq![message]),
        None => match look {
            OwnerLook::Unreadable(error) => Some(error@),
            OwnerLook::Absent(Err(error)) => Some(error@),
            OwnerLook::Absent(Ok(_)) => None,
            OwnerLook::LaunchAgent(document) => launchd_document_problem(document@, expected),
            OwnerLook::Unit(contents) => systemd_owner_problem(contents@, expected),
            OwnerLook::Task { definition, exported } => match exported {
                Err(error) => Some(error@),
                Ok(xml) => match task_owner_problem(definition@, expected) {
                    Some(messages) => Some(messages),
                    None => task_owner_problem(xml@, expected),
                },
            },
        },
    }
}

/// The service may be removed by the executable that owns its definition, and by
/// every executable where there is none.
pub fn validate_uninstall_owner(expected: &HostPath, look: OwnerLook) -> (r: Result<(), Fault>)
    ensures
        match uninstall_owner_problem(*expected, look) {
            Some(messages) => r matches Err(fault) && fault@ == messages,
            None => r is Ok,
        },
{
    match validate_expected_executable(expected) {
        Ok(()) => {},
        Err(fault) => {
            return Err(fault);
        },
    }
    match look {
        OwnerLook::Unreadable(error) => Err(error),
        OwnerLook::Absent(r) => r,
        OwnerLook::LaunchAgent(document) => validate_launchd_definition_owner(
            document.as_slice(),
            expected,
        ),
        OwnerLook::Unit(contents) => validate_systemd_definition_owner(
            contents.as_slice(),
            expected,
        ),
        OwnerLook::Task { definition, exported } => match exported {
            Err(error) => Err(error),
            Ok(xml) => match validate_task_scheduler_definition_owner(
                definition.as_slice(),
                expected,
            ) {
                Err(fault) => Err(fault),
                Ok(()) => validate_task_scheduler_definition_owner(xml.as_slice(), expected),
            },
        },
    }
}

/// A LaunchAgent belongs to one executable: two that may both remove it have the
/// same path.
pub proof fn law_launch_agent_has_one_owner(a: HostPath, b: HostPath, document: Vec<u8>)
    requires
        uninstall_owner_problem(a, OwnerLook::LaunchAgent(document)) is None,
        uninstall_owner_problem(b, OwnerLook::LaunchAgent(document)) is None,
    ensures
        a.unicode is Some && b.unicode is Some && a.unicode->0@ == b.unicode->0@,
{
    let list = json_members(document@, "Label"@, "ProgramArguments"@)->Ok_0.1->0;
    assert(list[0] == Some(a.unicode->0@));
    assert(list[0] == Some(b.unicode->0@));
}

// -- Systems without a service manager --

/// What is done with the service.
#[derive(Clone, Copy, Debug, PartialEq, Eq, Structural)]
pub enum ServiceAction {
    Install,
    Uninstall,
    Start,
    Stop,
    Snapshot,
}

/// Why an action is refused on a system whose service manager is not supported.
pub open spec fn unsupported_action(platform: Platform, action: ServiceAction) -> Option<Seq<char>> {
    if platform != Platform::OtherUnix && platform != Platform::Other {
        None
    } else {
        Some(
            match action {
                ServiceAction::Install => "Service install is not supported on this platform"@,
                ServiceAction::Uninstall => "Service uninstall is not supported on this platform"@,
                ServiceAction::Start => "Service start is not supported on this platform"@,
                ServiceAction::Stop => "Service stop is not supported on this platform"@,
                ServiceAction::Snapshot => {
                    "Service lifecycle snapshots are not supported on this platform"@
                },
            },
        )
    }
}

/// An action on the service needs a supported service manager.
pub fn require_service_support(platform: Platform, action: ServiceAction) -> (r: Result<(), Fault>)
    ensures
        match unsupported_action(platform, action) {
            Some(message) => r matches Err(fault) && fault@ == seq![message],
            None => r is Ok,
        },
{
    if platform != Platform::OtherUnix && platform != Platform::Other {
        return Ok(());
    }
    Err(
        match action {
            ServiceAction::Install => Fault::of(
                "Service install is not supported on this platform",
            ),
            ServiceAction::Uninstall => Fault::of(
                "Service uninstall is not supported on this platform",
            ),
            ServiceAction::Start => Fault::of("Service start is not supported on this platform"),
            ServiceAction::Stop => Fault::of("Service stop is not supported on this platform"),
            ServiceAction::Snapshot => Fault::of(
                "Service lifecycle snapshots are not supported on this platform",
            ),
        },
    )
}

} // verus!
