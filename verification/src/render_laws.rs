//! What the rendered service definitions say to those who read them: each is read
//! back with a reader of its own, which knows nothing of how it was written.
use vstd::prelude::*;
use vstd::utf8::{encode_scalar, encode_utf8};

use crate::fault::Fault;
use crate::host_path::HostPath;
use crate::outside::hex_digit;
use crate::service_laws::{
    law_systemd_unit_is_owned, law_xml_round_trip, lemma_control_bytes, lemma_inside_front,
};
use crate::service_owner::xml_decoded;
use crate::service_render::{
    cmd_escaped, cmd_special, environment_line, has_char, launchd_plist, plist, systemd_char,
    systemd_inside, systemd_unit, task_path_problem, task_scheduler_command, xml_escaped,
    LAUNCHD_LABEL,
};
use crate::text::{after_prefix, is_control, lemma_until, lines, until, CharClass};

verus! {

// -- Property lists --

/// The elements of a document: each tag, and the text behind it up to the next one.
pub open spec fn elements(document: Seq<char>) -> Seq<(Seq<char>, Seq<char>)>
    decreases document.len(),
{
    let n = until(document, CharClass::Just('<'));
    if n >= document.len() {
        Seq::empty()
    } else {
        let rest = document.skip(n as int + 1);
        let m = until(rest, CharClass::Just('>'));
        if m >= rest.len() {
            Seq::empty()
        } else {
            let behind = rest.skip(m as int + 1);
            let k = until(behind, CharClass::Just('<'));
            proof {
                lemma_until(behind, CharClass::Just('<'));
            }
            seq![(rest.take(m as int), behind.take(k as int))] + elements(behind.skip(k as int))
        }
    }
}

/// Where the value of a key stands: behind the first `<key>` with that name, from
/// some place on, and its end tag.
pub open spec fn value_place(
    list: Seq<(Seq<char>, Seq<char>)>,
    from: int,
    key: Seq<char>,
) -> int
    decreases list.len() - from,
{
    if from < 0 || from >= list.len() {
        list.len() as int
    } else if list[from] == ("key"@, key) {
        from + 2
    } else {
        value_place(list, from + 1, key)
    }
}

/// The text of a string element.
pub open spec fn string_at(list: Seq<(Seq<char>, Seq<char>)>, i: int) -> Option<Seq<char>> {
    if 0 <= i < list.len() && list[i].0 == "string"@ {
        match xml_decoded(list[i].1) {
            Ok(text) => Some(text),
            Err(_) => None,
        }
    } else {
        None
    }
}

/// The texts of the string elements from some place on.
pub open spec fn strings_at(list: Seq<(Seq<char>, Seq<char>)>, i: int) -> Seq<Seq<char>>
    decreases list.len() - i,
{
    if 0 <= i && i + 1 < list.len() && list[i + 1].0 == "/string"@ {
        match string_at(list, i) {
            Some(text) => seq![text] + strings_at(list, i + 2),
            None => Seq::empty(),
        }
    } else {
        Seq::empty()
    }
}

/// A string of a property list.
pub open spec fn plist_string(document: Seq<char>, key: Seq<char>) -> Option<Seq<char>> {
    let list = elements(document);
    string_at(list, value_place(list, 0, key))
}

/// A list of strings of a property list.
pub open spec fn plist_strings(document: Seq<char>, key: Seq<char>) -> Seq<Seq<char>> {
    let list = elements(document);
    let place = value_place(list, 0, key);
    if place < list.len() && list[place].0 == "array"@ {
        strings_at(list, place + 1)
    } else {
        Seq::empty()
    }
}

/// Whether a property list says yes to something.
pub open spec fn plist_says(document: Seq<char>, key: Seq<char>) -> bool {
    let list = elements(document);
    let place = value_place(list, 0, key);
    place < list.len() && list[place].0 == "true/"@
}

/// A string in a dictionary of a property list.
pub open spec fn plist_entry(document: Seq<char>, dictionary: Seq<char>, key: Seq<char>) -> Option<
    Seq<char>,
> {
    let list = elements(document);
    let place = value_place(list, 0, dictionary);
    if place < list.len() && list[place].0 == "dict"@ {
        string_at(list, value_place(list, place + 1, key))
    } else {
        None
    }
}

/// One element as it is written.
spec fn element(tag: Seq<char>, text: Seq<char>) -> Seq<char> {
    seq!['<'] + tag + seq!['>'] + text
}

/// Elements as they are written.
spec fn written(list: Seq<(Seq<char>, Seq<char>)>) -> Seq<char>
    decreases list.len(),
{
    if list.len() == 0 {
        Seq::empty()
    } else {
        element(list[0].0, list[0].1) + written(list.skip(1))
    }
}

spec fn free_of(s: Seq<char>, c: char) -> bool {
    forall|i: int| 0 <= i < s.len() ==> #[trigger] s[i] != c
}

proof fn lemma_written_add(a: Seq<(Seq<char>, Seq<char>)>, b: Seq<(Seq<char>, Seq<char>)>)
    ensures
        written(a + b) == written(a) + written(b),
    decreases a.len(),
{
    if a.len() == 0 {
        assert(a + b =~= b);
        assert(written(a) + written(b) =~= written(b));
    } else {
        assert((a + b).skip(1) =~= a.skip(1) + b);
        lemma_written_add(a.skip(1), b);
        assert(written(a + b) =~= written(a) + written(b));
    }
}

proof fn lemma_written_push(a: Seq<(Seq<char>, Seq<char>)>, tag: Seq<char>, text: Seq<char>)
    ensures
        written(a.push((tag, text))) == written(a) + element(tag, text),
{
    let one = seq![(tag, text)];
    lemma_written_add(a, one);
    assert(a + one =~= a.push((tag, text)));
    assert(one.skip(1) =~= Seq::<(Seq<char>, Seq<char>)>::empty());
    assert(written(one.skip(1)) =~= Seq::empty());
    assert(written(one) =~= element(tag, text));
}

proof fn lemma_stops_at(s: Seq<char>, n: int, c: char)
    requires
        0 <= n <= s.len(),
        forall|i: int| 0 <= i < n ==> #[trigger] s[i] != c,
        n < s.len() ==> s[n] == c,
    ensures
        until(s, CharClass::Just(c)) == n,
{
    lemma_until(s, CharClass::Just(c));
    let m = until(s, CharClass::Just(c)) as int;
    if m < n {
        assert(s[m] == c);
    }
    if m > n {
        assert(!CharClass::Just(c).has(s[n]));
    }
}

/// Elements are read as they were written.
proof fn lemma_elements_read_back(list: Seq<(Seq<char>, Seq<char>)>)
    requires
        forall|i: int| 0 <= i < list.len() ==> free_of((#[trigger] list[i]).0, '>'),
        forall|i: int| 0 <= i < list.len() ==> free_of((#[trigger] list[i]).1, '<'),
    ensures
        elements(written(list)) == list,
        written(list).len() > 0 ==> written(list)[0] == '<',
    decreases list.len(),
{
    let document = written(list);
    if list.len() == 0 {
        assert(elements(document) =~= list);
    } else {
        let (tag, text) = list[0];
        let tail = list.skip(1);
        let more = written(tail);
        assert forall|i: int| 0 <= i < tail.len() implies free_of((#[trigger] tail[i]).0, '>')
            && free_of(tail[i].1, '<') by {
            assert(tail[i] == list[i + 1]);
        }
        lemma_elements_read_back(tail);
        assert(document =~= seq!['<'] + tag + seq!['>'] + text + more);
        assert(document[0] == '<');
        lemma_stops_at(document, 0, '<');
        let rest = document.skip(1);
        assert(document.skip(0int + 1) =~= rest);
        assert(rest =~= tag + seq!['>'] + text + more);
        assert(free_of(tag, '>'));
        assert forall|i: int| 0 <= i < tag.len() implies #[trigger] rest[i] != '>' by {
            assert(rest[i] == tag[i]);
        }
        lemma_stops_at(rest, tag.len() as int, '>');
        let behind = rest.skip(tag.len() as int + 1);
        assert(behind =~= text + more);
        assert(free_of(text, '<'));
        assert forall|i: int| 0 <= i < text.len() implies #[trigger] behind[i] != '<' by {
            assert(behind[i] == text[i]);
        }
        lemma_stops_at(behind, text.len() as int, '<');
        assert(rest.take(tag.len() as int) =~= tag);
        assert(behind.take(text.len() as int) =~= text);
        assert(behind.skip(text.len() as int) =~= more);
        assert(elements(document) =~= seq![(tag, text)] + tail);
        assert(seq![(tag, text)] + tail =~= list);
    }
}

proof fn lemma_value_place(
    list: Seq<(Seq<char>, Seq<char>)>,
    from: int,
    key: Seq<char>,
    at: int,
)
    requires
        0 <= from <= at < list.len(),
        list[at] == ("key"@, key),
        forall|i: int| from <= i < at ==> #[trigger] list[i] != ("key"@, key),
    ensures
        value_place(list, from, key) == at + 2,
    decreases at - from,
{
    if from < at {
        lemma_value_place(list, from + 1, key, at);
    }
}

/// The elements of one part of the property list.
spec fn head_part() -> Seq<(Seq<char>, Seq<char>)> {
    seq![
        ("?xml version=\"1.0\" encoding=\"UTF-8\"?"@, "\n"@),
        ("!DOCTYPE plist PUBLIC \"-//Apple//DTD PLIST 1.0//EN\"\n  \"http://www.apple.com/DTDs/PropertyList-1.0.dtd\""@, "\n"@),
        ("plist version=\"1.0\""@, "\n"@),
        ("dict"@, "\n    "@),
        ("key"@, "Label"@),
        ("/key"@, "\n    "@),
        ("string"@, LAUNCHD_LABEL@),
    ]
}

#[verifier::spinoff_prover]
#[verifier::rlimit(100)]
proof fn lemma_head_part()
    ensures
        written(head_part()) == "<?xml version=\"1.0\" encoding=\"UTF-8\"?>\n<!DOCTYPE plist PUBLIC \"-//Apple//DTD PLIST 1.0//EN\"\n  \"http://www.apple.com/DTDs/PropertyList-1.0.dtd\">\n<plist version=\"1.0\">\n<dict>\n    <key>Label</key>\n    <string>"@ + LAUNCHD_LABEL@,
        forall|i: int|
            0 <= i < head_part().len() ==> free_of((#[trigger] head_part()[i]).0, '>'),
        forall|i: int|
            0 <= i < head_part().len() ==> free_of((#[trigger] head_part()[i]).1, '<'),
{
    reveal_strlit("<?xml version=\"1.0\" encoding=\"UTF-8\"?>\n<!DOCTYPE plist PUBLIC \"-//Apple//DTD PLIST 1.0//EN\"\n  \"http://www.apple.com/DTDs/PropertyList-1.0.dtd\">\n<plist version=\"1.0\">\n<dict>\n    <key>Label</key>\n    <string>");
    reveal_strlit("?xml version=\"1.0\" encoding=\"UTF-8\"?");
    reveal_strlit("\n");
    reveal_strlit("!DOCTYPE plist PUBLIC \"-//Apple//DTD PLIST 1.0//EN\"\n  \"http://www.apple.com/DTDs/PropertyList-1.0.dtd\"");
    reveal_strlit("plist version=\"1.0\"");
    reveal_strlit("dict");
    reveal_strlit("\n    ");
    reveal_strlit("key");
    reveal_strlit("Label");
    reveal_strlit("/key");
    reveal_strlit("string");
    reveal_strlit("com.codex-switch-global-pace.daemon");
    let none = Seq::<(Seq<char>, Seq<char>)>::empty();
    assert(written(none) =~= Seq::empty());
    lemma_written_push(none, "?xml version=\"1.0\" encoding=\"UTF-8\"?"@, "\n"@);
    let list1 = none.push(("?xml version=\"1.0\" encoding=\"UTF-8\"?"@, "\n"@));
    lemma_written_push(list1, "!DOCTYPE plist PUBLIC \"-//Apple//DTD PLIST 1.0//EN\"\n  \"http://www.apple.com/DTDs/PropertyList-1.0.dtd\""@, "\n"@);
    let list2 = list1.push(("!DOCTYPE plist PUBLIC \"-//Apple//DTD PLIST 1.0//EN\"\n  \"http://www.apple.com/DTDs/PropertyList-1.0.dtd\""@, "\n"@));
    lemma_written_push(list2, "plist version=\"1.0\""@, "\n"@);
    let list3 = list2.push(("plist version=\"1.0\""@, "\n"@));
    lemma_written_push(list3, "dict"@, "\n    "@);
    let list4 = list3.push(("dict"@, "\n    "@));
    lemma_written_push(list4, "key"@, "Label"@);
    let list5 = list4.push(("key"@, "Label"@));
    lemma_written_push(list5, "/key"@, "\n    "@);
    let list6 = list5.push(("/key"@, "\n    "@));
    lemma_written_push(list6, "string"@, LAUNCHD_LABEL@);
    assert(head_part() =~= list6.push(("string"@, LAUNCHD_LABEL@)));
    let fixed = element("?xml version=\"1.0\" encoding=\"UTF-8\"?"@, "\n"@) + element("!DOCTYPE plist PUBLIC \"-//Apple//DTD PLIST 1.0//EN\"\n  \"http://www.apple.com/DTDs/PropertyList-1.0.dtd\""@, "\n"@) + element("plist version=\"1.0\""@, "\n"@) + element("dict"@, "\n    "@) + element("key"@, "Label"@) + element("/key"@, "\n    "@) + (seq!['<'] + "string"@ + seq!['>']);
    assert("<?xml version=\"1.0\" encoding=\"UTF-8\"?>\n<!DOCTYPE plist PUBLIC \"-//Apple//DTD PLIST 1.0//EN\"\n  \"http://www.apple.com/DTDs/PropertyList-1.0.dtd\">\n<plist version=\"1.0\">\n<dict>\n    <key>Label</key>\n    <string>"@ =~= fixed);
    assert(written(head_part()) =~= "<?xml version=\"1.0\" encoding=\"UTF-8\"?>\n<!DOCTYPE plist PUBLIC \"-//Apple//DTD PLIST 1.0//EN\"\n  \"http://www.apple.com/DTDs/PropertyList-1.0.dtd\">\n<plist version=\"1.0\">\n<dict>\n    <key>Label</key>\n    <string>"@ + LAUNCHD_LABEL@);
    assert(free_of("?xml version=\"1.0\" encoding=\"UTF-8\"?"@, '>'));
    assert(free_of("!DOCTYPE plist PUBLIC \"-//Apple//DTD PLIST 1.0//EN\"\n  \"http://www.apple.com/DTDs/PropertyList-1.0.dtd\""@, '>'));
    assert(free_of("plist version=\"1.0\""@, '>'));
    assert(free_of("dict"@, '>'));
    assert(free_of("key"@, '>'));
    assert(free_of("/key"@, '>'));
    assert(free_of("string"@, '>'));
    assert(free_of("\n"@, '<'));
    assert(free_of("\n    "@, '<'));
    assert(free_of("Label"@, '<'));
    assert(free_of(LAUNCHD_LABEL@, '<'));
}

/// The elements of one part of the property list.
spec fn arguments_part(v: Seq<char>) -> Seq<(Seq<char>, Seq<char>)> {
    seq![
        ("/string"@, "\n    "@),
        ("key"@, "ProgramArguments"@),
        ("/key"@, "\n    "@),
        ("array"@, "\n        "@),
        ("string"@, v),
    ]
}

#[verifier::spinoff_prover]
#[verifier::rlimit(100)]
proof fn lemma_arguments_part(v: Seq<char>)
    requires
        free_of(v, '<'),
    ensures
        written(arguments_part(v)) == "</string>\n    <key>ProgramArguments</key>\n    <array>\n        <string>"@ + v,
        forall|i: int|
            0 <= i < arguments_part(v).len() ==> free_of((#[trigger] arguments_part(v)[i]).0, '>'),
        forall|i: int|
            0 <= i < arguments_part(v).len() ==> free_of((#[trigger] arguments_part(v)[i]).1, '<'),
{
    reveal_strlit("</string>\n    <key>ProgramArguments</key>\n    <array>\n        <string>");
    reveal_strlit("/string");
    reveal_strlit("\n    ");
    reveal_strlit("key");
    reveal_strlit("ProgramArguments");
    reveal_strlit("/key");
    reveal_strlit("array");
    reveal_strlit("\n        ");
    reveal_strlit("string");
    let none = Seq::<(Seq<char>, Seq<char>)>::empty();
    assert(written(none) =~= Seq::empty());
    lemma_written_push(none, "/string"@, "\n    "@);
    let list1 = none.push(("/string"@, "\n    "@));
    lemma_written_push(list1, "key"@, "ProgramArguments"@);
    let list2 = list1.push(("key"@, "ProgramArguments"@));
    lemma_written_push(list2, "/key"@, "\n    "@);
    let list3 = list2.push(("/key"@, "\n    "@));
    lemma_written_push(list3, "array"@, "\n        "@);
    let list4 = list3.push(("array"@, "\n        "@));
    lemma_written_push(list4, "string"@, v);
    assert(arguments_part(v) =~= list4.push(("string"@, v)));
    let fixed = element("/string"@, "\n    "@) + element("key"@, "ProgramArguments"@) + element("/key"@, "\n    "@) + element("array"@, "\n        "@) + (seq!['<'] + "string"@ + seq!['>']);
    assert("</string>\n    <key>ProgramArguments</key>\n    <array>\n        <string>"@ =~= fixed);
    assert(written(arguments_part(v)) =~= "</string>\n    <key>ProgramArguments</key>\n    <array>\n        <string>"@ + v);
    assert(free_of("/string"@, '>'));
    assert(free_of("key"@, '>'));
    assert(free_of("/key"@, '>'));
    assert(free_of("array"@, '>'));
    assert(free_of("string"@, '>'));
    assert(free_of("\n    "@, '<'));
    assert(free_of("ProgramArguments"@, '<'));
    assert(free_of("\n        "@, '<'));
}

/// The elements of one part of the property list.
spec fn middle_part(v: Seq<char>) -> Seq<(Seq<char>, Seq<char>)> {
    seq![
        ("/string"@, "\n        "@),
        ("string"@, "daemon"@),
        ("/string"@, "\n        "@),
        ("string"@, "start"@),
        ("/string"@, "\n        "@),
        ("string"@, "--foreground"@),
        ("/string"@, "\n    "@),
        ("/array"@, "\n    "@),
        ("key"@, "RunAtLoad"@),
        ("/key"@, "\n    "@),
        ("true/"@, "\n    "@),
        ("key"@, "KeepAlive"@),
        ("/key"@, "\n    "@),
        ("true/"@, "\n    "@),
        ("key"@, "EnvironmentVariables"@),
        ("/key"@, "\n    "@),
        ("dict"@, "\n        "@),
        ("key"@, "HOME"@),
        ("/key"@, "\n        "@),
        ("string"@, v),
    ]
}

#[verifier::spinoff_prover]
#[verifier::rlimit(100)]
proof fn lemma_middle_part(v: Seq<char>)
    requires
        free_of(v, '<'),
    ensures
        written(middle_part(v)) == "</string>\n        <string>daemon</string>\n        <string>start</string>\n        <string>--foreground</string>\n    </array>\n    <key>RunAtLoad</key>\n    <true/>\n    <key>KeepAlive</key>\n    <true/>\n    <key>EnvironmentVariables</key>\n    <dict>\n        <key>HOME</key>\n        <string>"@ + v,
        forall|i: int|
            0 <= i < middle_part(v).len() ==> free_of((#[trigger] middle_part(v)[i]).0, '>'),
        forall|i: int|
            0 <= i < middle_part(v).len() ==> free_of((#[trigger] middle_part(v)[i]).1, '<'),
{
    reveal_strlit("</string>\n        <string>daemon</string>\n        <string>start</string>\n        <string>--foreground</string>\n    </array>\n    <key>RunAtLoad</key>\n    <true/>\n    <key>KeepAlive</key>\n    <true/>\n    <key>EnvironmentVariables</key>\n    <dict>\n        <key>HOME</key>\n        <string>");
    reveal_strlit("/string");
    reveal_strlit("\n        ");
    reveal_strlit("string");
    reveal_strlit("daemon");
    reveal_strlit("start");
    reveal_strlit("--foreground");
    reveal_strlit("\n    ");
    reveal_strlit("/array");
    reveal_strlit("key");
    reveal_strlit("RunAtLoad");
    reveal_strlit("/key");
    reveal_strlit("true/");
    reveal_strlit("KeepAlive");
    reveal_strlit("EnvironmentVariables");
    reveal_strlit("dict");
    reveal_strlit("HOME");
    let none = Seq::<(Seq<char>, Seq<char>)>::empty();
    assert(written(none) =~= Seq::empty());
    lemma_written_push(none, "/string"@, "\n        "@);
    let list1 = none.push(("/string"@, "\n        "@));
    lemma_written_push(list1, "string"@, "daemon"@);
    let list2 = list1.push(("string"@, "daemon"@));
    lemma_written_push(list2, "/string"@, "\n        "@);
    let list3 = list2.push(("/string"@, "\n        "@));
    lemma_written_push(list3, "string"@, "start"@);
    let list4 = list3.push(("string"@, "start"@));
    lemma_written_push(list4, "/string"@, "\n        "@);
    let list5 = list4.push(("/string"@, "\n        "@));
    lemma_written_push(list5, "string"@, "--foreground"@);
    let list6 = list5.push(("string"@, "--foreground"@));
    lemma_written_push(list6, "/string"@, "\n    "@);
    let list7 = list6.push(("/string"@, "\n    "@));
    lemma_written_push(list7, "/array"@, "\n    "@);
    let list8 = list7.push(("/array"@, "\n    "@));
    lemma_written_push(list8, "key"@, "RunAtLoad"@);
    let list9 = list8.push(("key"@, "RunAtLoad"@));
    lemma_written_push(list9, "/key"@, "\n    "@);
    let list10 = list9.push(("/key"@, "\n    "@));
    lemma_written_push(list10, "true/"@, "\n    "@);
    let list11 = list10.push(("true/"@, "\n    "@));
    lemma_written_push(list11, "key"@, "KeepAlive"@);
    let list12 = list11.push(("key"@, "KeepAlive"@));
    lemma_written_push(list12, "/key"@, "\n    "@);
    let list13 = list12.push(("/key"@, "\n    "@));
    lemma_written_push(list13, "true/"@, "\n    "@);
    let list14 = list13.push(("true/"@, "\n    "@));
    lemma_written_push(list14, "key"@, "EnvironmentVariables"@);
    let list15 = list14.push(("key"@, "EnvironmentVariables"@));
    lemma_written_push(list15, "/key"@, "\n    "@);
    let list16 = list15.push(("/key"@, "\n    "@));
    lemma_written_push(list16, "dict"@, "\n        "@);
    let list17 = list16.push(("dict"@, "\n        "@));
    lemma_written_push(list17, "key"@, "HOME"@);
    let list18 = list17.push(("key"@, "HOME"@));
    lemma_written_push(list18, "/key"@, "\n        "@);
    let list19 = list18.push(("/key"@, "\n        "@));
    lemma_written_push(list19, "string"@, v);
    assert(middle_part(v) =~= list19.push(("string"@, v)));
    let fixed = element("/string"@, "\n        "@) + element("string"@, "daemon"@) + element("/string"@, "\n        "@) + element("string"@, "start"@) + element("/string"@, "\n        "@) + element("string"@, "--foreground"@) + element("/string"@, "\n    "@) + element("/array"@, "\n    "@) + element("key"@, "RunAtLoad"@) + element("/key"@, "\n    "@) + element("true/"@, "\n    "@) + element("key"@, "KeepAlive"@) + element("/key"@, "\n    "@) + element("true/"@, "\n    "@) + element("key"@, "EnvironmentVariables"@) + element("/key"@, "\n    "@) + element("dict"@, "\n        "@) + element("key"@, "HOME"@) + element("/key"@, "\n        "@) + (seq!['<'] + "string"@ + seq!['>']);
    assert("</string>\n        <string>daemon</string>\n        <string>start</string>\n        <string>--foreground</string>\n    </array>\n    <key>RunAtLoad</key>\n    <true/>\n    <key>KeepAlive</key>\n    <true/>\n    <key>EnvironmentVariables</key>\n    <dict>\n        <key>HOME</key>\n        <string>"@ =~= fixed);
    assert(written(middle_part(v)) =~= "</string>\n        <string>daemon</string>\n        <string>start</string>\n        <string>--foreground</string>\n    </array>\n    <key>RunAtLoad</key>\n    <true/>\n    <key>KeepAlive</key>\n    <true/>\n    <key>EnvironmentVariables</key>\n    <dict>\n        <key>HOME</key>\n        <string>"@ + v);
    assert(free_of("/string"@, '>'));
    assert(free_of("string"@, '>'));
    assert(free_of("/array"@, '>'));
    assert(free_of("key"@, '>'));
    assert(free_of("/key"@, '>'));
    assert(free_of("true/"@, '>'));
    assert(free_of("dict"@, '>'));
    assert(free_of("\n        "@, '<'));
    assert(free_of("daemon"@, '<'));
    assert(free_of("start"@, '<'));
    assert(free_of("--foreground"@, '<'));
    assert(free_of("\n    "@, '<'));
    assert(free_of("RunAtLoad"@, '<'));
    assert(free_of("KeepAlive"@, '<'));
    assert(free_of("EnvironmentVariables"@, '<'));
    assert(free_of("HOME"@, '<'));
}

/// The elements of one part of the property list.
spec fn codex_home_part(v: Seq<char>) -> Seq<(Seq<char>, Seq<char>)> {
    seq![
        ("/string"@, "\n        "@),
        ("key"@, "CODEX_HOME"@),
        ("/key"@, "\n        "@),
        ("string"@, v),
    ]
}

#[verifier::spinoff_prover]
#[verifier::rlimit(100)]
proof fn lemma_codex_home_part(v: Seq<char>)
    requires
        free_of(v, '<'),
    ensures
        written(codex_home_part(v)) == "</string>\n        <key>CODEX_HOME</key>\n        <string>"@ + v,
        forall|i: int|
            0 <= i < codex_home_part(v).len() ==> free_of((#[trigger] codex_home_part(v)[i]).0, '>'),
        forall|i: int|
            0 <= i < codex_home_part(v).len() ==> free_of((#[trigger] codex_home_part(v)[i]).1, '<'),
{
    reveal_strlit("</string>\n        <key>CODEX_HOME</key>\n        <string>");
    reveal_strlit("/string");
    reveal_strlit("\n        ");
    reveal_strlit("key");
    reveal_strlit("CODEX_HOME");
    reveal_strlit("/key");
    reveal_strlit("string");
    let none = Seq::<(Seq<char>, Seq<char>)>::empty();
    assert(written(none) =~= Seq::empty());
    lemma_written_push(none, "/string"@, "\n        "@);
    let list1 = none.push(("/string"@, "\n        "@));
    lemma_written_push(list1, "key"@, "CODEX_HOME"@);
    let list2 = list1.push(("key"@, "CODEX_HOME"@));
    lemma_written_push(list2, "/key"@, "\n        "@);
    let list3 = list2.push(("/key"@, "\n        "@));
    lemma_written_push(list3, "string"@, v);
    assert(codex_home_part(v) =~= list3.push(("string"@, v)));
    let fixed = element("/string"@, "\n        "@) + element("key"@, "CODEX_HOME"@) + element("/key"@, "\n        "@) + (seq!['<'] + "string"@ + seq!['>']);
    assert("</string>\n        <key>CODEX_HOME</key>\n        <string>"@ =~= fixed);
    assert(written(codex_home_part(v)) =~= "</string>\n        <key>CODEX_HOME</key>\n        <string>"@ + v);
    assert(free_of("/string"@, '>'));
    assert(free_of("key"@, '>'));
    assert(free_of("/key"@, '>'));
    assert(free_of("string"@, '>'));
    assert(free_of("\n        "@, '<'));
    assert(free_of("CODEX_HOME"@, '<'));
}

/// The elements of one part of the property list.
spec fn app_home_part(v: Seq<char>) -> Seq<(Seq<char>, Seq<char>)> {
    seq![
        ("/string"@, "\n        "@),
        ("key"@, "CODEX_SWITCH_HOME"@),
        ("/key"@, "\n        "@),
        ("string"@, v),
    ]
}

#[verifier::spinoff_prover]
#[verifier::rlimit(100)]
proof fn lemma_app_home_part(v: Seq<char>)
    requires
        free_of(v, '<'),
    ensures
        written(app_home_part(v)) == "</string>\n        <key>CODEX_SWITCH_HOME</key>\n        <string>"@ + v,
        forall|i: int|
            0 <= i < app_home_part(v).len() ==> free_of((#[trigger] app_home_part(v)[i]).0, '>'),
        forall|i: int|
            0 <= i < app_home_part(v).len() ==> free_of((#[trigger] app_home_part(v)[i]).1, '<'),
{
    reveal_strlit("</string>\n        <key>CODEX_SWITCH_HOME</key>\n        <string>");
    reveal_strlit("/string");
    reveal_strlit("\n        ");
    reveal_strlit("key");
    reveal_strlit("CODEX_SWITCH_HOME");
    reveal_strlit("/key");
    reveal_strlit("string");
    let none = Seq::<(Seq<char>, Seq<char>)>::empty();
    assert(written(none) =~= Seq::empty());
    lemma_written_push(none, "/string"@, "\n        "@);
    let list1 = none.push(("/string"@, "\n        "@));
    lemma_written_push(list1, "key"@, "CODEX_SWITCH_HOME"@);
    let list2 = list1.push(("key"@, "CODEX_SWITCH_HOME"@));
    lemma_written_push(list2, "/key"@, "\n        "@);
    let list3 = list2.push(("/key"@, "\n        "@));
    lemma_written_push(list3, "string"@, v);
    assert(app_home_part(v) =~= list3.push(("string"@, v)));
    let fixed = element("/string"@, "\n        "@) + element("key"@, "CODEX_SWITCH_HOME"@) + element("/key"@, "\n        "@) + (seq!['<'] + "string"@ + seq!['>']);
    assert("</string>\n        <key>CODEX_SWITCH_HOME</key>\n        <string>"@ =~= fixed);
    assert(written(app_home_part(v)) =~= "</string>\n        <key>CODEX_SWITCH_HOME</key>\n        <string>"@ + v);
    assert(free_of("/string"@, '>'));
    assert(free_of("key"@, '>'));
    assert(free_of("/key"@, '>'));
    assert(free_of("string"@, '>'));
    assert(free_of("\n        "@, '<'));
    assert(free_of("CODEX_SWITCH_HOME"@, '<'));
}

/// The elements of one part of the property list.
spec fn end_part() -> Seq<(Seq<char>, Seq<char>)> {
    seq![
        ("/string"@, "\n    "@),
        ("/dict"@, "\n"@),
        ("/dict"@, "\n"@),
        ("/plist"@, Seq::<char>::empty()),
    ]
}

#[verifier::spinoff_prover]
#[verifier::rlimit(100)]
proof fn lemma_end_part()
    ensures
        written(end_part()) == "</string>\n    </dict>\n</dict>\n</plist>"@,
        forall|i: int|
            0 <= i < end_part().len() ==> free_of((#[trigger] end_part()[i]).0, '>'),
        forall|i: int|
            0 <= i < end_part().len() ==> free_of((#[trigger] end_part()[i]).1, '<'),
{
    reveal_strlit("</string>\n    </dict>\n</dict>\n</plist>");
    reveal_strlit("/string");
    reveal_strlit("\n    ");
    reveal_strlit("/dict");
    reveal_strlit("\n");
    reveal_strlit("/plist");
    let none = Seq::<(Seq<char>, Seq<char>)>::empty();
    assert(written(none) =~= Seq::empty());
    lemma_written_push(none, "/string"@, "\n    "@);
    let list1 = none.push(("/string"@, "\n    "@));
    lemma_written_push(list1, "/dict"@, "\n"@);
    let list2 = list1.push(("/dict"@, "\n"@));
    lemma_written_push(list2, "/dict"@, "\n"@);
    let list3 = list2.push(("/dict"@, "\n"@));
    lemma_written_push(list3, "/plist"@, Seq::<char>::empty());
    assert(end_part() =~= list3.push(("/plist"@, Seq::<char>::empty())));
    let fixed = element("/string"@, "\n    "@) + element("/dict"@, "\n"@) + element("/dict"@, "\n"@) + (seq!['<'] + "/plist"@ + seq!['>']);
    assert("</string>\n    </dict>\n</dict>\n</plist>"@ =~= fixed);
    assert(written(end_part()) =~= "</string>\n    </dict>\n</dict>\n</plist>"@);
    assert(free_of("/string"@, '>'));
    assert(free_of("/dict"@, '>'));
    assert(free_of("/plist"@, '>'));
    assert(free_of("\n    "@, '<'));
    assert(free_of("\n"@, '<'));
    assert(free_of(Seq::<char>::empty(), '<'));
}

/// Whether a list holds the keys of a LaunchAgent at their places and no other ones.
spec fn keyed(list: Seq<(Seq<char>, Seq<char>)>) -> bool {
    &&& list.len() == 44
    &&& list[4] == ("key"@, "Label"@)
    &&& list[8] == ("key"@, "ProgramArguments"@)
    &&& list[20] == ("key"@, "RunAtLoad"@)
    &&& list[23] == ("key"@, "KeepAlive"@)
    &&& list[26] == ("key"@, "EnvironmentVariables"@)
    &&& list[29] == ("key"@, "HOME"@)
    &&& list[33] == ("key"@, "CODEX_HOME"@)
    &&& list[37] == ("key"@, "CODEX_SWITCH_HOME"@)
    &&& forall|i: int|
        0 <= i < 44 && i != 4 && i != 8 && i != 20 && i != 23 && i != 26 && i != 29 && i != 33 && i != 37 ==> (#[trigger] list[i]).0 != "key"@
}

#[verifier::spinoff_prover]
#[verifier::rlimit(60)]
proof fn lemma_keys_are_found(list: Seq<(Seq<char>, Seq<char>)>)
    requires
        keyed(list),
    ensures
        value_place(list, 0, "Label"@) == 6,
        value_place(list, 0, "ProgramArguments"@) == 10,
        value_place(list, 0, "RunAtLoad"@) == 22,
        value_place(list, 0, "KeepAlive"@) == 25,
        value_place(list, 0, "EnvironmentVariables"@) == 28,
        value_place(list, 29, "HOME"@) == 31,
        value_place(list, 29, "CODEX_HOME"@) == 35,
        value_place(list, 29, "CODEX_SWITCH_HOME"@) == 39,
{
    reveal_strlit("Label");
    reveal_strlit("ProgramArguments");
    reveal_strlit("RunAtLoad");
    reveal_strlit("KeepAlive");
    reveal_strlit("EnvironmentVariables");
    reveal_strlit("HOME");
    reveal_strlit("CODEX_HOME");
    reveal_strlit("CODEX_SWITCH_HOME");
    assert("ProgramArguments"@.len() != "Label"@.len());
    assert("RunAtLoad"@.len() != "Label"@.len());
    assert("RunAtLoad"@.len() != "ProgramArguments"@.len());
    assert("KeepAlive"@.len() != "Label"@.len());
    assert("KeepAlive"@.len() != "ProgramArguments"@.len());
    assert("KeepAlive"@[0] != "RunAtLoad"@[0]);
    assert("EnvironmentVariables"@.len() != "Label"@.len());
    assert("EnvironmentVariables"@.len() != "ProgramArguments"@.len());
    assert("EnvironmentVariables"@.len() != "RunAtLoad"@.len());
    assert("EnvironmentVariables"@.len() != "KeepAlive"@.len());
    assert("HOME"@.len() != "Label"@.len());
    assert("HOME"@.len() != "ProgramArguments"@.len());
    assert("HOME"@.len() != "RunAtLoad"@.len());
    assert("HOME"@.len() != "KeepAlive"@.len());
    assert("HOME"@.len() != "EnvironmentVariables"@.len());
    assert("CODEX_HOME"@.len() != "Label"@.len());
    assert("CODEX_HOME"@.len() != "ProgramArguments"@.len());
    assert("CODEX_HOME"@.len() != "RunAtLoad"@.len());
    assert("CODEX_HOME"@.len() != "KeepAlive"@.len());
    assert("CODEX_HOME"@.len() != "EnvironmentVariables"@.len());
    assert("CODEX_HOME"@.len() != "HOME"@.len());
    assert("CODEX_SWITCH_HOME"@.len() != "Label"@.len());
    assert("CODEX_SWITCH_HOME"@.len() != "ProgramArguments"@.len());
    assert("CODEX_SWITCH_HOME"@.len() != "RunAtLoad"@.len());
    assert("CODEX_SWITCH_HOME"@.len() != "KeepAlive"@.len());
    assert("CODEX_SWITCH_HOME"@.len() != "EnvironmentVariables"@.len());
    assert("CODEX_SWITCH_HOME"@.len() != "HOME"@.len());
    assert("CODEX_SWITCH_HOME"@.len() != "CODEX_HOME"@.len());
    lemma_value_place(list, 0, "Label"@, 4);
    lemma_value_place(list, 0, "ProgramArguments"@, 8);
    lemma_value_place(list, 0, "RunAtLoad"@, 20);
    lemma_value_place(list, 0, "KeepAlive"@, 23);
    lemma_value_place(list, 0, "EnvironmentVariables"@, 26);
    lemma_value_place(list, 29, "HOME"@, 29);
    lemma_value_place(list, 29, "CODEX_HOME"@, 33);
    lemma_value_place(list, 29, "CODEX_SWITCH_HOME"@, 37);
}

/// The property list of an installation says what was asked for: launchd runs the
/// executable in the foreground, keeps it running, and gives it each directory under
/// its own name, whatever characters the paths hold.
#[verifier::spinoff_prover]
#[verifier::rlimit(100)]
pub proof fn law_the_property_list_is_read_back(
    exe: &str,
    home: &str,
    codex_home: &str,
    app_home: &str,
    r: String,
)
    requires
        call_ensures(launchd_plist, (exe, home, codex_home, app_home), r),
    ensures
        plist_string(r@, "Label"@) == Some(LAUNCHD_LABEL@),
        plist_strings(r@, "ProgramArguments"@) == seq![
            exe@,
            "daemon"@,
            "start"@,
            "--foreground"@,
        ],
        plist_says(r@, "RunAtLoad"@),
        plist_says(r@, "KeepAlive"@),
        plist_entry(r@, "EnvironmentVariables"@, "HOME"@) == Some(home@),
        plist_entry(r@, "EnvironmentVariables"@, "CODEX_HOME"@) == Some(codex_home@),
        plist_entry(r@, "EnvironmentVariables"@, "CODEX_SWITCH_HOME"@) == Some(app_home@),
{
    let a = xml_escaped(exe@);
    let b = xml_escaped(home@);
    let c = xml_escaped(codex_home@);
    let d = xml_escaped(app_home@);
    law_xml_round_trip(exe@);
    law_xml_round_trip(home@);
    law_xml_round_trip(codex_home@);
    law_xml_round_trip(app_home@);
    lemma_head_part();
    lemma_arguments_part(a);
    lemma_middle_part(b);
    lemma_codex_home_part(c);
    lemma_app_home_part(d);
    lemma_end_part();
    let one = head_part() + arguments_part(a);
    let two = one + middle_part(b);
    let three = two + codex_home_part(c);
    let four = three + app_home_part(d);
    let list = four + end_part();
    lemma_written_add(head_part(), arguments_part(a));
    lemma_written_add(one, middle_part(b));
    lemma_written_add(two, codex_home_part(c));
    lemma_written_add(three, app_home_part(d));
    lemma_written_add(four, end_part());
    assert(written(list) =~= plist(exe@, home@, codex_home@, app_home@));
    lemma_elements_read_back(list);
    reveal_strlit("key");
    reveal_strlit("/key");
    reveal_strlit("string");
    reveal_strlit("/string");
    reveal_strlit("array");
    reveal_strlit("/array");
    reveal_strlit("true/");
    reveal_strlit("dict");
    reveal_strlit("/dict");
    reveal_strlit("/plist");
    reveal_strlit("daemon");
    reveal_strlit("start");
    reveal_strlit("--foreground");
    reveal_strlit("com.codex-switch-global-pace.daemon");
    reveal_strlit("plist version=\"1.0\"");
    reveal_strlit("?xml version=\"1.0\" encoding=\"UTF-8\"?");
    reveal_strlit("!DOCTYPE plist PUBLIC \"-//Apple//DTD PLIST 1.0//EN\"\n  \"http://www.apple.com/DTDs/PropertyList-1.0.dtd\"");
    assert(list.len() == 44);
    assert(list[0] == head_part()[0]);
    assert(list[1] == head_part()[1]);
    assert(list[2] == head_part()[2]);
    assert(list[3] == head_part()[3]);
    assert(list[4] == head_part()[4]);
    assert(list[5] == head_part()[5]);
    assert(list[6] == head_part()[6]);
    assert(list[7] == arguments_part(a)[0]);
    assert(list[8] == arguments_part(a)[1]);
    assert(list[9] == arguments_part(a)[2]);
    assert(list[10] == arguments_part(a)[3]);
    assert(list[11] == arguments_part(a)[4]);
    assert(list[12] == middle_part(b)[0]);
    assert(list[13] == middle_part(b)[1]);
    assert(list[14] == middle_part(b)[2]);
    assert(list[15] == middle_part(b)[3]);
    assert(list[16] == middle_part(b)[4]);
    assert(list[17] == middle_part(b)[5]);
    assert(list[18] == middle_part(b)[6]);
    assert(list[19] == middle_part(b)[7]);
    assert(list[20] == middle_part(b)[8]);
    assert(list[21] == middle_part(b)[9]);
    assert(list[22] == middle_part(b)[10]);
    assert(list[23] == middle_part(b)[11]);
    assert(list[24] == middle_part(b)[12]);
    assert(list[25] == middle_part(b)[13]);
    assert(list[26] == middle_part(b)[14]);
    assert(list[27] == middle_part(b)[15]);
    assert(list[28] == middle_part(b)[16]);
    assert(list[29] == middle_part(b)[17]);
    assert(list[30] == middle_part(b)[18]);
    assert(list[31] == middle_part(b)[19]);
    assert(list[32] == codex_home_part(c)[0]);
    assert(list[33] == codex_home_part(c)[1]);
    assert(list[34] == codex_home_part(c)[2]);
    assert(list[35] == codex_home_part(c)[3]);
    assert(list[36] == app_home_part(d)[0]);
    assert(list[37] == app_home_part(d)[1]);
    assert(list[38] == app_home_part(d)[2]);
    assert(list[39] == app_home_part(d)[3]);
    assert(list[40] == end_part()[0]);
    assert(list[41] == end_part()[1]);
    assert(list[42] == end_part()[2]);
    assert(list[43] == end_part()[3]);
    assert forall|i: int|
        0 <= i < 44 && i != 4 && i != 8 && i != 20 && i != 23 && i != 26 && i != 29 && i != 33 && i != 37 implies (#[trigger] list[i]).0 != "key"@ by {
        assert(list[i].0.len() != 3);
    }
    assert(keyed(list));
    lemma_keys_are_found(list);
    lemma_undecoded(LAUNCHD_LABEL@);
    lemma_undecoded("daemon"@);
    lemma_undecoded("start"@);
    lemma_undecoded("--foreground"@);
    reveal_with_fuel(strings_at, 6);
    assert(strings_at(list, 11) =~= seq![exe@, "daemon"@, "start"@, "--foreground"@]);
}

proof fn lemma_undecoded(s: Seq<char>)
    requires
        free_of(s, '&'),
    ensures
        xml_decoded(s) == Ok::<Seq<char>, Seq<Seq<char>>>(s),
{
    lemma_until(s, CharClass::Just('&'));
}

// -- Units --

/// The value of a hexadecimal digit.
pub open spec fn hex_value(c: char) -> Option<nat> {
    if '0' <= c <= '9' {
        Some((c as u32 - '0' as u32) as nat)
    } else if 'a' <= c <= 'f' {
        Some((c as u32 - 'a' as u32 + 10) as nat)
    } else {
        None
    }
}

/// The byte that a short escape stands for.
pub open spec fn escaped_byte(c: char) -> Option<u8> {
    if c == '\\' {
        Some(0x5cu8)
    } else if c == '"' {
        Some(0x22u8)
    } else if c == 'a' {
        Some(7u8)
    } else if c == 'b' {
        Some(8u8)
    } else if c == 't' {
        Some(9u8)
    } else if c == 'n' {
        Some(10u8)
    } else if c == 'v' {
        Some(11u8)
    } else if c == 'f' {
        Some(12u8)
    } else if c == 'r' {
        Some(13u8)
    } else {
        None
    }
}

/// Bytes in front of what was read behind them.
pub open spec fn in_front(bytes: Seq<u8>, rest: Option<Seq<u8>>) -> Option<Seq<u8>> {
    match rest {
        Some(more) => Some(bytes + more),
        None => None,
    }
}

/// The bytes that the inside of a quoted value stands for, as systemd reads it: a
/// backslash begins an escape, and a percent sign, and in a command line a dollar
/// sign, stands for itself only where it is doubled.
pub open spec fn value_bytes(s: Seq<char>, command: bool) -> Option<Seq<u8>>
    decreases s.len(),
{
    if s.len() == 0 {
        Some(Seq::empty())
    } else if s[0] == '"' {
        None
    } else if s[0] == '\\' {
        if s.len() < 2 {
            None
        } else if s[1] == 'x' {
            if s.len() < 4 {
                None
            } else {
                match (hex_value(s[2]), hex_value(s[3])) {
                    (Some(high), Some(low)) => in_front(
                        seq![(16 * high + low) as u8],
                        value_bytes(s.skip(4), command),
                    ),
                    _ => None,
                }
            }
        } else {
            match escaped_byte(s[1]) {
                Some(byte) => in_front(seq![byte], value_bytes(s.skip(2), command)),
                None => None,
            }
        }
    } else if s[0] == '%' || (command && s[0] == '$') {
        if s.len() >= 2 && s[1] == s[0] {
            in_front(encode_utf8(seq![s[0]]), value_bytes(s.skip(2), command))
        } else {
            None
        }
    } else {
        in_front(encode_utf8(seq![s[0]]), value_bytes(s.skip(1), command))
    }
}

proof fn lemma_one_char(c: char)
    ensures
        encode_utf8(seq![c]) == encode_scalar(c as u32),
        (c as u32) < 0x80 ==> encode_utf8(seq![c]) == seq![c as u32 as u8],
{
    assert(seq![c].drop_first() =~= Seq::<char>::empty());
    assert(encode_utf8(Seq::<char>::empty()) =~= Seq::<u8>::empty());
    assert(encode_utf8(seq![c]) =~= encode_scalar(c as u32));
    let v = c as u32;
    if v < 0x80 {
        assert((v & 0x7f) as u8 == v) by (bit_vector)
            requires
                v < 0x80,
        ;
        assert(encode_scalar(v) =~= seq![v as u8]);
    }
}

proof fn lemma_hex_is_read(n: nat)
    requires
        n < 16,
    ensures
        hex_value(hex_digit(n)) == Some(n),
{
    assert('0' as u32 == 48 && '9' as u32 == 57 && 'a' as u32 == 97 && 'f' as u32 == 102);
    vstd::utf8::char_is_scalar(hex_digit(n));
}

proof fn lemma_byte_is_read(byte: u8, tail: Seq<char>, command: bool)
    ensures
        value_bytes(
            seq![
                '\\',
                'x',
                hex_digit((byte / 16) as nat),
                hex_digit((byte % 16) as nat),
            ] + tail,
            command,
        ) == in_front(seq![byte], value_bytes(tail, command)),
{
    let e = seq!['\\', 'x', hex_digit((byte / 16) as nat), hex_digit((byte % 16) as nat)];
    let s = e + tail;
    lemma_hex_is_read((byte / 16) as nat);
    lemma_hex_is_read((byte % 16) as nat);
    assert(s[0] == '\\' && s[1] == 'x' && s[2] == e[2] && s[3] == e[3]);
    assert(s.skip(4) =~= tail);
    assert(16 * (byte / 16) + byte % 16 == byte);
}

/// What stands for one character is read as that character.
#[verifier::spinoff_prover]
#[verifier::rlimit(60)]
proof fn lemma_shown_char_is_read(c: char, tail: Seq<char>, command: bool)
    ensures
        value_bytes(systemd_char(c, command) + tail, command) == in_front(
            encode_utf8(seq![c]),
            value_bytes(tail, command),
        ),
{
    let s = systemd_char(c, command) + tail;
    lemma_one_char(c);
    assert('\\' as u32 == 0x5c && '"' as u32 == 0x22 && '\n' as u32 == 10 && '\r' as u32 == 13
        && '\t' as u32 == 9 && '\u{7}' as u32 == 7 && '\u{8}' as u32 == 8 && '\u{b}' as u32 == 11
        && '\u{c}' as u32 == 12);
    let short = c == '\\' || c == '"' || c == '%' || (c == '$' && command) || c == '\u{7}' || c
        == '\u{8}' || c == '\u{c}' || c == '\n' || c == '\r' || c == '\t' || c == '\u{b}';
    if short {
        assert(s[0] == systemd_char(c, command)[0] && s[1] == systemd_char(c, command)[1]);
        assert(s.skip(2) =~= tail);
    } else if is_control(c) {
        lemma_control_bytes(c);
        let bytes = encode_utf8(seq![c]);
        if (c as u32) < 0x80 {
            lemma_byte_is_read(bytes[0], tail, command);
            assert(bytes =~= seq![bytes[0]]);
        } else {
            let second = seq![
                '\\',
                'x',
                hex_digit((bytes[1] / 16) as nat),
                hex_digit((bytes[1] % 16) as nat),
            ];
            assert('0' as u32 == 48 && 'a' as u32 == 97 && '2' as u32 == 50 && 'c' as u32 == 99);
            assert(hex_digit(12) == 'c' && hex_digit(2) == '2');
            let first = seq![
                '\\',
                'x',
                hex_digit((0xc2u8 / 16) as nat),
                hex_digit((0xc2u8 % 16) as nat),
            ];
            assert(first =~= seq!['\\', 'x', 'c', '2']);
            assert(s =~= first + (second + tail));
            lemma_byte_is_read(0xc2u8, second + tail, command);
            lemma_byte_is_read(bytes[1], tail, command);
            assert(bytes =~= seq![0xc2u8] + seq![bytes[1]]);
            if let Some(more) = value_bytes(tail, command) {
                assert(seq![0xc2u8] + (seq![bytes[1]] + more) =~= bytes + more);
            }
        }
    } else {
        assert(s[0] == c);
        assert(s.skip(1) =~= tail);
    }
}

/// systemd reads a quoted value as the text that was quoted.
pub proof fn law_a_quoted_value_is_read_back(s: Seq<char>, command: bool)
    ensures
        value_bytes(systemd_inside(s, command), command) == Some(encode_utf8(s)),
    decreases s.len(),
{
    if s.len() == 0 {
        assert(encode_utf8(s) =~= Seq::<u8>::empty());
    } else {
        lemma_inside_front(s, command);
        law_a_quoted_value_is_read_back(s.skip(1), command);
        lemma_shown_char_is_read(s[0], systemd_inside(s.skip(1), command), command);
        lemma_one_char(s[0]);
        assert(s.drop_first() =~= s.skip(1));
        assert(encode_utf8(s) =~= encode_utf8(seq![s[0]]) + encode_utf8(s.skip(1)));
    }
}

/// What a line of a unit assigns to a name, if it does.
pub open spec fn assigned_by(row: Seq<char>, name: Seq<char>) -> Option<Seq<u8>> {
    let mark = encode_utf8(name.push('='));
    match after_prefix(row, "Environment=\""@) {
        Some(rest) => if rest.len() > 0 && rest.last() == '"' {
            match value_bytes(rest.drop_last(), false) {
                Some(bytes) => if bytes.len() >= mark.len() && bytes.take(mark.len() as int)
                    == mark {
                    Some(bytes.skip(mark.len() as int))
                } else {
                    None
                },
                None => None,
            }
        } else {
            None
        },
        None => None,
    }
}

/// What a unit gives the service under a name: the last line decides.
pub open spec fn unit_environment(rows: Seq<Seq<char>>, name: Seq<char>) -> Option<Seq<u8>>
    decreases rows.len(),
{
    if rows.len() == 0 {
        None
    } else if assigned_by(rows.last(), name) is Some {
        assigned_by(rows.last(), name)
    } else {
        unit_environment(rows.drop_last(), name)
    }
}

proof fn lemma_encoding_adds_up(a: Seq<char>, b: Seq<char>)
    ensures
        encode_utf8(a + b) == encode_utf8(a) + encode_utf8(b),
    decreases a.len(),
{
    if a.len() == 0 {
        assert(a + b =~= b);
        assert(encode_utf8(a) + encode_utf8(b) =~= encode_utf8(b));
    } else {
        assert((a + b).drop_first() =~= a.drop_first() + b);
        lemma_encoding_adds_up(a.drop_first(), b);
        assert(encode_utf8(a + b) =~= encode_utf8(a) + encode_utf8(b));
    }
}

/// An environment line assigns its value to its own name.
proof fn lemma_line_assigns(name: Seq<char>, assignment: Seq<char>, value: Seq<char>)
    requires
        assignment == name.push('='),
    ensures
        assigned_by(environment_line(assignment, value), name) == Some(encode_utf8(value)),
{
    let text = assignment + value;
    let row = environment_line(assignment, value);
    let inside = systemd_inside(text, false);
    reveal_strlit("Environment=");
    reveal_strlit("Environment=\"");
    assert(row =~= "Environment=\""@ + (inside + seq!['"']));
    let n = "Environment=\""@.len() as int;
    assert(row.take(n) =~= "Environment=\""@);
    assert(row.skip(n) =~= inside + seq!['"']);
    assert((inside + seq!['"']).drop_last() =~= inside);
    law_a_quoted_value_is_read_back(text, false);
    lemma_encoding_adds_up(assignment, value);
    let mark = encode_utf8(assignment);
    assert(encode_utf8(text).take(mark.len() as int) =~= mark);
    assert(encode_utf8(text).skip(mark.len() as int) =~= encode_utf8(value));
}

/// An environment line assigns nothing to a name that parts from its own.
proof fn lemma_line_leaves(
    name: Seq<char>,
    assignment: Seq<char>,
    value: Seq<char>,
    k: int,
)
    requires
        0 <= k < assignment.len(),
        k < name.push('=').len(),
        forall|i: int| 0 <= i <= k ==> (#[trigger] assignment[i] as u32) < 0x80,
        forall|i: int| 0 <= i <= k ==> (#[trigger] name.push('=')[i] as u32) < 0x80,
        assignment[k] != name.push('=')[k],
    ensures
        assigned_by(environment_line(assignment, value), name) is None,
{
    let text = assignment + value;
    let row = environment_line(assignment, value);
    let inside = systemd_inside(text, false);
    reveal_strlit("Environment=");
    reveal_strlit("Environment=\"");
    assert(row =~= "Environment=\""@ + (inside + seq!['"']));
    let n = "Environment=\""@.len() as int;
    assert(row.take(n) =~= "Environment=\""@);
    assert(row.skip(n) =~= inside + seq!['"']);
    assert((inside + seq!['"']).drop_last() =~= inside);
    law_a_quoted_value_is_read_back(text, false);
    let mark = encode_utf8(name.push('='));
    let bytes = encode_utf8(text);
    lemma_plain_front(name.push('='), k);
    assert forall|i: int| 0 <= i <= k implies (#[trigger] text[i] as u32) < 0x80 by {
        assert(text[i] == assignment[i]);
    }
    lemma_plain_front(text, k);
    if bytes.len() >= mark.len() && bytes.take(mark.len() as int) == mark {
        assert(bytes.take(mark.len() as int)[k] == bytes[k]);
        assert(text[k] == assignment[k]);
        assert(text[k] as u32 == name.push('=')[k] as u32);
        lemma_same_char(text[k], name.push('=')[k]);
    }
}

proof fn lemma_same_char(a: char, b: char)
    requires
        a as u32 == b as u32,
    ensures
        a == b,
{
}

/// The bytes of plain characters are the characters.
proof fn lemma_plain_front(s: Seq<char>, k: int)
    requires
        0 <= k < s.len(),
        forall|i: int| 0 <= i <= k ==> (#[trigger] s[i] as u32) < 0x80,
    ensures
        encode_utf8(s).len() > k,
        encode_utf8(s)[k] == s[k] as u32,
    decreases k,
{
    lemma_one_char(s[0]);
    let rest = s.drop_first();
    assert(encode_utf8(s) == encode_utf8(seq![s[0]]) + encode_utf8(rest));
    if k > 0 {
        assert forall|i: int| 0 <= i <= k - 1 implies (#[trigger] rest[i] as u32) < 0x80 by {
            assert(rest[i] == s[i + 1]);
        }
        lemma_plain_front(rest, k - 1);
        assert(rest[k - 1] == s[k]);
    }
}

/// A line that is no environment line assigns nothing.
proof fn lemma_other_line_assigns_nothing(row: Seq<char>, name: Seq<char>)
    requires
        row.len() == 0 || row[0] != 'E' || (row.len() > 1 && row[1] != 'n'),
    ensures
        assigned_by(row, name) is None,
{
    reveal_strlit("Environment=\"");
    let n = "Environment=\""@.len() as int;
    if after_prefix(row, "Environment=\""@) is Some {
        assert(row.take(n)[0] == "Environment=\""@[0]);
        assert(row.take(n)[1] == "Environment=\""@[1]);
    }
}

proof fn lemma_environment_step(rows: Seq<Seq<char>>, row: Seq<char>, name: Seq<char>)
    ensures
        assigned_by(row, name) is None ==> unit_environment(rows.push(row), name)
            == unit_environment(rows, name),
        assigned_by(row, name) is Some ==> unit_environment(rows.push(row), name) == assigned_by(
            row,
            name,
        ),
{
    assert(rows.push(row).drop_last() =~= rows);
}

/// The unit of an installation gives the service each directory under its own name,
/// whatever characters the paths hold.
#[verifier::spinoff_prover]
#[verifier::rlimit(60)]
pub proof fn law_the_unit_is_read_back(
    exe: &str,
    home: &str,
    codex_home: &str,
    app_home: &str,
    r: String,
)
    requires
        call_ensures(systemd_unit, (exe, home, codex_home, app_home), r),
    ensures
        unit_environment(lines(r@), "HOME"@) == Some(encode_utf8(home@)),
        unit_environment(lines(r@), "CODEX_HOME"@) == Some(encode_utf8(codex_home@)),
        unit_environment(lines(r@), "CODEX_SWITCH_HOME"@) == Some(encode_utf8(app_home@)),
        lines(r@).contains("Type=simple"@),
        lines(r@).contains("Restart=on-failure"@),
        lines(r@).contains("WantedBy=default.target"@),
{
    let nothing = Seq::<char>::empty();
    law_systemd_unit_is_owned(exe@, home@, codex_home@, app_home@, nothing);
    assert(r@ + nothing =~= r@);
    assert(lines(nothing) =~= Seq::<Seq<char>>::empty());
    let rows = crate::service_render::unit_lines(exe@, home@, codex_home@, app_home@);
    assert(rows + lines(nothing) =~= rows);
    assert(lines(r@) == rows);
    assert(rows[5] == "Type=simple"@ && rows[7] == "Restart=on-failure"@ && rows[14]
        == "WantedBy=default.target"@);
    reveal_strlit("HOME");
    reveal_strlit("CODEX_HOME");
    reveal_strlit("CODEX_SWITCH_HOME");
    reveal_strlit("HOME=");
    reveal_strlit("CODEX_HOME=");
    reveal_strlit("CODEX_SWITCH_HOME=");
    reveal_strlit("");
    reveal_strlit("[Install]");
    reveal_strlit("WantedBy=default.target");
    assert("HOME="@ =~= "HOME"@.push('='));
    assert("CODEX_HOME="@ =~= "CODEX_HOME"@.push('='));
    assert("CODEX_SWITCH_HOME="@ =~= "CODEX_SWITCH_HOME"@.push('='));
    let first = rows.take(10);
    let second = rows.take(11);
    let third = rows.take(12);
    let fourth = rows.take(13);
    let fifth = rows.take(14);
    let before = rows.take(9);
    assert(first =~= before.push(rows[9]));
    assert(second =~= first.push(rows[10]));
    assert(third =~= second.push(rows[11]));
    assert(fourth =~= third.push(rows[12]));
    assert(fifth =~= fourth.push(rows[13]));
    assert(rows =~= fifth.push(rows[14]));
    lemma_read_names(before, first, second, third, fourth, fifth, rows, home@, codex_home@, app_home@);
}

proof fn lemma_read_names(
    before: Seq<Seq<char>>,
    first: Seq<Seq<char>>,
    second: Seq<Seq<char>>,
    third: Seq<Seq<char>>,
    fourth: Seq<Seq<char>>,
    fifth: Seq<Seq<char>>,
    rows: Seq<Seq<char>>,
    home: Seq<char>,
    codex_home: Seq<char>,
    app_home: Seq<char>,
)
    requires
        first == before.push(environment_line("HOME="@, home)),
        second == first.push(environment_line("CODEX_HOME="@, codex_home)),
        third == second.push(environment_line("CODEX_SWITCH_HOME="@, app_home)),
        fourth == third.push(""@),
        fifth == fourth.push("[Install]"@),
        rows == fifth.push("WantedBy=default.target"@),
        "HOME="@ == "HOME"@.push('='),
        "CODEX_HOME="@ == "CODEX_HOME"@.push('='),
        "CODEX_SWITCH_HOME="@ == "CODEX_SWITCH_HOME"@.push('='),
    ensures
        unit_environment(rows, "HOME"@) == Some(encode_utf8(home)),
        unit_environment(rows, "CODEX_HOME"@) == Some(encode_utf8(codex_home)),
        unit_environment(rows, "CODEX_SWITCH_HOME"@) == Some(encode_utf8(app_home)),
{
    reveal_strlit("HOME");
    reveal_strlit("CODEX_HOME");
    reveal_strlit("CODEX_SWITCH_HOME");
    reveal_strlit("HOME=");
    reveal_strlit("CODEX_HOME=");
    reveal_strlit("CODEX_SWITCH_HOME=");
    reveal_strlit("");
    reveal_strlit("[Install]");
    reveal_strlit("WantedBy=default.target");
    lemma_line_assigns("HOME"@, "HOME="@, home);
    lemma_line_assigns("CODEX_HOME"@, "CODEX_HOME="@, codex_home);
    lemma_line_assigns("CODEX_SWITCH_HOME"@, "CODEX_SWITCH_HOME="@, app_home);
    lemma_line_leaves("HOME"@, "CODEX_HOME="@, codex_home, 0);
    lemma_line_leaves("HOME"@, "CODEX_SWITCH_HOME="@, app_home, 0);
    assert("CODEX_HOME"@.push('=')[6] == 'H' && "CODEX_SWITCH_HOME="@[6] == 'S');
    lemma_line_leaves("CODEX_HOME"@, "CODEX_SWITCH_HOME="@, app_home, 6);
    let a = "HOME"@;
    let b = "CODEX_HOME"@;
    let c = "CODEX_SWITCH_HOME"@;
    lemma_other_line_assigns_nothing(""@, a);
    lemma_other_line_assigns_nothing(""@, b);
    lemma_other_line_assigns_nothing(""@, c);
    lemma_other_line_assigns_nothing("[Install]"@, a);
    lemma_other_line_assigns_nothing("[Install]"@, b);
    lemma_other_line_assigns_nothing("[Install]"@, c);
    lemma_other_line_assigns_nothing("WantedBy=default.target"@, a);
    lemma_other_line_assigns_nothing("WantedBy=default.target"@, b);
    lemma_other_line_assigns_nothing("WantedBy=default.target"@, c);
    lemma_environment_step(before, environment_line("HOME="@, home), a);
    lemma_environment_step(first, environment_line("CODEX_HOME="@, codex_home), a);
    lemma_environment_step(second, environment_line("CODEX_SWITCH_HOME="@, app_home), a);
    lemma_environment_step(third, ""@, a);
    lemma_environment_step(fourth, "[Install]"@, a);
    lemma_environment_step(fifth, "WantedBy=default.target"@, a);
    lemma_environment_step(first, environment_line("CODEX_HOME="@, codex_home), b);
    lemma_environment_step(second, environment_line("CODEX_SWITCH_HOME="@, app_home), b);
    lemma_environment_step(third, ""@, b);
    lemma_environment_step(fourth, "[Install]"@, b);
    lemma_environment_step(fifth, "WantedBy=default.target"@, b);
    lemma_environment_step(second, environment_line("CODEX_SWITCH_HOME="@, app_home), c);
    lemma_environment_step(third, ""@, c);
    lemma_environment_step(fourth, "[Install]"@, c);
    lemma_environment_step(fifth, "WantedBy=default.target"@, c);
}

// -- Scheduled tasks --

/// The first command of a command line as the Windows command interpreter reads it,
/// and what follows the `&&` behind it. Outside quotes a caret makes the next
/// character an ordinary one.
pub open spec fn first_command(s: Seq<char>, quoted: bool) -> (Seq<char>, Option<Seq<char>>)
    decreases s.len(),
{
    if s.len() == 0 {
        (Seq::empty(), None)
    } else if !quoted && s[0] == '^' && s.len() >= 2 {
        let (more, rest) = first_command(s.skip(2), quoted);
        (seq![s[1]] + more, rest)
    } else if !quoted && s[0] == '&' && s.len() >= 2 && s[1] == '&' {
        (Seq::empty(), Some(s.skip(2)))
    } else {
        let (more, rest) = first_command(
            s.skip(1),
            if s[0] == '"' {
                !quoted
            } else {
                quoted
            },
        );
        (seq![s[0]] + more, rest)
    }
}

/// The commands of a command line.
pub open spec fn commands(s: Seq<char>) -> Seq<Seq<char>>
    decreases s.len(),
{
    let (first, rest) = first_command(s, false);
    match rest {
        None => seq![first],
        Some(more) => if more.len() < s.len() {
            seq![first] + commands(more)
        } else {
            seq![first]
        },
    }
}

proof fn lemma_escaped_value_is_read(value: Seq<char>, rest: Seq<char>)
    requires
        forall|i: int| 0 <= i < value.len() ==> #[trigger] value[i] != '"',
    ensures
        first_command(cmd_escaped(value) + rest, false) == (
            value + first_command(rest, false).0,
            first_command(rest, false).1,
        ),
    decreases value.len(),
{
    let s = cmd_escaped(value) + rest;
    let end = first_command(rest, false);
    if value.len() == 0 {
        assert(s =~= rest);
        assert(value + end.0 =~= end.0);
    } else {
        let c = value[0];
        let tail = value.skip(1);
        assert forall|i: int| 0 <= i < tail.len() implies #[trigger] tail[i] != '"' by {
            assert(tail[i] == value[i + 1]);
        }
        lemma_escaped_value_is_read(tail, rest);
        let later = cmd_escaped(tail) + rest;
        if cmd_special(c) {
            assert(s =~= seq!['^', c] + later);
            assert(s.skip(2) =~= later);
            assert(s[0] == '^' && s[1] == c);
        } else {
            assert(s =~= seq![c] + later);
            assert(s.skip(1) =~= later);
            assert(s[0] == c);
        }
        assert(seq![c] + (tail + end.0) =~= value + end.0);
    }
}

proof fn lemma_plain_text_is_read(text: Seq<char>, rest: Seq<char>, quoted: bool)
    requires
        forall|i: int|
            0 <= i < text.len() ==> #[trigger] text[i] != '"' && (quoted || (text[i] != '^'
                && text[i] != '&')),
    ensures
        first_command(text + rest, quoted) == (
            text + first_command(rest, quoted).0,
            first_command(rest, quoted).1,
        ),
    decreases text.len(),
{
    let s = text + rest;
    let end = first_command(rest, quoted);
    if text.len() == 0 {
        assert(s =~= rest);
        assert(text + end.0 =~= end.0);
    } else {
        let tail = text.skip(1);
        assert forall|i: int| 0 <= i < tail.len() implies #[trigger] tail[i] != '"' && (quoted || (
        tail[i] != '^' && tail[i] != '&')) by {
            assert(tail[i] == text[i + 1]);
        }
        lemma_plain_text_is_read(tail, rest, quoted);
        assert(s[0] == text[0]);
        assert(s.skip(1) =~= tail + rest);
        assert(seq![text[0]] + (tail + end.0) =~= text + end.0);
    }
}

proof fn lemma_separator(rest: Seq<char>)
    ensures
        first_command("&&"@ + rest, false) == (Seq::<char>::empty(), Some(rest)),
{
    reveal_strlit("&&");
    let s = "&&"@ + rest;
    assert(s[0] == '&' && s[1] == '&');
    assert(s.skip(2) =~= rest);
}

proof fn lemma_without(s: Seq<char>, c: char)
    requires
        !has_char(s, c),
    ensures
        forall|i: int| 0 <= i < s.len() ==> #[trigger] s[i] != c,
{
    lemma_until(s, CharClass::Just(c));
    assert forall|i: int| 0 <= i < s.len() implies #[trigger] s[i] != c by {
        assert(!CharClass::Just(c).has(s[i]));
    }
}

/// The command of a scheduled task sets each directory under its own name and then
/// starts the executable in the foreground, whatever characters the paths hold that
/// a task can carry at all.
#[verifier::spinoff_prover]
#[verifier::rlimit(60)]
pub proof fn law_the_task_command_is_read_back(
    exe: &HostPath,
    codex_home: &HostPath,
    app_home: &HostPath,
    r: String,
)
    requires
        call_ensures(task_scheduler_command, (exe, codex_home, app_home), Ok::<String, Fault>(r)),
    ensures
        exe.unicode is Some && codex_home.unicode is Some && app_home.unicode is Some,
        commands(r@) == seq![
            "cmd.exe /D /V:OFF /S /C set CODEX_HOME="@ + codex_home.unicode->0@,
            " set CODEX_SWITCH_HOME="@ + app_home.unicode->0@,
            " \""@ + exe.unicode->0@ + "\" daemon start --foreground"@,
        ],
{
    assert(task_path_problem("executable path"@, *exe) is None);
    assert(task_path_problem("CODEX_HOME"@, *codex_home) is None);
    assert(task_path_problem("CODEX_SWITCH_HOME"@, *app_home) is None);
    let x = exe.unicode->0@;
    let a = codex_home.unicode->0@;
    let b = app_home.unicode->0@;
    lemma_without(x, '"');
    lemma_without(a, '"');
    lemma_without(b, '"');
    let head = "cmd.exe /D /V:OFF /S /C set CODEX_HOME="@;
    let second = " set CODEX_SWITCH_HOME="@;
    let open = " \""@;
    let close = "\" daemon start --foreground"@;
    reveal_strlit("cmd.exe ");
    reveal_strlit("/D /V:OFF /S /C set CODEX_HOME=");
    reveal_strlit("cmd.exe /D /V:OFF /S /C set CODEX_HOME=");
    reveal_strlit("&& set CODEX_SWITCH_HOME=");
    reveal_strlit(" set CODEX_SWITCH_HOME=");
    reveal_strlit("&& \"");
    reveal_strlit(" \"");
    reveal_strlit("&&");
    reveal_strlit("\" daemon start --foreground");
    let last = open + x + close;
    let middle = second + (cmd_escaped(b) + ("&&"@ + last));
    assert("cmd.exe "@ + "/D /V:OFF /S /C set CODEX_HOME="@ =~= head);
    assert("&& set CODEX_SWITCH_HOME="@ =~= "&&"@ + second);
    assert("&& \""@ =~= "&&"@ + open);
    assert(r@ =~= head + (cmd_escaped(a) + ("&&"@ + middle)));
    lemma_plain_text_is_read(head, cmd_escaped(a) + ("&&"@ + middle), false);
    lemma_escaped_value_is_read(a, "&&"@ + middle);
    lemma_separator(middle);
    assert(head + (a + Seq::<char>::empty()) =~= head + a);
    lemma_plain_text_is_read(second, cmd_escaped(b) + ("&&"@ + last), false);
    lemma_escaped_value_is_read(b, "&&"@ + last);
    lemma_separator(last);
    assert(second + (b + Seq::<char>::empty()) =~= second + b);
    let tail = " daemon start --foreground"@;
    reveal_strlit(" daemon start --foreground");
    assert(close =~= seq!['"'] + tail);
    let nothing = Seq::<char>::empty();
    assert(tail + nothing =~= tail);
    lemma_plain_text_is_read(tail, nothing, false);
    assert(first_command(nothing, false) == (nothing, None::<Seq<char>>));
    assert(first_command(tail, false).0 =~= tail);
    assert(close[0] == '"' && close.skip(1) =~= tail);
    assert(first_command(close, true) == (seq!['"'] + first_command(tail, false).0, first_command(
        tail,
        false,
    ).1));
    assert(first_command(close, true).0 =~= close);
    lemma_plain_text_is_read(x, close, true);
    let inner = x + close;
    assert(last =~= open + inner);
    assert(last[0] == ' ' && last[1] == '"');
    let from_quote = last.skip(1);
    assert(from_quote[0] == '"');
    assert(from_quote.skip(1) =~= inner);
    assert(first_command(from_quote, false).0 =~= seq!['"'] + inner);
    assert(first_command(last, false).0 =~= last);
    assert(first_command(last, false).1 is None);
    assert(commands(last) =~= seq![last]);
    assert(commands(middle) =~= seq![second + b, last]);
    assert(commands(r@) =~= seq![head + a, second + b, last]);
}

/// A path that a scheduled task cannot carry is refused, and every other command that
/// is short enough is accepted.
pub proof fn law_only_what_a_task_cannot_carry_is_refused(
    exe: &HostPath,
    codex_home: &HostPath,
    app_home: &HostPath,
    r: Result<String, Fault>,
)
    requires
        call_ensures(task_scheduler_command, (exe, codex_home, app_home), r),
    ensures
        exe.unicode is None || codex_home.unicode is None || app_home.unicode is None ==> r is Err,
        exe.unicode matches Some(t) && (has_char(t@, '%') || has_char(t@, '"') || has_char(t@, '\n')
            || has_char(t@, '\r')) ==> r is Err,
        codex_home.unicode matches Some(t) && (has_char(t@, '%') || has_char(t@, '"') || has_char(
            t@,
            '\n',
        ) || has_char(t@, '\r')) ==> r is Err,
        app_home.unicode matches Some(t) && (has_char(t@, '%') || has_char(t@, '"') || has_char(
            t@,
            '\n',
        ) || has_char(t@, '\r')) ==> r is Err,
        r matches Ok(text) ==> crate::service_render::utf16_len(text@) <= 262,
{
}

} // verus!
