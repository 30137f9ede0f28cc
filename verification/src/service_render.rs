//! The service definitions that the daemon installs: a LaunchAgent property
//! list, a systemd user unit and a Task Scheduler command.
use vstd::prelude::*;
use vstd::utf8::encode_utf8;

use crate::fault::{join2, join3, join4, join5, Fault};
use crate::host_path::HostPath;
use crate::outside::hex_digit;
use crate::text::{chars_of, control, is_control, lines, same_text, until, CharClass};

verus! {

/// The name of the Windows scheduled task.
pub const WINDOWS_TASK_NAME: &'static str = "\\codex-switch-global-pace-daemon";

/// The label of the LaunchAgent.
pub const LAUNCHD_LABEL: &'static str = "com.codex-switch-global-pace.daemon";

/// The name of the systemd user unit.
pub const SYSTEMD_UNIT_NAME: &'static str = "codex-switch-global-pace-daemon";

/// How XML text shows one character.
pub open spec fn xml_char(c: char) -> Seq<char> {
    if c == '&' {
        "&amp;"@
    } else if c == '<' {
        "&lt;"@
    } else if c == '>' {
        "&gt;"@
    } else if c == '"' {
        "&quot;"@
    } else if c == '\'' {
        "&apos;"@
    } else {
        seq![c]
    }
}

/// How XML text shows a text.
pub open spec fn xml_escaped(s: Seq<char>) -> Seq<char>
    decreases s.len(),
{
    if s.len() == 0 {
        Seq::empty()
    } else {
        xml_escaped(s.drop_last()) + xml_char(s.last())
    }
}

/// How XML text shows a text.
pub fn xml_escape(value: &str) -> (r: String)
    ensures
        r@ == xml_escaped(value@),
{
    let chars = chars_of(value);
    let mut out = String::new();
    let mut i: usize = 0;
    assert(chars@.take(0) =~= Seq::empty());
    while i < chars.len()
        invariant
            i <= chars@.len(),
            out@ == xml_escaped(chars@.take(i as int)),
        decreases chars@.len() - i,
    {
        let c = chars[i];
        let ghost before = out@;
        if c == '&' {
            out.append("&amp;");
        } else if c == '<' {
            out.append("&lt;");
        } else if c == '>' {
            out.append("&gt;");
        } else if c == '"' {
            out.append("&quot;");
        } else if c == '\'' {
            out.append("&apos;");
        } else {
            out.push(c);
            assert(out@ =~= before + seq![c]);
        }
        i = i + 1;
        assert(chars@.take(i as int).drop_last() =~= chars@.take(i - 1));
    }
    assert(chars@.take(i as int) =~= chars@);
    out
}

/// How a systemd value shows bytes: a hexadecimal escape for each.
pub open spec fn byte_escapes(bytes: Seq<u8>) -> Seq<char>
    decreases bytes.len(),
{
    if bytes.len() == 0 {
        Seq::empty()
    } else {
        byte_escapes(bytes.drop_last()) + seq![
            '\\',
            'x',
            hex_digit((bytes.last() / 16) as nat),
            hex_digit((bytes.last() % 16) as nat),
        ]
    }
}

/// How a systemd value shows one character. A dollar sign is doubled only in
/// command lines, where systemd would expand it.
pub open spec fn systemd_char(c: char, escape_dollar: bool) -> Seq<char> {
    if c == '\\' {
        seq!['\\', '\\']
    } else if c == '"' {
        seq!['\\', '"']
    } else if c == '%' {
        seq!['%', '%']
    } else if c == '$' && escape_dollar {
        seq!['$', '$']
    } else if c == '\u{7}' {
        seq!['\\', 'a']
    } else if c == '\u{8}' {
        seq!['\\', 'b']
    } else if c == '\u{c}' {
        seq!['\\', 'f']
    } else if c == '\n' {
        seq!['\\', 'n']
    } else if c == '\r' {
        seq!['\\', 'r']
    } else if c == '\t' {
        seq!['\\', 't']
    } else if c == '\u{b}' {
        seq!['\\', 'v']
    } else if is_control(c) {
        byte_escapes(encode_utf8(seq![c]))
    } else {
        seq![c]
    }
}

/// The inside of a quoted systemd value.
pub open spec fn systemd_inside(s: Seq<char>, escape_dollar: bool) -> Seq<char>
    decreases s.len(),
{
    if s.len() == 0 {
        Seq::empty()
    } else {
        systemd_inside(s.drop_last(), escape_dollar) + systemd_char(s.last(), escape_dollar)
    }
}

/// A quoted systemd value.
pub open spec fn systemd_quoted(s: Seq<char>, escape_dollar: bool) -> Seq<char> {
    seq!['"'] + systemd_inside(s, escape_dollar) + seq!['"']
}

fn hex_digit_of(n: u8) -> (r: char)
    requires
        n < 16,
    ensures
        r == hex_digit(n as nat),
{
    if n < 10 {
        (48u8 + n) as char
    } else {
        (97u8 + (n - 10)) as char
    }
}

fn push_byte_escapes(out: &mut String, c: char)
    ensures
        final(out)@ == old(out)@ + byte_escapes(encode_utf8(seq![c])),
{
    let mut single = String::new();
    single.push(c);
    assert(single@ =~= seq![c]);
    let bytes = single.as_str().as_bytes();
    let mut i: usize = 0;
    let ghost start = out@;
    assert(bytes@.take(0) =~= Seq::empty());
    assert(start + byte_escapes(bytes@.take(0)) =~= start);
    while i < bytes.len()
        invariant
            i <= bytes@.len(),
            out@ == start + byte_escapes(bytes@.take(i as int)),
        decreases bytes@.len() - i,
    {
        let ghost before = out@;
        out.push('\\');
        out.push('x');
        out.push(hex_digit_of(bytes[i] / 16));
        out.push(hex_digit_of(bytes[i] % 16));
        i = i + 1;
        proof {
            let now = bytes@.take(i as int);
            assert(now.drop_last() =~= bytes@.take(i - 1));
            assert(out@ =~= start + byte_escapes(now));
        }
    }
    assert(bytes@.take(i as int) =~= bytes@);
}

fn push_two(out: &mut String, a: char, b: char)
    ensures
        final(out)@ == old(out)@ + seq![a, b],
{
    out.push(a);
    out.push(b);
    assert(out@ =~= old(out)@ + seq![a, b]);
}

/// A quoted systemd value.
pub fn systemd_quote_with(value: &str, escape_dollar: bool) -> (r: String)
    ensures
        r@ == systemd_quoted(value@, escape_dollar),
{
    let chars = chars_of(value);
    let mut out = String::new();
    out.push('"');
    let mut i: usize = 0;
    assert(chars@.take(0) =~= Seq::empty());
    assert(out@ =~= seq!['"'] + systemd_inside(chars@.take(0), escape_dollar));
    while i < chars.len()
        invariant
            i <= chars@.len(),
            out@ == seq!['"'] + systemd_inside(chars@.take(i as int), escape_dollar),
        decreases chars@.len() - i,
    {
        let c = chars[i];
        let ghost before = out@;
        if c == '\\' {
            push_two(&mut out, '\\', '\\');
        } else if c == '"' {
            push_two(&mut out, '\\', '"');
        } else if c == '%' {
            push_two(&mut out, '%', '%');
        } else if c == '$' && escape_dollar {
            push_two(&mut out, '$', '$');
        } else if c == '\u{7}' {
            push_two(&mut out, '\\', 'a');
        } else if c == '\u{8}' {
            push_two(&mut out, '\\', 'b');
        } else if c == '\u{c}' {
            push_two(&mut out, '\\', 'f');
        } else if c == '\n' {
            push_two(&mut out, '\\', 'n');
        } else if c == '\r' {
            push_two(&mut out, '\\', 'r');
        } else if c == '\t' {
            push_two(&mut out, '\\', 't');
        } else if c == '\u{b}' {
            push_two(&mut out, '\\', 'v');
        } else if control(c) {
            push_byte_escapes(&mut out, c);
        } else {
            out.push(c);
        }
        i = i + 1;
        proof {
            assert(chars@.take(i as int).drop_last() =~= chars@.take(i - 1));
            assert(out@ =~= before + systemd_char(c, escape_dollar));
            assert(out@ =~= seq!['"'] + systemd_inside(chars@.take(i as int), escape_dollar));
        }
    }
    assert(chars@.take(i as int) =~= chars@);
    out.push('"');
    assert(out@ =~= systemd_quoted(value@, escape_dollar));
    out
}

/// A quoted value of a systemd `Environment=` line.
pub fn systemd_quote(value: &str) -> (r: String)
    ensures
        r@ == systemd_quoted(value@, false),
{
    systemd_quote_with(value, false)
}

/// A quoted word of a systemd command line.
pub fn systemd_exec_quote(value: &str) -> (r: String)
    ensures
        r@ == systemd_quoted(value@, true),
{
    systemd_quote_with(value, true)
}

/// Lines, each with a line feed after it.
pub open spec fn line_text(rows: Seq<Seq<char>>) -> Seq<char>
    decreases rows.len(),
{
    if rows.len() == 0 {
        Seq::empty()
    } else {
        rows[0].push('\n') + line_text(rows.skip(1))
    }
}

/// The command line of the systemd unit.
pub open spec fn exec_start(exe: Seq<char>) -> Seq<char> {
    "ExecStart="@ + systemd_quoted(exe, true) + " daemon start --foreground"@
}

/// An environment line of the systemd unit.
pub open spec fn environment_line(name: Seq<char>, value: Seq<char>) -> Seq<char> {
    "Environment="@ + systemd_quoted(name + value, false)
}

/// The lines of the systemd unit.
pub open spec fn unit_lines(
    exe: Seq<char>,
    home: Seq<char>,
    codex_home: Seq<char>,
    app_home: Seq<char>,
) -> Seq<Seq<char>> {
    seq![
        "[Unit]"@,
        "Description=codex-switch-global-pace auto-switching daemon"@,
        "After=network-online.target"@,
        ""@,
        "[Service]"@,
        "Type=simple"@,
        exec_start(exe),
        "Restart=on-failure"@,
        "RestartSec=10"@,
        environment_line("HOME="@, home),
        environment_line("CODEX_HOME="@, codex_home),
        environment_line("CODEX_SWITCH_HOME="@, app_home),
        ""@,
        "[Install]"@,
        "WantedBy=default.target"@,
    ]
}

fn push_line(out: &mut String, line: &str)
    ensures
        final(out)@ == old(out)@ + line@.push('\n'),
{
    out.append(line);
    out.push('\n');
    assert(out@ =~= old(out)@ + line@.push('\n'));
}

/// Lines put one behind the other.
proof fn lemma_line_text_push(rows: Seq<Seq<char>>, row: Seq<char>)
    ensures
        line_text(rows.push(row)) == line_text(rows) + row.push('\n'),
    decreases rows.len(),
{
    if rows.len() == 0 {
        assert(rows.push(row).skip(1) =~= Seq::<Seq<char>>::empty());
        let one = rows.push(row);
        assert(one[0] == row);
        assert(line_text(one.skip(1)) =~= Seq::empty());
        assert(line_text(one) == one[0].push('\n') + line_text(one.skip(1)));
        assert(line_text(one) =~= row.push('\n'));
        assert(line_text(rows) =~= Seq::empty());
        assert(line_text(rows) + row.push('\n') =~= row.push('\n'));
    } else {
        assert(rows.push(row).skip(1) =~= rows.skip(1).push(row));
        lemma_line_text_push(rows.skip(1), row);
        assert(line_text(rows.push(row)) =~= line_text(rows) + row.push('\n'));
    }
}

/// The systemd user unit of the daemon.
pub fn systemd_unit(exe: &str, home: &str, codex_home: &str, app_home: &str) -> (r: String)
    ensures
        r@ == line_text(unit_lines(exe@, home@, codex_home@, app_home@)),
{
    let mut rows: Vec<String> = Vec::new();
    rows.push("[Unit]".to_owned());
    rows.push("Description=codex-switch-global-pace auto-switching daemon".to_owned());
    rows.push("After=network-online.target".to_owned());
    rows.push("".to_owned());
    rows.push("[Service]".to_owned());
    rows.push("Type=simple".to_owned());
    rows.push(exec_start_line(exe));
    rows.push("Restart=on-failure".to_owned());
    rows.push("RestartSec=10".to_owned());
    rows.push(
        join2("Environment=", systemd_quote(join2("HOME=", home).as_str()).as_str()),
    );
    rows.push(
        join2("Environment=", systemd_quote(join2("CODEX_HOME=", codex_home).as_str()).as_str()),
    );
    rows.push(
        join2("Environment=", systemd_quote(join2("CODEX_SWITCH_HOME=", app_home).as_str()).as_str()),
    );
    rows.push("".to_owned());
    rows.push("[Install]".to_owned());
    rows.push("WantedBy=default.target".to_owned());
    let ghost all = unit_lines(exe@, home@, codex_home@, app_home@);
    assert(crate::text::texts(rows@) =~= all);
    let mut out = String::new();
    let mut i: usize = 0;
    assert(all.take(0) =~= Seq::empty());
    while i < rows.len()
        invariant
            i <= rows@.len(),
            all == crate::text::texts(rows@),
            out@ == line_text(all.take(i as int)),
        decreases rows@.len() - i,
    {
        push_line(&mut out, rows[i].as_str());
        proof {
            lemma_line_text_push(all.take(i as int), all[i as int]);
            assert(all.take(i + 1) =~= all.take(i as int).push(all[i as int]));
        }
        i = i + 1;
    }
    assert(all.take(i as int) =~= all);
    out
}

/// The command line of the systemd unit.
pub fn exec_start_line(exe: &str) -> (r: String)
    ensures
        r@ == exec_start(exe@),
{
    join3("ExecStart=", systemd_exec_quote(exe).as_str(), " daemon start --foreground")
}

/// The LaunchAgent property list of the daemon.
pub open spec fn plist(
    exe: Seq<char>,
    home: Seq<char>,
    codex_home: Seq<char>,
    app_home: Seq<char>,
) -> Seq<char> {
    "<?xml version=\"1.0\" encoding=\"UTF-8\"?>\n<!DOCTYPE plist PUBLIC \"-//Apple//DTD PLIST 1.0//EN\"\n  \"http://www.apple.com/DTDs/PropertyList-1.0.dtd\">\n<plist version=\"1.0\">\n<dict>\n    <key>Label</key>\n    <string>"@
        + LAUNCHD_LABEL@
        + "</string>\n    <key>ProgramArguments</key>\n    <array>\n        <string>"@
        + xml_escaped(exe)
        + "</string>\n        <string>daemon</string>\n        <string>start</string>\n        <string>--foreground</string>\n    </array>\n    <key>RunAtLoad</key>\n    <true/>\n    <key>KeepAlive</key>\n    <true/>\n    <key>EnvironmentVariables</key>\n    <dict>\n        <key>HOME</key>\n        <string>"@
        + xml_escaped(home)
        + "</string>\n        <key>CODEX_HOME</key>\n        <string>"@ + xml_escaped(codex_home)
        + "</string>\n        <key>CODEX_SWITCH_HOME</key>\n        <string>"@ + xml_escaped(
        app_home,
    ) + "</string>\n    </dict>\n</dict>\n</plist>"@
}

/// The LaunchAgent property list of the daemon.
pub fn launchd_plist(exe: &str, home: &str, codex_home: &str, app_home: &str) -> (r: String)
    ensures
        r@ == plist(exe@, home@, codex_home@, app_home@),
{
    let mut out =
        "<?xml version=\"1.0\" encoding=\"UTF-8\"?>\n<!DOCTYPE plist PUBLIC \"-//Apple//DTD PLIST 1.0//EN\"\n  \"http://www.apple.com/DTDs/PropertyList-1.0.dtd\">\n<plist version=\"1.0\">\n<dict>\n    <key>Label</key>\n    <string>".to_owned();
    out.append(LAUNCHD_LABEL);
    out.append("</string>\n    <key>ProgramArguments</key>\n    <array>\n        <string>");
    out.append(xml_escape(exe).as_str());
    out.append(
        "</string>\n        <string>daemon</string>\n        <string>start</string>\n        <string>--foreground</string>\n    </array>\n    <key>RunAtLoad</key>\n    <true/>\n    <key>KeepAlive</key>\n    <true/>\n    <key>EnvironmentVariables</key>\n    <dict>\n        <key>HOME</key>\n        <string>",
    );
    out.append(xml_escape(home).as_str());
    out.append("</string>\n        <key>CODEX_HOME</key>\n        <string>");
    out.append(xml_escape(codex_home).as_str());
    out.append("</string>\n        <key>CODEX_SWITCH_HOME</key>\n        <string>");
    out.append(xml_escape(app_home).as_str());
    out.append("</string>\n    </dict>\n</dict>\n</plist>");
    out
}

// -- Windows Task Scheduler --

/// A character that the Windows command interpreter would act on.
pub open spec fn cmd_special(c: char) -> bool {
    c == '^' || c == '&' || c == '|' || c == '<' || c == '>' || c == '(' || c == ')'
}

/// Whether the Windows command interpreter would act on `c`.
pub fn is_cmd_special(c: char) -> (r: bool)
    ensures
        r == cmd_special(c),
{
    c == '^' || c == '&' || c == '|' || c == '<' || c == '>' || c == '(' || c == ')'
}

/// A value of the command interpreter's `set`: a caret before each special
/// character.
pub open spec fn cmd_escaped(s: Seq<char>) -> Seq<char>
    decreases s.len(),
{
    if s.len() == 0 {
        Seq::empty()
    } else if cmd_special(s[0]) {
        seq!['^', s[0]] + cmd_escaped(s.skip(1))
    } else {
        seq![s[0]] + cmd_escaped(s.skip(1))
    }
}

/// A value of the command interpreter's `set`.
pub fn cmd_set_value(value: &str) -> (r: String)
    ensures
        r@ == cmd_escaped(value@),
{
    let chars = chars_of(value);
    let mut out = String::new();
    let mut i: usize = 0;
    assert(chars@.skip(0) =~= chars@);
    assert(out@ + cmd_escaped(chars@.skip(0)) =~= cmd_escaped(value@));
    while i < chars.len()
        invariant
            i <= chars@.len(),
            out@ + cmd_escaped(chars@.skip(i as int)) == cmd_escaped(value@),
        decreases chars@.len() - i,
    {
        let c = chars[i];
        let ghost before = out@;
        let ghost rest = chars@.skip(i as int);
        if is_cmd_special(c) {
            out.push('^');
        }
        out.push(c);
        i = i + 1;
        proof {
            assert(rest.skip(1) =~= chars@.skip(i as int));
            assert(out@ + cmd_escaped(rest.skip(1)) =~= before + cmd_escaped(rest));
        }
    }
    assert(chars@.skip(i as int) =~= Seq::empty());
    assert(out@ + cmd_escaped(chars@.skip(i as int)) =~= out@);
    out
}

/// Whether `c` stands in `s`.
pub open spec fn has_char(s: Seq<char>, c: char) -> bool {
    until(s, CharClass::Just(c)) < s.len()
}

fn contains_char(chars: &Vec<char>, c: char) -> (r: bool)
    ensures
        r == has_char(chars@, c),
{
    crate::text::position(chars.as_slice(), CharClass::Just(c)) < chars.len()
}

/// What the Task Scheduler cannot take in a path, if anything.
pub open spec fn task_path_problem(label: Seq<char>, path: HostPath) -> Option<Seq<char>> {
    match path.unicode {
        None => Some(label + " is not valid Unicode: "@ + path.display@),
        Some(value) => if has_char(value@, '%') {
            Some(
                label
                    + " contains '%', which Windows Task Scheduler cannot preserve safely: "@
                    + path.display@,
            )
        } else if has_char(value@, '"') || has_char(value@, '\r') || has_char(value@, '\n') {
            Some(label + " contains an unsupported character: "@ + path.display@)
        } else {
            None
        },
    }
}

/// The text of a path that the Task Scheduler can take.
pub fn task_scheduler_path<'a>(label: &str, path: &'a HostPath) -> (r: Result<&'a str, Fault>)
    ensures
        match task_path_problem(label@, *path) {
            Some(message) => r matches Err(fault) && fault@ == seq![message],
            None => r matches Ok(value) && path.unicode is Some && value@ == path.unicode->0@,
        },
{
    let value = match &path.unicode {
        Some(value) => value,
        None => {
            return Err(
                Fault::from_text(join3(label, " is not valid Unicode: ", path.display.as_str())),
            );
        },
    };
    let chars = chars_of(value.as_str());
    if contains_char(&chars, '%') {
        return Err(
            Fault::from_text(
                join3(
                    label,
                    " contains '%', which Windows Task Scheduler cannot preserve safely: ",
                    path.display.as_str(),
                ),
            ),
        );
    }
    if contains_char(&chars, '"') || contains_char(&chars, '\r') || contains_char(&chars, '\n') {
        return Err(
            Fault::from_text(
                join3(label, " contains an unsupported character: ", path.display.as_str()),
            ),
        );
    }
    Ok(value.as_str())
}

/// The number of UTF-16 code units of a text.
pub open spec fn utf16_len(s: Seq<char>) -> nat
    decreases s.len(),
{
    if s.len() == 0 {
        0
    } else {
        utf16_len(s.drop_last()) + (if s.last() as u32 >= 0x10000 {
            2nat
        } else {
            1nat
        })
    }
}

/// Whether a text has more than `limit` UTF-16 code units.
fn utf16_exceeds(s: &str, limit: u64) -> (r: bool)
    requires
        limit < 0x1_0000_0000,
    ensures
        r == (utf16_len(s@) > limit),
{
    let chars = chars_of(s);
    let mut n: u64 = 0;
    let mut i: usize = 0;
    assert(chars@.take(0) =~= Seq::empty());
    while i < chars.len()
        invariant
            i <= chars@.len(),
            chars@ == s@,
            limit < 0x1_0000_0000,
            n <= limit,
            n == utf16_len(chars@.take(i as int)),
        decreases chars@.len() - i,
    {
        let ghost now = chars@.take(i + 1);
        assert(now.drop_last() =~= chars@.take(i as int));
        if chars[i] as u32 >= 0x10000 {
            n = n + 2;
        } else {
            n = n + 1;
        }
        i = i + 1;
        if n > limit {
            proof {
                lemma_utf16_grows(chars@, i as int);
            }
            return true;
        }
    }
    assert(chars@.take(i as int) =~= chars@);
    false
}

proof fn lemma_utf16_grows(s: Seq<char>, n: int)
    requires
        0 <= n <= s.len(),
    ensures
        utf16_len(s.take(n)) <= utf16_len(s),
    decreases s.len() - n,
{
    if n < s.len() {
        lemma_utf16_grows(s, n + 1);
        assert(s.take(n + 1).drop_last() =~= s.take(n));
    } else {
        assert(s.take(n) =~= s);
    }
}

/// The arguments of `cmd.exe` in the scheduled task.
pub open spec fn task_arguments(exe: Seq<char>, codex_home: Seq<char>, app_home: Seq<char>) -> Seq<
    char,
> {
    "/D /V:OFF /S /C set CODEX_HOME="@ + cmd_escaped(codex_home) + "&& set CODEX_SWITCH_HOME="@
        + cmd_escaped(app_home) + "&& \""@ + exe + "\" daemon start --foreground"@
}

/// The command of the scheduled task.
pub open spec fn task_command(exe: Seq<char>, codex_home: Seq<char>, app_home: Seq<char>) -> Seq<
    char,
> {
    "cmd.exe "@ + task_arguments(exe, codex_home, app_home)
}

/// The command of the scheduled task, or why it has none.
pub open spec fn task_command_reading(exe: HostPath, codex_home: HostPath, app_home: HostPath) -> Result<
    Seq<char>,
    Seq<char>,
> {
    if task_path_problem("executable path"@, exe) is Some {
        Err(task_path_problem("executable path"@, exe)->0)
    } else if task_path_problem("CODEX_HOME"@, codex_home) is Some {
        Err(task_path_problem("CODEX_HOME"@, codex_home)->0)
    } else if task_path_problem("CODEX_SWITCH_HOME"@, app_home) is Some {
        Err(task_path_problem("CODEX_SWITCH_HOME"@, app_home)->0)
    } else {
        let command = task_command(exe.unicode->0@, codex_home.unicode->0@, app_home.unicode->0@);
        if utf16_len(command) > 262 {
            Err(
                "Windows Task Scheduler command exceeds its 262-character limit; use shorter executable, CODEX_HOME, or CODEX_SWITCH_HOME paths"@,
            )
        } else {
            Ok(command)
        }
    }
}

/// The command of the scheduled task, or why it has none.
pub fn task_scheduler_command(exe: &HostPath, codex_home: &HostPath, app_home: &HostPath) -> (r:
    Result<String, Fault>)
    ensures
        match (r, task_command_reading(*exe, *codex_home, *app_home)) {
            (Ok(command), Ok(text)) => command@ == text,
            (Err(fault), Err(message)) => fault@ == seq![message],
            _ => false,
        },
{
    let exe = match task_scheduler_path("executable path", exe) {
        Ok(text) => text,
        Err(fault) => {
            return Err(fault);
        },
    };
    let codex_home = match task_scheduler_path("CODEX_HOME", codex_home) {
        Ok(text) => cmd_set_value(text),
        Err(fault) => {
            return Err(fault);
        },
    };
    let app_home = match task_scheduler_path("CODEX_SWITCH_HOME", app_home) {
        Ok(text) => cmd_set_value(text),
        Err(fault) => {
            return Err(fault);
        },
    };
    let mut arguments = join5(
        "/D /V:OFF /S /C set CODEX_HOME=",
        codex_home.as_str(),
        "&& set CODEX_SWITCH_HOME=",
        app_home.as_str(),
        "&& \"",
    );
    arguments.append(exe);
    arguments.append("\" daemon start --foreground");
    let command = join2("cmd.exe ", arguments.as_str());
    if utf16_exceeds(command.as_str(), 262) {
        return Err(
            Fault::of(
                "Windows Task Scheduler command exceeds its 262-character limit; use shorter executable, CODEX_HOME, or CODEX_SWITCH_HOME paths",
            ),
        );
    }
    Ok(command)
}

/// The message of a failed Task Scheduler call. One that creates a task points
/// to an elevated session.
pub open spec fn task_failure(action: Seq<char>, detail: Seq<char>) -> Seq<char> {
    "failed to "@ + action + ": "@ + detail + (if action == "create scheduled task"@ {
        " Re-run `codex-switch-global-pace daemon install` from an elevated PowerShell session."@
    } else {
        ""@
    })
}

/// The message of a failed Task Scheduler call.
pub fn task_scheduler_failure_message(action: &str, detail: &str) -> (r: String)
    ensures
        r@ == task_failure(action@, detail@),
{
    let mut text = join4("failed to ", action, ": ", detail);
    if same_text(action, "create scheduled task") {
        text.append(
            " Re-run `codex-switch-global-pace daemon install` from an elevated PowerShell session.",
        );
    } else {
        text.append("");
    }
    text
}

} // verus!
