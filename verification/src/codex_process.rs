//! Detection of Codex processes that make replacing the live credential unsafe.
//!
//! The credential must not be swapped under an active conversation, nor while
//! `codex login` or `codex logout` is changing it. Long-lived Codex
//! infrastructure (MCP servers, `app-server` for desktop and IDE hosts, helper
//! binaries) shares the same binary but does not own the interactive credential,
//! so those processes do not block. On Windows the main `ChatGPT.exe` process of
//! the Codex desktop package owns a session, while its `codex.exe app-server`
//! child and its Chromium helpers do not.
use vstd::prelude::*;
use vstd::slice::slice_subrange;

use crate::text::{
    begins_with, chars_of, contains_text, ends_with, equals, equals_ignore_case, finishes_with,
    has_text, lines, lower, lowered, optional_text, owned_text, position, replace_char,
    replaced_char, runs, starts_with, texts, trim, trim_both, until, words, CharClass,
};

verus! {

/// What the observed Codex processes mean for a credential switch.
#[derive(Clone, Copy, Debug, PartialEq, Eq, Structural)]
pub enum CodexActivity {
    Idle,
    Session,
    AuthMutation,
    Unknown,
}

impl CodexActivity {
    /// How strongly an activity speaks against a switch.
    pub open spec fn rank(self) -> int {
        match self {
            CodexActivity::Idle => 0,
            CodexActivity::Session => 1,
            CodexActivity::Unknown => 2,
            CodexActivity::AuthMutation => 3,
        }
    }

    /// The stronger of two activities.
    pub open spec fn stronger(self, other: Self) -> Self {
        if self.rank() >= other.rank() {
            self
        } else {
            other
        }
    }

    /// The stronger of two activities.
    pub fn merge(self, other: Self) -> (r: Self)
        ensures
            r == self.stronger(other),
    {
        match (self, other) {
            (CodexActivity::AuthMutation, _) => CodexActivity::AuthMutation,
            (_, CodexActivity::AuthMutation) => CodexActivity::AuthMutation,
            (CodexActivity::Unknown, _) => CodexActivity::Unknown,
            (_, CodexActivity::Unknown) => CodexActivity::Unknown,
            (CodexActivity::Session, _) => CodexActivity::Session,
            (_, CodexActivity::Session) => CodexActivity::Session,
            (CodexActivity::Idle, CodexActivity::Idle) => CodexActivity::Idle,
        }
    }
}

/// Merging does not depend on order or grouping, keeps an activity that is
/// merged with itself, and leaves an activity alone that is merged with `Idle`.
pub proof fn law_merge_is_a_join(a: CodexActivity, b: CodexActivity, c: CodexActivity)
    ensures
        a.stronger(b) == b.stronger(a),
        a.stronger(b).stronger(c) == a.stronger(b.stronger(c)),
        a.stronger(a) == a,
        a.stronger(CodexActivity::Idle) == a,
{
}

/// The strongest activity of a list; `Idle` for an empty one.
pub open spec fn strongest(activities: Seq<CodexActivity>) -> CodexActivity
    decreases activities.len(),
{
    if activities.len() == 0 {
        CodexActivity::Idle
    } else {
        strongest(activities.drop_last()).stronger(activities.last())
    }
}

/// One process that changes the credential decides for all of them; so does
/// one that could not be inspected, unless another changes the credential. The
/// result is `Idle` only where every process is.
pub proof fn law_strongest_fails_closed(activities: Seq<CodexActivity>)
    ensures
        activities.contains(CodexActivity::AuthMutation) <==> strongest(activities)
            == CodexActivity::AuthMutation,
        activities.contains(CodexActivity::Unknown) ==> strongest(activities).rank() >= 2,
        strongest(activities) == CodexActivity::Idle <==> forall|i: int|
            0 <= i < activities.len() ==> activities[i] == CodexActivity::Idle,
        strongest(activities) != CodexActivity::Idle ==> activities.contains(strongest(activities)),
    decreases activities.len(),
{
    if activities.len() > 0 {
        let head = activities.drop_last();
        let last = activities.last();
        law_strongest_fails_closed(head);
        assert(activities =~= head.push(last));
        assert(activities[activities.len() - 1] == last);
        assert forall|a: CodexActivity| activities.contains(a) <==> (head.contains(a) || a == last) by {
            if activities.contains(a) {
                let i = choose|i: int| 0 <= i < activities.len() && activities[i] == a;
                if i < head.len() {
                    assert(head[i] == a);
                }
            }
            if head.contains(a) {
                let i = choose|i: int| 0 <= i < head.len() && head[i] == a;
                assert(activities[i] == a);
            }
        }
        assert((forall|i: int| 0 <= i < activities.len() ==> activities[i] == CodexActivity::Idle)
            <==> ((forall|i: int| 0 <= i < head.len() ==> head[i] == CodexActivity::Idle) && last
            == CodexActivity::Idle)) by {
            if forall|i: int| 0 <= i < activities.len() ==> activities[i] == CodexActivity::Idle {
                assert forall|i: int| 0 <= i < head.len() implies head[i] == CodexActivity::Idle by {
                    assert(activities[i] == head[i]);
                }
            }
            if (forall|i: int| 0 <= i < head.len() ==> head[i] == CodexActivity::Idle) && last
                == CodexActivity::Idle {
                assert forall|i: int| 0 <= i < activities.len() implies activities[i]
                    == CodexActivity::Idle by {
                    if i < head.len() {
                        assert(activities[i] == head[i]);
                    }
                }
            }
        }
    }
}

/// What the inspection of one process gave.
#[derive(Debug, PartialEq, Eq)]
pub enum ProcessInspection {
    Irrelevant,
    Vanished,
    Arguments(Vec<String>),
    Failed,
}

/// The argument lists of the relevant processes, in order.
pub open spec fn argument_lists(inspections: Seq<ProcessInspection>) -> Seq<Vec<String>>
    decreases inspections.len(),
{
    if inspections.len() == 0 {
        Seq::empty()
    } else {
        let head = argument_lists(inspections.drop_last());
        match inspections.last() {
            ProcessInspection::Arguments(arguments) => head.push(arguments),
            _ => head,
        }
    }
}

/// The argument lists of the relevant processes; `None` where one inspection
/// failed. Processes that vanished or are irrelevant are left out.
pub fn collect_process_inspections(inspections: Vec<ProcessInspection>) -> (r: Option<
    Vec<Vec<String>>,
>)
    ensures
        r is None <==> exists|i: int|
            0 <= i < inspections@.len() && #[trigger] inspections@[i] is Failed,
        r matches Some(lists) ==> lists@ == argument_lists(inspections@),
{
    let ghost all = inspections@;
    let mut rest: Vec<ProcessInspection> = inspections;
    let mut reversed: Vec<ProcessInspection> = Vec::new();
    // Taking from the back keeps ownership of each list; the second pass below
    // restores the order.
    while rest.len() > 0
        invariant
            rest@.len() + reversed@.len() == all.len(),
            forall|i: int| 0 <= i < rest@.len() ==> rest@[i] == all[i],
            forall|i: int|
                0 <= i < reversed@.len() ==> #[trigger] reversed@[i] == all[all.len() - 1 - i],
        decreases rest@.len(),
    {
        match rest.pop() {
            Some(inspection) => {
                reversed.push(inspection);
            },
            None => {},
        }
    }
    let mut processes: Vec<Vec<String>> = Vec::new();
    let ghost mut done: int = 0;
    assert(all.take(0) =~= Seq::empty());
    while reversed.len() > 0
        invariant
            all == inspections@,
            0 <= done <= all.len(),
            reversed@.len() == all.len() - done,
            forall|i: int|
                0 <= i < reversed@.len() ==> #[trigger] reversed@[i] == all[all.len() - 1 - i],
            processes@ == argument_lists(all.take(done)),
            forall|i: int| 0 <= i < done ==> !(#[trigger] all[i] is Failed),
        decreases reversed@.len(),
    {
        assert(reversed@[reversed@.len() - 1] == all[done]);
        match reversed.pop() {
            Some(inspection) => {
                assert(inspection == all[done]);
                assert(all.take(done + 1).drop_last() =~= all.take(done));
                match inspection {
                    ProcessInspection::Irrelevant => {},
                    ProcessInspection::Vanished => {},
                    ProcessInspection::Arguments(arguments) => {
                        processes.push(arguments);
                    },
                    ProcessInspection::Failed => {
                        assert(all[done] is Failed);
                        return None;
                    },
                }
                proof {
                    done = done + 1;
                }
            },
            None => {},
        }
    }
    assert(all.take(done) =~= all);
    Some(processes)
}

/// The last part of a path, after every slash and backslash.
pub open spec fn base_name(path: Seq<char>) -> Seq<char>
    decreases path.len(),
{
    let n = until(path, CharClass::PathSeparator);
    if n >= path.len() {
        path
    } else {
        base_name(path.skip(n as int + 1))
    }
}

/// The last part of a path, after every slash and backslash.
pub fn basename<'a>(path: &'a [char]) -> (r: &'a [char])
    ensures
        r@ == base_name(path@),
{
    let mut rest = path;
    loop
        invariant
            base_name(rest@) == base_name(path@),
        decreases rest@.len(),
    {
        let n: usize = position(rest, CharClass::PathSeparator);
        if n == rest.len() {
            return rest;
        }
        let tail = slice_subrange(rest, n + 1, rest.len());
        assert(tail@ =~= rest@.skip(n as int + 1));
        rest = tail;
    }
}

/// A binary name in lower case, without quotes around it and without `.exe`.
pub open spec fn plain_binary_name(base: Seq<char>) -> Seq<char> {
    let name = lower(trim_both(base, CharClass::Just('"')));
    if finishes_with(name, ".exe"@) {
        name.take(name.len() - ".exe"@.len())
    } else {
        name
    }
}

/// The Codex command-line binary: `codex`, or a platform binary such as
/// `codex-aarch64-apple-darwin`, but neither a `codex-switch` binary nor a
/// `codex-code-mode` helper.
pub open spec fn codex_binary(base: Seq<char>) -> bool {
    let name = plain_binary_name(base);
    name == "codex"@ || (begins_with(name, "codex-"@) && !begins_with(name, "codex-switch"@)
        && !begins_with(name, "codex-code-mode"@))
}

/// Whether a file name is that of the Codex command-line binary.
pub fn is_codex_binary_name(base: &[char]) -> (r: bool)
    ensures
        r == codex_binary(base@),
{
    let unquoted = trim(base, CharClass::Just('"'));
    let name = lowered(unquoted);
    let suffix = chars_of(".exe");
    let plain = if ends_with(name.as_slice(), ".exe") {
        slice_subrange(name.as_slice(), 0, name.len() - suffix.len())
    } else {
        name.as_slice()
    };
    assert(plain@ =~= plain_binary_name(base@));
    equals(plain, "codex") || (starts_with(plain, "codex-") && !starts_with(plain, "codex-switch")
        && !starts_with(plain, "codex-code-mode"))
}

/// Whether `name` is `node` or `node.exe`, in any case.
pub open spec fn node_binary(name: Seq<char>) -> bool {
    lower(name) == lower("node"@) || lower(name) == lower("node.exe"@)
}

fn is_node_binary_name(name: &[char]) -> (r: bool)
    ensures
        r == node_binary(name@),
{
    equals_ignore_case(name, "node") || equals_ignore_case(name, "node.exe")
}

/// A name that may belong to a Codex process: the binary itself, or `node`,
/// which runs its npm shim.
pub open spec fn candidate_name(name: Seq<char>) -> bool {
    node_binary(base_name(name)) || codex_binary(base_name(name))
}

/// Whether a process name may belong to a Codex process.
pub fn possible_codex_process_name(name: &str) -> (r: bool)
    ensures
        r == candidate_name(name@),
{
    let chars = chars_of(name);
    possible_codex_process_chars(chars.as_slice())
}

fn possible_codex_process_chars(name: &[char]) -> (r: bool)
    ensures
        r == candidate_name(name@),
{
    let base = basename(name);
    is_node_binary_name(base) || is_codex_binary_name(base)
}

/// The options that take the next argument as their value.
pub open spec fn value_flag(a: Seq<char>) -> bool {
    ||| a == "--add-dir"@
    ||| a == "--ask-for-approval"@
    ||| a == "--cd"@
    ||| a == "--config"@
    ||| a == "--disable"@
    ||| a == "--enable"@
    ||| a == "--image"@
    ||| a == "--local-provider"@
    ||| a == "--model"@
    ||| a == "--profile"@
    ||| a == "--remote"@
    ||| a == "--remote-auth-token-env"@
    ||| a == "--sandbox"@
    ||| short_value_flag(a)
}

/// The short options that take a value.
pub open spec fn short_value_flag(a: Seq<char>) -> bool {
    ||| a == "-C"@
    ||| a == "-a"@
    ||| a == "-c"@
    ||| a == "-i"@
    ||| a == "-m"@
    ||| a == "-p"@
    ||| a == "-s"@
}

/// The options that take no value.
pub open spec fn boolean_flag(a: Seq<char>) -> bool {
    ||| a == "--dangerously-bypass-approvals-and-sandbox"@
    ||| a == "--dangerously-bypass-hook-trust"@
    ||| a == "--no-alt-screen"@
    ||| a == "--oss"@
    ||| a == "--search"@
    ||| a == "--strict-config"@
}

/// The options that only print something.
pub open spec fn information_flag(a: Seq<char>) -> bool {
    a == "--help"@ || a == "--version"@ || a == "-h"@ || a == "-V"@
}

/// The subcommands that change the credential.
pub open spec fn auth_subcommand(a: Seq<char>) -> bool {
    a == "login"@ || a == "logout"@
}

/// The subcommands that run long-lived infrastructure.
pub open spec fn infra_subcommand(a: Seq<char>) -> bool {
    a == "app-server"@ || a == "completion"@ || a == "exec-server"@ || a == "mcp"@ || a
        == "mcp-server"@
}

/// A long or short option with its value after an equals sign.
pub open spec fn assigned_flag(a: Seq<char>) -> bool {
    let n = until(a, CharClass::Just('='));
    n < a.len() && value_flag(a.take(n as int))
}

/// A short option with its value attached.
pub open spec fn attached_short_flag(a: Seq<char>) -> bool {
    a.len() > 2 && short_value_flag(a.take(2))
}

/// What an invocation with these arguments is: its leading options are passed
/// over; the first argument that is none decides.
pub open spec fn invocation(args: Seq<Seq<char>>) -> CodexActivity
    decreases args.len(),
{
    if args.len() == 0 {
        CodexActivity::Session
    } else {
        let arg = args[0];
        let rest = args.skip(1);
        if information_flag(arg) {
            CodexActivity::Idle
        } else if arg == "--"@ {
            CodexActivity::Session
        } else if boolean_flag(arg) {
            invocation(rest)
        } else if value_flag(arg) {
            if rest.len() == 0 {
                CodexActivity::Session
            } else {
                invocation(rest.skip(1))
            }
        } else if assigned_flag(arg) || attached_short_flag(arg) {
            invocation(rest)
        } else if begins_with(arg, "-"@) {
            CodexActivity::Session
        } else if auth_subcommand(arg) {
            CodexActivity::AuthMutation
        } else if infra_subcommand(arg) {
            CodexActivity::Idle
        } else {
            CodexActivity::Session
        }
    }
}

fn is_short_value_flag(a: &[char]) -> (r: bool)
    ensures
        r == short_value_flag(a@),
{
    equals(a, "-C") || equals(a, "-a") || equals(a, "-c") || equals(a, "-i") || equals(a, "-m")
        || equals(a, "-p") || equals(a, "-s")
}

fn is_value_flag(a: &[char]) -> (r: bool)
    ensures
        r == value_flag(a@),
{
    equals(a, "--add-dir") || equals(a, "--ask-for-approval") || equals(a, "--cd") || equals(
        a,
        "--config",
    ) || equals(a, "--disable") || equals(a, "--enable") || equals(a, "--image") || equals(
        a,
        "--local-provider",
    ) || equals(a, "--model") || equals(a, "--profile") || equals(a, "--remote") || equals(
        a,
        "--remote-auth-token-env",
    ) || equals(a, "--sandbox") || is_short_value_flag(a)
}

fn is_boolean_flag(a: &[char]) -> (r: bool)
    ensures
        r == boolean_flag(a@),
{
    equals(a, "--dangerously-bypass-approvals-and-sandbox") || equals(
        a,
        "--dangerously-bypass-hook-trust",
    ) || equals(a, "--no-alt-screen") || equals(a, "--oss") || equals(a, "--search") || equals(
        a,
        "--strict-config",
    )
}

fn is_infra_subcommand(a: &[char]) -> (r: bool)
    ensures
        r == infra_subcommand(a@),
{
    equals(a, "app-server") || equals(a, "completion") || equals(a, "exec-server") || equals(
        a,
        "mcp",
    ) || equals(a, "mcp-server")
}

fn is_assigned_flag(a: &[char]) -> (r: bool)
    ensures
        r == assigned_flag(a@),
{
    let n: usize = position(a, CharClass::Just('='));
    if n == a.len() {
        return false;
    }
    let flag = slice_subrange(a, 0, n);
    assert(flag@ =~= a@.take(n as int));
    is_value_flag(flag)
}

fn is_attached_short_flag(a: &[char]) -> (r: bool)
    ensures
        r == attached_short_flag(a@),
{
    if a.len() <= 2 {
        return false;
    }
    let flag = slice_subrange(a, 0, 2);
    assert(flag@ =~= a@.take(2));
    is_short_value_flag(flag)
}

/// What a Codex invocation with these arguments, from `start` on, is.
pub fn classify_codex_invocation(args: &[String], start: usize) -> (r: CodexActivity)
    requires
        start <= args@.len(),
    ensures
        r == invocation(texts(args@).skip(start as int)),
{
    let ghost all = texts(args@);
    let mut index: usize = start;
    while index < args.len()
        invariant
            start <= index <= args@.len(),
            all == texts(args@),
            invocation(all.skip(index as int)) == invocation(all.skip(start as int)),
        decreases args@.len() - index,
    {
        let chars = chars_of(args[index].as_str());
        let arg = chars.as_slice();
        proof {
            let here = all.skip(index as int);
            assert(here[0] == arg@);
            assert(here.skip(1) =~= all.skip(index + 1));
            if index + 1 < all.len() {
                assert(here.skip(1).skip(1) =~= all.skip(index + 2));
            }
        }
        index = index + 1;
        if equals(arg, "--help") || equals(arg, "--version") || equals(arg, "-h") || equals(
            arg,
            "-V",
        ) {
            return CodexActivity::Idle;
        }
        if equals(arg, "--") {
            return CodexActivity::Session;
        }
        if is_boolean_flag(arg) {
            continue ;
        }
        if is_value_flag(arg) {
            if index == args.len() {
                return CodexActivity::Session;
            }
            index = index + 1;
            continue ;
        }
        if is_assigned_flag(arg) || is_attached_short_flag(arg) {
            continue ;
        }
        if starts_with(arg, "-") {
            return CodexActivity::Session;
        }
        if equals(arg, "login") || equals(arg, "logout") {
            return CodexActivity::AuthMutation;
        }
        if is_infra_subcommand(arg) {
            return CodexActivity::Idle;
        }
        return CodexActivity::Session;
    }
    assert(all.skip(index as int) =~= Seq::empty());
    CodexActivity::Session
}

/// What a process with these arguments is. The first argument names the
/// binary; behind `node` the second one does, the npm shim.
pub open spec fn process_activity(args: Seq<Seq<char>>) -> CodexActivity {
    if args.len() == 0 {
        CodexActivity::Idle
    } else if node_binary(base_name(args[0])) {
        if args.len() == 1 || !codex_binary(base_name(args[1])) {
            CodexActivity::Idle
        } else {
            invocation(args.skip(2))
        }
    } else if codex_binary(base_name(args[0])) {
        invocation(args.skip(1))
    } else {
        CodexActivity::Idle
    }
}

/// What a process with these arguments is.
pub fn classify_codex_args(args: &[String]) -> (r: CodexActivity)
    ensures
        r == process_activity(texts(args@)),
{
    if args.len() == 0 {
        return CodexActivity::Idle;
    }
    let first = chars_of(args[0].as_str());
    let bin = basename(first.as_slice());
    if is_node_binary_name(bin) {
        if args.len() == 1 {
            return CodexActivity::Idle;
        }
        let second = chars_of(args[1].as_str());
        let shim = basename(second.as_slice());
        if !is_codex_binary_name(shim) {
            return CodexActivity::Idle;
        }
        return classify_codex_invocation(args, 2);
    }
    if !is_codex_binary_name(bin) {
        return CodexActivity::Idle;
    }
    classify_codex_invocation(args, 1)
}

/// What each of the observed processes is.
pub open spec fn process_activities(processes: Seq<Vec<String>>) -> Seq<CodexActivity> {
    Seq::new(processes.len(), |i: int| process_activity(texts(processes[i]@)))
}

/// The activity of all observed processes: the strongest of them, and `Unknown`
/// where the processes could not be listed.
pub fn codex_activity(processes: Option<&Vec<Vec<String>>>) -> (r: CodexActivity)
    ensures
        r == (match processes {
            None => CodexActivity::Unknown,
            Some(list) => strongest(process_activities(list@)),
        }),
{
    let list = match processes {
        Some(list) => list,
        None => {
            return CodexActivity::Unknown;
        },
    };
    let mut activity = CodexActivity::Idle;
    let mut i: usize = 0;
    let ghost all = process_activities(list@);
    assert(all.take(0) =~= Seq::empty());
    while i < list.len()
        invariant
            i <= list@.len(),
            all == process_activities(list@),
            activity == strongest(all.take(i as int)),
        decreases list@.len() - i,
    {
        activity = activity.merge(classify_codex_args(list[i].as_slice()));
        i = i + 1;
        assert(all.take(i as int).drop_last() =~= all.take(i - 1));
    }
    assert(all.take(i as int) =~= all);
    activity
}

// -- Windows command lines --

/// A space or a tab.
pub open spec fn blank(c: char) -> bool {
    c == ' ' || c == '\t'
}

/// How many backslashes stand at `i` in a row.
pub open spec fn backslashes(s: Seq<char>, i: int) -> nat
    decreases s.len() - i,
{
    if 0 <= i < s.len() && s[i] == '\\' {
        1 + backslashes(s, i + 1)
    } else {
        0
    }
}

/// `n` backslashes.
pub open spec fn slashes(n: nat) -> Seq<char> {
    Seq::new(n, |i: int| '\\')
}

/// The argument that starts at `i`, and the place where it ends.
///
/// It ends at a blank outside quotes. Backslashes are literal unless a quote
/// follows: then each pair of them stands for one, and an odd one makes the
/// quote literal. Inside quotes two quotes stand for one; any other quote opens
/// or closes a quoted part.
pub open spec fn argument(s: Seq<char>, i: int, quoted: bool) -> (Seq<char>, int)
    decreases s.len() - i,
{
    if i < 0 || i >= s.len() || (!quoted && blank(s[i])) {
        (Seq::empty(), i)
    } else if s[i] != '\\' && s[i] != '"' {
        let (rest, end) = argument(s, i + 1, quoted);
        (seq![s[i]] + rest, end)
    } else {
        let n = backslashes(s, i);
        let j = i + n;
        if j >= s.len() || s[j] != '"' {
            proof {
                lemma_backslashes(s, i);
            }
            let (rest, end) = argument(s, j, quoted);
            (slashes(n) + rest, end)
        } else if n % 2 == 1 {
            let (rest, end) = argument(s, j + 1, quoted);
            (slashes(n / 2) + seq!['"'] + rest, end)
        } else if quoted && j + 1 < s.len() && s[j + 1] == '"' {
            let (rest, end) = argument(s, j + 2, quoted);
            (slashes(n / 2) + seq!['"'] + rest, end)
        } else {
            let (rest, end) = argument(s, j + 1, !quoted);
            (slashes(n / 2) + rest, end)
        }
    }
}

/// The place of the first character at or after `i` that is no blank.
pub open spec fn past_blanks(s: Seq<char>, i: int) -> int
    decreases s.len() - i,
{
    if 0 <= i < s.len() && blank(s[i]) {
        past_blanks(s, i + 1)
    } else {
        i
    }
}

/// The arguments of a Windows command line, from `i` on.
pub open spec fn arguments_from(s: Seq<char>, i: int) -> Seq<Seq<char>>
    decreases s.len() - i,
{
    let start = past_blanks(s, i);
    if i < 0 || start >= s.len() {
        Seq::empty()
    } else {
        proof {
            lemma_past_blanks(s, i);
            lemma_argument(s, start, false);
        }
        let (arg, end) = argument(s, start, false);
        seq![arg] + arguments_from(s, end)
    }
}

/// The arguments of a Windows command line.
pub open spec fn command_arguments(line: Seq<char>) -> Seq<Seq<char>> {
    arguments_from(line, 0)
}

/// The run of backslashes stays within the text, and a backslash starts one.
pub proof fn lemma_backslashes(s: Seq<char>, i: int)
    requires
        0 <= i <= s.len(),
    ensures
        i + backslashes(s, i) <= s.len(),
        i < s.len() && s[i] == '\\' ==> backslashes(s, i) >= 1,
        i + backslashes(s, i) < s.len() ==> s[i + backslashes(s, i)] != '\\',
    decreases s.len() - i,
{
    if i < s.len() && s[i] == '\\' {
        lemma_backslashes(s, i + 1);
    }
}

/// Skipping blanks stays within the text and ends at no blank.
pub proof fn lemma_past_blanks(s: Seq<char>, i: int)
    requires
        0 <= i <= s.len(),
    ensures
        i <= past_blanks(s, i) <= s.len(),
        past_blanks(s, i) < s.len() ==> !blank(s[past_blanks(s, i)]),
    decreases s.len() - i,
{
    if i < s.len() && blank(s[i]) {
        lemma_past_blanks(s, i + 1);
    }
}

/// An argument ends within the text, and after its start unless it starts at
/// a blank or at the end.
pub proof fn lemma_argument(s: Seq<char>, i: int, quoted: bool)
    requires
        0 <= i <= s.len(),
    ensures
        i <= argument(s, i, quoted).1 <= s.len(),
        i < s.len() && (quoted || !blank(s[i])) ==> argument(s, i, quoted).1 > i,
    decreases s.len() - i,
{
    if i < s.len() && (quoted || !blank(s[i])) {
        lemma_backslashes(s, i);
        if s[i] != '\\' && s[i] != '"' {
            lemma_argument(s, i + 1, quoted);
        } else {
            let n = backslashes(s, i);
            let j = i + n;
            if j >= s.len() || s[j] != '"' {
                lemma_argument(s, j, quoted);
            } else if n % 2 == 1 {
                lemma_argument(s, j + 1, quoted);
            } else if quoted && j + 1 < s.len() && s[j + 1] == '"' {
                lemma_argument(s, j + 2, quoted);
            } else {
                lemma_argument(s, j + 1, !quoted);
            }
        }
    }
}

fn count_backslashes(s: &[char], i: usize) -> (r: usize)
    requires
        i <= s@.len(),
    ensures
        r == backslashes(s@, i as int),
        i + r <= s@.len(),
{
    let mut n: usize = 0;
    let len: usize = s.len();
    while i + n < len && s[i + n] == '\\'
        invariant
            i + n <= s@.len(),
            len == s@.len(),
            backslashes(s@, i as int) == n + backslashes(s@, i + n),
        decreases s@.len() - i - n,
    {
        n = n + 1;
    }
    n
}

fn push_slashes(out: &mut String, n: usize)
    ensures
        final(out)@ == old(out)@ + slashes(n as nat),
{
    let mut k: usize = 0;
    assert(out@ =~= old(out)@ + slashes(0));
    while k < n
        invariant
            k <= n,
            out@ == old(out)@ + slashes(k as nat),
        decreases n - k,
    {
        out.push('\\');
        k = k + 1;
        assert(out@ =~= old(out)@ + slashes(k as nat));
    }
}

/// The argument that starts at `start`, and the place where it ends.
fn take_argument(s: &[char], start: usize) -> (r: (String, usize))
    requires
        start <= s@.len(),
    ensures
        r.0@ == argument(s@, start as int, false).0,
        r.1 == argument(s@, start as int, false).1,
        r.1 <= s@.len(),
{
    let mut arg = String::new();
    let mut quoted = false;
    let mut i: usize = start;
    let ghost whole = argument(s@, start as int, false);
    assert(arg@ + whole.0 =~= whole.0);
    loop
        invariant
            start <= i <= s@.len(),
            whole == argument(s@, start as int, false),
            arg@ + argument(s@, i as int, quoted).0 == whole.0,
            argument(s@, i as int, quoted).1 == whole.1,
        decreases s@.len() - i,
    {
        let ghost tail = argument(s@, i as int, quoted);
        let ghost before = arg@;
        if i == s.len() || (!quoted && (s[i] == ' ' || s[i] == '\t')) {
            assert(arg@ + tail.0 =~= arg@);
            return (arg, i);
        }
        if s[i] != '\\' && s[i] != '"' {
            let ghost rest = argument(s@, i + 1, quoted);
            arg.push(s[i]);
            assert(arg@ + rest.0 =~= before + tail.0);
            i = i + 1;
            continue ;
        }
        proof {
            lemma_backslashes(s@, i as int);
        }
        let n: usize = count_backslashes(s, i);
        let j: usize = i + n;
        if j == s.len() || s[j] != '"' {
            let ghost rest = argument(s@, j as int, quoted);
            push_slashes(&mut arg, n);
            assert(arg@ + rest.0 =~= before + tail.0);
            i = j;
        } else if n % 2 == 1 {
            let ghost rest = argument(s@, j + 1, quoted);
            push_slashes(&mut arg, n / 2);
            arg.push('"');
            assert(arg@ + rest.0 =~= before + tail.0);
            i = j + 1;
        } else if quoted && j + 1 < s.len() && s[j + 1] == '"' {
            let ghost rest = argument(s@, j + 2, quoted);
            push_slashes(&mut arg, n / 2);
            arg.push('"');
            assert(arg@ + rest.0 =~= before + tail.0);
            i = j + 2;
        } else {
            let ghost rest = argument(s@, j + 1, !quoted);
            push_slashes(&mut arg, n / 2);
            assert(arg@ + rest.0 =~= before + tail.0);
            quoted = !quoted;
            i = j + 1;
        }
    }
}

/// The arguments of a Windows command line.
pub fn split_windows_command_line(cmdline: &str) -> (r: Vec<String>)
    ensures
        texts(r@) == command_arguments(cmdline@),
{
    let chars = chars_of(cmdline);
    let s = chars.as_slice();
    let mut args: Vec<String> = Vec::new();
    let mut i: usize = 0;
    assert(texts(args@) + arguments_from(s@, 0) =~= command_arguments(cmdline@));
    loop
        invariant
            s@ == cmdline@,
            i <= s@.len(),
            texts(args@) + arguments_from(s@, i as int) == command_arguments(cmdline@),
        decreases s@.len() - i,
    {
        let ghost from = i as int;
        proof {
            lemma_past_blanks(s@, from);
        }
        while i < s.len() && (s[i] == ' ' || s[i] == '\t')
            invariant
                from <= i <= s@.len(),
                past_blanks(s@, i as int) == past_blanks(s@, from),
            decreases s@.len() - i,
        {
            i = i + 1;
        }
        if i == s.len() {
            assert(texts(args@) + arguments_from(s@, from) =~= texts(args@));
            return args;
        }
        proof {
            lemma_argument(s@, i as int, false);
        }
        let ghost before = args@;
        let (arg, end) = take_argument(s, i);
        args.push(arg);
        proof {
            assert(texts(args@) =~= texts(before) + seq![arg@]);
            assert(texts(before) + (seq![arg@] + arguments_from(s@, end as int)) =~= texts(args@)
                + arguments_from(s@, end as int));
        }
        i = end;
    }
}

/// A command line without quotes and backslashes is just its blank-separated
/// words: the text from one word's start to the next blank is the argument.
pub proof fn law_plain_argument_is_verbatim(s: Seq<char>, i: int, end: int)
    requires
        0 <= i <= end <= s.len(),
        forall|k: int| i <= k < end ==> !blank(#[trigger] s[k]) && s[k] != '\\' && s[k] != '"',
        end == s.len() || blank(s[end]),
    ensures
        argument(s, i, false) == (s.subrange(i, end), end),
    decreases end - i,
{
    if i < end {
        law_plain_argument_is_verbatim(s, i + 1, end);
        assert(seq![s[i]] + s.subrange(i + 1, end) =~= s.subrange(i, end));
    } else {
        assert(s.subrange(i, end) =~= Seq::empty());
    }
}

// -- Windows processes --

/// One process of the Windows process listing.
#[derive(Debug, PartialEq, Eq)]
pub struct WindowsProcess {
    pub name: String,
    pub process_id: u32,
    pub owner_is_current_user: Option<bool>,
    pub executable_path: Option<String>,
    pub command_line: Option<String>,
}

/// Whether a name or path is that of `ChatGPT.exe`, in any case.
pub open spec fn desktop_name(name: Seq<char>) -> bool {
    lower(base_name(trim_both(name, CharClass::Just('"')))) == lower("ChatGPT.exe"@)
}

/// Whether a name or path is that of `ChatGPT.exe`, in any case.
pub fn is_chatgpt_desktop_process_name(name: &[char]) -> (r: bool)
    ensures
        r == desktop_name(name@),
{
    equals_ignore_case(basename(trim(name, CharClass::Just('"'))), "ChatGPT.exe")
}

/// The path of the Codex desktop package's `ChatGPT.exe`.
pub open spec fn codex_desktop_path(path: Seq<char>) -> bool {
    let normalized = lower(replace_char(trim_both(path, CharClass::Just('"')), '/', '\\'));
    has_text(normalized, "\\windowsapps\\openai.codex_"@) && finishes_with(
        normalized,
        "\\app\\chatgpt.exe"@,
    )
}

/// Whether a path is that of the Codex desktop package's `ChatGPT.exe`.
pub fn is_codex_desktop_executable_path(path: &[char]) -> (r: bool)
    ensures
        r == codex_desktop_path(path@),
{
    let slashed = replaced_char(trim(path, CharClass::Just('"')), '/', '\\');
    let normalized = lowered(slashed.as_slice());
    contains_text(normalized.as_slice(), "\\windowsapps\\openai.codex_") && ends_with(
        normalized.as_slice(),
        "\\app\\chatgpt.exe",
    )
}

/// A network path or one that starts with a drive and a separator.
pub open spec fn absolute_windows_path(path: Seq<char>) -> bool {
    let p = trim_both(path, CharClass::Just('"'));
    ||| p.len() >= 2 && p[0] == '\\' && p[1] == '\\'
    ||| p.len() >= 3 && (p[0] as u32) < 0x80 && p[1] == ':' && (p[2] == '\\' || p[2] == '/')
}

/// Whether a Windows path is absolute.
pub fn is_absolute_windows_path(path: &[char]) -> (r: bool)
    ensures
        r == absolute_windows_path(path@),
{
    let p = trim(path, CharClass::Just('"'));
    (p.len() >= 2 && p[0] == '\\' && p[1] == '\\') || (p.len() >= 3 && (p[0] as u32) < 0x80 && p[1]
        == ':' && (p[2] == '\\' || p[2] == '/'))
}

/// An optional text that says something: `None` where it is blank.
pub open spec fn substantial(text: Option<Seq<char>>) -> Option<Seq<char>> {
    match text {
        Some(t) if trim_both(t, CharClass::WhiteSpace).len() > 0 => Some(t),
        _ => None,
    }
}

fn substantial_text<'a>(text: Option<&'a str>) -> (r: Option<&'a str>)
    ensures
        optional_text(r) == substantial(optional_text(text)),
{
    match text {
        Some(t) => {
            let chars = chars_of(t);
            if trim(chars.as_slice(), CharClass::WhiteSpace).len() > 0 {
                Some(t)
            } else {
                None
            }
        },
        None => None,
    }
}

/// `--type` in any case, alone or with a value after an equals sign.
pub open spec fn helper_flag(arg: Seq<char>) -> bool {
    lower(arg) == lower("--type"@) || {
        let n = until(arg, CharClass::Just('='));
        n < arg.len() && lower(arg.take(n as int)) == lower("--type"@)
    }
}

/// Whether an argument after the first marks a Chromium helper.
pub open spec fn desktop_helper(args: Seq<Seq<char>>) -> bool {
    exists|i: int| 1 <= i < args.len() && helper_flag(#[trigger] args[i])
}

fn is_helper_flag(arg: &[char]) -> (r: bool)
    ensures
        r == helper_flag(arg@),
{
    if equals_ignore_case(arg, "--type") {
        return true;
    }
    let n: usize = position(arg, CharClass::Just('='));
    if n == arg.len() {
        return false;
    }
    let flag = slice_subrange(arg, 0, n);
    assert(flag@ =~= arg@.take(n as int));
    equals_ignore_case(flag, "--type")
}

fn is_desktop_helper(args: &Vec<String>) -> (r: bool)
    ensures
        r == desktop_helper(texts(args@)),
{
    let mut i: usize = 1;
    while i < args.len()
        invariant
            1 <= i,
            i <= args@.len() || i == 1,
            forall|k: int| 1 <= k < i ==> !helper_flag(#[trigger] texts(args@)[k]),
        decreases args@.len() - i,
    {
        let chars = chars_of(args[i].as_str());
        assert(texts(args@)[i as int] == chars@);
        if is_helper_flag(chars.as_slice()) {
            return true;
        }
        i = i + 1;
    }
    false
}

/// What a `ChatGPT.exe` process is, given its image path and command line.
///
/// A helper never owns a session, whichever package it belongs to. Otherwise
/// the image path, or for want of it the command's own path, must be that of
/// the Codex package; an identity that cannot be established is unknown.
pub open spec fn desktop_activity(path: Option<Seq<char>>, line: Option<Seq<char>>) -> CodexActivity {
    let path = substantial(path);
    let args = match substantial(line) {
        Some(l) => Some(command_arguments(l)),
        None => None,
    };
    let first = match args {
        Some(a) if a.len() > 0 => Some(a[0]),
        _ => None,
    };
    if args is Some && desktop_helper(args->0) {
        CodexActivity::Idle
    } else if path is Some && !codex_desktop_path(path->0) {
        CodexActivity::Idle
    } else if first is None {
        CodexActivity::Unknown
    } else if path is None && !codex_desktop_path(first->0) {
        if desktop_name(first->0) && !absolute_windows_path(first->0) {
            CodexActivity::Unknown
        } else {
            CodexActivity::Idle
        }
    } else if desktop_name(first->0) {
        CodexActivity::Session
    } else {
        CodexActivity::Unknown
    }
}

/// What a `ChatGPT.exe` process is, given its image path and command line.
pub fn classify_chatgpt_desktop_process(
    executable_path: Option<&str>,
    command_line: Option<&str>,
) -> (r: CodexActivity)
    ensures
        r == desktop_activity(optional_text(executable_path), optional_text(command_line)),
{
    let path = substantial_text(executable_path);
    let args: Option<Vec<String>> = match substantial_text(command_line) {
        Some(line) => Some(split_windows_command_line(line)),
        None => None,
    };
    if let Some(list) = &args {
        if is_desktop_helper(list) {
            return CodexActivity::Idle;
        }
    }
    if let Some(p) = path {
        let chars = chars_of(p);
        if !is_codex_desktop_executable_path(chars.as_slice()) {
            return CodexActivity::Idle;
        }
    }
    let list = match &args {
        Some(list) => list,
        None => {
            return CodexActivity::Unknown;
        },
    };
    if list.len() == 0 {
        assert(texts(list@).len() == 0);
        return CodexActivity::Unknown;
    }
    let first = chars_of(list[0].as_str());
    assert(texts(list@)[0] == first@);
    let named = is_chatgpt_desktop_process_name(first.as_slice());
    if path.is_none() && !is_codex_desktop_executable_path(first.as_slice()) {
        if named && !is_absolute_windows_path(first.as_slice()) {
            return CodexActivity::Unknown;
        }
        return CodexActivity::Idle;
    }
    if named {
        CodexActivity::Session
    } else {
        CodexActivity::Unknown
    }
}

/// What a Windows process with this command line is.
pub fn classify_codex_command(cmdline: &str) -> (r: CodexActivity)
    ensures
        r == process_activity(command_arguments(cmdline@)),
{
    let args = split_windows_command_line(cmdline);
    classify_codex_args(args.as_slice())
}

/// What a Windows process is by its name, image path and command line.
pub open spec fn windows_details(
    name: Seq<char>,
    path: Option<Seq<char>>,
    line: Option<Seq<char>>,
) -> CodexActivity {
    if desktop_name(name) {
        desktop_activity(path, line)
    } else {
        match substantial(line) {
            Some(l) => process_activity(command_arguments(l)),
            None => if codex_binary(name) {
                CodexActivity::Unknown
            } else {
                CodexActivity::Idle
            },
        }
    }
}

/// What a Windows process is by its name, image path and command line.
pub fn classify_windows_process_details(
    process_name: &str,
    executable_path: Option<&str>,
    command_line: Option<&str>,
) -> (r: CodexActivity)
    ensures
        r == windows_details(
            process_name@,
            optional_text(executable_path),
            optional_text(command_line),
        ),
{
    let name = chars_of(process_name);
    if is_chatgpt_desktop_process_name(name.as_slice()) {
        return classify_chatgpt_desktop_process(executable_path, command_line);
    }
    match substantial_text(command_line) {
        Some(line) => classify_codex_command(line),
        None => if is_codex_binary_name(name.as_slice()) {
            CodexActivity::Unknown
        } else {
            CodexActivity::Idle
        },
    }
}

/// What a Windows process is for the current user: a process that matters is
/// idle where another user owns it, and unknown where the owner is unknown.
pub open spec fn windows_activity(process: WindowsProcess) -> CodexActivity {
    let activity = windows_details(
        process.name@,
        owned_text(process.executable_path),
        owned_text(process.command_line),
    );
    if activity == CodexActivity::Idle || process.owner_is_current_user == Some(false) {
        CodexActivity::Idle
    } else if process.owner_is_current_user is None {
        CodexActivity::Unknown
    } else {
        activity
    }
}

/// What a Windows process is for the current user.
pub fn classify_windows_process(process: &WindowsProcess) -> (r: CodexActivity)
    ensures
        r == windows_activity(*process),
{
    let path = match &process.executable_path {
        Some(p) => Some(p.as_str()),
        None => None,
    };
    let line = match &process.command_line {
        Some(l) => Some(l.as_str()),
        None => None,
    };
    let activity = classify_windows_process_details(process.name.as_str(), path, line);
    if activity == CodexActivity::Idle {
        return CodexActivity::Idle;
    }
    match process.owner_is_current_user {
        Some(false) => CodexActivity::Idle,
        Some(true) => activity,
        None => CodexActivity::Unknown,
    }
}

/// What each of the listed Windows processes is.
pub open spec fn windows_activities(processes: Seq<WindowsProcess>) -> Seq<CodexActivity> {
    Seq::new(processes.len(), |i: int| windows_activity(processes[i]))
}

/// The activity of all listed Windows processes: the strongest of them, and
/// `Unknown` where the processes could not be listed.
pub fn windows_codex_activity(processes: Option<&Vec<WindowsProcess>>) -> (r: CodexActivity)
    ensures
        r == (match processes {
            None => CodexActivity::Unknown,
            Some(list) => strongest(windows_activities(list@)),
        }),
{
    let list = match processes {
        Some(list) => list,
        None => {
            return CodexActivity::Unknown;
        },
    };
    let mut activity = CodexActivity::Idle;
    let mut i: usize = 0;
    let ghost all = windows_activities(list@);
    assert(all.take(0) =~= Seq::empty());
    while i < list.len()
        invariant
            i <= list@.len(),
            all == windows_activities(list@),
            activity == strongest(all.take(i as int)),
        decreases list@.len() - i,
    {
        activity = activity.merge(classify_windows_process(&list[i]));
        i = i + 1;
        assert(all.take(i as int).drop_last() =~= all.take(i - 1));
    }
    assert(all.take(i as int) =~= all);
    activity
}

/// A process of another user never blocks a switch, and one whose owner is
/// unknown never lets it pass unless it is harmless whoever owns it.
pub proof fn law_windows_owner_decides(process: WindowsProcess)
    ensures
        process.owner_is_current_user == Some(false) ==> windows_activity(process)
            == CodexActivity::Idle,
        process.owner_is_current_user is None ==> (windows_activity(process)
            == CodexActivity::Idle || windows_activity(process) == CodexActivity::Unknown),
{
}

} // verus!
