//! What running Codex processes mean: the arguments of an invocation decide, however
//! they were obtained.
use vstd::prelude::*;

use crate::codex_process::{
    argument, argument_lists, arguments_from, assigned_flag, attached_short_flag, auth_subcommand,
    backslashes, base_name, blank, boolean_flag, candidate_name, classify_codex_args,
    classify_codex_command, classify_windows_process, codex_activity, codex_binary,
    codex_desktop_path, collect_process_inspections, command_arguments, desktop_helper,
    desktop_name, information_flag, infra_subcommand, invocation, law_plain_argument_is_verbatim,
    law_strongest_fails_closed, node_binary, process_activities, process_activity,
    short_value_flag, slashes, strongest, value_flag, windows_activities, windows_activity,
    windows_codex_activity, windows_details, CodexActivity, ProcessInspection, WindowsProcess,
};
use crate::text::{
    begins_with, finishes_with, lemma_until, lower, lower_char, owned_text, texts, trim_back,
    trim_both, trim_front, until, CharClass,
};

verus! {

// -- Options --

/// A list of leading options with their values.
pub open spec fn only_options(args: Seq<Seq<char>>) -> bool
    decreases args.len(),
{
    if args.len() == 0 {
        true
    } else if information_flag(args[0]) || args[0] == "--"@ {
        false
    } else if boolean_flag(args[0]) {
        only_options(args.skip(1))
    } else if value_flag(args[0]) {
        args.len() >= 2 && only_options(args.skip(2))
    } else {
        (assigned_flag(args[0]) || attached_short_flag(args[0])) && only_options(args.skip(1))
    }
}

/// Leading options change nothing: what an invocation is depends only on what
/// follows them.
pub proof fn law_leading_options_change_nothing(options: Seq<Seq<char>>, rest: Seq<Seq<char>>)
    requires
        only_options(options),
    ensures
        invocation(options + rest) == invocation(rest),
    decreases options.len(),
{
    let all = options + rest;
    if options.len() == 0 {
        assert(all =~= rest);
    } else {
        assert(all[0] == options[0]);
        if value_flag(options[0]) && !boolean_flag(options[0]) {
            law_leading_options_change_nothing(options.skip(2), rest);
            assert(all.skip(1).skip(1) =~= options.skip(2) + rest);
        } else {
            law_leading_options_change_nothing(options.skip(1), rest);
            assert(all.skip(1) =~= options.skip(1) + rest);
        }
    }
}

/// Whatever marks an option begins with a hyphen and holds no equals sign.
#[verifier::spinoff_prover]
#[verifier::rlimit(40)]
proof fn lemma_option_names(a: Seq<char>)
    requires
        information_flag(a) || a == "--"@ || boolean_flag(a) || value_flag(a),
    ensures
        a.len() >= 2,
        a[0] == '-',
        forall|i: int| 0 <= i < a.len() ==> #[trigger] a[i] != '=',
{
    reveal_strlit("--help");
    reveal_strlit("--version");
    reveal_strlit("-h");
    reveal_strlit("-V");
    reveal_strlit("--");
    reveal_strlit("--dangerously-bypass-approvals-and-sandbox");
    reveal_strlit("--dangerously-bypass-hook-trust");
    reveal_strlit("--no-alt-screen");
    reveal_strlit("--oss");
    reveal_strlit("--search");
    reveal_strlit("--strict-config");
    reveal_strlit("--add-dir");
    reveal_strlit("--ask-for-approval");
    reveal_strlit("--cd");
    reveal_strlit("--config");
    reveal_strlit("--disable");
    reveal_strlit("--enable");
    reveal_strlit("--image");
    reveal_strlit("--local-provider");
    reveal_strlit("--model");
    reveal_strlit("--profile");
    reveal_strlit("--remote");
    reveal_strlit("--remote-auth-token-env");
    reveal_strlit("--sandbox");
    reveal_strlit("-C");
    reveal_strlit("-a");
    reveal_strlit("-c");
    reveal_strlit("-i");
    reveal_strlit("-m");
    reveal_strlit("-p");
    reveal_strlit("-s");
}

proof fn lemma_no_option(a: Seq<char>)
    requires
        a.len() == 0 || a[0] != '-',
    ensures
        !information_flag(a),
        a != "--"@,
        !boolean_flag(a),
        !value_flag(a),
        !assigned_flag(a),
        !attached_short_flag(a),
        !begins_with(a, "-"@),
{
    if information_flag(a) || a == "--"@ || boolean_flag(a) || value_flag(a) {
        lemma_option_names(a);
    }
    let n = until(a, CharClass::Just('='));
    lemma_until(a, CharClass::Just('='));
    if n < a.len() && value_flag(a.take(n as int)) {
        lemma_option_names(a.take(n as int));
        assert(a.take(n as int)[0] == a[0]);
    }
    if a.len() > 2 && short_value_flag(a.take(2)) {
        lemma_option_names(a.take(2));
        assert(a.take(2)[0] == a[0]);
    }
    reveal_strlit("-");
    if begins_with(a, "-"@) {
        assert(a.take(1)[0] == "-"@[0]);
    }
}

proof fn lemma_first(arg: Seq<char>, rest: Seq<Seq<char>>)
    ensures
        (seq![arg] + rest)[0] == arg,
        (seq![arg] + rest).skip(1) == rest,
        (seq![arg] + rest).len() > 0,
{
    assert((seq![arg] + rest).skip(1) =~= rest);
}

#[verifier::spinoff_prover]
#[verifier::rlimit(40)]
proof fn lemma_boolean_names_are_no_others(name: Seq<char>)
    requires
        boolean_flag(name),
    ensures
        !information_flag(name),
        name != "--"@,
{
    reveal_strlit("--help");
    reveal_strlit("--version");
    reveal_strlit("-h");
    reveal_strlit("-V");
    reveal_strlit("--");
    reveal_strlit("--dangerously-bypass-approvals-and-sandbox");
    reveal_strlit("--dangerously-bypass-hook-trust");
    reveal_strlit("--no-alt-screen");
    reveal_strlit("--oss");
    reveal_strlit("--search");
    reveal_strlit("--strict-config");
    assert("--dangerously-bypass-approvals-and-sandbox"@.len() != "--help"@.len());
    assert("--dangerously-bypass-approvals-and-sandbox"@.len() != "--version"@.len());
    assert("--dangerously-bypass-approvals-and-sandbox"@.len() != "-h"@.len());
    assert("--dangerously-bypass-approvals-and-sandbox"@.len() != "-V"@.len());
    assert("--dangerously-bypass-approvals-and-sandbox"@.len() != "--"@.len());
    assert("--dangerously-bypass-hook-trust"@.len() != "--help"@.len());
    assert("--dangerously-bypass-hook-trust"@.len() != "--version"@.len());
    assert("--dangerously-bypass-hook-trust"@.len() != "-h"@.len());
    assert("--dangerously-bypass-hook-trust"@.len() != "-V"@.len());
    assert("--dangerously-bypass-hook-trust"@.len() != "--"@.len());
    assert("--no-alt-screen"@.len() != "--help"@.len());
    assert("--no-alt-screen"@.len() != "--version"@.len());
    assert("--no-alt-screen"@.len() != "-h"@.len());
    assert("--no-alt-screen"@.len() != "-V"@.len());
    assert("--no-alt-screen"@.len() != "--"@.len());
    assert("--oss"@.len() != "--help"@.len());
    assert("--oss"@.len() != "--version"@.len());
    assert("--oss"@.len() != "-h"@.len());
    assert("--oss"@.len() != "-V"@.len());
    assert("--oss"@.len() != "--"@.len());
    assert("--search"@.len() != "--help"@.len());
    assert("--search"@.len() != "--version"@.len());
    assert("--search"@.len() != "-h"@.len());
    assert("--search"@.len() != "-V"@.len());
    assert("--search"@.len() != "--"@.len());
    assert("--strict-config"@.len() != "--help"@.len());
    assert("--strict-config"@.len() != "--version"@.len());
    assert("--strict-config"@.len() != "-h"@.len());
    assert("--strict-config"@.len() != "-V"@.len());
    assert("--strict-config"@.len() != "--"@.len());
}

/// Each option without a value is passed over, whatever follows it.
pub proof fn law_an_option_without_a_value_is_passed_over(rest: Seq<Seq<char>>)
    ensures
        invocation(seq!["--dangerously-bypass-approvals-and-sandbox"@] + rest) == invocation(rest),
        invocation(seq!["--dangerously-bypass-hook-trust"@] + rest) == invocation(rest),
        invocation(seq!["--no-alt-screen"@] + rest) == invocation(rest),
        invocation(seq!["--oss"@] + rest) == invocation(rest),
        invocation(seq!["--search"@] + rest) == invocation(rest),
        invocation(seq!["--strict-config"@] + rest) == invocation(rest),
{
    lemma_boolean_names_are_no_others("--dangerously-bypass-approvals-and-sandbox"@);
    lemma_first("--dangerously-bypass-approvals-and-sandbox"@, rest);
    lemma_boolean_names_are_no_others("--dangerously-bypass-hook-trust"@);
    lemma_first("--dangerously-bypass-hook-trust"@, rest);
    lemma_boolean_names_are_no_others("--no-alt-screen"@);
    lemma_first("--no-alt-screen"@, rest);
    lemma_boolean_names_are_no_others("--oss"@);
    lemma_first("--oss"@, rest);
    lemma_boolean_names_are_no_others("--search"@);
    lemma_first("--search"@, rest);
    lemma_boolean_names_are_no_others("--strict-config"@);
    lemma_first("--strict-config"@, rest);
}

#[verifier::spinoff_prover]
#[verifier::rlimit(60)]
proof fn lemma_value_names_are_no_others(name: Seq<char>)
    requires
        value_flag(name),
    ensures
        !information_flag(name),
        name != "--"@,
        !boolean_flag(name),
{
    reveal_strlit("--help");
    reveal_strlit("--version");
    reveal_strlit("-h");
    reveal_strlit("-V");
    reveal_strlit("--");
    reveal_strlit("--dangerously-bypass-approvals-and-sandbox");
    reveal_strlit("--dangerously-bypass-hook-trust");
    reveal_strlit("--no-alt-screen");
    reveal_strlit("--oss");
    reveal_strlit("--search");
    reveal_strlit("--strict-config");
    reveal_strlit("--add-dir");
    reveal_strlit("--ask-for-approval");
    reveal_strlit("--cd");
    reveal_strlit("--config");
    reveal_strlit("--disable");
    reveal_strlit("--enable");
    reveal_strlit("--image");
    reveal_strlit("--local-provider");
    reveal_strlit("--model");
    reveal_strlit("--profile");
    reveal_strlit("--remote");
    reveal_strlit("--remote-auth-token-env");
    reveal_strlit("--sandbox");
    reveal_strlit("-C");
    reveal_strlit("-a");
    reveal_strlit("-c");
    reveal_strlit("-i");
    reveal_strlit("-m");
    reveal_strlit("-p");
    reveal_strlit("-s");
    assert("--add-dir"@.len() != "--help"@.len());
    assert("--add-dir"@[2] != "--version"@[2]);
    assert("--add-dir"@.len() != "-h"@.len());
    assert("--add-dir"@.len() != "-V"@.len());
    assert("--add-dir"@.len() != "--"@.len());
    assert("--add-dir"@.len() != "--dangerously-bypass-approvals-and-sandbox"@.len());
    assert("--add-dir"@.len() != "--dangerously-bypass-hook-trust"@.len());
    assert("--add-dir"@.len() != "--no-alt-screen"@.len());
    assert("--add-dir"@.len() != "--oss"@.len());
    assert("--add-dir"@.len() != "--search"@.len());
    assert("--add-dir"@.len() != "--strict-config"@.len());
    assert("--ask-for-approval"@.len() != "--help"@.len());
    assert("--ask-for-approval"@.len() != "--version"@.len());
    assert("--ask-for-approval"@.len() != "-h"@.len());
    assert("--ask-for-approval"@.len() != "-V"@.len());
    assert("--ask-for-approval"@.len() != "--"@.len());
    assert("--ask-for-approval"@.len() != "--dangerously-bypass-approvals-and-sandbox"@.len());
    assert("--ask-for-approval"@.len() != "--dangerously-bypass-hook-trust"@.len());
    assert("--ask-for-approval"@.len() != "--no-alt-screen"@.len());
    assert("--ask-for-approval"@.len() != "--oss"@.len());
    assert("--ask-for-approval"@.len() != "--search"@.len());
    assert("--ask-for-approval"@.len() != "--strict-config"@.len());
    assert("--cd"@.len() != "--help"@.len());
    assert("--cd"@.len() != "--version"@.len());
    assert("--cd"@.len() != "-h"@.len());
    assert("--cd"@.len() != "-V"@.len());
    assert("--cd"@.len() != "--"@.len());
    assert("--cd"@.len() != "--dangerously-bypass-approvals-and-sandbox"@.len());
    assert("--cd"@.len() != "--dangerously-bypass-hook-trust"@.len());
    assert("--cd"@.len() != "--no-alt-screen"@.len());
    assert("--cd"@.len() != "--oss"@.len());
    assert("--cd"@.len() != "--search"@.len());
    assert("--cd"@.len() != "--strict-config"@.len());
    assert("--config"@.len() != "--help"@.len());
    assert("--config"@.len() != "--version"@.len());
    assert("--config"@.len() != "-h"@.len());
    assert("--config"@.len() != "-V"@.len());
    assert("--config"@.len() != "--"@.len());
    assert("--config"@.len() != "--dangerously-bypass-approvals-and-sandbox"@.len());
    assert("--config"@.len() != "--dangerously-bypass-hook-trust"@.len());
    assert("--config"@.len() != "--no-alt-screen"@.len());
    assert("--config"@.len() != "--oss"@.len());
    assert("--config"@[2] != "--search"@[2]);
    assert("--config"@.len() != "--strict-config"@.len());
    assert("--disable"@.len() != "--help"@.len());
    assert("--disable"@[2] != "--version"@[2]);
    assert("--disable"@.len() != "-h"@.len());
    assert("--disable"@.len() != "-V"@.len());
    assert("--disable"@.len() != "--"@.len());
    assert("--disable"@.len() != "--dangerously-bypass-approvals-and-sandbox"@.len());
    assert("--disable"@.len() != "--dangerously-bypass-hook-trust"@.len());
    assert("--disable"@.len() != "--no-alt-screen"@.len());
    assert("--disable"@.len() != "--oss"@.len());
    assert("--disable"@.len() != "--search"@.len());
    assert("--disable"@.len() != "--strict-config"@.len());
    assert("--enable"@.len() != "--help"@.len());
    assert("--enable"@.len() != "--version"@.len());
    assert("--enable"@.len() != "-h"@.len());
    assert("--enable"@.len() != "-V"@.len());
    assert("--enable"@.len() != "--"@.len());
    assert("--enable"@.len() != "--dangerously-bypass-approvals-and-sandbox"@.len());
    assert("--enable"@.len() != "--dangerously-bypass-hook-trust"@.len());
    assert("--enable"@.len() != "--no-alt-screen"@.len());
    assert("--enable"@.len() != "--oss"@.len());
    assert("--enable"@[2] != "--search"@[2]);
    assert("--enable"@.len() != "--strict-config"@.len());
    assert("--image"@.len() != "--help"@.len());
    assert("--image"@.len() != "--version"@.len());
    assert("--image"@.len() != "-h"@.len());
    assert("--image"@.len() != "-V"@.len());
    assert("--image"@.len() != "--"@.len());
    assert("--image"@.len() != "--dangerously-bypass-approvals-and-sandbox"@.len());
    assert("--image"@.len() != "--dangerously-bypass-hook-trust"@.len());
    assert("--image"@.len() != "--no-alt-screen"@.len());
    assert("--image"@.len() != "--oss"@.len());
    assert("--image"@.len() != "--search"@.len());
    assert("--image"@.len() != "--strict-config"@.len());
    assert("--local-provider"@.len() != "--help"@.len());
    assert("--local-provider"@.len() != "--version"@.len());
    assert("--local-provider"@.len() != "-h"@.len());
    assert("--local-provider"@.len() != "-V"@.len());
    assert("--local-provider"@.len() != "--"@.len());
    assert("--local-provider"@.len() != "--dangerously-bypass-approvals-and-sandbox"@.len());
    assert("--local-provider"@.len() != "--dangerously-bypass-hook-trust"@.len());
    assert("--local-provider"@.len() != "--no-alt-screen"@.len());
    assert("--local-provider"@.len() != "--oss"@.len());
    assert("--local-provider"@.len() != "--search"@.len());
    assert("--local-provider"@.len() != "--strict-config"@.len());
    assert("--model"@.len() != "--help"@.len());
    assert("--model"@.len() != "--version"@.len());
    assert("--model"@.len() != "-h"@.len());
    assert("--model"@.len() != "-V"@.len());
    assert("--model"@.len() != "--"@.len());
    assert("--model"@.len() != "--dangerously-bypass-approvals-and-sandbox"@.len());
    assert("--model"@.len() != "--dangerously-bypass-hook-trust"@.len());
    assert("--model"@.len() != "--no-alt-screen"@.len());
    assert("--model"@.len() != "--oss"@.len());
    assert("--model"@.len() != "--search"@.len());
    assert("--model"@.len() != "--strict-config"@.len());
    assert("--profile"@.len() != "--help"@.len());
    assert("--profile"@[2] != "--version"@[2]);
    assert("--profile"@.len() != "-h"@.len());
    assert("--profile"@.len() != "-V"@.len());
    assert("--profile"@.len() != "--"@.len());
    assert("--profile"@.len() != "--dangerously-bypass-approvals-and-sandbox"@.len());
    assert("--profile"@.len() != "--dangerously-bypass-hook-trust"@.len());
    assert("--profile"@.len() != "--no-alt-screen"@.len());
    assert("--profile"@.len() != "--oss"@.len());
    assert("--profile"@.len() != "--search"@.len());
    assert("--profile"@.len() != "--strict-config"@.len());
    assert("--remote"@.len() != "--help"@.len());
    assert("--remote"@.len() != "--version"@.len());
    assert("--remote"@.len() != "-h"@.len());
    assert("--remote"@.len() != "-V"@.len());
    assert("--remote"@.len() != "--"@.len());
    assert("--remote"@.len() != "--dangerously-bypass-approvals-and-sandbox"@.len());
    assert("--remote"@.len() != "--dangerously-bypass-hook-trust"@.len());
    assert("--remote"@.len() != "--no-alt-screen"@.len());
    assert("--remote"@.len() != "--oss"@.len());
    assert("--remote"@[2] != "--search"@[2]);
    assert("--remote"@.len() != "--strict-config"@.len());
    assert("--remote-auth-token-env"@.len() != "--help"@.len());
    assert("--remote-auth-token-env"@.len() != "--version"@.len());
    assert("--remote-auth-token-env"@.len() != "-h"@.len());
    assert("--remote-auth-token-env"@.len() != "-V"@.len());
    assert("--remote-auth-token-env"@.len() != "--"@.len());
    assert("--remote-auth-token-env"@.len() != "--dangerously-bypass-approvals-and-sandbox"@.len());
    assert("--remote-auth-token-env"@.len() != "--dangerously-bypass-hook-trust"@.len());
    assert("--remote-auth-token-env"@.len() != "--no-alt-screen"@.len());
    assert("--remote-auth-token-env"@.len() != "--oss"@.len());
    assert("--remote-auth-token-env"@.len() != "--search"@.len());
    assert("--remote-auth-token-env"@.len() != "--strict-config"@.len());
    assert("--sandbox"@.len() != "--help"@.len());
    assert("--sandbox"@[2] != "--version"@[2]);
    assert("--sandbox"@.len() != "-h"@.len());
    assert("--sandbox"@.len() != "-V"@.len());
    assert("--sandbox"@.len() != "--"@.len());
    assert("--sandbox"@.len() != "--dangerously-bypass-approvals-and-sandbox"@.len());
    assert("--sandbox"@.len() != "--dangerously-bypass-hook-trust"@.len());
    assert("--sandbox"@.len() != "--no-alt-screen"@.len());
    assert("--sandbox"@.len() != "--oss"@.len());
    assert("--sandbox"@.len() != "--search"@.len());
    assert("--sandbox"@.len() != "--strict-config"@.len());
    assert("-C"@.len() != "--help"@.len());
    assert("-C"@.len() != "--version"@.len());
    assert("-C"@[1] != "-h"@[1]);
    assert("-C"@[1] != "-V"@[1]);
    assert("-C"@[1] != "--"@[1]);
    assert("-C"@.len() != "--dangerously-bypass-approvals-and-sandbox"@.len());
    assert("-C"@.len() != "--dangerously-bypass-hook-trust"@.len());
    assert("-C"@.len() != "--no-alt-screen"@.len());
    assert("-C"@.len() != "--oss"@.len());
    assert("-C"@.len() != "--search"@.len());
    assert("-C"@.len() != "--strict-config"@.len());
    assert("-a"@.len() != "--help"@.len());
    assert("-a"@.len() != "--version"@.len());
    assert("-a"@[1] != "-h"@[1]);
    assert("-a"@[1] != "-V"@[1]);
    assert("-a"@[1] != "--"@[1]);
    assert("-a"@.len() != "--dangerously-bypass-approvals-and-sandbox"@.len());
    assert("-a"@.len() != "--dangerously-bypass-hook-trust"@.len());
    assert("-a"@.len() != "--no-alt-screen"@.len());
    assert("-a"@.len() != "--oss"@.len());
    assert("-a"@.len() != "--search"@.len());
    assert("-a"@.len() != "--strict-config"@.len());
    assert("-c"@.len() != "--help"@.len());
    assert("-c"@.len() != "--version"@.len());
    assert("-c"@[1] != "-h"@[1]);
    assert("-c"@[1] != "-V"@[1]);
    assert("-c"@[1] != "--"@[1]);
    assert("-c"@.len() != "--dangerously-bypass-approvals-and-sandbox"@.len());
    assert("-c"@.len() != "--dangerously-bypass-hook-trust"@.len());
    assert("-c"@.len() != "--no-alt-screen"@.len());
    assert("-c"@.len() != "--oss"@.len());
    assert("-c"@.len() != "--search"@.len());
    assert("-c"@.len() != "--strict-config"@.len());
    assert("-i"@.len() != "--help"@.len());
    assert("-i"@.len() != "--version"@.len());
    assert("-i"@[1] != "-h"@[1]);
    assert("-i"@[1] != "-V"@[1]);
    assert("-i"@[1] != "--"@[1]);
    assert("-i"@.len() != "--dangerously-bypass-approvals-and-sandbox"@.len());
    assert("-i"@.len() != "--dangerously-bypass-hook-trust"@.len());
    assert("-i"@.len() != "--no-alt-screen"@.len());
    assert("-i"@.len() != "--oss"@.len());
    assert("-i"@.len() != "--search"@.len());
    assert("-i"@.len() != "--strict-config"@.len());
    assert("-m"@.len() != "--help"@.len());
    assert("-m"@.len() != "--version"@.len());
    assert("-m"@[1] != "-h"@[1]);
    assert("-m"@[1] != "-V"@[1]);
    assert("-m"@[1] != "--"@[1]);
    assert("-m"@.len() != "--dangerously-bypass-approvals-and-sandbox"@.len());
    assert("-m"@.len() != "--dangerously-bypass-hook-trust"@.len());
    assert("-m"@.len() != "--no-alt-screen"@.len());
    assert("-m"@.len() != "--oss"@.len());
    assert("-m"@.len() != "--search"@.len());
    assert("-m"@.len() != "--strict-config"@.len());
    assert("-p"@.len() != "--help"@.len());
    assert("-p"@.len() != "--version"@.len());
    assert("-p"@[1] != "-h"@[1]);
    assert("-p"@[1] != "-V"@[1]);
    assert("-p"@[1] != "--"@[1]);
    assert("-p"@.len() != "--dangerously-bypass-approvals-and-sandbox"@.len());
    assert("-p"@.len() != "--dangerously-bypass-hook-trust"@.len());
    assert("-p"@.len() != "--no-alt-screen"@.len());
    assert("-p"@.len() != "--oss"@.len());
    assert("-p"@.len() != "--search"@.len());
    assert("-p"@.len() != "--strict-config"@.len());
    assert("-s"@.len() != "--help"@.len());
    assert("-s"@.len() != "--version"@.len());
    assert("-s"@[1] != "-h"@[1]);
    assert("-s"@[1] != "-V"@[1]);
    assert("-s"@[1] != "--"@[1]);
    assert("-s"@.len() != "--dangerously-bypass-approvals-and-sandbox"@.len());
    assert("-s"@.len() != "--dangerously-bypass-hook-trust"@.len());
    assert("-s"@.len() != "--no-alt-screen"@.len());
    assert("-s"@.len() != "--oss"@.len());
    assert("-s"@.len() != "--search"@.len());
    assert("-s"@.len() != "--strict-config"@.len());
}

proof fn lemma_value_is_passed_over(name: Seq<char>, value: Seq<char>, rest: Seq<Seq<char>>)
    requires
        value_flag(name),
    ensures
        invocation(seq![name, value] + rest) == invocation(rest),
        invocation(seq![name]) == CodexActivity::Session,
        invocation(seq![name + "="@ + value] + rest) == invocation(rest),
{
    lemma_value_names_are_no_others(name);
    let both = seq![name, value] + rest;
    assert(both[0] == name);
    assert(both.skip(1).skip(1) =~= rest);
    assert(seq![name][0] == name);
    assert(seq![name].skip(1).len() == 0);
    reveal_strlit("=");
    let a = name + "="@ + value;
    lemma_option_names(name);
    lemma_until(a, CharClass::Just('='));
    let n = until(a, CharClass::Just('='));
    assert(a[name.len() as int] == '=');
    if n < name.len() {
        assert(a[n as int] == name[n as int]);
    }
    assert(n == name.len());
    assert(a.take(n as int) =~= name);
    assert(assigned_flag(a));
    if information_flag(a) || a == "--"@ || boolean_flag(a) || value_flag(a) {
        lemma_option_names(a);
        assert(a[name.len() as int] != '=');
    }
    lemma_first(a, rest);
}

/// Each option that takes a value is passed over together with it, whether the
/// value is the next argument or follows an equals sign; without one the invocation
/// is a session.
pub proof fn law_an_option_is_passed_over_with_its_value(value: Seq<char>, rest: Seq<Seq<char>>)
    ensures
        invocation(seq!["--add-dir"@, value] + rest) == invocation(rest),
        invocation(seq!["--ask-for-approval"@, value] + rest) == invocation(rest),
        invocation(seq!["--cd"@, value] + rest) == invocation(rest),
        invocation(seq!["--config"@, value] + rest) == invocation(rest),
        invocation(seq!["--disable"@, value] + rest) == invocation(rest),
        invocation(seq!["--enable"@, value] + rest) == invocation(rest),
        invocation(seq!["--image"@, value] + rest) == invocation(rest),
        invocation(seq!["--local-provider"@, value] + rest) == invocation(rest),
        invocation(seq!["--model"@, value] + rest) == invocation(rest),
        invocation(seq!["--profile"@, value] + rest) == invocation(rest),
        invocation(seq!["--remote"@, value] + rest) == invocation(rest),
        invocation(seq!["--remote-auth-token-env"@, value] + rest) == invocation(rest),
        invocation(seq!["--sandbox"@, value] + rest) == invocation(rest),
        invocation(seq!["-C"@, value] + rest) == invocation(rest),
        invocation(seq!["-a"@, value] + rest) == invocation(rest),
        invocation(seq!["-c"@, value] + rest) == invocation(rest),
        invocation(seq!["-i"@, value] + rest) == invocation(rest),
        invocation(seq!["-m"@, value] + rest) == invocation(rest),
        invocation(seq!["-p"@, value] + rest) == invocation(rest),
        invocation(seq!["-s"@, value] + rest) == invocation(rest),
        invocation(seq!["--add-dir"@ + "="@ + value] + rest) == invocation(rest),
        invocation(seq!["--ask-for-approval"@ + "="@ + value] + rest) == invocation(rest),
        invocation(seq!["--cd"@ + "="@ + value] + rest) == invocation(rest),
        invocation(seq!["--config"@ + "="@ + value] + rest) == invocation(rest),
        invocation(seq!["--disable"@ + "="@ + value] + rest) == invocation(rest),
        invocation(seq!["--enable"@ + "="@ + value] + rest) == invocation(rest),
        invocation(seq!["--image"@ + "="@ + value] + rest) == invocation(rest),
        invocation(seq!["--local-provider"@ + "="@ + value] + rest) == invocation(rest),
        invocation(seq!["--model"@ + "="@ + value] + rest) == invocation(rest),
        invocation(seq!["--profile"@ + "="@ + value] + rest) == invocation(rest),
        invocation(seq!["--remote"@ + "="@ + value] + rest) == invocation(rest),
        invocation(seq!["--remote-auth-token-env"@ + "="@ + value] + rest) == invocation(rest),
        invocation(seq!["--sandbox"@ + "="@ + value] + rest) == invocation(rest),
        invocation(seq!["-C"@ + "="@ + value] + rest) == invocation(rest),
        invocation(seq!["-a"@ + "="@ + value] + rest) == invocation(rest),
        invocation(seq!["-c"@ + "="@ + value] + rest) == invocation(rest),
        invocation(seq!["-i"@ + "="@ + value] + rest) == invocation(rest),
        invocation(seq!["-m"@ + "="@ + value] + rest) == invocation(rest),
        invocation(seq!["-p"@ + "="@ + value] + rest) == invocation(rest),
        invocation(seq!["-s"@ + "="@ + value] + rest) == invocation(rest),
        invocation(seq!["--add-dir"@]) == CodexActivity::Session,
        invocation(seq!["--ask-for-approval"@]) == CodexActivity::Session,
        invocation(seq!["--cd"@]) == CodexActivity::Session,
        invocation(seq!["--config"@]) == CodexActivity::Session,
        invocation(seq!["--disable"@]) == CodexActivity::Session,
        invocation(seq!["--enable"@]) == CodexActivity::Session,
        invocation(seq!["--image"@]) == CodexActivity::Session,
        invocation(seq!["--local-provider"@]) == CodexActivity::Session,
        invocation(seq!["--model"@]) == CodexActivity::Session,
        invocation(seq!["--profile"@]) == CodexActivity::Session,
        invocation(seq!["--remote"@]) == CodexActivity::Session,
        invocation(seq!["--remote-auth-token-env"@]) == CodexActivity::Session,
        invocation(seq!["--sandbox"@]) == CodexActivity::Session,
        invocation(seq!["-C"@]) == CodexActivity::Session,
        invocation(seq!["-a"@]) == CodexActivity::Session,
        invocation(seq!["-c"@]) == CodexActivity::Session,
        invocation(seq!["-i"@]) == CodexActivity::Session,
        invocation(seq!["-m"@]) == CodexActivity::Session,
        invocation(seq!["-p"@]) == CodexActivity::Session,
        invocation(seq!["-s"@]) == CodexActivity::Session,
{
    lemma_value_is_passed_over("--add-dir"@, value, rest);
    lemma_value_is_passed_over("--ask-for-approval"@, value, rest);
    lemma_value_is_passed_over("--cd"@, value, rest);
    lemma_value_is_passed_over("--config"@, value, rest);
    lemma_value_is_passed_over("--disable"@, value, rest);
    lemma_value_is_passed_over("--enable"@, value, rest);
    lemma_value_is_passed_over("--image"@, value, rest);
    lemma_value_is_passed_over("--local-provider"@, value, rest);
    lemma_value_is_passed_over("--model"@, value, rest);
    lemma_value_is_passed_over("--profile"@, value, rest);
    lemma_value_is_passed_over("--remote"@, value, rest);
    lemma_value_is_passed_over("--remote-auth-token-env"@, value, rest);
    lemma_value_is_passed_over("--sandbox"@, value, rest);
    lemma_value_is_passed_over("-C"@, value, rest);
    lemma_value_is_passed_over("-a"@, value, rest);
    lemma_value_is_passed_over("-c"@, value, rest);
    lemma_value_is_passed_over("-i"@, value, rest);
    lemma_value_is_passed_over("-m"@, value, rest);
    lemma_value_is_passed_over("-p"@, value, rest);
    lemma_value_is_passed_over("-s"@, value, rest);
}

proof fn lemma_attached_value_is_passed_over(name: Seq<char>, value: Seq<char>, rest: Seq<Seq<char>>)
    requires
        short_value_flag(name),
        value.len() > 0,
    ensures
        invocation(seq![name + value] + rest) == invocation(rest),
{
    let a = name + value;
    reveal_strlit("-C");
    reveal_strlit("-a");
    reveal_strlit("-c");
    reveal_strlit("-i");
    reveal_strlit("-m");
    reveal_strlit("-p");
    reveal_strlit("-s");
    reveal_strlit("-h");
    reveal_strlit("-V");
    reveal_strlit("--");
    reveal_strlit("--help");
    reveal_strlit("--version");
    reveal_strlit("--dangerously-bypass-approvals-and-sandbox");
    reveal_strlit("--dangerously-bypass-hook-trust");
    reveal_strlit("--no-alt-screen");
    reveal_strlit("--oss");
    reveal_strlit("--search");
    reveal_strlit("--strict-config");
    reveal_strlit("--add-dir");
    reveal_strlit("--ask-for-approval");
    reveal_strlit("--cd");
    reveal_strlit("--config");
    reveal_strlit("--disable");
    reveal_strlit("--enable");
    reveal_strlit("--image");
    reveal_strlit("--local-provider");
    reveal_strlit("--model");
    reveal_strlit("--profile");
    reveal_strlit("--remote");
    reveal_strlit("--remote-auth-token-env");
    reveal_strlit("--sandbox");
    assert(name.len() == 2 && name[1] != '-');
    assert(a[1] == name[1]);
    assert(a.take(2) =~= name);
    assert(attached_short_flag(a));
    assert(a.len() > 2);
    if value_flag(a) {
        assert(a[1] == '-');
    }
    lemma_first(a, rest);
}

/// A short option is passed over with a value that is attached to it.
pub proof fn law_a_short_option_is_passed_over_with_its_value(value: Seq<char>, rest: Seq<Seq<char>>)
    requires
        value.len() > 0,
    ensures
        invocation(seq!["-C"@ + value] + rest) == invocation(rest),
        invocation(seq!["-a"@ + value] + rest) == invocation(rest),
        invocation(seq!["-c"@ + value] + rest) == invocation(rest),
        invocation(seq!["-i"@ + value] + rest) == invocation(rest),
        invocation(seq!["-m"@ + value] + rest) == invocation(rest),
        invocation(seq!["-p"@ + value] + rest) == invocation(rest),
        invocation(seq!["-s"@ + value] + rest) == invocation(rest),
{
    lemma_attached_value_is_passed_over("-C"@, value, rest);
    lemma_attached_value_is_passed_over("-a"@, value, rest);
    lemma_attached_value_is_passed_over("-c"@, value, rest);
    lemma_attached_value_is_passed_over("-i"@, value, rest);
    lemma_attached_value_is_passed_over("-m"@, value, rest);
    lemma_attached_value_is_passed_over("-p"@, value, rest);
    lemma_attached_value_is_passed_over("-s"@, value, rest);
}

// -- What decides --

proof fn lemma_subcommand(name: Seq<char>, rest: Seq<Seq<char>>)
    requires
        name.len() == 0 || name[0] != '-',
    ensures
        invocation(seq![name] + rest) == (if auth_subcommand(name) {
            CodexActivity::AuthMutation
        } else if infra_subcommand(name) {
            CodexActivity::Idle
        } else {
            CodexActivity::Session
        }),
{
    lemma_no_option(name);
    lemma_first(name, rest);
}

/// Logging in and out changes the credential, infrastructure and information do
/// not touch it, and everything else is a session, an invocation without arguments
/// included. What follows the deciding argument does not matter.
#[verifier::spinoff_prover]
#[verifier::rlimit(60)]
pub proof fn law_the_first_argument_decides(arg: Seq<char>, rest: Seq<Seq<char>>)
    ensures
        invocation(seq!["login"@] + rest) == CodexActivity::AuthMutation,
        invocation(seq!["logout"@] + rest) == CodexActivity::AuthMutation,
        invocation(seq!["app-server"@] + rest) == CodexActivity::Idle,
        invocation(seq!["completion"@] + rest) == CodexActivity::Idle,
        invocation(seq!["exec-server"@] + rest) == CodexActivity::Idle,
        invocation(seq!["mcp"@] + rest) == CodexActivity::Idle,
        invocation(seq!["mcp-server"@] + rest) == CodexActivity::Idle,
        invocation(seq!["--help"@] + rest) == CodexActivity::Idle,
        invocation(seq!["--version"@] + rest) == CodexActivity::Idle,
        invocation(seq!["-h"@] + rest) == CodexActivity::Idle,
        invocation(seq!["-V"@] + rest) == CodexActivity::Idle,
        invocation(seq!["--"@] + rest) == CodexActivity::Session,
        invocation(Seq::empty()) == CodexActivity::Session,
        (arg.len() == 0 || arg[0] != '-') && arg != "login"@ && arg != "logout"@ && arg != "app-server"@ && arg != "completion"@ && arg != "exec-server"@ && arg != "mcp"@ && arg != "mcp-server"@ ==> invocation(seq![arg] + rest) == CodexActivity::Session,
        invocation(seq![arg] + rest) == CodexActivity::AuthMutation && !only_options(seq![arg])
            && !value_flag(arg) ==> arg == "login"@ || arg == "logout"@,
{
    reveal_strlit("login");
    reveal_strlit("logout");
    reveal_strlit("app-server");
    reveal_strlit("completion");
    reveal_strlit("exec-server");
    reveal_strlit("mcp");
    reveal_strlit("mcp-server");
    reveal_strlit("--help");
    reveal_strlit("--version");
    reveal_strlit("-h");
    reveal_strlit("-V");
    reveal_strlit("--");
    lemma_subcommand("login"@, rest);
    lemma_subcommand("logout"@, rest);
    lemma_subcommand("app-server"@, rest);
    lemma_subcommand("completion"@, rest);
    lemma_subcommand("exec-server"@, rest);
    lemma_subcommand("mcp"@, rest);
    lemma_subcommand("mcp-server"@, rest);
    assert("app-server"@.len() != "login"@.len());
    assert("app-server"@.len() != "logout"@.len());
    assert("completion"@.len() != "login"@.len());
    assert("completion"@.len() != "logout"@.len());
    assert("exec-server"@.len() != "login"@.len());
    assert("exec-server"@.len() != "logout"@.len());
    assert("mcp"@.len() != "login"@.len());
    assert("mcp"@.len() != "logout"@.len());
    assert("mcp-server"@.len() != "login"@.len());
    assert("mcp-server"@.len() != "logout"@.len());
    lemma_first("--help"@, rest);
    lemma_first("--version"@, rest);
    lemma_first("-h"@, rest);
    lemma_first("-V"@, rest);
    lemma_first("--"@, rest);
    assert("--"@.len() != "--help"@.len());
    assert("--"@.len() != "--version"@.len());
    assert("--"@[1] != "-h"@[1]);
    assert("--"@[1] != "-V"@[1]);
    lemma_first(arg, rest);
    if arg.len() == 0 || arg[0] != '-' {
        lemma_subcommand(arg, rest);
    }
    assert(seq![arg][0] == arg);
    assert(seq![arg].skip(1) =~= Seq::empty());
    assert(only_options(seq![arg].skip(1)));
}

/// An invocation is idle only for a reason: behind its leading options stands an
/// information flag or an infrastructure subcommand. It changes the credential only
/// where `login` or `logout` stands there.
pub proof fn law_an_activity_has_a_reason(args: Seq<Seq<char>>)
    ensures
        invocation(args) == CodexActivity::Idle ==> exists|n: int|
            0 <= n < args.len() && #[trigger] only_options(args.take(n)) && (args[n] == "--help"@ || args[n] == "--version"@ || args[n] == "-h"@ || args[n] == "-V"@ || args[n] == "app-server"@ || args[n] == "completion"@ || args[n] == "exec-server"@ || args[n] == "mcp"@ || args[n] == "mcp-server"@),
        invocation(args) == CodexActivity::AuthMutation ==> exists|n: int|
            0 <= n < args.len() && #[trigger] only_options(args.take(n)) && (args[n] == "login"@
                || args[n] == "logout"@),
        invocation(args) != CodexActivity::Unknown,
    decreases args.len(),
{
    if args.len() > 0 {
        let arg = args[0];
        let decided = information_flag(arg) || arg == "--"@;
        let taken: int = if decided {
            0
        } else if boolean_flag(arg) {
            1
        } else if value_flag(arg) {
            2
        } else if assigned_flag(arg) || attached_short_flag(arg) {
            1
        } else {
            0
        };
        if taken == 0 {
            assert(args.take(0) =~= Seq::<Seq<char>>::empty());
            assert(only_options(args.take(0)));
        } else if taken <= args.len() {
            let rest = args.skip(taken);
            if taken == 2 {
                assert(args.skip(1).skip(1) =~= rest);
            }
            assert(invocation(args) == invocation(rest));
            law_an_activity_has_a_reason(rest);
            assert forall|n: int|
                0 <= n < rest.len() && #[trigger] only_options(rest.take(n)) implies only_options(
                args.take(n + taken),
            ) && args[n + taken] == rest[n] by {
                let longer = args.take(n + taken);
                assert(longer[0] == arg);
                assert(longer.skip(taken) =~= rest.take(n));
            }
            if invocation(args) == CodexActivity::Idle {
                let n = choose|n: int|
                    0 <= n < rest.len() && #[trigger] only_options(rest.take(n)) && (rest[n] == "--help"@ || rest[n] == "--version"@ || rest[n] == "-h"@ || rest[n] == "-V"@ || rest[n] == "app-server"@ || rest[n] == "completion"@ || rest[n] == "exec-server"@ || rest[n] == "mcp"@ || rest[n] == "mcp-server"@);
                assert(only_options(args.take(n + taken)));
            }
            if invocation(args) == CodexActivity::AuthMutation {
                let n = choose|n: int|
                    0 <= n < rest.len() && #[trigger] only_options(rest.take(n)) && (rest[n]
                        == "login"@ || rest[n] == "logout"@);
                assert(only_options(args.take(n + taken)));
            }
        }
    }
}

// -- Processes --

proof fn lemma_base_name_step(directory: Seq<char>, name: Seq<char>)
    requires
        directory.len() > 0,
        directory.last() == '/' || directory.last() == '\\',
    ensures
        base_name(directory + name) == base_name(name),
    decreases directory.len(),
{
    let path = directory + name;
    let n = until(path, CharClass::PathSeparator);
    lemma_until(path, CharClass::PathSeparator);
    assert(path[directory.len() - 1] == directory.last());
    if n >= directory.len() {
        assert(!CharClass::PathSeparator.has(path[directory.len() - 1]));
    }
    let rest = path.skip(n as int + 1);
    let shorter = directory.skip(n as int + 1);
    if shorter.len() == 0 {
        assert(rest =~= name);
    } else {
        assert(shorter.last() == directory.last());
        assert(rest =~= shorter + name);
        lemma_base_name_step(shorter, name);
    }
}

/// Where a binary lies does not matter: only the last part of its path counts, in
/// the name of a process and in its arguments.
pub proof fn law_the_directory_does_not_matter(
    directory: Seq<char>,
    name: Seq<char>,
    args: Seq<Seq<char>>,
)
    requires
        directory.len() > 0,
        directory.last() == '/' || directory.last() == '\\',
    ensures
        base_name(directory + name) == base_name(name),
        (forall|i: int| 0 <= i < name.len() ==> #[trigger] name[i] != '/' && name[i] != '\\')
            ==> base_name(name) == name,
        candidate_name(directory + name) == candidate_name(name),
        process_activity(seq![directory + name] + args) == process_activity(seq![name] + args),
{
    lemma_base_name_step(directory, name);
    lemma_until(name, CharClass::PathSeparator);
    let a = seq![directory + name] + args;
    let b = seq![name] + args;
    assert(a.skip(1) =~= args && b.skip(1) =~= args);
    if args.len() > 0 {
        assert(a.skip(2) =~= b.skip(2));
        assert(a[1] == args[0] && b[1] == args[0]);
    }
}

/// A Codex process is what its invocation is, and so is one that `node` runs for
/// it. A process of another binary is idle, and so is `node` with anything else.
pub proof fn law_a_process_is_what_its_invocation_is(
    bin: Seq<char>,
    shim: Seq<char>,
    args: Seq<Seq<char>>,
)
    ensures
        codex_binary(base_name(bin)) && !node_binary(base_name(bin)) ==> process_activity(
            seq![bin] + args,
        ) == invocation(args),
        node_binary(base_name(bin)) && codex_binary(base_name(shim)) ==> process_activity(
            seq![bin, shim] + args,
        ) == invocation(args),
        node_binary(base_name(bin)) && !codex_binary(base_name(shim)) ==> process_activity(
            seq![bin, shim] + args,
        ) == CodexActivity::Idle,
        !candidate_name(bin) ==> process_activity(seq![bin] + args) == CodexActivity::Idle,
        process_activity(Seq::empty()) == CodexActivity::Idle,
        process_activity(seq![bin] + args) != CodexActivity::Unknown,
{
    let plain = seq![bin] + args;
    let run = seq![bin, shim] + args;
    assert(plain[0] == bin && run[0] == bin && run[1] == shim);
    assert(plain.skip(1) =~= args);
    assert(run.skip(2) =~= args);
    law_an_activity_has_a_reason(args);
    law_an_activity_has_a_reason(plain.skip(2));
}

proof fn lemma_lower_keeps(s: Seq<char>, t: Seq<char>)
    requires
        lower(s) == lower(t),
    ensures
        lower(trim_front(s, CharClass::Just('"'))) == lower(trim_front(t, CharClass::Just('"'))),
    decreases s.len(),
{
    assert(s.len() == lower(s).len() && t.len() == lower(t).len());
    if s.len() > 0 {
        assert(lower(s)[0] == lower(t)[0]);
        assert(lower(s)[0] == lower_char(s[0]) && lower(t)[0] == lower_char(t[0]));
        assert((s[0] == '"') == (t[0] == '"'));
        if s[0] == '"' {
            assert(lower(s.skip(1)) =~= lower(s).skip(1));
            assert(lower(t.skip(1)) =~= lower(t).skip(1));
            lemma_lower_keeps(s.skip(1), t.skip(1));
        }
    }
}

proof fn lemma_lower_keeps_back(s: Seq<char>, t: Seq<char>)
    requires
        lower(s) == lower(t),
    ensures
        lower(trim_back(s, CharClass::Just('"'))) == lower(trim_back(t, CharClass::Just('"'))),
    decreases s.len(),
{
    assert(s.len() == lower(s).len() && t.len() == lower(t).len());
    if s.len() > 0 {
        assert(lower(s)[s.len() - 1] == lower(t)[s.len() - 1]);
        assert(lower(s)[s.len() - 1] == lower_char(s.last()));
        assert(lower(t)[t.len() - 1] == lower_char(t.last()));
        assert((s.last() == '"') == (t.last() == '"'));
        if s.last() == '"' {
            assert(lower(s.drop_last()) =~= lower(s).drop_last());
            assert(lower(t.drop_last()) =~= lower(t).drop_last());
            lemma_lower_keeps_back(s.drop_last(), t.drop_last());
        }
    }
}

/// A name counts whatever its case.
pub proof fn law_the_case_of_a_name_does_not_matter(s: Seq<char>, t: Seq<char>)
    requires
        lower(s) == lower(t),
    ensures
        codex_binary(s) == codex_binary(t),
        node_binary(s) == node_binary(t),
{
    lemma_lower_keeps(s, t);
    lemma_lower_keeps_back(
        trim_front(s, CharClass::Just('"')),
        trim_front(t, CharClass::Just('"')),
    );
}

/// A plain name in lower case is that of the Codex binary exactly if it is `codex`
/// or begins with `codex-`, but for the switcher and the code-mode helper; and it
/// stays so with `.exe` behind it.
pub proof fn law_the_binary_is_known_by_its_name(name: Seq<char>)
    requires
        lower(name) == name,
        name.len() > 0,
        name[0] != '"',
        name.last() != '"',
        !finishes_with(name, ".exe"@),
    ensures
        codex_binary(name) <==> (name == "codex"@ || (begins_with(name, "codex-"@) && !begins_with(
            name,
            "codex-switch"@,
        ) && !begins_with(name, "codex-code-mode"@))),
        codex_binary(name + ".exe"@) == codex_binary(name),
{
    reveal_strlit(".exe");
    let long = name + ".exe"@;
    assert(long[0] == name[0]);
    assert(long.last() == 'e');
    assert(trim_both(long, CharClass::Just('"')) =~= long);
    assert(trim_both(name, CharClass::Just('"')) =~= name);
    assert forall|i: int| 0 <= i < long.len() implies lower_char(long[i]) == long[i] by {
        if i < name.len() {
            assert(lower(name)[i] == name[i]);
        }
    }
    assert(lower(long) =~= long);
    assert(long.skip(long.len() - 4) =~= ".exe"@);
    assert(finishes_with(long, ".exe"@));
    assert(long.take(long.len() - 4) =~= name);
}

/// All processes together are idle only if each is, change the credential exactly
/// if one does, and are unknown where they could not be listed.
pub proof fn law_all_processes_count(
    processes: Option<&Vec<Vec<String>>>,
    r: CodexActivity,
    i: int,
)
    requires
        call_ensures(codex_activity, (processes,), r),
    ensures
        processes is None ==> r == CodexActivity::Unknown,
        processes matches Some(list) ==> {
            &&& 0 <= i < list@.len() ==> r.rank() >= process_activity(texts(list@[i]@)).rank()
            &&& list@.len() == 0 ==> r == CodexActivity::Idle
            &&& r != CodexActivity::Idle ==> exists|k: int|
                0 <= k < list@.len() && process_activity(texts((#[trigger] list@[k])@)) == r
        },
{
    if let Some(list) = processes {
        let all = process_activities(list@);
        law_strongest_fails_closed(all);
        lemma_strongest_is_an_upper_bound(all);
        if 0 <= i < list@.len() {
            assert(all[i] == process_activity(texts(list@[i]@)));
        }
        if r != CodexActivity::Idle {
            assert(all.contains(r));
            let k = choose|k: int| 0 <= k < all.len() && all[k] == r;
            assert(process_activity(texts(list@[k]@)) == r);
        }
    }
}

proof fn lemma_strongest_is_an_upper_bound(all: Seq<CodexActivity>)
    ensures
        forall|i: int| 0 <= i < all.len() ==> strongest(all).rank() >= (#[trigger] all[i]).rank(),
    decreases all.len(),
{
    if all.len() > 0 {
        lemma_strongest_is_an_upper_bound(all.drop_last());
        assert forall|i: int| 0 <= i < all.len() implies strongest(all).rank() >= (
        #[trigger] all[i]).rank() by {
            if i < all.len() - 1 {
                assert(all.drop_last()[i] == all[i]);
            }
        }
    }
}

proof fn lemma_lists_of_inspections(inspections: Seq<ProcessInspection>)
    ensures
        forall|i: int|
            0 <= i < inspections.len() ==> ((#[trigger] inspections[i]) matches
                ProcessInspection::Arguments(list) ==> argument_lists(inspections).contains(list)),
        forall|k: int|
            0 <= k < argument_lists(inspections).len() ==> inspections.contains(
                ProcessInspection::Arguments(#[trigger] argument_lists(inspections)[k]),
            ),
    decreases inspections.len(),
{
    if inspections.len() > 0 {
        let head = inspections.drop_last();
        let before = argument_lists(head);
        let all = argument_lists(inspections);
        lemma_lists_of_inspections(head);
        assert forall|i: int| 0 <= i < inspections.len() implies ((#[trigger] inspections[i]) matches
            ProcessInspection::Arguments(list) ==> all.contains(list)) by {
            if let ProcessInspection::Arguments(list) = inspections[i] {
                if i < head.len() {
                    assert(head[i] == inspections[i]);
                    let k = choose|k: int| 0 <= k < before.len() && before[k] == list;
                    assert(all[k] == list);
                } else {
                    assert(all[all.len() - 1] == list);
                }
            }
        }
        assert forall|k: int| 0 <= k < all.len() implies inspections.contains(
            ProcessInspection::Arguments(#[trigger] all[k]),
        ) by {
            if k < before.len() {
                assert(all[k] == before[k]);
                let wanted = ProcessInspection::Arguments(before[k]);
                assert(head.contains(wanted));
                let i = choose|i: int| 0 <= i < head.len() && head[i] == wanted;
                assert(inspections[i] == wanted);
            } else {
                assert(inspections[inspections.len() - 1] == ProcessInspection::Arguments(all[k]));
            }
        }
    }
}

/// No process that was inspected is forgotten, and none is made up; one inspection
/// that failed makes the whole listing fail.
pub proof fn law_every_inspected_process_counts(
    inspections: Vec<ProcessInspection>,
    r: Option<Vec<Vec<String>>>,
)
    requires
        call_ensures(collect_process_inspections, (inspections,), r),
    ensures
        inspections@.contains(ProcessInspection::Failed) <==> r is None,
        r matches Some(lists) ==> {
            &&& forall|i: int|
                0 <= i < inspections@.len() ==> ((#[trigger] inspections@[i]) matches
                    ProcessInspection::Arguments(list) ==> lists@.contains(list))
            &&& forall|k: int|
                0 <= k < lists@.len() ==> inspections@.contains(
                    ProcessInspection::Arguments(#[trigger] lists@[k]),
                )
        },
{
    lemma_lists_of_inspections(inspections@);
    if inspections@.contains(ProcessInspection::Failed) {
        let i = choose|i: int|
            0 <= i < inspections@.len() && inspections@[i] == ProcessInspection::Failed;
        assert(inspections@[i] is Failed);
    }
    if r is None {
        let i = choose|i: int| 0 <= i < inspections@.len() && #[trigger] inspections@[i] is Failed;
        assert(inspections@[i] == ProcessInspection::Failed);
    }
}

// -- Windows --

/// A process of the current user is what its name, path and command line say.
pub proof fn law_own_windows_processes_count(process: &WindowsProcess, r: CodexActivity)
    requires
        call_ensures(classify_windows_process, (process,), r),
    ensures
        process.owner_is_current_user == Some(true) ==> r == windows_details(
            process.name@,
            owned_text(process.executable_path),
            owned_text(process.command_line),
        ),
        process.owner_is_current_user == Some(false) ==> r == CodexActivity::Idle,
        process.owner_is_current_user is None ==> (r == CodexActivity::Unknown <==> windows_details(
            process.name@,
            owned_text(process.executable_path),
            owned_text(process.command_line),
        ) != CodexActivity::Idle),
{
}

/// A Windows process other than the desktop's is what its arguments say; without a
/// command line the Codex binary is unknown, and another one idle.
pub proof fn law_a_windows_process_is_what_its_arguments_are(
    name: Seq<char>,
    path: Option<Seq<char>>,
    line: Seq<char>,
)
    requires
        !desktop_name(name),
    ensures
        trim_both(line, CharClass::WhiteSpace).len() > 0 ==> windows_details(name, path, Some(line))
            == process_activity(command_arguments(line)),
        codex_binary(name) ==> windows_details(name, path, None) == CodexActivity::Unknown,
        !codex_binary(name) ==> windows_details(name, path, None) == CodexActivity::Idle,
{
}

/// The desktop's main process is a session; a helper never is, whatever its path;
/// and neither is a process of another package.
pub proof fn law_the_desktop_is_a_session(
    name: Seq<char>,
    path: Seq<char>,
    line: Seq<char>,
    first: Seq<char>,
    rest: Seq<Seq<char>>,
)
    requires
        desktop_name(name),
        trim_both(line, CharClass::WhiteSpace).len() > 0,
        trim_both(path, CharClass::WhiteSpace).len() > 0,
        command_arguments(line) == seq![first] + rest,
    ensures
        codex_desktop_path(path) && desktop_name(first) && !desktop_helper(seq![first] + rest)
            ==> windows_details(name, Some(path), Some(line)) == CodexActivity::Session,
        codex_desktop_path(first) && desktop_name(first) && !desktop_helper(seq![first] + rest)
            ==> windows_details(name, None, Some(line)) == CodexActivity::Session,
        desktop_helper(seq![first] + rest) ==> windows_details(name, Some(path), Some(line))
            == CodexActivity::Idle,
        !codex_desktop_path(path) ==> windows_details(name, Some(path), Some(line))
            == CodexActivity::Idle,
        codex_desktop_path(path) ==> windows_details(name, Some(path), None)
            == CodexActivity::Unknown,
        windows_details(name, None, None) == CodexActivity::Unknown,
{
    assert((seq![first] + rest)[0] == first);
}

/// The activity of all listed Windows processes is the strongest of them.
pub proof fn law_all_windows_processes_count(
    processes: Option<&Vec<WindowsProcess>>,
    r: CodexActivity,
    i: int,
)
    requires
        call_ensures(windows_codex_activity, (processes,), r),
    ensures
        processes is None ==> r == CodexActivity::Unknown,
        processes matches Some(list) ==> {
            &&& 0 <= i < list@.len() ==> r.rank() >= windows_activity(list@[i]).rank()
            &&& list@.len() == 0 ==> r == CodexActivity::Idle
            &&& r != CodexActivity::Idle ==> exists|k: int|
                0 <= k < list@.len() && windows_activity(#[trigger] list@[k]) == r
        },
{
    if let Some(list) = processes {
        let all = windows_activities(list@);
        law_strongest_fails_closed(all);
        lemma_strongest_is_an_upper_bound(all);
        if 0 <= i < list@.len() {
            assert(all[i] == windows_activity(list@[i]));
        }
        if r != CodexActivity::Idle {
            assert(all.contains(r));
            let k = choose|k: int| 0 <= k < all.len() && all[k] == r;
            assert(windows_activity(list@[k]) == r);
        }
    }
}

proof fn lemma_quoted_run(s: Seq<char>, i: int, end: int)
    requires
        0 <= i <= end < s.len(),
        forall|k: int| i <= k < end ==> #[trigger] s[k] != '\\' && s[k] != '"',
        s[end] == '"',
        end + 1 == s.len() || blank(s[end + 1]),
    ensures
        argument(s, i, true) == (s.subrange(i, end), end + 1),
    decreases end - i,
{
    if i == end {
        assert(backslashes(s, i) == 0);
        assert(slashes(0) =~= Seq::empty());
        assert(argument(s, i + 1, false).0 =~= Seq::empty());
        assert(s.subrange(i, end) =~= Seq::empty());
        assert(slashes(0) + argument(s, i + 1, false).0 =~= s.subrange(i, end));
    } else {
        lemma_quoted_run(s, i + 1, end);
        assert(seq![s[i]] + s.subrange(i + 1, end) =~= s.subrange(i, end));
    }
}

/// A quoted argument is what stands between its quotes, blanks included.
pub proof fn law_a_quoted_argument_is_read_whole(s: Seq<char>, start: int, end: int)
    requires
        0 <= start < end < s.len(),
        s[start] == '"',
        s[end] == '"',
        forall|k: int| start < k < end ==> #[trigger] s[k] != '\\' && s[k] != '"',
        end + 1 == s.len() || blank(s[end + 1]),
    ensures
        argument(s, start, false) == (s.subrange(start + 1, end), end + 1),
{
    assert(backslashes(s, start) == 0);
    assert(slashes(0) =~= Seq::empty());
    lemma_quoted_run(s, start + 1, end);
    let (rest, at) = argument(s, start + 1, true);
    assert(slashes(0) + rest =~= rest);
}

/// A command line that begins with a word is that word's argument followed by those
/// of the rest.
pub proof fn law_a_command_line_is_read_word_by_word(line: Seq<char>, end: int)
    requires
        0 < end <= line.len(),
        forall|k: int| 0 <= k < end ==> !blank(#[trigger] line[k]) && line[k] != '\\' && line[k] != '"',
        end == line.len() || blank(line[end]),
    ensures
        command_arguments(line) == seq![line.take(end)] + arguments_from(line, end),
        end == line.len() ==> command_arguments(line) == seq![line],
{
    assert(!blank(line[0]));
    law_plain_argument_is_verbatim(line, 0, end);
    assert(line.subrange(0, end) =~= line.take(end));
    if end == line.len() {
        assert(line.take(end) =~= line);
        assert(arguments_from(line, end) =~= Seq::empty());
        assert(command_arguments(line) =~= seq![line]);
    }
}

/// Classifying a command line is classifying the arguments that it stands for.
pub proof fn law_a_command_line_is_its_arguments(
    line: &str,
    args: &[String],
    a: CodexActivity,
    b: CodexActivity,
)
    requires
        call_ensures(classify_codex_command, (line,), a),
        call_ensures(classify_codex_args, (args,), b),
        texts(args@) == command_arguments(line@),
    ensures
        a == b,
{
}

} // verus!
