use codex_switch_daemon::codex_process::{
    classify_codex_args, classify_codex_command, classify_windows_process,
    classify_windows_process_details, codex_activity, collect_process_inspections,
    possible_codex_process_name, split_windows_command_line, windows_codex_activity,
    CodexActivity, ProcessInspection, WindowsProcess,
};
use codex_switch_daemon::unix_process::{
    classify_macos_process_arguments, linux_command_arguments, linux_effective_uid,
    linux_process_arguments, linux_process_file_failure, macos_candidate_pids,
    parse_macos_process_arguments, parse_macos_process_row, process_vanished, LinuxProbe,
    LinuxReply, LinuxStep,
};

fn words(list: &[&str]) -> Vec<String> {
    list.iter().map(|word| word.to_string()).collect()
}

fn letters(text: &str) -> Vec<char> {
    text.chars().collect()
}

#[test]
fn vanished_candidates_are_ignored_but_inspection_failures_fail_closed() {
    assert_eq!(
        collect_process_inspections(vec![
            ProcessInspection::Vanished,
            ProcessInspection::Irrelevant,
            ProcessInspection::Arguments(vec!["codex".to_string(), "login".to_string()]),
        ]),
        Some(vec![vec!["codex".to_string(), "login".to_string()]])
    );
    assert_eq!(
        collect_process_inspections(vec![ProcessInspection::Vanished, ProcessInspection::Failed,]),
        None
    );
}

#[test]
fn candidate_prefilter_covers_native_and_node_codex_processes() {
    assert!(possible_codex_process_name("codex"));
    assert!(possible_codex_process_name("codex-aarch64-apple-darwin"));
    assert!(possible_codex_process_name("node"));
    assert!(!possible_codex_process_name("codex-switch-global-pace"));
    assert!(!possible_codex_process_name("codex-code-mode-host"));
    assert!(!possible_codex_process_name("bash"));
}

#[test]
fn windows_chatgpt_desktop_main_process_is_a_session() {
    let executable_path = r#"C:\Program Files\WindowsApps\OpenAI.Codex_26.825.6671.0_x64__8wekyb3d8bbwe\app\ChatGPT.exe"#;
    for command_line in [
        r#""C:\Program Files\WindowsApps\OpenAI.Codex_26.825.6671.0_x64__8wekyb3d8bbwe\app\ChatGPT.exe""#,
        r#""C:\Program Files\WindowsApps\OpenAI.Codex_26.825.6671.0_x64__8wekyb3d8bbwe\app\ChatGPT.exe" --hidden"#,
    ] {
        assert_eq!(
            classify_windows_process_details(
                "ChatGPT.exe",
                Some(executable_path),
                Some(command_line),
            ),
            CodexActivity::Session,
            "{command_line}"
        );
    }
}

#[test]
fn windows_chatgpt_desktop_helpers_are_not_sessions() {
    let executable_path = r#"C:\Program Files\WindowsApps\OpenAI.Codex_26.825.6671.0_x64__8wekyb3d8bbwe\app\ChatGPT.exe"#;
    for process_type in ["renderer", "gpu-process", "utility", "crashpad-handler"] {
        let command_line = format!(
            r#""C:\Program Files\WindowsApps\OpenAI.Codex_26.825.6671.0_x64__8wekyb3d8bbwe\app\ChatGPT.exe" --type={process_type} --user-data-dir="C:\Users\user\AppData\Roaming\ChatGPT""#
        );
        assert_eq!(
            classify_windows_process_details(
                "chatgpt.EXE",
                Some(executable_path),
                Some(&command_line),
            ),
            CodexActivity::Idle,
            "{process_type}"
        );
    }
    assert_eq!(
        classify_windows_process_details(
            "ChatGPT.exe",
            None,
            Some("ChatGPT.exe --type=renderer"),
        ),
        CodexActivity::Idle
    );
}

#[test]
fn windows_desktop_app_server_child_keeps_the_infrastructure_contract() {
    assert_eq!(
        classify_windows_process_details(
            "codex.exe",
            Some(
                r#"C:\Program Files\WindowsApps\OpenAI.Codex_26.825.6671.0_x64__8wekyb3d8bbwe\app\resources\codex.exe"#
            ),
            Some(
                r#""C:\Program Files\WindowsApps\OpenAI.Codex_26.825.6671.0_x64__8wekyb3d8bbwe\app\resources\codex.exe" app-server --analytics-default-enabled"#
            ),
        ),
        CodexActivity::Idle
    );
}

#[test]
fn windows_general_chatgpt_desktop_app_is_irrelevant() {
    assert_eq!(
        classify_windows_process_details(
            "ChatGPT.exe",
            Some(
                r#"C:\Program Files\WindowsApps\OpenAI.ChatGPT_1.0.0.0_x64__8wekyb3d8bbwe\app\ChatGPT.exe"#
            ),
            Some(
                r#""C:\Program Files\WindowsApps\OpenAI.ChatGPT_1.0.0.0_x64__8wekyb3d8bbwe\app\ChatGPT.exe""#
            ),
        ),
        CodexActivity::Idle
    );
    assert_eq!(
        classify_windows_process_details(
            "ChatGPT.exe",
            None,
            Some(
                r#""C:\Program Files\WindowsApps\OpenAI.ChatGPT_1.0.0.0_x64__8wekyb3d8bbwe\app\ChatGPT.exe""#
            ),
        ),
        CodexActivity::Idle
    );
}

#[test]
fn windows_chatgpt_identity_falls_back_to_the_command_path() {
    let command_line = r#""C:\Program Files\WindowsApps\OpenAI.Codex_26.825.6671.0_x64__8wekyb3d8bbwe\app\ChatGPT.exe" --hidden"#;
    assert_eq!(
        classify_windows_process_details("ChatGPT.exe", None, Some(command_line)),
        CodexActivity::Session
    );
    assert_eq!(
        classify_windows_process_details("ChatGPT.exe", None, Some("ChatGPT.exe")),
        CodexActivity::Unknown
    );
}

#[test]
fn unavailable_native_windows_codex_command_line_fails_closed() {
    let native = WindowsProcess {
        name: "codex.exe".to_string(),
        process_id: 100,
        owner_is_current_user: Some(true),
        executable_path: Some("C:\\tools\\codex.exe".to_string()),
        command_line: None,
    };
    assert_eq!(classify_windows_process(&native), CodexActivity::Unknown);

    let vendor_native = WindowsProcess {
        name: "codex-x86_64-pc-windows-msvc.exe".to_string(),
        process_id: 101,
        owner_is_current_user: Some(true),
        executable_path: Some("C:\\tools\\codex-x86_64-pc-windows-msvc.exe".to_string()),
        command_line: Some("  ".to_string()),
    };
    assert_eq!(
        classify_windows_process(&vendor_native),
        CodexActivity::Unknown
    );

    let desktop = WindowsProcess {
        name: "ChatGPT.exe".to_string(),
        process_id: 102,
        owner_is_current_user: Some(true),
        executable_path: Some(
            r#"C:\Program Files\WindowsApps\OpenAI.Codex_26.825.6671.0_x64__8wekyb3d8bbwe\app\ChatGPT.exe"#.to_string(),
        ),
        command_line: None,
    };
    assert_eq!(classify_windows_process(&desktop), CodexActivity::Unknown);
}

#[test]
fn unavailable_non_codex_windows_command_line_is_irrelevant() {
    for name in ["node.exe", "codex-switch.exe", "codex-code-mode-host.exe"] {
        let process = WindowsProcess {
            name: name.to_string(),
            process_id: 200,
            owner_is_current_user: Some(true),
            executable_path: None,
            command_line: None,
        };
        assert_eq!(
            classify_windows_process(&process),
            CodexActivity::Idle,
            "{name}"
        );
    }
}

#[test]
fn windows_processes_from_other_users_are_irrelevant() {
    for (name, executable_path, command_line) in [
        (
            "ChatGPT.exe",
            Some(
                r#"C:\Program Files\WindowsApps\OpenAI.Codex_26.825.6671.0_x64__8wekyb3d8bbwe\app\ChatGPT.exe"#,
            ),
            None,
        ),
        ("codex.exe", Some(r#"C:\tools\codex.exe"#), None),
    ] {
        let process = WindowsProcess {
            name: name.to_string(),
            process_id: 300,
            owner_is_current_user: Some(false),
            executable_path: executable_path.map(str::to_string),
            command_line: command_line.map(str::to_string),
        };
        assert_eq!(classify_windows_process(&process), CodexActivity::Idle);
    }
}

#[test]
fn unknown_windows_process_owner_fails_closed() {
    let process = WindowsProcess {
        name: "ChatGPT.exe".to_string(),
        process_id: 301,
        owner_is_current_user: None,
        executable_path: Some(
            r#"C:\Program Files\WindowsApps\OpenAI.Codex_26.825.6671.0_x64__8wekyb3d8bbwe\app\ChatGPT.exe"#.to_string(),
        ),
        command_line: Some(
            r#""C:\Program Files\WindowsApps\OpenAI.Codex_26.825.6671.0_x64__8wekyb3d8bbwe\app\ChatGPT.exe""#.to_string(),
        ),
    };
    assert_eq!(classify_windows_process(&process), CodexActivity::Unknown);

    for (executable_path, command_line) in [
        (
            r#"C:\Program Files\WindowsApps\OpenAI.ChatGPT_1.0.0.0_x64__8wekyb3d8bbwe\app\ChatGPT.exe"#,
            r#""C:\Program Files\WindowsApps\OpenAI.ChatGPT_1.0.0.0_x64__8wekyb3d8bbwe\app\ChatGPT.exe""#,
        ),
        (
            r#"C:\Program Files\WindowsApps\OpenAI.Codex_26.825.6671.0_x64__8wekyb3d8bbwe\app\ChatGPT.exe"#,
            r#""C:\Program Files\WindowsApps\OpenAI.Codex_26.825.6671.0_x64__8wekyb3d8bbwe\app\ChatGPT.exe" --type=renderer"#,
        ),
    ] {
        let irrelevant = WindowsProcess {
            name: "ChatGPT.exe".to_string(),
            process_id: 302,
            owner_is_current_user: None,
            executable_path: Some(executable_path.to_string()),
            command_line: Some(command_line.to_string()),
        };
        assert_eq!(classify_windows_process(&irrelevant), CodexActivity::Idle);
    }
}

#[test]
fn macos_process_row_preserves_spaces_in_the_command_path() {
    let row = parse_macos_process_row(&letters(
        "  123   501 /Applications/Codex Preview.app/Contents/MacOS/codex",
    ))
    .unwrap();
    assert_eq!(row.pid, 123);
    assert_eq!(row.uid, 501);
    assert_eq!(
        row.command,
        "/Applications/Codex Preview.app/Contents/MacOS/codex"
    );
    assert!(possible_codex_process_name(&row.command));
    assert_eq!(parse_macos_process_row(&letters("123 501   ")), None);
}

#[test]
fn macos_arguments_recheck_snapshot_candidates_after_pid_reuse() {
    assert_eq!(
        classify_macos_process_arguments(Some(vec![
            "/bin/bash".to_string(),
            "worker.sh".to_string(),
        ])),
        ProcessInspection::Irrelevant
    );
    assert_eq!(
        classify_macos_process_arguments(Some(vec![
            "/usr/local/bin/node".to_string(),
            "/usr/local/bin/codex".to_string(),
        ])),
        ProcessInspection::Arguments(vec![
            "/usr/local/bin/node".to_string(),
            "/usr/local/bin/codex".to_string(),
        ])
    );
    assert_eq!(
        classify_macos_process_arguments(Some(Vec::new())),
        ProcessInspection::Failed
    );
    assert_eq!(
        classify_macos_process_arguments(None),
        ProcessInspection::Failed
    );
}

#[test]
fn linux_status_parser_reads_the_effective_uid() {
    assert_eq!(
        linux_effective_uid("Name:\tcodex\nUid:\t1000\t1001\t1002\t1003\n"),
        Some(1001)
    );
    assert_eq!(linux_effective_uid("Name:\tcodex\n"), None);
}

#[test]
fn interactive_sessions_are_detected() {
    // Real-world command lines observed on macOS (npm vendor binary + shim).
    assert_eq!(
        classify_codex_command(
            "/Users/u/.nvm/versions/node/v24.14.0/lib/node_modules/@openai/codex/node_modules/@openai/codex-darwin-arm64/vendor/aarch64-apple-darwin/bin/codex"
        ),
        CodexActivity::Session
    );
    assert_eq!(
        classify_codex_command(
            "/usr/local/bin/codex resume 019f400c-35d3-77c3-96b0-85d3ff6b75fe"
        ),
        CodexActivity::Session
    );
    assert_eq!(
        classify_codex_command("codex exec \"fix the tests\""),
        CodexActivity::Session
    );
    assert_eq!(
        classify_codex_command("node /Users/u/.nvm/versions/node/v24.14.0/bin/codex"),
        CodexActivity::Session
    );
    assert_eq!(
        classify_codex_command("\"C:\\Program Files\\codex\\codex.exe\" resume abc"),
        CodexActivity::Session
    );
    assert_eq!(
        classify_codex_command("\"C:\\Program Files\\codex\\Codex.EXE\" resume abc"),
        CodexActivity::Session
    );
}

#[test]
fn interactive_prompt_words_are_not_mistaken_for_infrastructure() {
    assert_eq!(
        classify_codex_command(
            "codex exec \"fix login logout completion mcp mcp-server app-server --help --version\""
        ),
        CodexActivity::Session
    );
    assert_eq!(
        classify_codex_command(
            "codex -m gpt-5.4 -c model_reasoning_effort=high exec \"fix mcp-server\""
        ),
        CodexActivity::Session
    );
    assert_eq!(
        classify_codex_command("codex resume abc \"explain app-server\""),
        CodexActivity::Session
    );
    assert_eq!(
        classify_codex_command("codex -- \"login to the service\""),
        CodexActivity::Session
    );
    assert_eq!(
        classify_codex_command(
            r#"codex.exe -c "developer_instructions=\"login mode\"" exec "do work""#
        ),
        CodexActivity::Session
    );
}

#[test]
fn argv_boundaries_distinguish_bare_prompts_from_infrastructure() {
    assert_eq!(
        classify_codex_args(&words(&["codex", "login to the service"])),
        CodexActivity::Session
    );
    assert_eq!(
        classify_codex_args(&words(&["codex", "app-server question"])),
        CodexActivity::Session
    );
    assert_eq!(
        classify_codex_args(&words(&["codex", "login", "--device"])),
        CodexActivity::AuthMutation
    );
    assert_eq!(
        classify_codex_args(&words(&["codex", "logout"])),
        CodexActivity::AuthMutation
    );
    assert_eq!(
        classify_codex_args(&words(&["codex", "app-server"])),
        CodexActivity::Idle
    );
}

#[test]
fn codex_infrastructure_does_not_block_switching() {
    assert_eq!(
        classify_codex_command(
            "/Users/u/.nvm/.../bin/codex -m gpt-5.4 -c model_reasoning_effort=high mcp-server"
        ),
        CodexActivity::Idle
    );
    assert_eq!(
        classify_codex_command(
            "node /Users/u/.nvm/versions/node/v24.14.0/bin/codex -m gpt-5.4 mcp-server"
        ),
        CodexActivity::Idle
    );
    assert_eq!(
        classify_codex_command("codex -mfoo mcp-server"),
        CodexActivity::Idle
    );
    assert_eq!(
        classify_codex_command("codex -C/tmp app-server"),
        CodexActivity::Idle
    );
    assert_eq!(
        classify_codex_command(
            "/Applications/ChatGPT.app/Contents/Resources/codex -c features.code_mode_host=true app-server --analytics-default-enabled"
        ),
        CodexActivity::Idle
    );
    assert_eq!(
        classify_codex_command("/usr/local/bin/codex app-server"),
        CodexActivity::Idle
    );
    assert_eq!(
        classify_codex_command("/usr/local/bin/codex exec-server --listen ws://127.0.0.1:0"),
        CodexActivity::Idle
    );
    assert_eq!(classify_codex_command("codex --help"), CodexActivity::Idle);
    assert_eq!(classify_codex_command("codex -V"), CodexActivity::Idle);
    assert_eq!(
        classify_codex_command("/path/bin/codex-code-mode-host"),
        CodexActivity::Idle
    );
    assert_eq!(
        classify_codex_command(
            "/Users/u/Developer/Repos/codex-switch/target/debug/codex-switch daemon start --foreground"
        ),
        CodexActivity::Idle
    );
    assert_eq!(
        classify_codex_command(
            "/Applications/Pencil.app/Contents/Resources/app.asar.unpacked/out/mcp-server-darwin-arm64 --app desktop --agent codexCLI"
        ),
        CodexActivity::Idle
    );
    assert_eq!(classify_codex_command("bash"), CodexActivity::Idle);
    assert_eq!(classify_codex_command(""), CodexActivity::Idle);
}

#[test]
fn auth_mutation_and_unknown_are_fail_closed_priorities() {
    assert_eq!(
        CodexActivity::Idle.merge(CodexActivity::Session),
        CodexActivity::Session
    );
    assert_eq!(
        CodexActivity::Session.merge(CodexActivity::AuthMutation),
        CodexActivity::AuthMutation
    );
    assert_eq!(
        CodexActivity::Session.merge(CodexActivity::Unknown),
        CodexActivity::Unknown
    );
}

#[test]
fn linux_missing_process_file_only_vanishes_with_its_process_directory() {
    assert_eq!(
        linux_process_file_failure(process_vanished(true, true, None), false),
        ProcessInspection::Failed
    );
    assert_eq!(
        linux_process_file_failure(process_vanished(true, true, None), true),
        ProcessInspection::Vanished
    );
    assert_eq!(
        linux_process_file_failure(process_vanished(false, true, Some(13)), true),
        ProcessInspection::Failed
    );
}

#[test]
fn a_process_is_gone_where_it_is_not_found_or_has_no_number() {
    assert!(process_vanished(true, false, None));
    assert!(process_vanished(false, true, Some(3)));
    assert!(!process_vanished(false, false, Some(3)));
    assert!(!process_vanished(false, true, None));
}

#[test]
fn a_linux_process_is_read_file_by_file() {
    let owner = linux_process_arguments(1000, LinuxProbe::Owner, LinuxReply::Owner(1001));
    assert_eq!(owner, LinuxStep::Done(ProcessInspection::Irrelevant));
    let owner = linux_process_arguments(1000, LinuxProbe::Owner, LinuxReply::Owner(1000));
    assert_eq!(owner, LinuxStep::Read(LinuxProbe::CommandName));
    let name = linux_process_arguments(
        1000,
        LinuxProbe::CommandName,
        LinuxReply::Text("bash\n".to_string()),
    );
    assert_eq!(name, LinuxStep::Done(ProcessInspection::Irrelevant));
    let name = linux_process_arguments(
        1000,
        LinuxProbe::CommandName,
        LinuxReply::Text("codex\n".to_string()),
    );
    assert_eq!(name, LinuxStep::Read(LinuxProbe::Status));
    let line = linux_process_arguments(
        1000,
        LinuxProbe::CommandLine,
        LinuxReply::Bytes(b"codex\0login\0".to_vec()),
    );
    assert_eq!(
        line,
        LinuxStep::Done(ProcessInspection::Arguments(words(&["codex", "login"])))
    );
}

#[test]
fn linux_arguments_are_the_runs_between_zero_bytes() {
    assert_eq!(
        linux_command_arguments(b"codex\0exec\0fix \xff\0\0"),
        vec!["codex".to_string(), "exec".to_string(), "fix \u{fffd}".to_string()]
    );
    assert!(linux_command_arguments(b"").is_empty());
}

#[test]
fn macos_listing_keeps_the_candidates_of_one_user() {
    let listing = "  10 501 /usr/local/bin/codex\n  11 502 /usr/local/bin/codex\n  12 501 /bin/bash\n  13 501 node\n";
    assert_eq!(macos_candidate_pids(listing, 501), Some(vec![10, 13]));
    assert_eq!(macos_candidate_pids("no row at all\n", 501), None);
}

#[test]
fn macos_argument_buffer_skips_the_executable_and_its_padding() {
    let mut buffer = vec![2u8, 0, 0, 0];
    buffer.extend_from_slice(b"/usr/local/bin/codex\0\0\0codex\0login\0PATH=/bin\0");
    assert_eq!(
        parse_macos_process_arguments(&buffer),
        Some(words(&["codex", "login"]))
    );
    assert_eq!(parse_macos_process_arguments(&[1, 0]), None);
    assert_eq!(parse_macos_process_arguments(&[0, 0, 0, 0, b'x', 0]), None);
}

#[test]
fn the_strongest_activity_of_all_processes_counts() {
    assert_eq!(codex_activity(None), CodexActivity::Unknown);
    assert_eq!(codex_activity(Some(&Vec::new())), CodexActivity::Idle);
    let processes = vec![
        words(&["codex", "app-server"]),
        words(&["codex", "exec", "fix"]),
        words(&["bash"]),
    ];
    assert_eq!(codex_activity(Some(&processes)), CodexActivity::Session);
    assert_eq!(windows_codex_activity(None), CodexActivity::Unknown);
}

#[test]
fn windows_backslashes_escape_quotes_only() {
    assert_eq!(
        split_windows_command_line(r#""C:\a b\c.exe" x\\y "q\"r" d\ e"#),
        words(&[r"C:\a b\c.exe", r"x\\y", "q\"r", r"d\", "e"])
    );
    assert!(split_windows_command_line("   ").is_empty());
    assert_eq!(split_windows_command_line(r#""" a"#), words(&["", "a"]));
}
