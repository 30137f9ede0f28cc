use codex_switch_daemon::creation::{
    cleanup_failed_creation, create_exclusive, Creation, CreationKind, CreationReply,
    CreationStage, CreationStep,
};
use codex_switch_daemon::direct_file::{
    admit_move, begin_open_direct_regular, open_direct_regular, remove_quarantined_exact,
    rename_information, rename_information_lengths, replace_with_displaced,
    validate_direct_directory, wide_path, DirectoryLook, EntryKind, EntrySight, OpenReply,
    OpenStage, OpenStep, QuarantineReply, QuarantineStage, QuarantineStep, SiblingMove,
};
use codex_switch_daemon::directory_rename::{
    direct_parent, open_direct_directory, rename_directory_noreplace_durable, DirectoryIdentity,
    DirectoryRename, DirectoryRenameOutcome, DirectoryRenameReply, DirectoryRenameStage,
    DirectoryRenameStep,
};
use codex_switch_daemon::fault::Fault;
use codex_switch_daemon::fs_ops::{
    same_sight, shows, token_for_file, CreateExactOutcome, FileSnapshot, FileToken,
    RemoveExactOutcome,
};
use codex_switch_daemon::host_path::{HostPath, PathComponent, Platform};
use codex_switch_daemon::installer_fs::{
    exchange_exact, execute, format_create_outcome, format_remove_outcome, move_noreplace_exact,
    replace_with_displaced_exact, require_operation_support, ExchangeReply, ExchangeStage,
    ExchangeStep, InstallerFileArguments, InstallerFileOperation, InstallerFilePlan, MoveReply,
    MoveStage, MoveStep, Recovery, ReplaceName, ReplaceReply, ReplaceStage, ReplaceStep,
};
use codex_switch_daemon::removal::{
    ensure_path_token, quarantine_path, remove_exact, Removal, RemovalReply, RemovalStage,
    RemovalStep,
};

fn token(low: u64, byte: u8) -> FileToken {
    FileToken {
        identity_high: 1,
        identity_low: low,
        digest: [byte; 32],
    }
}

fn path(text: &str) -> HostPath {
    let mut components = Vec::new();
    if text.starts_with('/') {
        components.push(PathComponent::Root);
    }
    for name in text.split('/').filter(|name| !name.is_empty()) {
        components.push(match name {
            ".." => PathComponent::Parent,
            "." => PathComponent::Current,
            plain => PathComponent::Normal(plain.to_string()),
        });
    }
    HostPath {
        unicode: Some(text.to_string()),
        display: text.to_string(),
        absolute: text.starts_with('/'),
        components,
        parent: text.rsplit_once('/').map(|(parent, _)| parent.to_string()),
        file_name: text.rsplit('/').next().map(str::to_string),
    }
}

fn snapshot(length: u64) -> FileSnapshot {
    FileSnapshot {
        identity_high: 3,
        identity_low: 4,
        length,
        changed_high: 5,
        changed_low: 6,
    }
}

#[test]
fn a_token_holds_the_identity_and_the_digest_of_a_file() {
    let token = token_for_file(snapshot(3), b"abc", snapshot(3)).unwrap();
    assert_eq!((token.identity_high, token.identity_low), (3, 4));
    let text = token.to_text();
    assert!(text.ends_with(
        "ba7816bf8f01cfea414140de5dae2223b00361a396177a9cb410ff61f20015ad"
    ));
    assert_eq!(FileToken::from_str(&text), Ok(token));
    assert!(token.matches_bytes(b"abc"));
    assert!(!token.matches_bytes(b"abd"));
    assert_eq!(
        token_for_file(snapshot(3), b"abc", snapshot(4)),
        Err(Fault::of("transaction file changed while it was hashed"))
    );
}

#[test]
fn a_token_text_that_is_damaged_is_refused() {
    let text = token(7, 9).to_text();
    for damaged in [
        text.replace('|', ""),
        text.replace(':', ""),
        format!("{text}0"),
        text.replace("09", "0g"),
        String::new(),
    ] {
        assert!(FileToken::from_str(&damaged).is_err(), "{damaged}");
    }
}

#[test]
fn tokens_agree_by_identity_or_by_contents() {
    assert!(token(1, 1).same(&token(1, 1)));
    assert!(!token(1, 1).same(&token(2, 1)));
    assert!(token(1, 1).same_contents(&token(2, 1)));
    assert!(same_sight(&None, &None));
    assert!(!same_sight(&Some(token(1, 1)), &None));
    assert!(shows(&Some(token(1, 1)), &token(1, 1)));
    assert!(ensure_path_token(&token(1, 1), "/f", &token(1, 1), "file").is_ok());
    let error = ensure_path_token(&token(2, 1), "/f", &token(1, 1), "file").unwrap_err();
    assert!(error.headline().starts_with("file changed at /f; expected token "));
}

fn removal(flushes_directories: bool) -> Removal {
    Removal {
        source: "/d/f".to_string(),
        quarantine: "/d/q".to_string(),
        expected: token(1, 1),
        flushes_directories,
    }
}

fn run_removal(removal: &Removal, replies: Vec<RemovalReply>) -> Result<RemoveExactOutcome, Fault> {
    let mut stage = RemovalStage::Bind;
    for reply in replies {
        match remove_exact(removal, stage, reply) {
            RemovalStep::Await(next) => stage = next,
            RemovalStep::Finished(r) => return r,
        }
    }
    panic!("the removal still waits for {stage:?}");
}

fn moved_aside() -> RemovalReply {
    RemovalReply::Sights {
        source: None,
        quarantine: Some(token(1, 1)),
    }
}

#[test]
fn exact_removal_unlinks_the_quarantined_file() {
    let r = run_removal(
        &removal(true),
        vec![
            RemovalReply::Token(token(1, 1)),
            RemovalReply::Done,
            moved_aside(),
            RemovalReply::Token(token(1, 1)),
            RemovalReply::Done,
            RemovalReply::Done,
        ],
    );
    assert_eq!(r, Ok(RemoveExactOutcome::Removed));
}

#[test]
fn exact_removal_by_handle_is_one_operation() {
    let r = run_removal(
        &removal(false),
        vec![
            RemovalReply::Token(token(1, 1)),
            RemovalReply::Done,
            moved_aside(),
            RemovalReply::Deleted(Ok(RemoveExactOutcome::Removed)),
        ],
    );
    assert_eq!(r, Ok(RemoveExactOutcome::Removed));
}

#[test]
fn exact_removal_rejects_a_different_token_without_mutation() {
    let r = run_removal(&removal(true), vec![RemovalReply::Token(token(2, 2))]);
    assert!(r.unwrap_err().headline().starts_with("removal source changed at /d/f"));
}

#[test]
fn a_stranger_in_quarantine_is_put_back_only_to_a_free_name() {
    let removal = removal(true);
    let mut stage = RemovalStage::Bind;
    for reply in [
        RemovalReply::Token(token(1, 1)),
        RemovalReply::Done,
        RemovalReply::Sights {
            source: None,
            quarantine: Some(token(9, 9)),
        },
    ] {
        match remove_exact(&removal, stage, reply) {
            RemovalStep::Await(next) => stage = next,
            RemovalStep::Finished(r) => panic!("{r:?}"),
        }
    }
    let recheck = || RemovalStage::RecheckSource {
        cleanup: None,
        occupant: token(9, 9),
    };
    assert_eq!(stage, recheck());
    let RemovalStep::Await(stage) = remove_exact(&removal, stage, RemovalReply::Sight(None)) else {
        panic!("the name is free");
    };
    assert!(matches!(
        stage,
        RemovalStage::RecheckQuarantine { .. }
    ));
    assert!(matches!(
        remove_exact(&removal, stage, RemovalReply::Sight(Some(token(9, 9)))),
        RemovalStep::Await(RemovalStage::PutBack { .. })
    ));
    assert!(matches!(
        remove_exact(&removal, recheck(), RemovalReply::Sight(Some(token(5, 5)))),
        RemovalStep::Finished(Err(_))
    ));
    let stage = RemovalStage::RecheckQuarantine {
        cleanup: None,
        occupant: token(9, 9),
    };
    assert!(matches!(
        remove_exact(&removal, stage, RemovalReply::Sight(Some(token(8, 8)))),
        RemovalStep::Finished(Err(_))
    ));
}

#[test]
fn every_quarantine_has_a_name_of_its_own() {
    let first = quarantine_path();
    let second = quarantine_path();
    assert_ne!(first, second);
    assert_eq!(first.len(), second.len());
}

fn copy() -> Creation {
    Creation {
        kind: CreationKind::Copy {
            source: "/d/source".to_string(),
            expected: token(1, 1),
        },
        destination: "/d/copy".to_string(),
        flushes_directories: true,
    }
}

fn run_creation(creation: &Creation, replies: Vec<CreationReply>) -> Result<CreateExactOutcome, Fault> {
    let mut stage = match creation.kind {
        CreationKind::Copy { .. } => CreationStage::BindSource,
        CreationKind::Empty => CreationStage::Create,
    };
    for reply in replies {
        match create_exclusive(creation, stage, reply) {
            CreationStep::Await(next) => stage = next,
            CreationStep::Finished(r) => return r,
        }
    }
    panic!("the creation still waits for {stage:?}");
}

#[test]
fn exclusive_copy_is_bound_to_its_source_and_its_destination() {
    let created = run_creation(
        &copy(),
        vec![
            CreationReply::Token(token(1, 1)),
            CreationReply::Done,
            CreationReply::Done,
            CreationReply::Done,
            CreationReply::Done,
            CreationReply::Token(token(2, 1)),
            CreationReply::Token(token(1, 1)),
            CreationReply::Token(token(1, 1)),
            CreationReply::Token(token(2, 1)),
            CreationReply::Done,
        ],
    )
    .unwrap();
    assert_eq!(created, CreateExactOutcome::Created(token(2, 1)));
    assert_eq!(*created.token(), token(2, 1));
}

#[test]
fn source_token_mismatch_fails_before_creating_a_destination() {
    assert_eq!(
        run_creation(&copy(), vec![CreationReply::Token(token(1, 2))]),
        Err(Fault::of(
            "copy source changed before the exclusive copy: /d/source"
        ))
    );
}

#[test]
fn exclusive_copy_never_overwrites_a_preexisting_destination() {
    assert_eq!(
        run_creation(
            &copy(),
            vec![
                CreationReply::Token(token(1, 1)),
                CreationReply::Failed(Fault::of("exists"))
            ]
        ),
        Err(Fault::of("exists"))
    );
}

#[test]
fn a_failed_creation_says_which_operation_failed() {
    let fail_at = |creation: &Creation, done: usize| {
        let mut replies = Vec::new();
        if let CreationKind::Copy { .. } = creation.kind {
            replies.push(CreationReply::Token(token(1, 1)));
        }
        for _ in 0..done {
            replies.push(CreationReply::Done);
        }
        replies.push(CreationReply::Failed(Fault::of("no space")));
        replies.push(CreationReply::Failed(Fault::of("unreadable")));
        run_creation(creation, replies).unwrap_err().messages[1].clone()
    };
    assert_eq!(fail_at(&copy(), 1), "copying /d/source to /d/copy");
    assert_eq!(fail_at(&copy(), 2), "no space");
    assert_eq!(
        fail_at(&copy(), 3),
        "flushing copied transaction file /d/copy"
    );
    let mut empty = copy();
    empty.kind = CreationKind::Empty;
    assert_eq!(
        fail_at(&empty, 1),
        "flushing empty transaction file /d/copy"
    );
}

#[test]
fn a_failed_creation_says_what_became_of_its_residue() {
    let removed = cleanup_failed_creation(
        "/d/copy",
        Fault::of("no space"),
        Some(Ok(RemoveExactOutcome::Removed)),
    );
    assert_eq!(
        removed.detail(),
        "exclusive creation failed; its exact residue was removed from /d/copy: no space"
    );
}

#[test]
fn a_direct_path_is_absolute_and_ends_in_a_name() {
    let absolute = path("/a/b");
    assert_eq!(direct_parent(&absolute).unwrap().1, "b");
    assert!(direct_parent(&path("a/b")).is_err());
    assert_eq!(
        open_direct_directory(&path("/a/./b"), false),
        Ok(vec!["a".to_string(), "b".to_string()])
    );
    assert!(open_direct_directory(&path("/a/../b"), false).is_err());
    assert!(open_direct_directory(&path("/a/./b"), true).is_err());
    let mut bare = path("/");
    bare.components.clear();
    assert_eq!(
        open_direct_directory(&bare, true),
        Err(Fault::of(
            "Windows transaction directory has no openable component: /"
        ))
    );
}

fn rename() -> DirectoryRename {
    DirectoryRename {
        source: "/a/s".to_string(),
        destination: "/b/d".to_string(),
        source_parent: "/a".to_string(),
        destination_parent: "/b".to_string(),
    }
}

fn identity(number: u64) -> DirectoryIdentity {
    DirectoryIdentity { device: 1, number }
}

fn run_rename(replies: Vec<DirectoryRenameReply>) -> Result<DirectoryRenameOutcome, Fault> {
    let mut stage = DirectoryRenameStage::Bind;
    for reply in replies {
        match rename_directory_noreplace_durable(&rename(), stage, reply) {
            DirectoryRenameStep::Await(next) => stage = next,
            DirectoryRenameStep::Finished(r) => return r,
        }
    }
    panic!("the rename still waits for {stage:?}");
}

#[test]
fn a_directory_is_renamed_only_as_the_one_that_was_bound() {
    let flushed = || DirectoryRenameReply::Flushed {
        source: None,
        destination: None,
    };
    assert_eq!(
        run_rename(vec![
            DirectoryRenameReply::Identity(identity(7)),
            DirectoryRenameReply::Done,
            DirectoryRenameReply::Identity(identity(7)),
            flushed(),
        ]),
        Ok(DirectoryRenameOutcome::DurablyRenamed)
    );
    let swapped = run_rename(vec![
        DirectoryRenameReply::Identity(identity(7)),
        DirectoryRenameReply::Done,
        DirectoryRenameReply::Identity(identity(8)),
        DirectoryRenameReply::Done,
        DirectoryRenameReply::Identity(identity(8)),
        flushed(),
    ]);
    assert!(swapped.unwrap_err().headline().contains("source directory changed"));
    let unconfirmed = run_rename(vec![
        DirectoryRenameReply::Identity(identity(7)),
        DirectoryRenameReply::Done,
        DirectoryRenameReply::Identity(identity(7)),
        DirectoryRenameReply::Flushed {
            source: Some(Fault::of("no sync")),
            destination: None,
        },
    ]);
    assert!(matches!(
        unconfirmed,
        Ok(DirectoryRenameOutcome::VisibleDurabilityUnconfirmed { .. })
    ));
}

#[test]
fn moves_stay_in_one_directory() {
    let (a, b) = (path("/d/a"), path("/d/b"));
    for way in [SiblingMove::RenameNoReplace, SiblingMove::Exchange] {
        admit_move(Platform::Linux, way, &a, &b, true).unwrap();
        assert!(admit_move(Platform::Linux, way, &a, &b, false).is_err());
        assert!(admit_move(Platform::OtherUnix, way, &a, &b, true).is_err());
        assert!(admit_move(Platform::Linux, way, &path("a"), &b, true).is_err());
    }
    replace_with_displaced(&a, &b, &path("/d/c"), true).unwrap();
    assert_eq!(
        replace_with_displaced(&a, &b, &path("/e/c"), false),
        Err(Fault::of("ReplaceFileW transaction paths must be siblings"))
    );
}

fn sight(kind: EntryKind, inode: u64) -> EntrySight {
    EntrySight {
        kind,
        device: 1,
        inode,
    }
}

fn open_as(
    platform: Platform,
    before: EntrySight,
    opened: EntrySight,
    after: EntrySight,
) -> Result<(), Fault> {
    let mut stage = begin_open_direct_regular(platform);
    loop {
        let reply = match stage {
            OpenStage::Inspect => OpenReply::Sight(Ok(before)),
            OpenStage::Open => OpenReply::Done(Ok(())),
            OpenStage::Identify => OpenReply::Sight(Ok(opened)),
            OpenStage::Recheck { .. } => OpenReply::Sight(Ok(after)),
        };
        match open_direct_regular(platform, "/f", stage, reply) {
            OpenStep::Await(next) => stage = next,
            OpenStep::Finished(outcome) => return outcome,
        }
    }
}

#[test]
fn windows_opens_only_a_direct_file() {
    let file = sight(EntryKind::File, 7);
    let other = sight(EntryKind::Other, 7);
    assert_eq!(
        begin_open_direct_regular(Platform::Windows),
        OpenStage::Inspect
    );
    assert_eq!(open_as(Platform::Windows, file, file, other), Ok(()));
    assert_eq!(
        open_as(Platform::Windows, other, file, file),
        Err(Fault::of("transaction path is not a direct regular file: /f"))
    );
    assert_eq!(
        open_as(Platform::Windows, file, other, file),
        Err(Fault::of("transaction file changed while it was opened: /f"))
    );
    let refused = OpenReply::Done(Err(Fault::of("denied")));
    let OpenStep::Finished(Err(fault)) =
        open_direct_regular(Platform::Windows, "/f", OpenStage::Open, refused)
    else {
        panic!("nothing was opened");
    };
    assert_eq!(fault.detail(), "opening transaction file /f: denied");
}

#[test]
fn a_windows_rename_leads_to_a_name() {
    assert_eq!(rename_information(&[65, 66], 24, "AB"), Ok((4, 28)));
    for units in [&[][..], &[65, 0, 66][..]] {
        assert_eq!(
            rename_information(units, 24, "x"),
            Err(Fault::of(
                "Windows rename destination is empty or contains a NUL character: x"
            ))
        );
    }
}

#[test]
fn an_opened_file_must_be_the_one_its_name_shows() {
    let file = sight(EntryKind::File, 7);
    assert_eq!(begin_open_direct_regular(Platform::Linux), OpenStage::Open);
    assert_eq!(open_as(Platform::Linux, file, file, file), Ok(()));
    for other in [
        sight(EntryKind::File, 8),
        sight(EntryKind::Other, 7),
        sight(EntryKind::Directory, 7),
    ] {
        assert_eq!(
            open_as(Platform::Linux, other, file, other),
            Err(Fault::of("transaction file changed while it was opened: /f"))
        );
    }
    validate_direct_directory(DirectoryLook::Parent, "/d", Ok(EntryKind::Directory)).unwrap();
    assert!(validate_direct_directory(DirectoryLook::Pinned, "/d", Ok(EntryKind::File)).is_err());
}

#[test]
fn windows_names_end_with_one_zero() {
    assert_eq!(wide_path(vec![65, 66], "AB"), Ok(vec![65, 66, 0]));
    assert!(wide_path(vec![65, 0, 66], "A\0B").is_err());
    assert_eq!(rename_information_lengths(10, 24), Ok((20, 44)));
    assert_eq!(
        rename_information_lengths(usize::MAX, 24),
        Err(Fault::of("Windows rename destination length overflow"))
    );
    assert_eq!(
        rename_information_lengths(1 << 31, 24).unwrap_err().messages,
        [
            "Windows rename destination exceeds the platform length limit",
            "out of range integral type conversion attempted",
        ]
    );
    assert_eq!(
        rename_information_lengths((1 << 31) - 1, 24).unwrap_err().messages,
        [
            "Windows rename information exceeds the platform length limit",
            "out of range integral type conversion attempted",
        ]
    );
}

#[test]
fn a_damaged_token_keeps_the_cause() {
    let digest = "ab".repeat(32);
    for (text, message, cause) in [
        (
            "1:2|abc".to_string(),
            "file token digest is not hexadecimal",
            "Odd number of digits",
        ),
        (
            "1:2|az".to_string(),
            "file token digest is not hexadecimal",
            "Invalid character 'z' at position 1",
        ),
        (
            format!("one:2|{digest}"),
            "file token identity prefix is not an integer",
            "invalid digit found in string",
        ),
        (
            format!("1:|{digest}"),
            "file token identity suffix is not an integer",
            "cannot parse integer from empty string",
        ),
        (
            format!("1:18446744073709551616|{digest}"),
            "file token identity suffix is not an integer",
            "number too large to fit in target type",
        ),
    ] {
        assert_eq!(
            FileToken::from_str(&text).unwrap_err().messages,
            [message, cause]
        );
    }
}

#[test]
fn a_handle_deletes_only_the_expected_file() {
    let delete = |low: u64, after: Option<FileToken>| {
        let mut marked = false;
        let mut stage = QuarantineStage::Inspect;
        loop {
            let reply = match stage {
                QuarantineStage::Inspect => QuarantineReply::Kind(Ok(EntryKind::File)),
                QuarantineStage::Open => QuarantineReply::Done(Ok(())),
                QuarantineStage::Identify => QuarantineReply::Token(Ok(token(low, 1))),
                QuarantineStage::Mark => {
                    marked = true;
                    QuarantineReply::Done(Ok(()))
                }
                QuarantineStage::Confirm => QuarantineReply::Sight(Ok(after)),
            };
            match remove_quarantined_exact("/q", &token(1, 1), stage, reply) {
                QuarantineStep::Await(next) => stage = next,
                QuarantineStep::Finished(outcome) => return (marked, outcome),
            }
        }
    };
    assert_eq!(delete(1, None), (true, Ok(RemoveExactOutcome::Removed)));
    assert_eq!(
        delete(2, None),
        (
            false,
            Err(Fault::of(
                "quarantined file changed before handle-bound deletion: /q"
            ))
        )
    );
    assert!(delete(1, Some(token(1, 1))).1.is_err());
    assert!(matches!(
        remove_quarantined_exact(
            "/q",
            &token(1, 1),
            QuarantineStage::Inspect,
            QuarantineReply::Kind(Ok(EntryKind::Other))
        ),
        QuarantineStep::Finished(Err(_))
    ));
}

fn arguments() -> InstallerFileArguments {
    InstallerFileArguments {
        source: Some("/s".to_string()),
        destination: Some("/d".to_string()),
        displaced: None,
        expected_token: Some(token(1, 1).to_text()),
        expected_destination_token: None,
    }
}

#[test]
fn installer_operations_need_their_arguments() {
    assert_eq!(
        execute(InstallerFileOperation::CopyExclusive, arguments()),
        Ok(InstallerFilePlan::CopyExclusive {
            source: "/s".to_string(),
            destination: "/d".to_string(),
            expected: token(1, 1),
        })
    );
    assert!(execute(InstallerFileOperation::Exchange, arguments()).is_err());
    assert!(execute(InstallerFileOperation::ReplaceWithDisplaced, arguments()).is_err());
    let mut missing = arguments();
    missing.source = None;
    assert!(execute(InstallerFileOperation::RemoveOwned, missing).is_err());
    let mut damaged = arguments();
    damaged.expected_token = Some("no token".to_string());
    assert!(execute(InstallerFileOperation::RemoveOwned, damaged).is_err());
    require_operation_support(Platform::Linux, InstallerFileOperation::Exchange).unwrap();
    assert!(require_operation_support(Platform::Windows, InstallerFileOperation::Exchange).is_err());
    assert!(require_operation_support(
        Platform::Linux,
        InstallerFileOperation::ReplaceWithDisplaced
    )
    .is_err());
}

#[test]
fn installer_outcomes_have_their_own_words() {
    assert_eq!(format_remove_outcome(RemoveExactOutcome::Removed), "removed");
    assert_eq!(
        format_remove_outcome(RemoveExactOutcome::RemovedNamespaceDurabilityUnconfirmed),
        "removed-namespace-durability-unconfirmed"
    );
    let created = format_create_outcome(CreateExactOutcome::Created(token(1, 1)));
    assert!(created.contains(&token(1, 1).to_text()));
    assert_ne!(
        created,
        format_create_outcome(CreateExactOutcome::CreatedNamespaceDurabilityUnconfirmed(
            token(1, 1)
        ))
    );
}

fn renamed(
    boundary: Option<&str>,
    source: Option<FileToken>,
    destination: Option<FileToken>,
) -> Result<String, Fault> {
    let reply = MoveReply::Moved {
        boundary: boundary.map(Fault::of),
        source,
        destination,
    };
    match move_noreplace_exact("/s", "/d", &token(1, 1), MoveStage::Rename, reply) {
        MoveStep::Finished(outcome) => outcome,
        step => panic!("{step:?}"),
    }
}

#[test]
fn a_move_is_exact_or_refused() {
    assert_eq!(
        move_noreplace_exact(
            "/s",
            "/d",
            &token(1, 1),
            MoveStage::BindSource,
            MoveReply::Token(token(1, 1))
        ),
        MoveStep::Await(MoveStage::Rename)
    );
    assert_eq!(
        move_noreplace_exact(
            "/s",
            "/d",
            &token(1, 1),
            MoveStage::BindSource,
            MoveReply::Token(token(2, 1))
        ),
        MoveStep::Finished(Err(Fault::of(
            "move source changed before no-replace publication: /s"
        )))
    );
    assert_eq!(
        renamed(None, None, Some(token(1, 1))),
        Ok(token(1, 1).to_text())
    );
    assert_eq!(
        renamed(Some("no sync"), None, Some(token(1, 1)))
            .unwrap_err()
            .detail(),
        "no-replace rename moved the exact file to /d, but its durability boundary failed: no sync"
    );
    assert_eq!(
        renamed(Some("refused"), Some(token(1, 1)), None),
        Err(Fault::of("refused"))
    );
    assert_eq!(
        renamed(None, Some(token(1, 1)), None),
        Err(Fault::of(
            "no-replace rename returned success without moving the source"
        ))
    );
    assert_eq!(
        renamed(Some("exists"), Some(token(1, 1)), Some(token(9, 9))),
        Err(Fault::of(
            "no-replace rename ended in an unclassified state; source and destination were preserved"
        ))
    );
}

#[test]
fn an_exchange_succeeds_only_with_both_files_in_place() {
    let (old, new) = (token(1, 1), token(2, 2));
    let step = |stage: ExchangeStage, reply: ExchangeReply| exchange_exact(&new, &old, stage, reply);
    assert_eq!(
        step(ExchangeStage::BindSource, ExchangeReply::Token(new)),
        ExchangeStep::Await(ExchangeStage::BindDestination)
    );
    assert_eq!(
        step(ExchangeStage::BindDestination, ExchangeReply::Token(old)),
        ExchangeStep::Await(ExchangeStage::Exchange)
    );
    for stage in [ExchangeStage::BindSource, ExchangeStage::BindDestination] {
        assert_eq!(
            step(stage, ExchangeReply::Token(token(9, 9))),
            ExchangeStep::Finished(Err(Fault::of(
                "exchange operands changed before the atomic publication boundary"
            )))
        );
    }
    let swapped = ExchangeReply::Moved {
        boundary: None,
        source: Some(old),
        destination: Some(new),
    };
    assert_eq!(
        step(ExchangeStage::Exchange, swapped),
        ExchangeStep::Finished(Ok(new.to_text()))
    );
}

#[test]
fn an_inexact_exchange_is_taken_back() {
    let (old, new, strange) = (token(1, 1), token(2, 2), token(9, 9));
    let step = |stage: ExchangeStage, reply: ExchangeReply| exchange_exact(&new, &old, stage, reply);
    let inexact = ExchangeReply::Moved {
        boundary: None,
        source: Some(strange),
        destination: Some(new),
    };
    let ExchangeStep::Await(stage) = step(ExchangeStage::Exchange, inexact) else {
        panic!("another file was exchanged");
    };
    assert!(matches!(stage, ExchangeStage::RecheckSource { .. }));
    let ExchangeStep::Await(stage) = step(stage, ExchangeReply::Sight(Some(strange))) else {
        panic!("the source is unchanged");
    };
    assert!(matches!(stage, ExchangeStage::RecheckDestination { .. }));
    let ExchangeStep::Await(stage) = step(stage, ExchangeReply::Sight(Some(new))) else {
        panic!("the destination is unchanged");
    };
    let back = ExchangeReply::Moved {
        boundary: Some(Fault::of("no sync")),
        source: Some(new),
        destination: Some(strange),
    };
    assert_eq!(
        step(stage, back),
        ExchangeStep::Finished(Err(Fault::of(
            "atomic exchange did not commit its expected state; the two actual operands were restored; restoration durability failed: no sync"
        )))
    );
    let recheck = ExchangeStage::RecheckSource {
        source: Some(strange),
        destination: Some(new),
    };
    assert_eq!(
        step(recheck, ExchangeReply::Sight(None)),
        ExchangeStep::Finished(Err(Fault::of(
            "atomic exchange recovery was not attempted because an operand changed again; every path was preserved"
        )))
    );
}

fn replace(stage: ReplaceStage, reply: ReplaceReply) -> ReplaceStep {
    replace_with_displaced_exact("/x", &token(2, 2), &token(1, 1), stage, reply)
}

fn replaced(
    replacement: Option<FileToken>,
    destination: Option<FileToken>,
    displaced: Option<FileToken>,
) -> ReplaceReply {
    ReplaceReply::Moved {
        boundary: None,
        replacement,
        destination,
        displaced,
    }
}

#[test]
fn a_replacement_keeps_what_it_displaces() {
    let (new, old) = (token(2, 2), token(1, 1));
    assert_eq!(
        replace(ReplaceStage::BindReplacement, ReplaceReply::Token(new)),
        ReplaceStep::Await(ReplaceStage::BindDestination)
    );
    assert_eq!(
        replace(ReplaceStage::BindDestination, ReplaceReply::Token(old)),
        ReplaceStep::Await(ReplaceStage::CheckDisplaced)
    );
    for stage in [ReplaceStage::BindReplacement, ReplaceStage::BindDestination] {
        assert_eq!(
            replace(stage, ReplaceReply::Token(token(9, 9))),
            ReplaceStep::Finished(Err(Fault::of(
                "ReplaceFileW operands changed before the atomic publication boundary"
            )))
        );
    }
    assert_eq!(
        replace(ReplaceStage::CheckDisplaced, ReplaceReply::Sight(None)),
        ReplaceStep::Await(ReplaceStage::Replace)
    );
    assert_eq!(
        replace(ReplaceStage::CheckDisplaced, ReplaceReply::Sight(Some(old))),
        ReplaceStep::Finished(Err(Fault::of("displaced recovery path already exists: /x")))
    );
    assert_eq!(
        replace(
            ReplaceStage::Replace,
            replaced(None, Some(new), Some(old))
        ),
        ReplaceStep::Finished(Ok("replaced".to_string()))
    );
}

#[test]
fn an_inexact_replacement_is_taken_back_only_if_nothing_changed_again() {
    let (new, old, strange) = (token(2, 2), token(1, 1), token(9, 9));
    let reverse = || Recovery::Reverse {
        destination: new,
        displaced: strange,
    };
    assert_eq!(
        replace(
            ReplaceStage::Replace,
            replaced(None, Some(new), Some(strange))
        ),
        ReplaceStep::Await(ReplaceStage::Recheck {
            name: ReplaceName::Replacement,
            recovery: reverse(),
        })
    );
    let mut stage = ReplaceStage::Recheck {
        name: ReplaceName::Replacement,
        recovery: reverse(),
    };
    for sight in [None, Some(new), Some(strange)] {
        match replace(stage, ReplaceReply::Sight(sight)) {
            ReplaceStep::Await(next) => stage = next,
            step => panic!("{step:?}"),
        }
    }
    assert_eq!(
        stage,
        ReplaceStage::Recover {
            recovery: reverse()
        }
    );
    assert_eq!(
        replace(stage, replaced(Some(new), Some(strange), None)),
        ReplaceStep::Finished(Err(Fault::of(
            "ReplaceFileW did not commit its expected state; the actual destination and replacement were restored"
        )))
    );
    let restore = ReplaceStage::Recheck {
        name: ReplaceName::Destination,
        recovery: Recovery::Restore { displaced: old },
    };
    assert_eq!(
        replace(restore, ReplaceReply::Sight(Some(strange))),
        ReplaceStep::Finished(Err(Fault::of(
            "ReplaceFileW partial-failure recovery was not attempted because a path changed again; every path was preserved"
        )))
    );
    assert_eq!(
        replace(
            ReplaceStage::Replace,
            replaced(Some(new), None, Some(old))
        ),
        ReplaceStep::Await(ReplaceStage::Recheck {
            name: ReplaceName::Replacement,
            recovery: Recovery::Restore { displaced: old },
        })
    );
}
