//! The checks on files and directories that a transaction opens by their direct
//! names: nothing is followed, nothing is replaced, and what was opened must be
//! what the name shows.
use vstd::prelude::*;

use crate::directory_rename::{direct_parent, direct_parent_problem};
use crate::fault::{join2, join4, Fault};
use crate::fs_ops::{FileToken, RemoveExactOutcome};
use crate::host_path::{HostPath, Platform};
use crate::outside::{u32_narrowing_refusal, u32_narrowing_words};
use crate::removal::{misfit, misfit_fault};

verus! {

/// What a name shows.
#[derive(Clone, Copy, Debug, PartialEq, Eq, Structural)]
pub enum EntryKind {
    /// A regular file that is no link.
    File,
    /// A directory that is no link.
    Directory,
    Other,
}

/// An entry and what identifies it.
#[derive(Clone, Copy, Debug, PartialEq, Eq, Structural)]
pub struct EntrySight {
    pub kind: EntryKind,
    pub device: u64,
    pub inode: u64,
}

// -- Moves between siblings --

/// A move that stays in one directory.
#[derive(Clone, Copy, Debug, PartialEq, Eq, Structural)]
pub enum SiblingMove {
    /// A rename that replaces nothing.
    RenameNoReplace,
    /// An exchange of two files.
    Exchange,
}

/// Why a move may not be made.
pub open spec fn move_problem(
    platform: Platform,
    way: SiblingMove,
    source: HostPath,
    destination: HostPath,
    same_parent: bool,
) -> Option<Seq<char>> {
    match (direct_parent_problem(source), direct_parent_problem(destination)) {
        (Some(message), _) => Some(message),
        (None, Some(message)) => Some(message),
        (None, None) => match way {
            SiblingMove::RenameNoReplace => if !same_parent {
                Some(
                    "no-replace rename requires sibling paths: "@ + source.display@ + " -> "@
                        + destination.display@,
                )
            } else if platform == Platform::OtherUnix {
                Some("atomic no-replace rename is supported only on Linux and macOS"@)
            } else {
                None
            },
            SiblingMove::Exchange => if !same_parent {
                Some(
                    "atomic exchange requires sibling paths: "@ + source.display@ + " <-> "@
                        + destination.display@,
                )
            } else if platform != Platform::Linux && platform != Platform::MacOs {
                Some("atomic exchange is supported only on Linux and macOS"@)
            } else {
                None
            },
        },
    }
}

/// A move must stay in one directory, and the system must make it in one step.
pub fn admit_move(
    platform: Platform,
    way: SiblingMove,
    source: &HostPath,
    destination: &HostPath,
    same_parent: bool,
) -> (r: Result<(), Fault>)
    ensures
        match move_problem(platform, way, *source, *destination, same_parent) {
            Some(message) => r matches Err(fault) && fault@ == seq![message],
            None => r is Ok,
        },
{
    match direct_parent(source) {
        Ok(_) => {},
        Err(fault) => {
            return Err(fault);
        },
    }
    match direct_parent(destination) {
        Ok(_) => {},
        Err(fault) => {
            return Err(fault);
        },
    }
    match way {
        SiblingMove::RenameNoReplace => if !same_parent {
            Err(
                Fault::from_text(
                    join4(
                        "no-replace rename requires sibling paths: ",
                        source.display.as_str(),
                        " -> ",
                        destination.display.as_str(),
                    ),
                ),
            )
        } else if platform == Platform::OtherUnix {
            Err(Fault::of("atomic no-replace rename is supported only on Linux and macOS"))
        } else {
            Ok(())
        },
        SiblingMove::Exchange => if !same_parent {
            Err(
                Fault::from_text(
                    join4(
                        "atomic exchange requires sibling paths: ",
                        source.display.as_str(),
                        " <-> ",
                        destination.display.as_str(),
                    ),
                ),
            )
        } else if platform != Platform::Linux && platform != Platform::MacOs {
            Err(Fault::of("atomic exchange is supported only on Linux and macOS"))
        } else {
            Ok(())
        },
    }
}

/// A replacement that keeps what it displaces must stay in one directory.
pub fn replace_with_displaced(
    replacement: &HostPath,
    destination: &HostPath,
    displaced: &HostPath,
    same_parent: bool,
) -> (r: Result<(), Fault>)
    ensures
        match (
            direct_parent_problem(*replacement),
            direct_parent_problem(*destination),
            direct_parent_problem(*displaced),
        ) {
            (Some(message), _, _) => r matches Err(fault) && fault@ == seq![message],
            (None, Some(message), _) => r matches Err(fault) && fault@ == seq![message],
            (None, None, Some(message)) => r matches Err(fault) && fault@ == seq![message],
            (None, None, None) => if same_parent {
                r is Ok
            } else {
                r matches Err(fault) && fault@ == seq![
                    "ReplaceFileW transaction paths must be siblings"@,
                ]
            },
        },
{
    match direct_parent(replacement) {
        Ok(_) => {},
        Err(fault) => {
            return Err(fault);
        },
    }
    match direct_parent(destination) {
        Ok(_) => {},
        Err(fault) => {
            return Err(fault);
        },
    }
    match direct_parent(displaced) {
        Ok(_) => {},
        Err(fault) => {
            return Err(fault);
        },
    }
    if same_parent {
        Ok(())
    } else {
        Err(Fault::of("ReplaceFileW transaction paths must be siblings"))
    }
}

// -- Opening --

/// Whether a file that was opened is a regular file that its name still shows.
pub open spec fn opened_exactly(opened: EntrySight, at_path: EntrySight) -> bool {
    opened.kind == EntryKind::File && at_path.kind == EntryKind::File && at_path.device
        == opened.device && at_path.inode == opened.inode
}

/// The operation that opening a file waits for.
#[derive(Clone, Copy, Debug, PartialEq, Eq, Structural)]
pub enum OpenStage {
    /// Looking at the name, where opening it could follow a link.
    Inspect,
    Open,
    /// Looking at the open file.
    Identify,
    /// Looking at the name once more.
    Recheck { opened: EntrySight },
}

/// What the operation gave.
#[derive(Debug, PartialEq, Eq)]
pub enum OpenReply {
    Sight(Result<EntrySight, Fault>),
    Done(Result<(), Fault>),
}

/// What opening a file does next.
#[derive(Debug, PartialEq, Eq)]
pub enum OpenStep {
    Await(OpenStage),
    Finished(Result<(), Fault>),
}

/// Whether opening a file ends with a failure.
pub open spec fn open_fails(step: OpenStep, messages: Seq<Seq<char>>) -> bool {
    step matches OpenStep::Finished(Err(fault)) && fault@ == messages
}

/// What opening a file begins with.
pub open spec fn first_open_stage(platform: Platform) -> OpenStage {
    if platform == Platform::Windows {
        OpenStage::Inspect
    } else {
        OpenStage::Open
    }
}

/// What opening a file does next. On Windows the name must show a regular file
/// before it is opened; elsewhere it must still show the opened one afterwards.
pub open spec fn open_next(
    platform: Platform,
    path: Seq<char>,
    stage: OpenStage,
    reply: OpenReply,
    step: OpenStep,
) -> bool {
    match (stage, reply) {
        (OpenStage::Inspect, OpenReply::Sight(Err(error))) => open_fails(
            step,
            seq!["inspecting transaction file "@ + path] + error@,
        ),
        (OpenStage::Inspect, OpenReply::Sight(Ok(before))) => if before.kind == EntryKind::File {
            step == OpenStep::Await(OpenStage::Open)
        } else {
            open_fails(step, seq!["transaction path is not a direct regular file: "@ + path])
        },
        (OpenStage::Open, OpenReply::Done(Err(error))) => open_fails(
            step,
            seq![
                (if platform == Platform::Windows {
                    "opening transaction file "@
                } else {
                    "opening direct transaction file "@
                }) + path,
            ] + error@,
        ),
        (OpenStage::Open, OpenReply::Done(Ok(_))) => step == OpenStep::Await(OpenStage::Identify),
        (OpenStage::Identify, OpenReply::Sight(Err(error))) => open_fails(
            step,
            seq!["identifying transaction file "@ + path] + error@,
        ),
        (OpenStage::Identify, OpenReply::Sight(Ok(opened))) => if platform != Platform::Windows {
            step == OpenStep::Await(OpenStage::Recheck { opened })
        } else if opened.kind == EntryKind::File {
            step matches OpenStep::Finished(Ok(_))
        } else {
            open_fails(step, seq!["transaction file changed while it was opened: "@ + path])
        },
        (OpenStage::Recheck { .. }, OpenReply::Sight(Err(error))) => open_fails(
            step,
            seq!["rechecking transaction path "@ + path] + error@,
        ),
        (OpenStage::Recheck { opened }, OpenReply::Sight(Ok(at_path))) => if opened_exactly(
            opened,
            at_path,
        ) {
            step matches OpenStep::Finished(Ok(_))
        } else {
            open_fails(step, seq!["transaction file changed while it was opened: "@ + path])
        },
        _ => open_fails(step, misfit()),
    }
}

fn open_fault(fault: Fault) -> (r: OpenStep)
    ensures
        open_fails(r, fault@),
{
    OpenStep::Finished(Err(fault))
}

/// What opening a file begins with.
pub fn begin_open_direct_regular(platform: Platform) -> (r: OpenStage)
    ensures
        r == first_open_stage(platform),
{
    if platform == Platform::Windows {
        OpenStage::Inspect
    } else {
        OpenStage::Open
    }
}

/// What opening a regular file by its direct name does next. It starts with what
/// `begin_open_direct_regular` gives.
pub fn open_direct_regular(platform: Platform, path: &str, stage: OpenStage, reply: OpenReply) -> (r:
    OpenStep)
    ensures
        open_next(platform, path@, stage, reply, r),
{
    match (stage, reply) {
        (OpenStage::Inspect, OpenReply::Sight(Err(error))) => open_fault(
            error.context(join2("inspecting transaction file ", path)),
        ),
        (OpenStage::Inspect, OpenReply::Sight(Ok(before))) => {
            if before.kind == EntryKind::File {
                OpenStep::Await(OpenStage::Open)
            } else {
                open_fault(
                    Fault::from_text(join2("transaction path is not a direct regular file: ", path)),
                )
            }
        },
        (OpenStage::Open, OpenReply::Done(Err(error))) => {
            let what = if platform == Platform::Windows {
                "opening transaction file "
            } else {
                "opening direct transaction file "
            };
            open_fault(error.context(join2(what, path)))
        },
        (OpenStage::Open, OpenReply::Done(Ok(()))) => OpenStep::Await(OpenStage::Identify),
        (OpenStage::Identify, OpenReply::Sight(Err(error))) => open_fault(
            error.context(join2("identifying transaction file ", path)),
        ),
        (OpenStage::Identify, OpenReply::Sight(Ok(opened))) => {
            if platform != Platform::Windows {
                OpenStep::Await(OpenStage::Recheck { opened })
            } else if opened.kind == EntryKind::File {
                OpenStep::Finished(Ok(()))
            } else {
                open_fault(
                    Fault::from_text(join2("transaction file changed while it was opened: ", path)),
                )
            }
        },
        (OpenStage::Recheck { opened: _ }, OpenReply::Sight(Err(error))) => open_fault(
            error.context(join2("rechecking transaction path ", path)),
        ),
        (OpenStage::Recheck { opened }, OpenReply::Sight(Ok(at_path))) => {
            if opened.kind == EntryKind::File && at_path.kind == EntryKind::File && at_path.device
                == opened.device && at_path.inode == opened.inode {
                OpenStep::Finished(Ok(()))
            } else {
                open_fault(
                    Fault::from_text(join2("transaction file changed while it was opened: ", path)),
                )
            }
        },
        _ => open_fault(misfit_fault()),
    }
}

/// A look at a component of a directory's path.
#[derive(Clone, Copy, Debug, PartialEq, Eq, Structural)]
pub enum DirectoryLook {
    /// The parent of a transaction's file.
    Parent,
    /// A component that is held open.
    Pinned,
}

/// What a look at a directory begins with.
pub open spec fn look_words(look: DirectoryLook) -> (Seq<char>, Seq<char>) {
    match look {
        DirectoryLook::Parent => (
            "inspecting transaction directory "@,
            "transaction parent is not a direct directory: "@,
        ),
        DirectoryLook::Pinned => (
            "identifying pinned Windows directory component "@,
            "pinned Windows path component is not a direct directory: "@,
        ),
    }
}

/// A component of a directory's path must be a directory and no link.
pub fn validate_direct_directory(look: DirectoryLook, path: &str, kind: Result<EntryKind, Fault>) -> (r:
    Result<(), Fault>)
    ensures
        match kind {
            Err(error) => r matches Err(fault) && fault@ == seq![look_words(look).0 + path@]
                + error@,
            Ok(kind) => if kind == EntryKind::Directory {
                r is Ok
            } else {
                r matches Err(fault) && fault@ == seq![look_words(look).1 + path@]
            },
        },
{
    let (inspecting, wrong) = match look {
        DirectoryLook::Parent => (
            "inspecting transaction directory ",
            "transaction parent is not a direct directory: ",
        ),
        DirectoryLook::Pinned => (
            "identifying pinned Windows directory component ",
            "pinned Windows path component is not a direct directory: ",
        ),
    };
    match kind {
        Err(error) => Err(error.context(join2(inspecting, path))),
        Ok(kind) => if kind == EntryKind::Directory {
            Ok(())
        } else {
            Err(Fault::from_text(join2(wrong, path)))
        },
    }
}

// -- Windows names --

/// A name as Windows reads it: it holds no zero, and one ends it.
pub fn wide_path(units: Vec<u16>, display: &str) -> (r: Result<Vec<u16>, Fault>)
    ensures
        if units@.contains(0) {
            r matches Err(fault) && fault@ == seq![
                "transaction path contains a NUL character: "@ + display@,
            ]
        } else {
            r matches Ok(wide) && wide@ == units@.push(0)
        },
{
    let mut i: usize = 0;
    while i < units.len()
        invariant
            i <= units@.len(),
            forall|k: int| 0 <= k < i ==> units@[k] != 0,
        decreases units@.len() - i,
    {
        if units[i] == 0 {
            assert(units@.contains(0));
            return Err(
                Fault::from_text(join2("transaction path contains a NUL character: ", display)),
            );
        }
        i = i + 1;
    }
    let mut wide = units;
    wide.push(0);
    Ok(wide)
}

/// The lengths that a rename hands to Windows: of the new name and of the whole
/// request, both in bytes.
pub open spec fn rename_lengths(units: nat, header: nat) -> Result<
    (nat, nat),
    Seq<Seq<char>>,
> {
    let name = 2 * units;
    if name > usize::MAX {
        Err(seq!["Windows rename destination length overflow"@])
    } else if name > u32::MAX {
        Err(
            seq![
                "Windows rename destination exceeds the platform length limit"@,
                u32_narrowing_refusal(name as usize),
            ],
        )
    } else if header + name > usize::MAX {
        Err(seq!["Windows rename information length overflow"@])
    } else if header + name > u32::MAX {
        Err(
            seq![
                "Windows rename information exceeds the platform length limit"@,
                u32_narrowing_refusal((header + name) as usize),
            ],
        )
    } else {
        Ok((name, header + name))
    }
}

/// The lengths of a rename to a name of so many units, behind a header of so
/// many bytes.
pub fn rename_information_lengths(units: usize, header: usize) -> (r: Result<(u32, u32), Fault>)
    ensures
        match (r, rename_lengths(units as nat, header as nat)) {
            (Ok((name, whole)), Ok(lengths)) => name == lengths.0 && whole == lengths.1,
            (Err(fault), Err(messages)) => fault@ == messages,
            _ => false,
        },
{
    let name: usize = match units.checked_mul(2) {
        None => {
            return Err(Fault::of("Windows rename destination length overflow"));
        },
        Some(name) => name,
    };
    if name as u64 > u32::MAX as u64 {
        return Err(
            Fault::because(
                "Windows rename destination exceeds the platform length limit",
                u32_narrowing_words(name),
            ),
        );
    }
    let whole: usize = match header.checked_add(name) {
        None => {
            return Err(Fault::of("Windows rename information length overflow"));
        },
        Some(whole) => whole,
    };
    if whole as u64 > u32::MAX as u64 {
        return Err(
            Fault::because(
                "Windows rename information exceeds the platform length limit",
                u32_narrowing_words(whole),
            ),
        );
    }
    Ok((name as u32, whole as u32))
}

/// Where a rename can lead: to a name that is not empty and holds no zero. The
/// lengths of its request behind a header of so many bytes.
pub fn rename_information(units: &[u16], header: usize, display: &str) -> (r: Result<
    (u32, u32),
    Fault,
>)
    ensures
        if units@.len() == 0 || units@.contains(0) {
            r matches Err(fault) && fault@ == seq![
                "Windows rename destination is empty or contains a NUL character: "@ + display@,
            ]
        } else {
            match (r, rename_lengths(units@.len(), header as nat)) {
                (Ok((name, whole)), Ok(lengths)) => name == lengths.0 && whole == lengths.1,
                (Err(fault), Err(messages)) => fault@ == messages,
                _ => false,
            }
        },
{
    let mut refused = units.len() == 0;
    let mut i: usize = 0;
    while i < units.len()
        invariant
            i <= units@.len(),
            refused <==> units@.len() == 0 || exists|k: int|
                0 <= k < i && #[trigger] units@[k] == 0,
        decreases units@.len() - i,
    {
        if units[i] == 0 {
            refused = true;
        }
        i = i + 1;
    }
    if refused {
        return Err(
            Fault::from_text(
                join2(
                    "Windows rename destination is empty or contains a NUL character: ",
                    display,
                ),
            ),
        );
    }
    rename_information_lengths(units.len(), header)
}

// -- Deleting --

/// The operation that deleting a quarantined file through its handle waits for.
#[derive(Clone, Copy, Debug, PartialEq, Eq, Structural)]
pub enum QuarantineStage {
    /// Looking at the quarantine name.
    Inspect,
    Open,
    /// Reading the token of the open file.
    Identify,
    /// Marking the open file for deletion.
    Mark,
    /// Closing the file, then looking at the quarantine name.
    Confirm,
}

/// What the operation gave.
#[derive(Debug, PartialEq, Eq)]
pub enum QuarantineReply {
    Kind(Result<EntryKind, Fault>),
    Done(Result<(), Fault>),
    Token(Result<FileToken, Fault>),
    Sight(Result<Option<FileToken>, Fault>),
}

/// What the deletion does next.
#[derive(Debug, PartialEq, Eq)]
pub enum QuarantineStep {
    Await(QuarantineStage),
    Finished(Result<RemoveExactOutcome, Fault>),
}

/// Whether the deletion ends with a failure.
pub open spec fn quarantine_fails(step: QuarantineStep, messages: Seq<Seq<char>>) -> bool {
    step matches QuarantineStep::Finished(Err(fault)) && fault@ == messages
}

/// What the deletion does next: the open file is marked only where it is the
/// expected one.
pub open spec fn quarantine_next(
    path: Seq<char>,
    expected: FileToken,
    stage: QuarantineStage,
    reply: QuarantineReply,
    step: QuarantineStep,
) -> bool {
    match (stage, reply) {
        (QuarantineStage::Inspect, QuarantineReply::Kind(Err(error))) => quarantine_fails(
            step,
            seq!["inspecting quarantined file "@ + path] + error@,
        ),
        (QuarantineStage::Inspect, QuarantineReply::Kind(Ok(kind))) => if kind == EntryKind::File {
            step == QuarantineStep::Await(QuarantineStage::Open)
        } else {
            quarantine_fails(step, seq!["quarantine is not a direct regular file: "@ + path])
        },
        (QuarantineStage::Open, QuarantineReply::Done(Err(error))) => quarantine_fails(
            step,
            seq!["opening exact quarantined file "@ + path] + error@,
        ),
        (QuarantineStage::Open, QuarantineReply::Done(Ok(_))) => step == QuarantineStep::Await(
            QuarantineStage::Identify,
        ),
        (QuarantineStage::Identify, QuarantineReply::Token(Err(error))) => quarantine_fails(
            step,
            error@,
        ),
        (QuarantineStage::Identify, QuarantineReply::Token(Ok(token))) => if token@ == expected@ {
            step == QuarantineStep::Await(QuarantineStage::Mark)
        } else {
            quarantine_fails(
                step,
                seq!["quarantined file changed before handle-bound deletion: "@ + path],
            )
        },
        (QuarantineStage::Mark, QuarantineReply::Done(Err(error))) => quarantine_fails(
            step,
            seq!["marking exact quarantine for deletion "@ + path] + error@,
        ),
        (QuarantineStage::Mark, QuarantineReply::Done(Ok(_))) => step == QuarantineStep::Await(
            QuarantineStage::Confirm,
        ),
        (QuarantineStage::Confirm, QuarantineReply::Sight(Err(error))) => quarantine_fails(
            step,
            error@,
        ),
        (QuarantineStage::Confirm, QuarantineReply::Sight(Ok(found))) => if found is Some {
            quarantine_fails(
                step,
                seq![
                    "handle-bound deletion did not remove the exact quarantine namespace entry: "@
                        + path,
                ],
            )
        } else {
            step == QuarantineStep::Finished(Ok(RemoveExactOutcome::Removed))
        },
        _ => quarantine_fails(step, misfit()),
    }
}

fn quarantine_fault(fault: Fault) -> (r: QuarantineStep)
    ensures
        quarantine_fails(r, fault@),
{
    QuarantineStep::Finished(Err(fault))
}

/// What deleting a quarantined file through its open handle does next. It starts
/// with `QuarantineStage::Inspect`.
pub fn remove_quarantined_exact(
    path: &str,
    expected: &FileToken,
    stage: QuarantineStage,
    reply: QuarantineReply,
) -> (r: QuarantineStep)
    ensures
        quarantine_next(path@, *expected, stage, reply, r),
{
    match (stage, reply) {
        (QuarantineStage::Inspect, QuarantineReply::Kind(Err(error))) => quarantine_fault(
            error.context(join2("inspecting quarantined file ", path)),
        ),
        (QuarantineStage::Inspect, QuarantineReply::Kind(Ok(kind))) => {
            if kind == EntryKind::File {
                QuarantineStep::Await(QuarantineStage::Open)
            } else {
                quarantine_fault(
                    Fault::from_text(join2("quarantine is not a direct regular file: ", path)),
                )
            }
        },
        (QuarantineStage::Open, QuarantineReply::Done(Err(error))) => quarantine_fault(
            error.context(join2("opening exact quarantined file ", path)),
        ),
        (QuarantineStage::Open, QuarantineReply::Done(Ok(()))) => QuarantineStep::Await(
            QuarantineStage::Identify,
        ),
        (QuarantineStage::Identify, QuarantineReply::Token(Err(error))) => quarantine_fault(error),
        (QuarantineStage::Identify, QuarantineReply::Token(Ok(token))) => {
            if token.same(expected) {
                QuarantineStep::Await(QuarantineStage::Mark)
            } else {
                quarantine_fault(
                    Fault::from_text(
                        join2("quarantined file changed before handle-bound deletion: ", path),
                    ),
                )
            }
        },
        (QuarantineStage::Mark, QuarantineReply::Done(Err(error))) => quarantine_fault(
            error.context(join2("marking exact quarantine for deletion ", path)),
        ),
        (QuarantineStage::Mark, QuarantineReply::Done(Ok(()))) => QuarantineStep::Await(
            QuarantineStage::Confirm,
        ),
        (QuarantineStage::Confirm, QuarantineReply::Sight(Err(error))) => quarantine_fault(error),
        (QuarantineStage::Confirm, QuarantineReply::Sight(Ok(found))) => {
            if found.is_some() {
                quarantine_fault(
                    Fault::from_text(
                        join2(
                            "handle-bound deletion did not remove the exact quarantine namespace entry: ",
                            path,
                        ),
                    ),
                )
            } else {
                QuarantineStep::Finished(Ok(RemoveExactOutcome::Removed))
            }
        },
        _ => quarantine_fault(misfit_fault()),
    }
}

// -- Laws --

/// A file is opened only where it is regular: on Windows its name showed a regular
/// file before, elsewhere the name still shows the opened file afterwards.
pub proof fn law_only_a_direct_file_is_opened(
    platform: Platform,
    path: Seq<char>,
    stage: OpenStage,
    reply: OpenReply,
    step: OpenStep,
)
    requires
        open_next(platform, path, stage, reply, step),
    ensures
        step matches OpenStep::Finished(Ok(_)) ==> (reply matches OpenReply::Sight(Ok(sight))
            && sight.kind == EntryKind::File && if platform == Platform::Windows {
            stage == OpenStage::Identify || stage == (OpenStage::Recheck { opened: sight })
        } else {
            stage == (OpenStage::Recheck { opened: sight })
        }),
        step == OpenStep::Await(OpenStage::Open) ==> (reply matches OpenReply::Sight(Ok(sight))
            && sight.kind == EntryKind::File),
{
}

/// Deletion is bound to the verified handle: the open file is marked only right
/// after its token was seen to be the expected one, and the deletion is reported
/// only where the name shows nothing afterwards.
pub proof fn law_only_the_expected_file_is_marked(
    path: Seq<char>,
    expected: FileToken,
    stage: QuarantineStage,
    reply: QuarantineReply,
    step: QuarantineStep,
)
    requires
        quarantine_next(path, expected, stage, reply, step),
    ensures
        step == QuarantineStep::Await(QuarantineStage::Mark) ==> stage == QuarantineStage::Identify
            && (reply matches QuarantineReply::Token(Ok(token)) && token@ == expected@),
        step == QuarantineStep::Await(QuarantineStage::Confirm) ==> stage == QuarantineStage::Mark,
        step matches QuarantineStep::Finished(Ok(_)) ==> stage == QuarantineStage::Confirm && reply
            == QuarantineReply::Sight(Ok(None)),
{
}

} // verus!
