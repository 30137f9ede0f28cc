//! What the file transactions bring about, and what a failure on the way says.
use vstd::prelude::*;

use crate::cause::stems_from;
use crate::creation::{
    create_exclusive, Creation, CreationKind, CreationReply, CreationStage, CreationStep,
};
use crate::direct_file::{
    admit_move, begin_open_direct_regular, open_direct_regular, remove_quarantined_exact,
    rename_information_lengths, replace_with_displaced, validate_direct_directory, wide_path,
    DirectoryLook, EntryKind, OpenReply, OpenStage, OpenStep, QuarantineReply, QuarantineStage,
    QuarantineStep, SiblingMove,
};
use crate::directory_rename::{
    direct_parent, rename_directory_noreplace_durable, DirectoryRename, DirectoryRenameOutcome,
    DirectoryRenameReply, DirectoryRenameStage, DirectoryRenameStep,
};
use crate::fault::Fault;
use crate::fs_ops::{
    law_token_round_trip, token_for_file, CreateExactOutcome, FileSnapshot, FileToken,
    RemoveExactOutcome,
};
use crate::host_path::{HostPath, Platform};
use crate::installer_fs::{
    exchange_exact, execute, move_noreplace_exact, replace_with_displaced_exact,
    require_operation_support, required_token, ExchangeReply, ExchangeStage, ExchangeStep,
    InstallerFileArguments, InstallerFileOperation, InstallerFilePlan, MoveReply, MoveStage,
    MoveStep, Recovery, ReplaceName, ReplaceReply, ReplaceStage, ReplaceStep,
};
use crate::outside::sha256;
use crate::removal::{
    ensure_path_token, remove_exact, Removal, RemovalReply, RemovalStage, RemovalStep,
};

verus! {

// -- Tokens --

/// A token that was written out is read back.
pub proof fn law_a_written_token_is_read_back(
    token: &FileToken,
    text: String,
    value: &str,
    r: Result<FileToken, Fault>,
)
    requires
        call_ensures(FileToken::to_text, (token,), text),
        call_ensures(FileToken::from_str, (value,), r),
        value@ == text@,
    ensures
        r matches Ok(read) && read@ == token@,
{
    law_token_round_trip(*token);
}

/// Files with other identities or other contents have other tokens, and what was
/// hashed between two equal sights has a token that stands for its bytes.
pub proof fn law_a_token_stands_for_one_file(
    before: FileSnapshot,
    content: &[u8],
    after: FileSnapshot,
    r: Result<FileToken, Fault>,
    token: &FileToken,
    stands: bool,
)
    requires
        call_ensures(token_for_file, (before, content, after), r),
        call_ensures(FileToken::matches_bytes, (token, content), stands),
    ensures
        r is Ok <==> before == after,
        r matches Ok(t) ==> (t == *token ==> stands) && t.identity_high == before.identity_high
            && t.identity_low == before.identity_low,
        stands <==> token.digest@ == sha256(content@),
{
}

/// Equality of tokens is reflexive and symmetric, and equal tokens stand for equal
/// contents.
pub proof fn law_tokens_are_the_same_alike(
    a: &FileToken,
    b: &FileToken,
    ab: bool,
    ba: bool,
    contents: bool,
)
    requires
        call_ensures(FileToken::same, (a, b), ab),
        call_ensures(FileToken::same, (b, a), ba),
        call_ensures(FileToken::same_contents, (a, b), contents),
    ensures
        ab == ba,
        *a == *b ==> ab,
        ab ==> contents && a.identity_high == b.identity_high && a.identity_low == b.identity_low,
        contents && a.identity_high == b.identity_high && a.identity_low == b.identity_low ==> ab,
        contents <==> a.digest@ == b.digest@,
{
}

/// The file at a path passes exactly as the one that is expected there.
pub proof fn law_only_the_expected_token_passes(
    observed: &FileToken,
    path: &str,
    expected: &FileToken,
    purpose: &str,
    r: Result<(), Fault>,
)
    requires
        call_ensures(ensure_path_token, (observed, path, expected, purpose), r),
    ensures
        r is Ok <==> observed.identity_high == expected.identity_high && observed.identity_low
            == expected.identity_low && observed.digest@ == expected.digest@,
{
}

// -- Creating --

/// A copy of an unchanged source is created, written, given its permissions and
/// flushed, both are looked at again, and it is done with what was written.
pub proof fn law_a_copy_is_created(
    creation: &Creation,
    expected: FileToken,
    stage: CreationStage,
    reply: CreationReply,
    step: CreationStep,
)
    requires
        call_ensures(create_exclusive, (creation, stage, reply), step),
        creation.kind matches CreationKind::Copy { expected: e, .. } && e == expected,
    ensures
        stage is BindSource ==> (reply matches CreationReply::Token(token) ==> (token@ == expected@
            <==> step == CreationStep::Await(CreationStage::Create))),
        stage is Create && reply is Done ==> step == CreationStep::Await(CreationStage::Write),
        stage is Write && reply is Done ==> step == CreationStep::Await(
            CreationStage::SetPermissions,
        ),
        stage is SetPermissions && reply is Done ==> step == CreationStep::Await(
            CreationStage::FlushFile,
        ),
        stage is FlushFile && reply is Done ==> step == CreationStep::Await(
            CreationStage::BindWritten,
        ),
        stage is BindWritten ==> (reply matches CreationReply::Token(token) ==> step
            == CreationStep::Await(CreationStage::RebindSource { written: token })),
        stage matches CreationStage::RebindSource { written } ==> (reply matches
            CreationReply::Token(token) ==> if token@ == expected@ {
            step == CreationStep::Await(CreationStage::RebindPath { written })
        } else {
            step matches CreationStep::Await(CreationStage::RemoveResidue { residue, .. })
                && residue == written
        }),
        stage matches CreationStage::RebindPath { written } ==> (reply matches CreationReply::Token(
            token,
        ) ==> if token@ == expected@ && written.digest@ == expected.digest@ {
            step == CreationStep::Await(CreationStage::BindDestination { written })
        } else {
            step matches CreationStep::Await(CreationStage::RemoveResidue { residue, .. })
                && residue == written
        }),
        stage matches CreationStage::BindDestination { written } ==> (reply matches
            CreationReply::Token(token) ==> if token@ != written@ {
            step matches CreationStep::Await(CreationStage::RemoveResidue { residue, .. })
                && residue == written
        } else if creation.flushes_directories {
            step == CreationStep::Await(CreationStage::Flush { written })
        } else {
            step == CreationStep::Finished(Ok(CreateExactOutcome::Created(written)))
        }),
        stage matches CreationStage::Flush { written } ==> {
            &&& reply is Done ==> step == CreationStep::Finished(
                Ok(CreateExactOutcome::Created(written)),
            )
            &&& reply is Failed ==> step == CreationStep::Finished(
                Ok(CreateExactOutcome::CreatedNamespaceDurabilityUnconfirmed(written)),
            )
        },
{
}

/// An empty file is created and flushed, its name is looked at, and it is done with
/// what was created.
pub proof fn law_an_empty_file_is_created(
    creation: &Creation,
    stage: CreationStage,
    reply: CreationReply,
    step: CreationStep,
)
    requires
        call_ensures(create_exclusive, (creation, stage, reply), step),
        creation.kind is Empty,
    ensures
        stage is Create && reply is Done ==> step == CreationStep::Await(CreationStage::FlushFile),
        stage is FlushFile && reply is Done ==> step == CreationStep::Await(
            CreationStage::BindWritten,
        ),
        stage is BindWritten ==> (reply matches CreationReply::Token(token) ==> step
            == CreationStep::Await(CreationStage::BindDestination { written: token })),
        stage matches CreationStage::BindDestination { written } ==> (reply matches
            CreationReply::Token(token) ==> if token@ != written@ {
            step matches CreationStep::Await(CreationStage::BindResidue { .. })
        } else if creation.flushes_directories {
            step == CreationStep::Await(CreationStage::Flush { written })
        } else {
            step == CreationStep::Finished(Ok(CreateExactOutcome::Created(written)))
        }),
{
}

/// A creation that fails after the file was created removes what it wrote, and the
/// failure says what failed first.
pub proof fn law_a_failed_creation_says_why(
    creation: &Creation,
    stage: CreationStage,
    reply: CreationReply,
    step: CreationStep,
)
    requires
        call_ensures(create_exclusive, (creation, stage, reply), step),
    ensures
        stage is BindSource || stage is Create ==> (reply matches CreationReply::Failed(error) ==> (
        step matches CreationStep::Finished(Err(fault)) && stems_from(fault@, error@))),
        (stage is Write && creation.kind is Copy) || stage is SetPermissions || stage is FlushFile
            || stage is BindWritten ==> (reply matches CreationReply::Failed(error) ==> (step
            matches CreationStep::Await(CreationStage::BindResidue { cause }) && stems_from(
            cause@,
            error@,
        ))),
        stage matches CreationStage::RebindSource { written } ==> (reply matches
            CreationReply::Failed(error) ==> (step matches CreationStep::Await(
            CreationStage::RemoveResidue { cause, residue },
        ) && residue == written && stems_from(cause@, error@))),
        stage matches CreationStage::RebindPath { written } ==> (reply matches
            CreationReply::Failed(error) ==> (step matches CreationStep::Await(
            CreationStage::RemoveResidue { cause, residue },
        ) && residue == written && stems_from(cause@, error@))),
        stage matches CreationStage::BindResidue { cause: first } ==> {
            &&& reply matches CreationReply::Token(token) ==> (step matches CreationStep::Await(
                CreationStage::RemoveResidue { cause, residue },
            ) && residue == token && cause@ == first@)
            &&& reply is Failed ==> (step matches CreationStep::Finished(Err(fault)) && stems_from(
                fault@,
                first@,
            ))
        },
        stage matches CreationStage::RemoveResidue { cause, .. } ==> (reply is Removed || reply
            is Failed ==> (step matches CreationStep::Finished(Err(fault)) && stems_from(
            fault@,
            cause@,
        ))),
{
}

// -- Removing --

/// The expected file is moved aside, seen under its quarantine name, unlinked and gone;
/// where directories cannot be flushed it is deleted by its handle.
pub proof fn law_an_expected_file_is_removed(
    removal: &Removal,
    stage: RemovalStage,
    reply: RemovalReply,
    step: RemovalStep,
)
    requires
        call_ensures(remove_exact, (removal, stage, reply), step),
    ensures
        stage is Bind ==> (reply matches RemovalReply::Token(token) ==> if token@
            == removal.expected@ {
            step == RemovalStep::Await(RemovalStage::MoveAside)
        } else {
            step matches RemovalStep::Finished(Err(_))
        }),
        stage is MoveAside && reply is Done ==> step == RemovalStep::Await(
            RemovalStage::Observe { boundary: None },
        ),
        stage is MoveAside ==> (reply matches RemovalReply::Failed(error) ==> step
            == RemovalStep::Await(RemovalStage::Observe { boundary: Some(error) })),
        stage is Observe ==> (reply matches RemovalReply::Sights { quarantine: Some(moved), .. }
            ==> (moved@ == removal.expected@ ==> step == RemovalStep::Await(
            if removal.flushes_directories {
                RemovalStage::BindQuarantine
            } else {
                RemovalStage::RemoveByHandle
            },
        ))),
        stage is BindQuarantine ==> (reply matches RemovalReply::Token(token) ==> if token@
            == removal.expected@ {
            step == RemovalStep::Await(RemovalStage::Unlink)
        } else {
            step matches RemovalStep::Await(RemovalStage::ObserveCleanup { .. })
        }),
        stage is Unlink && reply is Done ==> step == RemovalStep::Await(RemovalStage::Flush),
        stage is Flush && reply is Done ==> step == RemovalStep::Finished(
            Ok(RemoveExactOutcome::Removed),
        ),
        stage is Flush && reply is Failed ==> step == RemovalStep::Finished(
            Ok(RemoveExactOutcome::RemovedNamespaceDurabilityUnconfirmed),
        ),
        stage is RemoveByHandle ==> (reply matches RemovalReply::Deleted(Ok(outcome)) ==> step
            == RemovalStep::Finished(Ok(outcome))),
{
}

/// What was moved aside instead of the expected file, or could not be unlinked, is put
/// back where its place is free and it is still the same; the removal then fails.
pub proof fn law_what_was_moved_wrongly_is_put_back(
    removal: &Removal,
    stage: RemovalStage,
    reply: RemovalReply,
    step: RemovalStep,
)
    requires
        call_ensures(remove_exact, (removal, stage, reply), step),
    ensures
        stage is Observe ==> (reply matches RemovalReply::Sights {
            source: None,
            quarantine: Some(moved),
        } ==> (moved@ != removal.expected@ ==> step == RemovalStep::Await(
            RemovalStage::RecheckSource { cleanup: None, occupant: moved },
        ))),
        stage matches RemovalStage::Observe { boundary } ==> (reply matches RemovalReply::Sights {
            source: Some(left),
            quarantine: None,
        } ==> (left@ == removal.expected@ ==> (step matches RemovalStep::Finished(Err(fault)) && (
        boundary matches Some(error) ==> stems_from(fault@, error@))))),
        stage is Unlink || stage is BindQuarantine ==> (reply matches RemovalReply::Failed(error)
            ==> (step matches RemovalStep::Await(RemovalStage::ObserveCleanup { cleanup })
            && stems_from(cleanup@, error@))),
        stage is RemoveByHandle ==> (reply matches RemovalReply::Deleted(Err(error)) ==> step
            == RemovalStep::Await(RemovalStage::ObserveCleanup { cleanup: error })),
        stage matches RemovalStage::ObserveCleanup { cleanup } ==> (reply matches
            RemovalReply::Sights { source: None, quarantine: Some(moved) } ==> (moved@
            == removal.expected@ ==> step == RemovalStep::Await(
            RemovalStage::RecheckSource { cleanup: Some(cleanup), occupant: moved },
        ))),
        stage matches RemovalStage::RecheckSource { cleanup, occupant } ==> (reply matches
            RemovalReply::Sight(found) ==> if found is None {
            step == RemovalStep::Await(RemovalStage::RecheckQuarantine { cleanup, occupant })
        } else {
            step matches RemovalStep::Finished(Err(_))
        }),
        stage matches RemovalStage::RecheckQuarantine { cleanup, occupant } ==> {
            &&& reply matches RemovalReply::Sight(Some(found)) ==> if found@ == occupant@ {
                step == RemovalStep::Await(RemovalStage::PutBack { cleanup, occupant })
            } else {
                step matches RemovalStep::Finished(Err(_))
            }
            &&& reply == RemovalReply::Sight(None) ==> (step matches RemovalStep::Finished(Err(_)))
        },
        stage matches RemovalStage::PutBack { cleanup, occupant } ==> {
            &&& reply is Done ==> step == RemovalStep::Await(
                RemovalStage::ObservePutBack { cleanup, occupant, restoration: None },
            )
            &&& reply matches RemovalReply::Failed(error) ==> step == RemovalStep::Await(
                RemovalStage::ObservePutBack { cleanup, occupant, restoration: Some(error) },
            )
        },
        stage is ObservePutBack ==> (step matches RemovalStep::Finished(Err(_))),
        stage is Bind || stage is Observe || stage is ObserveCleanup ==> (reply matches
            RemovalReply::Failed(error) ==> (step matches RemovalStep::Finished(Err(fault))
            && stems_from(fault@, error@))),
{
}

/// A quarantined file is deleted by its handle: a regular file is opened, and the
/// expected one is marked and gone. A failure says what failed.
pub proof fn law_a_quarantined_file_is_deleted(
    path: &str,
    expected: &FileToken,
    stage: QuarantineStage,
    reply: QuarantineReply,
    step: QuarantineStep,
)
    requires
        call_ensures(remove_quarantined_exact, (path, expected, stage, reply), step),
    ensures
        stage is Inspect ==> (reply matches QuarantineReply::Kind(Ok(kind)) ==> (kind
            == EntryKind::File <==> step == QuarantineStep::Await(QuarantineStage::Open))),
        stage is Open && (reply matches QuarantineReply::Done(Ok(_))) ==> step
            == QuarantineStep::Await(QuarantineStage::Identify),
        stage is Identify ==> (reply matches QuarantineReply::Token(Ok(token)) ==> (token@
            == expected@ <==> step == QuarantineStep::Await(QuarantineStage::Mark))),
        stage is Mark && (reply matches QuarantineReply::Done(Ok(_))) ==> step
            == QuarantineStep::Await(QuarantineStage::Confirm),
        stage is Confirm ==> (reply matches QuarantineReply::Sight(Ok(found)) ==> (found is None
            <==> step == QuarantineStep::Finished(Ok(RemoveExactOutcome::Removed)))),
        stage is Inspect ==> (reply matches QuarantineReply::Kind(Err(error)) ==> (step matches
            QuarantineStep::Finished(Err(fault)) && stems_from(fault@, error@))),
        stage is Open || stage is Mark ==> (reply matches QuarantineReply::Done(Err(error)) ==> (
        step matches QuarantineStep::Finished(Err(fault)) && stems_from(fault@, error@))),
{
}

// -- Opening --

/// A regular file that stays under its name is opened.
pub proof fn law_a_direct_file_is_opened(
    platform: Platform,
    path: &str,
    stage: OpenStage,
    reply: OpenReply,
    first: OpenStage,
    step: OpenStep,
)
    requires
        call_ensures(begin_open_direct_regular, (platform,), first),
        call_ensures(open_direct_regular, (platform, path, stage, reply), step),
    ensures
        first == OpenStage::Inspect <==> platform == Platform::Windows,
        first == OpenStage::Open <==> platform != Platform::Windows,
        stage is Inspect ==> (reply matches OpenReply::Sight(Ok(sight)) ==> (sight.kind
            == EntryKind::File <==> step == OpenStep::Await(OpenStage::Open))),
        stage is Open && (reply matches OpenReply::Done(Ok(_))) ==> step == OpenStep::Await(
            OpenStage::Identify,
        ),
        stage is Identify ==> (reply matches OpenReply::Sight(Ok(sight)) ==> if platform
            != Platform::Windows {
            step == OpenStep::Await(OpenStage::Recheck { opened: sight })
        } else {
            step matches OpenStep::Finished(r) && r is Ok == (sight.kind == EntryKind::File)
        }),
        stage matches OpenStage::Recheck { opened } ==> (reply matches OpenReply::Sight(Ok(sight))
            ==> (step matches OpenStep::Finished(r) && r is Ok == (sight.kind == EntryKind::File
            && sight == opened))),
        reply matches OpenReply::Sight(Err(error)) ==> (stage is Inspect || stage is Identify
            || stage is Recheck ==> (step matches OpenStep::Finished(Err(fault)) && stems_from(
            fault@,
            error@,
        ))),
        stage is Open ==> (reply matches OpenReply::Done(Err(error)) ==> (step matches
            OpenStep::Finished(Err(fault)) && stems_from(fault@, error@))),
{
}

/// Only a directory that is no link passes as a part of a transaction's path.
pub proof fn law_only_a_direct_directory_passes(
    look: DirectoryLook,
    path: &str,
    kind: Result<EntryKind, Fault>,
    r: Result<(), Fault>,
)
    requires
        call_ensures(validate_direct_directory, (look, path, kind), r),
    ensures
        r is Ok <==> kind == Ok::<EntryKind, Fault>(EntryKind::Directory),
        kind matches Err(error) ==> (r matches Err(fault) && stems_from(fault@, error@)),
{
}

/// A transaction's path has a parent and a plain file name, and gives exactly these.
pub proof fn law_a_direct_path_is_split(
    path: &HostPath,
    r: Result<(&String, &String), Fault>,
)
    requires
        call_ensures(direct_parent, (path,), r),
    ensures
        r is Ok <==> path.absolute && path.parent is Some && (path.file_name matches Some(name)
            && name@.len() > 0 && name@ != "."@ && name@ != ".."@),
        r matches Ok((parent, name)) ==> path.parent == Some(*parent) && path.file_name == Some(
            *name,
        ),
{
}

/// A move is admitted exactly between siblings, on a system that makes it in one step.
pub proof fn law_only_siblings_are_moved(
    platform: Platform,
    way: SiblingMove,
    source: &HostPath,
    destination: &HostPath,
    same_parent: bool,
    a: Result<(&String, &String), Fault>,
    b: Result<(&String, &String), Fault>,
    r: Result<(), Fault>,
)
    requires
        call_ensures(direct_parent, (source,), a),
        call_ensures(direct_parent, (destination,), b),
        call_ensures(admit_move, (platform, way, source, destination, same_parent), r),
    ensures
        r is Ok <==> a is Ok && b is Ok && same_parent && match way {
            SiblingMove::RenameNoReplace => platform != Platform::OtherUnix,
            SiblingMove::Exchange => platform == Platform::Linux || platform == Platform::MacOs,
        },
{
}

/// A replacement is admitted exactly between three siblings.
pub proof fn law_only_siblings_are_replaced(
    replacement: &HostPath,
    destination: &HostPath,
    displaced: &HostPath,
    same_parent: bool,
    a: Result<(&String, &String), Fault>,
    b: Result<(&String, &String), Fault>,
    c: Result<(&String, &String), Fault>,
    r: Result<(), Fault>,
)
    requires
        call_ensures(direct_parent, (replacement,), a),
        call_ensures(direct_parent, (destination,), b),
        call_ensures(direct_parent, (displaced,), c),
        call_ensures(
            replace_with_displaced,
            (replacement, destination, displaced, same_parent),
            r,
        ),
    ensures
        r is Ok <==> a is Ok && b is Ok && c is Ok && same_parent,
{
}

/// A name that Windows can read is the given one with one zero behind it.
pub proof fn law_a_wide_name_ends_in_its_only_zero(
    units: Vec<u16>,
    display: &str,
    r: Result<Vec<u16>, Fault>,
)
    requires
        call_ensures(wide_path, (units, display), r),
    ensures
        r is Ok <==> forall|i: int| 0 <= i < units@.len() ==> units@[i] != 0,
        r matches Ok(wide) ==> wide@.len() == units@.len() + 1 && wide@.last() == 0 && wide@.take(
            units@.len() as int,
        ) == units@,
{
    if r is Ok {
        assert forall|i: int| 0 <= i < units@.len() implies units@[i] != 0 by {
            assert(units@.contains(units@[i]));
        }
    }
}

/// The lengths of a rename count two bytes for every unit, and the header.
pub proof fn law_a_rename_is_measured_in_bytes(
    units: usize,
    header: usize,
    r: Result<(u32, u32), Fault>,
)
    requires
        call_ensures(rename_information_lengths, (units, header), r),
    ensures
        r is Ok <==> header + 2 * units <= u32::MAX,
        r matches Ok((name, whole)) ==> name == units + units && whole - name == header,
{
}

// -- Directories --

/// A directory is renamed: what was bound is renamed, found under the new name and
/// flushed. It is durable exactly if both parents were flushed.
pub proof fn law_a_directory_is_renamed(
    rename: &DirectoryRename,
    stage: DirectoryRenameStage,
    reply: DirectoryRenameReply,
    step: DirectoryRenameStep,
)
    requires
        call_ensures(rename_directory_noreplace_durable, (rename, stage, reply), step),
    ensures
        stage is Bind ==> (reply matches DirectoryRenameReply::Identity(identity) ==> step
            == DirectoryRenameStep::Await(DirectoryRenameStage::Rename { moved: identity })),
        stage matches DirectoryRenameStage::Rename { moved } ==> (reply is Done ==> step
            == DirectoryRenameStep::Await(DirectoryRenameStage::OpenPublished { moved })),
        stage matches DirectoryRenameStage::OpenPublished { moved } ==> {
            &&& reply matches DirectoryRenameReply::Identity(identity) ==> step
                == DirectoryRenameStep::Await(
                if identity == moved {
                    DirectoryRenameStage::FlushPublished
                } else {
                    DirectoryRenameStage::UndoDifferent { published: identity }
                },
            )
            &&& reply matches DirectoryRenameReply::Indirect(error) ==> (step matches
                DirectoryRenameStep::Await(DirectoryRenameStage::UndoIndirect { cause })
                && stems_from(cause@, error@))
        },
        stage is FlushPublished ==> (reply matches DirectoryRenameReply::Flushed {
            source,
            destination,
        } ==> (step matches DirectoryRenameStep::Finished(Ok(outcome)) && (outcome
            == DirectoryRenameOutcome::DurablyRenamed <==> source is None && destination is None))),
        stage matches DirectoryRenameStage::UndoDifferent { published } ==> {
            &&& reply is Done ==> step == DirectoryRenameStep::Await(
                DirectoryRenameStage::OpenRestored { published, rollback: None },
            )
            &&& reply matches DirectoryRenameReply::Failed(error) ==> step
                == DirectoryRenameStep::Await(
                DirectoryRenameStage::OpenRestored { published, rollback: Some(error) },
            )
        },
        stage matches DirectoryRenameStage::OpenRestored { published, rollback } ==> (reply matches
            DirectoryRenameReply::Identity(identity) ==> if rollback is None && identity
            == published {
            step == DirectoryRenameStep::Await(DirectoryRenameStage::FlushDifferent)
        } else {
            step matches DirectoryRenameStep::Finished(Err(_))
        }),
        stage matches DirectoryRenameStage::UndoIndirect { cause } ==> (reply is Done ==> step
            == DirectoryRenameStep::Await(DirectoryRenameStage::FlushIndirect { cause })),
        stage is Bind || stage is Rename || stage is OpenPublished ==> (reply matches
            DirectoryRenameReply::Failed(error) ==> (step matches DirectoryRenameStep::Finished(
            Err(fault),
        ) && stems_from(fault@, error@))),
        stage is FlushIndirect || stage is FlushDifferent ==> (step matches
            DirectoryRenameStep::Finished(Err(_))),
{
}

// -- The installer's operations --

/// An operation is planned with exactly what it was given, and is refused only where
/// something that it needs is missing or is no token.
pub proof fn law_an_operation_is_planned_as_given(
    operation: InstallerFileOperation,
    arguments: InstallerFileArguments,
    expected: Result<FileToken, Fault>,
    other: Result<FileToken, Fault>,
    r: Result<InstallerFilePlan, Fault>,
)
    requires
        call_ensures(execute, (operation, arguments), r),
        call_ensures(required_token, (&arguments.expected_token, "expected-token"), expected),
        call_ensures(
            required_token,
            (&arguments.expected_destination_token, "expected-destination-token"),
            other,
        ),
    ensures
        operation == InstallerFileOperation::Token ==> (r is Ok <==> arguments.source is Some) && (r
            matches Ok(plan) ==> (plan matches InstallerFilePlan::Token { source } && Some(source)
            == arguments.source)),
        operation == InstallerFileOperation::CopyExclusive ==> (r is Ok <==> arguments.source
            is Some && arguments.destination is Some && expected is Ok) && (r matches Ok(plan) ==> (
        plan matches InstallerFilePlan::CopyExclusive { source, destination, expected: e } && Some(
            source,
        ) == arguments.source && Some(destination) == arguments.destination && e@
            == expected->Ok_0@)),
        operation == InstallerFileOperation::CreateEmptyExclusive ==> (r is Ok
            <==> arguments.destination is Some) && (r matches Ok(plan) ==> (plan matches
            InstallerFilePlan::CreateEmptyExclusive { destination } && Some(destination)
            == arguments.destination)),
        operation == InstallerFileOperation::MoveNoreplace ==> (r is Ok <==> arguments.source
            is Some && arguments.destination is Some && expected is Ok) && (r matches Ok(plan) ==> (
        plan matches InstallerFilePlan::MoveNoreplace { source, destination, expected: e } && Some(
            source,
        ) == arguments.source && Some(destination) == arguments.destination && e@
            == expected->Ok_0@)),
        operation == InstallerFileOperation::Exchange ==> (r is Ok <==> arguments.source is Some
            && arguments.destination is Some && expected is Ok && other is Ok) && (r matches Ok(
            plan,
        ) ==> (plan matches InstallerFilePlan::Exchange {
            source,
            destination,
            expected: e,
            replaced,
        } && Some(source) == arguments.source && Some(destination) == arguments.destination && e@
            == expected->Ok_0@ && replaced@ == other->Ok_0@)),
        operation == InstallerFileOperation::ReplaceWithDisplaced ==> (r is Ok <==> arguments.source
            is Some && arguments.destination is Some && arguments.displaced is Some && expected
            is Ok && other is Ok) && (r matches Ok(plan) ==> (plan matches
            InstallerFilePlan::ReplaceWithDisplaced {
            source,
            destination,
            displaced,
            expected: e,
            replaced,
        } && Some(source) == arguments.source && Some(destination) == arguments.destination && Some(
            displaced,
        ) == arguments.displaced && e@ == expected->Ok_0@ && replaced@ == other->Ok_0@)),
        operation == InstallerFileOperation::RemoveOwned ==> (r is Ok <==> arguments.source is Some
            && expected is Ok) && (r matches Ok(plan) ==> (plan matches
            InstallerFilePlan::RemoveOwned { source, expected: e } && Some(source)
            == arguments.source && e@ == expected->Ok_0@)),
        operation == InstallerFileOperation::UserPathSnapshot <==> r == Ok::<
            InstallerFilePlan,
            Fault,
        >(InstallerFilePlan::UserPathSnapshot),
        operation == InstallerFileOperation::UserPathAdd ==> (r is Ok <==> arguments.source
            is Some) && (r matches Ok(plan) ==> (plan matches InstallerFilePlan::UserPathAdd {
            source,
        } && Some(source) == arguments.source)),
        operation == InstallerFileOperation::UserPathRemove ==> (r is Ok <==> arguments.source
            is Some) && (r matches Ok(plan) ==> (plan matches InstallerFilePlan::UserPathRemove {
            source,
        } && Some(source) == arguments.source)),
        operation == InstallerFileOperation::UserPathRestore ==> (r is Ok <==> arguments.source
            is Some) && (r matches Ok(plan) ==> (plan matches InstallerFilePlan::UserPathRestore {
            source,
        } && Some(source) == arguments.source)),
{
}

/// Two files are exchanged only where the system can, and a file is replaced with what
/// it displaces kept only on Windows; everything else works everywhere.
pub proof fn law_operations_work_where_the_system_has_them(
    platform: Platform,
    operation: InstallerFileOperation,
    r: Result<(), Fault>,
)
    requires
        call_ensures(require_operation_support, (platform, operation), r),
    ensures
        operation == InstallerFileOperation::Exchange ==> (r is Ok <==> platform == Platform::Linux
            || platform == Platform::MacOs || platform == Platform::OtherUnix),
        operation == InstallerFileOperation::ReplaceWithDisplaced ==> (r is Ok <==> platform
            == Platform::Windows),
        operation != InstallerFileOperation::Exchange && operation
            != InstallerFileOperation::ReplaceWithDisplaced ==> r is Ok,
{
}

/// A move without replacement renames the expected file, and succeeds where only the
/// new name shows it. A failure says what failed.
pub proof fn law_an_expected_file_is_moved(
    source_path: &str,
    destination_path: &str,
    expected: &FileToken,
    stage: MoveStage,
    reply: MoveReply,
    shown: String,
    step: MoveStep,
)
    requires
        call_ensures(
            move_noreplace_exact,
            (source_path, destination_path, expected, stage, reply),
            step,
        ),
        call_ensures(FileToken::to_text, (expected,), shown),
    ensures
        stage is BindSource ==> (reply matches MoveReply::Token(token) ==> (token@ == expected@
            <==> step == MoveStep::Await(MoveStage::Rename))),
        stage is Rename ==> (reply matches MoveReply::Moved {
            boundary,
            source: None,
            destination: Some(moved),
        } ==> (moved@ == expected@ ==> match boundary {
            None => step matches MoveStep::Finished(Ok(text)) && text@ == shown@,
            Some(error) => step matches MoveStep::Finished(Err(fault)) && stems_from(
                fault@,
                error@,
            ),
        })),
        stage is Rename ==> (reply matches MoveReply::Moved {
            boundary: Some(error),
            source: Some(left),
            destination: None,
        } ==> (left@ == expected@ ==> (step matches MoveStep::Finished(Err(fault)) && stems_from(
            fault@,
            error@,
        )))),
        reply matches MoveReply::Failed(error) ==> (step matches MoveStep::Finished(Err(fault))
            && stems_from(fault@, error@)),
{
}

/// An exchange of the two expected files succeeds where each name shows the other's;
/// where only one does, it is taken back after both were seen unchanged.
pub proof fn law_expected_files_are_exchanged(
    a: &FileToken,
    b: &FileToken,
    stage: ExchangeStage,
    reply: ExchangeReply,
    shown: String,
    step: ExchangeStep,
)
    requires
        call_ensures(exchange_exact, (a, b, stage, reply), step),
        call_ensures(FileToken::to_text, (a,), shown),
    ensures
        stage is BindSource ==> (reply matches ExchangeReply::Token(token) ==> (token@ == a@
            <==> step == ExchangeStep::Await(ExchangeStage::BindDestination))),
        stage is BindDestination ==> (reply matches ExchangeReply::Token(token) ==> (token@ == b@
            <==> step == ExchangeStep::Await(ExchangeStage::Exchange))),
        stage is Exchange ==> (reply matches ExchangeReply::Moved {
            boundary,
            source: Some(s),
            destination: Some(d),
        } ==> {
            &&& boundary is None && s@ == b@ && d@ == a@ ==> (step matches ExchangeStep::Finished(
                Ok(text),
            ) && text@ == shown@)
            &&& boundary is None && (s@ == b@) != (d@ == a@) ==> step == ExchangeStep::Await(
                ExchangeStage::RecheckSource { source: Some(s), destination: Some(d) },
            )
            &&& boundary is Some && s@ == a@ && d@ == b@ ==> (step matches ExchangeStep::Finished(
                Err(_),
            ))
        }),
        stage matches ExchangeStage::RecheckSource { source: Some(s), destination } ==> (reply
            matches ExchangeReply::Sight(Some(found)) ==> (found@ == s@ <==> step
            == ExchangeStep::Await(
            ExchangeStage::RecheckDestination { source: Some(s), destination },
        ))),
        stage matches ExchangeStage::RecheckDestination { source, destination: Some(d) } ==> (reply
            matches ExchangeReply::Sight(Some(found)) ==> (found@ == d@ <==> step
            == ExchangeStep::Await(ExchangeStage::Restore { source, destination: Some(d) }))),
        stage is Restore ==> (step matches ExchangeStep::Finished(Err(_))),
        reply matches ExchangeReply::Failed(error) ==> (step matches ExchangeStep::Finished(
            Err(fault),
        ) && stems_from(fault@, error@)),
{
}

/// A replacement of the expected file by the expected replacement succeeds where the
/// three names show it; what it left half done is taken back after each name was seen
/// unchanged.
pub proof fn law_an_expected_file_is_replaced(
    displaced_path: &str,
    replacement: &FileToken,
    destination: &FileToken,
    stage: ReplaceStage,
    reply: ReplaceReply,
    step: ReplaceStep,
)
    requires
        call_ensures(
            replace_with_displaced_exact,
            (displaced_path, replacement, destination, stage, reply),
            step,
        ),
    ensures
        stage is BindReplacement ==> (reply matches ReplaceReply::Token(token) ==> (token@
            == replacement@ <==> step == ReplaceStep::Await(ReplaceStage::BindDestination))),
        stage is BindDestination ==> (reply matches ReplaceReply::Token(token) ==> (token@
            == destination@ <==> step == ReplaceStep::Await(ReplaceStage::CheckDisplaced))),
        stage is CheckDisplaced ==> (reply matches ReplaceReply::Sight(found) ==> (found is None
            <==> step == ReplaceStep::Await(ReplaceStage::Replace))),
        stage is Replace ==> (reply matches ReplaceReply::Moved {
            boundary: None,
            replacement: None,
            destination: Some(d),
            displaced: Some(kept),
        } ==> {
            &&& d@ == replacement@ && kept@ == destination@ ==> (step matches ReplaceStep::Finished(
                Ok(_),
            ))
            &&& (d@ == replacement@) != (kept@ == destination@) ==> step == ReplaceStep::Await(
                ReplaceStage::Recheck {
                    name: ReplaceName::Replacement,
                    recovery: Recovery::Reverse { destination: d, displaced: kept },
                },
            )
        }),
        stage is Replace ==> (reply matches ReplaceReply::Moved {
            boundary,
            replacement: Some(left),
            destination: None,
            displaced: Some(kept),
        } ==> (left@ == replacement@ ==> step == ReplaceStep::Await(
            ReplaceStage::Recheck {
                name: ReplaceName::Replacement,
                recovery: Recovery::Restore { displaced: kept },
            },
        ))),
        stage matches ReplaceStage::Recheck { name, recovery: Recovery::Restore { displaced } } ==> (
        reply matches ReplaceReply::Sight(found) ==> {
            &&& name == ReplaceName::Replacement ==> (step == ReplaceStep::Await(
                ReplaceStage::Recheck {
                    name: ReplaceName::Destination,
                    recovery: Recovery::Restore { displaced },
                },
            ) <==> (found matches Some(f) && f@ == replacement@))
            &&& name == ReplaceName::Destination ==> (step == ReplaceStep::Await(
                ReplaceStage::Recheck {
                    name: ReplaceName::Displaced,
                    recovery: Recovery::Restore { displaced },
                },
            ) <==> found is None)
            &&& name == ReplaceName::Displaced ==> (step == ReplaceStep::Await(
                ReplaceStage::Recover { recovery: Recovery::Restore { displaced } },
            ) <==> (found matches Some(f) && f@ == displaced@))
        }),
        stage matches ReplaceStage::Recheck {
            name,
            recovery: Recovery::Reverse { destination: d, displaced },
        } ==> (reply matches ReplaceReply::Sight(found) ==> {
            &&& name == ReplaceName::Replacement ==> (step == ReplaceStep::Await(
                ReplaceStage::Recheck {
                    name: ReplaceName::Destination,
                    recovery: Recovery::Reverse { destination: d, displaced },
                },
            ) <==> found is None)
            &&& name == ReplaceName::Destination ==> (step == ReplaceStep::Await(
                ReplaceStage::Recheck {
                    name: ReplaceName::Displaced,
                    recovery: Recovery::Reverse { destination: d, displaced },
                },
            ) <==> (found matches Some(f) && f@ == d@))
            &&& name == ReplaceName::Displaced ==> (step == ReplaceStep::Await(
                ReplaceStage::Recover { recovery: Recovery::Reverse { destination: d, displaced } },
            ) <==> (found matches Some(f) && f@ == displaced@))
        }),
        stage is Recover ==> (step matches ReplaceStep::Finished(Err(_))),
        reply matches ReplaceReply::Failed(error) ==> (step matches ReplaceStep::Finished(
            Err(fault),
        ) && stems_from(fault@, error@)),
{
}

} // verus!
