//! Removal of exactly one file: it is moved aside, looked at again under its
//! quarantine name, and only then unlinked. Whatever else turns out to have
//! been moved is put back without replacing anything.
use vstd::prelude::*;

use crate::fault::{join2, join3, join5, joined, Fault};
use crate::fs_ops::{seen, shows, token_text, FileToken, RemoveExactOutcome, TokenView};
use crate::outside::{hex_encode, hex_text, random_nonce};

verus! {

/// The prefix of every quarantine name.
pub open spec fn quarantine_prefix() -> Seq<char> {
    ".codex-switch-global-pace.installer-quarantine-"@
}

/// The file name under which a file is quarantined.
pub fn quarantine_name(nonce: &[u8]) -> (r: String)
    ensures
        r@ == quarantine_prefix() + hex_text(nonce@),
{
    join2(".codex-switch-global-pace.installer-quarantine-", hex_encode(nonce).as_str())
}

/// A fresh quarantine name: the prefix and the hexadecimal form of sixteen
/// random bytes.
pub fn quarantine_path() -> (r: String)
    ensures
        exists|nonce: Seq<u8>|
            nonce.len() == 16 && r@ == quarantine_prefix() + #[trigger] hex_text(nonce),
{
    let nonce = random_nonce();
    let r = quarantine_name(nonce.as_slice());
    assert(nonce@.len() == 16);
    r
}

/// A file that is not the one expected.
pub open spec fn changed_text(
    purpose: Seq<char>,
    path: Seq<char>,
    expected: TokenView,
    observed: TokenView,
) -> Seq<char> {
    purpose + " changed at "@ + path + "; expected token "@ + token_text(expected) + ", observed "@
        + token_text(observed)
}

/// The failure of a file that is not the one expected.
pub fn changed_fault(purpose: &str, path: &str, expected: &FileToken, observed: &FileToken) -> (r:
    Fault)
    ensures
        r@ == seq![changed_text(purpose@, path@, expected@, observed@)],
{
    let mut text = join3(purpose, " changed at ", path);
    text.append("; expected token ");
    text.append(expected.to_text().as_str());
    text.append(", observed ");
    text.append(observed.to_text().as_str());
    Fault::from_text(text)
}

/// Fails unless the observed file is the expected one.
pub fn ensure_path_token(observed: &FileToken, path: &str, expected: &FileToken, purpose: &str) -> (r:
    Result<(), Fault>)
    ensures
        r is Ok <==> observed@ == expected@,
        r matches Err(fault) ==> fault@ == seq![
            changed_text(purpose@, path@, expected@, observed@),
        ],
{
    if observed.same(expected) {
        Ok(())
    } else {
        Err(changed_fault(purpose, path, expected, observed))
    }
}

/// What a removal works on.
#[derive(Debug, PartialEq, Eq)]
pub struct Removal {
    pub source: String,
    pub quarantine: String,
    pub expected: FileToken,
    /// Whether directory entries can be flushed here; where they cannot, the
    /// file is deleted through its open handle instead.
    pub flushes_directories: bool,
}

/// The operation that a removal waits for.
#[derive(Debug, PartialEq, Eq)]
pub enum RemovalStage {
    /// Reading the token at the source.
    Bind,
    /// Moving the source to its quarantine name without replacing anything.
    MoveAside,
    /// Looking at both names; `boundary` is how the move failed.
    Observe { boundary: Option<Fault> },
    /// Reading the token at the quarantine name.
    BindQuarantine,
    /// Unlinking the quarantine name.
    Unlink,
    /// Flushing the directory.
    Flush,
    /// Deleting the quarantined file through its open handle.
    RemoveByHandle,
    /// Looking at both names after the unlinking failed.
    ObserveCleanup { cleanup: Fault },
    /// Looking at the source once more before what was moved is put back.
    RecheckSource { cleanup: Option<Fault>, occupant: FileToken },
    /// Looking at the quarantine name after that.
    RecheckQuarantine { cleanup: Option<Fault>, occupant: FileToken },
    /// Moving the quarantined file back without replacing anything.
    PutBack { cleanup: Option<Fault>, occupant: FileToken },
    /// Looking at both names after that; `restoration` is how it failed.
    ObservePutBack { cleanup: Option<Fault>, occupant: FileToken, restoration: Option<Fault> },
}

/// What the operation gave.
#[derive(Debug, PartialEq, Eq)]
pub enum RemovalReply {
    Done,
    /// How deleting through an open handle ended.
    Deleted(Result<RemoveExactOutcome, Fault>),
    Token(FileToken),
    Sight(Option<FileToken>),
    Sights { source: Option<FileToken>, quarantine: Option<FileToken> },
    Failed(Fault),
}

/// What a removal does next.
#[derive(Debug, PartialEq, Eq)]
pub enum RemovalStep {
    Await(RemovalStage),
    Finished(Result<RemoveExactOutcome, Fault>),
}

/// A removal that ends with these messages.
pub open spec fn ends_with_fault(step: RemovalStep, messages: Seq<Seq<char>>) -> bool {
    step matches RemovalStep::Finished(Err(fault)) && fault@ == messages
}

/// Both names, as a message names them.
pub open spec fn both_names(removal: Removal) -> Seq<char> {
    "; source "@ + removal.source@ + " and quarantine "@ + removal.quarantine@
}

/// How a failed restoration is noted.
pub open spec fn restoration_note(restoration: Option<Fault>) -> Seq<char> {
    match restoration {
        None => ""@,
        Some(fault) => "; restoration durability failed: "@ + joined(fault@),
    }
}

/// A reply that no operation of the stage gives.
pub open spec fn misfit() -> Seq<Seq<char>> {
    seq!["the reply does not belong to the operation that was asked for"@]
}

/// A reply that no operation of the stage gives.
pub fn misfit_fault() -> (r: Fault)
    ensures
        r@ == misfit(),
{
    Fault::of("the reply does not belong to the operation that was asked for")
}

/// A name that changed before what was moved could be put back.
pub open spec fn changed_again(cleanup: Option<Fault>, removal: Removal) -> Seq<char> {
    match cleanup {
        Some(fault) => "quarantine cleanup failed ("@ + joined(fault@)
            + ") and a path changed before restoration"@ + both_names(removal)
            + " were preserved"@,
        None => "unexpected quarantine occupant changed again"@ + both_names(removal)
            + " were preserved"@,
    }
}

/// What a removal does next.
pub open spec fn removal_next(
    removal: Removal,
    stage: RemovalStage,
    reply: RemovalReply,
    step: RemovalStep,
) -> bool {
    match (stage, reply) {
        (RemovalStage::Bind, RemovalReply::Token(observed)) => if observed@ == removal.expected@ {
            step == RemovalStep::Await(RemovalStage::MoveAside)
        } else {
            ends_with_fault(
                step,
                seq![
                    changed_text(
                        "removal source"@,
                        removal.source@,
                        removal.expected@,
                        observed@,
                    ),
                ],
            )
        },
        (RemovalStage::MoveAside, RemovalReply::Done) => step == RemovalStep::Await(
            RemovalStage::Observe { boundary: None },
        ),
        (RemovalStage::MoveAside, RemovalReply::Failed(fault)) => step == RemovalStep::Await(
            RemovalStage::Observe { boundary: Some(fault) },
        ),
        (
            RemovalStage::Observe { boundary },
            RemovalReply::Sights { source, quarantine },
        ) => if seen(quarantine) == Some(removal.expected@) {
            if removal.flushes_directories {
                step == RemovalStep::Await(RemovalStage::BindQuarantine)
            } else {
                step == RemovalStep::Await(RemovalStage::RemoveByHandle)
            }
        } else if seen(source) == Some(removal.expected@) && quarantine is None {
            match boundary {
                Some(fault) => ends_with_fault(step, fault@),
                None => ends_with_fault(
                    step,
                    seq![
                        "no-replace quarantine returned success without moving the owned file"@,
                    ],
                ),
            }
        } else if source is None && quarantine is Some {
            step == RemovalStep::Await(
                RemovalStage::RecheckSource { cleanup: None, occupant: quarantine->0 },
            )
        } else {
            ends_with_fault(
                step,
                seq![
                    "token-bound quarantine ended in an unclassified state"@ + both_names(removal)
                        + " were preserved"@,
                ],
            )
        },
        (RemovalStage::BindQuarantine, RemovalReply::Token(observed)) => if observed@
            == removal.expected@ {
            step == RemovalStep::Await(RemovalStage::Unlink)
        } else {
            step matches RemovalStep::Await(RemovalStage::ObserveCleanup { cleanup }) && cleanup@
                == seq![
                changed_text(
                    "quarantined transaction file"@,
                    removal.quarantine@,
                    removal.expected@,
                    observed@,
                ),
            ]
        },
        (RemovalStage::BindQuarantine, RemovalReply::Failed(fault)) => step == RemovalStep::Await(
            RemovalStage::ObserveCleanup { cleanup: fault },
        ),
        (RemovalStage::Unlink, RemovalReply::Done) => step == RemovalStep::Await(
            RemovalStage::Flush,
        ),
        (RemovalStage::Unlink, RemovalReply::Failed(fault)) => {
            &&& step matches RemovalStep::Await(RemovalStage::ObserveCleanup { cleanup })
            &&& cleanup@ == seq!["removing token-bound quarantine "@ + removal.quarantine@] + fault@
        },
        (RemovalStage::Flush, RemovalReply::Done) => step == RemovalStep::Finished(
            Ok(RemoveExactOutcome::Removed),
        ),
        (RemovalStage::Flush, RemovalReply::Failed(_)) => step == RemovalStep::Finished(
            Ok(RemoveExactOutcome::RemovedNamespaceDurabilityUnconfirmed),
        ),
        (RemovalStage::RemoveByHandle, RemovalReply::Deleted(Ok(outcome))) => step
            == RemovalStep::Finished(Ok(outcome)),
        (RemovalStage::RemoveByHandle, RemovalReply::Deleted(Err(fault))) => step
            == RemovalStep::Await(RemovalStage::ObserveCleanup { cleanup: fault }),
        (
            RemovalStage::ObserveCleanup { cleanup },
            RemovalReply::Sights { source, quarantine },
        ) => if source is None && quarantine is None {
            ends_with_fault(
                step,
                seq![
                    "quarantine cleanup failed after both names disappeared unexpectedly ("@
                        + joined(cleanup@) + ")"@ + both_names(removal)
                        + " require explicit inspection"@,
                ],
            )
        } else if source is None && seen(quarantine) == Some(removal.expected@) {
            step matches RemovalStep::Await(
                RemovalStage::RecheckSource { cleanup: Some(kept), occupant },
            ) && kept == cleanup && occupant == quarantine->0
        } else {
            ends_with_fault(step, seq![unsafe_restoration(cleanup@, removal)])
        },
        (RemovalStage::RecheckSource { cleanup, occupant }, RemovalReply::Sight(source)) => {
            if source is None {
                step == RemovalStep::Await(RemovalStage::RecheckQuarantine { cleanup, occupant })
            } else {
                ends_with_fault(step, seq![changed_again(cleanup, removal)])
            }
        },
        (
            RemovalStage::RecheckQuarantine { cleanup, occupant },
            RemovalReply::Sight(quarantine),
        ) => if seen(quarantine) == Some(occupant@) {
            step == RemovalStep::Await(RemovalStage::PutBack { cleanup, occupant })
        } else {
            ends_with_fault(step, seq![changed_again(cleanup, removal)])
        },
        (RemovalStage::PutBack { cleanup, occupant }, RemovalReply::Done) => step
            == RemovalStep::Await(
            RemovalStage::ObservePutBack { cleanup, occupant, restoration: None },
        ),
        (RemovalStage::PutBack { cleanup, occupant }, RemovalReply::Failed(fault)) => step
            == RemovalStep::Await(
            RemovalStage::ObservePutBack { cleanup, occupant, restoration: Some(fault) },
        ),
        (
            RemovalStage::ObservePutBack { cleanup, occupant, restoration },
            RemovalReply::Sights { source, quarantine },
        ) => {
            let restored = seen(source) == Some(occupant@) && quarantine is None;
            ends_with_fault(
                step,
                seq![
                    match cleanup {
                        Some(fault) => if restored {
                            "quarantine cleanup failed ("@ + joined(fault@)
                                + "); the exact file was restored without replacement from "@
                                + removal.quarantine@ + " to "@ + removal.source@
                                + restoration_note(restoration)
                        } else {
                            unsafe_restoration(fault@, removal)
                        },
                        None => if restored {
                            "a concurrent writer reached the removal boundary; its actual file was restored to "@
                                + removal.source@ + " from "@ + removal.quarantine@
                                + " without replacement"@ + restoration_note(restoration)
                        } else {
                            "token-bound quarantine ended in an unclassified state"@ + both_names(
                                removal,
                            ) + " were preserved"@
                        },
                    },
                ],
            )
        },
        (RemovalStage::Bind, RemovalReply::Failed(fault)) => ends_with_fault(step, fault@),
        (RemovalStage::Observe { boundary: _ }, RemovalReply::Failed(fault)) => ends_with_fault(
            step,
            fault@,
        ),
        (
            RemovalStage::ObserveCleanup { cleanup: _ },
            RemovalReply::Failed(fault),
        ) => ends_with_fault(step, fault@),
        (
            RemovalStage::RecheckSource { cleanup: _, occupant: _ },
            RemovalReply::Failed(fault),
        ) => ends_with_fault(step, fault@),
        (
            RemovalStage::RecheckQuarantine { cleanup: _, occupant: _ },
            RemovalReply::Failed(fault),
        ) => ends_with_fault(step, fault@),
        (
            RemovalStage::ObservePutBack { cleanup: _, occupant: _, restoration: _ },
            RemovalReply::Failed(fault),
        ) => ends_with_fault(step, fault@),
        _ => ends_with_fault(step, misfit()),
    }
}

/// A cleanup that failed and could not be undone.
pub open spec fn unsafe_restoration(cleanup: Seq<Seq<char>>, removal: Removal) -> Seq<char> {
    "quarantine cleanup failed ("@ + joined(cleanup) + ") and exact restoration was not safe"@
        + both_names(removal) + " were preserved"@
}

fn names_text(removal: &Removal) -> (r: String)
    ensures
        r@ == both_names(*removal),
{
    let mut text = join2("; source ", removal.source.as_str());
    text.append(" and quarantine ");
    text.append(removal.quarantine.as_str());
    text
}

fn note_text(restoration: &Option<Fault>) -> (r: String)
    ensures
        r@ == restoration_note(*restoration),
{
    match restoration {
        None => "".to_owned(),
        Some(fault) => join2("; restoration durability failed: ", fault.detail().as_str()),
    }
}

fn unsafe_restoration_fault(cleanup: &Fault, removal: &Removal) -> (r: Fault)
    ensures
        r@ == seq![unsafe_restoration(cleanup@, *removal)],
{
    Fault::from_text(
        join5(
            "quarantine cleanup failed (",
            cleanup.detail().as_str(),
            ") and exact restoration was not safe",
            names_text(removal).as_str(),
            " were preserved",
        ),
    )
}

fn preserved_fault(what: &str, removal: &Removal) -> (r: Fault)
    ensures
        r@ == seq![what@ + both_names(*removal) + " were preserved"@],
{
    Fault::from_text(join3(what, names_text(removal).as_str(), " were preserved"))
}

fn stop(fault: Fault) -> (r: RemovalStep)
    ensures
        ends_with_fault(r, fault@),
{
    RemovalStep::Finished(Err(fault))
}

fn changed_again_fault(cleanup: &Option<Fault>, removal: &Removal) -> (r: Fault)
    ensures
        r@ == seq![changed_again(*cleanup, *removal)],
{
    match cleanup {
        Some(fault) => Fault::from_text(
            join5(
                "quarantine cleanup failed (",
                fault.detail().as_str(),
                ") and a path changed before restoration",
                names_text(removal).as_str(),
                " were preserved",
            ),
        ),
        None => preserved_fault("unexpected quarantine occupant changed again", removal),
    }
}

/// What a removal does next. It starts with `RemovalStage::Bind`.
pub fn remove_exact(removal: &Removal, stage: RemovalStage, reply: RemovalReply) -> (r: RemovalStep)
    ensures
        removal_next(*removal, stage, reply, r),
{
    match (stage, reply) {
        (RemovalStage::Bind, RemovalReply::Token(observed)) => match ensure_path_token(
            &observed,
            removal.source.as_str(),
            &removal.expected,
            "removal source",
        ) {
            Ok(()) => RemovalStep::Await(RemovalStage::MoveAside),
            Err(fault) => stop(fault),
        },
        (RemovalStage::Bind, RemovalReply::Failed(fault)) => stop(fault),
        (RemovalStage::MoveAside, RemovalReply::Done) => RemovalStep::Await(
            RemovalStage::Observe { boundary: None },
        ),
        (RemovalStage::MoveAside, RemovalReply::Failed(fault)) => RemovalStep::Await(
            RemovalStage::Observe { boundary: Some(fault) },
        ),
        (RemovalStage::Observe { boundary }, RemovalReply::Sights { source, quarantine }) => {
            if shows(&quarantine, &removal.expected) {
                return if removal.flushes_directories {
                    RemovalStep::Await(RemovalStage::BindQuarantine)
                } else {
                    RemovalStep::Await(RemovalStage::RemoveByHandle)
                };
            }
            if shows(&source, &removal.expected) && quarantine.is_none() {
                return match boundary {
                    Some(fault) => stop(fault),
                    None => stop(
                        Fault::of(
                            "no-replace quarantine returned success without moving the owned file",
                        ),
                    ),
                };
            }
            match (source, quarantine) {
                (None, Some(occupant)) => RemovalStep::Await(
                    RemovalStage::RecheckSource { cleanup: None, occupant },
                ),
                _ => stop(
                    preserved_fault(
                        "token-bound quarantine ended in an unclassified state",
                        removal,
                    ),
                ),
            }
        },
        (RemovalStage::Observe { boundary: _ }, RemovalReply::Failed(fault)) => stop(fault),
        (RemovalStage::BindQuarantine, RemovalReply::Token(observed)) => match ensure_path_token(
            &observed,
            removal.quarantine.as_str(),
            &removal.expected,
            "quarantined transaction file",
        ) {
            Ok(()) => RemovalStep::Await(RemovalStage::Unlink),
            Err(fault) => RemovalStep::Await(RemovalStage::ObserveCleanup { cleanup: fault }),
        },
        (RemovalStage::BindQuarantine, RemovalReply::Failed(fault)) => RemovalStep::Await(
            RemovalStage::ObserveCleanup { cleanup: fault },
        ),
        (RemovalStage::Unlink, RemovalReply::Done) => RemovalStep::Await(RemovalStage::Flush),
        (RemovalStage::Unlink, RemovalReply::Failed(fault)) => RemovalStep::Await(
            RemovalStage::ObserveCleanup {
                cleanup: fault.context(
                    join2("removing token-bound quarantine ", removal.quarantine.as_str()),
                ),
            },
        ),
        (RemovalStage::Flush, RemovalReply::Done) => RemovalStep::Finished(
            Ok(RemoveExactOutcome::Removed),
        ),
        (RemovalStage::Flush, RemovalReply::Failed(_)) => RemovalStep::Finished(
            Ok(RemoveExactOutcome::RemovedNamespaceDurabilityUnconfirmed),
        ),
        (RemovalStage::RemoveByHandle, RemovalReply::Deleted(Ok(outcome))) => {
            RemovalStep::Finished(Ok(outcome))
        },
        (RemovalStage::RemoveByHandle, RemovalReply::Deleted(Err(fault))) => RemovalStep::Await(
            RemovalStage::ObserveCleanup { cleanup: fault },
        ),
        (RemovalStage::ObserveCleanup { cleanup }, RemovalReply::Sights { source, quarantine }) => {
            match (source, quarantine) {
                (None, None) => {
                    let mut text = join3(
                        "quarantine cleanup failed after both names disappeared unexpectedly (",
                        cleanup.detail().as_str(),
                        ")",
                    );
                    text.append(names_text(removal).as_str());
                    text.append(" require explicit inspection");
                    stop(Fault::from_text(text))
                },
                (None, Some(occupant)) => if occupant.same(&removal.expected) {
                    RemovalStep::Await(
                        RemovalStage::RecheckSource { cleanup: Some(cleanup), occupant },
                    )
                } else {
                    stop(unsafe_restoration_fault(&cleanup, removal))
                },
                _ => stop(unsafe_restoration_fault(&cleanup, removal)),
            }
        },
        (RemovalStage::ObserveCleanup { cleanup: _ }, RemovalReply::Failed(fault)) => stop(fault),
        (RemovalStage::RecheckSource { cleanup, occupant }, RemovalReply::Sight(source)) => {
            if source.is_none() {
                RemovalStep::Await(RemovalStage::RecheckQuarantine { cleanup, occupant })
            } else {
                stop(changed_again_fault(&cleanup, removal))
            }
        },
        (
            RemovalStage::RecheckQuarantine { cleanup, occupant },
            RemovalReply::Sight(quarantine),
        ) => {
            if shows(&quarantine, &occupant) {
                RemovalStep::Await(RemovalStage::PutBack { cleanup, occupant })
            } else {
                stop(changed_again_fault(&cleanup, removal))
            }
        },
        (
            RemovalStage::RecheckSource { cleanup: _, occupant: _ },
            RemovalReply::Failed(fault),
        ) => stop(fault),
        (
            RemovalStage::RecheckQuarantine { cleanup: _, occupant: _ },
            RemovalReply::Failed(fault),
        ) => stop(fault),
        (RemovalStage::PutBack { cleanup, occupant }, RemovalReply::Done) => RemovalStep::Await(
            RemovalStage::ObservePutBack { cleanup, occupant, restoration: None },
        ),
        (
            RemovalStage::PutBack { cleanup, occupant },
            RemovalReply::Failed(fault),
        ) => RemovalStep::Await(
            RemovalStage::ObservePutBack { cleanup, occupant, restoration: Some(fault) },
        ),
        (
            RemovalStage::ObservePutBack { cleanup, occupant, restoration },
            RemovalReply::Sights { source, quarantine },
        ) => {
            let restored = shows(&source, &occupant) && quarantine.is_none();
            match cleanup {
                Some(fault) => {
                    if !restored {
                        return stop(unsafe_restoration_fault(&fault, removal));
                    }
                    let mut text = join3(
                        "quarantine cleanup failed (",
                        fault.detail().as_str(),
                        "); the exact file was restored without replacement from ",
                    );
                    text.append(removal.quarantine.as_str());
                    text.append(" to ");
                    text.append(removal.source.as_str());
                    text.append(note_text(&restoration).as_str());
                    stop(Fault::from_text(text))
                },
                None => {
                    if !restored {
                        return stop(
                            preserved_fault(
                                "token-bound quarantine ended in an unclassified state",
                                removal,
                            ),
                        );
                    }
                    let mut text = join2(
                        "a concurrent writer reached the removal boundary; its actual file was restored to ",
                        removal.source.as_str(),
                    );
                    text.append(" from ");
                    text.append(removal.quarantine.as_str());
                    text.append(" without replacement");
                    text.append(note_text(&restoration).as_str());
                    stop(Fault::from_text(text))
                },
            }
        },
        (
            RemovalStage::ObservePutBack { cleanup: _, occupant: _, restoration: _ },
            RemovalReply::Failed(fault),
        ) => stop(fault),
        _ => stop(misfit_fault()),
    }
}

/// Only the expected file is ever unlinked: the quarantine name was seen to
/// hold it, and held it again right before.
pub proof fn law_only_the_expected_file_is_unlinked(
    removal: Removal,
    stage: RemovalStage,
    reply: RemovalReply,
    step: RemovalStep,
)
    requires
        removal_next(removal, stage, reply, step),
    ensures
        step == RemovalStep::Await(RemovalStage::Unlink) ==> stage == RemovalStage::BindQuarantine
            && (reply matches RemovalReply::Token(t) && t@ == removal.expected@),
        step == RemovalStep::Await(RemovalStage::BindQuarantine) || step == RemovalStep::Await(
            RemovalStage::RemoveByHandle,
        ) ==> (reply matches RemovalReply::Sights { source, quarantine } && seen(quarantine)
            == Some(removal.expected@)),
{
}

/// A removal reports success only after unlinking, and nothing is put back over
/// an occupied source: right before, the source name was seen to be free.
pub proof fn law_removal_never_overwrites(
    removal: Removal,
    stage: RemovalStage,
    reply: RemovalReply,
    step: RemovalStep,
)
    requires
        removal_next(removal, stage, reply, step),
    ensures
        step matches RemovalStep::Finished(Ok(_)) ==> (stage == RemovalStage::Flush || stage
            == RemovalStage::RemoveByHandle),
        step matches RemovalStep::Await(RemovalStage::PutBack { cleanup, occupant }) ==> stage == (
        RemovalStage::RecheckQuarantine { cleanup, occupant }) && (reply matches
            RemovalReply::Sight(quarantine) && seen(quarantine) == Some(occupant@)),
        step matches RemovalStep::Await(RemovalStage::RecheckQuarantine { cleanup, occupant })
            ==> stage == (RemovalStage::RecheckSource { cleanup, occupant }) && reply
            == RemovalReply::Sight(None),
{
}

} // verus!
