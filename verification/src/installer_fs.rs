//! The file operations that the installer asks for, each bound to exact tokens.
use vstd::prelude::*;

use crate::fault::{join2, join3, joined, Fault};
use crate::fs_ops::{
    same_sight, seen, shows, token_reading, token_text, CreateExactOutcome, FileToken,
    RemoveExactOutcome, TokenView,
};
use crate::host_path::Platform;
use crate::removal::{misfit, misfit_fault, restoration_note};
use crate::text::{chars_of, position, until, CharClass};

verus! {

/// A file operation of the installer.
#[derive(Clone, Copy, Debug, PartialEq, Eq, Structural)]
pub enum InstallerFileOperation {
    Token,
    CopyExclusive,
    CreateEmptyExclusive,
    MoveNoreplace,
    Exchange,
    ReplaceWithDisplaced,
    RemoveOwned,
    UserPathSnapshot,
    UserPathAdd,
    UserPathRemove,
    UserPathRestore,
}

/// The arguments of an operation, as far as they were given.
#[derive(Debug, PartialEq, Eq)]
pub struct InstallerFileArguments {
    pub source: Option<String>,
    pub destination: Option<String>,
    pub displaced: Option<String>,
    pub expected_token: Option<String>,
    pub expected_destination_token: Option<String>,
}

/// An operation with everything that it needs.
#[derive(Debug, PartialEq, Eq)]
pub enum InstallerFilePlan {
    Token { source: String },
    CopyExclusive { source: String, destination: String, expected: FileToken },
    CreateEmptyExclusive { destination: String },
    MoveNoreplace { source: String, destination: String, expected: FileToken },
    Exchange { source: String, destination: String, expected: FileToken, replaced: FileToken },
    ReplaceWithDisplaced {
        source: String,
        destination: String,
        displaced: String,
        expected: FileToken,
        replaced: FileToken,
    },
    RemoveOwned { source: String, expected: FileToken },
    UserPathSnapshot,
    UserPathAdd { source: String },
    UserPathRemove { source: String },
    UserPathRestore { source: String },
}

/// An argument that was not given.
pub open spec fn missing(name: Seq<char>) -> Seq<Seq<char>> {
    seq!["internal installer file operation requires --"@ + name]
}

fn missing_fault(name: &str) -> (r: Fault)
    ensures
        r@ == missing(name@),
{
    Fault::from_text(join2("internal installer file operation requires --", name))
}

/// A path that must have been given.
pub fn required_path(value: Option<String>, name: &str) -> (r: Result<String, Fault>)
    ensures
        match value {
            Some(path) => r == Ok::<String, Fault>(path),
            None => r matches Err(fault) && fault@ == missing(name@),
        },
{
    match value {
        Some(path) => Ok(path),
        None => Err(missing_fault(name)),
    }
}

/// Whether a text is empty or goes over a line.
pub open spec fn malformed(token: Seq<char>) -> bool {
    token.len() == 0 || until(token, CharClass::LineEnd) < token.len()
}

/// The token of an argument, or the messages of why there is none.
pub open spec fn required_token_reading(value: Option<Seq<char>>, name: Seq<char>) -> Result<
    TokenView,
    Seq<Seq<char>>,
> {
    match value {
        None => Err(missing(name)),
        Some(token) => if malformed(token) {
            Err(seq!["internal installer file token is empty or malformed"@])
        } else {
            match token_reading(token) {
                Ok(view) => Ok(view),
                Err(messages) => Err(seq!["parsing --"@ + name] + messages),
            }
        },
    }
}

/// A token that must have been given.
pub fn required_token(value: &Option<String>, name: &str) -> (r: Result<FileToken, Fault>)
    ensures
        match (r, required_token_reading(crate::text::owned_text(*value), name@)) {
            (Ok(token), Ok(view)) => token@ == view,
            (Err(fault), Err(messages)) => fault@ == messages,
            _ => false,
        },
{
    let text = match value {
        Some(text) => text,
        None => {
            return Err(missing_fault(name));
        },
    };
    let chars = chars_of(text.as_str());
    if chars.len() == 0 || position(chars.as_slice(), CharClass::LineEnd) < chars.len() {
        return Err(Fault::of("internal installer file token is empty or malformed"));
    }
    match FileToken::from_str(text.as_str()) {
        Ok(token) => Ok(token),
        Err(fault) => Err(fault.context(join2("parsing --", name))),
    }
}

/// Whether a plan is what an operation with these arguments comes to; if it is
/// an error, which argument it is about.
pub open spec fn plan_of(
    operation: InstallerFileOperation,
    a: InstallerFileArguments,
    r: Result<InstallerFilePlan, Fault>,
) -> bool {
    let token = required_token_reading(
        crate::text::owned_text(a.expected_token),
        "expected-token"@,
    );
    let other = required_token_reading(
        crate::text::owned_text(a.expected_destination_token),
        "expected-destination-token"@,
    );
    let fails = |messages: Seq<Seq<char>>| r matches Err(fault) && fault@ == messages;
    let needs_source = !(operation == InstallerFileOperation::CreateEmptyExclusive || operation
        == InstallerFileOperation::UserPathSnapshot);
    let needs_destination = operation == InstallerFileOperation::CopyExclusive || operation
        == InstallerFileOperation::CreateEmptyExclusive || operation
        == InstallerFileOperation::MoveNoreplace || operation == InstallerFileOperation::Exchange
        || operation == InstallerFileOperation::ReplaceWithDisplaced;
    let needs_token = operation == InstallerFileOperation::CopyExclusive || operation
        == InstallerFileOperation::MoveNoreplace || operation == InstallerFileOperation::Exchange
        || operation == InstallerFileOperation::ReplaceWithDisplaced || operation
        == InstallerFileOperation::RemoveOwned;
    let needs_other = operation == InstallerFileOperation::Exchange || operation
        == InstallerFileOperation::ReplaceWithDisplaced;
    if needs_source && a.source is None {
        fails(missing("source"@))
    } else if needs_destination && a.destination is None {
        fails(missing("destination"@))
    } else if operation == InstallerFileOperation::ReplaceWithDisplaced && a.displaced is None {
        fails(missing("displaced"@))
    } else if needs_token && token is Err {
        fails(token->Err_0)
    } else if needs_other && other is Err {
        fails(other->Err_0)
    } else {
        match operation {
            InstallerFileOperation::Token => r == Ok::<InstallerFilePlan, Fault>(
                InstallerFilePlan::Token { source: a.source->0 },
            ),
            InstallerFileOperation::CopyExclusive => r matches Ok(
                InstallerFilePlan::CopyExclusive { source, destination, expected },
            ) && Some(source) == a.source && Some(destination) == a.destination && expected@
                == token->Ok_0,
            InstallerFileOperation::CreateEmptyExclusive => r == Ok::<InstallerFilePlan, Fault>(
                InstallerFilePlan::CreateEmptyExclusive { destination: a.destination->0 },
            ),
            InstallerFileOperation::MoveNoreplace => r matches Ok(
                InstallerFilePlan::MoveNoreplace { source, destination, expected },
            ) && Some(source) == a.source && Some(destination) == a.destination && expected@
                == token->Ok_0,
            InstallerFileOperation::Exchange => r matches Ok(
                InstallerFilePlan::Exchange { source, destination, expected, replaced },
            ) && Some(source) == a.source && Some(destination) == a.destination && expected@
                == token->Ok_0 && replaced@ == other->Ok_0,
            InstallerFileOperation::ReplaceWithDisplaced => r matches Ok(
                InstallerFilePlan::ReplaceWithDisplaced {
                    source,
                    destination,
                    displaced,
                    expected,
                    replaced,
                },
            ) && Some(source) == a.source && Some(destination) == a.destination && Some(displaced)
                == a.displaced && expected@ == token->Ok_0 && replaced@ == other->Ok_0,
            InstallerFileOperation::RemoveOwned => r matches Ok(
                InstallerFilePlan::RemoveOwned { source, expected },
            ) && Some(source) == a.source && expected@ == token->Ok_0,
            InstallerFileOperation::UserPathSnapshot => r == Ok::<InstallerFilePlan, Fault>(
                InstallerFilePlan::UserPathSnapshot,
            ),
            InstallerFileOperation::UserPathAdd => r == Ok::<InstallerFilePlan, Fault>(
                InstallerFilePlan::UserPathAdd { source: a.source->0 },
            ),
            InstallerFileOperation::UserPathRemove => r == Ok::<InstallerFilePlan, Fault>(
                InstallerFilePlan::UserPathRemove { source: a.source->0 },
            ),
            InstallerFileOperation::UserPathRestore => r == Ok::<InstallerFilePlan, Fault>(
                InstallerFilePlan::UserPathRestore { source: a.source->0 },
            ),
        }
    }
}

/// What an operation with these arguments comes to: the paths that it needs
/// must be given first, then its tokens.
pub fn execute(operation: InstallerFileOperation, arguments: InstallerFileArguments) -> (r: Result<
    InstallerFilePlan,
    Fault,
>)
    ensures
        plan_of(operation, arguments, r),
{
    let a = arguments;
    match operation {
        InstallerFileOperation::Token => {
            let source = required_path(a.source, "source")?;
            Ok(InstallerFilePlan::Token { source })
        },
        InstallerFileOperation::CopyExclusive => {
            let source = required_path(a.source, "source")?;
            let destination = required_path(a.destination, "destination")?;
            let expected = required_token(&a.expected_token, "expected-token")?;
            Ok(InstallerFilePlan::CopyExclusive { source, destination, expected })
        },
        InstallerFileOperation::CreateEmptyExclusive => {
            let destination = required_path(a.destination, "destination")?;
            Ok(InstallerFilePlan::CreateEmptyExclusive { destination })
        },
        InstallerFileOperation::MoveNoreplace => {
            let source = required_path(a.source, "source")?;
            let destination = required_path(a.destination, "destination")?;
            let expected = required_token(&a.expected_token, "expected-token")?;
            Ok(InstallerFilePlan::MoveNoreplace { source, destination, expected })
        },
        InstallerFileOperation::Exchange => {
            let source = required_path(a.source, "source")?;
            let destination = required_path(a.destination, "destination")?;
            let expected = required_token(&a.expected_token, "expected-token")?;
            let replaced = required_token(
                &a.expected_destination_token,
                "expected-destination-token",
            )?;
            Ok(InstallerFilePlan::Exchange { source, destination, expected, replaced })
        },
        InstallerFileOperation::ReplaceWithDisplaced => {
            let source = required_path(a.source, "source")?;
            let destination = required_path(a.destination, "destination")?;
            let displaced = required_path(a.displaced, "displaced")?;
            let expected = required_token(&a.expected_token, "expected-token")?;
            let replaced = required_token(
                &a.expected_destination_token,
                "expected-destination-token",
            )?;
            Ok(
                InstallerFilePlan::ReplaceWithDisplaced {
                    source,
                    destination,
                    displaced,
                    expected,
                    replaced,
                },
            )
        },
        InstallerFileOperation::RemoveOwned => {
            let source = required_path(a.source, "source")?;
            let expected = required_token(&a.expected_token, "expected-token")?;
            Ok(InstallerFilePlan::RemoveOwned { source, expected })
        },
        InstallerFileOperation::UserPathSnapshot => Ok(InstallerFilePlan::UserPathSnapshot),
        InstallerFileOperation::UserPathAdd => {
            let source = required_path(a.source, "source")?;
            Ok(InstallerFilePlan::UserPathAdd { source })
        },
        InstallerFileOperation::UserPathRemove => {
            let source = required_path(a.source, "source")?;
            Ok(InstallerFilePlan::UserPathRemove { source })
        },
        InstallerFileOperation::UserPathRestore => {
            let source = required_path(a.source, "source")?;
            Ok(InstallerFilePlan::UserPathRestore { source })
        },
    }
}

/// Why an operation cannot be done on a system.
pub open spec fn unsupported_operation(platform: Platform, operation: InstallerFileOperation) -> Option<
    Seq<char>,
> {
    if operation == InstallerFileOperation::Exchange && (platform == Platform::Windows || platform
        == Platform::Other) {
        Some("atomic exchange is supported only on Linux and macOS"@)
    } else if operation == InstallerFileOperation::ReplaceWithDisplaced && platform
        != Platform::Windows {
        Some("ReplaceFileW publication is supported only on Windows"@)
    } else {
        None
    }
}

/// An operation must be one that the system has.
pub fn require_operation_support(platform: Platform, operation: InstallerFileOperation) -> (r: Result<
    (),
    Fault,
>)
    ensures
        match unsupported_operation(platform, operation) {
            Some(message) => r matches Err(fault) && fault@ == seq![message],
            None => r is Ok,
        },
{
    if operation == InstallerFileOperation::Exchange && (platform == Platform::Windows || platform
        == Platform::Other) {
        Err(Fault::of("atomic exchange is supported only on Linux and macOS"))
    } else if operation == InstallerFileOperation::ReplaceWithDisplaced && platform
        != Platform::Windows {
        Err(Fault::of("ReplaceFileW publication is supported only on Windows"))
    } else {
        Ok(())
    }
}

/// How a creation is printed.
pub fn format_create_outcome(outcome: CreateExactOutcome) -> (r: String)
    ensures
        r@ == (match outcome {
            CreateExactOutcome::Created(token) => "created|"@ + token_text(token@),
            CreateExactOutcome::CreatedNamespaceDurabilityUnconfirmed(token) =>
                "created-namespace-durability-unconfirmed|"@ + token_text(token@),
        }),
{
    match outcome {
        CreateExactOutcome::Created(token) => join2("created|", token.to_text().as_str()),
        CreateExactOutcome::CreatedNamespaceDurabilityUnconfirmed(token) => join2(
            "created-namespace-durability-unconfirmed|",
            token.to_text().as_str(),
        ),
    }
}

/// How a removal is printed.
pub fn format_remove_outcome(outcome: RemoveExactOutcome) -> (r: String)
    ensures
        r@ == (match outcome {
            RemoveExactOutcome::Removed => "removed"@,
            RemoveExactOutcome::RemovedNamespaceDurabilityUnconfirmed =>
                "removed-namespace-durability-unconfirmed"@,
        }),
{
    match outcome {
        RemoveExactOutcome::Removed => "removed".to_owned(),
        RemoveExactOutcome::RemovedNamespaceDurabilityUnconfirmed =>
            "removed-namespace-durability-unconfirmed".to_owned(),
    }
}

/// The operation that a move without replacement waits for.
#[derive(Clone, Copy, Debug, PartialEq, Eq, Structural)]
pub enum MoveStage {
    /// Reading the source's token.
    BindSource,
    /// Renaming the source, then looking at both names.
    Rename,
}

/// What the operation gave.
#[derive(Debug, PartialEq, Eq)]
pub enum MoveReply {
    Token(FileToken),
    Moved {
        boundary: Option<Fault>,
        source: Option<FileToken>,
        destination: Option<FileToken>,
    },
    Failed(Fault),
}

/// What a move does next; it succeeds with the token that it published.
#[derive(Debug, PartialEq, Eq)]
pub enum MoveStep {
    Await(MoveStage),
    Finished(Result<String, Fault>),
}

/// Whether a move ends with a failure.
pub open spec fn move_fails(step: MoveStep, messages: Seq<Seq<char>>) -> bool {
    step matches MoveStep::Finished(Err(fault)) && fault@ == messages
}

/// What a move does next.
pub open spec fn move_next(
    source_path: Seq<char>,
    destination_path: Seq<char>,
    expected: FileToken,
    stage: MoveStage,
    reply: MoveReply,
    step: MoveStep,
) -> bool {
    match (stage, reply) {
        (MoveStage::BindSource, MoveReply::Token(observed)) => if observed@ == expected@ {
            step == MoveStep::Await(MoveStage::Rename)
        } else {
            move_fails(
                step,
                seq!["move source changed before no-replace publication: "@ + source_path],
            )
        },
        (MoveStage::Rename, MoveReply::Moved { boundary, source, destination }) => if source is None
            && seen(destination) == Some(expected@) {
            match boundary {
                None => step matches MoveStep::Finished(Ok(text)) && text@ == token_text(expected@),
                Some(error) => move_fails(
                    step,
                    seq![
                        "no-replace rename moved the exact file to "@ + destination_path
                            + ", but its durability boundary failed"@,
                    ] + error@,
                ),
            }
        } else if seen(source) == Some(expected@) && destination is None {
            match boundary {
                Some(error) => move_fails(step, error@),
                None => move_fails(
                    step,
                    seq!["no-replace rename returned success without moving the source"@],
                ),
            }
        } else {
            move_fails(
                step,
                seq![
                    "no-replace rename ended in an unclassified state; source and destination were preserved"@,
                ],
            )
        },
        (_, MoveReply::Failed(fault)) => move_fails(step, fault@),
        _ => move_fails(step, misfit()),
    }
}

fn move_fault(fault: Fault) -> (r: MoveStep)
    ensures
        move_fails(r, fault@),
{
    MoveStep::Finished(Err(fault))
}

/// What a move without replacement does next. It starts with
/// `MoveStage::BindSource`.
pub fn move_noreplace_exact(
    source_path: &str,
    destination_path: &str,
    expected: &FileToken,
    stage: MoveStage,
    reply: MoveReply,
) -> (r: MoveStep)
    ensures
        move_next(source_path@, destination_path@, *expected, stage, reply, r),
{
    match (stage, reply) {
        (_, MoveReply::Failed(fault)) => move_fault(fault),
        (MoveStage::BindSource, MoveReply::Token(observed)) => {
            if observed.same(expected) {
                MoveStep::Await(MoveStage::Rename)
            } else {
                move_fault(
                    Fault::from_text(
                        join2("move source changed before no-replace publication: ", source_path),
                    ),
                )
            }
        },
        (MoveStage::Rename, MoveReply::Moved { boundary, source, destination }) => {
            if source.is_none() && shows(&destination, expected) {
                return match boundary {
                    None => MoveStep::Finished(Ok(expected.to_text())),
                    Some(error) => move_fault(
                        error.context(
                            join3(
                                "no-replace rename moved the exact file to ",
                                destination_path,
                                ", but its durability boundary failed",
                            ),
                        ),
                    ),
                };
            }
            if shows(&source, expected) && destination.is_none() {
                return match boundary {
                    Some(error) => move_fault(error),
                    None => move_fault(
                        Fault::of("no-replace rename returned success without moving the source"),
                    ),
                };
            }
            move_fault(
                Fault::of(
                    "no-replace rename ended in an unclassified state; source and destination were preserved",
                ),
            )
        },
        _ => move_fault(misfit_fault()),
    }
}

/// Only the expected file is moved, and a move reports success only where the
/// destination was seen to hold it and the source to be free.
pub proof fn law_move_succeeds_only_exactly(
    source_path: Seq<char>,
    destination_path: Seq<char>,
    expected: FileToken,
    stage: MoveStage,
    reply: MoveReply,
    step: MoveStep,
)
    requires
        move_next(source_path, destination_path, expected, stage, reply, step),
    ensures
        step == MoveStep::Await(MoveStage::Rename) ==> (reply matches MoveReply::Token(observed)
            && observed@ == expected@),
        step matches MoveStep::Finished(Ok(_)) ==> stage == MoveStage::Rename && (reply matches
            MoveReply::Moved { boundary, source, destination } && boundary is None && source is None
            && seen(destination) == Some(expected@)),
{
}

/// The operation that an exchange waits for.
#[derive(Debug, PartialEq, Eq)]
pub enum ExchangeStage {
    /// Reading the source's token.
    BindSource,
    /// Reading the destination's token.
    BindDestination,
    /// Exchanging both files, then looking at both names.
    Exchange,
    /// Looking at the source once more before the exchange is taken back.
    RecheckSource { source: Option<FileToken>, destination: Option<FileToken> },
    /// Looking at the destination after that.
    RecheckDestination { source: Option<FileToken>, destination: Option<FileToken> },
    /// Exchanging once more, then looking at both names.
    Restore { source: Option<FileToken>, destination: Option<FileToken> },
}

/// What the operation gave.
#[derive(Debug, PartialEq, Eq)]
pub enum ExchangeReply {
    Token(FileToken),
    Sight(Option<FileToken>),
    Moved {
        boundary: Option<Fault>,
        source: Option<FileToken>,
        destination: Option<FileToken>,
    },
    Failed(Fault),
}

/// What an exchange does next; it succeeds with the token that it published.
#[derive(Debug, PartialEq, Eq)]
pub enum ExchangeStep {
    Await(ExchangeStage),
    Finished(Result<String, Fault>),
}

/// Whether an exchange ends with a failure.
pub open spec fn exchange_fails(step: ExchangeStep, messages: Seq<Seq<char>>) -> bool {
    step matches ExchangeStep::Finished(Err(fault)) && fault@ == messages
}

/// Whether an exchange ends because a file changed before it was exchanged.
pub open spec fn exchange_refused(step: ExchangeStep) -> bool {
    exchange_fails(
        step,
        seq!["exchange operands changed before the atomic publication boundary"@],
    )
}

/// Whether an exchange ends because a file changed before it was taken back.
pub open spec fn recovery_refused(step: ExchangeStep) -> bool {
    exchange_fails(
        step,
        seq![
            "atomic exchange recovery was not attempted because an operand changed again; every path was preserved"@,
        ],
    )
}

/// What an exchange does next.
pub open spec fn exchange_next(
    expected_source: FileToken,
    expected_destination: FileToken,
    stage: ExchangeStage,
    reply: ExchangeReply,
    step: ExchangeStep,
) -> bool {
    match (stage, reply) {
        (ExchangeStage::BindSource, ExchangeReply::Token(source)) => if source@
            == expected_source@ {
            step == ExchangeStep::Await(ExchangeStage::BindDestination)
        } else {
            exchange_refused(step)
        },
        (ExchangeStage::BindDestination, ExchangeReply::Token(destination)) => if destination@
            == expected_destination@ {
            step == ExchangeStep::Await(ExchangeStage::Exchange)
        } else {
            exchange_refused(step)
        },
        (
            ExchangeStage::Exchange,
            ExchangeReply::Moved { boundary, source, destination },
        ) => if boundary is None && seen(source) == Some(expected_destination@) && seen(destination)
            == Some(expected_source@) {
            step matches ExchangeStep::Finished(Ok(text)) && text@ == token_text(expected_source@)
        } else if boundary is Some && seen(source) == Some(expected_source@) && seen(destination)
            == Some(expected_destination@) {
            exchange_fails(
                step,
                seq![
                    "atomic exchange failed without changing either operand: "@ + joined(
                        boundary->0@,
                    ),
                ],
            )
        } else if seen(source) == Some(expected_destination@) || seen(destination) == Some(
            expected_source@,
        ) {
            step == ExchangeStep::Await(ExchangeStage::RecheckSource { source, destination })
        } else {
            exchange_fails(
                step,
                seq![
                    "atomic exchange encountered unclassifiable concurrent changes; every path was preserved"@,
                ],
            )
        },
        (
            ExchangeStage::RecheckSource { source, destination },
            ExchangeReply::Sight(found),
        ) => if seen(found) == seen(source) {
            step == ExchangeStep::Await(ExchangeStage::RecheckDestination { source, destination })
        } else {
            recovery_refused(step)
        },
        (
            ExchangeStage::RecheckDestination { source, destination },
            ExchangeReply::Sight(found),
        ) => if seen(found) == seen(destination) {
            step == ExchangeStep::Await(ExchangeStage::Restore { source, destination })
        } else {
            recovery_refused(step)
        },
        (
            ExchangeStage::Restore { source, destination },
            ExchangeReply::Moved { boundary, source: s, destination: d },
        ) => exchange_fails(
            step,
            seq![
                if seen(s) == seen(destination) && seen(d) == seen(source) {
                    "atomic exchange did not commit its expected state; the two actual operands were restored"@
                        + restoration_note(boundary)
                } else {
                    "atomic exchange recovery ended in an unclassified state; every path was preserved"@
                },
            ],
        ),
        (_, ExchangeReply::Failed(fault)) => exchange_fails(step, fault@),
        _ => exchange_fails(step, misfit()),
    }
}

fn refuse(fault: Fault) -> (r: ExchangeStep)
    ensures
        exchange_fails(r, fault@),
{
    ExchangeStep::Finished(Err(fault))
}

fn refuse_exchange() -> (r: ExchangeStep)
    ensures
        exchange_refused(r),
{
    refuse(Fault::of("exchange operands changed before the atomic publication boundary"))
}

fn refuse_recovery() -> (r: ExchangeStep)
    ensures
        recovery_refused(r),
{
    refuse(
        Fault::of(
            "atomic exchange recovery was not attempted because an operand changed again; every path was preserved",
        ),
    )
}

fn noted(what: &str, restoration: &Option<Fault>) -> (r: String)
    ensures
        r@ == what@ + restoration_note(*restoration),
{
    match restoration {
        None => join2(what, ""),
        Some(fault) => join2(
            what,
            join2("; restoration durability failed: ", fault.detail().as_str()).as_str(),
        ),
    }
}

/// What an exchange does next. It starts with `ExchangeStage::BindSource`.
pub fn exchange_exact(
    expected_source: &FileToken,
    expected_destination: &FileToken,
    stage: ExchangeStage,
    reply: ExchangeReply,
) -> (r: ExchangeStep)
    ensures
        exchange_next(*expected_source, *expected_destination, stage, reply, r),
{
    match (stage, reply) {
        (_, ExchangeReply::Failed(fault)) => refuse(fault),
        (ExchangeStage::BindSource, ExchangeReply::Token(source)) => {
            if source.same(expected_source) {
                ExchangeStep::Await(ExchangeStage::BindDestination)
            } else {
                refuse_exchange()
            }
        },
        (ExchangeStage::BindDestination, ExchangeReply::Token(destination)) => {
            if destination.same(expected_destination) {
                ExchangeStep::Await(ExchangeStage::Exchange)
            } else {
                refuse_exchange()
            }
        },
        (ExchangeStage::Exchange, ExchangeReply::Moved { boundary, source, destination }) => {
            let swapped = shows(&source, expected_destination);
            let arrived = shows(&destination, expected_source);
            if boundary.is_none() && swapped && arrived {
                return ExchangeStep::Finished(Ok(expected_source.to_text()));
            }
            if let Some(fault) = &boundary {
                if shows(&source, expected_source) && shows(&destination, expected_destination) {
                    return refuse(
                        Fault::from_text(
                            join2(
                                "atomic exchange failed without changing either operand: ",
                                fault.detail().as_str(),
                            ),
                        ),
                    );
                }
            }
            if swapped || arrived {
                return ExchangeStep::Await(ExchangeStage::RecheckSource { source, destination });
            }
            refuse(
                Fault::of(
                    "atomic exchange encountered unclassifiable concurrent changes; every path was preserved",
                ),
            )
        },
        (ExchangeStage::RecheckSource { source, destination }, ExchangeReply::Sight(found)) => {
            if same_sight(&found, &source) {
                ExchangeStep::Await(ExchangeStage::RecheckDestination { source, destination })
            } else {
                refuse_recovery()
            }
        },
        (
            ExchangeStage::RecheckDestination { source, destination },
            ExchangeReply::Sight(found),
        ) => {
            if same_sight(&found, &destination) {
                ExchangeStep::Await(ExchangeStage::Restore { source, destination })
            } else {
                refuse_recovery()
            }
        },
        (
            ExchangeStage::Restore { source, destination },
            ExchangeReply::Moved { boundary, source: s, destination: d },
        ) => {
            if same_sight(&s, &destination) && same_sight(&d, &source) {
                refuse(
                    Fault::from_text(
                        noted(
                            "atomic exchange did not commit its expected state; the two actual operands were restored",
                            &boundary,
                        ),
                    ),
                )
            } else {
                refuse(
                    Fault::of(
                        "atomic exchange recovery ended in an unclassified state; every path was preserved",
                    ),
                )
            }
        },
        _ => refuse(misfit_fault()),
    }
}

/// An exchange reports success only where it returned success and both names
/// were seen to hold exactly the other's file.
pub proof fn law_exchange_succeeds_only_exactly(
    expected_source: FileToken,
    expected_destination: FileToken,
    stage: ExchangeStage,
    reply: ExchangeReply,
    step: ExchangeStep,
)
    requires
        exchange_next(expected_source, expected_destination, stage, reply, step),
        step matches ExchangeStep::Finished(Ok(_)),
    ensures
        stage == ExchangeStage::Exchange,
        reply matches ExchangeReply::Moved { boundary, source, destination } && boundary is None
            && seen(source) == Some(expected_destination@) && seen(destination) == Some(
            expected_source@,
        ),
{
}

/// One of the three names of a replacement.
#[derive(Clone, Copy, Debug, PartialEq, Eq, Structural)]
pub enum ReplaceName {
    Replacement,
    Destination,
    Displaced,
}

/// How a replacement that was not exact is taken back.
#[derive(Debug, PartialEq, Eq)]
pub enum Recovery {
    /// The displaced destination is renamed back.
    Restore { displaced: FileToken },
    /// The destination is replaced by what was displaced.
    Reverse { destination: FileToken, displaced: FileToken },
}

/// The operation that a replacement waits for.
#[derive(Debug, PartialEq, Eq)]
pub enum ReplaceStage {
    /// Reading the replacement's token.
    BindReplacement,
    /// Reading the destination's token.
    BindDestination,
    /// Looking at the recovery name, which must be free.
    CheckDisplaced,
    /// Replacing the destination, then looking at the three names.
    Replace,
    /// Looking at one name once more before the replacement is taken back.
    Recheck { name: ReplaceName, recovery: Recovery },
    /// Taking the replacement back, then looking at the three names.
    Recover { recovery: Recovery },
}

/// What the operation gave.
#[derive(Debug, PartialEq, Eq)]
pub enum ReplaceReply {
    Token(FileToken),
    Sight(Option<FileToken>),
    Moved {
        boundary: Option<Fault>,
        replacement: Option<FileToken>,
        destination: Option<FileToken>,
        displaced: Option<FileToken>,
    },
    Failed(Fault),
}

/// What a replacement does next; it succeeds with the word that is printed.
#[derive(Debug, PartialEq, Eq)]
pub enum ReplaceStep {
    Await(ReplaceStage),
    Finished(Result<String, Fault>),
}

/// Whether a replacement ends with a failure.
pub open spec fn replace_fails(step: ReplaceStep, message: Seq<char>) -> bool {
    step matches ReplaceStep::Finished(Err(fault)) && fault@ == seq![message]
}

/// What a name showed when the replacement turned out not to be exact.
pub open spec fn shown_before(
    expected_replacement: FileToken,
    name: ReplaceName,
    recovery: Recovery,
) -> Option<TokenView> {
    match (recovery, name) {
        (Recovery::Restore { .. }, ReplaceName::Replacement) => Some(expected_replacement@),
        (Recovery::Restore { .. }, ReplaceName::Destination) => None,
        (Recovery::Restore { displaced }, ReplaceName::Displaced) => Some(displaced@),
        (Recovery::Reverse { .. }, ReplaceName::Replacement) => None,
        (Recovery::Reverse { destination, .. }, ReplaceName::Destination) => Some(destination@),
        (Recovery::Reverse { displaced, .. }, ReplaceName::Displaced) => Some(displaced@),
    }
}

/// A name that changed again before the replacement was taken back.
pub open spec fn changed_again(recovery: Recovery) -> Seq<char> {
    match recovery {
        Recovery::Restore { .. } =>
            "ReplaceFileW partial-failure recovery was not attempted because a path changed again; every path was preserved"@,
        Recovery::Reverse { .. } =>
            "ReplaceFileW recovery was not attempted because an operand changed again; every path was preserved"@,
    }
}

/// What a replacement does next.
pub open spec fn replace_next(
    displaced_path: Seq<char>,
    expected_replacement: FileToken,
    expected_destination: FileToken,
    stage: ReplaceStage,
    reply: ReplaceReply,
    step: ReplaceStep,
) -> bool {
    match (stage, reply) {
        (ReplaceStage::BindReplacement, ReplaceReply::Token(replacement)) => if replacement@
            == expected_replacement@ {
            step == ReplaceStep::Await(ReplaceStage::BindDestination)
        } else {
            replace_fails(
                step,
                "ReplaceFileW operands changed before the atomic publication boundary"@,
            )
        },
        (ReplaceStage::BindDestination, ReplaceReply::Token(destination)) => if destination@
            == expected_destination@ {
            step == ReplaceStep::Await(ReplaceStage::CheckDisplaced)
        } else {
            replace_fails(
                step,
                "ReplaceFileW operands changed before the atomic publication boundary"@,
            )
        },
        (ReplaceStage::CheckDisplaced, ReplaceReply::Sight(displaced)) => if displaced is None {
            step == ReplaceStep::Await(ReplaceStage::Replace)
        } else {
            replace_fails(step, "displaced recovery path already exists: "@ + displaced_path)
        },
        (
            ReplaceStage::Replace,
            ReplaceReply::Moved { boundary, replacement, destination, displaced },
        ) => if boundary is None && replacement is None && seen(destination) == Some(
            expected_replacement@,
        ) && seen(displaced) == Some(expected_destination@) {
            step matches ReplaceStep::Finished(Ok(word)) && word@ == "replaced"@
        } else if boundary is Some && seen(replacement) == Some(expected_replacement@) && seen(
            destination,
        ) == Some(expected_destination@) && displaced is None {
            replace_fails(
                step,
                "ReplaceFileW failed without changing any operand: "@ + joined(boundary->0@),
            )
        } else if destination is None && displaced is Some && seen(replacement) == Some(
            expected_replacement@,
        ) {
            step == ReplaceStep::Await(
                ReplaceStage::Recheck {
                    name: ReplaceName::Replacement,
                    recovery: Recovery::Restore { displaced: displaced->0 },
                },
            )
        } else if replacement is None && destination is Some && displaced is Some && (seen(
            destination,
        ) == Some(expected_replacement@) || seen(destination) == Some(expected_destination@)
            || seen(displaced) == Some(expected_destination@)) {
            step == ReplaceStep::Await(
                ReplaceStage::Recheck {
                    name: ReplaceName::Replacement,
                    recovery: Recovery::Reverse {
                        destination: destination->0,
                        displaced: displaced->0,
                    },
                },
            )
        } else {
            replace_fails(
                step,
                "ReplaceFileW ended in an unclassified state; replacement, public, and displaced paths were preserved"@,
            )
        },
        (ReplaceStage::Recheck { name, recovery }, ReplaceReply::Sight(found)) => if seen(found)
            != shown_before(expected_replacement, name, recovery) {
            replace_fails(step, changed_again(recovery))
        } else {
            match name {
                ReplaceName::Replacement => step == ReplaceStep::Await(
                    ReplaceStage::Recheck { name: ReplaceName::Destination, recovery },
                ),
                ReplaceName::Destination => step == ReplaceStep::Await(
                    ReplaceStage::Recheck { name: ReplaceName::Displaced, recovery },
                ),
                ReplaceName::Displaced => step == ReplaceStep::Await(
                    ReplaceStage::Recover { recovery },
                ),
            }
        },
        (
            ReplaceStage::Recover { recovery },
            ReplaceReply::Moved { boundary, replacement, destination, displaced },
        ) => match recovery {
            Recovery::Restore { displaced: moved } => if seen(replacement) == Some(
                expected_replacement@,
            ) && seen(destination) == Some(moved@) && displaced is None {
                replace_fails(
                    step,
                    "ReplaceFileW failed after displacing the actual destination; that destination was restored without replacement"@
                        + restoration_note(boundary),
                )
            } else {
                replace_fails(
                    step,
                    "ReplaceFileW partial-failure recovery ended in an unclassified state; every path was preserved"@,
                )
            },
            Recovery::Reverse { destination: actual, displaced: moved } => if seen(replacement)
                == Some(actual@) && seen(destination) == Some(moved@) && displaced is None {
                replace_fails(
                    step,
                    "ReplaceFileW did not commit its expected state; the actual destination and replacement were restored"@
                        + (match boundary {
                        None => ""@,
                        Some(fault) => "; restoration boundary failed: "@ + joined(fault@),
                    }),
                )
            } else {
                replace_fails(
                    step,
                    "ReplaceFileW recovery ended in an unclassified state; every path was preserved"@,
                )
            },
        },
        (_, ReplaceReply::Failed(fault)) => step matches ReplaceStep::Finished(Err(f)) && f == fault,
        _ => step matches ReplaceStep::Finished(Err(f)) && f@ == misfit(),
    }
}

fn decline(message: &str) -> (r: ReplaceStep)
    ensures
        replace_fails(r, message@),
{
    ReplaceStep::Finished(Err(Fault::of(message)))
}

fn shows_as_before(
    found: &Option<FileToken>,
    expected_replacement: &FileToken,
    name: ReplaceName,
    recovery: &Recovery,
) -> (r: bool)
    ensures
        r == (seen(*found) == shown_before(*expected_replacement, name, *recovery)),
{
    match (recovery, name) {
        (Recovery::Restore { .. }, ReplaceName::Replacement) => shows(found, expected_replacement),
        (Recovery::Restore { .. }, ReplaceName::Destination) => found.is_none(),
        (Recovery::Restore { displaced }, ReplaceName::Displaced) => shows(found, displaced),
        (Recovery::Reverse { .. }, ReplaceName::Replacement) => found.is_none(),
        (Recovery::Reverse { destination, .. }, ReplaceName::Destination) => shows(
            found,
            destination,
        ),
        (Recovery::Reverse { displaced, .. }, ReplaceName::Displaced) => shows(found, displaced),
    }
}

/// What a replacement does next. It starts with
/// `ReplaceStage::BindReplacement`.
pub fn replace_with_displaced_exact(
    displaced_path: &str,
    expected_replacement: &FileToken,
    expected_destination: &FileToken,
    stage: ReplaceStage,
    reply: ReplaceReply,
) -> (r: ReplaceStep)
    ensures
        replace_next(
            displaced_path@,
            *expected_replacement,
            *expected_destination,
            stage,
            reply,
            r,
        ),
{
    match (stage, reply) {
        (_, ReplaceReply::Failed(fault)) => ReplaceStep::Finished(Err(fault)),
        (ReplaceStage::BindReplacement, ReplaceReply::Token(replacement)) => {
            if replacement.same(expected_replacement) {
                ReplaceStep::Await(ReplaceStage::BindDestination)
            } else {
                decline("ReplaceFileW operands changed before the atomic publication boundary")
            }
        },
        (ReplaceStage::BindDestination, ReplaceReply::Token(destination)) => {
            if destination.same(expected_destination) {
                ReplaceStep::Await(ReplaceStage::CheckDisplaced)
            } else {
                decline("ReplaceFileW operands changed before the atomic publication boundary")
            }
        },
        (ReplaceStage::CheckDisplaced, ReplaceReply::Sight(displaced)) => {
            if displaced.is_none() {
                ReplaceStep::Await(ReplaceStage::Replace)
            } else {
                decline(join2("displaced recovery path already exists: ", displaced_path).as_str())
            }
        },
        (
            ReplaceStage::Replace,
            ReplaceReply::Moved { boundary, replacement, destination, displaced },
        ) => {
            if boundary.is_none() && replacement.is_none() && shows(
                &destination,
                expected_replacement,
            ) && shows(&displaced, expected_destination) {
                return ReplaceStep::Finished(Ok("replaced".to_owned()));
            }
            if let Some(fault) = &boundary {
                if shows(&replacement, expected_replacement) && shows(
                    &destination,
                    expected_destination,
                ) && displaced.is_none() {
                    return decline(
                        join2(
                            "ReplaceFileW failed without changing any operand: ",
                            fault.detail().as_str(),
                        ).as_str(),
                    );
                }
            }
            if destination.is_none() && shows(&replacement, expected_replacement) {
                if let Some(displaced) = displaced {
                    return ReplaceStep::Await(
                        ReplaceStage::Recheck {
                            name: ReplaceName::Replacement,
                            recovery: Recovery::Restore { displaced },
                        },
                    );
                }
            }
            let anchored = shows(&destination, expected_replacement) || shows(
                &destination,
                expected_destination,
            ) || shows(&displaced, expected_destination);
            if replacement.is_none() && anchored {
                if let (Some(destination), Some(displaced)) = (destination, displaced) {
                    return ReplaceStep::Await(
                        ReplaceStage::Recheck {
                            name: ReplaceName::Replacement,
                            recovery: Recovery::Reverse { destination, displaced },
                        },
                    );
                }
            }
            decline(
                "ReplaceFileW ended in an unclassified state; replacement, public, and displaced paths were preserved",
            )
        },
        (ReplaceStage::Recheck { name, recovery }, ReplaceReply::Sight(found)) => {
            if !shows_as_before(&found, expected_replacement, name, &recovery) {
                return match recovery {
                    Recovery::Restore { .. } => decline(
                        "ReplaceFileW partial-failure recovery was not attempted because a path changed again; every path was preserved",
                    ),
                    Recovery::Reverse { .. } => decline(
                        "ReplaceFileW recovery was not attempted because an operand changed again; every path was preserved",
                    ),
                };
            }
            match name {
                ReplaceName::Replacement => ReplaceStep::Await(
                    ReplaceStage::Recheck { name: ReplaceName::Destination, recovery },
                ),
                ReplaceName::Destination => ReplaceStep::Await(
                    ReplaceStage::Recheck { name: ReplaceName::Displaced, recovery },
                ),
                ReplaceName::Displaced => ReplaceStep::Await(ReplaceStage::Recover { recovery }),
            }
        },
        (
            ReplaceStage::Recover { recovery },
            ReplaceReply::Moved { boundary, replacement, destination, displaced },
        ) => match recovery {
            Recovery::Restore { displaced: moved } => {
                if shows(&replacement, expected_replacement) && shows(&destination, &moved)
                    && displaced.is_none() {
                    decline(
                        noted(
                            "ReplaceFileW failed after displacing the actual destination; that destination was restored without replacement",
                            &boundary,
                        ).as_str(),
                    )
                } else {
                    decline(
                        "ReplaceFileW partial-failure recovery ended in an unclassified state; every path was preserved",
                    )
                }
            },
            Recovery::Reverse { destination: actual, displaced: moved } => {
                if shows(&replacement, &actual) && shows(&destination, &moved)
                    && displaced.is_none() {
                    let note = match boundary {
                        None => "".to_owned(),
                        Some(fault) => join2(
                            "; restoration boundary failed: ",
                            fault.detail().as_str(),
                        ),
                    };
                    decline(
                        join2(
                            "ReplaceFileW did not commit its expected state; the actual destination and replacement were restored",
                            note.as_str(),
                        ).as_str(),
                    )
                } else {
                    decline(
                        "ReplaceFileW recovery ended in an unclassified state; every path was preserved",
                    )
                }
            },
        },
        _ => ReplaceStep::Finished(Err(misfit_fault())),
    }
}

/// A replacement is reported only where the three names were seen to be exact: the
/// replacement moved to the destination, and the destination to the recovery
/// name. It is taken back only right after the recovery name was seen to hold
/// what it held before.
pub proof fn law_replacement_succeeds_only_exactly(
    displaced_path: Seq<char>,
    expected_replacement: FileToken,
    expected_destination: FileToken,
    stage: ReplaceStage,
    reply: ReplaceReply,
    step: ReplaceStep,
)
    requires
        replace_next(
            displaced_path,
            expected_replacement,
            expected_destination,
            stage,
            reply,
            step,
        ),
    ensures
        step matches ReplaceStep::Finished(Ok(_)) ==> stage == ReplaceStage::Replace && (reply
            matches ReplaceReply::Moved { boundary, replacement, destination, displaced }
            && boundary is None && replacement is None && seen(destination) == Some(
            expected_replacement@,
        ) && seen(displaced) == Some(expected_destination@)),
        step matches ReplaceStep::Await(ReplaceStage::Recover { recovery }) ==> stage == (
        ReplaceStage::Recheck { name: ReplaceName::Displaced, recovery }) && (reply matches
            ReplaceReply::Sight(found) && seen(found) == shown_before(
            expected_replacement,
            ReplaceName::Displaced,
            recovery,
        )),
{
}

} // verus!
