//! Renaming a directory without replacing anything: the directory is bound by
//! its identity first, and whatever turns up under the new name instead of it
//! is put back.
use vstd::prelude::*;

use crate::fault::{join2, join3, join4, join5, joined, Fault};
use crate::host_path::{HostPath, PathComponent};
use crate::removal::{misfit, misfit_fault};
use crate::text::same_text;

verus! {

/// Whether a file name can be a transaction's.
pub open spec fn plain_file_name(name: Seq<char>) -> bool {
    name.len() > 0 && name != "."@ && name != ".."@
}

/// What is wrong with the path of a transaction.
pub open spec fn direct_parent_problem(path: HostPath) -> Option<Seq<char>> {
    if !path.absolute {
        Some("installer transaction path is not absolute: "@ + path.display@)
    } else if path.parent is None {
        Some("transaction path has no parent: "@ + path.display@)
    } else if path.file_name is None {
        Some("transaction path has no file name: "@ + path.display@)
    } else if !plain_file_name(path.file_name->0@) {
        Some("invalid transaction file name: "@ + path.display@)
    } else {
        None
    }
}

/// The parent and the file name of a transaction's path, which must be absolute
/// and end in a plain name.
pub fn direct_parent(path: &HostPath) -> (r: Result<(&String, &String), Fault>)
    ensures
        match direct_parent_problem(*path) {
            Some(message) => r matches Err(fault) && fault@ == seq![message],
            None => r matches Ok((parent, name)) && Some(*parent) == path.parent && Some(*name)
                == path.file_name,
        },
{
    if !path.absolute {
        return Err(
            Fault::from_text(
                join2("installer transaction path is not absolute: ", path.display.as_str()),
            ),
        );
    }
    let parent = match &path.parent {
        Some(parent) => parent,
        None => {
            return Err(
                Fault::from_text(
                    join2("transaction path has no parent: ", path.display.as_str()),
                ),
            );
        },
    };
    let name = match &path.file_name {
        Some(name) => name,
        None => {
            return Err(
                Fault::from_text(
                    join2("transaction path has no file name: ", path.display.as_str()),
                ),
            );
        },
    };
    if name.as_str().is_empty() || same_text(name.as_str(), ".") || same_text(name.as_str(), "..") {
        return Err(
            Fault::from_text(join2("invalid transaction file name: ", path.display.as_str())),
        );
    }
    Ok((parent, name))
}

/// The names that a walk from the root opens one by one; what forbids the walk
/// otherwise. On Windows every component counts; elsewhere the current
/// directory is passed over.
pub open spec fn walk_from(components: Seq<PathComponent>, windows: bool, display: Seq<char>) -> Result<
    Seq<Seq<char>>,
    Seq<char>,
>
    decreases components.len(),
{
    if components.len() == 0 {
        Ok(Seq::empty())
    } else {
        let rest = walk_from(components.skip(1), windows, display);
        match components[0] {
            PathComponent::Root => rest,
            PathComponent::Normal(name) => match rest {
                Ok(names) => Ok(seq![name@] + names),
                Err(message) => Err(message),
            },
            PathComponent::Prefix => if windows {
                rest
            } else {
                Err("unexpected platform prefix in Unix transaction directory: "@ + display)
            },
            PathComponent::Current => if windows {
                Err("Windows transaction directory contains a relative component: "@ + display)
            } else {
                rest
            },
            PathComponent::Parent => if windows {
                Err("Windows transaction directory contains a relative component: "@ + display)
            } else {
                Err("transaction directory contains '..': "@ + display)
            },
        }
    }
}

/// The names that opening a directory component by component opens below the
/// root.
pub open spec fn directory_walk(path: HostPath, windows: bool) -> Result<Seq<Seq<char>>, Seq<char>> {
    if !path.absolute {
        if windows {
            Err("Windows transaction directory path is not absolute: "@ + path.display@)
        } else {
            Err("transaction directory path is not absolute: "@ + path.display@)
        }
    } else {
        match walk_from(path.components@, windows, path.display@) {
            Err(message) => Err(message),
            Ok(names) => if windows && !opens_something(path.components@) {
                Err("Windows transaction directory has no openable component: "@ + path.display@)
            } else {
                Ok(names)
            },
        }
    }
}

/// Whether a path has a root or a name.
pub open spec fn opens_something(components: Seq<PathComponent>) -> bool {
    exists|i: int|
        0 <= i < components.len() && (#[trigger] components[i] is Root || components[i] is Normal)
}

fn has_openable(components: &Vec<PathComponent>) -> (r: bool)
    ensures
        r == opens_something(components@),
{
    let mut i: usize = 0;
    while i < components.len()
        invariant
            i <= components@.len(),
            forall|k: int|
                0 <= k < i ==> !(#[trigger] components@[k] is Root || components@[k] is Normal),
        decreases components@.len() - i,
    {
        match &components[i] {
            PathComponent::Root => {
                assert(components@[i as int] is Root);
                return true;
            },
            PathComponent::Normal(_) => {
                assert(components@[i as int] is Normal);
                return true;
            },
            _ => {},
        }
        i = i + 1;
    }
    false
}

/// The names that opening a directory component by component opens below the
/// root.
pub fn open_direct_directory(path: &HostPath, windows: bool) -> (r: Result<Vec<String>, Fault>)
    ensures
        match (r, directory_walk(*path, windows)) {
            (Ok(names), Ok(walk)) => crate::text::texts(names@) == walk,
            (Err(fault), Err(message)) => fault@ == seq![message],
            _ => false,
        },
{
    if !path.absolute {
        return if windows {
            Err(
                Fault::from_text(
                    join2(
                        "Windows transaction directory path is not absolute: ",
                        path.display.as_str(),
                    ),
                ),
            )
        } else {
            Err(
                Fault::from_text(
                    join2("transaction directory path is not absolute: ", path.display.as_str()),
                ),
            )
        };
    }
    assert(path.components@.skip(0) =~= path.components@);
    let names = walk_names(&path.components, 0, windows, path.display.as_str())?;
    if windows && !has_openable(&path.components) {
        return Err(
            Fault::from_text(
                join2(
                    "Windows transaction directory has no openable component: ",
                    path.display.as_str(),
                ),
            ),
        );
    }
    Ok(names)
}

fn walk_names(components: &Vec<PathComponent>, from: usize, windows: bool, display: &str) -> (r: Result<
    Vec<String>,
    Fault,
>)
    requires
        from <= components@.len(),
    ensures
        match (r, walk_from(components@.skip(from as int), windows, display@)) {
            (Ok(names), Ok(walk)) => crate::text::texts(names@) == walk,
            (Err(fault), Err(message)) => fault@ == seq![message],
            _ => false,
        },
    decreases components@.len() - from,
{
    let ghost here = components@.skip(from as int);
    if from == components.len() {
        let names: Vec<String> = Vec::new();
        assert(crate::text::texts(names@) =~= Seq::empty());
        return Ok(names);
    }
    assert(here.skip(1) =~= components@.skip(from + 1));
    assert(here[0] == components@[from as int]);
    match &components[from] {
        PathComponent::Prefix => {
            if !windows {
                return Err(
                    Fault::from_text(
                        join2(
                            "unexpected platform prefix in Unix transaction directory: ",
                            display,
                        ),
                    ),
                );
            }
        },
        PathComponent::Current => {
            if windows {
                return Err(
                    Fault::from_text(
                        join2(
                            "Windows transaction directory contains a relative component: ",
                            display,
                        ),
                    ),
                );
            }
        },
        PathComponent::Parent => {
            if windows {
                return Err(
                    Fault::from_text(
                        join2(
                            "Windows transaction directory contains a relative component: ",
                            display,
                        ),
                    ),
                );
            }
            return Err(
                Fault::from_text(join2("transaction directory contains '..': ", display)),
            );
        },
        PathComponent::Root => {},
        PathComponent::Normal(name) => {
            let mut names = walk_names(components, from + 1, windows, display)?;
            let ghost before = names@;
            names.insert(0, name.clone());
            assert(crate::text::texts(names@) =~= seq![name@] + crate::text::texts(before));
            return Ok(names);
        },
    }
    walk_names(components, from + 1, windows, display)
}

/// The identity of a directory: its device and its number there.
#[derive(Clone, Copy, Debug, PartialEq, Eq, Structural)]
pub struct DirectoryIdentity {
    pub device: u64,
    pub number: u64,
}

/// What a visible rename is worth.
#[derive(Debug, PartialEq, Eq)]
pub enum DirectoryRenameOutcome {
    DurablyRenamed,
    VisibleDurabilityUnconfirmed { cause: Fault },
}

/// The two names of a rename, as messages show them.
#[derive(Debug, PartialEq, Eq)]
pub struct DirectoryRename {
    pub source: String,
    pub destination: String,
    pub source_parent: String,
    pub destination_parent: String,
}

/// The operation that a rename waits for.
#[derive(Debug, PartialEq, Eq)]
pub enum DirectoryRenameStage {
    /// Opening both parents and the source itself, without following links.
    Bind,
    /// Renaming the entry without replacing anything.
    Rename { moved: DirectoryIdentity },
    /// Opening the destination itself, without following links.
    OpenPublished { moved: DirectoryIdentity },
    /// Renaming an entry back that is no direct directory.
    UndoIndirect { cause: Fault },
    /// Flushing the parents after that.
    FlushIndirect { cause: Fault },
    /// Renaming a different directory back.
    UndoDifferent { published: DirectoryIdentity },
    /// Opening the source again; `rollback` is how renaming back failed.
    OpenRestored { published: DirectoryIdentity, rollback: Option<Fault> },
    /// Flushing the parents after that.
    FlushDifferent,
    /// Flushing the parents of a completed rename.
    FlushPublished,
}

/// What the operation gave. Of the flushed parents, `destination` is `None`
/// also where both are one directory.
#[derive(Debug, PartialEq, Eq)]
pub enum DirectoryRenameReply {
    Done,
    Identity(DirectoryIdentity),
    /// The entry is no directory, or a link to one.
    Indirect(Fault),
    Flushed { source: Option<Fault>, destination: Option<Fault> },
    Failed(Fault),
}

/// What a rename does next.
#[derive(Debug, PartialEq, Eq)]
pub enum DirectoryRenameStep {
    Await(DirectoryRenameStage),
    Finished(Result<DirectoryRenameOutcome, Fault>),
}

/// Whether a rename ends with a failure.
pub open spec fn rename_fails(step: DirectoryRenameStep, messages: Seq<Seq<char>>) -> bool {
    step matches DirectoryRenameStep::Finished(Err(fault)) && fault@ == messages
}

/// How an optional failure is shown.
pub open spec fn failure_or(fault: Option<Fault>, otherwise: Seq<char>) -> Seq<char> {
    match fault {
        Some(f) => if f@.len() == 0 {
            Seq::empty()
        } else {
            f@[0]
        },
        None => otherwise,
    }
}

/// The end of every message of a rename that could not be undone.
pub open spec fn rename_names(rename: DirectoryRename) -> Seq<char> {
    "(source "@ + rename.source@ + ", destination "@ + rename.destination@ + ", rollback: "@
}

/// What a rename does next.
pub open spec fn directory_rename_next(
    rename: DirectoryRename,
    stage: DirectoryRenameStage,
    reply: DirectoryRenameReply,
    step: DirectoryRenameStep,
) -> bool {
    match (stage, reply) {
        (DirectoryRenameStage::Bind, DirectoryRenameReply::Identity(moved)) => step
            == DirectoryRenameStep::Await(DirectoryRenameStage::Rename { moved }),
        (DirectoryRenameStage::Bind, DirectoryRenameReply::Failed(fault)) => rename_fails(
            step,
            fault@,
        ),
        (DirectoryRenameStage::Rename { moved }, DirectoryRenameReply::Done) => step
            == DirectoryRenameStep::Await(DirectoryRenameStage::OpenPublished { moved }),
        (DirectoryRenameStage::Rename { moved: _ }, DirectoryRenameReply::Failed(fault)) => rename_fails(
            step,
            seq![
                "atomically renaming directory without replacement "@ + rename.source@ + " -> "@
                    + rename.destination@,
            ] + fault@,
        ),
        (
            DirectoryRenameStage::OpenPublished { moved },
            DirectoryRenameReply::Identity(published),
        ) => if published == moved {
            step == DirectoryRenameStep::Await(DirectoryRenameStage::FlushPublished)
        } else {
            step == DirectoryRenameStep::Await(DirectoryRenameStage::UndoDifferent { published })
        },
        (
            DirectoryRenameStage::OpenPublished { moved: _ },
            DirectoryRenameReply::Indirect(fault),
        ) => {
            &&& step matches DirectoryRenameStep::Await(
                DirectoryRenameStage::UndoIndirect { cause },
            )
            &&& cause@ == seq![
                "opening the directory published by rename at "@ + rename.destination@,
            ] + fault@
        },
        (
            DirectoryRenameStage::OpenPublished { moved: _ },
            DirectoryRenameReply::Failed(fault),
        ) => rename_fails(step, seq!["binding renamed directory "@ + rename.destination@] + fault@),
        (DirectoryRenameStage::UndoIndirect { cause }, DirectoryRenameReply::Done) => step
            == DirectoryRenameStep::Await(DirectoryRenameStage::FlushIndirect { cause }),
        (
            DirectoryRenameStage::UndoIndirect { cause },
            DirectoryRenameReply::Failed(fault),
        ) => rename_fails(
            step,
            seq![
                "source entry changed into a non-direct directory during exact rename ("@ + joined(
                    cause@,
                )
                    + ") and exact restoration was not safe; profile metadata was not updated "@
                    + rename_names(rename) + failure_or(Some(fault), ""@) + ")"@,
            ],
        ),
        (
            DirectoryRenameStage::FlushIndirect { cause },
            DirectoryRenameReply::Flushed { source, destination },
        ) => rename_fails(
            step,
            seq![
                "source entry changed into a non-direct directory during exact rename ("@ + joined(
                    cause@,
                ) + "); the changed entry was restored without replacement to "@ + rename.source@
                    + " and profile metadata was not updated"@ + (if source is None
                    && destination is None {
                    ""@
                } else {
                    "; restoration durability was not confirmed"@
                }),
            ],
        ),
        (DirectoryRenameStage::UndoDifferent { published }, DirectoryRenameReply::Done) => step
            == DirectoryRenameStep::Await(
            DirectoryRenameStage::OpenRestored { published, rollback: None },
        ),
        (
            DirectoryRenameStage::UndoDifferent { published },
            DirectoryRenameReply::Failed(fault),
        ) => step == DirectoryRenameStep::Await(
            DirectoryRenameStage::OpenRestored { published, rollback: Some(fault) },
        ),
        (
            DirectoryRenameStage::OpenRestored { published, rollback },
            DirectoryRenameReply::Identity(restored),
        ) => if rollback is None && restored == published {
            step == DirectoryRenameStep::Await(DirectoryRenameStage::FlushDifferent)
        } else {
            rename_fails(step, seq![different_not_restored(rename, rollback)])
        },
        (
            DirectoryRenameStage::OpenRestored { published: _, rollback },
            DirectoryRenameReply::Failed(_),
        ) => rename_fails(step, seq![different_not_restored(rename, rollback)]),
        (
            DirectoryRenameStage::FlushDifferent,
            DirectoryRenameReply::Flushed { source, destination },
        ) => rename_fails(
            step,
            seq![
                "source directory changed during exact rename; the different directory was restored without replacement from "@
                    + rename.destination@ + " to "@ + rename.source@
                    + ", profile metadata was not updated"@ + (if source is None
                    && destination is None {
                    ""@
                } else {
                    "; restoration durability was not confirmed (source parent: "@ + failure_or(
                        source,
                        "ok"@,
                    ) + "; destination parent: "@ + failure_or(destination, "ok"@) + ")"@
                }),
            ],
        ),
        (
            DirectoryRenameStage::FlushPublished,
            DirectoryRenameReply::Flushed { source, destination },
        ) => if source is None && destination is None {
            step == DirectoryRenameStep::Finished(Ok(DirectoryRenameOutcome::DurablyRenamed))
        } else {
            &&& step matches DirectoryRenameStep::Finished(
                Ok(DirectoryRenameOutcome::VisibleDurabilityUnconfirmed { cause }),
            )
            &&& cause@ == seq![unflushed(rename, source, destination)]
        },
        _ => rename_fails(step, misfit()),
    }
}

/// A different directory that was not put back.
pub open spec fn different_not_restored(rename: DirectoryRename, rollback: Option<Fault>) -> Seq<
    char,
> {
    "source directory changed during exact rename and exact restoration was not safe; profile metadata was not updated "@
        + rename_names(rename) + failure_or(rollback, "postcondition mismatch"@) + ")"@
}

/// Which parents were not flushed.
pub open spec fn unflushed(
    rename: DirectoryRename,
    source: Option<Fault>,
    destination: Option<Fault>,
) -> Seq<char> {
    let first = "source parent "@ + rename.source_parent@ + ": "@ + failure_or(source, ""@);
    let second = "destination parent "@ + rename.destination_parent@ + ": "@ + failure_or(
        destination,
        ""@,
    );
    if source is Some && destination is Some {
        first + "; "@ + second
    } else if source is Some {
        first
    } else {
        second
    }
}

fn failure_text(fault: &Option<Fault>, otherwise: &str) -> (r: String)
    ensures
        r@ == failure_or(*fault, otherwise@),
{
    match fault {
        Some(f) => f.headline(),
        None => otherwise.to_owned(),
    }
}

fn names_text(rename: &DirectoryRename) -> (r: String)
    ensures
        r@ == rename_names(*rename),
{
    join5(
        "(source ",
        rename.source.as_str(),
        ", destination ",
        rename.destination.as_str(),
        ", rollback: ",
    )
}

fn different_not_restored_fault(rename: &DirectoryRename, rollback: &Option<Fault>) -> (r: Fault)
    ensures
        r@ == seq![different_not_restored(*rename, *rollback)],
{
    Fault::from_text(
        join4(
            "source directory changed during exact rename and exact restoration was not safe; profile metadata was not updated ",
            names_text(rename).as_str(),
            failure_text(rollback, "postcondition mismatch").as_str(),
            ")",
        ),
    )
}

fn unflushed_fault(
    rename: &DirectoryRename,
    source: &Option<Fault>,
    destination: &Option<Fault>,
) -> (r: Fault)
    requires
        source is Some || destination is Some,
    ensures
        r@ == seq![unflushed(*rename, *source, *destination)],
{
    let first = join4(
        "source parent ",
        rename.source_parent.as_str(),
        ": ",
        failure_text(source, "").as_str(),
    );
    let second = join4(
        "destination parent ",
        rename.destination_parent.as_str(),
        ": ",
        failure_text(destination, "").as_str(),
    );
    if source.is_some() && destination.is_some() {
        Fault::from_text(join3(first.as_str(), "; ", second.as_str()))
    } else if source.is_some() {
        Fault::from_text(first)
    } else {
        Fault::from_text(second)
    }
}

fn fail(fault: Fault) -> (r: DirectoryRenameStep)
    ensures
        rename_fails(r, fault@),
{
    DirectoryRenameStep::Finished(Err(fault))
}

/// What a rename does next. It starts with `DirectoryRenameStage::Bind`.
pub fn rename_directory_noreplace_durable(
    rename: &DirectoryRename,
    stage: DirectoryRenameStage,
    reply: DirectoryRenameReply,
) -> (r: DirectoryRenameStep)
    ensures
        directory_rename_next(*rename, stage, reply, r),
{
    match (stage, reply) {
        (
            DirectoryRenameStage::Bind,
            DirectoryRenameReply::Identity(moved),
        ) => DirectoryRenameStep::Await(DirectoryRenameStage::Rename { moved }),
        (DirectoryRenameStage::Bind, DirectoryRenameReply::Failed(fault)) => fail(fault),
        (
            DirectoryRenameStage::Rename { moved },
            DirectoryRenameReply::Done,
        ) => DirectoryRenameStep::Await(DirectoryRenameStage::OpenPublished { moved }),
        (DirectoryRenameStage::Rename { moved: _ }, DirectoryRenameReply::Failed(fault)) => fail(
            fault.context(
                join4(
                    "atomically renaming directory without replacement ",
                    rename.source.as_str(),
                    " -> ",
                    rename.destination.as_str(),
                ),
            ),
        ),
        (
            DirectoryRenameStage::OpenPublished { moved },
            DirectoryRenameReply::Identity(published),
        ) => if published == moved {
            DirectoryRenameStep::Await(DirectoryRenameStage::FlushPublished)
        } else {
            DirectoryRenameStep::Await(DirectoryRenameStage::UndoDifferent { published })
        },
        (
            DirectoryRenameStage::OpenPublished { moved: _ },
            DirectoryRenameReply::Indirect(fault),
        ) => DirectoryRenameStep::Await(
            DirectoryRenameStage::UndoIndirect {
                cause: fault.context(
                    join2(
                        "opening the directory published by rename at ",
                        rename.destination.as_str(),
                    ),
                ),
            },
        ),
        (
            DirectoryRenameStage::OpenPublished { moved: _ },
            DirectoryRenameReply::Failed(fault),
        ) => fail(
            fault.context(join2("binding renamed directory ", rename.destination.as_str())),
        ),
        (
            DirectoryRenameStage::UndoIndirect { cause },
            DirectoryRenameReply::Done,
        ) => DirectoryRenameStep::Await(DirectoryRenameStage::FlushIndirect { cause }),
        (
            DirectoryRenameStage::UndoIndirect { cause },
            DirectoryRenameReply::Failed(fault),
        ) => {
            let mut text = join3(
                "source entry changed into a non-direct directory during exact rename (",
                cause.detail().as_str(),
                ") and exact restoration was not safe; profile metadata was not updated ",
            );
            text.append(names_text(rename).as_str());
            text.append(fault.headline().as_str());
            text.append(")");
            fail(Fault::from_text(text))
        },
        (
            DirectoryRenameStage::FlushIndirect { cause },
            DirectoryRenameReply::Flushed { source, destination },
        ) => {
            let mut text = join5(
                "source entry changed into a non-direct directory during exact rename (",
                cause.detail().as_str(),
                "); the changed entry was restored without replacement to ",
                rename.source.as_str(),
                " and profile metadata was not updated",
            );
            if source.is_none() && destination.is_none() {
                text.append("");
            } else {
                text.append("; restoration durability was not confirmed");
            }
            fail(Fault::from_text(text))
        },
        (
            DirectoryRenameStage::UndoDifferent { published },
            DirectoryRenameReply::Done,
        ) => DirectoryRenameStep::Await(
            DirectoryRenameStage::OpenRestored { published, rollback: None },
        ),
        (
            DirectoryRenameStage::UndoDifferent { published },
            DirectoryRenameReply::Failed(fault),
        ) => DirectoryRenameStep::Await(
            DirectoryRenameStage::OpenRestored { published, rollback: Some(fault) },
        ),
        (
            DirectoryRenameStage::OpenRestored { published, rollback },
            DirectoryRenameReply::Identity(restored),
        ) => if rollback.is_none() && restored == published {
            DirectoryRenameStep::Await(DirectoryRenameStage::FlushDifferent)
        } else {
            fail(different_not_restored_fault(rename, &rollback))
        },
        (
            DirectoryRenameStage::OpenRestored { published: _, rollback },
            DirectoryRenameReply::Failed(_),
        ) => fail(different_not_restored_fault(rename, &rollback)),
        (
            DirectoryRenameStage::FlushDifferent,
            DirectoryRenameReply::Flushed { source, destination },
        ) => {
            let mut text = join5(
                "source directory changed during exact rename; the different directory was restored without replacement from ",
                rename.destination.as_str(),
                " to ",
                rename.source.as_str(),
                ", profile metadata was not updated",
            );
            if source.is_none() && destination.is_none() {
                text.append("");
            } else {
                text.append(
                    join5(
                        "; restoration durability was not confirmed (source parent: ",
                        failure_text(&source, "ok").as_str(),
                        "; destination parent: ",
                        failure_text(&destination, "ok").as_str(),
                        ")",
                    ).as_str(),
                );
            }
            fail(Fault::from_text(text))
        },
        (
            DirectoryRenameStage::FlushPublished,
            DirectoryRenameReply::Flushed { source, destination },
        ) => if source.is_none() && destination.is_none() {
            DirectoryRenameStep::Finished(Ok(DirectoryRenameOutcome::DurablyRenamed))
        } else {
            DirectoryRenameStep::Finished(
                Ok(
                    DirectoryRenameOutcome::VisibleDurabilityUnconfirmed {
                        cause: unflushed_fault(rename, &source, &destination),
                    },
                ),
            )
        },
        _ => fail(misfit_fault()),
    }
}

/// A rename counts as done only where the directory that appeared under the
/// new name is the very one that was bound before; anything else that appeared
/// there is renamed back.
pub proof fn law_rename_publishes_only_the_bound_directory(
    rename: DirectoryRename,
    stage: DirectoryRenameStage,
    reply: DirectoryRenameReply,
    step: DirectoryRenameStep,
)
    requires
        directory_rename_next(rename, stage, reply, step),
    ensures
        step matches DirectoryRenameStep::Finished(Ok(_)) ==> stage
            == DirectoryRenameStage::FlushPublished,
        step == DirectoryRenameStep::Await(DirectoryRenameStage::FlushPublished) ==> (stage matches
            DirectoryRenameStage::OpenPublished { moved } && reply
            == DirectoryRenameReply::Identity(moved)),
        stage matches DirectoryRenameStage::OpenPublished { moved } && (reply matches
            DirectoryRenameReply::Identity(published) && published != moved) ==> step matches
            DirectoryRenameStep::Await(DirectoryRenameStage::UndoDifferent { published: _ }),
{
}

} // verus!
