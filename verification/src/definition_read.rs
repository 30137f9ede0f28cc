//! Reading an installed definition exactly: the bytes of one unchanged file and,
//! for a scheduled task, what the scheduler exports of it.
use vstd::prelude::*;
use vstd::utf8::encode_utf8;

use crate::fault::{join2, join3, Fault};
use crate::fs_ops::{same_bytes, FileToken};
use crate::outside::sha256;
use crate::removal::{misfit, misfit_fault};
use crate::service_listing::{latin, listing_has, task_listing_contains_name};
use crate::service_render::WINDOWS_TASK_NAME;
use crate::service_state::ServiceDefinition;
use crate::text::{pieces, CharClass};

verus! {

/// What a definition is.
#[derive(Clone, Copy, Debug, PartialEq, Eq, Structural)]
pub enum DefinitionKind {
    /// The file of a user service.
    ServiceFile,
    /// The file of a scheduled task, which the scheduler exports too.
    ScheduledTask,
}

/// The operation that reading a definition waits for.
#[derive(Debug, PartialEq, Eq)]
pub enum ReadStage {
    /// Listing the scheduled tasks.
    List,
    /// Exporting the task.
    Export,
    /// Looking at the file's name.
    LookPath { xml: Option<Vec<u8>> },
    /// Opening the file.
    Open { token: FileToken, xml: Option<Vec<u8>> },
    /// Reading the token of the open file.
    BindOpened { token: FileToken, xml: Option<Vec<u8>> },
    /// Reading the open file.
    ReadContents { token: FileToken, xml: Option<Vec<u8>> },
    /// Reading the token of the open file once more.
    BindAfter { token: FileToken, xml: Option<Vec<u8>>, contents: Vec<u8> },
    /// Reading the token under the file's name.
    RebindPath { token: FileToken, xml: Option<Vec<u8>>, contents: Vec<u8>, after: FileToken },
    /// Listing the scheduled tasks once more.
    ListAgain { found: ServiceDefinition },
    /// Exporting the task once more.
    ExportAgain { found: ServiceDefinition },
}

/// What the operation gave.
#[derive(Debug, PartialEq, Eq)]
pub enum ReadReply {
    Done(Result<(), Fault>),
    /// What a command printed, or what a file holds.
    Bytes(Result<Vec<u8>, Fault>),
    Sight(Result<Option<FileToken>, Fault>),
    Token(Result<FileToken, Fault>),
}

/// What reading a definition does next; it succeeds with the definition, if there
/// is one.
#[derive(Debug, PartialEq, Eq)]
pub enum ReadStep {
    Await(ReadStage),
    Finished(Result<Option<ServiceDefinition>, Fault>),
}

/// Whether reading ends with a failure.
pub open spec fn read_fails(step: ReadStep, messages: Seq<Seq<char>>) -> bool {
    step matches ReadStep::Finished(Err(fault)) && fault@ == messages
}

/// What a definition is called.
pub open spec fn definition_noun(kind: DefinitionKind) -> Seq<char> {
    match kind {
        DefinitionKind::ServiceFile => "service definition"@,
        DefinitionKind::ScheduledTask => "scheduled-task definition"@,
    }
}

/// A file that changed while it was read.
pub open spec fn changed_while_read(kind: DefinitionKind, path: Seq<char>) -> Seq<char> {
    match kind {
        DefinitionKind::ServiceFile => "service definition changed while it was read: "@ + path,
        DefinitionKind::ScheduledTask =>
            "scheduled-task definition changed while its lifecycle snapshot was read: "@ + path,
    }
}

/// Whether a listing names the daemon's task.
pub open spec fn task_listed(listing: Seq<u8>) -> Result<bool, Seq<char>> {
    listing_has(
        pieces(latin(listing), CharClass::Just('\n')),
        true,
        latin(encode_utf8(WINDOWS_TASK_NAME@)),
        false,
    )
}

/// Where reading starts.
pub open spec fn first_read_stage(kind: DefinitionKind) -> ReadStage {
    match kind {
        DefinitionKind::ServiceFile => ReadStage::LookPath { xml: None },
        DefinitionKind::ScheduledTask => ReadStage::List,
    }
}

/// What the look at the file's name leads to: the scheduler and its directory
/// must agree on whether there is a task.
pub open spec fn look_leads_to(
    kind: DefinitionKind,
    path: Seq<char>,
    xml: Option<Vec<u8>>,
    sight: Option<FileToken>,
    step: ReadStep,
) -> bool {
    match sight {
        Some(token) => if kind == DefinitionKind::ServiceFile || xml is Some {
            step == ReadStep::Await(ReadStage::Open { token, xml })
        } else {
            read_fails(step, seq![disagreement(path)])
        },
        None => if xml is None {
            step == ReadStep::Finished(Ok(None))
        } else {
            read_fails(step, seq![disagreement(path)])
        },
    }
}

/// A task that only one of the scheduler and its directory has.
pub open spec fn disagreement(path: Seq<char>) -> Seq<char> {
    "Task Scheduler and its trusted definition "@ + path
        + " disagreed while capturing lifecycle state"@
}

/// What reading does next. Each look is judged before the next one is taken.
pub open spec fn read_next(
    kind: DefinitionKind,
    path: Seq<char>,
    stage: ReadStage,
    reply: ReadReply,
    step: ReadStep,
) -> bool {
    match (stage, reply) {
        (ReadStage::ReadContents { .. }, ReadReply::Bytes(Err(error))) => read_fails(
            step,
            seq!["reading "@ + definition_noun(kind) + " "@ + path] + error@,
        ),
        (_, ReadReply::Done(Err(error))) => read_fails(step, error@),
        (_, ReadReply::Bytes(Err(error))) => read_fails(step, error@),
        (_, ReadReply::Sight(Err(error))) => read_fails(step, error@),
        (_, ReadReply::Token(Err(error))) => read_fails(step, error@),
        (ReadStage::List, ReadReply::Bytes(Ok(listing))) => match task_listed(listing@) {
            Err(message) => read_fails(step, seq![message]),
            Ok(true) => step == ReadStep::Await(ReadStage::Export),
            Ok(false) => step == ReadStep::Await(ReadStage::LookPath { xml: None }),
        },
        (ReadStage::Export, ReadReply::Bytes(Ok(xml))) => step == ReadStep::Await(
            ReadStage::LookPath { xml: Some(xml) },
        ),
        (ReadStage::LookPath { xml }, ReadReply::Sight(Ok(sight))) => look_leads_to(
            kind,
            path,
            xml,
            sight,
            step,
        ),
        (ReadStage::Open { token, xml }, ReadReply::Done(Ok(_))) => step == ReadStep::Await(
            ReadStage::BindOpened { token, xml },
        ),
        (ReadStage::BindOpened { token, xml }, ReadReply::Token(Ok(opened))) => if opened@
            == token@ {
            step == ReadStep::Await(ReadStage::ReadContents { token, xml })
        } else {
            read_fails(
                step,
                seq![definition_noun(kind) + " changed while it was opened: "@ + path],
            )
        },
        (ReadStage::ReadContents { token, xml }, ReadReply::Bytes(Ok(contents))) => step
            == ReadStep::Await(ReadStage::BindAfter { token, xml, contents }),
        (ReadStage::BindAfter { token, xml, contents }, ReadReply::Token(Ok(after))) => step
            == ReadStep::Await(ReadStage::RebindPath { token, xml, contents, after }),
        (ReadStage::RebindPath { token, xml, contents, after }, ReadReply::Token(Ok(live))) => {
            let found = ServiceDefinition { contents, token, scheduler_xml: xml };
            if after@ != token@ || live@ != token@ || token@.digest != sha256(contents@) {
                read_fails(step, seq![changed_while_read(kind, path)])
            } else if kind == DefinitionKind::ScheduledTask {
                step == ReadStep::Await(ReadStage::ListAgain { found })
            } else {
                step == ReadStep::Finished(Ok(Some(found)))
            }
        },
        (ReadStage::ListAgain { found }, ReadReply::Bytes(Ok(listing))) => match task_listed(
            listing@,
        ) {
            Err(message) => read_fails(step, seq![message]),
            Ok(true) => step == ReadStep::Await(ReadStage::ExportAgain { found }),
            Ok(false) => read_fails(
                step,
                seq![
                    "Task Scheduler no longer reports "@ + WINDOWS_TASK_NAME@
                        + " while its XML was required"@,
                ],
            ),
        },
        (ReadStage::ExportAgain { found }, ReadReply::Bytes(Ok(xml))) => if found.scheduler_xml matches Some(
            before,
        ) && before@ == xml@ {
            step == ReadStep::Finished(Ok(Some(found)))
        } else {
            read_fails(
                step,
                seq!["Task Scheduler XML changed while its lifecycle snapshot was captured"@],
            )
        },
        _ => read_fails(step, misfit()),
    }
}

fn read_fault(fault: Fault) -> (r: ReadStep)
    ensures
        read_fails(r, fault@),
{
    ReadStep::Finished(Err(fault))
}

fn listed(listing: &[u8]) -> (r: Result<bool, Fault>)
    ensures
        match (r, task_listed(listing@)) {
            (Ok(a), Ok(b)) => a == b,
            (Err(fault), Err(message)) => fault@ == seq![message],
            _ => false,
        },
{
    task_listing_contains_name(listing, WINDOWS_TASK_NAME)
}

fn noun_of(kind: DefinitionKind) -> (r: &'static str)
    ensures
        r@ == definition_noun(kind),
{
    match kind {
        DefinitionKind::ServiceFile => "service definition",
        DefinitionKind::ScheduledTask => "scheduled-task definition",
    }
}

/// What reading a definition starts with.
pub fn begin_definition_snapshot(kind: DefinitionKind) -> (r: ReadStage)
    ensures
        r == first_read_stage(kind),
{
    match kind {
        DefinitionKind::ServiceFile => ReadStage::LookPath { xml: None },
        DefinitionKind::ScheduledTask => ReadStage::List,
    }
}

impl ReadStage {
    /// What a command of the scheduler is run for.
    pub fn task_action(&self) -> (r: Option<&'static str>)
        ensures
            match *self {
                ReadStage::List => r matches Some(action) && action@
                    == "list scheduled tasks for exact service-state inspection"@,
                ReadStage::ListAgain { .. } => r matches Some(action) && action@
                    == "list scheduled tasks for exact service-state inspection"@,
                ReadStage::Export => r matches Some(action) && action@
                    == "export scheduled task while capturing its exact lifecycle snapshot"@,
                ReadStage::ExportAgain { .. } => r matches Some(action) && action@
                    == "re-export scheduled task after capturing its lifecycle snapshot"@,
                _ => r is None,
            },
    {
        match self {
            ReadStage::List => Some("list scheduled tasks for exact service-state inspection"),
            ReadStage::ListAgain { .. } => Some(
                "list scheduled tasks for exact service-state inspection",
            ),
            ReadStage::Export => Some(
                "export scheduled task while capturing its exact lifecycle snapshot",
            ),
            ReadStage::ExportAgain { .. } => Some(
                "re-export scheduled task after capturing its lifecycle snapshot",
            ),
            _ => None,
        }
    }
}

/// What reading a definition does next. It starts with what
/// `begin_definition_snapshot` gives.
pub fn definition_snapshot(kind: DefinitionKind, path: &str, stage: ReadStage, reply: ReadReply) -> (r:
    ReadStep)
    ensures
        read_next(kind, path@, stage, reply, r),
{
    match (stage, reply) {
        (ReadStage::ReadContents { .. }, ReadReply::Bytes(Err(error))) => read_fault(
            error.context(join2(join3("reading ", noun_of(kind), " ").as_str(), path)),
        ),
        (_, ReadReply::Done(Err(error))) => read_fault(error),
        (_, ReadReply::Bytes(Err(error))) => read_fault(error),
        (_, ReadReply::Sight(Err(error))) => read_fault(error),
        (_, ReadReply::Token(Err(error))) => read_fault(error),
        (ReadStage::List, ReadReply::Bytes(Ok(listing))) => match listed(listing.as_slice()) {
            Err(fault) => read_fault(fault),
            Ok(true) => ReadStep::Await(ReadStage::Export),
            Ok(false) => ReadStep::Await(ReadStage::LookPath { xml: None }),
        },
        (ReadStage::Export, ReadReply::Bytes(Ok(xml))) => ReadStep::Await(
            ReadStage::LookPath { xml: Some(xml) },
        ),
        (ReadStage::LookPath { xml }, ReadReply::Sight(Ok(sight))) => match sight {
            Some(token) if kind == DefinitionKind::ServiceFile || xml.is_some() => ReadStep::Await(
                ReadStage::Open { token, xml },
            ),
            None if xml.is_none() => ReadStep::Finished(Ok(None)),
            _ => read_fault(
                Fault::from_text(
                    join3(
                        "Task Scheduler and its trusted definition ",
                        path,
                        " disagreed while capturing lifecycle state",
                    ),
                ),
            ),
        },
        (ReadStage::Open { token, xml }, ReadReply::Done(Ok(()))) => ReadStep::Await(
            ReadStage::BindOpened { token, xml },
        ),
        (ReadStage::BindOpened { token, xml }, ReadReply::Token(Ok(opened))) => {
            if opened.same(&token) {
                ReadStep::Await(ReadStage::ReadContents { token, xml })
            } else {
                read_fault(
                    Fault::from_text(
                        join3(noun_of(kind), " changed while it was opened: ", path),
                    ),
                )
            }
        },
        (ReadStage::ReadContents { token, xml }, ReadReply::Bytes(Ok(contents))) => ReadStep::Await(
            ReadStage::BindAfter { token, xml, contents },
        ),
        (ReadStage::BindAfter { token, xml, contents }, ReadReply::Token(Ok(after))) => {
            ReadStep::Await(ReadStage::RebindPath { token, xml, contents, after })
        },
        (ReadStage::RebindPath { token, xml, contents, after }, ReadReply::Token(Ok(live))) => {
            if !after.same(&token) || !live.same(&token) || !token.matches_bytes(
                contents.as_slice(),
            ) {
                return read_fault(
                    Fault::from_text(
                        match kind {
                            DefinitionKind::ServiceFile => join2(
                                "service definition changed while it was read: ",
                                path,
                            ),
                            DefinitionKind::ScheduledTask => join2(
                                "scheduled-task definition changed while its lifecycle snapshot was read: ",
                                path,
                            ),
                        },
                    ),
                );
            }
            let found = ServiceDefinition { contents, token, scheduler_xml: xml };
            match kind {
                DefinitionKind::ServiceFile => ReadStep::Finished(Ok(Some(found))),
                DefinitionKind::ScheduledTask => ReadStep::Await(ReadStage::ListAgain { found }),
            }
        },
        (ReadStage::ListAgain { found }, ReadReply::Bytes(Ok(listing))) => match listed(
            listing.as_slice(),
        ) {
            Err(fault) => read_fault(fault),
            Ok(true) => ReadStep::Await(ReadStage::ExportAgain { found }),
            Ok(false) => read_fault(
                Fault::from_text(
                    join3(
                        "Task Scheduler no longer reports ",
                        WINDOWS_TASK_NAME,
                        " while its XML was required",
                    ),
                ),
            ),
        },
        (ReadStage::ExportAgain { found }, ReadReply::Bytes(Ok(xml))) => {
            let same = match &found.scheduler_xml {
                Some(before) => same_bytes(before.as_slice(), xml.as_slice()),
                None => false,
            };
            if same {
                ReadStep::Finished(Ok(Some(found)))
            } else {
                read_fault(
                    Fault::of(
                        "Task Scheduler XML changed while its lifecycle snapshot was captured",
                    ),
                )
            }
        },
        _ => read_fault(misfit_fault()),
    }
}

// -- Laws --

/// Whether a definition is the content that its token stands for, with the
/// exported form exactly for a scheduled task.
pub open spec fn exactly_read(kind: DefinitionKind, found: ServiceDefinition) -> bool {
    found.token@.digest == sha256(found.contents@) && (found.scheduler_xml is Some <==> kind
        == DefinitionKind::ScheduledTask)
}

/// What holds of a stage that reading has come to.
pub open spec fn read_wf(kind: DefinitionKind, stage: ReadStage) -> bool {
    let task = kind == DefinitionKind::ScheduledTask;
    match stage {
        ReadStage::List => task,
        ReadStage::Export => task,
        ReadStage::LookPath { xml } => xml is Some ==> task,
        ReadStage::Open { xml, .. } => xml is Some <==> task,
        ReadStage::BindOpened { xml, .. } => xml is Some <==> task,
        ReadStage::ReadContents { xml, .. } => xml is Some <==> task,
        ReadStage::BindAfter { xml, .. } => xml is Some <==> task,
        ReadStage::RebindPath { xml, .. } => xml is Some <==> task,
        ReadStage::ListAgain { found } => task && exactly_read(kind, found),
        ReadStage::ExportAgain { found } => task && exactly_read(kind, found),
    }
}

/// A definition that is read is exactly the content that its token stands for, and
/// a scheduled task comes with its exported form.
pub proof fn law_a_definition_is_read_exactly(
    kind: DefinitionKind,
    path: Seq<char>,
    stage: ReadStage,
    reply: ReadReply,
    step: ReadStep,
)
    requires
        read_wf(kind, stage),
        read_next(kind, path, stage, reply, step),
    ensures
        read_wf(kind, first_read_stage(kind)),
        step matches ReadStep::Await(next) ==> read_wf(kind, next),
        step matches ReadStep::Finished(Ok(Some(found))) ==> exactly_read(kind, found),
{
}

/// There is no definition only where the file's name showed none and, for a
/// scheduled task, the scheduler listed none.
pub proof fn law_an_absent_definition_was_not_seen(
    kind: DefinitionKind,
    path: Seq<char>,
    stage: ReadStage,
    reply: ReadReply,
    step: ReadStep,
)
    requires
        read_next(kind, path, stage, reply, step),
        step matches ReadStep::Finished(Ok(None)),
    ensures
        stage == (ReadStage::LookPath { xml: None }),
        reply == ReadReply::Sight(Ok(None)),
{
}

} // verus!
