//! The exact state of the installed service: its definition, bound to a file,
//! and what its manager reports.
use vstd::prelude::*;

use crate::fault::{join2, join3, join4, joined, Fault};
use crate::fs_ops::{same_bytes, token_text, FileToken};
use crate::number::{decimal, decimal_text};
use crate::removal::{misfit, misfit_fault};
use crate::settlement::TransientDiagnostics;

verus! {

/// A service definition: its bytes, the file that holds them and, for a
/// scheduled task, the definition that the scheduler exports.
#[derive(Debug, PartialEq, Eq)]
pub struct ServiceDefinition {
    pub contents: Vec<u8>,
    pub token: FileToken,
    pub scheduler_xml: Option<Vec<u8>>,
}

/// What is compared of a definition: the bytes, not the file that holds them.
pub open spec fn definition_state(definition: Option<ServiceDefinition>) -> Option<
    (Seq<u8>, Option<Seq<u8>>),
> {
    match definition {
        Some(d) => Some(
            (
                d.contents@,
                match d.scheduler_xml {
                    Some(xml) => Some(xml@),
                    None => None,
                },
            ),
        ),
        None => None,
    }
}

/// The exact state of the service. `loaded` is reported by launchd, `enabled`
/// and `active` by systemd; a manager that does not report one leaves it
/// `false`.
#[derive(Debug, PartialEq, Eq)]
pub struct ServiceStateSnapshot {
    pub definition: Option<ServiceDefinition>,
    pub loaded: bool,
    pub enabled: bool,
    pub active: bool,
    pub manager_pid: Option<u32>,
}

/// What is compared of a service's state.
pub struct ServiceStateView {
    pub definition: Option<(Seq<u8>, Option<Seq<u8>>)>,
    pub loaded: bool,
    pub enabled: bool,
    pub active: bool,
    pub manager_pid: Option<u32>,
}

impl View for ServiceStateSnapshot {
    type V = ServiceStateView;

    open spec fn view(&self) -> ServiceStateView {
        ServiceStateView {
            definition: definition_state(self.definition),
            loaded: self.loaded,
            enabled: self.enabled,
            active: self.active,
            manager_pid: self.manager_pid,
        }
    }
}

impl ServiceStateView {
    /// The same state with another manager process.
    pub open spec fn with_manager_pid(self, manager_pid: Option<u32>) -> Self {
        ServiceStateView { manager_pid, ..self }
    }

    /// The same state with a stopped manager.
    pub open spec fn with_manager_stopped(self) -> Self {
        ServiceStateView { loaded: false, active: false, manager_pid: None, ..self }
    }

    /// Neither a definition nor a manager process.
    pub open spec fn absent(self) -> bool {
        self.definition is None && self.manager_pid is None
    }
}

fn same_optional_bytes(a: &Option<Vec<u8>>, b: &Option<Vec<u8>>) -> (r: bool)
    ensures
        r == (match (*a, *b) {
            (Some(x), Some(y)) => x@ == y@,
            (None, None) => true,
            _ => false,
        }),
{
    match (a, b) {
        (Some(x), Some(y)) => same_bytes(x.as_slice(), y.as_slice()),
        (None, None) => true,
        _ => false,
    }
}

fn same_definition(a: &Option<ServiceDefinition>, b: &Option<ServiceDefinition>) -> (r: bool)
    ensures
        r == (definition_state(*a) == definition_state(*b)),
{
    match (a, b) {
        (Some(x), Some(y)) => same_bytes(x.contents.as_slice(), y.contents.as_slice())
            && same_optional_bytes(&x.scheduler_xml, &y.scheduler_xml),
        (None, None) => true,
        _ => false,
    }
}

fn same_pid(a: Option<u32>, b: Option<u32>) -> (r: bool)
    ensures
        r == (a == b),
{
    match (a, b) {
        (Some(x), Some(y)) => x == y,
        (None, None) => true,
        _ => false,
    }
}

impl ServiceStateSnapshot {
    /// Whether a definition is installed.
    pub fn is_installed(&self) -> (r: bool)
        ensures
            r == (self@.definition is Some),
    {
        self.definition.is_some()
    }

    /// The process that the manager runs.
    pub fn manager_pid(&self) -> (r: Option<u32>)
        ensures
            r == self@.manager_pid,
    {
        self.manager_pid
    }

    /// Whether the state is exactly the expected one.
    pub fn matches_exact_state(&self, expected: &Self) -> (r: bool)
        ensures
            r == (self@ == expected@),
    {
        self.matches_snapshot_with_manager(expected, expected.manager_pid)
    }

    /// Whether the state is exactly the expected one but for the manager
    /// process, which is given.
    pub fn matches_snapshot_with_manager(&self, expected: &Self, manager_pid: Option<u32>) -> (r:
        bool)
        ensures
            r == (self@ == expected@.with_manager_pid(manager_pid)),
    {
        same_definition(&self.definition, &expected.definition) && self.loaded == expected.loaded
            && self.enabled == expected.enabled && self.active == expected.active && same_pid(
            self.manager_pid,
            manager_pid,
        )
    }

    /// Whether the state is exactly the expected one with a stopped manager.
    pub fn matches_stopped(&self, expected: &Self) -> (r: bool)
        ensures
            r == (self@ == expected@.with_manager_stopped()),
    {
        same_definition(&self.definition, &expected.definition) && !self.loaded && self.enabled
            == expected.enabled && !self.active && self.manager_pid.is_none()
    }
}

/// What the service's state is at a boundary.
#[derive(Clone, Copy, Debug, PartialEq, Eq, Structural)]
pub enum ExactServiceBoundaryState {
    Absent,
    PriorExact,
    Ambiguous,
}

/// What an observed state is, compared with the prior one.
pub open spec fn boundary_state(observed: ServiceStateView, prior: ServiceStateView) -> ExactServiceBoundaryState {
    if observed.absent() {
        ExactServiceBoundaryState::Absent
    } else if observed == prior {
        ExactServiceBoundaryState::PriorExact
    } else {
        ExactServiceBoundaryState::Ambiguous
    }
}

/// What an observed state is, compared with the prior one.
pub fn classify_observed_service_state(
    observed: &ServiceStateSnapshot,
    prior: &ServiceStateSnapshot,
) -> (r: ExactServiceBoundaryState)
    ensures
        r == boundary_state(observed@, prior@),
{
    if !observed.is_installed() && observed.manager_pid().is_none() {
        ExactServiceBoundaryState::Absent
    } else if observed.matches_exact_state(prior) {
        ExactServiceBoundaryState::PriorExact
    } else {
        ExactServiceBoundaryState::Ambiguous
    }
}

/// What an uninstallation did.
#[derive(Debug, PartialEq, Eq)]
pub enum ExactServiceUninstallOutcome {
    Applied { operation_error: Option<Fault> },
    AppliedPendingVerification { post_state_error: Fault },
    PriorExact { operation_error: Fault },
}

/// What an uninstallation did, given how it ended and what is there now.
pub fn classify_exact_uninstall_transition(
    operation: Result<(), Fault>,
    observed_absent: bool,
    observed_prior_exact: bool,
) -> (r: Result<ExactServiceUninstallOutcome, Fault>)
    ensures
        uninstall_transition(operation, observed_absent, observed_prior_exact, r),
{
    if observed_absent && observed_prior_exact {
        return Err(
            Fault::of("service uninstall post-state cannot be both absent and the prior snapshot"),
        );
    }
    if observed_absent {
        return Ok(
            ExactServiceUninstallOutcome::Applied {
                operation_error: match operation {
                    Ok(()) => None,
                    Err(fault) => Some(fault),
                },
            },
        );
    }
    match operation {
        Err(fault) => if observed_prior_exact {
            Ok(ExactServiceUninstallOutcome::PriorExact { operation_error: fault })
        } else {
            Err(
                fault.within(
                    "service uninstall failed and the observed service state was neither exact removal nor the exact prior snapshot",
                ),
            )
        },
        Ok(()) => if observed_prior_exact {
            Err(
                Fault::of(
                    "service uninstall returned success without changing the exact prior service snapshot",
                ),
            )
        } else {
            Err(
                Fault::of(
                    "service uninstall returned success but the observed service state was neither exact removal nor the exact prior snapshot",
                ),
            )
        },
    }
}

/// What an uninstallation did: absence means that it was applied, however it
/// ended; the prior state means that it was not, and only a failure explains
/// that; anything else is an error.
pub open spec fn uninstall_transition(
    operation: Result<(), Fault>,
    absent: bool,
    prior: bool,
    r: Result<ExactServiceUninstallOutcome, Fault>,
) -> bool {
    if absent && prior {
        r matches Err(fault) && fault@ == seq![
            "service uninstall post-state cannot be both absent and the prior snapshot"@,
        ]
    } else if absent {
        r == Ok::<ExactServiceUninstallOutcome, Fault>(
            ExactServiceUninstallOutcome::Applied {
                operation_error: match operation {
                    Ok(_) => None,
                    Err(fault) => Some(fault),
                },
            },
        )
    } else {
        match operation {
            Err(error) => if prior {
                r == Ok::<ExactServiceUninstallOutcome, Fault>(
                    ExactServiceUninstallOutcome::PriorExact { operation_error: error },
                )
            } else {
                r matches Err(fault) && fault@ == seq![
                    "service uninstall failed and the observed service state was neither exact removal nor the exact prior snapshot"@,
                ] + error@
            },
            Ok(_) => r matches Err(fault) && fault@ == seq![
                if prior {
                    "service uninstall returned success without changing the exact prior service snapshot"@
                } else {
                    "service uninstall returned success but the observed service state was neither exact removal nor the exact prior snapshot"@
                },
            ],
        }
    }
}

/// What an uninstallation did, given how it ended and how looking at the
/// service afterwards ended.
pub open spec fn uninstall_observation(
    operation: Result<(), Fault>,
    observed: Result<ExactServiceBoundaryState, Fault>,
    r: Result<ExactServiceUninstallOutcome, Fault>,
) -> bool {
    match observed {
        Ok(state) => uninstall_transition(
            operation,
            state == ExactServiceBoundaryState::Absent,
            state == ExactServiceBoundaryState::PriorExact,
            r,
        ),
        Err(state_error) => match operation {
            Ok(_) => r matches Ok(
                ExactServiceUninstallOutcome::AppliedPendingVerification { post_state_error },
            ) && post_state_error@ == seq![
                "service uninstall returned success but its exact post-state could not be captured"@,
            ] + state_error@,
            Err(error) => r matches Err(fault) && fault@ == seq![
                "service uninstall also failed before its exact post-state could be captured: "@
                    + joined(error@),
            ] + state_error@,
        },
    }
}

/// What an uninstallation did, given how it ended and how looking at the
/// service afterwards ended.
pub fn classify_exact_uninstall_after_observation(
    operation: Result<(), Fault>,
    observed: Result<ExactServiceBoundaryState, Fault>,
) -> (r: Result<ExactServiceUninstallOutcome, Fault>)
    ensures
        uninstall_observation(operation, observed, r),
{
    match observed {
        Ok(state) => classify_exact_uninstall_transition(
            operation,
            state == ExactServiceBoundaryState::Absent,
            state == ExactServiceBoundaryState::PriorExact,
        ),
        Err(state_error) => match operation {
            Ok(()) => Ok(
                ExactServiceUninstallOutcome::AppliedPendingVerification {
                    post_state_error: state_error.within(
                        "service uninstall returned success but its exact post-state could not be captured",
                    ),
                },
            ),
            Err(error) => Err(
                state_error.context(
                    join2(
                        "service uninstall also failed before its exact post-state could be captured: ",
                        error.detail().as_str(),
                    ),
                ),
            ),
        },
    }
}

/// Uninstalls, then looks at the service, and says what the uninstallation did.
pub fn uninstall_locked_exact_with<Uninstall, Capture>(
    uninstall: Uninstall,
    capture_post_state: Capture,
) -> (r: Result<ExactServiceUninstallOutcome, Fault>) where
    Uninstall: FnOnce() -> Result<(), Fault>,
    Capture: FnOnce() -> Result<ExactServiceBoundaryState, Fault>,

    requires
        uninstall.requires(()),
        capture_post_state.requires(()),
    ensures
        exists|operation: Result<(), Fault>, observed: Result<ExactServiceBoundaryState, Fault>|
            uninstall.ensures((), operation) && capture_post_state.ensures((), observed)
                && #[trigger] uninstall_observation(operation, observed, r),
{
    let operation = uninstall();
    let observed = capture_post_state();
    classify_exact_uninstall_after_observation(operation, observed)
}

/// A successful uninstallation is never taken back to "not applied": where
/// looking at the service fails, it stays applied and pending.
pub proof fn law_successful_uninstall_stays_applied(
    observed: Result<ExactServiceBoundaryState, Fault>,
    r: Result<ExactServiceUninstallOutcome, Fault>,
)
    requires
        uninstall_observation(Ok(()), observed, r),
    ensures
        !(r matches Ok(ExactServiceUninstallOutcome::PriorExact { operation_error: _ })),
        observed is Err ==> r matches Ok(
            ExactServiceUninstallOutcome::AppliedPendingVerification { post_state_error: _ },
        ),
        observed == Ok::<ExactServiceBoundaryState, Fault>(ExactServiceBoundaryState::Absent)
            ==> r == Ok::<ExactServiceUninstallOutcome, Fault>(
            ExactServiceUninstallOutcome::Applied { operation_error: None },
        ),
{
}

/// Whether the service is absent after an uninstallation.
pub fn require_service_absent_state(observed: &ServiceStateSnapshot) -> (r: Result<(), Fault>)
    ensures
        r is Ok <==> observed@.absent(),
        r matches Err(fault) ==> fault@ == seq![
            "daemon service definition or manager runtime remained after uninstall"@,
        ],
{
    if observed.is_installed() || observed.manager_pid().is_some() {
        Err(Fault::of("daemon service definition or manager runtime remained after uninstall"))
    } else {
        Ok(())
    }
}

/// Whether the service is in the expected state, with the given manager
/// process.
pub fn require_service_state_snapshot_with_manager(
    observed: &ServiceStateSnapshot,
    expected: &ServiceStateSnapshot,
    expected_manager_pid: Option<u32>,
) -> (r: Result<(), Fault>)
    ensures
        r is Ok <==> observed@ == expected@.with_manager_pid(expected_manager_pid),
        r matches Err(fault) ==> fault@ == seq![
            "daemon service definition or exact manager runtime state changed during the lifecycle transaction"@,
        ],
{
    if observed.matches_snapshot_with_manager(expected, expected_manager_pid) {
        Ok(())
    } else {
        Err(
            Fault::of(
                "daemon service definition or exact manager runtime state changed during the lifecycle transaction",
            ),
        )
    }
}

/// Whether the service is in the expected state, with a stopped manager.
pub fn require_service_manager_stopped_state(
    observed: &ServiceStateSnapshot,
    expected: &ServiceStateSnapshot,
) -> (r: Result<(), Fault>)
    ensures
        r is Ok <==> observed@ == expected@.with_manager_stopped(),
        r matches Err(fault) ==> fault@ == seq![
            "daemon service definition or exact stopped-manager state changed during lifecycle restoration"@,
        ],
{
    if observed.matches_stopped(expected) {
        Ok(())
    } else {
        Err(
            Fault::of(
                "daemon service definition or exact stopped-manager state changed during lifecycle restoration",
            ),
        )
    }
}

// -- Capturing --

/// How an optional process is shown.
pub open spec fn shown_pid(pid: Option<u32>) -> Seq<char> {
    match pid {
        Some(p) => "Some("@ + decimal(p as nat) + ")"@,
        None => "None"@,
    }
}

/// How a flag is shown.
pub open spec fn shown_flag(flag: bool) -> Seq<char> {
    if flag {
        "true"@
    } else {
        "false"@
    }
}

fn pid_text(pid: Option<u32>) -> (r: String)
    ensures
        r@ == shown_pid(pid),
{
    match pid {
        Some(p) => join3("Some(", decimal_text(p as u64).as_str(), ")"),
        None => "None".to_owned(),
    }
}

/// A manager that is in contradiction with itself.
pub open spec fn inconsistent_runtime(
    manager: Seq<char>,
    state_name: Seq<char>,
    state: bool,
    pid_name: Seq<char>,
    pid: Option<u32>,
) -> Seq<char> {
    manager + " runtime state is inconsistent: "@ + state_name + "="@ + shown_flag(state) + ", "@
        + pid_name + "="@ + shown_pid(pid)
}

/// A manager must report a process exactly where it reports a running service.
pub fn require_manager_runtime_consistency(
    manager: &str,
    state_name: &str,
    state: bool,
    pid_name: &str,
    manager_pid: Option<u32>,
) -> (r: Result<(), Fault>)
    ensures
        r is Ok <==> state == (manager_pid is Some),
        r matches Err(fault) ==> fault@ == seq![
            inconsistent_runtime(manager@, state_name@, state, pid_name@, manager_pid),
        ],
{
    if state != manager_pid.is_some() {
        let mut text = join4(manager, " runtime state is inconsistent: ", state_name, "=");
        if state {
            text.append("true");
        } else {
            text.append("false");
        }
        text.append(", ");
        text.append(pid_name);
        text.append("=");
        text.append(pid_text(manager_pid).as_str());
        return Err(Fault::from_text(text));
    }
    Ok(())
}

/// What launchd reports.
#[derive(Clone, Copy, Debug, PartialEq, Eq, Structural)]
pub struct LaunchdRuntimeSnapshot {
    pub loaded: bool,
    pub manager_pid: Option<u32>,
}

/// What two reports of launchd come to.
pub open spec fn launchd_runtime(
    loaded: Result<bool, Fault>,
    pid: Result<Option<u32>, Fault>,
    r: Result<LaunchdRuntimeSnapshot, Fault>,
) -> bool {
    match (loaded, pid) {
        (Err(error), _) => r == Err::<LaunchdRuntimeSnapshot, Fault>(error),
        (Ok(_), Err(error)) => r == Err::<LaunchdRuntimeSnapshot, Fault>(error),
        (Ok(l), Ok(p)) => if l == (p is Some) {
            r == Ok::<LaunchdRuntimeSnapshot, Fault>(
                LaunchdRuntimeSnapshot { loaded: l, manager_pid: p },
            )
        } else {
            r matches Err(fault) && fault@ == seq![
                inconsistent_runtime("launchd"@, "loaded"@, l, "PID"@, p),
            ]
        },
    }
}

/// Asks launchd whether the job is loaded and then for its process; the two
/// answers must agree.
pub fn capture_launchd_runtime_for_snapshot_with<Loaded, ManagerPid>(
    loaded: Loaded,
    manager_pid: ManagerPid,
) -> (r: Result<LaunchdRuntimeSnapshot, Fault>) where
    Loaded: FnOnce() -> Result<bool, Fault>,
    ManagerPid: FnOnce(bool) -> Result<Option<u32>, Fault>,

    requires
        loaded.requires(()),
        forall|l: bool| manager_pid.requires((l,)),
    ensures
        exists|l: Result<bool, Fault>, p: Result<Option<u32>, Fault>|
            loaded.ensures((), l) && (l matches Ok(flag) ==> manager_pid.ensures((flag,), p))
                && #[trigger] launchd_runtime(l, p, r),
{
    let l = loaded();
    let flag = match l {
        Ok(flag) => flag,
        Err(fault) => {
            let ghost p: Result<Option<u32>, Fault> = Ok(None);
            let r = Err(fault);
            assert(launchd_runtime(l, p, r));
            return r;
        },
    };
    let p = manager_pid(flag);
    let ghost given = p;
    let pid = match p {
        Ok(pid) => pid,
        Err(fault) => {
            let r = Err(fault);
            assert(launchd_runtime(l, given, r));
            return r;
        },
    };
    let r = match require_manager_runtime_consistency("launchd", "loaded", flag, "PID", pid) {
        Ok(()) => Ok(LaunchdRuntimeSnapshot { loaded: flag, manager_pid: pid }),
        Err(fault) => Err(fault),
    };
    assert(launchd_runtime(l, given, r));
    r
}

/// A look at a definition: by its token where one was captured, else only whether
/// there is one.
#[derive(Debug, PartialEq, Eq)]
pub enum DefinitionLook {
    Token(Result<FileToken, Fault>),
    Sight(Result<Option<FileToken>, Fault>),
}

/// Why a definition is not the one that was captured, or no longer missing.
pub open spec fn snapshot_problem(path: Seq<char>, expected: Option<FileToken>, look: DefinitionLook) -> Option<
    Seq<Seq<char>>,
> {
    match (expected, look) {
        (Some(_), DefinitionLook::Token(Err(error))) => Some(
            seq!["binding service definition "@ + path] + error@,
        ),
        (Some(token), DefinitionLook::Token(Ok(found))) => if found@ == token@ {
            None
        } else {
            Some(
                seq![
                    "service definition "@ + path
                        + " changed during the operation; expected token "@ + token_text(token@)
                        + ", observed "@ + token_text(found@),
                ],
            )
        },
        (None, DefinitionLook::Sight(Err(error))) => Some(error@),
        (None, DefinitionLook::Sight(Ok(found))) => if found is None {
            None
        } else {
            Some(
                seq![
                    "service definition "@ + path
                        + " appeared during the operation; refusing to replace it"@,
                ],
            )
        },
        _ => Some(misfit()),
    }
}

/// A definition must be the one that was captured, or still be missing.
pub fn require_service_snapshot(path: &str, expected: Option<&FileToken>, look: DefinitionLook) -> (r:
    Result<(), Fault>)
    ensures
        match snapshot_problem(
            path@,
            match expected {
                Some(token) => Some(*token),
                None => None,
            },
            look,
        ) {
            Some(messages) => r matches Err(fault) && fault@ == messages,
            None => r is Ok,
        },
{
    match (expected, look) {
        (Some(_), DefinitionLook::Token(Err(error))) => Err(
            error.context(join2("binding service definition ", path)),
        ),
        (Some(token), DefinitionLook::Token(Ok(found))) => {
            if found.same(token) {
                return Ok(());
            }
            let mut text = join3(
                "service definition ",
                path,
                " changed during the operation; expected token ",
            );
            text.append(token.to_text().as_str());
            text.append(", observed ");
            text.append(found.to_text().as_str());
            Err(Fault::from_text(text))
        },
        (None, DefinitionLook::Sight(Err(error))) => Err(error),
        (None, DefinitionLook::Sight(Ok(found))) => {
            if found.is_none() {
                return Ok(());
            }
            Err(
                Fault::from_text(
                    join3(
                        "service definition ",
                        path,
                        " appeared during the operation; refusing to replace it",
                    ),
                ),
            )
        },
        _ => Err(misfit_fault()),
    }
}

/// Whether a definition is there and the same, or still missing.
pub fn definition_snapshot_matches(current: Option<&[u8]>, expected: Option<&[u8]>) -> (r: bool)
    ensures
        r == (match (current, expected) {
            (Some(a), Some(b)) => a@ == b@,
            (None, None) => true,
            _ => false,
        }),
{
    match (current, expected) {
        (Some(a), Some(b)) => same_bytes(a, b),
        (None, None) => true,
        _ => false,
    }
}

/// A scheduled task is there where both the scheduler and its directory have
/// it; where only one has it, its ownership cannot be decided.
pub fn optional_task_definition(path: &str, reported: bool, file_definition: Option<Vec<u8>>) -> (r:
    Result<Option<Vec<u8>>, Fault>)
    ensures
        match (reported, file_definition) {
            (false, None) => r == Ok::<Option<Vec<u8>>, Fault>(None),
            (true, Some(definition)) => r == Ok::<Option<Vec<u8>>, Fault>(Some(definition)),
            (true, None) => r matches Err(fault) && fault@ == seq![
                "Task Scheduler reports \\codex-switch-global-pace-daemon, but its trusted on-disk definition is missing; ownership cannot be proven"@,
            ],
            (false, Some(_)) => r matches Err(fault) && fault@ == seq![
                "trusted on-disk definition "@ + path@
                    + " exists, but Task Scheduler does not report the task; refusing an inconsistent service state"@,
            ],
        },
{
    match (reported, file_definition) {
        (false, None) => Ok(None),
        (true, Some(definition)) => Ok(Some(definition)),
        (true, None) => Err(
            Fault::of(
                "Task Scheduler reports \\codex-switch-global-pace-daemon, but its trusted on-disk definition is missing; ownership cannot be proven",
            ),
        ),
        (false, Some(_)) => Err(
            Fault::from_text(
                join3(
                    "trusted on-disk definition ",
                    path,
                    " exists, but Task Scheduler does not report the task; refusing an inconsistent service state",
                ),
            ),
        ),
    }
}

/// The exported definition of a scheduled task must be the one that was
/// captured, or still be missing.
pub fn require_task_xml_snapshot(path: &str, current: Option<&[u8]>, expected: Option<&[u8]>) -> (r:
    Result<(), Fault>)
    ensures
        match (current, expected) {
            (None, None) => r is Ok,
            (None, Some(_)) => r matches Err(fault) && fault@ == seq![
                "scheduled-task definition "@ + path@ + " disappeared during the operation"@,
            ],
            (Some(_), None) => r matches Err(fault) && fault@ == seq![
                "a scheduled-task definition appeared at "@ + path@ + " during the operation"@,
            ],
            (Some(a), Some(b)) => if a@ == b@ {
                r is Ok
            } else {
                r matches Err(fault) && fault@ == seq![
                    "Task Scheduler XML changed during the operation; refusing to mutate the task"@,
                ]
            },
        },
{
    match (current, expected) {
        (None, None) => Ok(()),
        (None, Some(_)) => Err(
            Fault::from_text(
                join3("scheduled-task definition ", path, " disappeared during the operation"),
            ),
        ),
        (Some(_), None) => Err(
            Fault::from_text(
                join3(
                    "a scheduled-task definition appeared at ",
                    path,
                    " during the operation",
                ),
            ),
        ),
        (Some(a), Some(b)) => if same_bytes(a, b) {
            Ok(())
        } else {
            Err(
                Fault::of(
                    "Task Scheduler XML changed during the operation; refusing to mutate the task",
                ),
            )
        },
    }
}

// -- Reporting --

/// A failure after which the prior state was restored, or was not.
pub fn transaction_error_with_restoration(
    error: Fault,
    restoration: Result<(), Fault>,
    restored_context: &str,
    incomplete_context: &str,
) -> (r: Fault)
    ensures
        r@ == seq![
            match restoration {
                Ok(_) => restored_context@,
                Err(fault) => incomplete_context@ + ": "@ + joined(fault@),
            },
        ] + error@,
{
    match restoration {
        Ok(()) => error.within(restored_context),
        Err(fault) => error.context(join3(incomplete_context, ": ", fault.detail().as_str())),
    }
}

/// How stopping a scheduled daemon ends, once the exact generation is gone:
/// whether the scheduler was told, whether the request is durable, and which
/// observations failed on the way.
pub open spec fn scheduled_stop_report(
    finalization: Result<(), Fault>,
    durability: Result<(), Fault>,
    diagnostics: Option<Seq<char>>,
) -> Option<Seq<Seq<char>>> {
    match (finalization, durability, diagnostics) {
        (Ok(_), Ok(_), None) => None,
        (Ok(_), Ok(_), Some(notes)) => Some(
            seq![
                "scheduled daemon stopped and Task Scheduler was finalized after transient authority-probe failures: "@
                    + notes,
            ],
        ),
        (Ok(_), Err(request), None) => Some(
            seq![
                "scheduled daemon stopped and Task Scheduler was finalized, but shutdown-request durability was unconfirmed"@,
            ] + request@,
        ),
        (Ok(_), Err(request), Some(notes)) => Some(
            seq![
                "scheduled daemon stopped and Task Scheduler was finalized after transient authority-probe failures ("@
                    + notes + "), but shutdown-request durability was unconfirmed"@,
            ] + request@,
        ),
        (Err(error), Ok(_), None) => Some(error@),
        (Err(error), Ok(_), Some(notes)) => Some(
            seq!["scheduled-daemon authority probes also failed transiently: "@ + notes] + error@,
        ),
        (Err(error), Err(request), None) => Some(
            seq![
                "shutdown-request durability was also unconfirmed: "@ + joined(request@),
            ] + error@,
        ),
        (Err(error), Err(request), Some(notes)) => Some(
            seq![
                "shutdown-request durability was also unconfirmed ("@ + joined(request@)
                    + "); scheduled-daemon authority probes also failed transiently: "@ + notes,
            ] + error@,
        ),
    }
}

/// How stopping a scheduled daemon ends.
pub fn classify_scheduled_daemon_stop_completion(
    finalization: Result<(), Fault>,
    request_durability: Result<(), Fault>,
    diagnostics: TransientDiagnostics,
) -> (r: Result<(), Fault>)
    requires
        diagnostics.wf(),
    ensures
        match scheduled_stop_report(
            finalization,
            request_durability,
            diagnostics.summary("transient authority-probe failure"@),
        ) {
            None => r is Ok,
            Some(messages) => r matches Err(fault) && fault@ == messages,
        },
{
    let notes = diagnostics.into_summary("transient authority-probe failure");
    match (finalization, request_durability, notes) {
        (Ok(()), Ok(()), None) => Ok(()),
        (Ok(()), Ok(()), Some(notes)) => Err(
            Fault::from_text(
                join2(
                    "scheduled daemon stopped and Task Scheduler was finalized after transient authority-probe failures: ",
                    notes.as_str(),
                ),
            ),
        ),
        (Ok(()), Err(request), None) => Err(
            request.within(
                "scheduled daemon stopped and Task Scheduler was finalized, but shutdown-request durability was unconfirmed",
            ),
        ),
        (Ok(()), Err(request), Some(notes)) => Err(
            request.context(
                join3(
                    "scheduled daemon stopped and Task Scheduler was finalized after transient authority-probe failures (",
                    notes.as_str(),
                    "), but shutdown-request durability was unconfirmed",
                ),
            ),
        ),
        (Err(error), Ok(()), None) => Err(error),
        (Err(error), Ok(()), Some(notes)) => Err(
            error.context(
                join2(
                    "scheduled-daemon authority probes also failed transiently: ",
                    notes.as_str(),
                ),
            ),
        ),
        (Err(error), Err(request), None) => Err(
            error.context(
                join2(
                    "shutdown-request durability was also unconfirmed: ",
                    request.detail().as_str(),
                ),
            ),
        ),
        (Err(error), Err(request), Some(notes)) => Err(
            error.context(
                join4(
                    "shutdown-request durability was also unconfirmed (",
                    request.detail().as_str(),
                    "); scheduled-daemon authority probes also failed transiently: ",
                    notes.as_str(),
                ),
            ),
        ),
    }
}

/// What stopping an exact scheduled generation does next.
#[derive(Debug, PartialEq, Eq)]
pub enum ScheduledStopStep {
    /// The generation is gone: the scheduler is told, once.
    Finalize(TransientDiagnostics),
    /// It is observed again.
    Again(TransientDiagnostics),
}

/// A failed observation of a scheduled generation.
pub open spec fn scheduled_inspection(pid: u32, fault: Seq<Seq<char>>) -> Seq<char> {
    "transiently failed to inspect already-requested scheduled daemon PID "@ + decimal(pid as nat)
        + ": "@ + joined(fault)
}

/// What stopping an exact scheduled generation does after one observation. Only
/// the generation's absence ends the observations.
pub fn stop_exact_scheduled_daemon_generation(
    pid: u32,
    diagnostics: TransientDiagnostics,
    target_is_running: Result<bool, Fault>,
) -> (r: ScheduledStopStep)
    requires
        diagnostics.wf(),
    ensures
        match target_is_running {
            Ok(false) => r == ScheduledStopStep::Finalize(diagnostics),
            Ok(true) => r == ScheduledStopStep::Again(diagnostics),
            Err(fault) => r matches ScheduledStopStep::Again(after) && crate::settlement::recorded(
                diagnostics,
                scheduled_inspection(pid, fault@),
                after,
            ),
        },
{
    let mut diagnostics = diagnostics;
    match target_is_running {
        Ok(false) => ScheduledStopStep::Finalize(diagnostics),
        Ok(true) => ScheduledStopStep::Again(diagnostics),
        Err(fault) => {
            diagnostics.record(
                join4(
                    "transiently failed to inspect already-requested scheduled daemon PID ",
                    decimal_text(pid as u64).as_str(),
                    ": ",
                    fault.detail().as_str(),
                ),
            );
            ScheduledStopStep::Again(diagnostics)
        },
    }
}

} // verus!
