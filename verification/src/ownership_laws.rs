//! What the states of the service and the claims on it are told apart by.
use vstd::prelude::*;

use crate::cause::stems_from;
use crate::fault::Fault;
use crate::fs_ops::FileToken;
use crate::host_path::{HostPath, Platform};
use crate::service_owner::{
    require_service_support, validate_expected_executable, validate_install_migration_authority,
    validate_launchd_definition_owner, validate_launchd_definition_value,
    validate_systemd_definition_owner, validate_task_scheduler_definition_owner,
    validate_uninstall_owner, OwnerLook, ServiceAction,
};
use crate::service_state::{
    classify_exact_uninstall_after_observation, classify_observed_service_state,
    classify_scheduled_daemon_stop_completion, definition_snapshot_matches,
    optional_task_definition, require_manager_runtime_consistency, require_service_absent_state,
    require_service_manager_stopped_state, require_service_snapshot,
    require_service_state_snapshot_with_manager, require_task_xml_snapshot,
    stop_exact_scheduled_daemon_generation, transaction_error_with_restoration, DefinitionLook,
    ExactServiceBoundaryState, ExactServiceUninstallOutcome, ScheduledStopStep, ServiceDefinition,
    ServiceStateSnapshot,
};
use crate::settlement::TransientDiagnostics;
use crate::task_proof::{
    ancestry_problem, end_row, instance_row, manager_proof, process_rows, WindowsProcessGeneration,
};
use crate::task_service::optional_bytes;
use crate::text::begins_with;

verus! {

// -- States --

/// Whether two captures hold the same bytes.
pub open spec fn same_definition(
    a: Option<ServiceDefinition>,
    b: Option<ServiceDefinition>,
) -> bool {
    match (a, b) {
        (None, None) => true,
        (Some(x), Some(y)) => x.contents@ == y.contents@ && match (
            x.scheduler_xml,
            y.scheduler_xml,
        ) {
            (None, None) => true,
            (Some(p), Some(q)) => p@ == q@,
            _ => false,
        },
        _ => false,
    }
}

/// A state is the expected one exactly if the definition has the same bytes and the
/// manager says the same; with another process, or with the manager stopped, exactly
/// that differs.
pub proof fn law_states_are_compared_in_full(
    a: &ServiceStateSnapshot,
    b: &ServiceStateSnapshot,
    pid: Option<u32>,
    exact: bool,
    with_manager: bool,
    stopped: bool,
    installed: bool,
)
    requires
        call_ensures(ServiceStateSnapshot::matches_exact_state, (a, b), exact),
        call_ensures(
            ServiceStateSnapshot::matches_snapshot_with_manager,
            (a, b, pid),
            with_manager,
        ),
        call_ensures(ServiceStateSnapshot::matches_stopped, (a, b), stopped),
        call_ensures(ServiceStateSnapshot::is_installed, (a,), installed),
    ensures
        exact <==> same_definition(a.definition, b.definition) && a.loaded == b.loaded && a.enabled
            == b.enabled && a.active == b.active && a.manager_pid == b.manager_pid,
        with_manager <==> same_definition(a.definition, b.definition) && a.loaded == b.loaded
            && a.enabled == b.enabled && a.active == b.active && a.manager_pid == pid,
        stopped <==> same_definition(a.definition, b.definition) && !a.loaded && a.enabled
            == b.enabled && !a.active && a.manager_pid is None,
        installed <==> a.definition is Some,
{
}

/// The checks on a state pass exactly if it is what they are for.
pub proof fn law_a_required_state_is_exact(
    observed: &ServiceStateSnapshot,
    expected: &ServiceStateSnapshot,
    pid: Option<u32>,
    with_manager: bool,
    stopped: bool,
    a: Result<(), Fault>,
    b: Result<(), Fault>,
    c: Result<(), Fault>,
)
    requires
        call_ensures(
            ServiceStateSnapshot::matches_snapshot_with_manager,
            (observed, expected, pid),
            with_manager,
        ),
        call_ensures(ServiceStateSnapshot::matches_stopped, (observed, expected), stopped),
        call_ensures(
            require_service_state_snapshot_with_manager,
            (observed, expected, pid),
            a,
        ),
        call_ensures(require_service_manager_stopped_state, (observed, expected), b),
        call_ensures(require_service_absent_state, (observed,), c),
    ensures
        a is Ok <==> with_manager,
        b is Ok <==> stopped,
        c is Ok <==> observed.definition is None && observed.manager_pid is None,
{
}

/// A state at a boundary is absent, the prior one, or neither.
pub proof fn law_a_boundary_state_is_told_apart(
    observed: &ServiceStateSnapshot,
    prior: &ServiceStateSnapshot,
    exact: bool,
    r: ExactServiceBoundaryState,
)
    requires
        call_ensures(classify_observed_service_state, (observed, prior), r),
        call_ensures(ServiceStateSnapshot::matches_exact_state, (observed, prior), exact),
    ensures
        r is Absent <==> observed.definition is None && observed.manager_pid is None,
        r is PriorExact <==> exact && !(r is Absent),
        r is Ambiguous <==> !exact && !(r is Absent),
{
}

/// An uninstallation did what is there now: nothing there means that it was applied,
/// the prior state that it was not. One that succeeded is not claimed against what is
/// there, and what failed is kept.
pub proof fn law_an_uninstallation_is_told_by_what_is_left(
    operation: Result<(), Fault>,
    observed: Result<ExactServiceBoundaryState, Fault>,
    r: Result<ExactServiceUninstallOutcome, Fault>,
)
    requires
        call_ensures(classify_exact_uninstall_after_observation, (operation, observed), r),
    ensures
        observed == Ok::<ExactServiceBoundaryState, Fault>(ExactServiceBoundaryState::Absent) ==> (r
            matches Ok(ExactServiceUninstallOutcome::Applied { operation_error }) && (
        operation_error is None == operation is Ok) && (operation matches Err(error)
            ==> operation_error == Some(error))),
        observed == Ok::<ExactServiceBoundaryState, Fault>(ExactServiceBoundaryState::PriorExact)
            ==> match operation {
            Err(error) => r matches Ok(
                ExactServiceUninstallOutcome::PriorExact { operation_error },
            ) && operation_error == error,
            Ok(_) => r is Err,
        },
        observed == Ok::<ExactServiceBoundaryState, Fault>(ExactServiceBoundaryState::Ambiguous)
            ==> r is Err && (operation matches Err(error) ==> stems_from(r->Err_0@, error@)),
        observed matches Err(error) ==> match operation {
            Ok(_) => r matches Ok(
                ExactServiceUninstallOutcome::AppliedPendingVerification { post_state_error },
            ) && stems_from(post_state_error@, error@),
            Err(_) => r matches Err(fault) && stems_from(fault@, error@),
        },
{
}

/// A manager has a process exactly where it says that the service runs.
pub proof fn law_a_running_service_has_a_process(
    manager: &str,
    state_name: &str,
    state: bool,
    pid_name: &str,
    pid: Option<u32>,
    r: Result<(), Fault>,
)
    requires
        call_ensures(
            require_manager_runtime_consistency,
            (manager, state_name, state, pid_name, pid),
            r,
        ),
    ensures
        r is Ok <==> (state && pid is Some) || (!state && pid is None),
{
}

/// A definition is still the captured one exactly if its file has the same token, and
/// still missing exactly if nothing is seen.
pub proof fn law_a_definition_stays_as_captured(
    path: &str,
    token: &FileToken,
    found: Result<FileToken, Fault>,
    sight: Result<Option<FileToken>, Fault>,
    a: Result<(), Fault>,
    b: Result<(), Fault>,
)
    requires
        call_ensures(
            require_service_snapshot,
            (path, Some(token), DefinitionLook::Token(found)),
            a,
        ),
        call_ensures(require_service_snapshot, (path, None, DefinitionLook::Sight(sight)), b),
    ensures
        a is Ok <==> (found matches Ok(seen) && seen@ == token@),
        b is Ok <==> (sight matches Ok(seen) && seen is None),
        found matches Err(error) ==> (a matches Err(fault) && stems_from(fault@, error@)),
        sight matches Err(error) ==> (b matches Err(fault) && stems_from(fault@, error@)),
{
}

/// Two forms of a definition are the same exactly if both are missing or both hold the
/// same bytes.
pub proof fn law_forms_are_the_same_or_both_missing(
    path: &str,
    current: Option<&[u8]>,
    expected: Option<&[u8]>,
    same: bool,
    r: Result<(), Fault>,
)
    requires
        call_ensures(definition_snapshot_matches, (current, expected), same),
        call_ensures(require_task_xml_snapshot, (path, current, expected), r),
    ensures
        same <==> optional_bytes(current) == optional_bytes(expected),
        r is Ok <==> same,
{
}

/// A task is there exactly where its scheduler and its directory both have it, and is
/// missing exactly where neither has.
pub proof fn law_a_task_is_in_both_places_or_none(
    path: &str,
    reported: bool,
    file: Option<Vec<u8>>,
    r: Result<Option<Vec<u8>>, Fault>,
)
    requires
        call_ensures(optional_task_definition, (path, reported, file), r),
    ensures
        r is Ok <==> reported == (file is Some),
        r matches Ok(found) ==> found == file,
{
}

/// What a transaction failed with is kept, whether or not the prior state is back.
pub proof fn law_a_failed_transaction_keeps_its_cause(
    error: Fault,
    restoration: Result<(), Fault>,
    restored: &str,
    incomplete: &str,
    r: Fault,
)
    requires
        call_ensures(
            transaction_error_with_restoration,
            (error, restoration, restored, incomplete),
            r,
        ),
    ensures
        stems_from(r@, error@) && r@.len() == error@.len() + 1,
        restoration is Ok ==> r@[0] == restored@,
        restoration is Err ==> begins_with(r@[0], incomplete@),
{
    if restoration is Err {
        assert(r@[0].take(incomplete@.len() as int) =~= incomplete@);
    }
}

/// A scheduled daemon's stop is complete exactly if the scheduler was told, the request
/// lasts and no observation failed.
pub proof fn law_a_scheduled_stop_is_complete(
    finalization: Result<(), Fault>,
    durability: Result<(), Fault>,
    diagnostics: TransientDiagnostics,
    r: Result<(), Fault>,
)
    requires
        diagnostics.wf(),
        call_ensures(
            classify_scheduled_daemon_stop_completion,
            (finalization, durability, diagnostics),
            r,
        ),
    ensures
        r is Ok <==> finalization is Ok && durability is Ok && diagnostics.count == 0,
        finalization matches Err(error) ==> (r matches Err(fault) && stems_from(fault@, error@)),
        finalization is Ok ==> (durability matches Err(error) ==> (r matches Err(fault)
            && stems_from(fault@, error@))),
{
}

/// A scheduled daemon is observed until it is gone, and only then is the scheduler
/// told.
pub proof fn law_a_scheduled_daemon_is_observed_until_gone(
    pid: u32,
    diagnostics: TransientDiagnostics,
    running: Result<bool, Fault>,
    r: ScheduledStopStep,
)
    requires
        diagnostics.wf(),
        call_ensures(stop_exact_scheduled_daemon_generation, (pid, diagnostics, running), r),
    ensures
        r is Finalize <==> running == Ok::<bool, Fault>(false),
        r matches ScheduledStopStep::Finalize(after) ==> after == diagnostics,
        running is Err && diagnostics.count < usize::MAX ==> (r matches ScheduledStopStep::Again(
            after,
        ) && after.count == diagnostics.count + 1),
{
}

// -- Owners --

/// An executable can own the service exactly if it is absolute and goes through no
/// relative component.
pub proof fn law_only_a_plain_path_owns(path: &HostPath, r: Result<(), Fault>)
    requires
        call_ensures(validate_expected_executable, (path,), r),
    ensures
        r is Ok <==> path.absolute && forall|i: int|
            0 <= i < path.components@.len() ==> !(#[trigger] path.components@[i] is Current) && !(
            path.components@[i] is Parent),
{
}

/// A service is moved from another executable exactly if that one could own it and the
/// system is not Windows; without another executable nothing stands against it.
pub proof fn law_a_move_needs_a_plain_path(
    platform: Platform,
    path: &HostPath,
    plain: Result<(), Fault>,
    r: Result<(), Fault>,
    none: Result<(), Fault>,
)
    requires
        call_ensures(validate_expected_executable, (path,), plain),
        call_ensures(validate_install_migration_authority, (platform, Some(path)), r),
        call_ensures(validate_install_migration_authority, (platform, None), none),
    ensures
        r is Ok <==> plain is Ok && platform != Platform::Windows,
        none is Ok,
{
}

/// An agent is owned exactly under the daemon's label, by the executable that its
/// arguments start in the foreground.
pub proof fn law_an_agent_is_owned_by_what_it_starts(
    label: &str,
    arguments: &Vec<Option<String>>,
    expected: &HostPath,
    r: Result<(), Fault>,
    without_label: Result<(), Fault>,
    without_arguments: Result<(), Fault>,
)
    requires
        call_ensures(
            validate_launchd_definition_value,
            (Some(label), Some(arguments), expected),
            r,
        ),
        call_ensures(
            validate_launchd_definition_value,
            (None, Some(arguments), expected),
            without_label,
        ),
        call_ensures(
            validate_launchd_definition_value,
            (Some(label), None, expected),
            without_arguments,
        ),
    ensures
        r is Ok <==> label@ == "com.codex-switch-global-pace.daemon"@ && arguments@.len() == 4 && (
        expected.unicode matches Some(exe) && (arguments@[0] matches Some(a) && a@ == exe@)) && (
        arguments@[1] matches Some(b) && b@ == "daemon"@) && (arguments@[2] matches Some(c) && c@
            == "start"@) && (arguments@[3] matches Some(d) && d@ == "--foreground"@),
        without_label is Err,
        without_arguments is Err,
{
}

/// Who may remove the service: an executable that owns the definition, in both forms of
/// a task, and any where there is none and the manager knows none.
pub proof fn law_the_owner_may_remove(
    expected: &HostPath,
    bytes: &[u8],
    contents: Vec<u8>,
    exported: Vec<u8>,
    exported_bytes: &[u8],
    plain: Result<(), Fault>,
    agent: Result<(), Fault>,
    unit: Result<(), Fault>,
    task: Result<(), Fault>,
    task_export: Result<(), Fault>,
    a: Result<(), Fault>,
    u: Result<(), Fault>,
    t: Result<(), Fault>,
    gone: Result<(), Fault>,
)
    requires
        bytes@ == contents@,
        exported_bytes@ == exported@,
        call_ensures(validate_expected_executable, (expected,), plain),
        call_ensures(validate_launchd_definition_owner, (bytes, expected), agent),
        call_ensures(validate_systemd_definition_owner, (bytes, expected), unit),
        call_ensures(validate_task_scheduler_definition_owner, (bytes, expected), task),
        call_ensures(
            validate_task_scheduler_definition_owner,
            (exported_bytes, expected),
            task_export,
        ),
        call_ensures(validate_uninstall_owner, (expected, OwnerLook::LaunchAgent(contents)), a),
        call_ensures(validate_uninstall_owner, (expected, OwnerLook::Unit(contents)), u),
        call_ensures(
            validate_uninstall_owner,
            (expected, OwnerLook::Task { definition: contents, exported: Ok(exported) }),
            t,
        ),
        call_ensures(validate_uninstall_owner, (expected, OwnerLook::Absent(Ok(()))), gone),
    ensures
        a is Ok <==> plain is Ok && agent is Ok,
        u is Ok <==> plain is Ok && unit is Ok,
        t is Ok <==> plain is Ok && task is Ok && task_export is Ok,
        gone is Ok <==> plain is Ok,
{
}

/// What cannot be looked at cannot be removed, and says why.
pub proof fn law_an_unknown_owner_is_refused(
    expected: &HostPath,
    error: Fault,
    definition: Vec<u8>,
    plain: Result<(), Fault>,
    a: Result<(), Fault>,
    b: Result<(), Fault>,
    c: Result<(), Fault>,
)
    requires
        call_ensures(validate_expected_executable, (expected,), plain),
        call_ensures(validate_uninstall_owner, (expected, OwnerLook::Unreadable(error)), a),
        call_ensures(validate_uninstall_owner, (expected, OwnerLook::Absent(Err(error))), b),
        call_ensures(
            validate_uninstall_owner,
            (expected, OwnerLook::Task { definition, exported: Err(error) }),
            c,
        ),
    ensures
        a is Err && b is Err && c is Err,
        plain is Ok ==> stems_from(a->Err_0@, error@) && stems_from(b->Err_0@, error@)
            && stems_from(c->Err_0@, error@),
{
}

/// The service is acted on exactly where its manager is supported.
pub proof fn law_actions_need_a_supported_manager(
    platform: Platform,
    action: ServiceAction,
    r: Result<(), Fault>,
)
    requires
        call_ensures(require_service_support, (platform, action), r),
    ensures
        r is Ok <==> platform == Platform::Linux || platform == Platform::MacOs || platform
            == Platform::Windows,
{
}

// -- The proof of a scheduled task --

/// Whether some processes are a line of descent from a daemon up to an engine: each is
/// the parent of the one before it and no newer, none appears twice, and the engine is
/// the last.
pub open spec fn descends(
    generations: Seq<WindowsProcessGeneration>,
    daemon: u32,
    engine: u32,
) -> bool {
    &&& generations.len() > 0
    &&& generations[0].pid == daemon
    &&& generations.last().pid == engine
    &&& forall|k: int|
        0 <= k < generations.len() - 1 ==> (#[trigger] generations[k]).parent_pid == generations[k
            + 1].pid && generations[k + 1].creation_ticks <= generations[k].creation_ticks
            && generations[k].parent_pid != 0
    &&& forall|k: int, m: int|
        0 <= k < m < generations.len() ==> (#[trigger] generations[k]).pid != (
        #[trigger] generations[m]).pid
}

proof fn lemma_descent_is_accepted(
    generations: Seq<WindowsProcessGeneration>,
    i: int,
    daemon: u32,
    engine: u32,
)
    requires
        descends(generations, daemon, engine),
        0 <= i < generations.len(),
    ensures
        ancestry_problem(
            generations,
            i,
            generations[i].pid,
            if i == 0 {
                None
            } else {
                Some(generations[i - 1].creation_ticks)
            },
            daemon,
            engine,
        ) is None,
    decreases generations.len() - i,
{
    if i > 0 {
        assert(generations[i - 1].parent_pid == generations[i].pid);
    }
    if i + 1 < generations.len() {
        assert(generations[i].pid != generations[generations.len() - 1].pid);
        assert(generations[i].parent_pid == generations[i + 1].pid);
        lemma_descent_is_accepted(generations, i + 1, daemon, engine);
    }
}

proof fn lemma_end_row_is_last(rows: Seq<Seq<char>>, at: int)
    requires
        0 <= at < rows.len(),
        begins_with(rows.last(), "instance-end\t"@),
        forall|i: int|
            0 <= i < rows.len() - 1 ==> !begins_with(#[trigger] rows[i], "instance-end\t"@),
    ensures
        end_row(rows, at) == Some(rows.len() - 1),
    decreases rows.len() - at,
{
    if at + 1 < rows.len() {
        lemma_end_row_is_last(rows, at + 1);
    }
}

/// A proof that observes the same instance before and after, and twice the same line of
/// descent from the daemon up to its engine, shows that the task owns the daemon.
pub proof fn law_a_sound_proof_is_accepted(
    rows: Seq<Seq<char>>,
    daemon: u32,
    instance: (Seq<char>, nat),
    generations: Seq<WindowsProcessGeneration>,
    count: int,
)
    requires
        count >= 1,
        rows.len() == 2 * count + 2,
        daemon > 0,
        instance_row(rows[0], "instance-start"@) == Ok::<(Seq<char>, nat), Seq<Seq<char>>>(
            instance,
        ),
        instance_row(rows.last(), "instance-end"@) == Ok::<(Seq<char>, nat), Seq<Seq<char>>>(
            instance,
        ),
        begins_with(rows.last(), "instance-end\t"@),
        forall|i: int|
            0 <= i < rows.len() - 1 ==> !begins_with(#[trigger] rows[i], "instance-end\t"@),
        process_rows(rows.subrange(1, 1 + count), "process-start"@) == Ok::<
            Seq<WindowsProcessGeneration>,
            Seq<Seq<char>>,
        >(generations),
        process_rows(rows.subrange(1 + count, 1 + 2 * count), "process-end"@) == Ok::<
            Seq<WindowsProcessGeneration>,
            Seq<Seq<char>>,
        >(generations),
        descends(generations, daemon, instance.1 as u32),
    ensures
        manager_proof(rows, Some(daemon)) == Ok::<Option<u32>, Seq<Seq<char>>>(Some(daemon)),
{
    lemma_end_row_is_last(rows, 0);
    lemma_descent_is_accepted(generations, 0, daemon, instance.1 as u32);
    let end: int = rows.len() - 1;
    assert((end - 1) / 2 == count);
    assert(rows != seq!["none"@]) by {
        assert(seq!["none"@].len() == 1);
    }
}

/// A proof without an instance shows that no daemon is owned, and one that shows an
/// owned daemon shows the authoritative one.
pub proof fn law_a_proof_shows_nothing_else(rows: Seq<Seq<char>>, daemon: Option<u32>)
    ensures
        rows == seq!["none"@] ==> manager_proof(rows, daemon) == Ok::<
            Option<u32>,
            Seq<Seq<char>>,
        >(None),
        manager_proof(rows, daemon) matches Ok(owned) ==> (owned is None && rows == seq!["none"@])
            || (owned == daemon && owned is Some && owned != Some(0u32)),
{
}

} // verus!
