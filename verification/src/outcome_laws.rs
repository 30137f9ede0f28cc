//! What the smaller decisions come to.
use vstd::prelude::*;

use crate::boundary_client::accept_initial_marker;
use crate::boundary_phase::{
    boundary_panic, finalize_installer_boundary_result, finalize_prior_restart_restoration,
    FailedStopRestoration,
};
use crate::cause::stems_from;
use crate::codex_process::{
    classify_chatgpt_desktop_process, codex_desktop_path, command_arguments, desktop_helper,
    desktop_name, is_absolute_windows_path, split_windows_command_line, CodexActivity,
};
use crate::commands::{
    prepare_verified_background_spawn, read_holder_arguments, verify_holder_executable, SpawnLooks,
};
use crate::creation::cleanup_failed_creation;
use crate::direct_file::rename_information;
use crate::directory_rename::{open_direct_directory, walk_from};
use crate::fault::{joined, Fault};
use crate::fs_ops::{
    same_bytes, same_sight, shows, CreateExactOutcome, FileToken, RemoveExactOutcome,
};
use crate::host_path::{HostPath, PathComponent, Platform};
use crate::installer_fs::{format_create_outcome, format_remove_outcome, required_path};
use crate::lifecycle::{Owner, SelfUpdateDaemonRestart};
use crate::lifecycle_restore::{FailedStopStage, PriorStage};
use crate::lifecycle_steps::ReestablishStage;
use crate::monitor::{batch_failure, WorkerFailure};
use crate::number::{decimal, digit_value, lemma_decimal_value};
use crate::pid_transaction::PidGuard;
use crate::pidfile::{pidfile_lock_path_for, pidfile_path, shutdown_request_path};
use crate::removal::changed_fault;
use crate::service_installed::regular_file;
use crate::service_owner::validate_expected_executable;
use crate::service_publication::{
    service_cleanup_result, service_operation_result, ServiceFileCleanupOutcome,
};
use crate::service_render::task_scheduler_failure_message;
use crate::service_state::{
    capture_launchd_runtime_for_snapshot_with, classify_exact_uninstall_transition,
    uninstall_locked_exact_with, ExactServiceBoundaryState, ExactServiceUninstallOutcome,
    LaunchdRuntimeSnapshot,
};
use crate::state::state_path;
use crate::task_service::{staged_task_name, DefinitionSight};
use crate::text::{
    begins_with, finishes_with, has_text, texts, trim_back, trim_both, trim_front, CharClass,
};

verus! {

// -- Codex processes --

/// Of two activities the one that speaks more against a switch counts: a change of the
/// credential before what is unknown, that before a session, and that before nothing.
pub proof fn law_the_weightier_activity_counts(
    a: CodexActivity,
    b: CodexActivity,
    r: CodexActivity,
)
    requires
        call_ensures(CodexActivity::merge, (a, b), r),
    ensures
        r == a || r == b,
        r == CodexActivity::AuthMutation <==> a == CodexActivity::AuthMutation || b
            == CodexActivity::AuthMutation,
        r == CodexActivity::Idle <==> a == CodexActivity::Idle && b == CodexActivity::Idle,
        r == CodexActivity::Session ==> a != CodexActivity::Unknown && b != CodexActivity::Unknown,
        r == CodexActivity::Unknown ==> a != CodexActivity::AuthMutation && b
            != CodexActivity::AuthMutation,
{
}

/// A path is absolute exactly if, without quotes around it, it begins with two
/// backslashes or with an ASCII character, a colon and a slash of either kind.
pub proof fn law_absolute_paths_begin_at_a_root(path: &[char], c: char, rest: Seq<char>, r: bool)
    requires
        call_ensures(is_absolute_windows_path, (path,), r),
        path@.len() > 0,
        path@[0] != '"' && path@.last() != '"',
    ensures
        begins_with(path@, seq!['\\', '\\']) ==> r,
        c <= '\u{7f}' && c != '"' && path@ == seq![c, ':', '\\'] + rest ==> r,
        c <= '\u{7f}' && c != '"' && path@ == seq![c, ':', '/'] + rest ==> r,
        path@.len() < 2 ==> !r,
        r && path@[0] == '\\' ==> path@[1] == '\\' || path@[1] == ':',
        r && path@[0] != '\\' ==> path@[1] == ':' && path@.len() >= 3,
{
    let class = CharClass::Just('"');
    assert(trim_front(path@, class) == path@);
    assert(trim_back(path@, class) == path@);
    assert(trim_both(path@, class) == path@);
    if begins_with(path@, seq!['\\', '\\']) {
        assert(path@.take(2)[0] == '\\' && path@.take(2)[1] == '\\');
    }
}

/// A desktop process without an image path is judged by its command: a main process at
/// the package's path is a session, a bare name may be one, and any other path is not.
pub proof fn law_a_desktop_command_is_judged_by_its_path(
    line: &str,
    words: Vec<String>,
    first: &[char],
    absolute: bool,
    r: CodexActivity,
)
    requires
        call_ensures(classify_chatgpt_desktop_process, (None::<&str>, Some(line)), r),
        call_ensures(split_windows_command_line, (line,), words),
        words@.len() > 0 && first@ == words@[0]@,
        call_ensures(is_absolute_windows_path, (first,), absolute),
        trim_both(line@, CharClass::WhiteSpace).len() > 0,
        !desktop_helper(command_arguments(line@)),
    ensures
        codex_desktop_path(first@) && desktop_name(first@) ==> r == CodexActivity::Session,
        codex_desktop_path(first@) && !desktop_name(first@) ==> r == CodexActivity::Unknown,
        !codex_desktop_path(first@) && absolute ==> r == CodexActivity::Idle,
        !codex_desktop_path(first@) && !desktop_name(first@) ==> r == CodexActivity::Idle,
        !codex_desktop_path(first@) && desktop_name(first@) && !absolute ==> r
            == CodexActivity::Unknown,
{
    assert(texts(words@).len() == words@.len());
    assert(texts(words@)[0] == words@[0]@);
}

/// A process that says nothing of itself is unknown.
pub proof fn law_a_silent_desktop_is_unknown(r: CodexActivity)
    requires
        call_ensures(classify_chatgpt_desktop_process, (None::<&str>, None::<&str>), r),
    ensures
        r == CodexActivity::Unknown,
{
}

// -- The holder of a boundary --

/// A holder runs as exactly the executable that is expected of it.
pub proof fn law_a_holder_runs_as_expected(
    expected: &FileToken,
    located: Result<HostPath, Fault>,
    observed: Result<FileToken, Fault>,
    r: Result<(), Fault>,
)
    requires
        call_ensures(verify_holder_executable, (expected, located, observed), r),
    ensures
        r is Ok <==> located is Ok && (observed matches Ok(token) && token@ == expected@),
        located matches Err(error) ==> (r matches Err(fault) && stems_from(fault@, error@)),
        located is Ok ==> (observed matches Err(error) ==> (r matches Err(fault) && stems_from(
            fault@,
            error@,
        ))),
{
}

/// A holder expects an executable exactly if it is given both a token and a nonce, and
/// takes neither alone.
pub proof fn law_a_holder_takes_both_arguments_or_none(
    replacement: &HostPath,
    token: Option<&str>,
    nonce: Option<&str>,
    path: Result<(), Fault>,
    read: Result<FileToken, Fault>,
    r: Result<Option<FileToken>, Fault>,
)
    requires
        call_ensures(read_holder_arguments, (replacement, token, nonce), r),
        call_ensures(validate_expected_executable, (replacement,), path),
        token matches Some(text) ==> call_ensures(FileToken::from_str, (text,), read),
    ensures
        path is Err ==> r is Err,
        token.is_some() != nonce.is_some() ==> r is Err,
        path is Ok && token is None && nonce is None ==> r == Ok::<Option<FileToken>, Fault>(None),
        r matches Ok(Some(expected)) ==> token is Some && nonce is Some && (read matches Ok(given)
            && given@ == expected@),
        token is Some && read is Err ==> r is Err,
{
}

/// A start in the background begins exactly if the executable is a direct file, is held
/// open and is the expected one.
pub proof fn law_only_the_expected_executable_starts(
    path: &str,
    expected: &FileToken,
    looks: SpawnLooks,
    r: Result<String, Fault>,
)
    requires
        call_ensures(prepare_verified_background_spawn, (path, expected, looks), r),
    ensures
        r is Ok <==> looks.direct == Ok::<bool, Fault>(true) && looks.pinned is Ok && (
        looks.observed matches Ok(token) && token@ == expected@),
        looks.direct matches Err(error) ==> (r matches Err(fault) && stems_from(fault@, error@)),
{
}

/// The first line of a holder is accepted only for the nonce that was given to it.
pub proof fn law_a_first_line_is_for_its_nonce(
    nonce: &str,
    other: &str,
    marker: &str,
    a: Result<(), Fault>,
    b: Result<(), Fault>,
)
    requires
        call_ensures(accept_initial_marker, (Some(nonce), marker), a),
        call_ensures(accept_initial_marker, (Some(other), marker), b),
        nonce@.len() == other@.len(),
    ensures
        a is Ok ==> has_text(marker@, nonce@),
        a is Ok && b is Ok ==> nonce@ == other@,
{
    if a is Ok {
        let p = crate::boundary_client::ready_prefix(Some(nonce));
        let head = crate::boundary_phase::INSTALLER_DAEMON_BOUNDARY_PREFIX@ + " ready "@;
        let n = head.len() as int;
        assert(p.len() <= marker@.len());
        assert(p =~= head + nonce@ + " "@);
        assert(marker@.subrange(n, n + nonce@.len()) =~= nonce@) by {
            assert forall|i: int| 0 <= i < nonce@.len() implies marker@[n + i] == nonce@[i] by {
                assert(marker@.take(p.len() as int)[n + i] == p[n + i]);
            }
        }
        if b is Ok {
            let q = crate::boundary_client::ready_prefix(Some(other));
            assert(q =~= head + other@ + " "@);
            assert(marker@.subrange(n, n + nonce@.len()) =~= other@) by {
                assert forall|i: int| 0 <= i < other@.len() implies marker@[n + i] == other@[i] by {
                    assert(marker@.take(q.len() as int)[n + i] == q[n + i]);
                }
            }
        }
    }
}

// -- Uninstallations and restorations --

/// What an uninstallation did is told by what is there now: gone means that it was
/// applied, however it ended; the prior service with a failure means that it was not;
/// and nothing else is accepted.
pub proof fn law_an_uninstallation_is_told_by_what_is_there(
    operation: Result<(), Fault>,
    absent: bool,
    prior: bool,
    r: Result<ExactServiceUninstallOutcome, Fault>,
)
    requires
        call_ensures(classify_exact_uninstall_transition, (operation, absent, prior), r),
    ensures
        r is Ok <==> (absent && !prior) || (!absent && prior && operation is Err),
        absent && !prior ==> (r matches Ok(
            ExactServiceUninstallOutcome::Applied { operation_error },
        ) && (operation is Ok ==> operation_error is None) && (operation matches Err(error)
            ==> operation_error == Some(error))),
        !absent && prior ==> (operation matches Err(error) ==> r == Ok::<
            ExactServiceUninstallOutcome,
            Fault,
        >(ExactServiceUninstallOutcome::PriorExact { operation_error: error })),
        !absent && !prior ==> (operation matches Err(error) ==> (r matches Err(fault)
            && stems_from(fault@, error@))),
{
}

/// An uninstallation is told by its own end and by the look after it, and by nothing
/// else.
pub proof fn law_an_uninstallation_is_looked_at<Uninstall, Capture>(
    uninstall: Uninstall,
    capture: Capture,
    r: Result<ExactServiceUninstallOutcome, Fault>,
) where
    Uninstall: FnOnce() -> Result<(), Fault>,
    Capture: FnOnce() -> Result<ExactServiceBoundaryState, Fault>,

    requires
        call_ensures(
            uninstall_locked_exact_with::<Uninstall, Capture>,
            (uninstall, capture),
            r,
        ),
    ensures
        (forall|o: Result<(), Fault>| #[trigger] uninstall.ensures((), o) ==> o is Ok) && r
            is Ok ==> !(r->Ok_0 is PriorExact),
        (forall|s: Result<ExactServiceBoundaryState, Fault>| #[trigger]
            capture.ensures((), s) ==> s == Ok::<ExactServiceBoundaryState, Fault>(
                ExactServiceBoundaryState::Absent,
            )) ==> (r matches Ok(outcome) && outcome is Applied),
        (forall|s: Result<ExactServiceBoundaryState, Fault>| #[trigger]
            capture.ensures((), s) ==> s == Ok::<ExactServiceBoundaryState, Fault>(
                ExactServiceBoundaryState::Ambiguous,
            )) ==> r is Err,
        (forall|s: Result<ExactServiceBoundaryState, Fault>| #[trigger]
            capture.ensures((), s) ==> s is Err) && (forall|o: Result<(), Fault>| #[trigger]
            uninstall.ensures((), o) ==> o is Ok) ==> (r matches Ok(outcome) && outcome is
            AppliedPendingVerification),
{
}

/// launchd's two answers are kept exactly where they agree: a loaded job has a process,
/// and one that is not has none.
pub proof fn law_launchd_answers_agree<Loaded, ManagerPid>(
    loaded: Loaded,
    manager_pid: ManagerPid,
    is_loaded: bool,
    pid: Option<u32>,
    r: Result<LaunchdRuntimeSnapshot, Fault>,
) where
    Loaded: FnOnce() -> Result<bool, Fault>,
    ManagerPid: FnOnce(bool) -> Result<Option<u32>, Fault>,

    requires
        call_ensures(
            capture_launchd_runtime_for_snapshot_with::<Loaded, ManagerPid>,
            (loaded, manager_pid),
            r,
        ),
        forall|l: Result<bool, Fault>| #[trigger] loaded.ensures((), l) ==> l == Ok::<bool, Fault>(
            is_loaded,
        ),
        forall|p: Result<Option<u32>, Fault>| #[trigger] manager_pid.ensures((is_loaded,), p) ==> p
            == Ok::<Option<u32>, Fault>(pid),
    ensures
        r is Ok <==> is_loaded == (pid is Some),
        r matches Ok(runtime) ==> runtime.loaded == is_loaded && runtime.manager_pid == pid,
{
}

/// A prior daemon that was restarted is kept whatever was said before; one that was not
/// is a failure for that reason, stopped or not.
pub proof fn law_a_restarted_prior_daemon_is_kept<Diagnostics, Reestablish>(
    restoration: Result<(), Fault>,
    diagnostics: Diagnostics,
    reestablish: Reestablish,
    r: Result<FailedStopRestoration, Fault>,
) where
    Diagnostics: FnOnce() -> Result<(), Fault>,
    Reestablish: FnOnce() -> Result<(), Fault>,

    requires
        call_ensures(
            finalize_prior_restart_restoration::<Diagnostics, Reestablish>,
            (restoration, diagnostics, reestablish),
            r,
        ),
    ensures
        r is Ok <==> restoration is Ok,
        restoration matches Err(error) ==> (r matches Err(fault) && stems_from(fault@, error@)),
        restoration is Ok && (forall|d: Result<(), Fault>| #[trigger]
            diagnostics.ensures((), d) ==> d is Ok) ==> r == Ok::<FailedStopRestoration, Fault>(
            FailedStopRestoration::Exact,
        ),
        restoration is Ok && (forall|d: Result<(), Fault>| #[trigger]
            diagnostics.ensures((), d) ==> d is Err) ==> (r matches Ok(kept) && kept is
            ExactWithDiagnostics),
{
}

/// A boundary that ended well is left as it is; one that did not is finalized.
pub proof fn law_only_a_failed_boundary_is_finalized<T, F>(
    result: Result<T, Fault>,
    finalize: F,
    r: Result<T, Fault>,
) where F: FnOnce(Fault) -> Fault
    requires
        call_ensures(finalize_installer_boundary_result::<T, F>, (result, finalize), r),
    ensures
        result is Ok ==> r == result,
        result matches Err(error) ==> (r matches Err(fault) && finalize.ensures((error,), fault)),
{
}

/// A panic is reported with its own words where it has any.
pub proof fn law_a_panic_is_reported(payload: &str, r: Fault)
    requires
        call_ensures(boundary_panic, (Some(payload),), r),
    ensures
        r@.len() == 1 && finishes_with(r@[0], payload@),
{
    let front = "installer daemon-boundary operation panicked: "@;
    assert((front + payload@).skip(front.len() as int) =~= payload@);
}

/// Bringing a daemon back begins by looking at who runs or by the rollback; an absence
/// that is held is only verified.
pub proof fn law_restorations_begin_with_a_look(
    state: &SelfUpdateDaemonRestart,
    alternative: Option<Owner>,
    a: FailedStopStage,
    b: PriorStage,
    c: ReestablishStage,
)
    requires
        call_ensures(SelfUpdateDaemonRestart::begin_restore_after_failed_stop, (), a),
        call_ensures(SelfUpdateDaemonRestart::begin_restore_installer_prior_state, (), b),
        call_ensures(
            SelfUpdateDaemonRestart::begin_reestablish_absence,
            (state, alternative),
            c,
        ),
    ensures
        a is LookGeneration && b is Rollback,
        state.absence_held <==> c is VerifyHeld,
        !state.absence_held ==> (c matches ReestablishStage::LookGeneration { alternative: kept }
            && kept == alternative),
{
}

// -- Files --

/// The daemon's files lie apart from each other, all below the same directory.
pub proof fn law_the_daemons_files_lie_apart(
    platform: Platform,
    home: &str,
    pid: String,
    path: &str,
    lock: String,
    request: String,
    state: String,
)
    requires
        call_ensures(pidfile_path, (platform, home), pid),
        path@ == pid@,
        call_ensures(pidfile_lock_path_for, (path,), lock),
        call_ensures(shutdown_request_path, (platform, home), request),
        call_ensures(state_path, (platform, home), state),
    ensures
        begins_with(pid@, home@) && begins_with(request@, home@) && begins_with(state@, home@),
        finishes_with(pid@, "daemon.pid"@) && finishes_with(request@, "daemon.shutdown"@)
            && finishes_with(state@, "daemon-state.json"@),
        pid@ != request@ && pid@ != state@ && request@ != state@,
        begins_with(lock@, pid@) && lock@ != pid@ && lock@ != request@ && lock@ != state@,
{
    let a = "daemon.pid"@;
    let b = "daemon.shutdown"@;
    let c = "daemon-state.json"@;
    reveal_strlit("daemon.pid");
    reveal_strlit("daemon.shutdown");
    reveal_strlit("daemon-state.json");
    assert(pid@.take(home@.len() as int) =~= home@);
    assert(request@.take(home@.len() as int) =~= home@);
    assert(state@.take(home@.len() as int) =~= home@);
    assert(pid@.skip(pid@.len() - a.len()) =~= a);
    assert(request@.skip(request@.len() - b.len()) =~= b);
    assert(state@.skip(state@.len() - c.len()) =~= c);
    assert(pid@.last() == 'd' && request@.last() == 'n' && state@.last() == 'n');
    assert(request@[request@.len() - 2] == 'w' && state@[state@.len() - 2] == 'o');
    reveal_strlit(".lock");
    assert(lock@.take(pid@.len() as int) =~= pid@);
    assert(lock@.last() == 'k');
}

/// Two sights are the same exactly if neither shows a file or both show the same one.
pub proof fn law_sights_are_compared_whole(
    a: &Option<FileToken>,
    b: &Option<FileToken>,
    x: &[u8],
    y: &[u8],
    r: bool,
    bytes: bool,
)
    requires
        call_ensures(same_sight, (a, b), r),
        call_ensures(same_bytes, (x, y), bytes),
    ensures
        *a is None && *b is None ==> r,
        a.is_some() != b.is_some() ==> !r,
        *a matches Some(s) ==> (*b matches Some(t) ==> (r <==> s@ == t@)),
        bytes <==> x@ == y@,
{
}

/// There is a definition exactly where a regular file is seen, and none exactly where
/// nothing is.
pub proof fn law_a_definition_is_a_regular_file(
    platform: Platform,
    path: &str,
    sight: DefinitionSight,
    r: Result<bool, Fault>,
)
    requires
        call_ensures(regular_file, (platform, path, sight), r),
    ensures
        r == Ok::<bool, Fault>(true) <==> sight is File,
        r == Ok::<bool, Fault>(false) <==> sight is Missing,
        sight matches DefinitionSight::Unknown(error) ==> (r matches Err(fault) && stems_from(
            fault@,
            error@,
        )),
{
}

/// A failed creation keeps why it failed, whatever became of what it left.
pub proof fn law_a_failed_creation_keeps_its_cause(
    destination: &str,
    cause: Fault,
    cleanup: Option<Result<RemoveExactOutcome, Fault>>,
    r: Fault,
)
    requires
        call_ensures(cleanup_failed_creation, (destination, cause, cleanup), r),
    ensures
        stems_from(r@, cause@) && r@.len() == cause@.len() + 1,
        has_text(r@[0], destination@),
{
    let d = destination@;
    let text = r@[0];
    match cleanup {
        None => {
            let front = "exclusive creation failed and its unclassified residue was preserved at "@;
            assert(text.subrange(front.len() as int, front.len() as int + d.len()) =~= d);
        },
        Some(Ok(_)) => {
            let front = "exclusive creation failed; its exact residue was removed from "@;
            assert(text.subrange(front.len() as int, front.len() as int + d.len()) =~= d);
        },
        Some(Err(_)) => {
            let front = "exclusive creation failed and exact cleanup could not complete at "@;
            assert(text.subrange(front.len() as int, front.len() as int + d.len()) =~= d);
        },
    }
}

/// A path that is required is taken as it is given, and must be given.
pub proof fn law_a_required_path_must_be_given(
    value: Option<String>,
    name: &str,
    r: Result<String, Fault>,
)
    requires
        call_ensures(required_path, (value, name), r),
    ensures
        r is Ok <==> value is Some,
        r matches Ok(path) ==> value == Some(path),
        r matches Err(fault) ==> fault@.len() == 1 && finishes_with(fault@[0], name@),
{
    let front = "internal installer file operation requires --"@;
    assert((front + name@).skip(front.len() as int) =~= name@);
}

/// A daemon can be started on every Unix system and on Windows.
pub proof fn law_daemons_run_on_unix_and_windows(platform: Platform, r: bool)
    requires
        call_ensures(Platform::supports_daemon, (platform,), r),
    ensures
        r <==> platform == Platform::Linux || platform == Platform::MacOs || platform
            == Platform::OtherUnix || platform == Platform::Windows,
{
}

// -- Reports --

/// A failed cleanup while unwinding is told exactly while its guard is armed.
pub proof fn law_an_armed_guard_tells_of_its_failure(
    guard: &PidGuard,
    cleaned: Result<(), Fault>,
    r: Option<String>,
)
    requires
        call_ensures(PidGuard::unwound, (guard, cleaned), r),
    ensures
        r is Some <==> guard.armed && cleaned is Err,
{
}

/// Staged tasks of different processes or moments have different names.
pub proof fn law_staged_tasks_have_their_own_names(
    process: u32,
    nanos: u128,
    other: u32,
    later: u128,
    a: String,
    b: String,
)
    requires
        call_ensures(staged_task_name, (process, nanos), a),
        call_ensures(staged_task_name, (other, later), b),
        a@ == b@,
    ensures
        process == other && nanos == later,
{
    let front = "\\codex-switch-global-pace-daemon-install-"@;
    let p = decimal(process as nat);
    let q = decimal(other as nat);
    let x = decimal(nanos as nat);
    let y = decimal(later as nat);
    reveal_strlit("-");
    lemma_decimal_value(process as nat);
    lemma_decimal_value(other as nat);
    lemma_decimal_value(nanos as nat);
    lemma_decimal_value(later as nat);
    let s = a@.skip(front.len() as int);
    assert(s =~= p + "-"@ + x);
    assert(s =~= q + "-"@ + y);
    assert(s[p.len() as int] == '-' && s[q.len() as int] == '-');
    if p.len() < q.len() {
        assert(digit_value(q[p.len() as int], 10) is Some);
        assert(s[p.len() as int] == q[p.len() as int]);
    }
    if q.len() < p.len() {
        assert(digit_value(p[q.len() as int], 10) is Some);
        assert(s[q.len() as int] == p[q.len() as int]);
    }
    assert(s.take(p.len() as int) =~= p && s.take(p.len() as int) =~= q);
    assert(s.skip(p.len() as int + 1) =~= x && s.skip(p.len() as int + 1) =~= y);
}

/// Every failed worker is named with its detail.
pub proof fn law_every_failed_worker_is_named(failures: &[WorkerFailure], r: Fault, i: int)
    requires
        call_ensures(batch_failure, (failures,), r),
        0 <= i < failures@.len(),
    ensures
        r@.len() == 1,
        has_text(r@[0], failures@[i].alias@) && has_text(r@[0], failures@[i].detail@),
{
    let views = crate::monitor::failure_views(failures@);
    let front = "one or more automatic-selection candidate workers failed: "@;
    lemma_worker_is_named(views, i);
    lemma_text_behind(front, crate::monitor::failure_words(views), failures@[i].alias@);
    lemma_text_behind(front, crate::monitor::failure_words(views), failures@[i].detail@);
}

/// What a text holds it holds behind another.
proof fn lemma_text_behind(front: Seq<char>, s: Seq<char>, needle: Seq<char>)
    requires
        has_text(s, needle),
    ensures
        has_text(front + s, needle),
{
    let i = choose|i: int|
        0 <= i <= s.len() - needle.len() && #[trigger] s.subrange(i, i + needle.len()) == needle;
    let k = front.len() + i;
    assert((front + s).subrange(k, k + needle.len()) =~= needle) by {
        assert forall|j: int| 0 <= j < needle.len() implies (front + s)[k + j] == needle[j] by {
            assert(s.subrange(i, i + needle.len())[j] == needle[j]);
        }
    }
}

/// What a text holds it holds before another.
proof fn lemma_text_before(s: Seq<char>, back: Seq<char>, needle: Seq<char>)
    requires
        has_text(s, needle),
    ensures
        has_text(s + back, needle),
{
    let i = choose|i: int|
        0 <= i <= s.len() - needle.len() && #[trigger] s.subrange(i, i + needle.len()) == needle;
    assert((s + back).subrange(i, i + needle.len()) =~= needle) by {
        assert forall|j: int| 0 <= j < needle.len() implies (s + back)[i + j] == needle[j] by {
            assert(s.subrange(i, i + needle.len())[j] == needle[j]);
        }
    }
}

/// The words of failed workers hold each of them.
proof fn lemma_worker_is_named(views: Seq<(Seq<char>, Seq<char>)>, i: int)
    requires
        0 <= i < views.len(),
    ensures
        has_text(crate::monitor::failure_words(views), views[i].0),
        has_text(crate::monitor::failure_words(views), views[i].1),
    decreases views.len(),
{
    let last = views.last();
    let word = "["@ + last.0 + "] "@ + last.1;
    let head = views.drop_last();
    if i == views.len() - 1 {
        assert(last.0.subrange(0, 0int + last.0.len()) =~= last.0);
        assert(last.1.subrange(0, 0int + last.1.len()) =~= last.1);
        lemma_text_behind("["@, last.0, last.0);
        lemma_text_before("["@ + last.0, "] "@, last.0);
        lemma_text_before("["@ + last.0 + "] "@, last.1, last.0);
        lemma_text_behind("["@ + last.0 + "] "@, last.1, last.1);
        if views.len() > 1 {
            lemma_text_behind(crate::monitor::failure_words(head) + "; "@, word, last.0);
            lemma_text_behind(crate::monitor::failure_words(head) + "; "@, word, last.1);
        }
    } else {
        lemma_worker_is_named(head, i);
        assert(head[i] == views[i]);
        lemma_text_before(crate::monitor::failure_words(head), "; "@, views[i].0);
        lemma_text_before(crate::monitor::failure_words(head) + "; "@, word, views[i].0);
        lemma_text_before(crate::monitor::failure_words(head), "; "@, views[i].1);
        lemma_text_before(crate::monitor::failure_words(head) + "; "@, word, views[i].1);
    }
}

/// A report of a cleanup or an operation tells apart whether it was complete.
pub proof fn law_reports_tell_what_is_complete(
    cleanup: Result<ServiceFileCleanupOutcome, Fault>,
    operation: Result<(), Fault>,
    a: String,
    b: String,
)
    requires
        call_ensures(service_cleanup_result, (cleanup,), a),
        call_ensures(service_operation_result, (operation,), b),
    ensures
        begins_with(a@, "incomplete"@) <==> cleanup is Err,
        begins_with(a@, "complete"@) <==> (cleanup matches Ok(outcome) && outcome is Durable),
        begins_with(b@, "incomplete"@) <==> operation is Err,
        begins_with(b@, "complete"@) <==> operation is Ok,
        cleanup matches Ok(ServiceFileCleanupOutcome::DurabilityUnconfirmed(note)) ==> finishes_with(
            a@,
            note@,
        ),
{
    reveal_strlit("incomplete");
    reveal_strlit("complete");
    reveal_strlit("incomplete: ");
    reveal_strlit("complete and durable");
    reveal_strlit("applied, but durability is unconfirmed: ");
    let yes = "complete"@;
    let no = "incomplete"@;
    assert(yes[0] == 'c' && no[0] == 'i');
    if cleanup is Err {
        assert(a@.take(no.len() as int) =~= no);
        assert(a@[0] == 'i');
        assert(a@.take(yes.len() as int)[0] == 'i');
    }
    if operation is Err {
        assert(b@.take(no.len() as int) =~= no);
        assert(b@.take(yes.len() as int)[0] == 'i');
    } else {
        assert(b@.take(yes.len() as int) =~= yes);
    }
    if let Ok(outcome) = cleanup {
        if outcome is Durable {
            assert(a@.take(yes.len() as int) =~= yes);
            assert(a@.take(no.len() as int)[0] == 'c');
        } else {
            let note = outcome->DurabilityUnconfirmed_0@;
            let front = "applied, but durability is unconfirmed: "@;
            assert(a@.take(yes.len() as int)[0] == 'a');
            assert(a@.take(no.len() as int)[0] == 'a');
            assert(a@.skip(front.len() as int) =~= note);
        }
    }
}

/// A failure of the scheduler says what was tried and how it failed; only a creation
/// adds what to do.
pub proof fn law_a_scheduler_failure_says_what_was_tried(action: &str, detail: &str, r: String)
    requires
        call_ensures(task_scheduler_failure_message, (action, detail), r),
    ensures
        begins_with(r@, "failed to "@ + action@ + ": "@ + detail@),
        action@ != "create scheduled task"@ ==> r@ == "failed to "@ + action@ + ": "@ + detail@,
        action@ == "create scheduled task"@ ==> r@.len() > ("failed to "@ + action@ + ": "@
            + detail@).len(),
{
    let front = "failed to "@ + action@ + ": "@ + detail@;
    reveal_strlit("");
    reveal_strlit(
        " Re-run `codex-switch-global-pace daemon install` from an elevated PowerShell session.",
    );
    assert(r@.take(front.len() as int) =~= front);
    if action@ != "create scheduled task"@ {
        assert(r@ =~= front);
    }
}

/// A file that changed is named with what it was for.
pub proof fn law_a_changed_file_is_named(
    purpose: &str,
    path: &str,
    expected: &FileToken,
    observed: &FileToken,
    r: Fault,
)
    requires
        call_ensures(changed_fault, (purpose, path, expected, observed), r),
    ensures
        r@.len() == 1 && begins_with(r@[0], purpose@ + " changed at "@ + path@),
{
    let front = purpose@ + " changed at "@ + path@;
    assert(r@[0].take(front.len() as int) =~= front);
}

/// How a creation or a removal ended is told in different words, and the file that was
/// created by its token.
pub proof fn law_outcomes_are_told_apart(
    token: FileToken,
    text: String,
    a: String,
    b: String,
    c: String,
    d: String,
)
    requires
        call_ensures(FileToken::to_text, (&token,), text),
        call_ensures(format_create_outcome, (CreateExactOutcome::Created(token),), a),
        call_ensures(
            format_create_outcome,
            (CreateExactOutcome::CreatedNamespaceDurabilityUnconfirmed(token),),
            b,
        ),
        call_ensures(format_remove_outcome, (RemoveExactOutcome::Removed,), c),
        call_ensures(
            format_remove_outcome,
            (RemoveExactOutcome::RemovedNamespaceDurabilityUnconfirmed,),
            d,
        ),
    ensures
        a@ == "created|"@ + text@ && finishes_with(b@, seq!['|'] + text@),
        a@ != b@ && c@ != d@,
        c@ == "removed"@ && begins_with(d@, c@),
{
    reveal_strlit("created|");
    reveal_strlit("created-namespace-durability-unconfirmed|");
    reveal_strlit("removed");
    reveal_strlit("removed-namespace-durability-unconfirmed");
    let tail = seq!['|'] + text@;
    assert(b@.skip(b@.len() - tail.len()) =~= tail);
    assert(d@.take(c@.len() as int) =~= c@);
    assert(a@[7] == '|' && b@[7] == '-');
}

/// A rename leads only to a name that is not empty and holds no zero; each unit takes
/// two bytes.
pub proof fn law_a_rename_names_its_destination(
    units: &[u16],
    header: usize,
    display: &str,
    r: Result<(u32, u32), Fault>,
)
    requires
        call_ensures(rename_information, (units, header, display), r),
    ensures
        r is Ok ==> units@.len() > 0 && !units@.contains(0),
        r matches Ok(lengths) ==> lengths.0 == 2 * units@.len() && lengths.1 == header + lengths.0,
        units@.len() > 0 && !units@.contains(0) && header + 2 * units@.len() <= u32::MAX ==> r is Ok,
{
}

/// Whether every component is a plain name or a root.
pub open spec fn plain_components(components: Seq<PathComponent>) -> bool {
    forall|i: int|
        0 <= i < components.len() ==> (#[trigger] components[i] is Normal || components[i] is Root)
}

/// Whether a name is one of the components.
pub open spec fn names_component(components: Seq<PathComponent>, text: Seq<char>) -> bool {
    exists|i: int| 0 <= i < components.len() && component_is(#[trigger] components[i], text)
}

/// Whether a component is a name.
pub open spec fn component_is(component: PathComponent, text: Seq<char>) -> bool {
    component matches PathComponent::Normal(name) && name@ == text
}

/// What is walked are names among the components, and no way leads upwards.
proof fn lemma_walk(components: Seq<PathComponent>, windows: bool, display: Seq<char>)
    ensures
        plain_components(components) ==> walk_from(components, windows, display) is Ok,
        (exists|i: int| 0 <= i < components.len() && #[trigger] components[i] is Parent)
            ==> walk_from(components, windows, display) is Err,
        walk_from(components, windows, display) matches Ok(names) ==> forall|k: int|
            0 <= k < names.len() ==> names_component(components, #[trigger] names[k]),
    decreases components.len(),
{
    if components.len() > 0 {
        let rest = components.skip(1);
        lemma_walk(rest, windows, display);
        assert forall|i: int| 0 <= i < rest.len() implies #[trigger] rest[i] == components[i + 1] by {}
        if exists|i: int| 0 <= i < components.len() && #[trigger] components[i] is Parent {
            let i = choose|i: int| 0 <= i < components.len() && #[trigger] components[i] is Parent;
            if i > 0 {
                assert(rest[i - 1] is Parent);
            }
        }
        if let Ok(names) = walk_from(components, windows, display) {
            let inner = walk_from(rest, windows, display)->Ok_0;
            assert forall|k: int| 0 <= k < names.len() implies names_component(
                components,
                #[trigger] names[k],
            ) by {
                if components[0] is Normal && k == 0 {
                    assert(component_is(components[0], names[0]));
                } else {
                    let j: int = if components[0] is Normal {
                        k - 1
                    } else {
                        k
                    };
                    assert(inner[j] == names[k]);
                    assert(names_component(rest, inner[j]));
                    let i = choose|i: int|
                        0 <= i < rest.len() && component_is(#[trigger] rest[i], inner[j]);
                    assert(components[i + 1] == rest[i]);
                }
            }
        }
    }
}

/// A directory is opened by its own names alone, and only where its path is absolute
/// and never leads upwards.
pub proof fn law_a_directory_is_opened_by_its_names(
    path: &HostPath,
    windows: bool,
    r: Result<Vec<String>, Fault>,
    k: int,
)
    requires
        call_ensures(open_direct_directory, (path, windows), r),
    ensures
        !path.absolute ==> r is Err,
        (exists|i: int| 0 <= i < path.components@.len() && #[trigger] path.components@[i] is Parent)
            ==> r is Err,
        path.absolute && !windows && plain_components(path.components@) ==> r is Ok,
        r matches Ok(names) ==> (0 <= k < names@.len() ==> names_component(
            path.components@,
            names@[k]@,
        )),
{
    lemma_walk(path.components@, windows, path.display@);
    if let Ok(names) = r {
        let walk = walk_from(path.components@, windows, path.display@)->Ok_0;
        assert(texts(names@) == walk);
        if 0 <= k < names@.len() {
            assert(texts(names@)[k] == names@[k]@);
            assert(names_component(path.components@, walk[k]));
        }
    }
}

/// A directory is opened from the outside in: first its first name, then what lies
/// below it; the root adds no name.
pub proof fn law_a_directory_is_opened_from_the_root(
    path: &HostPath,
    below: &HostPath,
    windows: bool,
    first: PathComponent,
    r: Result<Vec<String>, Fault>,
    rest: Result<Vec<String>, Fault>,
)
    requires
        path.absolute && below.absolute,
        path.components@ == seq![first] + below.components@,
        call_ensures(open_direct_directory, (path, windows), r),
        call_ensures(open_direct_directory, (below, windows), rest),
        rest is Ok,
    ensures
        first matches PathComponent::Normal(name) ==> (r matches Ok(names) && texts(names@)
            == seq![name@] + texts(rest->Ok_0@)),
        first is Root ==> (r matches Ok(names) && texts(names@) == texts(rest->Ok_0@)),
        !windows && first is Current ==> (r matches Ok(names) && texts(names@) == texts(
            rest->Ok_0@,
        )),
        windows && first is Current ==> r is Err,
{
    assert(path.components@.skip(1) =~= below.components@);
    assert(path.components@[0] == first);
    lemma_walk_needs_no_words(below.components@, windows, below.display@, path.display@);
}

/// Which names are walked does not depend on the words of a failure.
proof fn lemma_walk_needs_no_words(
    components: Seq<PathComponent>,
    windows: bool,
    a: Seq<char>,
    b: Seq<char>,
)
    ensures
        walk_from(components, windows, a) is Ok == walk_from(components, windows, b) is Ok,
        walk_from(components, windows, a) matches Ok(names) ==> walk_from(components, windows, b)
            == Ok::<Seq<Seq<char>>, Seq<char>>(names),
    decreases components.len(),
{
    if components.len() > 0 {
        lemma_walk_needs_no_words(components.skip(1), windows, a, b);
    }
}

/// A token is shown exactly by a file that has it.
pub proof fn law_a_token_is_shown_by_its_file(at: &Option<FileToken>, token: &FileToken, r: bool)
    requires
        call_ensures(shows, (at, token), r),
    ensures
        *at is None ==> !r,
        *at matches Some(found) ==> (r <==> found@ == token@),
{
}

/// A failure is told with its latest context first, then whatever it stems from; its
/// headline is that context.
pub proof fn law_a_failure_is_told_with_its_context(
    fault: Fault,
    message: &str,
    plain: Fault,
    outer: Fault,
    inner_text: String,
    plain_text: String,
    outer_text: String,
    headline: String,
)
    requires
        call_ensures(Fault::of, (message,), plain),
        call_ensures(Fault::within, (fault, message), outer),
        call_ensures(Fault::detail, (&fault,), inner_text),
        call_ensures(Fault::detail, (&plain,), plain_text),
        call_ensures(Fault::detail, (&outer,), outer_text),
        call_ensures(Fault::headline, (&outer,), headline),
        fault@.len() > 0,
    ensures
        plain_text@ == message@,
        headline@ == message@,
        outer_text@ == message@ + ": "@ + inner_text@,
        stems_from(outer@, fault@),
{
    lemma_joined_front(fault@, message@);
}

/// Putting a message in front of others puts its words in front of theirs.
proof fn lemma_joined_front(messages: Seq<Seq<char>>, message: Seq<char>)
    requires
        messages.len() > 0,
    ensures
        joined(seq![message] + messages) == message + ": "@ + joined(messages),
        joined(seq![message]) == message,
    decreases messages.len(),
{
    reveal_with_fuel(joined, 3);
    let all = seq![message] + messages;
    if messages.len() == 1 {
        assert(all.drop_last() =~= seq![message]);
        assert(joined(all) =~= message + ": "@ + joined(messages));
    } else {
        lemma_joined_front(messages.drop_last(), message);
        assert(all.drop_last() =~= seq![message] + messages.drop_last());
        assert(all.last() == messages.last());
        assert(joined(all) =~= message + ": "@ + joined(messages));
    }
}

} // verus!
