//! What the service procedures bring about.
//!
//! A procedure that passed leaves what it is for, whatever the manager made of its
//! commands; and with a manager that does what it is told it passes.
use vstd::prelude::*;

use crate::cause::stems_from;
use crate::fault::Fault;
use crate::host_path::HostPath;
use crate::launchd_service::{
    launchd_activation, launchd_preparation, launchd_restart_unchanged,
    restore_launchd_after_prepublication_stop, rollback_launchd_install, rollback_launchd_uninstall,
    start_launchd, stop_launchd, stop_launchd_manager, uninstall_launchd,
};
use crate::procedure_model::{end, passed, ran, ran_obeyed, through, Run};
use crate::service_operation::{
    advance, Check, CheckReply, Cursor, Expectation, Part, Progress, ServiceOperation,
};
use crate::service_owner::task_owner_problem;
use crate::systemd_service::{
    restore_systemd_after_prepublication_stop, rollback_systemd_install, rollback_systemd_uninstall,
    start_systemd, stop_systemd, stop_systemd_manager, systemd_activation, systemd_preparation,
    systemd_restart_unchanged, uninstall_systemd,
};
use crate::task_service::{
    admit_task_installation, install_task_scheduler, optional_bytes,
    restore_after_uncertain_task_publication, restore_scheduled_task,
    restore_uninstall_running_state_locked, rollback_task_scheduler_uninstall, start_task_scheduler,
    stop_task_scheduler, task_activation, task_preparation, uninstall_task_scheduler,
    TaskInstallPhase, TaskInstallStep, TaskRestoration,
};

verus! {

// -- The systemd user service --

/// A start that passed left the unit active with the daemon of its executable; it
/// passes wherever the unit is installed and can be started, and nowhere else.
#[verifier::rlimit(60)]
pub proof fn law_a_started_unit_runs(installed: bool, script: Vec<Check<'static>>, run: Run)
    requires
        call_ensures(start_systemd, (installed,), script),
    ensures
        passed(run, script@) ==> installed && end(run, script@).runs && end(run, script@).holder
            is New,
        installed && ran_obeyed(run, script@, script@.len() as int) && run.scenes[0].known
            is Published && (run.scenes[0].holder is Nobody || (run.scenes[0].runs
            && run.scenes[0].holder is New)) ==> through(run, script@, script@.len() as int),
{
    reveal_with_fuel(ran, 8);
    reveal_with_fuel(ran_obeyed, 8);
    reveal_with_fuel(through, 8);
}

/// A stop looks whether the unit is active, and where it is, stops it. One that passed
/// left the unit inactive and, where that was asked for, nobody with the lock.
#[verifier::rlimit(60)]
pub proof fn law_a_stopped_unit_rests(
    active: bool,
    first: Vec<Check<'static>>,
    manager: Vec<Check<'static>>,
    whole: Vec<Check<'static>>,
    run: Run,
)
    requires
        call_ensures(stop_systemd, (true, Part::First), first),
        call_ensures(stop_systemd_manager, (true, Part::Second(active)), manager),
        call_ensures(stop_systemd, (true, Part::Second(active)), whole),
        run.scenes[0].runs == active,
    ensures
        first@.len() == 1 && first@[0].expectation is Look,
        passed(run, manager@) ==> !end(run, manager@).runs,
        passed(run, whole@) ==> !end(run, whole@).runs && end(run, whole@).holder is Nobody,
        ran_obeyed(run, whole@, whole@.len() as int) && (run.scenes[0].holder is Nobody || active)
            ==> through(run, whole@, whole@.len() as int) && end(run, whole@).enabled
            == run.scenes[0].enabled && end(run, whole@).definition == run.scenes[0].definition,
        ran_obeyed(run, manager@, manager@.len() as int) ==> through(
            run,
            manager@,
            manager@.len() as int,
        ),
{
    reveal_with_fuel(ran, 8);
    reveal_with_fuel(ran_obeyed, 8);
    reveal_with_fuel(through, 8);
}

/// Where no unit is installed nothing is stopped.
#[verifier::rlimit(60)]
pub proof fn law_no_missing_unit_is_stopped(part: Part, script: Vec<Check<'static>>, run: Run)
    requires
        call_ensures(stop_systemd, (false, Part::First), script),
    ensures
        !passed(run, script@),
{
    reveal_with_fuel(ran, 8);
    reveal_with_fuel(through, 8);
}

/// A preparation that passed left nobody with the lock and the definition that was
/// there; it passes unless a daemon runs outside the service.
#[verifier::rlimit(60)]
pub proof fn law_a_prepared_unit_is_vacant(
    was_active: bool,
    script: Vec<Check<'static>>,
    run: Run,
)
    requires
        call_ensures(systemd_preparation, (was_active,), script),
        run.scenes[0].runs == was_active,
    ensures
        passed(run, script@) ==> end(run, script@).holder is Nobody && !end(run, script@).runs
            && end(run, script@).definition == run.prior,
        ran_obeyed(run, script@, script@.len() as int) && run.scenes[0].definition == run.prior && (
        was_active || run.scenes[0].holder is Nobody) ==> through(
            run,
            script@,
            script@.len() as int,
        ),
{
    reveal_with_fuel(ran, 8);
    reveal_with_fuel(ran_obeyed, 8);
    reveal_with_fuel(through, 8);
}

/// An activation that passed left the unit enabled and active, with the daemon of the
/// new executable; it passes after a publication.
#[verifier::rlimit(60)]
pub proof fn law_an_activated_unit_runs_enabled(script: Vec<Check<'static>>, run: Run)
    requires
        call_ensures(systemd_activation, (), script),
    ensures
        passed(run, script@) ==> end(run, script@).enabled && end(run, script@).runs && end(
            run,
            script@,
        ).holder is New,
        ran_obeyed(run, script@, script@.len() as int) && run.scenes[0].definition is Published
            && !run.scenes[0].runs && run.scenes[0].holder is Nobody ==> through(
            run,
            script@,
            script@.len() as int,
        ) && end(run, script@).definition is Published && end(run, script@).known is Published,
{
    reveal_with_fuel(ran, 8);
    reveal_with_fuel(ran_obeyed, 8);
    reveal_with_fuel(through, 8);
}

/// A restart of what could not be replaced left the daemon of the previous executable
/// under the definition that was there.
#[verifier::rlimit(60)]
pub proof fn law_an_unreplaced_unit_is_restarted(script: Vec<Check<'static>>, run: Run)
    requires
        call_ensures(systemd_restart_unchanged, (), script),
    ensures
        passed(run, script@) ==> end(run, script@).holder is Previous && end(run, script@).definition
            == run.prior,
        ran_obeyed(run, script@, script@.len() as int) && run.scenes[0].definition == run.prior
            && run.scenes[0].known is Previous && !run.scenes[0].runs && run.scenes[0].holder
            is Nobody ==> through(run, script@, script@.len() as int) && end(run, script@).runs,
{
    reveal_with_fuel(ran, 8);
    reveal_with_fuel(ran_obeyed, 8);
    reveal_with_fuel(through, 8);
}

/// A rollback of an installation that passed left the unit exactly as enabled and as
/// active as it was, under the definition that was there, with its previous daemon or
/// with none. It passes whatever the failed service was doing.
#[verifier::rlimit(100)]
#[verifier::spinoff_prover]
pub proof fn law_a_rolled_back_unit_is_as_before(
    was_enabled: bool,
    was_active: bool,
    replaced: bool,
    script: Vec<Check<'static>>,
    run: Run,
)
    requires
        call_ensures(rollback_systemd_install, (was_enabled, was_active, replaced), script),
    ensures
        passed(run, script@) ==> {
            &&& end(run, script@).enabled == was_enabled
            &&& end(run, script@).runs == was_active
            &&& end(run, script@).definition == run.prior
            &&& end(run, script@).holder is Previous == was_active
            &&& end(run, script@).holder is Nobody == !was_active
        },
        ran_obeyed(run, script@, script@.len() as int) && (run.scenes[0].runs
            || run.scenes[0].holder is Nobody) && (was_active ==> run.prior is Previous) && (
        !replaced && !was_enabled && !was_active || run.prior is Previous) ==> through(
            run,
            script@,
            script@.len() as int,
        ) && end(run, script@).known == run.prior,
{
    reveal_with_fuel(ran, 16);
    reveal_with_fuel(ran_obeyed, 16);
    reveal_with_fuel(through, 16);
}

/// An uninstallation that passed left the unit inactive and disabled, without a
/// definition and with nobody who holds the lock. It passes whether or not the unit
/// ran. Where nothing is installed, nothing may run or be enabled.
#[verifier::rlimit(60)]
pub proof fn law_an_uninstalled_unit_is_gone(
    installed: bool,
    script: Vec<Check<'static>>,
    run: Run,
)
    requires
        call_ensures(uninstall_systemd, (installed,), script),
    ensures
        passed(run, script@) ==> !end(run, script@).runs && !end(run, script@).enabled,
        passed(run, script@) && installed ==> end(run, script@).holder is Nobody && end(
            run,
            script@,
        ).definition is Missing,
        installed && ran_obeyed(run, script@, script@.len() as int) && (run.scenes[0].runs
            || run.scenes[0].holder is Nobody) ==> through(run, script@, script@.len() as int)
            && end(run, script@).known is Missing,
        !installed && ran_obeyed(run, script@, script@.len() as int) ==> (through(
            run,
            script@,
            script@.len() as int,
        ) <==> !run.scenes[0].runs && !run.scenes[0].enabled),
{
    reveal_with_fuel(ran, 10);
    reveal_with_fuel(ran_obeyed, 10);
    reveal_with_fuel(through, 10);
}

/// A rollback of an uninstallation puts a definition that was moved back and requires
/// one that was not unchanged, restores whether the unit is enabled, and then looks
/// whether it is active.
#[verifier::rlimit(60)]
pub proof fn law_an_uninstallation_of_a_unit_is_taken_back(
    moved: bool,
    was_enabled: bool,
    was_active: bool,
    restoring: &str,
    script: Vec<Check<'_>>,
    run: Run,
)
    requires
        call_ensures(
            rollback_systemd_uninstall,
            (moved, was_enabled, was_active, restoring, Part::First),
            script,
        ),
    ensures
        script@.last().expectation is Look,
        passed(run, script@) ==> end(run, script@).definition == run.prior,
        ran_obeyed(run, script@, script@.len() as int) && (moved || run.scenes[0].definition
            == run.prior) ==> through(run, script@, script@.len() as int) && end(run, script@).known
            == run.prior && end(run, script@).enabled == was_enabled && run.replies[script@.len()
            - 1] == CheckReply::Answer(end(run, script@).runs),
{
    reveal_with_fuel(ran, 8);
    reveal_with_fuel(ran_obeyed, 8);
    reveal_with_fuel(through, 8);
}

/// What follows the look of a rollback left the unit exactly as enabled and as active
/// as it was; an active one has its previous daemon. It passes whether or not the unit
/// was found active.
#[verifier::rlimit(100)]
#[verifier::spinoff_prover]
pub proof fn law_a_restored_unit_is_as_before(
    moved: bool,
    was_enabled: bool,
    was_active: bool,
    restoring: &str,
    active: bool,
    uninstall: Vec<Check<'_>>,
    preparation: Vec<Check<'static>>,
    run: Run,
)
    requires
        call_ensures(
            rollback_systemd_uninstall,
            (moved, was_enabled, was_active, restoring, Part::Second(active)),
            uninstall,
        ),
        call_ensures(
            restore_systemd_after_prepublication_stop,
            (was_enabled, was_active, Part::Second(active)),
            preparation,
        ),
        run.scenes[0].runs == active,
    ensures
        passed(run, uninstall@) ==> end(run, uninstall@).enabled == was_enabled && end(
            run,
            uninstall@,
        ).runs == was_active && (was_active ==> end(run, uninstall@).holder is Previous),
        passed(run, preparation@) ==> end(run, preparation@).enabled == was_enabled && end(
            run,
            preparation@,
        ).runs == was_active && (was_active ==> end(run, preparation@).holder is Previous),
        ran_obeyed(run, uninstall@, uninstall@.len() as int) && run.scenes[0].enabled == was_enabled
            && run.scenes[0].known is Previous && (if active {
            run.scenes[0].holder is Previous
        } else {
            run.scenes[0].holder is Nobody
        }) ==> through(run, uninstall@, uninstall@.len() as int) && (!was_active ==> end(
            run,
            uninstall@,
        ).holder is Nobody),
        ran_obeyed(run, preparation@, preparation@.len() as int) && run.scenes[0].enabled
            == was_enabled && run.scenes[0].known is Previous && (if active {
            run.scenes[0].holder is Previous && was_active
        } else {
            run.scenes[0].holder is Nobody
        }) ==> through(run, preparation@, preparation@.len() as int),
        active && !was_active ==> !passed(run, preparation@),
{
    reveal_with_fuel(ran, 10);
    reveal_with_fuel(ran_obeyed, 10);
    reveal_with_fuel(through, 10);
}

/// A restoration after a failed preparation first requires the definition and the
/// enablement unchanged, and then looks whether the unit is active.
#[verifier::rlimit(60)]
pub proof fn law_a_preparation_of_a_unit_is_taken_back(
    was_enabled: bool,
    was_active: bool,
    script: Vec<Check<'static>>,
    run: Run,
)
    requires
        call_ensures(
            restore_systemd_after_prepublication_stop,
            (was_enabled, was_active, Part::First),
            script,
        ),
    ensures
        script@.last().expectation is Look,
        passed(run, script@) ==> end(run, script@).definition == run.prior && end(
            run,
            script@,
        ).enabled == was_enabled && run.replies[script@.len() - 1] == CheckReply::Answer(
            end(run, script@).runs,
        ),
        ran_obeyed(run, script@, script@.len() as int) && run.scenes[0].definition == run.prior
            && run.scenes[0].enabled == was_enabled ==> through(run, script@, script@.len() as int),
{
    reveal_with_fuel(ran, 8);
    reveal_with_fuel(ran_obeyed, 8);
    reveal_with_fuel(through, 8);
}

// -- The LaunchAgent --

/// A start looks whether the agent is loaded, and loads or starts it. One that passed
/// left the daemon of its executable, and it passes whether or not the agent was
/// loaded.
#[verifier::rlimit(60)]
pub proof fn law_a_started_agent_runs(
    loaded: bool,
    first: Vec<Check<'static>>,
    missing: Vec<Check<'static>>,
    script: Vec<Check<'static>>,
    run: Run,
)
    requires
        call_ensures(start_launchd, (true, Part::First), first),
        call_ensures(start_launchd, (false, Part::First), missing),
        call_ensures(start_launchd, (true, Part::Second(loaded)), script),
    ensures
        first@.len() == 1 && first@[0].expectation is Look,
        !passed(run, missing@),
        passed(run, script@) ==> end(run, script@).holder is New && (!loaded ==> end(
            run,
            script@,
        ).runs),
        ran_obeyed(run, script@, script@.len() as int) && run.scenes[0].runs == loaded
            && run.scenes[0].definition is Published && run.scenes[0].known is Published && (
        run.scenes[0].holder is Nobody || (loaded && run.scenes[0].holder is New)) ==> through(
            run,
            script@,
            script@.len() as int,
        ) && end(run, script@).runs,
{
    reveal_with_fuel(ran, 8);
    reveal_with_fuel(ran_obeyed, 8);
    reveal_with_fuel(through, 8);
}

/// A stop looks whether the agent is loaded, and where it is, unloads it. One that
/// passed left it unloaded and, where that was asked for, nobody with the lock.
#[verifier::rlimit(60)]
pub proof fn law_a_stopped_agent_rests(
    loaded: bool,
    first: Vec<Check<'static>>,
    manager: Vec<Check<'static>>,
    whole: Vec<Check<'static>>,
    run: Run,
)
    requires
        call_ensures(stop_launchd, (true, Part::First), first),
        call_ensures(stop_launchd_manager, (true, Part::Second(loaded)), manager),
        call_ensures(stop_launchd, (true, Part::Second(loaded)), whole),
        run.scenes[0].runs == loaded,
    ensures
        first@.len() == 1 && first@[0].expectation is Look,
        passed(run, manager@) ==> !end(run, manager@).runs,
        passed(run, whole@) ==> !end(run, whole@).runs && end(run, whole@).holder is Nobody,
        ran_obeyed(run, whole@, whole@.len() as int) && (run.scenes[0].holder is Nobody || loaded)
            ==> through(run, whole@, whole@.len() as int) && end(run, whole@).definition
            == run.scenes[0].definition,
        ran_obeyed(run, manager@, manager@.len() as int) ==> through(
            run,
            manager@,
            manager@.len() as int,
        ),
{
    reveal_with_fuel(ran, 8);
    reveal_with_fuel(ran_obeyed, 8);
    reveal_with_fuel(through, 8);
}

/// Where no agent is installed none may be loaded, and a stop waits for the daemon.
#[verifier::rlimit(60)]
pub proof fn law_a_missing_agent_rests(
    manager: Vec<Check<'static>>,
    whole: Vec<Check<'static>>,
    run: Run,
)
    requires
        call_ensures(stop_launchd_manager, (false, Part::First), manager),
        call_ensures(stop_launchd, (false, Part::First), whole),
    ensures
        ran(run, manager@, manager@.len() as int) ==> (through(run, manager@, manager@.len() as int)
            <==> !run.scenes[0].runs),
        ran(run, whole@, whole@.len() as int) ==> (through(run, whole@, whole@.len() as int) <==> !(
        run.scenes[0].runs) && run.scenes[0].holder is Nobody),
{
    reveal_with_fuel(ran, 8);
    reveal_with_fuel(ran_obeyed, 8);
    reveal_with_fuel(through, 8);
}

/// A preparation that passed left nobody with the lock and the definition that was
/// there; it passes unless a daemon runs outside the agent.
#[verifier::rlimit(60)]
pub proof fn law_a_prepared_agent_is_vacant(
    was_loaded: bool,
    script: Vec<Check<'static>>,
    run: Run,
)
    requires
        call_ensures(launchd_preparation, (was_loaded,), script),
        run.scenes[0].runs == was_loaded,
    ensures
        passed(run, script@) ==> end(run, script@).holder is Nobody && !end(run, script@).runs
            && end(run, script@).definition == run.prior,
        ran_obeyed(run, script@, script@.len() as int) && run.scenes[0].definition == run.prior && (
        was_loaded || run.scenes[0].holder is Nobody) ==> through(
            run,
            script@,
            script@.len() as int,
        ),
{
    reveal_with_fuel(ran, 8);
    reveal_with_fuel(ran_obeyed, 8);
    reveal_with_fuel(through, 8);
}

/// An activation that passed left the agent loaded with the daemon of the new
/// executable; it passes after a publication.
#[verifier::rlimit(60)]
pub proof fn law_an_activated_agent_runs(script: Vec<Check<'static>>, run: Run)
    requires
        call_ensures(launchd_activation, (), script),
    ensures
        passed(run, script@) ==> end(run, script@).runs && end(run, script@).holder is New,
        ran_obeyed(run, script@, script@.len() as int) && run.scenes[0].definition is Published
            && !run.scenes[0].runs && run.scenes[0].holder is Nobody ==> through(
            run,
            script@,
            script@.len() as int,
        ),
{
    reveal_with_fuel(ran, 8);
    reveal_with_fuel(ran_obeyed, 8);
    reveal_with_fuel(through, 8);
}

/// A restart of what could not be replaced left the agent loaded with the daemon of the
/// previous executable, under the definition that was there.
#[verifier::rlimit(60)]
pub proof fn law_an_unreplaced_agent_is_restarted(script: Vec<Check<'static>>, run: Run)
    requires
        call_ensures(launchd_restart_unchanged, (), script),
    ensures
        passed(run, script@) ==> end(run, script@).runs && end(run, script@).holder is Previous
            && end(run, script@).definition == run.prior,
        ran_obeyed(run, script@, script@.len() as int) && run.scenes[0].definition == run.prior
            && run.prior is Previous && !run.scenes[0].runs && run.scenes[0].holder is Nobody
            ==> through(run, script@, script@.len() as int),
{
    reveal_with_fuel(ran, 8);
    reveal_with_fuel(ran_obeyed, 8);
    reveal_with_fuel(through, 8);
}

/// A rollback of an installation looks whether the failed agent is loaded. What follows
/// left the agent exactly as loaded as it was, under the definition that was there,
/// with its previous daemon or with none. It passes whatever the failed agent was
/// doing.
#[verifier::rlimit(100)]
#[verifier::spinoff_prover]
pub proof fn law_a_rolled_back_agent_is_as_before(
    was_loaded: bool,
    restoring: &str,
    loaded: bool,
    first: Vec<Check<'_>>,
    script: Vec<Check<'_>>,
    run: Run,
)
    requires
        call_ensures(rollback_launchd_install, (was_loaded, restoring, Part::First), first),
        call_ensures(
            rollback_launchd_install,
            (was_loaded, restoring, Part::Second(loaded)),
            script,
        ),
        run.scenes[0].runs == loaded,
    ensures
        first@.len() == 1 && first@[0].expectation is Look,
        passed(run, script@) ==> {
            &&& end(run, script@).runs == was_loaded
            &&& end(run, script@).definition == run.prior
            &&& end(run, script@).holder is Previous == was_loaded
            &&& end(run, script@).holder is Nobody == !was_loaded
        },
        ran_obeyed(run, script@, script@.len() as int) && (loaded || run.scenes[0].holder is Nobody)
            && (was_loaded ==> run.prior is Previous) ==> through(
            run,
            script@,
            script@.len() as int,
        ),
{
    reveal_with_fuel(ran, 10);
    reveal_with_fuel(ran_obeyed, 10);
    reveal_with_fuel(through, 10);
}

/// An uninstallation that passed left the agent without a definition and nobody with
/// the lock; a loaded one was unloaded. It passes whether or not the agent was loaded.
/// Where nothing is installed, nothing may be loaded.
#[verifier::rlimit(60)]
pub proof fn law_an_uninstalled_agent_is_gone(
    installed: bool,
    was_loaded: bool,
    script: Vec<Check<'static>>,
    run: Run,
)
    requires
        call_ensures(uninstall_launchd, (installed, was_loaded), script),
        run.scenes[0].runs == was_loaded,
    ensures
        passed(run, script@) ==> !end(run, script@).runs,
        passed(run, script@) && installed ==> end(run, script@).holder is Nobody && end(
            run,
            script@,
        ).definition is Missing,
        installed && ran_obeyed(run, script@, script@.len() as int) && (was_loaded
            || run.scenes[0].holder is Nobody) ==> through(run, script@, script@.len() as int),
        !installed && ran_obeyed(run, script@, script@.len() as int) ==> (through(
            run,
            script@,
            script@.len() as int,
        ) <==> !was_loaded),
{
    reveal_with_fuel(ran, 8);
    reveal_with_fuel(ran_obeyed, 8);
    reveal_with_fuel(through, 8);
}

/// A rollback of an uninstallation puts a definition that was moved back and requires
/// one that was not unchanged, and then looks whether the agent is loaded.
#[verifier::rlimit(60)]
pub proof fn law_an_uninstallation_of_an_agent_is_taken_back(
    moved: bool,
    was_loaded: bool,
    restoring: &str,
    script: Vec<Check<'_>>,
    run: Run,
)
    requires
        call_ensures(
            rollback_launchd_uninstall,
            (moved, was_loaded, restoring, Part::First),
            script,
        ),
    ensures
        script@.last().expectation is Look,
        passed(run, script@) ==> end(run, script@).definition == run.prior
            && run.replies[script@.len() - 1] == CheckReply::Answer(end(run, script@).runs),
        ran_obeyed(run, script@, script@.len() as int) && (moved || run.scenes[0].definition
            == run.prior) ==> through(run, script@, script@.len() as int),
{
    reveal_with_fuel(ran, 8);
    reveal_with_fuel(ran_obeyed, 8);
    reveal_with_fuel(through, 8);
}

/// What follows the look of a rollback left the agent exactly as loaded as it was; a
/// loaded one has its previous daemon, and an unloaded one none. It passes where the
/// agent was not loaded in the meantime.
#[verifier::rlimit(100)]
#[verifier::spinoff_prover]
pub proof fn law_a_restored_agent_is_as_before(
    moved: bool,
    was_loaded: bool,
    restoring: &str,
    loaded: bool,
    uninstall: Vec<Check<'_>>,
    preparation: Vec<Check<'static>>,
    run: Run,
)
    requires
        call_ensures(
            rollback_launchd_uninstall,
            (moved, was_loaded, restoring, Part::Second(loaded)),
            uninstall,
        ),
        call_ensures(
            restore_launchd_after_prepublication_stop,
            (was_loaded, Part::Second(loaded)),
            preparation,
        ),
        run.scenes[0].runs == loaded,
    ensures
        passed(run, uninstall@) ==> end(run, uninstall@).runs == was_loaded && (if was_loaded {
            end(run, uninstall@).holder is Previous
        } else {
            end(run, uninstall@).holder is Nobody
        }),
        passed(run, preparation@) ==> end(run, preparation@).runs == was_loaded && (was_loaded
            ==> end(run, preparation@).holder is Previous),
        ran_obeyed(run, uninstall@, uninstall@.len() as int) && run.scenes[0].definition is Previous
            && (if loaded {
            run.scenes[0].holder is Previous && was_loaded
        } else {
            run.scenes[0].holder is Nobody
        }) ==> through(run, uninstall@, uninstall@.len() as int),
        ran_obeyed(run, preparation@, preparation@.len() as int) && run.scenes[0].definition
            is Previous && (if loaded {
            run.scenes[0].holder is Previous && was_loaded
        } else {
            run.scenes[0].holder is Nobody
        }) ==> through(run, preparation@, preparation@.len() as int),
        loaded && !was_loaded ==> !passed(run, preparation@) && !passed(run, uninstall@),
{
    reveal_with_fuel(ran, 10);
    reveal_with_fuel(ran_obeyed, 10);
    reveal_with_fuel(through, 10);
}

/// A restoration after a failed preparation first requires the definition unchanged,
/// and then looks whether the agent is loaded.
#[verifier::rlimit(60)]
pub proof fn law_a_preparation_of_an_agent_is_taken_back(
    was_loaded: bool,
    script: Vec<Check<'static>>,
    run: Run,
)
    requires
        call_ensures(
            restore_launchd_after_prepublication_stop,
            (was_loaded, Part::First),
            script,
        ),
    ensures
        script@.last().expectation is Look,
        passed(run, script@) ==> end(run, script@).definition == run.prior
            && run.replies[script@.len() - 1] == CheckReply::Answer(end(run, script@).runs),
        ran_obeyed(run, script@, script@.len() as int) && run.scenes[0].definition == run.prior
            ==> through(run, script@, script@.len() as int),
{
    reveal_with_fuel(ran, 8);
    reveal_with_fuel(ran_obeyed, 8);
    reveal_with_fuel(through, 8);
}

// -- The scheduled task --

/// A start passes exactly for the captured task, and with a scheduler that does what it
/// is told its daemon then runs.
#[verifier::rlimit(60)]
pub proof fn law_a_started_task_runs(script: Vec<Check<'static>>, run: Run)
    requires
        call_ensures(start_task_scheduler, (), script),
        run.prior is Previous,
    ensures
        passed(run, script@) ==> run.scenes[0].definition is Previous && run.scenes[0].known
            is Previous,
        ran_obeyed(run, script@, script@.len() as int) && run.scenes[0].definition is Previous
            && run.scenes[0].known is Previous && run.scenes[0].holder is Nobody ==> through(
            run,
            script@,
            script@.len() as int,
        ) && end(run, script@).holder is Previous && end(run, script@).runs,
{
    reveal_with_fuel(ran, 8);
    reveal_with_fuel(ran_obeyed, 8);
    reveal_with_fuel(through, 8);
}

/// A stop passes only for the captured task and left nobody with the lock; it passes
/// where the scheduler ends what runs.
#[verifier::rlimit(60)]
pub proof fn law_a_stopped_task_rests(script: Vec<Check<'static>>, run: Run)
    requires
        call_ensures(stop_task_scheduler, (), script),
        run.prior is Previous,
    ensures
        passed(run, script@) ==> run.scenes[0].definition is Previous && run.scenes[0].known
            is Previous && end(run, script@).holder is Nobody,
        ran_obeyed(run, script@, script@.len() as int) && run.scenes[0].definition is Previous
            && run.scenes[0].known is Previous && (run.scenes[0].runs || run.scenes[0].holder
            is Nobody) ==> through(run, script@, script@.len() as int) && !end(run, script@).runs
            && end(run, script@).definition is Previous && end(run, script@).known is Previous,
{
    reveal_with_fuel(ran, 8);
    reveal_with_fuel(ran_obeyed, 8);
    reveal_with_fuel(through, 8);
}

/// A preparation that passed left nobody with the lock where a task was defined, and
/// the task as it was captured; it passes for the captured task.
#[verifier::rlimit(60)]
pub proof fn law_a_prepared_task_is_unchanged(
    defined: bool,
    script: Vec<Check<'static>>,
    run: Run,
)
    requires
        call_ensures(task_preparation, (defined,), script),
    ensures
        passed(run, script@) ==> end(run, script@).definition == run.prior && end(
            run,
            script@,
        ).known == run.prior && (defined ==> end(run, script@).holder is Nobody),
        ran_obeyed(run, script@, script@.len() as int) && run.scenes[0].definition == run.prior
            && run.scenes[0].known == run.prior ==> through(run, script@, script@.len() as int),
{
    reveal_with_fuel(ran, 8);
    reveal_with_fuel(ran_obeyed, 8);
    reveal_with_fuel(through, 8);
}

/// An activation that passed left the published task unchanged with the daemon of the
/// new executable; it passes after a publication.
#[verifier::rlimit(60)]
pub proof fn law_an_activated_task_runs(script: Vec<Check<'static>>, run: Run)
    requires
        call_ensures(task_activation, (), script),
    ensures
        passed(run, script@) ==> end(run, script@).definition is Published && end(
            run,
            script@,
        ).known is Published && run.scenes[0].known is Published && run.scenes[3].holder is New,
        ran_obeyed(run, script@, script@.len() as int) && run.scenes[0].definition is Published
            && run.scenes[0].known is Published && run.scenes[0].holder is Nobody ==> through(
            run,
            script@,
            script@.len() as int,
        ) && end(run, script@).holder is New && end(run, script@).runs,
{
    reveal_with_fuel(ran, 8);
    reveal_with_fuel(ran_obeyed, 8);
    reveal_with_fuel(through, 8);
}

/// An uninstallation that passed left no task in either form; before the task was
/// deleted nobody held the lock. It passes for the captured task. Where nothing is
/// installed, nobody may hold the lock.
#[verifier::rlimit(60)]
pub proof fn law_an_uninstalled_task_is_gone(
    installed: bool,
    reading: &str,
    changed: &str,
    remains: &str,
    script: Vec<Check<'_>>,
    run: Run,
)
    requires
        call_ensures(uninstall_task_scheduler, (installed, reading, changed, remains), script),
        run.prior is Previous,
    ensures
        passed(run, script@) && installed ==> end(run, script@).definition is Missing && end(
            run,
            script@,
        ).known is Missing && run.scenes[4].holder is Nobody && run.scenes[4].definition is Previous
            && run.scenes[4].known is Previous,
        passed(run, script@) && !installed ==> end(run, script@).holder is Nobody,
        installed && ran_obeyed(run, script@, script@.len() as int) && run.scenes[0].definition
            is Previous && run.scenes[0].known is Previous && (run.scenes[0].runs
            || run.scenes[0].holder is Nobody) ==> through(run, script@, script@.len() as int)
            && end(run, script@).holder is Nobody && !end(run, script@).runs,
        !installed && ran_obeyed(run, script@, script@.len() as int) ==> (through(
            run,
            script@,
            script@.len() as int,
        ) <==> run.scenes[0].holder is Nobody),
{
    reveal_with_fuel(ran, 10);
    reveal_with_fuel(ran_obeyed, 10);
    reveal_with_fuel(through, 10);
}

/// A rollback of an uninstallation brings the captured task back and, where its daemon
/// did not run, ends it; where it ran, it looks whether it still does.
#[verifier::rlimit(60)]
pub proof fn law_an_uninstallation_of_a_task_is_taken_back(
    defined: bool,
    was_running: bool,
    reading: &str,
    changed: &str,
    script: Vec<Check<'_>>,
    run: Run,
)
    requires
        call_ensures(
            rollback_task_scheduler_uninstall,
            (defined, was_running, reading, changed, Part::First),
            script,
        ),
    ensures
        was_running <==> script@.last().expectation is Look,
        was_running ==> script@.last().operation == ServiceOperation::RunningPid,
        passed(run, script@) ==> (was_running ==> end(run, script@).known is Previous) && (
        !was_running ==> end(run, script@).holder is Nobody),
        ran_obeyed(run, script@, script@.len() as int) && (defined ==> run.scenes[0].definition
            is Previous && run.scenes[0].known is Previous) && (was_running || run.scenes[0].runs
            || run.scenes[0].holder is Nobody) ==> through(run, script@, script@.len() as int)
            && end(run, script@).known is Previous && end(run, script@).definition is Previous,
{
    reveal_with_fuel(ran, 8);
    reveal_with_fuel(ran_obeyed, 8);
    reveal_with_fuel(through, 8);
}

/// What follows the look of a rollback left the previous daemon with the lock, which is
/// started again where it does not run.
#[verifier::rlimit(60)]
pub proof fn law_the_daemon_of_a_task_is_brought_back(
    defined: bool,
    reading: &str,
    changed: &str,
    found: bool,
    script: Vec<Check<'_>>,
    run: Run,
)
    requires
        call_ensures(
            rollback_task_scheduler_uninstall,
            (defined, true, reading, changed, Part::Second(found)),
            script,
        ),
    ensures
        passed(run, script@) ==> end(run, script@).holder is Previous,
        ran_obeyed(run, script@, script@.len() as int) && run.scenes[0].known is Previous && (
        if found {
            run.scenes[0].holder is Previous
        } else {
            run.scenes[0].holder is Nobody
        }) ==> through(run, script@, script@.len() as int),
{
    reveal_with_fuel(ran, 8);
    reveal_with_fuel(ran_obeyed, 8);
    reveal_with_fuel(through, 8);
}

/// After a failed uninstallation the daemon is looked for; what follows left the
/// previous daemon with the lock where it ran, and nobody where it did not.
#[verifier::rlimit(60)]
pub proof fn law_the_running_state_of_a_task_is_brought_back(
    was_running: bool,
    found: bool,
    first: Vec<Check<'static>>,
    script: Vec<Check<'static>>,
    run: Run,
)
    requires
        call_ensures(restore_uninstall_running_state_locked, (was_running, Part::First), first),
        call_ensures(
            restore_uninstall_running_state_locked,
            (was_running, Part::Second(found)),
            script,
        ),
    ensures
        first@.len() == 1 && first@[0].expectation is Look && first@[0].operation
            == ServiceOperation::RunningPid,
        passed(run, script@) ==> if was_running {
            end(run, script@).holder is Previous
        } else {
            end(run, script@).holder is Nobody
        },
        ran_obeyed(run, script@, script@.len() as int) && run.scenes[0].known is Previous && (
        if found {
            run.scenes[0].holder is Previous && was_running
        } else {
            run.scenes[0].holder is Nobody
        }) ==> through(run, script@, script@.len() as int),
        found && !was_running ==> !passed(run, script@),
{
    reveal_with_fuel(ran, 8);
    reveal_with_fuel(ran_obeyed, 8);
    reveal_with_fuel(through, 8);
}

/// A restoration that passed brought the task back to what was captured: the captured
/// definition where there was one, and none where there was none. It passes for every
/// capture that fits together, whatever the failed task was doing.
#[verifier::rlimit(100)]
#[verifier::spinoff_prover]
pub proof fn law_a_restored_task_is_as_before(
    restoration: TaskRestoration,
    script: Vec<Check<'static>>,
    run: Run,
)
    requires
        call_ensures(restore_scheduled_task, (restoration, Part::First), script),
        restoration.previous_present == restoration.xml_captured,
        restoration.was_running ==> restoration.previous_present,
    ensures
        restoration.was_running <==> script@.last().expectation is Look,
        restoration.was_running && passed(run, script@) ==> end(run, script@).known is Previous,
        !restoration.was_running && passed(run, script@) ==> end(run, script@).holder is Nobody && (
        if restoration.previous_present {
            !(end(run, script@).definition is Missing)
        } else {
            end(run, script@).definition is Missing
        }),
        ran_obeyed(run, script@, script@.len() as int) && (restoration.unchanged ==> (if restoration.previous_present {
            run.scenes[0].definition is Previous && run.scenes[0].known is Previous
        } else {
            run.scenes[0].definition is Missing && run.scenes[0].known is Missing
        })) && (run.scenes[0].runs || run.scenes[0].holder is Nobody) && (restoration.unchanged
            && !restoration.previous_present || !restoration.unchanged
            && !restoration.current_present ==> run.scenes[0].holder is Nobody)
            && !restoration.was_running ==> through(run, script@, script@.len() as int) && (
        if restoration.previous_present {
            end(run, script@).definition is Previous && end(run, script@).known is Previous
        } else {
            end(run, script@).definition is Missing && end(run, script@).known is Missing
        }) && end(run, script@).holder is Nobody,
        ran_obeyed(run, script@, script@.len() as int) && restoration.was_running && (
        restoration.unchanged ==> run.scenes[0].definition is Previous && run.scenes[0].known
            is Previous) && (!restoration.unchanged && !restoration.current_present
            ==> run.scenes[0].holder is Nobody) ==> through(run, script@, script@.len() as int)
            && end(run, script@).definition is Previous && end(run, script@).known is Previous && (
        restoration.unchanged ==> end(run, script@).holder == run.scenes[0].holder) && (
        !restoration.unchanged ==> end(run, script@).holder is Nobody),
{
    reveal_with_fuel(ran, 16);
    reveal_with_fuel(ran_obeyed, 16);
    reveal_with_fuel(through, 16);
}

/// A restored task whose daemon ran has its previous daemon again, which is started
/// where it does not run; without its executable it is not claimed.
#[verifier::rlimit(60)]
pub proof fn law_the_daemon_of_a_restored_task_runs_again(
    restoration: TaskRestoration,
    found: bool,
    script: Vec<Check<'static>>,
    run: Run,
)
    requires
        call_ensures(restore_scheduled_task, (restoration, Part::Second(found)), script),
    ensures
        passed(run, script@) ==> restoration.executable_known && end(run, script@).holder
            is Previous && (restoration.previous_present ==> !(end(run, script@).definition
            is Missing)),
        ran_obeyed(run, script@, script@.len() as int) && restoration.executable_known
            && run.scenes[0].known is Previous && run.scenes[0].definition is Previous && (
        if found {
            run.scenes[0].holder is Previous
        } else {
            run.scenes[0].holder is Nobody
        }) ==> through(run, script@, script@.len() as int),
{
    reveal_with_fuel(ran, 8);
    reveal_with_fuel(ran_obeyed, 8);
    reveal_with_fuel(through, 8);
}

/// An installation whose phases succeed stages, unstages, prepares, creates, inspects
/// and activates in this order, and is done only then. A phase that fails leads to the
/// phase that takes back what was done, with the failure kept, and the whole fails
/// because of it.
pub proof fn law_a_task_is_installed_or_says_why(
    stage_name: &str,
    defined: bool,
    phase: TaskInstallPhase,
    outcome: Result<(), Fault>,
    step: TaskInstallStep,
)
    requires
        call_ensures(install_task_scheduler, (stage_name, defined, phase, outcome), step),
    ensures
        phase is Stage && outcome is Ok ==> step == TaskInstallStep::Enter(
            TaskInstallPhase::Unstage,
        ),
        phase is Unstage && outcome is Ok ==> step == TaskInstallStep::Enter(
            TaskInstallPhase::Prepare,
        ),
        phase is Prepare && outcome is Ok ==> step == TaskInstallStep::Enter(
            TaskInstallPhase::Create,
        ),
        phase is Create && outcome is Ok ==> step == TaskInstallStep::Enter(
            TaskInstallPhase::Inspect,
        ),
        phase is Inspect && outcome is Ok ==> step == TaskInstallStep::Enter(
            TaskInstallPhase::Activate,
        ),
        phase is Activate && outcome is Ok <==> (step matches TaskInstallStep::Finished(Ok(_))),
        phase is Stage || phase is Unstage || (phase is Prepare && !defined) ==> (outcome matches
            Err(error) ==> (step matches TaskInstallStep::Finished(Err(fault)) && stems_from(
            fault@,
            error@,
        ))),
        phase is Prepare && defined ==> (outcome matches Err(error) ==> (step matches
            TaskInstallStep::Enter(TaskInstallPhase::RestorePrepared(cause)) && cause == error)),
        phase is Create ==> (outcome matches Err(error) ==> (step matches TaskInstallStep::Enter(
            TaskInstallPhase::RestoreUncertain(cause),
        ) && cause == error)),
        phase is Inspect ==> (outcome matches Err(error) ==> (step matches TaskInstallStep::Enter(
            TaskInstallPhase::RestoreUninspected(cause),
        ) && cause == error)),
        phase is Activate ==> (outcome matches Err(error) ==> (step matches TaskInstallStep::Enter(
            TaskInstallPhase::RollBack(cause),
        ) && cause == error)),
        phase matches TaskInstallPhase::RestorePrepared(cause) ==> (step matches
            TaskInstallStep::Finished(Err(fault)) && stems_from(fault@, cause@)),
        phase matches TaskInstallPhase::RestoreUncertain(cause) ==> (step matches
            TaskInstallStep::Finished(Err(fault)) && stems_from(fault@, cause@)),
        phase matches TaskInstallPhase::RestoreUninspected(cause) ==> (step matches
            TaskInstallStep::Finished(Err(fault)) && stems_from(fault@, cause@)),
        phase matches TaskInstallPhase::RollBack(cause) ==> (step matches TaskInstallStep::Finished(
            Err(fault),
        ) && stems_from(fault@, cause@)),
{
}

/// An installation may begin exactly for an owned task, or for none where none is to be
/// migrated and no daemon runs; it then knows whether a daemon runs.
pub proof fn law_a_task_installation_is_admitted(
    forms: Option<(&[u8], &[u8])>,
    expected: &HostPath,
    migration: bool,
    running: Result<Option<u32>, Fault>,
    r: Result<bool, Fault>,
)
    requires
        call_ensures(admit_task_installation, (forms, expected, migration, running), r),
    ensures
        r is Ok <==> (running matches Ok(pid) && (match forms {
            Some((file, exported)) => task_owner_problem(file@, *expected) is None
                && task_owner_problem(exported@, *expected) is None,
            None => !migration && pid is None,
        })),
        r matches Ok(runs) ==> (running matches Ok(pid) && runs == (pid is Some)),
{
}

/// What a task was left in by a failed creation is restored exactly if it is what was
/// there before or a replacement that is owned in both forms.
pub proof fn law_only_a_known_task_is_restored(
    replacement: &HostPath,
    current: (Option<&[u8]>, Option<&[u8]>),
    previous: (Option<&[u8]>, Option<&[u8]>),
    was_running: bool,
    executable_known: bool,
    r: Result<TaskRestoration, Fault>,
)
    requires
        call_ensures(
            restore_after_uncertain_task_publication,
            (replacement, current, previous, was_running, executable_known),
            r,
        ),
    ensures
        optional_bytes(current.0) == optional_bytes(previous.0) && optional_bytes(current.1)
            == optional_bytes(previous.1) ==> r is Ok,
        optional_bytes(current.0) != optional_bytes(previous.0) || optional_bytes(current.1)
            != optional_bytes(previous.1) ==> (r is Ok <==> current.0 is Some && current.1 is Some
            && task_owner_problem(current.0->0@, *replacement) is None && task_owner_problem(
            current.1->0@,
            *replacement,
        ) is None),
        r matches Ok(restoration) ==> {
            &&& restoration.was_running == was_running
            &&& restoration.executable_known == executable_known
            &&& restoration.previous_present == (previous.0 is Some)
            &&& restoration.current_present == (current.0 is Some)
            &&& restoration.xml_captured == (previous.1 is Some)
            &&& restoration.unchanged == (optional_bytes(current.0) == optional_bytes(previous.0))
        },
{
}

// -- Checks --

/// A procedure goes on to its next check exactly if the reply is the one that the check
/// is for; a look leads to the part that its answer names. What fails is reported with
/// its own messages last.
pub proof fn law_a_check_lets_go_on_exactly_as_expected(
    check: &Check,
    cursor: Cursor,
    reply: CheckReply,
    r: Progress,
)
    requires
        call_ensures(advance, (check, cursor, reply), r),
        cursor.at < usize::MAX,
    ensures
        check.expectation is Done ==> (r is Go <==> reply is Done),
        check.expectation matches Expectation::Is { value, .. } ==> (r is Go <==> reply
            == CheckReply::Answer(value)),
        check.expectation is Vacant ==> (r is Go <==> reply == CheckReply::Pid(None)),
        check.expectation is Stopped ==> (r is Go <==> reply is Done || (reply matches
            CheckReply::NotStopped { active, .. } && active == Ok::<bool, Fault>(false))),
        check.expectation is Look ==> (r is Go <==> reply is Answer || reply is Pid),
        check.expectation is Never ==> r is Failed,
        check.expectation is Look ==> {
            &&& reply matches CheckReply::Answer(answer) ==> r == Progress::Go(
                Cursor { part: Part::Second(answer), at: 0 },
            )
            &&& reply matches CheckReply::Pid(pid) ==> r == Progress::Go(
                Cursor { part: Part::Second(pid is Some), at: 0 },
            )
        },
        !(check.expectation is Look) ==> (r matches Progress::Go(next) ==> next.part == cursor.part
            && next.at == cursor.at + 1),
        !(check.expectation is Never) ==> (reply matches CheckReply::Failed(fault) ==> (r matches
            Progress::Failed(report) && stems_from(report@, fault@))),
        check.expectation is Stopped ==> (reply matches CheckReply::NotStopped { error, active }
            ==> (active != Ok::<bool, Fault>(false) ==> (r matches Progress::Failed(report)
            && stems_from(report@, error@)))),
{
}

} // verus!
