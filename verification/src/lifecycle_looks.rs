//! Which looks an update takes at the service and at an executable.
use vstd::prelude::*;

use crate::boundary_phase::InitialLaunchMechanism;
use crate::daemon_identity::DaemonSight;
use crate::fault::Fault;
use crate::lifecycle::{sight_pid, InitialExecutableState, Owner, SelfUpdateDaemonRestart};
use crate::lifecycle_checks::service_state_problem;
use crate::service_state::ServiceStateSnapshot;

verus! {

/// A look at the service.
#[derive(Clone, Copy, Debug, PartialEq, Eq, Structural)]
pub struct ServiceLook {
    /// The executable that its definition must be for.
    pub owner: Owner,
    /// The daemon that its manager may own.
    pub daemon: Option<u32>,
}

/// A look at an executable.
#[derive(Clone, Copy, Debug, PartialEq, Eq, Structural)]
pub struct FileLook {
    pub owner: Owner,
    /// Whether the token is read; else only whether a file is there.
    pub token: bool,
}

/// The daemon that the service's manager may own while the state is captured:
/// the one that was just seen.
pub fn captured_daemon(identity: &Result<Option<DaemonSight>, Fault>) -> (r: Option<u32>)
    ensures
        r == (match *identity {
            Ok(sight) => sight_pid(sight),
            Err(_) => None,
        }),
{
    match identity {
        Ok(Some(sight)) => Some(sight.pid),
        _ => None,
    }
}

impl SelfUpdateDaemonRestart {
    /// The look for the service as it was captured.
    pub open spec fn captured_look(self) -> ServiceLook {
        ServiceLook { owner: Owner::Initial, daemon: self.initial_manager() }
    }

    /// The look for the service before the initial daemon starts again: its
    /// manager owns nothing where it ran the daemon.
    pub open spec fn ready_look(self) -> ServiceLook {
        ServiceLook {
            owner: Owner::Initial,
            daemon: match self.initial_launch_mechanism {
                InitialLaunchMechanism::ServiceManager => None,
                _ => self.initial_service_snapshot@.manager_pid,
            },
        }
    }

    /// The look for the service that was stopped.
    pub open spec fn stopped_look(self) -> ServiceLook {
        ServiceLook {
            owner: self.service_executable,
            daemon: match self.stopped_service_snapshot {
                Some(snapshot) => snapshot@.manager_pid,
                None => None,
            },
        }
    }

    /// The look for the service that an update ends with: none after an
    /// uninstallation, else the expected one.
    pub open spec fn final_look(self) -> ServiceLook {
        ServiceLook {
            owner: self.service_executable,
            daemon: if self.uninstall_state is NotApplied {
                self.expected_service().manager_pid
            } else {
                None
            },
        }
    }

    /// How to look at the service as it was captured.
    pub fn look_at_captured_service(&self) -> (r: ServiceLook)
        ensures
            r == self.captured_look(),
    {
        ServiceLook {
            owner: Owner::Initial,
            daemon: match self.initial_launch_mechanism {
                InitialLaunchMechanism::ServiceManager => self.initial_pid,
                _ => None,
            },
        }
    }

    /// How to look at the service before the initial daemon starts again.
    pub fn look_at_ready_service(&self) -> (r: ServiceLook)
        ensures
            r == self.ready_look(),
    {
        ServiceLook {
            owner: Owner::Initial,
            daemon: match self.initial_launch_mechanism {
                InitialLaunchMechanism::ServiceManager => None,
                _ => self.initial_service_snapshot.manager_pid,
            },
        }
    }

    /// How to look at the service that was stopped.
    pub fn look_at_stopped_service(&self) -> (r: ServiceLook)
        ensures
            r == self.stopped_look(),
    {
        ServiceLook {
            owner: self.service_executable,
            daemon: match &self.stopped_service_snapshot {
                Some(snapshot) => snapshot.manager_pid,
                None => None,
            },
        }
    }

    /// How to look at the service whose manager has to own nothing.
    pub fn look_at_idle_service(&self) -> (r: ServiceLook)
        ensures
            r == (ServiceLook { owner: self.service_executable, daemon: None }),
    {
        ServiceLook { owner: self.service_executable, daemon: None }
    }

    /// How to look at the service that a daemon was just started with.
    pub fn look_at_restarted_service(&self, restarted: u32) -> (r: ServiceLook)
        ensures
            r == (ServiceLook { owner: self.service_executable, daemon: Some(restarted) }),
    {
        ServiceLook { owner: self.service_executable, daemon: Some(restarted) }
    }

    /// How to look at the service that an update ends with.
    pub fn look_at_final_service(&self) -> (r: ServiceLook)
        ensures
            r == self.final_look(),
    {
        let daemon: Option<u32> = if self.uninstall_state.is_applied() {
            None
        } else {
            match &self.expected_service_snapshot {
                Some(snapshot) => snapshot.manager_pid,
                None => self.initial_service_snapshot.manager_pid,
            }
        };
        ServiceLook { owner: self.service_executable, daemon }
    }

    /// How to look at the initial executable: by its token where it was there.
    pub fn look_at_initial_executable(&self) -> (r: FileLook)
        ensures
            r == (FileLook {
                owner: Owner::Initial,
                token: self.initial_executable_state is Present,
            }),
    {
        FileLook {
            owner: Owner::Initial,
            token: match self.initial_executable_state {
                InitialExecutableState::Present(_) => true,
                InitialExecutableState::Absent => false,
            },
        }
    }

    /// How to look at the executable that an update ends with: by its token where
    /// one is expected.
    pub fn look_at_final_executable(&self) -> (r: FileLook)
        ensures
            r == (FileLook {
                owner: self.executable,
                token: self.expected_executable_token is Some,
            }),
    {
        FileLook { owner: self.executable, token: self.expected_executable_token.is_some() }
    }
}

/// A service that is accepted is owned by nothing but the daemon that the look
/// asked for.
pub proof fn law_accepted_service_has_the_daemon_that_was_asked_for(
    state: SelfUpdateDaemonRestart,
    observed: ServiceStateSnapshot,
)
    ensures
        service_state_problem(
            Ok(observed),
            state.initial_service_snapshot@.with_manager_pid(state.initial_manager()),
        ) is None ==> observed@.manager_pid == state.captured_look().daemon,
        state.restart_readiness_problem(Ok(observed)) is None ==> observed@.manager_pid
            == state.ready_look().daemon,
        state.uninstall_state is NotApplied && service_state_problem(
            Ok(observed),
            state.expected_service(),
        ) is None ==> observed@.manager_pid == state.final_look().daemon,
{
}

} // verus!
