# codex_switch_daemon

The rules of a background daemon that watches the usage of several Codex
accounts and switches to a better one, together with everything that has to be
decided when the daemon is started, stopped, installed as a service, updated or
removed. The rules are verified with Verus.

## Layout

- `src/` is the library. It holds no input or output: a procedure that has to
  touch the system is a function from its pending operation and the reply to the
  next operation, and its contract says which one that is.
  - text and numbers: `text`, `number`, `fault`, `host_path`, `outside`
  - files: `fs_ops`, `direct_file`, `creation`, `removal`, `directory_rename`,
    `installer_fs`
  - the running daemon: `pidfile`, `pid_transaction`, `settlement`,
    `daemon_identity`, `background_marker`
  - the loop: `daemon_loop`, `loop_runner`, `monitor`, `state`, `state_file`,
    `status`
  - Codex processes: `codex_process`, `unix_process`
  - the service: `service_render`, `service_owner`, `service_listing`,
    `service_state`, `service_capture`, `service_installed`, `definition_read`,
    `service_operation`, `service_execution`, `service_admission`,
    `service_install`, `service_publication`, `service_transaction`,
    `systemd_service`, `launchd_service`, `task_service`, `task_proof`,
    `scheduled_stop`
  - the update: `lifecycle` and its parts, `boundary_phase`,
    `boundary_protocol`, `boundary_client`
  - the commands: `commands`
  - laws that span modules: `boundary_laws`, `service_laws`, `task_laws`
- `tests/` runs the library.
- `app/` is the system around it on Linux and macOS: it performs the operations
  and hands the replies back.

## What is trusted

The crate calls `sha2`, `hex`, `rand`, `chrono` and `serde_json` through small
functions whose contracts are believed; `src/outside.rs` and
`src/service_owner.rs` hold them and say what is claimed of each. The same holds
of a few functions of `std`: text from bytes, and the words with which a number
or an encoding is refused.
