//! Verified lifecycle core of the codex-switch daemon.
pub mod activity_laws;
pub mod background_marker;
pub mod boundary_client;
pub mod boundary_laws;
pub mod boundary_phase;
pub mod boundary_protocol;
pub mod cause;
pub mod check_laws;
pub mod codex_process;
pub mod command_laws;
pub mod commands;
pub mod creation;
pub mod daemon_identity;
pub mod daemon_laws;
pub mod daemon_loop;
pub mod definition_read;
pub mod direct_file;
pub mod directory_rename;
pub mod fault;
pub mod file_laws;
pub mod fs_ops;
pub mod host_path;
pub mod installation_laws;
pub mod installer_fs;
pub mod launchd_service;
pub mod lifecycle;
pub mod lifecycle_checks;
pub mod lifecycle_laws;
pub mod lifecycle_looks;
pub mod lifecycle_restart;
pub mod lifecycle_restore;
pub mod lifecycle_steps;
pub mod lifecycle_uninstall;
pub mod loop_runner;
pub mod manager_laws;
pub mod monitor;
pub mod number;
pub mod outcome_laws;
pub mod outside;
pub mod ownership_laws;
pub mod pid_transaction;
pub mod pidfile;
pub mod poll_laws;
pub mod procedure_laws;
pub mod procedure_model;
pub mod protocol_laws;
pub mod reading_laws;
pub mod removal;
pub mod render_laws;
pub mod scheduled_stop;
pub mod service_admission;
pub mod service_capture;
pub mod service_execution;
pub mod service_install;
pub mod service_installed;
pub mod service_laws;
pub mod service_listing;
pub mod service_operation;
pub mod service_owner;
pub mod service_publication;
pub mod service_render;
pub mod service_state;
pub mod service_transaction;
pub mod settlement;
pub mod state;
pub mod state_file;
pub mod status;
pub mod status_laws;
pub mod systemd_service;
pub mod task_laws;
pub mod task_proof;
pub mod task_service;
pub mod text;
pub mod text_laws;
pub mod transaction_laws;
pub mod unix_process;
