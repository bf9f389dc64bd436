//! The service and the command line.

use autospot::cli::{
    check_foreground, config_path, task_for, Command, ConfiguredTask, ServiceAction, Task,
};
use autospot::service::{
    begin_stop, check_restart, elevation_friendly_error, is_running, is_service_missing,
    gives_up, launch_arguments, open_failure, poll_stop, remove_message, reply_to,
    require_elevation, status_text, stop_deadline, Control, ControlReply, OpenFailure, ServiceState, StopStep,
    STOP_POLL_INTERVAL_MILLIS, STOP_TIMED_OUT,
};
use autospot::time::{Duration, Instant};

fn at(secs: u64, nanos: u32) -> Instant {
    Instant::at(Duration::new(secs, nanos))
}

#[test]
fn failures_to_open_the_service_are_told_apart() {
    assert!(is_service_missing(Some(1060)));
    assert!(!is_service_missing(Some(5)));
    assert!(!is_service_missing(None));
    assert_eq!(open_failure(Some(1060)), OpenFailure::NotInstalled);
    assert_eq!(open_failure(Some(5)), OpenFailure::Denied);
    assert_eq!(open_failure(Some(6)), OpenFailure::Other);
    assert_eq!(open_failure(None), OpenFailure::Other);
    assert_eq!(
        elevation_friendly_error(Some(5)),
        "access denied -- installing or removing the autospot service requires Administrator \
         privileges. Re-run this command from an elevated terminal."
    );
    assert_eq!(
        elevation_friendly_error(None),
        "Windows service manager error"
    );
}

#[test]
fn elevation_is_asked_for() {
    assert_eq!(require_elevation("installing", true), Ok(()));
    assert_eq!(
        require_elevation("removing", false),
        Err(
            "removing the autospot service requires Administrator privileges; re-run this \
             command from an elevated (\"Run as administrator\") terminal."
                .to_string()
        )
    );
}

#[test]
fn a_service_that_is_not_installed_is_no_failure_unless_restarted() {
    assert_eq!(
        remove_message(false),
        "autospot service is not installed; nothing to remove."
    );
    assert_eq!(remove_message(true), "autospot service removed.");
    assert_eq!(check_restart(true), Ok(()));
    assert_eq!(
        check_restart(false),
        Err("autospot service is not installed; use `autospot service install` first")
    );
    assert!(!is_running(None));
    assert!(!is_running(Some(ServiceState::StartPending)));
    assert!(is_running(Some(ServiceState::Running)));
}

#[test]
fn the_service_is_described_by_its_state() {
    assert_eq!(status_text(None), "autospot service: not installed");
    for state in [
        ServiceState::Stopped,
        ServiceState::StartPending,
        ServiceState::StopPending,
        ServiceState::Running,
        ServiceState::ContinuePending,
        ServiceState::PausePending,
        ServiceState::Paused,
    ] {
        assert_eq!(
            status_text(Some(state)),
            format!("autospot service: installed, state = {state:?}")
        );
    }
}

#[test]
fn stopping_is_waited_for_but_not_forever() {
    assert_eq!(begin_stop(ServiceState::Stopped), StopStep::Done);
    assert_eq!(begin_stop(ServiceState::Paused), StopStep::Request);
    let deadline = stop_deadline(at(100, 7));
    assert_eq!(deadline, at(110, 7));
    assert_eq!(
        poll_stop(at(101, 0), deadline, ServiceState::StopPending),
        StopStep::Wait
    );
    assert_eq!(
        poll_stop(at(110, 6), deadline, ServiceState::Stopped),
        StopStep::Done
    );
    assert_eq!(
        poll_stop(at(110, 7), deadline, ServiceState::StopPending),
        StopStep::TimedOut
    );
    assert!(!gives_up(at(110, 6), deadline));
    assert!(gives_up(at(110, 7), deadline));
    assert_eq!(STOP_POLL_INTERVAL_MILLIS, 250);
    assert_eq!(
        STOP_TIMED_OUT,
        "timed out waiting for the autospot service to stop"
    );
}

#[test]
fn the_service_answers_its_manager() {
    assert_eq!(reply_to(Control::Stop), ControlReply::Stopping);
    assert_eq!(reply_to(Control::Shutdown), ControlReply::Stopping);
    assert_eq!(reply_to(Control::Interrogate), ControlReply::Fine);
    assert_eq!(reply_to(Control::Other), ControlReply::NotImplemented);
}

#[test]
fn the_service_is_launched_with_its_config() {
    assert_eq!(
        launch_arguments("C:\\autospot\\autospot.toml"),
        ["service", "run", "--config", "C:\\autospot\\autospot.toml"]
    );
}

#[test]
fn each_command_comes_down_to_its_task() {
    let service = |action| task_for(Some(Command::Service { action }));
    let watch = Task::WithConfig(ConfiguredTask::Watch);
    assert_eq!(task_for(None), watch);
    assert_eq!(task_for(Some(Command::Run)), watch);
    assert_eq!(
        task_for(Some(Command::Status)),
        Task::WithConfig(ConfiguredTask::PrintStatus)
    );
    assert_eq!(
        task_for(Some(Command::Start)),
        Task::WithConfig(ConfiguredTask::StartHotspot)
    );
    assert_eq!(
        task_for(Some(Command::Stop)),
        Task::WithConfig(ConfiguredTask::StopHotspot)
    );
    assert_eq!(service(ServiceAction::Run), Task::RunDispatcher);
    assert_eq!(service(ServiceAction::Remove), Task::RemoveService);
    assert_eq!(service(ServiceAction::Restart), Task::RestartService);
    assert_eq!(service(ServiceAction::Status), Task::PrintServiceStatus);
    assert_eq!(
        service(ServiceAction::Install),
        Task::WithConfig(ConfiguredTask::InstallService)
    );
}

#[test]
fn only_the_status_command_leaves_the_log_file_alone() {
    assert!(!ConfiguredTask::PrintStatus.logs_to_file());
    assert!(ConfiguredTask::Watch.logs_to_file());
    assert!(ConfiguredTask::InstallService.logs_to_file());
}

#[test]
fn a_config_is_taken_from_the_option_first() {
    assert_eq!(config_path(Some("a"), Some("b")), Some("a"));
    assert_eq!(config_path(None, Some("b")), Some("b"));
    assert_eq!(config_path::<&str>(None, None), None);
}

#[test]
fn two_watchdogs_are_one_too_many() {
    assert_eq!(check_foreground(false), Ok(()));
    assert_eq!(
        check_foreground(true),
        Err(
            "autospot is already running as a Windows service; stop it with `autospot service \
             remove` (or `sc stop autospot`) before running it in the foreground. Check \
             `autospot service status` for details."
        )
    );
}
