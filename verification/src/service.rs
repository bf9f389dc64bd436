//! Windows Service support: what managing the service comes down to, and how the service
//! answers the Service Control Manager.
//!
//! Autospot is a portable console app by default; it can additionally be registered as an
//! auto-start LocalSystem service, so the watchdog can start before any user logs in.

use crate::time::{Duration, Instant};
use vstd::prelude::*;

verus! {

/// What the service is registered as.
pub const SERVICE_NAME: &'static str = "autospot";

/// What the service is called in the list of services.
pub const SERVICE_DISPLAY_NAME: &'static str = "Autospot Wi-Fi Watchdog";

/// What the service is described as there.
pub const SERVICE_DESCRIPTION: &'static str =
    "Monitors Wi-Fi and turns on Windows Mobile Hotspot when the connection drops.";

/// Windows' code for a call that needs more privileges.
pub const ERROR_ACCESS_DENIED: i32 = 5;

/// Windows' code for a service that is not registered.
pub const ERROR_SERVICE_DOES_NOT_EXIST: i32 = 1060;

/// How long to wait for a stop to take effect before giving up on it, in seconds.
pub const STOP_TIMEOUT_SECS: u64 = 10;

/// How long to wait before looking again whether a stop took effect, in milliseconds.
pub const STOP_POLL_INTERVAL_MILLIS: u64 = 250;

/// How long the Service Control Manager should allow our state changes to take, in seconds.
pub const STATUS_WAIT_HINT_SECS: u64 = 10;

// --- managing the service --------------------------------------------------------

/// The state a registered service is in.
#[derive(Debug, Clone, Copy, PartialEq, Eq, Structural)]
pub enum ServiceState {
    Stopped,
    StartPending,
    StopPending,
    Running,
    ContinuePending,
    PausePending,
    Paused,
}

impl ServiceState {
    /// How a state is called.
    pub open spec fn text(self) -> Seq<char> {
        match self {
            ServiceState::Stopped => "Stopped"@,
            ServiceState::StartPending => "StartPending"@,
            ServiceState::StopPending => "StopPending"@,
            ServiceState::Running => "Running"@,
            ServiceState::ContinuePending => "ContinuePending"@,
            ServiceState::PausePending => "PausePending"@,
            ServiceState::Paused => "Paused"@,
        }
    }

    /// How this state is called.
    pub fn to_text(&self) -> (r: &'static str)
        ensures
            r@ == self.text(),
    {
        match self {
            ServiceState::Stopped => "Stopped",
            ServiceState::StartPending => "StartPending",
            ServiceState::StopPending => "StopPending",
            ServiceState::Running => "Running",
            ServiceState::ContinuePending => "ContinuePending",
            ServiceState::PausePending => "PausePending",
            ServiceState::Paused => "Paused",
        }
    }
}

/// The arguments the Service Control Manager launches the service with.
pub open spec fn arguments(config_path: Seq<char>) -> Seq<Seq<char>> {
    seq!["service"@, "run"@, "--config"@, config_path]
}

/// The arguments the Service Control Manager launches the service with.
pub fn launch_arguments(config_path: &str) -> (r: Vec<String>)
    ensures
        crate::text::texts(r@) == arguments(config_path@),
{
    let mut r: Vec<String> = Vec::new();
    r.push("service".to_string());
    r.push("run".to_string());
    r.push("--config".to_string());
    r.push(config_path.to_string());
    assert(crate::text::texts(r@) =~= seq!["service"@, "run"@, "--config"@, config_path@]);
    r
}

/// How opening the service came out, by the code of the failure where Windows gave one.
#[derive(Debug, Clone, Copy, PartialEq, Eq, Structural)]
pub enum OpenFailure {
    /// It isn't installed, which is a normal state rather than a failure.
    NotInstalled,
    /// We may not.
    Denied,
    /// Something else is wrong.
    Other,
}

/// Does this failure mean that the service is not registered?
pub fn is_service_missing(code: Option<i32>) -> (r: bool)
    ensures
        r == (code == Some(ERROR_SERVICE_DOES_NOT_EXIST)),
{
    match code {
        Some(c) => c == ERROR_SERVICE_DOES_NOT_EXIST,
        None => false,
    }
}

/// What a failure to open the service means.
pub open spec fn failure_of(code: Option<i32>) -> OpenFailure {
    if code == Some(ERROR_SERVICE_DOES_NOT_EXIST) {
        OpenFailure::NotInstalled
    } else if code == Some(ERROR_ACCESS_DENIED) {
        OpenFailure::Denied
    } else {
        OpenFailure::Other
    }
}

/// What a failure to open the service means.
pub fn open_failure(code: Option<i32>) -> (r: OpenFailure)
    ensures
        r == failure_of(code),
{
    if is_service_missing(code) {
        return OpenFailure::NotInstalled;
    }
    match code {
        Some(c) => if c == ERROR_ACCESS_DENIED {
            OpenFailure::Denied
        } else {
            OpenFailure::Other
        },
        None => OpenFailure::Other,
    }
}

/// What the user is told of a failure of the Service Control Manager. A call can still be
/// denied after [`require_elevation`] passed (e.g. by a locked-down access list), and is then
/// explained.
pub fn elevation_friendly_error(code: Option<i32>) -> (r: &'static str)
    ensures
        r@ == if code == Some(ERROR_ACCESS_DENIED) {
            "access denied -- installing or removing the autospot service requires Administrator privileges. Re-run this command from an elevated terminal."@
        } else {
            "Windows service manager error"@
        },
{
    let denied = match code {
        Some(c) => c == ERROR_ACCESS_DENIED,
        None => false,
    };
    if denied {
        "access denied -- installing or removing the autospot service requires Administrator privileges. Re-run this command from an elevated terminal."
    } else {
        "Windows service manager error"
    }
}

/// Fast, friendly pre-check before even touching the Service Control Manager.
pub fn require_elevation(action: &str, elevated: bool) -> (r: Result<(), String>)
    ensures
        match r {
            Ok(()) => elevated,
            Err(e) => !elevated && e@ == action@
                + " the autospot service requires Administrator privileges; re-run this command from an elevated (\"Run as administrator\") terminal."@,
        },
{
    if elevated {
        return Ok(());
    }
    let mut e = action.to_string();
    e.append(
        " the autospot service requires Administrator privileges; re-run this command from an elevated (\"Run as administrator\") terminal.",
    );
    Err(e)
}

/// What to do about removing the service: not being installed at all is treated as success,
/// not an error.
pub fn remove_message(installed: bool) -> (r: &'static str)
    ensures
        r@ == if installed {
            "autospot service removed."@
        } else {
            "autospot service is not installed; nothing to remove."@
        },
{
    if installed {
        "autospot service removed."
    } else {
        "autospot service is not installed; nothing to remove."
    }
}

/// May the service be restarted? Only one that is installed can be.
pub fn check_restart(installed: bool) -> (r: Result<(), &'static str>)
    ensures
        match r {
            Ok(()) => installed,
            Err(e) => !installed && e@
                == "autospot service is not installed; use `autospot service install` first"@,
        },
{
    if installed {
        Ok(())
    } else {
        Err("autospot service is not installed; use `autospot service install` first")
    }
}

/// What is said of the service: its state, or that it is not installed.
pub fn status_text(state: Option<ServiceState>) -> (r: String)
    ensures
        r@ == match state {
            Some(state) => "autospot service: installed, state = "@ + state.text(),
            None => "autospot service: not installed"@,
        },
{
    match state {
        Some(state) => {
            let mut r = "autospot service: installed, state = ".to_string();
            r.append(state.to_text());
            r
        },
        None => "autospot service: not installed".to_string(),
    }
}

/// Is the service currently registered *and* in the `Running` state? A service that
/// isn't registered at all is not running, which is no error.
pub fn is_running(state: Option<ServiceState>) -> (r: bool)
    ensures
        r == (state == Some(ServiceState::Running)),
{
    match state {
        Some(state) => state == ServiceState::Running,
        None => false,
    }
}

/// What to do next about stopping the service.
#[derive(Debug, Clone, Copy, PartialEq, Eq, Structural)]
pub enum StopStep {
    /// It is stopped.
    Done,
    /// Tell it to stop.
    Request,
    /// Wait for [`STOP_POLL_INTERVAL_MILLIS`] and look again.
    Wait,
    /// It did not stop in time.
    TimedOut,
}

/// What to do first about stopping the service. Already being stopped is a no-op.
pub fn begin_stop(state: ServiceState) -> (r: StopStep)
    ensures
        r == if state == ServiceState::Stopped {
            StopStep::Done
        } else {
            StopStep::Request
        },
{
    if state == ServiceState::Stopped {
        StopStep::Done
    } else {
        StopStep::Request
    }
}

/// When to give up on a stop that is requested at `now`, in nanoseconds.
pub open spec fn deadline_of(now: nat) -> nat {
    (now + STOP_TIMEOUT_SECS * crate::time::NANOS_PER_SEC) as nat
}

/// When to give up on a stop that is requested now.
pub fn stop_deadline(now: Instant) -> (r: Instant)
    requires
        now@ + STOP_TIMEOUT_SECS * crate::time::NANOS_PER_SEC <= crate::time::MAX_NANOS,
    ensures
        r@ == deadline_of(now@),
{
    now.plus(Duration::from_secs(STOP_TIMEOUT_SECS))
}

/// Is it time to give up waiting for the service to be stopped?
pub fn gives_up(now: Instant, deadline: Instant) -> (r: bool)
    ensures
        r == (now@ >= deadline@),
{
    !now.before(&deadline)
}

/// What to do at `now` while waiting until `deadline`.
pub open spec fn poll_result(now: nat, deadline: nat, state: ServiceState) -> StopStep {
    if now >= deadline {
        StopStep::TimedOut
    } else if state == ServiceState::Stopped {
        StopStep::Done
    } else {
        StopStep::Wait
    }
}

/// What to do while waiting for the service to be stopped. Its state need not be looked at
/// once [`gives_up`] holds.
pub fn poll_stop(now: Instant, deadline: Instant, state: ServiceState) -> (r: StopStep)
    ensures
        r == poll_result(now@, deadline@, state),
{
    if gives_up(now, deadline) {
        StopStep::TimedOut
    } else if state == ServiceState::Stopped {
        StopStep::Done
    } else {
        StopStep::Wait
    }
}

/// What the user is told of a stop that timed out.
pub const STOP_TIMED_OUT: &'static str = "timed out waiting for the autospot service to stop";

// --- being the service -----------------------------------------------------------

/// What the Service Control Manager asks of the running service.
#[derive(Debug, Clone, Copy, PartialEq, Eq, Structural)]
pub enum Control {
    Stop,
    Shutdown,
    Interrogate,
    Other,
}

/// How the running service answers.
#[derive(Debug, Clone, Copy, PartialEq, Eq, Structural)]
pub enum ControlReply {
    /// Understood: the watchdog is told to stop.
    Stopping,
    /// Understood; there is nothing to do.
    Fine,
    /// Not understood.
    NotImplemented,
}

/// How the running service answers what the Service Control Manager asks of it.
pub fn reply_to(control: Control) -> (r: ControlReply)
    ensures
        r == match control {
            Control::Stop => ControlReply::Stopping,
            Control::Shutdown => ControlReply::Stopping,
            Control::Interrogate => ControlReply::Fine,
            Control::Other => ControlReply::NotImplemented,
        },
{
    match control {
        Control::Stop => ControlReply::Stopping,
        Control::Shutdown => ControlReply::Stopping,
        Control::Interrogate => ControlReply::Fine,
        Control::Other => ControlReply::NotImplemented,
    }
}

// --- laws ------------------------------------------------------------------------

/// Waiting for a stop comes to an end: once the timeout has passed, no state keeps it going.
pub proof fn law_waiting_for_a_stop_ends(requested_at: nat, now: nat, state: ServiceState)
    requires
        now >= requested_at + STOP_TIMEOUT_SECS * crate::time::NANOS_PER_SEC,
    ensures
        poll_result(
            now,
            (requested_at + STOP_TIMEOUT_SECS * crate::time::NANOS_PER_SEC) as nat,
            state,
        ) == StopStep::TimedOut,
{
}

/// Until the deadline, waiting ends when the service is stopped, and only then; a service that
/// stops too late has timed out.
pub proof fn law_a_stop_is_waited_for(now: nat, deadline: nat, state: ServiceState)
    ensures
        poll_result(now, deadline, state) == StopStep::Done <==> now < deadline && state
            == ServiceState::Stopped,
        poll_result(now, deadline, state) == StopStep::Wait <==> now < deadline && state
            != ServiceState::Stopped,
        poll_result(now, deadline, state) == StopStep::TimedOut <==> now >= deadline,
{
}

/// The service is launched by the command that runs it, and told where its config is.
pub proof fn law_the_service_is_told_its_config(config_path: Seq<char>, other: Seq<char>)
    ensures
        arguments(config_path).last() == config_path,
        arguments(config_path).drop_last() == arguments(other).drop_last(),
        arguments(config_path).drop_last() == seq!["service"@, "run"@, "--config"@],
{
    assert(arguments(config_path).drop_last() =~= seq!["service"@, "run"@, "--config"@]);
    assert(arguments(other).drop_last() =~= seq!["service"@, "run"@, "--config"@]);
}

/// Only the two codes that mean so say that the service is not installed, or that we may not
/// open it.
pub proof fn law_failures_are_told_apart(code: Option<i32>)
    ensures
        failure_of(code) == OpenFailure::NotInstalled <==> code == Some(1060i32),
        failure_of(code) == OpenFailure::Denied <==> code == Some(5i32),
{
}

/// A stop has ten seconds to take effect, from whenever it is requested.
pub proof fn law_a_stop_has_ten_seconds(now: nat, later: nat, state: ServiceState)
    ensures
        deadline_of(now) == now + 10_000_000_000,
        poll_result(later, deadline_of(now), state) == StopStep::TimedOut <==> later >= now
            + 10_000_000_000,
{
}

} // verus!
