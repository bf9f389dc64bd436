//! The command line: what each command needs and comes down to.

use vstd::prelude::*;

verus! {

/// A command.
#[derive(Debug, Clone, Copy, PartialEq, Eq, Structural)]
pub enum Command {
    /// Watch Wi-Fi and manage the hotspot (default)
    Run,
    /// Print Wi-Fi, adapter and hotspot state, then exit
    Status,
    /// Turn the hotspot on once, using the config, then exit
    Start,
    /// Turn the hotspot off once, then exit
    Stop,
    /// Manage autospot as a Windows service
    Service { action: ServiceAction },
}

/// What to do about the Windows service.
#[derive(Debug, Clone, Copy, PartialEq, Eq, Structural)]
pub enum ServiceAction {
    /// Register autospot as an auto-start Windows service and start it
    Install,
    /// Stop the service, then start it again -- e.g. after editing autospot.toml, since
    /// the service only reads the config file once, at startup
    Restart,
    /// Stop (if running) and unregister the service
    Remove,
    /// Print whether the service is installed and its current state
    Status,
    /// Internal: entry point used by the Service Control Manager
    Run,
}

/// What a command comes down to.
#[derive(Debug, Clone, Copy, PartialEq, Eq, Structural)]
pub enum Task {
    /// Run as the service, until it is stopped.
    RunDispatcher,
    RemoveService,
    RestartService,
    PrintServiceStatus,
    /// Read the config first, then do this.
    WithConfig(ConfiguredTask),
}

/// What a command that reads the config comes down to.
#[derive(Debug, Clone, Copy, PartialEq, Eq, Structural)]
pub enum ConfiguredTask {
    /// Watch, unless the service does already.
    Watch,
    PrintStatus,
    StartHotspot,
    StopHotspot,
    InstallService,
}

/// What a command comes down to.
///
/// Service management talks to the Service Control Manager and nothing else -- no
/// config file to read, no logging to set up. `run` is the hidden variant the manager
/// itself launches; it sets up both on its own and does not return until the
/// service stops. Every other command reads the config first -- including `service install`,
/// which validates it rather than registering a service that would fail on every start.
pub open spec fn task_of(command: Option<Command>) -> Task {
    match command {
        None => Task::WithConfig(ConfiguredTask::Watch),
        Some(Command::Run) => Task::WithConfig(ConfiguredTask::Watch),
        Some(Command::Status) => Task::WithConfig(ConfiguredTask::PrintStatus),
        Some(Command::Start) => Task::WithConfig(ConfiguredTask::StartHotspot),
        Some(Command::Stop) => Task::WithConfig(ConfiguredTask::StopHotspot),
        Some(Command::Service { action }) => match action {
            ServiceAction::Install => Task::WithConfig(ConfiguredTask::InstallService),
            ServiceAction::Restart => Task::RestartService,
            ServiceAction::Remove => Task::RemoveService,
            ServiceAction::Status => Task::PrintServiceStatus,
            ServiceAction::Run => Task::RunDispatcher,
        },
    }
}

/// What a command comes down to; none given means to watch.
pub fn task_for(command: Option<Command>) -> (r: Task)
    ensures
        r == task_of(command),
{
    let command = match command {
        Some(command) => command,
        None => Command::Run,
    };
    match command {
        Command::Run => Task::WithConfig(ConfiguredTask::Watch),
        Command::Status => Task::WithConfig(ConfiguredTask::PrintStatus),
        Command::Start => Task::WithConfig(ConfiguredTask::StartHotspot),
        Command::Stop => Task::WithConfig(ConfiguredTask::StopHotspot),
        Command::Service { action } => match action {
            ServiceAction::Install => Task::WithConfig(ConfiguredTask::InstallService),
            ServiceAction::Restart => Task::RestartService,
            ServiceAction::Remove => Task::RemoveService,
            ServiceAction::Status => Task::PrintServiceStatus,
            ServiceAction::Run => Task::RunDispatcher,
        },
    }
}

impl ConfiguredTask {
    /// Is a log file written meanwhile? Printing the status is a one-shot diagnostic; file
    /// logging would only get in the way.
    pub fn logs_to_file(&self) -> (r: bool)
        ensures
            r == (*self != ConfiguredTask::PrintStatus),
    {
        *self != ConfiguredTask::PrintStatus
    }
}

/// The config file to use -- see [`config_path`].
pub open spec fn path_given<T>(config: Option<T>, bare_config: Option<T>) -> Option<T> {
    if config is Some {
        config
    } else {
        bare_config
    }
}

/// The config file to use: the one given as an option, or else as a bare argument -- so that
/// dropping a .toml file onto the exe works. `None` means the default one.
pub fn config_path<T>(config: Option<T>, bare_config: Option<T>) -> (r: Option<T>)
    ensures
        r == path_given(config, bare_config),
{
    match config {
        Some(path) => Some(path),
        None => bare_config,
    }
}

/// May the watchdog run in the foreground? Not while the service does the same.
pub fn check_foreground(service_running: bool) -> (r: Result<(), &'static str>)
    ensures
        match r {
            Ok(()) => !service_running,
            Err(e) => service_running && e@
                == "autospot is already running as a Windows service; stop it with `autospot service remove` (or `sc stop autospot`) before running it in the foreground. Check `autospot service status` for details."@,
        },
{
    if service_running {
        Err(
            "autospot is already running as a Windows service; stop it with `autospot service remove` (or `sc stop autospot`) before running it in the foreground. Check `autospot service status` for details.",
        )
    } else {
        Ok(())
    }
}

// --- laws ------------------------------------------------------------------------

/// The config is read for every command but the service actions other than `install`.
pub proof fn law_who_reads_the_config(command: Option<Command>)
    ensures
        (task_of(command) is WithConfig) <==> (command matches Some(Command::Service { action })
            ==> action == ServiceAction::Install),
{
}

/// Different commands come down to different things, but that no command is `run`.
pub proof fn law_commands_are_not_confused(a: Option<Command>, b: Option<Command>)
    requires
        task_of(a) == task_of(b),
    ensures
        a == b || (a is None && b == Some(Command::Run)) || (b is None && a == Some(Command::Run)),
{
}

/// Each task is done for the command that is called by it, and for no other; watching is done
/// where there is no command too.
pub proof fn law_each_task_has_its_command(command: Option<Command>)
    ensures
        task_of(command) == Task::WithConfig(ConfiguredTask::Watch) <==> command is None || command
            == Some(Command::Run),
        task_of(command) == Task::WithConfig(ConfiguredTask::PrintStatus) <==> command == Some(
            Command::Status,
        ),
        task_of(command) == Task::WithConfig(ConfiguredTask::StartHotspot) <==> command == Some(
            Command::Start,
        ),
        task_of(command) == Task::WithConfig(ConfiguredTask::StopHotspot) <==> command == Some(
            Command::Stop,
        ),
        task_of(command) == Task::WithConfig(ConfiguredTask::InstallService) <==> command == Some(
            Command::Service { action: ServiceAction::Install },
        ),
        task_of(command) == Task::RestartService <==> command == Some(
            Command::Service { action: ServiceAction::Restart },
        ),
        task_of(command) == Task::RemoveService <==> command == Some(
            Command::Service { action: ServiceAction::Remove },
        ),
        task_of(command) == Task::PrintServiceStatus <==> command == Some(
            Command::Service { action: ServiceAction::Status },
        ),
        task_of(command) == Task::RunDispatcher <==> command == Some(
            Command::Service { action: ServiceAction::Run },
        ),
{
}

/// A config given as an option is used whatever else is given, and a bare one is where there
/// is no such option; the default one is used only where neither is given.
pub proof fn law_the_option_comes_first<T>(config: T, bare: Option<T>)
    ensures
        path_given(Some(config), bare) == Some(config),
        path_given(None, bare) == bare,
{
}

} // verus!
