//! The commands, and what each of them asks for.
//!
//! The command line is taken apart by the caller. What a command means is
//! decided here: which task it starts, whether a new shortcut or a new log level
//! is acceptable, and what is only shown.
use crate::hotkey::{key_written, modifiers_written, HotkeyConfig};
use crate::logger::{is_known_level, known_level, LogConfig};
use vstd::prelude::*;

verus! {

/// The command line: one command, or none.
#[derive(Debug)]
pub struct Cli {
    pub command: Option<Commands>,
}

/// The commands.
#[derive(Debug)]
pub enum Commands {
    /// Start the service, in the background where `background` is set.
    Run { background: bool },
    /// Stop the background daemon.
    Stop,
    /// Report whether the daemon runs.
    Status,
    /// Show the daemon's log.
    Logs,
    /// Show the daemon's log and, where `follow` is set, what is added to it.
    Attach { follow: bool },
    /// Show or set the shortcut.
    Hotkeys { modifiers: Option<String>, key: Option<String>, list: bool },
    /// Show or set the log level.
    Logging { level: Option<String>, show: bool },
    /// Show the version.
    Version,
}

/// What a command about the shortcut asks for.
#[derive(Debug)]
pub enum HotkeysRequest {
    /// Show the configured shortcut.
    List,
    /// Save this shortcut.
    Update(HotkeyConfig),
    /// Refuse: the texts write no shortcut, for this reason.
    Invalid(String),
    /// Explain how the shortcut is set.
    Usage,
}

/// What a command about the log asks for.
#[derive(Debug)]
pub enum LoggingRequest {
    /// Show the configured level.
    Show,
    /// Save this configuration.
    Update(LogConfig),
    /// Refuse: this is no level.
    Invalid(String),
    /// Explain how the level is set.
    Usage,
}

/// What the program is to do.
#[derive(Debug, Clone, Copy, PartialEq, Eq, Structural)]
pub enum Task {
    /// Run the service, after detaching where `detach` is set.
    Serve { detach: bool },
    Stop,
    Status,
    ShowLogs,
    Attach { follow: bool },
    Hotkeys,
    Logging,
    Version,
    /// No command: introduce the program.
    Intro,
}

/// The task of a command line.
pub open spec fn task_of(cli: Cli) -> Task {
    match cli.command {
        Some(Commands::Run { background }) => Task::Serve { detach: background },
        Some(Commands::Stop) => Task::Stop,
        Some(Commands::Status) => Task::Status,
        Some(Commands::Logs) => Task::ShowLogs,
        Some(Commands::Attach { follow }) => Task::Attach { follow },
        Some(Commands::Hotkeys { .. }) => Task::Hotkeys,
        Some(Commands::Logging { .. }) => Task::Logging,
        Some(Commands::Version) => Task::Version,
        None => Task::Intro,
    }
}

/// Whether `request` is what a command about the shortcut asks for. To list
/// comes first. With both texts given, the shortcut that they write is saved, or
/// refused for the reason for which they write none. Otherwise the command is
/// explained.
pub open spec fn hotkeys_asks(
    modifiers: Option<String>,
    key: Option<String>,
    list: bool,
    request: HotkeysRequest,
) -> bool {
    if list {
        request is List
    } else {
        match (modifiers, key) {
            (Some(m), Some(k)) => match (modifiers_written(m@), key_written(k@)) {
                (Ok(read), Ok(code)) => {
                    &&& request matches HotkeysRequest::Update(config)
                    &&& config.modifiers@ == m@
                    &&& config.key@ == k@
                    &&& config.modifiers_parsed == Some(read)
                    &&& config.key_parsed == Some(code)
                },
                (Ok(_), Err(why)) => request matches HotkeysRequest::Invalid(message) && message@
                    == why,
                (Err(why), _) => request matches HotkeysRequest::Invalid(message) && message@
                    == why,
            },
            _ => request is Usage,
        }
    }
}

/// Whether `request` is what a command about the log asks for. To show comes
/// first. A level that is given is saved if it is one of the known levels, and
/// refused otherwise. Without a level the command is explained.
pub open spec fn logging_asks(level: Option<String>, show: bool, request: LoggingRequest) -> bool {
    if show {
        request is Show
    } else {
        match level {
            Some(text) => if known_level(text@) {
                request matches LoggingRequest::Update(config) && config.level@ == text@
            } else {
                request matches LoggingRequest::Invalid(refused) && refused@ == text@
            },
            None => request is Usage,
        }
    }
}

impl Cli {
    /// The task of this command line.
    pub fn task(&self) -> (task: Task)
        ensures
            task == task_of(*self),
    {
        match &self.command {
            Some(Commands::Run { background }) => Task::Serve { detach: *background },
            Some(Commands::Stop) => Task::Stop,
            Some(Commands::Status) => Task::Status,
            Some(Commands::Logs) => Task::ShowLogs,
            Some(Commands::Attach { follow }) => Task::Attach { follow: *follow },
            Some(Commands::Hotkeys { .. }) => Task::Hotkeys,
            Some(Commands::Logging { .. }) => Task::Logging,
            Some(Commands::Version) => Task::Version,
            None => Task::Intro,
        }
    }
}

/// What a command about the shortcut asks for.
pub fn handle_hotkeys_command(modifiers: &Option<String>, key: &Option<String>, list: bool) -> (request:
    HotkeysRequest)
    ensures
        hotkeys_asks(*modifiers, *key, list, request),
{
    if list {
        return HotkeysRequest::List;
    }
    match (modifiers, key) {
        (Some(m), Some(k)) => match HotkeyConfig::from_strings(m.as_str(), k.as_str()) {
            Ok(config) => HotkeysRequest::Update(config),
            Err(why) => HotkeysRequest::Invalid(why),
        },
        _ => HotkeysRequest::Usage,
    }
}

/// What a command about the log asks for.
pub fn handle_logging_command(level: &Option<String>, show: bool) -> (request: LoggingRequest)
    ensures
        logging_asks(*level, show, request),
{
    if show {
        return LoggingRequest::Show;
    }
    match level {
        Some(text) => {
            if is_known_level(text.as_str()) {
                LoggingRequest::Update(LogConfig { level: text.clone() })
            } else {
                LoggingRequest::Invalid(text.clone())
            }
        },
        None => LoggingRequest::Usage,
    }
}

} // verus!
