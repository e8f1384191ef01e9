//! The settings a Kafka client is created with, and what becomes of the
//! events it logs.
use vstd::prelude::*;
use vstd::string::*;
use crate::kafka::decimal::{decimal, to_decimal};
use crate::kafka::text::same_text;
use crate::kafka::timeout::TimeoutConfig;

verus! {

/// How much the application wants to see of a log target, from the least to
/// the most.
#[derive(Clone, Copy, Debug, PartialEq, Eq, Structural)]
pub enum Verbosity {
    Error,
    Warn,
    Info,
    Debug,
    Trace,
}

/// The level at which the client library logs an event, from the most to
/// the least severe.
#[derive(Clone, Copy, Debug, PartialEq, Eq, Structural)]
pub enum LogLevel {
    Emerg,
    Alert,
    Critical,
    Error,
    Warning,
    Notice,
    Info,
    Debug,
}

/// One setting of a client: a key and its value.
#[derive(Clone, Debug, PartialEq, Eq)]
pub struct Setting {
    pub key: String,
    pub value: String,
}

impl View for Setting {
    type V = (Seq<char>, Seq<char>);

    open spec fn view(&self) -> (Seq<char>, Seq<char>) {
        (self.key@, self.value@)
    }
}

impl DeepView for Setting {
    type V = (Seq<char>, Seq<char>);

    open spec fn deep_view(&self) -> (Seq<char>, Seq<char>) {
        self@
    }
}

/// What a new client is configured with.
#[derive(Clone, Debug, PartialEq, Eq)]
pub struct ClientSettings {
    pub log_level: LogLevel,
    pub settings: Vec<Setting>,
}

/// The log level a client is given for a verbosity: the client is as
/// talkative as the application wants its target to be.
pub open spec fn log_level_for(verbosity: Verbosity) -> LogLevel {
    match verbosity {
        Verbosity::Trace | Verbosity::Debug => LogLevel::Debug,
        Verbosity::Info => LogLevel::Info,
        Verbosity::Warn => LogLevel::Warning,
        Verbosity::Error => LogLevel::Error,
    }
}

/// Whether a verbosity asks for the client's debug logs.
pub open spec fn wants_debug(verbosity: Verbosity) -> bool {
    verbosity == Verbosity::Debug || verbosity == Verbosity::Trace
}

/// The settings of a new client, in the order in which they are made: the
/// debug switch if wanted, keepalives if enabled, and the three timeouts of
/// the connection in milliseconds.
pub open spec fn settings_for(verbosity: Verbosity, timeouts: TimeoutConfig) -> Seq<
    (Seq<char>, Seq<char>),
> {
    let debug = if wants_debug(verbosity) {
        seq![("debug"@, "all"@)]
    } else {
        seq![]
    };
    let keepalive = if timeouts.keepalive {
        seq![("socket.keepalive.enable"@, "true"@)]
    } else {
        seq![]
    };
    debug + keepalive + seq![
        ("socket.timeout.ms"@, decimal(timeouts.socket_timeout.millis())),
        ("transaction.timeout.ms"@, decimal(timeouts.transaction_timeout.millis())),
        (
            "socket.connection.setup.timeout.ms"@,
            decimal(timeouts.socket_connection_setup_timeout.millis()),
        ),
    ]
}

fn setting(key: &str, value: String) -> (s: Setting)
    ensures
        s@ == (key@, value@),
{
    Setting { key: String::from_str(key), value }
}

/// The configuration of a new client, with its log level set by the
/// verbosity that the application wants of the client's log target.
pub fn create_new_client_config(verbosity: Verbosity, timeout_config: TimeoutConfig) -> (config:
    ClientSettings)
    ensures
        config.log_level == log_level_for(verbosity),
        config.settings.deep_view() == settings_for(verbosity, timeout_config),
{
    let log_level = match verbosity {
        Verbosity::Trace | Verbosity::Debug => LogLevel::Debug,
        Verbosity::Info => LogLevel::Info,
        Verbosity::Warn => LogLevel::Warning,
        Verbosity::Error => LogLevel::Error,
    };
    let mut settings: Vec<Setting> = Vec::new();
    match verbosity {
        Verbosity::Trace | Verbosity::Debug => {
            settings.push(setting("debug", String::from_str("all")));
        },
        _ => {},
    }
    if timeout_config.keepalive {
        settings.push(setting("socket.keepalive.enable", String::from_str("true")));
    }
    settings.push(setting("socket.timeout.ms", to_decimal(timeout_config.socket_timeout.as_millis())));
    settings.push(
        setting("transaction.timeout.ms", to_decimal(timeout_config.transaction_timeout.as_millis())),
    );
    settings.push(
        setting(
            "socket.connection.setup.timeout.ms",
            to_decimal(timeout_config.socket_connection_setup_timeout.as_millis()),
        ),
    );
    assert(settings.deep_view() =~= settings_for(verbosity, timeout_config));
    ClientSettings { log_level, settings }
}

/// The configuration of a new client with the default timeouts and a log
/// level of `Info`.
pub fn create_new_client_config_simple() -> (config: ClientSettings)
    ensures
        config.log_level == LogLevel::Info,
        config.settings.deep_view() == settings_for(Verbosity::Info, TimeoutConfig::defaults()),
{
    create_new_client_config(Verbosity::Info, TimeoutConfig::default())
}

impl LogLevel {
    /// Whether an event of this level is an error whatever its facility.
    pub open spec fn severe(self) -> bool {
        self is Emerg || self is Alert || self is Critical || self is Error
    }

    /// The verbosity at which an event of this level is passed on. Errors
    /// are passed on as warnings: most of them are problems of the user's
    /// configuration.
    pub open spec fn passed_on_as(self) -> Verbosity {
        match self {
            LogLevel::Emerg | LogLevel::Alert | LogLevel::Critical | LogLevel::Error => Verbosity::Warn,
            LogLevel::Warning => Verbosity::Warn,
            LogLevel::Notice | LogLevel::Info => Verbosity::Info,
            LogLevel::Debug => Verbosity::Debug,
        }
    }

    /// What a passed-on event of this level starts with.
    pub open spec fn prefix(self) -> Seq<char> {
        if self.severe() {
            "error: "@
        } else if self is Warning {
            "warning: "@
        } else {
            ""@
        }
    }

    /// The verbosity at which an event of this level is passed on.
    pub fn severity(&self) -> (v: Verbosity)
        ensures
            v == self.passed_on_as(),
    {
        match self {
            LogLevel::Emerg | LogLevel::Alert | LogLevel::Critical | LogLevel::Error => Verbosity::Warn,
            LogLevel::Warning => Verbosity::Warn,
            LogLevel::Notice => Verbosity::Info,
            LogLevel::Info => Verbosity::Info,
            LogLevel::Debug => Verbosity::Debug,
        }
    }
}

/// Whether a logged event tells of an error: every event at error level or
/// above does, and so does every event of the facility `FAIL`, at whatever
/// level it is logged.
pub fn is_error_event(level: LogLevel, fac: &str) -> (r: bool)
    ensures
        r == (level.severe() || fac@ == "FAIL"@),
{
    match level {
        LogLevel::Emerg | LogLevel::Alert | LogLevel::Critical | LogLevel::Error => true,
        _ => same_text(fac, "FAIL"),
    }
}

/// The line under which a logged event is passed on: the prefix of its
/// level, the facility, a blank and the message.
pub fn log_line(level: LogLevel, fac: &str, log_message: &str) -> (line: String)
    ensures
        line@ == level.prefix() + fac@ + " "@ + log_message@,
{
    let mut line = match level {
        LogLevel::Emerg | LogLevel::Alert | LogLevel::Critical | LogLevel::Error => String::from_str(
            "error: ",
        ),
        LogLevel::Warning => String::from_str("warning: "),
        _ => String::from_str(""),
    };
    line.append(fac);
    line.append(" ");
    line.append(log_message);
    line
}

} // verus!
