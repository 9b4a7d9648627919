use vstd::prelude::*;

verus! {

/// How much the process logs.
#[derive(Clone, Copy, Debug, PartialEq, Eq, Structural)]
pub enum LogLevel {
    Debug,
    Info,
    Warn,
    Error,
}

/// The process configuration: the poll interval in milliseconds, the log
/// verbosity, and the addresses of the bus and of the store.
#[derive(Clone, Debug)]
pub struct SchedulerConfig {
    pub ms: u32,
    pub log_level: LogLevel,
    pub nats: String,
    pub postgres: String,
}

/// The command line: the path of the configuration file.
#[derive(Clone, Debug)]
pub struct Args {
    pub config_file: String,
}

/// The verbosity used when the configuration names none.
pub fn default_log_level() -> (r: LogLevel)
    ensures
        r == LogLevel::Warn,
{
    LogLevel::Warn
}

impl SchedulerConfig {
    /// A configuration whose log level is the default one.
    pub fn with_default_log_level(ms: u32, nats: String, postgres: String) -> (r: SchedulerConfig)
        ensures
            r.ms == ms,
            r.log_level == LogLevel::Warn,
            r.nats == nats,
            r.postgres == postgres,
    {
        SchedulerConfig { ms, log_level: default_log_level(), nats, postgres }
    }
}

impl Args {
    /// The arguments when no configuration file is named: `config.toml`.
    pub fn without_flags() -> (r: Args)
        ensures
            r.config_file@ == "config.toml"@,
    {
        Args { config_file: String::from_str("config.toml") }
    }
}

} // verus!
