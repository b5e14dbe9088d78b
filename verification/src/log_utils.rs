//! Logging setup.

use vstd::prelude::*;

verus! {

/// How much is logged, from nothing to everything.
#[derive(Debug, Clone, Copy, PartialEq, Eq, Structural)]
pub enum LogLevel {
    Off,
    Error,
    Warn,
    Info,
    Debug,
    Trace,
}

/// The level type of the `log` crate, carried as an opaque value.
#[verifier::external_type_specification]
#[verifier::external_body]
pub struct ExLevelFilter(log::LevelFilter);

/// The module whose chatter is capped, whatever the default level.
pub const CAPPED_MODULE: &'static str = "reqwest";

/// Turns a level into the `log` crate's `LevelFilter` of the same name.
#[verifier::external_body]
fn outside_level(level: LogLevel) -> log::LevelFilter {
    match level {
        LogLevel::Off => log::LevelFilter::Off,
        LogLevel::Error => log::LevelFilter::Error,
        LogLevel::Warn => log::LevelFilter::Warn,
        LogLevel::Info => log::LevelFilter::Info,
        LogLevel::Debug => log::LevelFilter::Debug,
        LogLevel::Trace => log::LevelFilter::Trace,
    }
}

/// Builds and installs the process-wide logger with
/// `pretty_env_logger::formatted_builder`: `level` by default, `module`
/// capped at `module_level`, timestamps in seconds, overridden by the
/// environment's filter. A logger that is already installed stays.
#[verifier::external_body]
fn install_logger(level: log::LevelFilter, module: &str, module_level: log::LevelFilter) {
    let _ = pretty_env_logger::formatted_builder()
        .filter_level(level)
        .format_timestamp_secs()
        .filter_module(module, module_level)
        .parse_default_env()
        .try_init();
}

/// Calls `log::set_max_level`.
#[verifier::external_body]
fn set_max_level(level: log::LevelFilter) {
    log::set_max_level(level);
}

/// The default level of a build: debug builds log more.
pub open spec fn default_level_of(debug_build: bool) -> LogLevel {
    if debug_build {
        LogLevel::Debug
    } else {
        LogLevel::Info
    }
}

/// The default level of a build.
pub fn default_level(debug_build: bool) -> (level: LogLevel)
    ensures
        level == default_level_of(debug_build),
{
    if debug_build {
        LogLevel::Debug
    } else {
        LogLevel::Info
    }
}

/// Installs the logger with the default level of the build.
pub fn log_init(debug_build: bool) {
    log_init_with_default_level(default_level(debug_build));
}

/// Installs the logger with `level` as its default level.
pub fn log_init_with_default_level(level: LogLevel) {
    install_logger(outside_level(level), CAPPED_MODULE, outside_level(LogLevel::Info));
}

/// Silences everything below warnings.
pub fn set_quiet_log() {
    set_max_level(outside_level(LogLevel::Warn));
}

} // verus!
