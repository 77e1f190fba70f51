//! Logging configuration for libindigo.
//!
//! Logs go to stderr, and to a file when one is configured, at a level that
//! applies to the libindigo crates unless the environment sets a filter.
use vstd::prelude::*;
use std::path::PathBuf;

verus! {

#[verifier::external_type_specification]
#[verifier::external_body]
pub struct ExPathBuf(PathBuf);

/// The level of the messages that are logged.
#[derive(Debug, Clone, Copy, PartialEq, Eq)]
pub enum LogLevel {
    /// Application integrity compromised.
    Error,
    /// Graceful recovery possible.
    Warn,
    /// Meaningful user information.
    Info,
    /// Additional troubleshooting information.
    Debug,
    /// Detailed application logic tracing.
    Trace,
}

impl LogLevel {
    pub open spec fn spec_text(self) -> &'static str {
        match self {
            LogLevel::Error => "error",
            LogLevel::Warn => "warn",
            LogLevel::Info => "info",
            LogLevel::Debug => "debug",
            LogLevel::Trace => "trace",
        }
    }

    /// The name of the level, as a log filter writes it.
    pub fn text(&self) -> (r: &'static str)
        ensures
            r == self.spec_text(),
    {
        match self {
            LogLevel::Error => "error",
            LogLevel::Warn => "warn",
            LogLevel::Info => "info",
            LogLevel::Debug => "debug",
            LogLevel::Trace => "trace",
        }
    }
}

impl Default for LogLevel {
    fn default() -> (r: LogLevel)
        ensures
            r == LogLevel::Info,
    {
        LogLevel::Info
    }
}

/// Where and at which level to log.
#[derive(Debug, Clone)]
pub struct LogConfig {
    /// The minimum log level to output. Defaults to INFO.
    pub level: LogLevel,
    /// Optional file path for log output, in addition to stderr.
    pub log_file: Option<PathBuf>,
}

impl Default for LogConfig {
    /// Logs at the default level, to stderr only.
    fn default() -> (r: LogConfig)
        ensures
            r.level == LogLevel::Info,
            r.log_file is None,
    {
        LogConfig { level: LogLevel::default(), log_file: None }
    }
}

impl LogConfig {
    /// The configuration with the given level.
    pub fn with_level(self, level: LogLevel) -> (r: LogConfig)
        ensures
            r.level == level,
            r.log_file == self.log_file,
    {
        LogConfig { level, ..self }
    }

    /// The configuration that also logs to the file at `path`.
    pub fn with_log_file(self, path: PathBuf) -> (r: LogConfig)
        ensures
            r.level == self.level,
            r.log_file == Some(path),
    {
        LogConfig { log_file: Some(path), ..self }
    }
}

/// The log filter that applies `level` to the libindigo crates.
pub open spec fn spec_filter_directives(level: LogLevel) -> Seq<char> {
    let l = level.spec_text()@;
    "libindigo="@ + l + ",libindigo_rs="@ + l + ",libindigo_ffi="@ + l
}

/// The log filter that applies the configured level to the libindigo crates, used
/// when the environment sets none.
pub fn filter_directives(level: LogLevel) -> (r: String)
    ensures
        r@ == spec_filter_directives(level),
{
    let l = level.text();
    let mut s = "libindigo=".to_owned();
    s.append(l);
    s.append(",libindigo_rs=");
    s.append(l);
    s.append(",libindigo_ffi=");
    s.append(l);
    s
}

} // verus!
