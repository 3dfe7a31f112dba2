//! A basic logger for tests and for applications that install none.

use vstd::prelude::*;
use vstd::string::StringExecFns;

verus! {

/// Severity of a log record, most severe first.
#[derive(Clone, Copy, Debug, PartialEq, Eq, Structural)]
pub enum LogLevel {
    Error,
    Warn,
    Info,
    Debug,
    Trace,
}

impl LogLevel {
    /// The rank of the level: 1 for errors, up to 5 for traces.
    pub open spec fn rank(self) -> nat {
        match self {
            LogLevel::Error => 1,
            LogLevel::Warn => 2,
            LogLevel::Info => 3,
            LogLevel::Debug => 4,
            LogLevel::Trace => 5,
        }
    }

    /// The name of the level, as it is written at the front of a line.
    pub open spec fn name_of(self) -> Seq<char> {
        match self {
            LogLevel::Error => "ERROR"@,
            LogLevel::Warn => "WARN"@,
            LogLevel::Info => "INFO"@,
            LogLevel::Debug => "DEBUG"@,
            LogLevel::Trace => "TRACE"@,
        }
    }

    /// The name of the level, as it is written at the front of a line.
    pub fn name(self) -> (name: &'static str)
        ensures
            name@ == self.name_of(),
    {
        match self {
            LogLevel::Error => "ERROR",
            LogLevel::Warn => "WARN",
            LogLevel::Info => "INFO",
            LogLevel::Debug => "DEBUG",
            LogLevel::Trace => "TRACE",
        }
    }
}

/// The standard stream that a line goes to.
#[derive(Clone, Copy, Debug, PartialEq, Eq, Structural)]
pub enum LogStream {
    Stdout,
    Stderr,
}

/// The stream that records of `level` go to: the standard error stream for warnings and
/// errors, the standard output stream for all others.
pub open spec fn stream_of(level: LogLevel) -> LogStream {
    if level.rank() <= LogLevel::Warn.rank() {
        LogStream::Stderr
    } else {
        LogStream::Stdout
    }
}

/// The line of a record: the name of its level in square brackets, a colon, a space and
/// the message.
pub open spec fn line_of(level: LogLevel, message: Seq<char>) -> Seq<char> {
    "["@ + level.name_of() + "]: "@ + message
}

/// Very basic logger, holding whether debug and trace level logs are enabled.
pub struct BasicLogger {
    /// If debug level logs are enabled
    debug: bool,
    /// If trace level logs are enabled
    trace: bool,
}

impl BasicLogger {
    pub closed spec fn debug_enabled(&self) -> bool {
        self.debug
    }

    pub closed spec fn trace_enabled(&self) -> bool {
        self.trace
    }

    /// Constructs a new `BasicLogger`.
    ///
    /// The debug and trace levels can be enabled here; all other levels are always enabled.
    pub fn new(debug: bool, trace: bool) -> (logger: BasicLogger)
        ensures
            logger.debug_enabled() == debug,
            logger.trace_enabled() == trace,
    {
        BasicLogger { debug, trace }
    }

    /// Whether records of `level` are logged: debug and trace records where they were
    /// enabled, all others always.
    pub open spec fn logs(&self, level: LogLevel) -> bool {
        match level {
            LogLevel::Debug => self.debug_enabled(),
            LogLevel::Trace => self.trace_enabled(),
            _ => true,
        }
    }

    /// Whether records of `level` are logged.
    pub fn enabled(&self, level: LogLevel) -> (enabled: bool)
        ensures
            enabled == self.logs(level),
    {
        match level {
            LogLevel::Debug => self.debug,
            LogLevel::Trace => self.trace,
            _ => true,
        }
    }

    /// Where a record of `level` goes and what is written there: nothing where the level is
    /// not logged, else the line of the record, to the standard error stream for warnings and
    /// errors and to the standard output stream for all others.
    pub fn log(&self, level: LogLevel, message: &str) -> (written: Option<(LogStream, String)>)
        ensures
            written is Some <==> self.logs(level),
            written is Some ==> written->Some_0.0 == stream_of(level) && written->Some_0.1@
                == line_of(level, message@),
    {
        if !self.enabled(level) {
            return None;
        }
        let stream = match level {
            LogLevel::Error => LogStream::Stderr,
            LogLevel::Warn => LogStream::Stderr,
            _ => LogStream::Stdout,
        };
        let mut line = String::from_str("[");
        line.append(level.name());
        line.append("]: ");
        line.append(message);
        Some((stream, line))
    }

    /// Flushing is not required when using the std output streams
    pub fn flush(&self) {
    }
}

} // verus!
