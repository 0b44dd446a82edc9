//! The leveled text sink shared by both tracing binaries.
//!
//! One logger is constructed at process start and lives for the process's
//! lifetime. The global maximum level is set to debug while the sink's own
//! filter admits info and above, so debug records reach the sink but are not
//! emitted. An emitted record is rendered as `[module][LEVEL] message`.

use vstd::prelude::*;

verus! {

/// Severity of one log record, from most to least severe.
#[derive(Clone, Copy, PartialEq, Eq, Structural, Debug)]
pub enum LogLevel {
    Error,
    Warn,
    Info,
    Debug,
    Trace,
}

/// Numeric place of a level: lower is more severe.
pub open spec fn level_rank(l: LogLevel) -> int {
    match l {
        LogLevel::Error => 1,
        LogLevel::Warn => 2,
        LogLevel::Info => 3,
        LogLevel::Debug => 4,
        LogLevel::Trace => 5,
    }
}

/// The uppercase name a level prints as.
pub open spec fn spec_level_name(l: LogLevel) -> Seq<char> {
    match l {
        LogLevel::Error => "ERROR"@,
        LogLevel::Warn => "WARN"@,
        LogLevel::Info => "INFO"@,
        LogLevel::Debug => "DEBUG"@,
        LogLevel::Trace => "TRACE"@,
    }
}

/// The rendered shape of one record: `[module][LEVEL] message`.
pub open spec fn spec_render(module: Seq<char>, level: LogLevel, msg: Seq<char>) -> Seq<char> {
    "["@ + module + "]["@ + spec_level_name(level) + "] "@ + msg
}

/// The process-wide logger: the most verbose level records are produced at,
/// and the sink's own filter.
pub struct LoggerConfig {
    /// Records above this level are never produced.
    pub max_level: LogLevel,
    /// The sink emits only records at this level or more severe.
    pub sink_threshold: LogLevel,
}

/// The logger both binaries install at start: records are produced up to
/// debug, the sink emits info and above.
pub fn configure() -> (c: LoggerConfig)
    ensures
        c.max_level == LogLevel::Debug,
        c.sink_threshold == LogLevel::Info,
{
    LoggerConfig { max_level: LogLevel::Debug, sink_threshold: LogLevel::Info }
}

impl LoggerConfig {
    /// Whether the sink emits a record of this level: true exactly when the
    /// level is at least as severe as the sink's threshold.
    pub fn enabled(&self, level: LogLevel) -> (r: bool)
        ensures
            r == (level_rank(level) <= level_rank(self.sink_threshold)),
    {
        let given = match level {
            LogLevel::Error => 1u8,
            LogLevel::Warn => 2u8,
            LogLevel::Info => 3u8,
            LogLevel::Debug => 4u8,
            LogLevel::Trace => 5u8,
        };
        let bound = match self.sink_threshold {
            LogLevel::Error => 1u8,
            LogLevel::Warn => 2u8,
            LogLevel::Info => 3u8,
            LogLevel::Debug => 4u8,
            LogLevel::Trace => 5u8,
        };
        given <= bound
    }

    /// Renders one record if the sink admits it: exactly the admitted levels
    /// yield a line, and the line reads `[module][LEVEL] message`.
    pub fn render(&self, module: &str, level: LogLevel, msg: &str) -> (r: Option<String>)
        ensures
            r is Some <==> level_rank(level) <= level_rank(self.sink_threshold),
            r is Some ==> r->0@ == spec_render(module@, level, msg@),
    {
        if self.enabled(level) {
            Some(render_line(module, level, msg))
        } else {
            None
        }
    }
}

/// The uppercase name of a level.
pub fn level_name(l: LogLevel) -> (r: &'static str)
    ensures
        r@ == spec_level_name(l),
{
    match l {
        LogLevel::Error => "ERROR",
        LogLevel::Warn => "WARN",
        LogLevel::Info => "INFO",
        LogLevel::Debug => "DEBUG",
        LogLevel::Trace => "TRACE",
    }
}

/// Renders one record as `[module][LEVEL] message`.
pub fn render_line(module: &str, level: LogLevel, msg: &str) -> (r: String)
    ensures
        r@ == spec_render(module@, level, msg@),
{
    let mut line = String::from_str("[");
    line.append(module);
    line.append("][");
    line.append(level_name(level));
    line.append("] ");
    line.append(msg);
    line
}

} // verus!
