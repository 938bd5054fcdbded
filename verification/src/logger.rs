//! Engine log severity and the handler that receives log lines.

use core::cmp::Ordering;

use vstd::prelude::*;

verus! {

/// Severity of an engine log line forwarded to a [`LogHandler`].
///
/// Variants are declared in severity order; their numeric values (0-3, see
/// [`level_code`]) are part of the FFI contract with the engine bridge.
#[derive(Debug, Clone, Copy, PartialEq, Eq, Ord, Hash)]
pub enum LogLevel {
    /// Diagnostic detail (poll internals, worker lifecycle).
    Debug,
    /// Normal lifecycle events (subscription started, rebalance complete).
    Info,
    /// Recoverable anomalies (poll retry, drain nearing timeout).
    Warn,
    /// Failures (broker errors, circuit breaker, emergency shutdown).
    Error,
}

/// The FFI code of a level: its position in severity order.
pub open spec fn level_code(level: LogLevel) -> i32 {
    match level {
        LogLevel::Debug => 0,
        LogLevel::Info => 1,
        LogLevel::Warn => 2,
        LogLevel::Error => 3,
    }
}

/// The level a raw FFI code denotes; codes outside 0-3 denote `Info`.
pub open spec fn level_of_code(raw: i32) -> LogLevel {
    if raw == 0 {
        LogLevel::Debug
    } else if raw == 2 {
        LogLevel::Warn
    } else if raw == 3 {
        LogLevel::Error
    } else {
        LogLevel::Info
    }
}

/// The upper-case name a level renders as.
pub open spec fn level_name(level: LogLevel) -> Seq<char> {
    match level {
        LogLevel::Debug => "DEBUG"@,
        LogLevel::Info => "INFO"@,
        LogLevel::Warn => "WARN"@,
        LogLevel::Error => "ERROR"@,
    }
}

/// How two levels compare: by severity, that is by FFI code.
pub open spec fn severity_order(a: LogLevel, b: LogLevel) -> Ordering {
    if level_code(a) < level_code(b) {
        Ordering::Less
    } else if level_code(a) == level_code(b) {
        Ordering::Equal
    } else {
        Ordering::Greater
    }
}

impl LogLevel {
    /// The FFI code of the level (its position in severity order).
    fn code(&self) -> (c: i32)
        ensures
            c == level_code(*self),
    {
        match self {
            LogLevel::Debug => 0,
            LogLevel::Info => 1,
            LogLevel::Warn => 2,
            LogLevel::Error => 3,
        }
    }

    /// Map a raw FFI level to a LogLevel. Unknown values map to Info.
    pub fn from_raw(raw: i32) -> (level: Self)
        ensures
            level == level_of_code(raw),
    {
        match raw {
            0 => LogLevel::Debug,
            1 => LogLevel::Info,
            2 => LogLevel::Warn,
            3 => LogLevel::Error,
            _ => LogLevel::Info,
        }
    }

    /// The upper-case name of the level: "DEBUG", "INFO", "WARN" or "ERROR".
    pub fn to_string(&self) -> (s: String)
        ensures
            s@ == level_name(*self),
    {
        let name: &str = match self {
            LogLevel::Debug => "DEBUG",
            LogLevel::Info => "INFO",
            LogLevel::Warn => "WARN",
            LogLevel::Error => "ERROR",
        };
        name.to_owned()
    }
}

/// Levels compare by severity, so handlers can threshold-filter with plain
/// comparisons.
impl PartialOrd for LogLevel {
    fn partial_cmp(&self, other: &LogLevel) -> (r: Option<Ordering>) {
        let a = self.code();
        let b = other.code();
        if a < b {
            Some(Ordering::Less)
        } else if a == b {
            Some(Ordering::Equal)
        } else {
            Some(Ordering::Greater)
        }
    }
}

impl vstd::std_specs::cmp::PartialOrdSpecImpl for LogLevel {
    open spec fn obeys_partial_cmp_spec() -> bool {
        true
    }

    open spec fn partial_cmp_spec(&self, other: &LogLevel) -> Option<Ordering> {
        Some(severity_order(*self, *other))
    }
}

/// The order of levels is the order of their FFI codes: it is total, two
/// levels compare equal only when they are the same level, and `Debug < Info
/// < Warn < Error`.
pub proof fn lemma_order_tracks_severity(a: LogLevel, b: LogLevel)
    ensures
        (severity_order(a, b) == Ordering::Less) == (level_code(a) < level_code(b)),
        (severity_order(a, b) == Ordering::Equal) == (a == b),
        (severity_order(a, b) == Ordering::Less) == (severity_order(b, a) == Ordering::Greater),
        severity_order(LogLevel::Debug, LogLevel::Info) == Ordering::Less,
        severity_order(LogLevel::Info, LogLevel::Warn) == Ordering::Less,
        severity_order(LogLevel::Warn, LogLevel::Error) == Ordering::Less,
{
}

/// Decoding the FFI code of any level gives that level back, and every code
/// outside 0-3 decodes to `Info`.
pub proof fn lemma_code_round_trip(level: LogLevel, raw: i32)
    ensures
        level_of_code(level_code(level)) == level,
        0 <= level_code(level) <= 3,
        !(0 <= raw <= 3) ==> level_of_code(raw) == LogLevel::Info,
        0 <= raw <= 3 ==> level_code(level_of_code(raw)) == raw,
{
}

/// Distinct levels render as distinct names.
pub proof fn lemma_names_distinct(a: LogLevel, b: LogLevel)
    ensures
        level_name(a) == level_name(b) <==> a == b,
{
    reveal_strlit("DEBUG");
    reveal_strlit("INFO");
    reveal_strlit("WARN");
    reveal_strlit("ERROR");
    if a != b {
        assert(level_name(a).len() != level_name(b).len() || level_name(a)[0] != level_name(
            b,
        )[0]);
    }
}

/// Optional handler receiving engine log lines.
///
/// Registering it routes the engine's internal logging here instead of its
/// default stderr logger. Called from engine runtime threads: implementations
/// must be fast and must not block.
pub trait LogHandler: Send + Sync + 'static {
    /// Receive one engine log line.
    fn log(&self, level: LogLevel, message: &str);
}

} // verus!
