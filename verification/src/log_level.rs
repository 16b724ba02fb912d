use vstd::prelude::*;

verus! {

/// Verbosity of the loader's console log, stored in the configuration file as
/// the numbers `0` (off) to `5` (trace).
#[derive(PartialEq, Eq, Structural, Debug, Clone, Copy)]
pub enum LogLevel {
    Off,
    Error,
    Warn,
    Info,
    Debug,
    Trace,
}

/// Name of the environment variable through which plugins learn the log level.
pub const LOG_LEVEL_ENV_VAR: &'static str = "CARDAMOM_LOG_LEVEL";

impl LogLevel {
    /// The number that stands for this level in the configuration file.
    pub open spec fn spec_repr(self) -> u8 {
        match self {
            LogLevel::Off => 0,
            LogLevel::Error => 1,
            LogLevel::Warn => 2,
            LogLevel::Info => 3,
            LogLevel::Debug => 4,
            LogLevel::Trace => 5,
        }
    }

    /// The level that a number of the configuration file stands for, if any.
    pub open spec fn spec_from_repr(n: u8) -> Option<LogLevel> {
        if n == 0 {
            Some(LogLevel::Off)
        } else if n == 1 {
            Some(LogLevel::Error)
        } else if n == 2 {
            Some(LogLevel::Warn)
        } else if n == 3 {
            Some(LogLevel::Info)
        } else if n == 4 {
            Some(LogLevel::Debug)
        } else if n == 5 {
            Some(LogLevel::Trace)
        } else {
            None
        }
    }

    /// The upper-case name under which the level is handed to plugins.
    pub open spec fn spec_name(self) -> Seq<char> {
        match self {
            LogLevel::Off => "OFF"@,
            LogLevel::Error => "ERROR"@,
            LogLevel::Warn => "WARN"@,
            LogLevel::Info => "INFO"@,
            LogLevel::Debug => "DEBUG"@,
            LogLevel::Trace => "TRACE"@,
        }
    }

    /// The upper-case name of the level.
    pub fn as_str(&self) -> (s: &'static str)
        ensures
            s@ == self.spec_name(),
    {
        match self {
            LogLevel::Off => "OFF",
            LogLevel::Error => "ERROR",
            LogLevel::Warn => "WARN",
            LogLevel::Info => "INFO",
            LogLevel::Debug => "DEBUG",
            LogLevel::Trace => "TRACE",
        }
    }

    /// The number written for this level in the configuration file.
    pub fn to_repr(self) -> (n: u8)
        ensures
            n == self.spec_repr(),
    {
        match self {
            LogLevel::Off => 0,
            LogLevel::Error => 1,
            LogLevel::Warn => 2,
            LogLevel::Info => 3,
            LogLevel::Debug => 4,
            LogLevel::Trace => 5,
        }
    }

    /// Reads a level from its number in the configuration file; numbers above
    /// `5` name no level.
    pub fn from_repr(n: u8) -> (r: Option<LogLevel>)
        ensures
            r == Self::spec_from_repr(n),
            r is None <==> n > 5,
            r matches Some(l) ==> l.spec_repr() == n,
    {
        match n {
            0 => Some(LogLevel::Off),
            1 => Some(LogLevel::Error),
            2 => Some(LogLevel::Warn),
            3 => Some(LogLevel::Info),
            4 => Some(LogLevel::Debug),
            5 => Some(LogLevel::Trace),
            _ => None,
        }
    }
}

impl Default for LogLevel {
    /// The default level is `Info`.
    fn default() -> (l: Self)
        ensures
            l == LogLevel::Info,
    {
        LogLevel::Info
    }
}

/// Reading back the number written for a level gives that level again.
pub proof fn lemma_repr_round_trip(l: LogLevel)
    ensures
        LogLevel::spec_from_repr(l.spec_repr()) == Some(l),
{
}

/// A number that names a level is the number written for that level.
pub proof fn lemma_from_repr_inverse(n: u8)
    ensures
        LogLevel::spec_from_repr(n) matches Some(l) ==> l.spec_repr() == n,
{
}

/// Distinct levels have distinct numbers and distinct names.
pub proof fn lemma_levels_distinct(a: LogLevel, b: LogLevel)
    requires
        a != b,
    ensures
        a.spec_repr() != b.spec_repr(),
        a.spec_name() != b.spec_name(),
{
    reveal_strlit("OFF");
    reveal_strlit("ERROR");
    reveal_strlit("WARN");
    reveal_strlit("INFO");
    reveal_strlit("DEBUG");
    reveal_strlit("TRACE");
    // Names of equal length already differ in their first letter.
    assert(a.spec_name().len() != b.spec_name().len() || a.spec_name()[0] != b.spec_name()[0]);
}

} // verus!
