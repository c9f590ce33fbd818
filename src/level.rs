use vstd::prelude::*;

verus! {

/// Logging levels according to SysLog.
#[derive(Clone, Copy, Debug, PartialEq, Eq, Structural)]
pub enum DataDogLogLevel {
    /// Emergency level
    Emergency,
    /// Alert level
    Alert,
    /// Critical level
    Critical,
    /// Error level
    Error,
    /// Warning level
    Warning,
    /// Notice level
    Notice,
    /// Informational level
    Informational,
    /// Debug level
    Debug,
}

/// The string DataDog understands for each level.
pub open spec fn level_text(level: DataDogLogLevel) -> Seq<char> {
    match level {
        DataDogLogLevel::Emergency => "emerg"@,
        DataDogLogLevel::Alert => "alert"@,
        DataDogLogLevel::Critical => "crit"@,
        DataDogLogLevel::Error => "err"@,
        DataDogLogLevel::Warning => "warning"@,
        DataDogLogLevel::Notice => "notice"@,
        DataDogLogLevel::Informational => "info"@,
        DataDogLogLevel::Debug => "debug"@,
    }
}

impl DataDogLogLevel {
    /// The level as DataDog spells it (`err`, `warning`, `info`, ...).
    pub fn to_string(&self) -> (r: String)
        ensures
            r@ == level_text(*self),
    {
        match self {
            DataDogLogLevel::Emergency => String::from_str("emerg"),
            DataDogLogLevel::Alert => String::from_str("alert"),
            DataDogLogLevel::Critical => String::from_str("crit"),
            DataDogLogLevel::Error => String::from_str("err"),
            DataDogLogLevel::Warning => String::from_str("warning"),
            DataDogLogLevel::Notice => String::from_str("notice"),
            DataDogLogLevel::Informational => String::from_str("info"),
            DataDogLogLevel::Debug => String::from_str("debug"),
        }
    }
}

} // verus!
