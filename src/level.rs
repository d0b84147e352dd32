use vstd::prelude::*;

verus! {

/// How much the server logs, from the most to the least verbose.
#[derive(Clone, Copy, Debug, PartialEq, Eq, Structural)]
pub enum LogLevel {
    Trace,
    Debug,
    Info,
    Warn,
    Error,
}

/// The lower-case name of each level, as it is written on the command line.
pub open spec fn level_name(l: LogLevel) -> Seq<char> {
    match l {
        LogLevel::Trace => "trace"@,
        LogLevel::Debug => "debug"@,
        LogLevel::Info => "info"@,
        LogLevel::Warn => "warn"@,
        LogLevel::Error => "error"@,
    }
}

/// What `tracing::Level`'s `FromStr` makes of a token.
pub uninterp spec fn level_parsed(s: Seq<char>) -> Option<LogLevel>;

/// Relies on `<tracing::Level as FromStr>::from_str`: each of the five
/// lower-case level names parses to that level; the result depends on the
/// token alone.
#[verifier::external_body]
pub(crate) fn parse_level(s: &str) -> (r: Option<LogLevel>)
    ensures
        r == level_parsed(s@),
        forall|l: LogLevel| level_name(l) == s@ ==> r == Some(l),
{
    s.parse::<tracing::Level>().ok().map(|l| match l {
        tracing::Level::TRACE => LogLevel::Trace,
        tracing::Level::DEBUG => LogLevel::Debug,
        tracing::Level::INFO => LogLevel::Info,
        tracing::Level::WARN => LogLevel::Warn,
        _ => LogLevel::Error,
    })
}

/// The level a command-line token names: each lower-case level name gives
/// its level; any other token gives what `tracing` makes of it.
pub open spec fn token_level(s: Seq<char>) -> Option<LogLevel> {
    if s == level_name(LogLevel::Trace) {
        Some(LogLevel::Trace)
    } else if s == level_name(LogLevel::Debug) {
        Some(LogLevel::Debug)
    } else if s == level_name(LogLevel::Info) {
        Some(LogLevel::Info)
    } else if s == level_name(LogLevel::Warn) {
        Some(LogLevel::Warn)
    } else if s == level_name(LogLevel::Error) {
        Some(LogLevel::Error)
    } else {
        level_parsed(s)
    }
}

impl LogLevel {
    /// The level a command-line token names, or `None` if it names none.
    pub fn from_token(s: &str) -> (r: Option<LogLevel>)
        ensures
            r == token_level(s@),
    {
        let r = parse_level(s);
        assert(level_name(LogLevel::Trace) == s@ ==> r == Some(LogLevel::Trace));
        assert(level_name(LogLevel::Debug) == s@ ==> r == Some(LogLevel::Debug));
        assert(level_name(LogLevel::Info) == s@ ==> r == Some(LogLevel::Info));
        assert(level_name(LogLevel::Warn) == s@ ==> r == Some(LogLevel::Warn));
        assert(level_name(LogLevel::Error) == s@ ==> r == Some(LogLevel::Error));
        r
    }
}

} // verus!
