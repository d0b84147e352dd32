use vstd::prelude::*;
use vstd::string::StringExecFns;

use crate::error::Error;
use crate::level::{token_level, LogLevel};
use crate::version::{version_report, version_report_lines, BuildInfo};

verus! {

/// The values the command line supplied, before any resolution.
#[derive(Clone, Debug)]
pub struct CliValues {
    /// `-V` / `--version`.
    pub version: bool,
    /// `-v` / `--verbose`.
    pub verbose: bool,
    /// `-c` / `--config-file`, where given.
    pub config_file: Option<String>,
    /// `-l` / `--log-level`, where given.
    pub log_level: Option<String>,
    /// `--log-dir`, where given.
    pub log_dir: Option<String>,
}

/// The resolved command-line arguments of the server.
#[derive(Clone, Debug)]
pub struct Args {
    /// Where the configuration file lives.
    pub config_file: String,
    /// The log level asked for; `None` leaves the choice to the logger.
    pub log_level: Option<LogLevel>,
    /// The directory that log files go to.
    pub log_dir: String,
}

/// What the process does after its command line is resolved.
#[derive(Clone, Debug)]
pub enum Invocation {
    /// Go on starting the server with these arguments.
    Run(Args),
    /// Print these lines and exit successfully.
    PrintVersion(Vec<String>),
}

/// The default configuration file path.
pub open spec fn default_config_file() -> Seq<char> {
    "inferno.toml"@
}

/// The default log directory.
pub open spec fn default_log_dir() -> Seq<char> {
    "logs"@
}

/// The log level the command line resolves to: `debug` under `--verbose`,
/// whatever `--log-level` says; otherwise the parsed `--log-level`, if any.
/// `None` when the token names no level.
pub open spec fn resolved_log_level(cli: CliValues) -> Option<Option<LogLevel>> {
    if cli.verbose {
        Some(Some(LogLevel::Debug))
    } else {
        match cli.log_level {
            None => Some(None),
            Some(s) => match token_level(s@) {
                Some(l) => Some(Some(l)),
                None => None,
            },
        }
    }
}

/// The arguments that a command line without version mode resolves to: the
/// given paths or their defaults, and the resolved log level.
pub open spec fn resolves_to(a: Args, cli: CliValues) -> bool {
    &&& a.config_file@ == path_or(cli.config_file, default_config_file())
    &&& a.log_dir@ == path_or(cli.log_dir, default_log_dir())
    &&& Some(a.log_level) == resolved_log_level(cli)
}

/// A path given on the command line, or the default.
pub open spec fn path_or(given: Option<String>, default: Seq<char>) -> Seq<char> {
    match given {
        Some(p) => p@,
        None => default,
    }
}

/// `--verbose` sets the log level to `debug`, whatever `--log-level` says.
pub proof fn lemma_verbose_wins(cli: CliValues, other_level: Option<String>)
    requires
        cli.verbose,
    ensures
        resolved_log_level(cli) == Some(Some(LogLevel::Debug)),
        resolved_log_level(CliValues { log_level: other_level, ..cli }) == resolved_log_level(cli),
{
}

impl Default for Args {
    fn default() -> (r: Args)
        ensures
            r.config_file@ == default_config_file(),
            r.log_level == None::<LogLevel>,
            r.log_dir@ == default_log_dir(),
    {
        Args {
            config_file: String::from_str("inferno.toml"),
            log_level: None,
            log_dir: String::from_str("logs"),
        }
    }
}

fn path_or_default(given: &Option<String>, default: &str) -> (r: String)
    ensures
        r@ == path_or(*given, default@),
{
    match given {
        Some(p) => p.clone(),
        None => String::from_str(default),
    }
}

impl Args {
    /// Resolves the command line. An unknown log level token is an error;
    /// otherwise version mode yields the lines to print, and any other
    /// invocation yields the arguments: the given paths or their defaults,
    /// and the resolved log level.
    pub fn parse(cli: &CliValues, build: &BuildInfo) -> (r: Result<Invocation, Error>)
        requires
            build.wf(),
        ensures
            resolved_log_level(*cli) is None <==> (r matches Err(e) && e == Error::InvalidLogLevel),
            resolved_log_level(*cli) is Some && cli.version ==> (match r {
                Ok(Invocation::PrintVersion(lines)) => lines@.map_values(|s: String| s@)
                    == version_report_lines(*build, cli.verbose),
                _ => false,
            }),
            resolved_log_level(*cli) is Some && !cli.version ==> (match r {
                Ok(Invocation::Run(a)) => resolves_to(a, *cli),
                _ => false,
            }),
    {
        let log_level = if cli.verbose {
            Some(LogLevel::Debug)
        } else {
            match &cli.log_level {
                None => None,
                Some(s) => match LogLevel::from_token(s.as_str()) {
                    Some(l) => Some(l),
                    None => {
                        return Err(Error::InvalidLogLevel);
                    },
                },
            }
        };
        if cli.version {
            return Ok(Invocation::PrintVersion(version_report(build, cli.verbose)));
        }
        Ok(
            Invocation::Run(
                Args {
                    config_file: path_or_default(&cli.config_file, "inferno.toml"),
                    log_level,
                    log_dir: path_or_default(&cli.log_dir, "logs"),
                },
            ),
        )
    }
}

} // verus!
