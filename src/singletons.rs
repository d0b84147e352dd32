use vstd::prelude::*;

use once_cell::sync::OnceCell;

use crate::args::{resolved_log_level, resolves_to, Args, CliValues, Invocation};
use crate::config::{resolved_port, server_version_of, Config, FileRead};
use crate::error::Error;
use crate::version::{version_report_lines, BuildInfo};

verus! {

#[verifier::external_type_specification]
#[verifier::external_body]
#[verifier::reject_recursive_types(T)]
pub struct ExOnceCell<T>(OnceCell<T>);

/// What an arguments cell holds.
pub uninterp spec fn args_cell_value(c: OnceCell<Args>) -> Option<Args>;

/// What a configuration cell holds.
pub uninterp spec fn config_cell_value(c: OnceCell<Config>) -> Option<Config>;

/// A write-once cell: a value is taken only while the cell is empty.
pub open spec fn set_once<T>(cell: Option<T>, v: T) -> Option<T> {
    match cell {
        Some(old) => Some(old),
        None => Some(v),
    }
}

/// Relies on `once_cell::sync::OnceCell::new`: the cell starts empty.
#[verifier::external_body]
fn new_args_cell() -> (r: OnceCell<Args>)
    ensures
        args_cell_value(r) == None::<Args>,
{
    OnceCell::new()
}

/// Relies on `once_cell::sync::OnceCell::get`: the value, if the cell holds one.
#[verifier::external_body]
fn args_cell_get(c: &OnceCell<Args>) -> (r: Option<&Args>)
    ensures
        match r {
            Some(a) => args_cell_value(*c) == Some(*a),
            None => args_cell_value(*c) is None,
        },
{
    c.get()
}

/// Relies on `once_cell::sync::OnceCell::set`: an empty cell takes the value
/// and gives `Ok`; a full one keeps its value and hands the new one back.
#[verifier::external_body]
fn args_cell_set(c: &mut OnceCell<Args>, v: Args) -> (r: Result<(), Args>)
    ensures
        args_cell_value(*final(c)) == set_once(args_cell_value(*old(c)), v),
        args_cell_value(*old(c)) is None ==> r is Ok,
        args_cell_value(*old(c)) is Some ==> (r matches Err(w) && w == v),
{
    c.set(v)
}

/// Relies on `once_cell::sync::OnceCell::new`: the cell starts empty.
#[verifier::external_body]
fn new_config_cell() -> (r: OnceCell<Config>)
    ensures
        config_cell_value(r) == None::<Config>,
{
    OnceCell::new()
}

/// Relies on `once_cell::sync::OnceCell::get`: the value, if the cell holds one.
#[verifier::external_body]
fn config_cell_get(c: &OnceCell<Config>) -> (r: Option<&Config>)
    ensures
        match r {
            Some(a) => config_cell_value(*c) == Some(*a),
            None => config_cell_value(*c) is None,
        },
{
    c.get()
}

/// Relies on `once_cell::sync::OnceCell::set`: an empty cell takes the value
/// and gives `Ok`; a full one keeps its value and hands the new one back.
#[verifier::external_body]
fn config_cell_set(c: &mut OnceCell<Config>, v: Config) -> (r: Result<(), Config>)
    ensures
        config_cell_value(*final(c)) == set_once(config_cell_value(*old(c)), v),
        config_cell_value(*old(c)) is None ==> r is Ok,
        config_cell_value(*old(c)) is Some ==> (r matches Err(w) && w == v),
{
    c.set(v)
}

/// The process-wide values that are resolved once at startup and then only read.
pub struct Singletons {
    args: OnceCell<Args>,
    config: OnceCell<Config>,
}

impl Singletons {
    /// The resolved arguments, once they are set.
    pub closed spec fn args_value(&self) -> Option<Args> {
        args_cell_value(self.args)
    }

    /// The resolved configuration, once it is set.
    pub closed spec fn config_value(&self) -> Option<Config> {
        config_cell_value(self.config)
    }

    /// Both cells empty.
    pub fn new() -> (r: Singletons)
        ensures
            r.args_value() is None,
            r.config_value() is None,
    {
        Singletons { args: new_args_cell(), config: new_config_cell() }
    }
}

/// How startup goes on once the arguments are loaded.
#[derive(Clone, Debug)]
pub enum Startup {
    /// The arguments are set; go on to load the configuration.
    Continue,
    /// Print these lines and exit successfully; nothing was set.
    PrintVersion(Vec<String>),
}

impl Args {
    /// The arguments, once they are loaded.
    pub fn instance(s: &Singletons) -> (r: Option<&Args>)
        ensures
            match r {
                Some(a) => s.args_value() == Some(*a),
                None => s.args_value() is None,
            },
    {
        args_cell_get(&s.args)
    }

    /// Resolves the command line and, unless it asks for the version, sets
    /// the arguments cell. A cell that is already set is never replaced.
    pub fn load(s: &mut Singletons, cli: &CliValues, build: &BuildInfo) -> (r: Result<Startup, Error>)
        requires
            build.wf(),
        ensures
            final(s).config_value() == old(s).config_value(),
            resolved_log_level(*cli) is None ==> (r matches Err(e) && e == Error::InvalidLogLevel)
                && final(s).args_value() == old(s).args_value(),
            resolved_log_level(*cli) is Some && cli.version ==> final(s).args_value()
                == old(s).args_value() && (match r {
                Ok(Startup::PrintVersion(lines)) => lines@.map_values(|l: String| l@)
                    == version_report_lines(*build, cli.verbose),
                _ => false,
            }),
            resolved_log_level(*cli) is Some && !cli.version && old(s).args_value() is Some
                ==> (r matches Err(e) && e == Error::AlreadyInitialized)
                && final(s).args_value() == old(s).args_value(),
            resolved_log_level(*cli) is Some && !cli.version && old(s).args_value() is None
                ==> (r matches Ok(Startup::Continue) && (final(s).args_value() matches Some(a)
                && resolves_to(a, *cli))),
    {
        match Args::parse(cli, build) {
            Err(e) => Err(e),
            Ok(Invocation::PrintVersion(lines)) => Ok(Startup::PrintVersion(lines)),
            Ok(Invocation::Run(args)) => match args_cell_set(&mut s.args, args) {
                Ok(()) => Ok(Startup::Continue),
                Err(_) => Err(Error::AlreadyInitialized),
            },
        }
    }
}

impl Config {
    /// The configuration, once it is loaded.
    pub fn instance(s: &Singletons) -> (r: Option<&Config>)
        ensures
            match r {
                Some(c) => s.config_value() == Some(*c),
                None => s.config_value() is None,
            },
    {
        config_cell_get(&s.config)
    }

    /// Resolves the configuration from what the file gave and sets the
    /// configuration cell. A cell that is already set is never replaced.
    pub fn load(s: &mut Singletons, build: &BuildInfo, read: FileRead) -> (r: Result<(), Error>)
        requires
            build.wf(),
        ensures
            final(s).args_value() == old(s).args_value(),
            old(s).config_value() is Some ==> (r matches Err(e) && e == Error::AlreadyInitialized)
                && final(s).config_value() == old(s).config_value(),
            old(s).config_value() is None ==> (r is Ok && (final(s).config_value() matches Some(c)
                && c.port == resolved_port(read) && c.server_version@ == server_version_of(
                *build,
            ))),
    {
        match config_cell_set(&mut s.config, Config::from_file(build, read)) {
            Ok(()) => Ok(()),
            Err(_) => Err(Error::AlreadyInitialized),
        }
    }
}

/// A write-once cell keeps its first value: setting it again changes nothing.
pub proof fn lemma_set_once_keeps_first<T>(cell: Option<T>, first: T, second: T)
    ensures
        set_once(set_once(cell, first), second) == set_once(cell, first),
        cell is None ==> set_once(set_once(cell, first), second) == Some(first),
{
}

} // verus!
