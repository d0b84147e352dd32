use vstd::prelude::*;

use crate::version::{get_version, version_string, BuildInfo};

verus! {

/// The port the server listens on unless its configuration file says otherwise.
pub const DEFAULT_PORT: u16 = 3000;

/// The main server configuration.
#[derive(Clone, Debug)]
pub struct Config {
    /// The port to listen on; the one setting kept in the configuration file.
    pub port: u16,
    /// The version string of the running server. It is computed from the
    /// build and never read from or written to the file.
    pub server_version: String,
}

/// What became of reading and parsing the configuration file.
#[derive(Clone, Copy, Debug, PartialEq, Eq, Structural)]
pub enum FileRead {
    /// The file could not be read.
    Unreadable,
    /// The file was read, but it is no valid configuration document.
    Unparseable,
    /// The file parsed; a document without `port` gives the default port.
    Parsed { port: u16 },
}

/// The version string that every configuration carries.
pub open spec fn server_version_of(build: BuildInfo) -> Seq<char> {
    version_string(build, "server"@)
}

/// The port resolved from what the file gave: the file's port when it parsed,
/// the default port otherwise.
pub open spec fn resolved_port(read: FileRead) -> u16 {
    match read {
        FileRead::Parsed { port } => port,
        _ => DEFAULT_PORT,
    }
}

impl Config {
    /// The built-in defaults: port 3000 and this build's version string.
    pub fn default(build: &BuildInfo) -> (r: Config)
        requires
            build.wf(),
        ensures
            r.port == DEFAULT_PORT,
            r.server_version@ == server_version_of(*build),
    {
        Config { port: DEFAULT_PORT, server_version: get_version(build, "server") }
    }

    /// The configuration to write when the file is missing: the defaults. An
    /// existing file is never rewritten.
    pub fn file_to_create(build: &BuildInfo, exists: bool) -> (r: Option<Config>)
        requires
            build.wf(),
        ensures
            exists <==> r is None,
            match r {
                Some(c) => c.port == DEFAULT_PORT && c.server_version@ == server_version_of(*build),
                None => true,
            },
    {
        if exists {
            None
        } else {
            Some(Config::default(build))
        }
    }

    /// Lays the file's contents over the defaults. A parsed file replaces
    /// them wholesale; an unreadable or unparseable one leaves them in place.
    pub fn from_file(build: &BuildInfo, read: FileRead) -> (r: Config)
        requires
            build.wf(),
        ensures
            r.port == resolved_port(read),
            r.server_version@ == server_version_of(*build),
    {
        let mut config = Config::default(build);
        match read {
            FileRead::Parsed { port } => {
                config = Config { port, server_version: get_version(build, "server") };
            },
            FileRead::Unreadable | FileRead::Unparseable => {},
        }
        config
    }
}

/// A configuration file written from the defaults reads back as the defaults:
/// its port is the default port, and the version still comes from the build.
pub proof fn lemma_default_file_round_trip()
    ensures
        resolved_port(FileRead::Parsed { port: DEFAULT_PORT }) == DEFAULT_PORT,
        DEFAULT_PORT == 3000,
{
}

/// A file that cannot be read or parsed leaves the default port in place.
pub proof fn lemma_unusable_file_keeps_defaults(read: FileRead)
    requires
        read is Unreadable || read is Unparseable,
    ensures
        resolved_port(read) == DEFAULT_PORT,
{
}

} // verus!
