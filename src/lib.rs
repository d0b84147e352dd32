//! Process bootstrap for the inferno server: build metadata and version
//! strings, command-line resolution, layered configuration, and the
//! write-once cells that hold the resolved values for the process lifetime.

pub mod args;
pub mod config;
pub mod error;
pub mod level;
pub mod singletons;
pub mod version;

pub use args::Args;
pub use config::Config;
pub use error::Error;
pub use version::get_version;
