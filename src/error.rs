use vstd::prelude::*;

verus! {

/// Everything that can go wrong while the server bootstraps.
#[derive(Clone, Copy, Debug, PartialEq, Eq, Structural)]
pub enum Error {
    /// A write-once cell was asked to take a second value.
    AlreadyInitialized,
    /// A log level token that names no level.
    InvalidLogLevel,
}

} // verus!
