//! What can be wrong with a configuration.

use vstd::prelude::*;

verus! {

/// A configuration that the daemon cannot start with.
#[derive(Clone, Copy, Debug, PartialEq, Eq, Structural)]
pub enum ConfigError {
    /// The interval between two checks is zero.
    ZeroCheckInterval,
    /// The suspend command names no program.
    EmptyCommand,
}

} // verus!
