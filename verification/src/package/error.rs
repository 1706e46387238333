//! What can go wrong when a configuration is read or written.

use crate::path::ComponentPath;
use vstd::prelude::*;

verus! {

/// Why a configuration could not be read.
#[derive(Debug)]
pub enum ConfigRead {
    /// There is no configuration file at this path.
    FileNotFound(ComponentPath),
    /// The file at `path` could not be read.
    Io { source: String, path: ComponentPath },
    /// The file does not hold a valid TOML configuration.
    Toml(String),
    /// The file does not hold a valid RON configuration.
    Ron(String),
}

/// Why a configuration could not be written.
#[derive(Debug)]
pub enum ConfigWrite {
    /// The file at `path` could not be written.
    Io { source: String, path: ComponentPath },
    /// The configuration could not be put into TOML.
    Toml(String),
}

} // verus!
