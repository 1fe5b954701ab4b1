//! The ways in which reading or writing the configuration file fails.

use vstd::prelude::*;

verus! {

/// Why the configuration file could not be read or written.
#[derive(Debug)]
pub enum ConfigError {
    /// The file could not be opened, read or written; the text says why.
    Io(String),
    /// The file's content is not a configuration document.
    Parse(serde_yaml::Error),
}

} // verus!
