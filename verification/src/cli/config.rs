//! Arguments of the `config` commands.

use vstd::prelude::*;

verus! {

/// Configuration management subcommands.
#[derive(Debug)]
pub enum ConfigCommands {
    /// Display current configuration
    Show,
    /// Set a configuration value
    SetValue {
        /// Configuration key (dotted path, e.g., output.format)
        key: String,
        /// Value to set
        value: String,
    },
    /// Get a configuration value
    Get {
        /// Configuration key (dotted path)
        key: String,
    },
}

} // verus!
