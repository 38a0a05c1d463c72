//! Arguments of the `init` commands.

use vstd::prelude::*;

verus! {

/// Arguments for the `init` subcommand.
#[derive(Debug)]
pub struct InitArgs {
    /// Server URL (prompted if not provided)
    pub url: Option<String>,
    /// API key (prompted if not provided)
    pub key: Option<String>,
}

} // verus!
