//! Arguments of the `cache` commands.

use vstd::prelude::*;

verus! {

/// Cache management commands.
#[derive(Debug)]
pub enum CacheCommands {
    /// Remove all cached data
    Clear,
    /// Pre-populate cache with fresh data from the server
    Refresh,
}

} // verus!
