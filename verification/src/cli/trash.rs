//! Arguments of the `trash` commands.

use vstd::prelude::*;

verus! {

/// Manage the trash (soft-deleted records): list, restore, purge.
#[derive(Debug)]
pub enum TrashCommands {
    /// List trashed records
    List(TrashListArgs),
}

#[derive(Debug)]
pub struct TrashListArgs {
    /// Filter by record type — deal/deals, organization/orgs/organizations,
    /// person/people, activity/activities. Omit for the server default
    /// (the deals tab).
    pub trash_type: Option<String>,
    /// Maximum rows per page (default: 50; server caps pages at 100)
    pub limit: u64,
    /// Pagination offset (default: 0)
    pub offset: u64,
    /// Fetch every page of the selected tab (stops at the server's
    /// 10,000-offset cap)
    pub all: bool,
    /// Select specific fields (comma-separated)
    pub fields: Option<Vec<String>>,
}

} // verus!
