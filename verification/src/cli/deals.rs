//! Arguments of the `deals` commands.

use vstd::prelude::*;

verus! {

#[derive(Debug)]
pub enum DealsCommands {
    /// List deals with optional filtering and pagination
    List(DealsListArgs),
    /// Get a single deal by ID
    Get(DealsGetArgs),
    /// Create a new deal
    Create(DealsCreateArgs),
    /// Update an existing deal
    Update(DealsUpdateArgs),
    /// Delete a deal
    Delete(DealsDeleteArgs),
}

#[derive(Debug)]
pub struct DealsListArgs {
    /// Filter by stage ID
    pub stage: Option<String>,
    /// Filter by organization ID
    pub org: Option<String>,
    /// Filter by owner ID
    pub owner: Option<String>,
    /// Maximum number of results (default: 50)
    pub limit: u64,
    /// Pagination offset (default: 0)
    pub offset: u64,
    /// Auto-paginate to fetch all results (up to 1000)
    pub all: bool,
    /// Select specific fields (comma-separated)
    pub fields: Option<Vec<String>>,
    /// Expand relations (comma-separated)
    pub expand: Option<Vec<String>>,
}

#[derive(Debug)]
pub struct DealsGetArgs {
    /// Deal ID
    pub id: String,
    /// Select specific fields (comma-separated)
    pub fields: Option<Vec<String>>,
    /// Expand relations (comma-separated)
    pub expand: Option<Vec<String>>,
}

#[derive(Debug)]
pub struct DealsDeleteArgs {
    /// Deal ID(s) (required unless --stdin)
    pub ids: Vec<String>,
    /// Read JSON array of IDs from stdin for batch delete
    pub stdin: bool,
    /// Skip batch delete confirmation prompt (required in non-interactive mode)
    pub force: bool,
}

/// The arguments of `deals create`. `value` is the amount as given on the
/// command line (its decimal text); the handler's decisions read only
/// whether it is present.
#[derive(Debug)]
pub struct DealsCreateArgs {
    /// Deal title (required)
    pub title: Option<String>,
    /// Stage ID (required)
    pub stage: Option<String>,
    /// Deal value
    pub value: Option<String>,
    /// Organization ID
    pub org: Option<String>,
    /// Person ID
    pub person: Option<String>,
    /// Expected close date (YYYY-MM-DD)
    pub expected_close_date: Option<String>,
    /// Notes
    pub notes: Option<String>,
    /// Custom field (key=value, repeatable)
    pub custom_field: Vec<String>,
    /// Raw JSON object written verbatim as custom_fields
    pub custom_field_json: Option<String>,
    /// Read JSON array from stdin for batch create
    pub stdin: bool,
}

/// The arguments of `deals update`; `value` as in [`DealsCreateArgs`].
#[derive(Debug)]
pub struct DealsUpdateArgs {
    /// Deal ID (required unless --stdin)
    pub id: Option<String>,
    /// Read JSON array from stdin for batch update
    pub stdin: bool,
    /// Deal title
    pub title: Option<String>,
    /// Stage ID
    pub stage: Option<String>,
    /// Deal value
    pub value: Option<String>,
    /// Organization ID
    pub org: Option<String>,
    /// Person ID
    pub person: Option<String>,
    /// Expected close date (YYYY-MM-DD)
    pub expected_close_date: Option<String>,
    /// Notes
    pub notes: Option<String>,
    /// Custom field (key=value, repeatable)
    pub custom_field: Vec<String>,
    /// Raw JSON object written verbatim as custom_fields
    pub custom_field_json: Option<String>,
}

} // verus!
