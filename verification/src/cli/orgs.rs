//! Arguments of the `orgs` commands.

use vstd::prelude::*;

verus! {

/// Manage organizations in your CRM.
#[derive(Debug)]
pub enum OrgsCommands {
    /// List organizations with optional filtering and pagination
    List(OrgsListArgs),
    /// Get a single organization by ID
    Get(OrgsGetArgs),
    /// Create a new organization
    Create(OrgsCreateArgs),
    /// Update an existing organization
    Update(OrgsUpdateArgs),
    /// Delete an organization
    Delete(OrgsDeleteArgs),
}

#[derive(Debug)]
pub struct OrgsListArgs {
    /// Filter by owner ID
    pub owner: Option<String>,
    /// Maximum number of results (default: 50)
    pub limit: u64,
    /// Pagination offset (default: 0)
    pub offset: u64,
    /// Auto-paginate to fetch all results (up to 1000)
    pub all: bool,
    /// Select specific fields (comma-separated)
    pub fields: Option<Vec<String>>,
    /// Expand relations (comma-separated)
    pub expand: Option<Vec<String>>,
}

#[derive(Debug)]
pub struct OrgsGetArgs {
    /// Organization ID
    pub id: String,
    /// Select specific fields (comma-separated)
    pub fields: Option<Vec<String>>,
    /// Expand relations (comma-separated)
    pub expand: Option<Vec<String>>,
}

#[derive(Debug)]
pub struct OrgsCreateArgs {
    /// Organization name (required)
    pub name: Option<String>,
    /// Website URL
    pub website: Option<String>,
    /// Industry
    pub industry: Option<String>,
    /// Notes
    pub notes: Option<String>,
    /// Custom field (key=value, repeatable)
    pub custom_field: Vec<String>,
    /// Read JSON array from stdin for batch create
    pub stdin: bool,
}

#[derive(Debug)]
pub struct OrgsUpdateArgs {
    /// Organization ID
    pub id: String,
    /// Organization name
    pub name: Option<String>,
    /// Website URL
    pub website: Option<String>,
    /// Industry
    pub industry: Option<String>,
    /// Notes
    pub notes: Option<String>,
    /// Custom field (key=value, repeatable)
    pub custom_field: Vec<String>,
}

#[derive(Debug)]
pub struct OrgsDeleteArgs {
    /// Organization ID
    pub id: String,
}

} // verus!
