//! Arguments of the `people` commands.

use vstd::prelude::*;

verus! {

/// Manage people in your CRM.
#[derive(Debug)]
pub enum PeopleCommands {
    /// List people with optional filtering and pagination
    List(PeopleListArgs),
    /// Get a single person by ID
    Get(PeopleGetArgs),
    /// Create a new person
    Create(PeopleCreateArgs),
    /// Update an existing person
    Update(PeopleUpdateArgs),
    /// Delete a person
    Delete(PeopleDeleteArgs),
}

#[derive(Debug)]
pub struct PeopleListArgs {
    /// [REMOVED v1.1] --org was dead: the server ignores it and returns
    /// unfiltered data. Kept defined (hidden) so the handler can reject
    /// with a replacement hint instead of a silent no-op.
    pub org: Option<String>,
    /// [REMOVED v1.1] --owner was dead: the server ignores it and returns
    /// unfiltered data. Kept defined (hidden) so the handler can reject
    /// with a replacement hint instead of a silent no-op.
    pub owner: Option<String>,
    /// Maximum number of results (default: 50)
    pub limit: u64,
    /// Pagination offset (default: 0)
    pub offset: u64,
    /// Auto-paginate to fetch all results (up to 1000)
    pub all: bool,
    /// Select specific fields (comma-separated)
    pub fields: Option<Vec<String>>,
    /// Expand relations (comma-separated)
    pub expand: Option<Vec<String>>,
}

#[derive(Debug)]
pub struct PeopleGetArgs {
    /// Person ID
    pub id: String,
    /// Select specific fields (comma-separated)
    pub fields: Option<Vec<String>>,
    /// Expand relations (comma-separated)
    pub expand: Option<Vec<String>>,
}

#[derive(Debug)]
pub struct PeopleCreateArgs {
    /// First name (required)
    pub first_name: Option<String>,
    /// Last name (required)
    pub last_name: Option<String>,
    /// Email address
    pub email: Option<String>,
    /// Phone number
    pub phone: Option<String>,
    /// Notes
    pub notes: Option<String>,
    /// Organization ID
    pub org: Option<String>,
    /// Custom field (key=value, repeatable)
    pub custom_field: Vec<String>,
    /// Raw JSON object written verbatim as custom_fields — bypasses type
    /// inference; mutually exclusive with --custom-field and --stdin
    pub custom_field_json: Option<String>,
    /// Read JSON array from stdin for batch create
    pub stdin: bool,
}

#[derive(Debug)]
pub struct PeopleUpdateArgs {
    /// Person ID (required unless --stdin)
    pub id: Option<String>,
    /// Read JSON array from stdin for batch update
    pub stdin: bool,
    /// First name
    pub first_name: Option<String>,
    /// Last name
    pub last_name: Option<String>,
    /// Email address
    pub email: Option<String>,
    /// Phone number
    pub phone: Option<String>,
    /// Notes
    pub notes: Option<String>,
    /// Organization ID
    pub org: Option<String>,
    /// Custom field (key=value, repeatable)
    pub custom_field: Vec<String>,
    /// Raw JSON object written verbatim as custom_fields — bypasses type
    /// inference; mutually exclusive with --custom-field and --stdin
    pub custom_field_json: Option<String>,
}

#[derive(Debug)]
pub struct PeopleDeleteArgs {
    /// Person ID(s) (required unless --stdin)
    pub ids: Vec<String>,
    /// Read JSON array of IDs from stdin for batch delete
    pub stdin: bool,
    /// Skip batch delete confirmation prompt (required in non-interactive mode)
    pub force: bool,
}

} // verus!
