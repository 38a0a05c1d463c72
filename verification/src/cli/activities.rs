//! Arguments of the `activities` commands.

use vstd::prelude::*;

verus! {

/// Manage activities in your CRM.
#[derive(Debug)]
pub enum ActivitiesCommands {
    /// List activities with optional filtering and pagination
    List(ActivitiesListArgs),
    /// Get a single activity by ID
    Get(ActivitiesGetArgs),
    /// Create a new activity
    Create(ActivitiesCreateArgs),
    /// Update an existing activity
    Update(ActivitiesUpdateArgs),
    /// Delete an activity
    Delete(ActivitiesDeleteArgs),
}

#[derive(Debug)]
pub struct ActivitiesListArgs {
    /// Filter by activity type ID
    pub type_id: Option<String>,
    /// Filter by deal ID
    pub deal: Option<String>,
    /// Filter by owner ID
    pub owner: Option<String>,
    /// Show only completed activities
    pub done: bool,
    /// Maximum number of results (default: 50)
    pub limit: u64,
    /// Pagination offset (default: 0)
    pub offset: u64,
    /// Auto-paginate to fetch all results (up to 1000)
    pub all: bool,
    /// Select specific fields (comma-separated)
    pub fields: Option<Vec<String>>,
    /// Expand relations (comma-separated)
    pub expand: Option<Vec<String>>,
}

#[derive(Debug)]
pub struct ActivitiesGetArgs {
    /// Activity ID
    pub id: String,
    /// Select specific fields (comma-separated)
    pub fields: Option<Vec<String>>,
    /// Expand relations (comma-separated)
    pub expand: Option<Vec<String>>,
}

#[derive(Debug)]
pub struct ActivitiesCreateArgs {
    /// Activity title (required)
    pub title: Option<String>,
    /// Activity type ID (required)
    pub type_id: Option<String>,
    /// Deal ID
    pub deal: Option<String>,
    /// Due date/time (ISO format)
    pub due_at: Option<String>,
    /// Notes
    pub notes: Option<String>,
    /// Custom field (key=value, repeatable)
    pub custom_field: Vec<String>,
    /// Raw JSON object written verbatim as custom_fields — bypasses type
    /// inference; mutually exclusive with --custom-field and --stdin
    pub custom_field_json: Option<String>,
    /// Read JSON array from stdin for batch create
    pub stdin: bool,
}

#[derive(Debug)]
pub struct ActivitiesUpdateArgs {
    /// Activity ID (required unless --stdin)
    pub id: Option<String>,
    /// Read JSON array from stdin for batch update
    pub stdin: bool,
    /// Activity title
    pub title: Option<String>,
    /// Activity type ID
    pub type_id: Option<String>,
    /// Deal ID
    pub deal: Option<String>,
    /// Due date/time (ISO format)
    pub due_at: Option<String>,
    /// Notes
    pub notes: Option<String>,
    /// Custom field (key=value, repeatable)
    pub custom_field: Vec<String>,
    /// Raw JSON object written verbatim as custom_fields — bypasses type
    /// inference; mutually exclusive with --custom-field and --stdin
    pub custom_field_json: Option<String>,
    /// Set completed_at to a specific datetime (ISO format)
    pub completed_at: Option<String>,
    /// Mark activity as done (sets completed_at to current time)
    pub mark_done: bool,
    /// Mark activity as not done (clears completed_at)
    pub mark_undone: bool,
}

#[derive(Debug)]
pub struct ActivitiesDeleteArgs {
    /// Activity ID(s) (required unless --stdin)
    pub ids: Vec<String>,
    /// Read JSON array of IDs from stdin for batch delete
    pub stdin: bool,
    /// Skip batch delete confirmation prompt (required in non-interactive mode)
    pub force: bool,
}

} // verus!
