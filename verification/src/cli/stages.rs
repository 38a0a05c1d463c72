//! Arguments of the `stages` commands.

use vstd::prelude::*;

verus! {

/// Manage stages in a pipeline.
#[derive(Debug)]
pub enum StagesCommands {
    /// List stages for a pipeline
    List(StagesListArgs),
    /// Get a single stage by ID
    Get(StagesGetArgs),
    /// Create a new stage
    Create(StagesCreateArgs),
    /// Update an existing stage
    Update(StagesUpdateArgs),
    /// Delete a stage
    Delete(StagesDeleteArgs),
}

#[derive(Debug)]
pub struct StagesListArgs {
    /// Pipeline ID (required)
    pub pipeline: Option<String>,
    /// Maximum number of results (default: 50)
    pub limit: u64,
    /// Pagination offset (default: 0)
    pub offset: u64,
    /// Auto-paginate to fetch all results (up to 1000)
    pub all: bool,
    /// Select specific fields (comma-separated)
    pub fields: Option<Vec<String>>,
    /// Expand relations (comma-separated)
    pub expand: Option<Vec<String>>,
}

#[derive(Debug)]
pub struct StagesGetArgs {
    /// Stage ID
    pub id: String,
    /// Select specific fields (comma-separated)
    pub fields: Option<Vec<String>>,
    /// Expand relations (comma-separated)
    pub expand: Option<Vec<String>>,
}

#[derive(Debug)]
pub struct StagesCreateArgs {
    /// Stage name (required)
    pub name: Option<String>,
    /// Pipeline ID (required)
    pub pipeline: Option<String>,
    /// Stage color (hex)
    pub color: Option<String>,
    /// Stage type (open, won, lost)
    pub stage_type: Option<String>,
    /// Stage description
    pub description: Option<String>,
    /// Custom field (key=value, repeatable)
    pub custom_field: Vec<String>,
    /// Read JSON array from stdin for batch create
    pub stdin: bool,
}

#[derive(Debug)]
pub struct StagesUpdateArgs {
    /// Stage ID (required unless --stdin)
    pub id: Option<String>,
    /// Read JSON array from stdin for batch update
    pub stdin: bool,
    /// Stage name
    pub name: Option<String>,
    /// Stage color (hex)
    pub color: Option<String>,
    /// Stage type (open, won, lost)
    pub stage_type: Option<String>,
    /// Stage description
    pub description: Option<String>,
}

#[derive(Debug)]
pub struct StagesDeleteArgs {
    /// Stage ID(s) (required unless --stdin)
    pub ids: Vec<String>,
    /// Read JSON array of IDs from stdin for batch delete
    pub stdin: bool,
    /// Skip batch delete confirmation prompt (required in non-interactive mode)
    pub force: bool,
}

} // verus!
