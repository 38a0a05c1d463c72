//! Arguments of the `pipelines` commands.

use vstd::prelude::*;

verus! {

/// Manage pipelines.
#[derive(Debug)]
pub enum PipelinesCommands {
    /// List pipelines with optional pagination
    List(PipelinesListArgs),
    /// Get a single pipeline by ID
    Get(PipelinesGetArgs),
    /// Create a new pipeline
    Create(PipelinesCreateArgs),
    /// Update an existing pipeline
    Update(PipelinesUpdateArgs),
    /// Delete a pipeline
    Delete(PipelinesDeleteArgs),
}

#[derive(Debug)]
pub struct PipelinesListArgs {
    /// Maximum number of results (default: 50)
    pub limit: u64,
    /// Pagination offset (default: 0)
    pub offset: u64,
    /// Auto-paginate to fetch all results (up to 1000)
    pub all: bool,
    /// Select specific fields (comma-separated)
    pub fields: Option<Vec<String>>,
    /// Expand relations (comma-separated)
    pub expand: Option<Vec<String>>,
}

#[derive(Debug)]
pub struct PipelinesGetArgs {
    /// Pipeline ID
    pub id: String,
    /// Select specific fields (comma-separated)
    pub fields: Option<Vec<String>>,
    /// Expand relations (comma-separated)
    pub expand: Option<Vec<String>>,
}

#[derive(Debug)]
pub struct PipelinesCreateArgs {
    /// Pipeline name (required)
    pub name: Option<String>,
    /// Set as default pipeline
    pub default: bool,
    /// Custom field (key=value, repeatable)
    pub custom_field: Vec<String>,
    /// Read JSON array from stdin for batch create
    pub stdin: bool,
}

#[derive(Debug)]
pub struct PipelinesUpdateArgs {
    /// Pipeline ID (required unless --stdin)
    pub id: Option<String>,
    /// Read JSON array from stdin for batch update
    pub stdin: bool,
    /// Pipeline name
    pub name: Option<String>,
    /// Set as default pipeline
    pub default: bool,
}

#[derive(Debug)]
pub struct PipelinesDeleteArgs {
    /// Pipeline ID(s) (required unless --stdin)
    pub ids: Vec<String>,
    /// Read JSON array of IDs from stdin for batch delete
    pub stdin: bool,
    /// Skip batch delete confirmation prompt (required in non-interactive mode)
    pub force: bool,
}

} // verus!
