//! Arguments of the `workflows` commands.

use vstd::prelude::*;

verus! {

/// Manage workflows.
#[derive(Debug)]
pub enum WorkflowsCommands {
    /// List workflows with optional filtering and pagination
    List(WorkflowsListArgs),
    /// Get a single workflow by ID
    Get(WorkflowsGetArgs),
    /// Create a new workflow
    Create(WorkflowsCreateArgs),
    /// Update an existing workflow
    Update(WorkflowsUpdateArgs),
    /// Delete a workflow
    Delete(WorkflowsDeleteArgs),
    /// Trigger a workflow run
    Trigger(WorkflowsTriggerArgs),
}

#[derive(Debug)]
pub struct WorkflowsListArgs {
    /// Filter by active status (true or false)
    pub active: Option<bool>,
    /// Maximum number of results (default: 50)
    pub limit: u64,
    /// Pagination offset (default: 0)
    pub offset: u64,
    /// Auto-paginate to fetch all results (up to 1000)
    pub all: bool,
    /// Select specific fields (comma-separated)
    pub fields: Option<Vec<String>>,
    /// Expand relations (comma-separated)
    pub expand: Option<Vec<String>>,
}

#[derive(Debug)]
pub struct WorkflowsGetArgs {
    /// Workflow ID
    pub id: String,
    /// Select specific fields (comma-separated)
    pub fields: Option<Vec<String>>,
    /// Expand relations (comma-separated)
    pub expand: Option<Vec<String>>,
}

#[derive(Debug)]
pub struct WorkflowsCreateArgs {
    /// Workflow name (required)
    pub name: Option<String>,
    /// Workflow description
    pub description: Option<String>,
    /// [REMOVED v1.1] --active on create was a lie: the server always creates
    /// workflows inactive. Kept defined (hidden) so the handler can reject
    /// with the activation path (`workflows update <id> --active true`).
    pub active: Option<bool>,
    /// Triggers as JSON array string
    pub triggers: Option<String>,
    /// Nodes as JSON array string
    pub nodes: Option<String>,
    /// Read JSON from stdin for workflow creation
    pub stdin: bool,
}

#[derive(Debug)]
pub struct WorkflowsUpdateArgs {
    /// Workflow ID (required unless --stdin)
    pub id: Option<String>,
    /// Read JSON array from stdin for batch update
    pub stdin: bool,
    /// Workflow name
    pub name: Option<String>,
    /// Workflow description
    pub description: Option<String>,
    /// Set workflow active status
    pub active: Option<bool>,
    /// Triggers as JSON array string
    pub triggers: Option<String>,
    /// Nodes as JSON array string
    pub nodes: Option<String>,
}

#[derive(Debug)]
pub struct WorkflowsDeleteArgs {
    /// Workflow ID(s) (required unless --stdin)
    pub ids: Vec<String>,
    /// Read JSON array of IDs from stdin for batch delete
    pub stdin: bool,
    /// Skip confirmation prompt (required in non-interactive mode)
    pub force: bool,
}

#[derive(Debug)]
pub struct WorkflowsTriggerArgs {
    /// Workflow ID
    pub id: String,
    /// Optional JSON data (inline string or @filepath)
    pub data: Option<String>,
}

} // verus!
