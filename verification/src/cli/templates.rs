//! Arguments of the `templates` commands.

use vstd::prelude::*;

verus! {

/// Manage workflow templates.
#[derive(Debug)]
pub enum TemplatesCommands {
    /// List workflow templates
    List(TemplatesListArgs),
    /// Get a single workflow template by ID
    Get(TemplatesGetArgs),
    /// Create a workflow template from a workflow snapshot or raw JSON
    ///
    /// The trigger is resolved from EXACTLY ONE source: --workflow (snapshot
    /// its first trigger + nodes), --trigger (inline JSON object), or
    /// --stdin (raw JSON body, full control).
    Create(TemplatesCreateArgs),
    /// Delete a workflow template (irreversible — templates are global)
    Delete(TemplatesDeleteArgs),
    /// [SERVER] No update route exists — delete and recreate to change a template.
    Update(TemplatesUpdateArgs),
}

#[derive(Debug)]
pub struct TemplatesListArgs {
    /// Maximum number of results (default: 50)
    pub limit: u64,
    /// Pagination offset (default: 0)
    pub offset: u64,
    /// Select specific fields (comma-separated)
    pub fields: Option<Vec<String>>,
}

#[derive(Debug)]
pub struct TemplatesGetArgs {
    /// Template ID
    pub id: String,
    /// Select specific fields (comma-separated)
    pub fields: Option<Vec<String>>,
}

#[derive(Debug)]
pub struct TemplatesCreateArgs {
    /// Template name (required unless --stdin; prompted on a TTY)
    pub name: Option<String>,
    /// Snapshot this workflow: trigger = its first trigger, nodes = its nodes
    /// (a warning fires when the workflow has multiple triggers — only the
    /// first is captured)
    pub workflow: Option<String>,
    /// Template description
    pub description: Option<String>,
    /// Template category
    pub category: Option<String>,
    /// Trigger object as a raw JSON string (escape hatch when not
    /// snapshotting a workflow)
    pub trigger: Option<String>,
    /// Nodes as a raw JSON array string (requires --trigger; rejected with
    /// --workflow, which snapshots the workflow's own nodes)
    pub nodes: Option<String>,
    /// Read a raw JSON template body from stdin (full control, verbatim)
    pub stdin: bool,
}

#[derive(Debug)]
pub struct TemplatesDeleteArgs {
    /// Template ID(s) (required unless --stdin)
    pub ids: Vec<String>,
    /// Read JSON array of IDs from stdin for batch delete
    pub stdin: bool,
    /// Skip confirmation prompt (required in non-interactive mode)
    pub force: bool,
}

/// Permissive args for the hidden `templates update` variant: any invocation
/// parses so the handler can reject it with the locked hint BEFORE any HTTP
/// (parsed, then rejected — the server exposes no update route).
#[derive(Debug)]
pub struct TemplatesUpdateArgs {
    /// Template ID (parsed permissively — the command always rejects)
    pub id: Option<String>,
    /// Template name (parsed permissively — the command always rejects)
    pub name: Option<String>,
    /// Template description (parsed permissively — the command always rejects)
    pub description: Option<String>,
    /// Template category (parsed permissively — the command always rejects)
    pub category: Option<String>,
}

} // verus!
