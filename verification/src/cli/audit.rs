//! Arguments of the `audit` commands.

use vstd::prelude::*;

verus! {

/// Inspect the audit log (who changed what) — read-only, admin-gated.
#[derive(Debug)]
pub enum AuditCommands {
    /// List audit log entries (newest first)
    List(AuditListArgs),
}

#[derive(Debug)]
pub struct AuditListArgs {
    /// Filter by entity type — one of organization, person, deal, activity,
    /// import_session, export. Passed through verbatim: the server
    /// validates the value and 422s invalid ones.
    pub entity_type: Option<String>,
    /// Filter by entity ID (from `--format json` output)
    pub entity_id: Option<String>,
    /// Filter by actor kind — one of user, workflow_run, api_key, import,
    /// system. Passed through verbatim: the server validates the value.
    pub actor_kind: Option<String>,
    /// Filter by workflow run ID
    pub workflow_run_id: Option<String>,
    /// Maximum entries per page (default: 50; clamped to the server's
    /// 1..=100 range)
    pub limit: u64,
    /// Pagination offset (default: 0)
    pub offset: u64,
    /// Select specific fields (comma-separated)
    pub fields: Option<Vec<String>>,
}

} // verus!
