//! Arguments of the `webhooks` commands.

use vstd::prelude::*;

verus! {

/// Manage webhooks (outbound CRM event delivery to external automations).
#[derive(Debug)]
pub enum WebhooksCommands {
    /// List webhooks owned by your API key
    List(WebhooksListArgs),
    /// Get a single webhook by ID
    Get(WebhooksGetArgs),
    /// Create a webhook (the signing secret is shown exactly once — save it)
    Create(WebhooksCreateArgs),
}

#[derive(Debug)]
pub struct WebhooksListArgs {
    /// Maximum number of webhooks (default: 50; server caps pages at 100)
    pub limit: u64,
    /// Pagination offset (default: 0)
    pub offset: u64,
    /// Select specific fields (comma-separated)
    pub fields: Option<Vec<String>>,
}

#[derive(Debug)]
pub struct WebhooksGetArgs {
    /// Webhook ID (from `webhooks list`)
    pub id: String,
    /// Select specific fields (comma-separated)
    pub fields: Option<Vec<String>>,
}

#[derive(Debug)]
pub struct WebhooksCreateArgs {
    /// Webhook endpoint URL — must be https:// (the server rejects plain HTTP)
    pub url: Option<String>,
    /// Comma-separated event names to subscribe (e.g. deal.created,deal.updated)
    pub events: Option<Vec<String>>,
    /// Read a raw JSON body from stdin (full control, verbatim)
    pub stdin: bool,
}

} // verus!
