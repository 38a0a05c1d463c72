//! `pipelite audit list`: the page size sent to the server, and the
//! actor and entity cells of the table.

use vstd::prelude::*;

use crate::text::{concat3, owned, truncate_spec, truncate_with_ellipsis};

verus! {

/// The smallest page size the server accepts.
pub const MIN_LIMIT: u64 = 1;

/// The largest page size the server accepts.
pub const MAX_LIMIT: u64 = 100;

/// The page size the server uses for a requested `--limit`: the value
/// clamped into 1..=100.
pub open spec fn effective_limit_spec(limit: u64) -> u64 {
    if limit < MIN_LIMIT {
        MIN_LIMIT
    } else if limit > MAX_LIMIT {
        MAX_LIMIT
    } else {
        limit
    }
}

/// The page size actually requested: `--limit` clamped into 1..=100, so
/// the request carries the value the server will use.
pub fn effective_limit(limit: u64) -> (r: u64)
    ensures
        r == effective_limit_spec(limit),
        MIN_LIMIT <= r <= MAX_LIMIT,
{
    if limit < MIN_LIMIT {
        MIN_LIMIT
    } else if limit > MAX_LIMIT {
        MAX_LIMIT
    } else {
        limit
    }
}

/// Clamping is idempotent, and keeps every limit the server accepts as it
/// is: sending the effective value asks the server for exactly that.
pub proof fn lemma_effective_limit_is_a_clamp(limit: u64)
    ensures
        effective_limit_spec(effective_limit_spec(limit)) == effective_limit_spec(limit),
        MIN_LIMIT <= limit <= MAX_LIMIT ==> effective_limit_spec(limit) == limit,
{
}

/// The actor of an entry: its kind, followed by ` ({id})` for the first
/// id present among the user, the workflow run and the import session.
pub open spec fn actor_text_spec(
    actor_kind: Seq<char>,
    actor_user_id: Option<Seq<char>>,
    workflow_run_id: Option<Seq<char>>,
    import_session_id: Option<Seq<char>>,
) -> Seq<char> {
    let id = match actor_user_id {
        Some(u) => Some(u),
        None => match workflow_run_id {
            Some(r) => Some(r),
            None => import_session_id,
        },
    };
    match id {
        Some(i) => actor_kind + " ("@ + i + ")"@,
        None => actor_kind,
    }
}

/// The text of an optional string.
pub open spec fn opt_text(v: Option<String>) -> Option<Seq<char>> {
    match v {
        Some(s) => Some(s@),
        None => None,
    }
}

/// Renders the actor cell of an audit entry (before the table truncates
/// it).
pub fn actor_text(
    actor_kind: &str,
    actor_user_id: &Option<String>,
    workflow_run_id: &Option<String>,
    import_session_id: &Option<String>,
) -> (r: String)
    ensures
        r@ == actor_text_spec(
            actor_kind@,
            opt_text(*actor_user_id),
            opt_text(*workflow_run_id),
            opt_text(*import_session_id),
        ),
{
    let id: Option<&String> = match actor_user_id {
        Some(u) => Some(u),
        None => match workflow_run_id {
            Some(r) => Some(r),
            None => match import_session_id {
                Some(i) => Some(i),
                None => None,
            },
        },
    };
    match id {
        Some(i) => {
            let mut r = concat3(actor_kind, " (", i.as_str());
            r.append(")");
            r
        },
        None => owned(actor_kind),
    }
}

/// Renders the entity cell of an audit entry: `{entity_type}/{entity_id}`.
pub fn entity_text(entity_type: &str, entity_id: &str) -> (r: String)
    ensures
        r@ == entity_type@ + "/"@ + entity_id@,
{
    concat3(entity_type, "/", entity_id)
}

/// The width of the actor and entity cells in the audit table.
pub const AUDIT_CELL_WIDTH: usize = 40;

/// The actor cell of an audit entry in the table, shortened to 40
/// characters (`--format json` keeps every id field in full).
pub fn actor_cell(
    actor_kind: &str,
    actor_user_id: &Option<String>,
    workflow_run_id: &Option<String>,
    import_session_id: &Option<String>,
) -> (r: String)
    ensures
        r@ == truncate_spec(
            actor_text_spec(
                actor_kind@,
                opt_text(*actor_user_id),
                opt_text(*workflow_run_id),
                opt_text(*import_session_id),
            ),
            AUDIT_CELL_WIDTH as nat,
        ),
{
    let raw = actor_text(actor_kind, actor_user_id, workflow_run_id, import_session_id);
    truncate_with_ellipsis(raw.as_str(), AUDIT_CELL_WIDTH)
}

/// The entity cell of an audit entry in the table:
/// `{entity_type}/{entity_id}`, shortened to 40 characters.
pub fn entity_cell(entity_type: &str, entity_id: &str) -> (r: String)
    ensures
        r@ == truncate_spec(entity_type@ + "/"@ + entity_id@, AUDIT_CELL_WIDTH as nat),
{
    let raw = entity_text(entity_type, entity_id);
    truncate_with_ellipsis(raw.as_str(), AUDIT_CELL_WIDTH)
}

} // verus!
