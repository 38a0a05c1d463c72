//! Arguments of the `notes` commands.

use vstd::prelude::*;

verus! {

/// Manage notes on deals, organizations, people, and activities.
#[derive(Debug)]
pub enum NotesCommands {
    /// List notes on a deal, organization, person, or activity
    List(NotesListArgs),
    /// Add a note to a deal, organization, person, or activity
    Add(NotesAddArgs),
    /// Edit a note's content by note ID
    Edit(NotesEditArgs),
    /// Delete a note by note ID (soft delete)
    Delete(NotesDeleteArgs),
    /// [SERVER] No single-note GET exists — list and read via `--format json` instead.
    Get(NotesGetArgs),
}

#[derive(Debug)]
pub struct NotesListArgs {
    /// Entity type: one of deals, orgs, people, activities
    pub entity_type: String,
    /// Parent record ID (deal, organization, person, or activity ID)
    pub parent_id: String,
    /// Maximum number of notes (default: 50; server caps pages at 100)
    pub limit: u64,
    /// Pagination offset (default: 0)
    pub offset: u64,
    /// Select specific fields (comma-separated)
    pub fields: Option<Vec<String>>,
}

#[derive(Debug)]
pub struct NotesAddArgs {
    /// Entity type: one of deals, orgs, people, activities
    pub entity_type: String,
    /// Parent record ID (deal, organization, person, or activity ID)
    pub parent_id: String,
    /// Note text, @filepath to read from a file, or @- to read stdin
    pub body: Option<String>,
    /// Read the note text from stdin (exactly one source with --body)
    pub stdin: bool,
}

#[derive(Debug)]
pub struct NotesEditArgs {
    /// Entity type: one of deals, orgs, people, activities (validated per
    /// grammar — the request itself uses only the note ID)
    pub entity_type: String,
    /// Parent record ID (validated per grammar — the request uses only the
    /// note ID)
    pub parent_id: String,
    /// Note ID to edit (from `notes list <type> <id> --format json`)
    pub note_id: String,
    /// New note text, @filepath to read from a file, or @- to read stdin
    pub body: Option<String>,
    /// Read the new note text from stdin (exactly one source with --body)
    pub stdin: bool,
}

#[derive(Debug)]
pub struct NotesDeleteArgs {
    /// Entity type: one of deals, orgs, people, activities (validated per
    /// grammar — the request itself uses only the note ID)
    pub entity_type: String,
    /// Parent record ID (validated per grammar — the request uses only the
    /// note ID)
    pub parent_id: String,
    /// Note ID to delete (from `notes list <type> <id> --format json`)
    pub note_id: String,
    /// Skip confirmation prompt (required in non-interactive mode)
    pub force: bool,
}

/// Permissive args for the hidden `notes get` variant: any invocation parses
/// so the handler can reject it with the locked hint BEFORE any HTTP
/// (parsed, then rejected — the server exposes no single-note
/// GET).
#[derive(Debug)]
pub struct NotesGetArgs {
    /// Entity type (parsed permissively — the command always rejects)
    pub entity_type: Option<String>,
    /// Parent record ID (parsed permissively — the command always rejects)
    pub parent_id: Option<String>,
    /// Note ID (parsed permissively — the command always rejects)
    pub note_id: Option<String>,
}

} // verus!
