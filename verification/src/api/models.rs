//! Wire models of the Pipelite CRM API that the client's logic reads, and
//! the default table columns of each entity.

use vstd::prelude::*;

use crate::text::str_eq;

verus! {

/// Response from the server health/ping endpoint.
pub struct PingResponse {
    pub status: String,
}

/// Generic wrapper for single-item API responses.
pub struct ApiSingleResponse<T> {
    pub data: T,
}

/// Generic wrapper for paginated API list responses.
pub struct ApiListResponse<T> {
    pub data: Vec<T>,
    pub meta: PaginationMeta,
}

/// Pagination metadata returned by the API.
#[derive(Debug, Clone, Copy, PartialEq, Eq)]
pub struct PaginationMeta {
    pub total: u64,
    pub offset: u64,
    pub limit: u64,
}

/// Payload for creating a new pipeline.
#[derive(Debug, Clone, PartialEq, Eq)]
pub struct PipelineCreate {
    pub name: String,
    pub is_default: Option<bool>,
}

/// Payload for updating an existing pipeline. All fields optional.
#[derive(Debug, Clone, Default, PartialEq, Eq)]
pub struct PipelineUpdate {
    pub name: Option<String>,
    pub is_default: Option<bool>,
}

/// Payload for creating a new stage.
#[derive(Debug, Clone, PartialEq, Eq)]
pub struct StageCreate {
    pub name: String,
    pub pipeline_id: String,
    pub description: Option<String>,
    pub color: Option<String>,
    /// Sent on the wire as `type`.
    pub stage_type: Option<String>,
}

/// Payload for updating an existing stage. All fields optional.
#[derive(Debug, Clone, Default, PartialEq, Eq)]
pub struct StageUpdate {
    pub name: Option<String>,
    pub description: Option<String>,
    pub color: Option<String>,
    /// Sent on the wire as `type`.
    pub stage_type: Option<String>,
}

/// Response from triggering a workflow run.
#[derive(Debug, Clone, PartialEq, Eq)]
pub struct WorkflowRunResponse {
    pub run_id: String,
    pub status: String,
}

/// A note attached to a deal, organization, person or activity.
/// `entity_type` is the server's singular discriminator ("deal", ...).
#[derive(Debug, Clone, PartialEq, Eq)]
pub struct Note {
    pub id: String,
    pub entity_type: String,
    pub entity_id: String,
    pub content: String,
    pub author_id: Option<String>,
    pub source: String,
    pub created_at: Option<String>,
    pub updated_at: Option<String>,
}

/// Payload for creating a note: the content only.
#[derive(Debug, Clone, PartialEq, Eq)]
pub struct NoteCreate {
    pub content: String,
}

/// Payload for updating a note: the content only.
#[derive(Debug, Clone, PartialEq, Eq)]
pub struct NoteUpdate {
    pub content: String,
}

/// Status of a workflow run. `Unknown` stands for any status this client
/// does not know and counts as terminal.
#[derive(Debug, Clone, Copy, PartialEq, Eq, Structural)]
pub enum WorkflowRunStatus {
    Pending,
    Running,
    Completed,
    Failed,
    Waiting,
    Unknown,
}

/// The lowercase wire value of a run status.
pub open spec fn run_status_wire(s: WorkflowRunStatus) -> Seq<char> {
    match s {
        WorkflowRunStatus::Pending => "pending"@,
        WorkflowRunStatus::Running => "running"@,
        WorkflowRunStatus::Completed => "completed"@,
        WorkflowRunStatus::Failed => "failed"@,
        WorkflowRunStatus::Waiting => "waiting"@,
        WorkflowRunStatus::Unknown => "unknown"@,
    }
}

/// The run status a wire value denotes: the five known lowercase values
/// exactly, every other value `Unknown`.
pub open spec fn run_status_from_wire_spec(w: Seq<char>) -> WorkflowRunStatus {
    if w == "pending"@ {
        WorkflowRunStatus::Pending
    } else if w == "running"@ {
        WorkflowRunStatus::Running
    } else if w == "completed"@ {
        WorkflowRunStatus::Completed
    } else if w == "failed"@ {
        WorkflowRunStatus::Failed
    } else if w == "waiting"@ {
        WorkflowRunStatus::Waiting
    } else {
        WorkflowRunStatus::Unknown
    }
}

impl WorkflowRunStatus {
    /// The lowercase wire value.
    pub fn as_str(&self) -> (r: &'static str)
        ensures
            r@ == run_status_wire(*self),
    {
        match self {
            WorkflowRunStatus::Pending => "pending",
            WorkflowRunStatus::Running => "running",
            WorkflowRunStatus::Completed => "completed",
            WorkflowRunStatus::Failed => "failed",
            WorkflowRunStatus::Waiting => "waiting",
            WorkflowRunStatus::Unknown => "unknown",
        }
    }

    /// Reads a wire value (case-exact); unrecognized values map to
    /// `Unknown` instead of failing.
    pub fn from_wire(w: &str) -> (r: WorkflowRunStatus)
        ensures
            r == run_status_from_wire_spec(w@),
    {
        if str_eq(w, "pending") {
            WorkflowRunStatus::Pending
        } else if str_eq(w, "running") {
            WorkflowRunStatus::Running
        } else if str_eq(w, "completed") {
            WorkflowRunStatus::Completed
        } else if str_eq(w, "failed") {
            WorkflowRunStatus::Failed
        } else if str_eq(w, "waiting") {
            WorkflowRunStatus::Waiting
        } else {
            WorkflowRunStatus::Unknown
        }
    }
}

/// Status of a single workflow run step. `Unknown` stands for any status
/// this client does not know.
#[derive(Debug, Clone, Copy, PartialEq, Eq, Structural)]
pub enum WorkflowRunStepStatus {
    Pending,
    Running,
    Completed,
    Failed,
    Skipped,
    Waiting,
    Unknown,
}

/// The lowercase wire value of a step status.
pub open spec fn step_status_wire(s: WorkflowRunStepStatus) -> Seq<char> {
    match s {
        WorkflowRunStepStatus::Pending => "pending"@,
        WorkflowRunStepStatus::Running => "running"@,
        WorkflowRunStepStatus::Completed => "completed"@,
        WorkflowRunStepStatus::Failed => "failed"@,
        WorkflowRunStepStatus::Skipped => "skipped"@,
        WorkflowRunStepStatus::Waiting => "waiting"@,
        WorkflowRunStepStatus::Unknown => "unknown"@,
    }
}

/// The step status a wire value denotes: the six known lowercase values
/// exactly, every other value `Unknown`.
pub open spec fn step_status_from_wire_spec(w: Seq<char>) -> WorkflowRunStepStatus {
    if w == "pending"@ {
        WorkflowRunStepStatus::Pending
    } else if w == "running"@ {
        WorkflowRunStepStatus::Running
    } else if w == "completed"@ {
        WorkflowRunStepStatus::Completed
    } else if w == "failed"@ {
        WorkflowRunStepStatus::Failed
    } else if w == "skipped"@ {
        WorkflowRunStepStatus::Skipped
    } else if w == "waiting"@ {
        WorkflowRunStepStatus::Waiting
    } else {
        WorkflowRunStepStatus::Unknown
    }
}

impl WorkflowRunStepStatus {
    /// The lowercase wire value.
    pub fn as_str(&self) -> (r: &'static str)
        ensures
            r@ == step_status_wire(*self),
    {
        match self {
            WorkflowRunStepStatus::Pending => "pending",
            WorkflowRunStepStatus::Running => "running",
            WorkflowRunStepStatus::Completed => "completed",
            WorkflowRunStepStatus::Failed => "failed",
            WorkflowRunStepStatus::Skipped => "skipped",
            WorkflowRunStepStatus::Waiting => "waiting",
            WorkflowRunStepStatus::Unknown => "unknown",
        }
    }

    /// Reads a wire value (case-exact); unrecognized values map to
    /// `Unknown` instead of failing.
    pub fn from_wire(w: &str) -> (r: WorkflowRunStepStatus)
        ensures
            r == step_status_from_wire_spec(w@),
    {
        if str_eq(w, "pending") {
            WorkflowRunStepStatus::Pending
        } else if str_eq(w, "running") {
            WorkflowRunStepStatus::Running
        } else if str_eq(w, "completed") {
            WorkflowRunStepStatus::Completed
        } else if str_eq(w, "failed") {
            WorkflowRunStepStatus::Failed
        } else if str_eq(w, "skipped") {
            WorkflowRunStepStatus::Skipped
        } else if str_eq(w, "waiting") {
            WorkflowRunStepStatus::Waiting
        } else {
            WorkflowRunStepStatus::Unknown
        }
    }
}

/// Every run status reads back from its own wire value: writing a status
/// and reading it again loses nothing (`unknown` itself reads as `Unknown`).
pub proof fn lemma_run_status_wire_round_trip(s: WorkflowRunStatus)
    ensures
        run_status_from_wire_spec(run_status_wire(s)) == s,
{
    reveal_strlit("pending");
    reveal_strlit("running");
    reveal_strlit("completed");
    reveal_strlit("failed");
    reveal_strlit("waiting");
    reveal_strlit("unknown");
    let w = run_status_wire(s);
    if !(s is Pending) {
        assert(w[0] != 'p' || w.len() != 7);
    }
    if !(s is Running) {
        assert(w[0] != 'r');
    }
    if !(s is Completed) {
        assert(w.len() != 9);
    }
    if !(s is Failed) {
        assert(w.len() != 6);
    }
    if !(s is Waiting) {
        assert(w[0] != 'w');
    }
}

/// Every step status reads back from its own wire value.
pub proof fn lemma_step_status_wire_round_trip(s: WorkflowRunStepStatus)
    ensures
        step_status_from_wire_spec(step_status_wire(s)) == s,
{
    reveal_strlit("pending");
    reveal_strlit("running");
    reveal_strlit("completed");
    reveal_strlit("failed");
    reveal_strlit("skipped");
    reveal_strlit("waiting");
    reveal_strlit("unknown");
    let w = step_status_wire(s);
    if !(s is Pending) {
        assert(w[0] != 'p' || w.len() != 7);
    }
    if !(s is Running) {
        assert(w[0] != 'r');
    }
    if !(s is Completed) {
        assert(w.len() != 9);
    }
    if !(s is Failed) {
        assert(w.len() != 6);
    }
    if !(s is Skipped) {
        assert(w[0] != 's');
    }
    if !(s is Waiting) {
        assert(w[0] != 'w');
    }
}

/// Two run statuses with the same wire value are the same status.
pub proof fn lemma_run_status_wire_injective(a: WorkflowRunStatus, b: WorkflowRunStatus)
    ensures
        run_status_wire(a) == run_status_wire(b) ==> a == b,
{
    lemma_run_status_wire_round_trip(a);
    lemma_run_status_wire_round_trip(b);
}

/// The longest span, in whole seconds either way, that a `chrono`
/// duration can hold (`i64::MAX` milliseconds).
pub const MAX_SPAN_SECS: i64 = 9_223_372_036_854_775;

/// What `chrono` makes of the span between two RFC 3339 timestamps: the
/// whole seconds (truncated toward zero) from `start` to `end`, or `None`
/// when either does not parse.
pub uninterp spec fn rfc3339_span_secs(start: Seq<char>, end: Seq<char>) -> Option<i64>;

/// Parses both timestamps with `chrono::DateTime::parse_from_rfc3339` and
/// returns `TimeDelta::num_seconds` of `end - start`; `None` when either
/// fails to parse. A `TimeDelta` never exceeds `i64::MAX` milliseconds, so
/// the seconds stay within [`MAX_SPAN_SECS`] either way.
#[verifier::external_body]
fn span_secs(start: &str, end: &str) -> (r: Option<i64>)
    ensures
        r == rfc3339_span_secs(start@, end@),
        r is Some ==> -MAX_SPAN_SECS <= r->0 <= MAX_SPAN_SECS,
{
    match (chrono::DateTime::parse_from_rfc3339(start), chrono::DateTime::parse_from_rfc3339(end)) {
        (Ok(s), Ok(e)) => Some((e - s).num_seconds()),
        _ => None,
    }
}

/// The text `chrono_humanize` gives a span of `secs` whole seconds in
/// rough accuracy and present tense (such as "now" or "5 minutes").
pub uninterp spec fn rough_span_text(secs: i64) -> Seq<char>;

/// `HumanTime::from(TimeDelta::try_seconds(secs)).to_text_en(Rough,
/// Present)`. The rough text reads only the whole seconds, and any span
/// within ten seconds either way is "now".
#[verifier::external_body]
fn rough_text(secs: i64) -> (r: String)
    requires
        -MAX_SPAN_SECS <= secs <= MAX_SPAN_SECS,
    ensures
        r@ == rough_span_text(secs),
        -10 <= secs <= 10 ==> r@ == "now"@,
{
    match chrono::TimeDelta::try_seconds(secs) {
        Some(d) => chrono_humanize::HumanTime::from(d).to_text_en(
            chrono_humanize::Accuracy::Rough,
            chrono_humanize::Tense::Present,
        ),
        None => String::new(),
    }
}

/// The duration text of a step: the rough span from start to completion,
/// or nothing when either timestamp is missing or does not parse.
pub open spec fn step_duration_spec(started_at: Option<Seq<char>>, completed_at: Option<Seq<char>>) -> Seq<char> {
    match (started_at, completed_at) {
        (Some(s), Some(c)) => match rfc3339_span_secs(s, c) {
            Some(secs) => rough_span_text(secs),
            None => Seq::empty(),
        },
        _ => Seq::empty(),
    }
}

/// Human-readable duration between a step's start and completion (e.g.
/// "5 minutes"; sub-minute deltas render as "now"). Empty when either
/// timestamp is missing or unparseable.
pub fn step_duration(started_at: &Option<String>, completed_at: &Option<String>) -> (r: String)
    ensures
        r@ == step_duration_spec(
            match started_at {
                Some(s) => Some(s@),
                None => None,
            },
            match completed_at {
                Some(c) => Some(c@),
                None => None,
            },
        ),
{
    match (started_at, completed_at) {
        (Some(s), Some(c)) => match span_secs(s.as_str(), c.as_str()) {
            Some(secs) => rough_text(secs),
            None => String::new(),
        },
        _ => String::new(),
    }
}

/// Whether a run status is terminal: completed, failed, or unknown (so a
/// future terminal status can never hang a watch loop).
pub open spec fn is_terminal_spec(s: WorkflowRunStatus) -> bool {
    s is Completed || s is Failed || s is Unknown
}

/// Whether a run status counts as terminal.
pub fn run_status_is_terminal(s: &WorkflowRunStatus) -> (r: bool)
    ensures
        r == is_terminal_spec(*s),
{
    match s {
        WorkflowRunStatus::Completed | WorkflowRunStatus::Failed | WorkflowRunStatus::Unknown => true,
        _ => false,
    }
}

/// The exit code of the watch command once a run has finished: 1 only for
/// a failed (or unknown) run under `--exit-status`, 0 otherwise.
pub open spec fn watch_exit_code_spec(s: WorkflowRunStatus, exit_status_flag: bool) -> i32 {
    if (s is Failed || s is Unknown) && exit_status_flag {
        1
    } else {
        0
    }
}

/// The watch command fails only under `--exit-status`, only with code 1,
/// and only for a run that has reached a terminal status; a run that
/// completed never fails it.
pub proof fn lemma_watch_exit_code_needs_flag_and_terminal(s: WorkflowRunStatus, exit_status_flag: bool)
    ensures
        watch_exit_code_spec(s, exit_status_flag) == 0 || watch_exit_code_spec(s, exit_status_flag) == 1,
        watch_exit_code_spec(s, exit_status_flag) != 0 ==> exit_status_flag && is_terminal_spec(s),
        s is Completed ==> watch_exit_code_spec(s, exit_status_flag) == 0,
{
}

/// Exit code for a finished run in the watch command.
pub fn watch_exit_code(s: &WorkflowRunStatus, exit_status_flag: bool) -> (r: i32)
    ensures
        r == watch_exit_code_spec(*s, exit_status_flag),
{
    match s {
        WorkflowRunStatus::Completed => 0,
        WorkflowRunStatus::Failed | WorkflowRunStatus::Unknown => {
            if exit_status_flag {
                1
            } else {
                0
            }
        },
        _ => 0,
    }
}

/// Configuration for default table columns of an entity.
pub struct TableConfig {
    pub default_columns: Vec<&'static str>,
}

/// The column names of a table configuration.
pub open spec fn columns_view(c: TableConfig) -> Seq<Seq<char>> {
    c.default_columns@.map_values(|s: &'static str| s@)
}

/// Default table columns for deal list display.
pub fn deals_table_config() -> (c: TableConfig)
    ensures
        columns_view(c) == seq![
            "id"@,
            "title"@,
            "value"@,
            "stage_id"@,
            "owner_id"@,
            "updated_at"@,
        ],
{
    let c = TableConfig {
        default_columns: vec!["id", "title", "value", "stage_id", "owner_id", "updated_at"],
    };
    assert(columns_view(c) =~= seq![
        "id"@,
        "title"@,
        "value"@,
        "stage_id"@,
        "owner_id"@,
        "updated_at"@,
    ]);
    c
}


/// Default table columns for organization list display.
pub fn orgs_table_config() -> (c: TableConfig)
    ensures
        columns_view(c) == seq![
            "id"@,
            "name"@,
            "owner_id"@,
            "updated_at"@,
        ],
{
    let c = TableConfig { default_columns: vec!["id", "name", "owner_id", "updated_at"] };
    assert(columns_view(c) =~= seq![
        "id"@,
        "name"@,
        "owner_id"@,
        "updated_at"@,
    ]);
    c
}

/// Default table columns for people list display.
pub fn people_table_config() -> (c: TableConfig)
    ensures
        columns_view(c) == seq![
            "id"@,
            "full_name"@,
            "email"@,
            "organization_id"@,
            "updated_at"@,
        ],
{
    let c = TableConfig { default_columns: vec!["id", "full_name", "email", "organization_id", "updated_at"] };
    assert(columns_view(c) =~= seq![
        "id"@,
        "full_name"@,
        "email"@,
        "organization_id"@,
        "updated_at"@,
    ]);
    c
}

/// Default table columns for activity list display.
pub fn activities_table_config() -> (c: TableConfig)
    ensures
        columns_view(c) == seq![
            "id"@,
            "title"@,
            "type_id"@,
            "deal_id"@,
            "due_at"@,
            "completed_at"@,
        ],
{
    let c = TableConfig { default_columns: vec!["id", "title", "type_id", "deal_id", "due_at", "completed_at"] };
    assert(columns_view(c) =~= seq![
        "id"@,
        "title"@,
        "type_id"@,
        "deal_id"@,
        "due_at"@,
        "completed_at"@,
    ]);
    c
}

/// Default table columns for pipeline list display.
pub fn pipelines_table_config() -> (c: TableConfig)
    ensures
        columns_view(c) == seq![
            "id"@,
            "name"@,
            "updated_at"@,
        ],
{
    let c = TableConfig { default_columns: vec!["id", "name", "updated_at"] };
    assert(columns_view(c) =~= seq![
        "id"@,
        "name"@,
        "updated_at"@,
    ]);
    c
}

/// Default table columns for stage list display.
pub fn stages_table_config() -> (c: TableConfig)
    ensures
        columns_view(c) == seq![
            "id"@,
            "name"@,
            "pipeline_id"@,
            "position"@,
        ],
{
    let c = TableConfig { default_columns: vec!["id", "name", "pipeline_id", "position"] };
    assert(columns_view(c) =~= seq![
        "id"@,
        "name"@,
        "pipeline_id"@,
        "position"@,
    ]);
    c
}

/// Default table columns for workflow list display.
pub fn workflows_table_config() -> (c: TableConfig)
    ensures
        columns_view(c) == seq![
            "id"@,
            "name"@,
            "active"@,
            "updated_at"@,
        ],
{
    let c = TableConfig { default_columns: vec!["id", "name", "active", "updated_at"] };
    assert(columns_view(c) =~= seq![
        "id"@,
        "name"@,
        "active"@,
        "updated_at"@,
    ]);
    c
}

/// Default table columns for workflow run list display.
pub fn workflow_runs_table_config() -> (c: TableConfig)
    ensures
        columns_view(c) == seq![
            "id"@,
            "status"@,
            "dry_run"@,
            "depth"@,
            "started_at"@,
            "completed_at"@,
        ],
{
    let c = TableConfig { default_columns: vec!["id", "status", "dry_run", "depth", "started_at", "completed_at"] };
    assert(columns_view(c) =~= seq![
        "id"@,
        "status"@,
        "dry_run"@,
        "depth"@,
        "started_at"@,
        "completed_at"@,
    ]);
    c
}

/// Default table columns for workflow template list display.
pub fn workflow_templates_table_config() -> (c: TableConfig)
    ensures
        columns_view(c) == seq![
            "id"@,
            "name"@,
            "category"@,
            "created_at"@,
        ],
{
    let c = TableConfig { default_columns: vec!["id", "name", "category", "created_at"] };
    assert(columns_view(c) =~= seq![
        "id"@,
        "name"@,
        "category"@,
        "created_at"@,
    ]);
    c
}

/// Default table columns for note list display.
pub fn notes_table_config() -> (c: TableConfig)
    ensures
        columns_view(c) == seq![
            "id"@,
            "created_at"@,
            "content"@,
        ],
{
    let c = TableConfig { default_columns: vec!["id", "created_at", "content"] };
    assert(columns_view(c) =~= seq![
        "id"@,
        "created_at"@,
        "content"@,
    ]);
    c
}

} // verus!
