//! `pipelite activities`: the decisions of the create, update, list and
//! delete handlers.

use vstd::prelude::*;

use crate::cli::activities::{ActivitiesCreateArgs, ActivitiesUpdateArgs};
use crate::error::{err_view, CliError, CliErrorView, ErrorKind};
use crate::json::{
    json_get, keys_distinct, lemma_lookup_opt_entries, member_views, opt_entry, opt_str_entry,
    opt_str_value, push_member, push_opt, push_opt_str, JsonValue,
};
use crate::keyed::{lemma_lookup_concat, lookup, set_count};
use crate::text::{decimal, owned, push_decimal};

verus! {

/// The rejection of `--stdin` combined with field flags.
pub open spec fn stdin_conflict_error() -> CliErrorView {
    err_view(
        ErrorKind::InvalidInput,
        "--stdin and individual field flags are mutually exclusive"@,
        "Use either --stdin or individual flags, not both."@,
    )
}

fn stdin_conflict() -> (e: CliError)
    ensures
        e@ == stdin_conflict_error(),
{
    CliError::InvalidInput {
        detail: owned("--stdin and individual field flags are mutually exclusive"),
        hint: owned("Use either --stdin or individual flags, not both."),
    }
}

/// Whether any field flag of `activities create` is given.
pub open spec fn create_has_flags(a: ActivitiesCreateArgs) -> bool {
    a.title is Some || a.type_id is Some || a.deal is Some || a.due_at is Some || a.notes is Some
        || a.custom_field@.len() > 0 || a.custom_field_json is Some
}

/// How `activities create` proceeds.
#[derive(Debug, PartialEq, Eq, Structural)]
pub enum CreatePlan {
    /// Create each object of a JSON array read from standard input.
    Batch,
    /// Create one activity from the flags (prompting for missing ones).
    Single,
}

/// Decides how `activities create` proceeds: `--stdin` takes the batch
/// path and excludes every field flag.
pub fn plan_activity_create(args: &ActivitiesCreateArgs) -> (r: Result<CreatePlan, CliError>)
    ensures
        args.stdin && create_has_flags(*args) ==> r is Err && r->Err_0@ == stdin_conflict_error(),
        args.stdin && !create_has_flags(*args) ==> r == Ok::<CreatePlan, CliError>(
            CreatePlan::Batch,
        ),
        !args.stdin ==> r == Ok::<CreatePlan, CliError>(CreatePlan::Single),
{
    if args.stdin {
        let has_flags = args.title.is_some() || args.type_id.is_some() || args.deal.is_some()
            || args.due_at.is_some() || args.notes.is_some() || args.custom_field.len() > 0
            || args.custom_field_json.is_some();
        if has_flags {
            return Err(stdin_conflict());
        }
        return Ok(CreatePlan::Batch);
    }
    Ok(CreatePlan::Single)
}

/// Whether any field flag of `activities update` is given.
pub open spec fn update_has_flags(a: ActivitiesUpdateArgs) -> bool {
    a.title is Some || a.type_id is Some || a.deal is Some || a.due_at is Some || a.notes is Some
        || a.completed_at is Some || a.mark_done || a.mark_undone || a.custom_field@.len() > 0
        || a.custom_field_json is Some
}

/// How `activities update` proceeds.
#[derive(Debug, PartialEq, Eq, Structural)]
pub enum UpdatePlan {
    /// Update each object of a JSON array read from standard input.
    Batch,
    /// Send `completed_at: null` (with any other given fields) as a raw
    /// payload.
    ClearCompleted,
    /// Send the fields given by the flags.
    Flags,
    /// Prompt for each updatable field.
    Prompt,
}

/// Every field flag of `activities update` counts: with an ID and without
/// `--stdin`, any one of them (`--completed-at` among them) is sent as
/// given (or, with `--mark-undone`, in the clearing payload), never refused
/// as an empty update nor replaced by prompts; with `--stdin` any one of
/// them is refused as mixing the two inputs.
pub proof fn lemma_activity_update_counts_each_field_flag(
    a: ActivitiesUpdateArgs,
    no_input: bool,
    stdin_is_terminal: bool,
)
    requires
        a.title is Some || a.type_id is Some || a.deal is Some || a.due_at is Some || a.notes is Some
            || a.completed_at is Some || a.mark_done || a.mark_undone || a.custom_field@.len() > 0
            || a.custom_field_json is Some,
    ensures
        !a.stdin && a.id is Some ==> update_plan_spec(a, no_input, stdin_is_terminal) == Ok::<
            UpdatePlan,
            CliErrorView,
        >(if a.mark_undone {
            UpdatePlan::ClearCompleted
        } else {
            UpdatePlan::Flags
        }),
        a.stdin ==> update_plan_spec(a, no_input, stdin_is_terminal) == Err::<UpdatePlan, CliErrorView>(
            stdin_conflict_error(),
        ),
{
}

/// With no field flag at all, `activities update <id>` prompts on a
/// terminal and is refused as an empty update otherwise; `--stdin` alone
/// takes the batch path.
pub proof fn lemma_activity_update_without_field_flags(
    a: ActivitiesUpdateArgs,
    no_input: bool,
    stdin_is_terminal: bool,
)
    requires
        a.title is None,
        a.type_id is None,
        a.deal is None,
        a.due_at is None,
        a.notes is None,
        a.completed_at is None,
        !a.mark_done,
        !a.mark_undone,
        a.custom_field@.len() == 0,
        a.custom_field_json is None,
    ensures
        a.stdin ==> update_plan_spec(a, no_input, stdin_is_terminal) == Ok::<UpdatePlan, CliErrorView>(
            UpdatePlan::Batch,
        ),
        !a.stdin && a.id is Some && (no_input || !stdin_is_terminal) ==> update_plan_spec(
            a,
            no_input,
            stdin_is_terminal,
        ) == Err::<UpdatePlan, CliErrorView>(nothing_to_update_error()),
        !a.stdin && a.id is Some && !no_input && stdin_is_terminal ==> update_plan_spec(
            a,
            no_input,
            stdin_is_terminal,
        ) == Ok::<UpdatePlan, CliErrorView>(UpdatePlan::Prompt),
{
}

/// Every field flag of `activities create` counts against `--stdin`: with
/// any one of them the batch path is refused, with none it is taken.
pub proof fn lemma_activity_create_stdin_excludes_each_field_flag(a: ActivitiesCreateArgs)
    ensures
        create_has_flags(a) == (a.title is Some || a.type_id is Some || a.deal is Some || a.due_at
            is Some || a.notes is Some || a.custom_field@.len() > 0 || a.custom_field_json is Some),
{
}

/// The error for a missing activity ID.
pub open spec fn missing_id_error() -> CliErrorView {
    err_view(
        ErrorKind::Validation,
        "Missing activity ID"@,
        "Provide an activity ID or use --stdin."@,
    )
}

/// The error for an update with nothing to send and no way to prompt.
pub open spec fn nothing_to_update_error() -> CliErrorView {
    err_view(
        ErrorKind::Validation,
        "No fields to update. Provide at least one flag."@,
        "Usage: pipelite activities update <id> --title <title> [--type <type_id>] [--mark-done]"@,
    )
}

/// The plan `activities update` follows, in the handler's order of checks.
pub open spec fn update_plan_spec(
    a: ActivitiesUpdateArgs,
    no_input: bool,
    stdin_is_terminal: bool,
) -> Result<UpdatePlan, CliErrorView> {
    if a.stdin {
        if update_has_flags(a) {
            Err(stdin_conflict_error())
        } else {
            Ok(UpdatePlan::Batch)
        }
    } else if a.id is None {
        Err(missing_id_error())
    } else if !update_has_flags(a) && (no_input || !stdin_is_terminal) {
        Err(nothing_to_update_error())
    } else if a.mark_undone {
        Ok(UpdatePlan::ClearCompleted)
    } else if update_has_flags(a) {
        Ok(UpdatePlan::Flags)
    } else {
        Ok(UpdatePlan::Prompt)
    }
}

/// Decides how `activities update` proceeds: `--stdin` is the exclusive
/// batch path; otherwise an ID is required, an empty headless update is
/// refused, `--mark-undone` clears the completion time, flags are sent as
/// given, and a terminal session with no flags prompts.
pub fn plan_activity_update(args: &ActivitiesUpdateArgs, no_input: bool, stdin_is_terminal: bool) -> (r:
    Result<UpdatePlan, CliError>)
    ensures
        r is Ok <==> update_plan_spec(*args, no_input, stdin_is_terminal) is Ok,
        r is Ok ==> Ok::<UpdatePlan, CliErrorView>(r->Ok_0) == update_plan_spec(
            *args,
            no_input,
            stdin_is_terminal,
        ),
        r is Err ==> Err::<UpdatePlan, CliErrorView>(r->Err_0@) == update_plan_spec(
            *args,
            no_input,
            stdin_is_terminal,
        ),
{
    let has_flags = args.title.is_some() || args.type_id.is_some() || args.deal.is_some()
        || args.due_at.is_some() || args.notes.is_some() || args.completed_at.is_some()
        || args.mark_done || args.mark_undone || args.custom_field.len() > 0
        || args.custom_field_json.is_some();
    if args.stdin {
        if has_flags {
            return Err(stdin_conflict());
        }
        return Ok(UpdatePlan::Batch);
    }
    if args.id.is_none() {
        return Err(
            CliError::Validation {
                detail: owned("Missing activity ID"),
                hint: owned("Provide an activity ID or use --stdin."),
            },
        );
    }
    if !has_flags && (no_input || !stdin_is_terminal) {
        return Err(
            CliError::Validation {
                detail: owned("No fields to update. Provide at least one flag."),
                hint: owned(
                    "Usage: pipelite activities update <id> --title <title> [--type <type_id>] [--mark-done]",
                ),
            },
        );
    }
    if args.mark_undone {
        return Ok(UpdatePlan::ClearCompleted);
    }
    if has_flags {
        Ok(UpdatePlan::Flags)
    } else {
        Ok(UpdatePlan::Prompt)
    }
}

/// Whether an item has a non-null `completed_at` member.
pub open spec fn is_done(item: JsonValue) -> bool {
    match json_get(item, "completed_at"@) {
        Some(v) => !(v is Null),
        None => false,
    }
}

/// The completed items, in order.
pub open spec fn done_items(items: Seq<JsonValue>) -> Seq<JsonValue>
    decreases items.len(),
{
    if items.len() == 0 {
        seq![]
    } else {
        let before = done_items(items.drop_last());
        if is_done(items.last()) {
            before.push(items.last())
        } else {
            before
        }
    }
}

/// Filter activities by done status (client-side): with `done`, keep only
/// those whose `completed_at` is set and not null; otherwise keep all.
pub fn filter_done(items: Vec<JsonValue>, done: bool) -> (r: Vec<JsonValue>)
    ensures
        !done ==> r@ == items@,
        done ==> r@ == done_items(items@),
{
    if !done {
        return items;
    }
    let ghost orig = items@;
    let mut rest = items;
    let mut kept: Vec<JsonValue> = Vec::new();
    let n = rest.len();
    let mut k: usize = 0;
    assert(orig.skip(0) =~= orig);
    while k < n
        invariant
            n == orig.len(),
            k <= n,
            rest@ == orig.skip(k as int),
            kept@ == done_items(orig.take(k as int)),
        decreases n - k,
    {
        let item = rest.remove(0);
        assert(item == orig[k as int]);
        assert(orig.take(k + 1).drop_last() =~= orig.take(k as int));
        assert(rest@ =~= orig.skip(k + 1));
        let keep = match item.get("completed_at") {
            Some(v) => !v.is_null(),
            None => false,
        };
        if keep {
            kept.push(item);
        }
        k = k + 1;
    }
    assert(orig.take(n as int) =~= orig);
    kept
}

/// The members of the raw update payload that clears an activity's
/// completion time, in order: `completed_at: null`, then each field flag
/// that is set (the deal flag as `deal_id`), then the resolved custom
/// fields when there are any.
pub open spec fn clear_payload_spec(a: ActivitiesUpdateArgs, custom_fields: Option<JsonValue>) -> Seq<(Seq<char>, JsonValue)> {
    seq![("completed_at"@, JsonValue::Null)] + opt_str_entry("title"@, a.title) + opt_str_entry(
        "type_id"@,
        a.type_id,
    ) + opt_str_entry("deal_id"@, a.deal) + opt_str_entry("due_at"@, a.due_at) + opt_str_entry(
        "notes"@,
        a.notes,
    ) + opt_entry("custom_fields"@, custom_fields)
}

/// The raw update payload that clears an activity's completion time:
/// exactly the members of [`clear_payload_spec`], each key once; in
/// particular no `id` and no completion time.
pub fn null_completed_payload(args: &ActivitiesUpdateArgs, custom_fields: Option<JsonValue>) -> (r:
    JsonValue)
    ensures
        r is Object,
        member_views(r->Object_0@) == clear_payload_spec(*args, custom_fields),
{
    let mut members: Vec<(String, JsonValue)> = Vec::new();
    push_member(&mut members, "completed_at", JsonValue::Null);
    assert(member_views(members@) =~= seq![("completed_at"@, JsonValue::Null)]);
    push_opt_str(&mut members, "title", &args.title);
    push_opt_str(&mut members, "type_id", &args.type_id);
    push_opt_str(&mut members, "deal_id", &args.deal);
    push_opt_str(&mut members, "due_at", &args.due_at);
    push_opt_str(&mut members, "notes", &args.notes);
    push_opt(&mut members, "custom_fields", custom_fields);
    JsonValue::Object(members)
}

/// Each key of the clearing payload occurs once, so whichever way the
/// members are collected into a map, `completed_at` stays null and every
/// field keeps the value given.
pub proof fn lemma_clear_payload_keys_distinct(a: ActivitiesUpdateArgs, custom_fields: Option<JsonValue>)
    ensures
        keys_distinct(clear_payload_spec(a, custom_fields)),
{
    reveal_strlit("completed_at");
    reveal_strlit("title");
    reveal_strlit("type_id");
    reveal_strlit("deal_id");
    reveal_strlit("due_at");
    reveal_strlit("notes");
    reveal_strlit("custom_fields");
    let p = clear_payload_spec(a, custom_fields);
    assert forall|i: int, j: int| 0 <= i < j < p.len() implies (#[trigger] p[i]).0 != (
    #[trigger] p[j]).0 by {
        lemma_clear_payload_rank(a, custom_fields, i);
        lemma_clear_payload_rank(a, custom_fields, j);
        if p[i].0 == p[j].0 {
            assert(clear_key_rank(p[i].0) == clear_key_rank(p[j].0));
        }
    }
}

/// The clearing payload sends `completed_at` as null and every other given
/// field under its wire key with its value, and nothing else: one member
/// per set field besides the cleared completion time.
pub proof fn lemma_clear_payload_sends_each_given_field(a: ActivitiesUpdateArgs, custom_fields: Option<JsonValue>)
    ensures
        lookup(clear_payload_spec(a, custom_fields), "completed_at"@) == Some(JsonValue::Null),
        lookup(clear_payload_spec(a, custom_fields), "title"@) == opt_str_value(a.title),
        lookup(clear_payload_spec(a, custom_fields), "type_id"@) == opt_str_value(a.type_id),
        lookup(clear_payload_spec(a, custom_fields), "deal_id"@) == opt_str_value(a.deal),
        lookup(clear_payload_spec(a, custom_fields), "due_at"@) == opt_str_value(a.due_at),
        lookup(clear_payload_spec(a, custom_fields), "notes"@) == opt_str_value(a.notes),
        lookup(clear_payload_spec(a, custom_fields), "custom_fields"@) == custom_fields,
        clear_payload_spec(a, custom_fields).len() == 1 + set_count(a.title) + set_count(a.type_id)
            + set_count(a.deal) + set_count(a.due_at) + set_count(a.notes) + set_count(custom_fields),
{
    reveal_strlit("completed_at");
    reveal_strlit("title");
    reveal_strlit("type_id");
    reveal_strlit("deal_id");
    reveal_strlit("due_at");
    reveal_strlit("notes");
    reveal_strlit("custom_fields");
    let p0 = seq![("completed_at"@, JsonValue::Null)];
    let p1 = opt_str_entry("title"@, a.title);
    let p2 = opt_str_entry("type_id"@, a.type_id);
    let p3 = opt_str_entry("deal_id"@, a.deal);
    let p4 = opt_str_entry("due_at"@, a.due_at);
    let p5 = opt_str_entry("notes"@, a.notes);
    let p6 = opt_entry("custom_fields"@, custom_fields);
    lemma_lookup_opt_entries("completed_at"@, None, Some(JsonValue::Null));
    assert(opt_entry("completed_at"@, Some(JsonValue::Null)) == p0);
    lemma_lookup_opt_entries("title"@, a.title, None);
    lemma_lookup_opt_entries("type_id"@, a.type_id, None);
    lemma_lookup_opt_entries("deal_id"@, a.deal, None);
    lemma_lookup_opt_entries("due_at"@, a.due_at, None);
    lemma_lookup_opt_entries("notes"@, a.notes, None);
    lemma_lookup_opt_entries("custom_fields"@, None, custom_fields);
    lemma_lookup_concat(p0, p1);
    lemma_lookup_concat(p0 + p1, p2);
    lemma_lookup_concat(p0 + p1 + p2, p3);
    lemma_lookup_concat(p0 + p1 + p2 + p3, p4);
    lemma_lookup_concat(p0 + p1 + p2 + p3 + p4, p5);
    lemma_lookup_concat(p0 + p1 + p2 + p3 + p4 + p5, p6);
    assert(clear_payload_spec(a, custom_fields) == p0 + p1 + p2 + p3 + p4 + p5 + p6);
    assert("completed_at"@.len() == 12);
    assert("title"@.len() == 5);
    assert("type_id"@.len() == 7);
    assert("deal_id"@.len() == 7);
    assert("due_at"@.len() == 6);
    assert("notes"@.len() == 5);
    assert("custom_fields"@.len() == 13);
    assert("title"@[0] != "notes"@[0] && "type_id"@[0] != "deal_id"@[0]);
}

/// The position of each key in the fixed order of the clearing payload.
pub open spec fn clear_key_rank(k: Seq<char>) -> int {
    if k == "completed_at"@ {
        0
    } else if k == "title"@ {
        1
    } else if k == "type_id"@ {
        2
    } else if k == "deal_id"@ {
        3
    } else if k == "due_at"@ {
        4
    } else if k == "notes"@ {
        5
    } else {
        6
    }
}

/// The ranks of the payload's keys strictly increase with their position.
proof fn lemma_clear_payload_rank(a: ActivitiesUpdateArgs, custom_fields: Option<JsonValue>, i: int)
    requires
        0 <= i < clear_payload_spec(a, custom_fields).len(),
    ensures
        forall|j: int|
            0 <= j < i ==> clear_key_rank(clear_payload_spec(a, custom_fields)[j].0) < clear_key_rank(
                clear_payload_spec(a, custom_fields)[i].0,
            ),
{
    reveal_strlit("completed_at");
    reveal_strlit("title");
    reveal_strlit("type_id");
    reveal_strlit("deal_id");
    reveal_strlit("due_at");
    reveal_strlit("notes");
    reveal_strlit("custom_fields");
    let s0 = seq![("completed_at"@, JsonValue::Null)];
    let s1 = s0 + opt_str_entry("title"@, a.title);
    let s2 = s1 + opt_str_entry("type_id"@, a.type_id);
    let s3 = s2 + opt_str_entry("deal_id"@, a.deal);
    let s4 = s3 + opt_str_entry("due_at"@, a.due_at);
    let s5 = s4 + opt_str_entry("notes"@, a.notes);
    let s6 = s5 + opt_entry("custom_fields"@, custom_fields);
    assert(s6 == clear_payload_spec(a, custom_fields));
    assert(clear_key_rank("completed_at"@) == 0);
    assert(clear_key_rank("title"@) == 1) by {
        assert("title"@.len() != "completed_at"@.len());
    }
    assert(clear_key_rank("type_id"@) == 2) by {
        assert("type_id"@.len() != "completed_at"@.len());
        assert("type_id"@.len() != "title"@.len());
    }
    assert(clear_key_rank("deal_id"@) == 3) by {
        assert("deal_id"@.len() != "completed_at"@.len());
        assert("deal_id"@.len() != "title"@.len());
        assert("deal_id"@[0] != "type_id"@[0]);
    }
    assert(clear_key_rank("due_at"@) == 4) by {
        assert("due_at"@.len() != "completed_at"@.len());
        assert("due_at"@.len() != "title"@.len());
        assert("due_at"@.len() != "type_id"@.len());
        assert("due_at"@.len() != "deal_id"@.len());
    }
    assert(clear_key_rank("notes"@) == 5) by {
        assert("notes"@.len() != "completed_at"@.len());
        assert("notes"@[0] != "title"@[0]);
        assert("notes"@.len() != "type_id"@.len());
        assert("notes"@.len() != "deal_id"@.len());
        assert("notes"@.len() != "due_at"@.len());
    }
    // Each segment only holds keys of higher rank than the segments before.
    assert forall|j: int| 0 <= j < s6.len() implies 0 <= clear_key_rank(#[trigger] s6[j].0) <= 6
        && (j < s0.len() ==> clear_key_rank(s6[j].0) == 0) && (s0.len() <= j < s1.len()
        ==> clear_key_rank(s6[j].0) == 1) && (s1.len() <= j < s2.len() ==> clear_key_rank(s6[j].0)
        == 2) && (s2.len() <= j < s3.len() ==> clear_key_rank(s6[j].0) == 3) && (s3.len() <= j
        < s4.len() ==> clear_key_rank(s6[j].0) == 4) && (s4.len() <= j < s5.len() ==> clear_key_rank(
        s6[j].0,
    ) == 5) && (s5.len() <= j ==> clear_key_rank(s6[j].0) == 6) by {
        if j < s5.len() {
            assert(s6[j] == s5[j]);
            if j < s4.len() {
                assert(s5[j] == s4[j]);
                if j < s3.len() {
                    assert(s4[j] == s3[j]);
                    if j < s2.len() {
                        assert(s3[j] == s2[j]);
                        if j < s1.len() {
                            assert(s2[j] == s1[j]);
                            if j < s0.len() {
                                assert(s1[j] == s0[j]);
                            } else {
                                assert(s1[j] == opt_str_entry("title"@, a.title)[j - s0.len()]);
                            }
                        } else {
                            assert(s2[j] == opt_str_entry("type_id"@, a.type_id)[j - s1.len()]);
                        }
                    } else {
                        assert(s3[j] == opt_str_entry("deal_id"@, a.deal)[j - s2.len()]);
                    }
                } else {
                    assert(s4[j] == opt_str_entry("due_at"@, a.due_at)[j - s3.len()]);
                }
            } else {
                assert(s5[j] == opt_str_entry("notes"@, a.notes)[j - s4.len()]);
            }
        } else {
            assert(s6[j] == opt_entry("custom_fields"@, custom_fields)[j - s5.len()]);
            assert(clear_key_rank("custom_fields"@) == 6) by {
                assert("custom_fields"@.len() != "completed_at"@.len());
                assert("custom_fields"@.len() != "title"@.len());
                assert("custom_fields"@.len() != "type_id"@.len());
                assert("custom_fields"@.len() != "deal_id"@.len());
                assert("custom_fields"@.len() != "due_at"@.len());
                assert("custom_fields"@.len() != "notes"@.len());
            }
        }
    }
    assert(s1.len() <= s0.len() + 1 && s2.len() <= s1.len() + 1 && s3.len() <= s2.len() + 1
        && s4.len() <= s3.len() + 1 && s5.len() <= s4.len() + 1 && s6.len() <= s5.len() + 1);
}

/// The fields of an activity create or update request.
pub struct ActivityFields {
    pub title: Option<String>,
    pub type_id: Option<String>,
    pub deal_id: Option<String>,
    pub owner_id: Option<String>,
    pub due_at: Option<String>,
    pub completed_at: Option<String>,
    pub notes: Option<String>,
    pub custom_fields: Option<JsonValue>,
}

/// The members of an activity request body: each field that is set, in
/// the order title, type_id, deal_id, owner_id, due_at, completed_at,
/// notes, custom_fields; an unset field is not sent.
pub open spec fn activity_members_spec(f: ActivityFields) -> Seq<(Seq<char>, JsonValue)> {
    opt_str_entry("title"@, f.title) + opt_str_entry("type_id"@, f.type_id) + opt_str_entry(
        "deal_id"@,
        f.deal_id,
    ) + opt_str_entry("owner_id"@, f.owner_id) + opt_str_entry("due_at"@, f.due_at)
        + opt_str_entry("completed_at"@, f.completed_at) + opt_str_entry("notes"@, f.notes)
        + opt_entry("custom_fields"@, f.custom_fields)
}

/// Builds the body of an activity create or update request from its
/// fields.
pub fn activity_body(f: ActivityFields) -> (r: JsonValue)
    ensures
        r is Object,
        member_views(r->Object_0@) == activity_members_spec(f),
{
    let ghost g = f;
    let mut members: Vec<(String, JsonValue)> = Vec::new();
    assert(member_views(members@) =~= Seq::<(Seq<char>, JsonValue)>::empty());
    push_opt_str(&mut members, "title", &f.title);
    push_opt_str(&mut members, "type_id", &f.type_id);
    push_opt_str(&mut members, "deal_id", &f.deal_id);
    push_opt_str(&mut members, "owner_id", &f.owner_id);
    push_opt_str(&mut members, "due_at", &f.due_at);
    push_opt_str(&mut members, "completed_at", &f.completed_at);
    push_opt_str(&mut members, "notes", &f.notes);
    push_opt(&mut members, "custom_fields", f.custom_fields);
    assert(member_views(members@) =~= activity_members_spec(g));
    JsonValue::Object(members)
}

/// How a delete command proceeds.
#[derive(Debug, PartialEq, Eq, Structural)]
pub enum DeletePlan {
    /// Delete the one positional ID without confirmation.
    Single,
    /// Confirm, then delete every ID, continuing past failures.
    Batch,
}

/// A single positional ID keeps the confirmation-free flow; several IDs,
/// or any `--stdin` input (even of one ID), take the batch path.
pub fn delete_plan(id_count: usize, stdin: bool) -> (r: DeletePlan)
    ensures
        r == (if id_count == 1 && !stdin {
            DeletePlan::Single
        } else {
            DeletePlan::Batch
        }),
{
    if id_count == 1 && !stdin {
        DeletePlan::Single
    } else {
        DeletePlan::Batch
    }
}

/// The summary reported after a one-by-one batch create with failures:
/// `"Created {created}/{total}. {failed} failed (see errors above)."`.
pub fn batch_create_summary(created: usize, total: usize, failed: u32) -> (line: String)
    ensures
        line@ == "Created "@ + decimal(created as nat) + "/"@ + decimal(total as nat) + ". "@
            + decimal(failed as nat) + " failed (see errors above)."@,
{
    let mut line = owned("Created ");
    push_decimal(&mut line, created as u64);
    line.append("/");
    push_decimal(&mut line, total as u64);
    line.append(". ");
    push_decimal(&mut line, failed as u64);
    line.append(" failed (see errors above).");
    line
}

/// The error a one-by-one batch create ends with when items failed.
pub fn batch_create_error(failed: u32, total: usize) -> (e: CliError)
    ensures
        e@ == err_view(
            ErrorKind::Api(0),
            decimal(failed as nat) + " of "@ + decimal(total as nat) + " items failed"@,
            "Review errors above and retry failed items."@,
        ),
{
    let mut detail = String::new();
    push_decimal(&mut detail, failed as u64);
    detail.append(" of ");
    push_decimal(&mut detail, total as u64);
    detail.append(" items failed");
    CliError::Api { status: 0, detail, hint: owned("Review errors above and retry failed items.") }
}

/// An activity request body sends every given field under its wire key,
/// with the given value, and nothing else: under each key a reader finds
/// exactly the field, under no key an unset one, and there is one member
/// per set field.
pub proof fn lemma_activity_body_sends_each_given_field(f: ActivityFields)
    ensures
        lookup(activity_members_spec(f), "title"@) == opt_str_value(f.title),
        lookup(activity_members_spec(f), "type_id"@) == opt_str_value(f.type_id),
        lookup(activity_members_spec(f), "deal_id"@) == opt_str_value(f.deal_id),
        lookup(activity_members_spec(f), "owner_id"@) == opt_str_value(f.owner_id),
        lookup(activity_members_spec(f), "due_at"@) == opt_str_value(f.due_at),
        lookup(activity_members_spec(f), "completed_at"@) == opt_str_value(f.completed_at),
        lookup(activity_members_spec(f), "notes"@) == opt_str_value(f.notes),
        lookup(activity_members_spec(f), "custom_fields"@) == f.custom_fields,
        activity_members_spec(f).len() == set_count(f.title) + set_count(f.type_id) + set_count(
            f.deal_id,
        ) + set_count(f.owner_id) + set_count(f.due_at) + set_count(f.completed_at) + set_count(
            f.notes,
        ) + set_count(f.custom_fields),
{
    reveal_strlit("title");
    reveal_strlit("type_id");
    reveal_strlit("deal_id");
    reveal_strlit("owner_id");
    reveal_strlit("due_at");
    reveal_strlit("completed_at");
    reveal_strlit("notes");
    reveal_strlit("custom_fields");
    let p1 = opt_str_entry("title"@, f.title);
    let p2 = opt_str_entry("type_id"@, f.type_id);
    let p3 = opt_str_entry("deal_id"@, f.deal_id);
    let p4 = opt_str_entry("owner_id"@, f.owner_id);
    let p5 = opt_str_entry("due_at"@, f.due_at);
    let p6 = opt_str_entry("completed_at"@, f.completed_at);
    let p7 = opt_str_entry("notes"@, f.notes);
    let p8 = opt_entry("custom_fields"@, f.custom_fields);
    lemma_lookup_opt_entries("title"@, f.title, None);
    lemma_lookup_opt_entries("type_id"@, f.type_id, None);
    lemma_lookup_opt_entries("deal_id"@, f.deal_id, None);
    lemma_lookup_opt_entries("owner_id"@, f.owner_id, None);
    lemma_lookup_opt_entries("due_at"@, f.due_at, None);
    lemma_lookup_opt_entries("completed_at"@, f.completed_at, None);
    lemma_lookup_opt_entries("notes"@, f.notes, None);
    lemma_lookup_opt_entries("custom_fields"@, None, f.custom_fields);
    lemma_lookup_concat(p1, p2);
    lemma_lookup_concat(p1 + p2, p3);
    lemma_lookup_concat(p1 + p2 + p3, p4);
    lemma_lookup_concat(p1 + p2 + p3 + p4, p5);
    lemma_lookup_concat(p1 + p2 + p3 + p4 + p5, p6);
    lemma_lookup_concat(p1 + p2 + p3 + p4 + p5 + p6, p7);
    lemma_lookup_concat(p1 + p2 + p3 + p4 + p5 + p6 + p7, p8);
    assert(activity_members_spec(f) == p1 + p2 + p3 + p4 + p5 + p6 + p7 + p8);
    assert("title"@.len() == 5);
    assert("type_id"@.len() == 7);
    assert("deal_id"@.len() == 7);
    assert("owner_id"@.len() == 8);
    assert("due_at"@.len() == 6);
    assert("completed_at"@.len() == 12);
    assert("notes"@.len() == 5);
    assert("custom_fields"@.len() == 13);
    assert("title"@[0] != "notes"@[0] && "type_id"@[0] != "deal_id"@[0]);
}

/// Progress of a one-by-one batch create: how many items there are, and
/// how many were created and how many failed so far. Every item is
/// counted once, so `created + failed` never exceeds `total`.
pub struct BatchCreateProgress {
    pub total: usize,
    pub created: usize,
    pub failed: u32,
}

impl BatchCreateProgress {
    /// Whether no more items were counted than the batch holds.
    pub open spec fn counts_fit(&self) -> bool {
        self.created + self.failed <= self.total
    }

    /// A batch of `total` items, none attempted yet.
    pub fn new(total: usize) -> (r: Self)
        ensures
            r.total == total,
            r.created == 0,
            r.failed == 0,
            r.counts_fit(),
    {
        BatchCreateProgress { total, created: 0, failed: 0 }
    }

    /// The progress line shown before item `index` (zero-based) is sent:
    /// `"\rCreating {index + 1}/{total}..."`.
    pub fn progress_line(&self, index: usize) -> (line: String)
        requires
            index < self.total,
        ensures
            line@ == "\rCreating "@ + decimal(index as nat + 1) + "/"@ + decimal(self.total as nat) + "..."@,
    {
        let mut line = owned("\rCreating ");
        push_decimal(&mut line, (index + 1) as u64);
        line.append("/");
        push_decimal(&mut line, self.total as u64);
        line.append("...");
        line
    }

    /// Counts an item that was created.
    pub fn record_created(&mut self)
        requires
            old(self).created + old(self).failed < old(self).total,
        ensures
            final(self).created == old(self).created + 1,
            final(self).failed == old(self).failed,
            final(self).total == old(self).total,
            final(self).counts_fit(),
    {
        self.created = self.created + 1;
    }

    /// Counts item `index` (zero-based) as failed with the error text
    /// `err`; returns the line reported for it:
    /// `"\nFailed item {index + 1}: {err}"`.
    pub fn record_failed(&mut self, index: usize, err: &str) -> (line: String)
        requires
            old(self).created + old(self).failed < old(self).total,
            old(self).failed < u32::MAX,
            index < old(self).total,
        ensures
            final(self).failed == old(self).failed + 1,
            final(self).created == old(self).created,
            final(self).total == old(self).total,
            final(self).counts_fit(),
            line@ == "\nFailed item "@ + decimal(index as nat + 1) + ": "@ + err@,
    {
        self.failed = self.failed + 1;
        let mut line = owned("\nFailed item ");
        push_decimal(&mut line, (index + 1) as u64);
        line.append(": ");
        line.append(err);
        line
    }

    /// Whether the cached activity list must be dropped: only when
    /// something was created.
    pub fn invalidates_cache(&self) -> (r: bool)
        ensures
            r == (self.created > 0),
    {
        self.created > 0
    }

    /// How the batch ends: with no failure, nothing more; otherwise the
    /// summary line and the error the command returns.
    pub fn finish(&self) -> (r: Option<(String, CliError)>)
        ensures
            (r is None) == (self.failed == 0),
            r matches Some((line, e)) ==> line@ == "Created "@ + decimal(self.created as nat) + "/"@
                + decimal(self.total as nat) + ". "@ + decimal(self.failed as nat)
                + " failed (see errors above)."@ && e@ == err_view(
                ErrorKind::Api(0),
                decimal(self.failed as nat) + " of "@ + decimal(self.total as nat) + " items failed"@,
                "Review errors above and retry failed items."@,
            ),
    {
        if self.failed == 0 {
            None
        } else {
            Some((batch_create_summary(self.created, self.total, self.failed), batch_create_error(self.failed, self.total)))
        }
    }
}

} // verus!
