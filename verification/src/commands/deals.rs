//! `pipelite deals`: the decisions of the create and update handlers.

use vstd::prelude::*;

use crate::cli::deals::{DealsCreateArgs, DealsUpdateArgs};
use crate::commands::activities::{stdin_conflict_error, CreatePlan};
use crate::error::{err_view, CliError, CliErrorView, ErrorKind};
use crate::json::{
    lemma_lookup_opt_entries, member_views, opt_entry, opt_str_entry, opt_str_value, push_opt,
    push_opt_str, JsonValue,
};
use crate::keyed::{lemma_lookup_concat, lookup, set_count};
use crate::text::owned;

verus! {

fn stdin_conflict() -> (e: CliError)
    ensures
        e@ == stdin_conflict_error(),
{
    CliError::InvalidInput {
        detail: owned("--stdin and individual field flags are mutually exclusive"),
        hint: owned("Use either --stdin or individual flags, not both."),
    }
}

/// Whether any field flag of `deals create` is given.
pub open spec fn create_has_flags(a: DealsCreateArgs) -> bool {
    a.title is Some || a.stage is Some || a.value is Some || a.org is Some || a.person is Some
        || a.expected_close_date is Some || a.notes is Some || a.custom_field@.len() > 0
        || a.custom_field_json is Some
}

/// Decides how `deals create` proceeds: `--stdin` takes the batch path and
/// excludes every field flag.
pub fn plan_deal_create(args: &DealsCreateArgs) -> (r: Result<CreatePlan, CliError>)
    ensures
        args.stdin && create_has_flags(*args) ==> r is Err && r->Err_0@ == stdin_conflict_error(),
        args.stdin && !create_has_flags(*args) ==> r == Ok::<CreatePlan, CliError>(
            CreatePlan::Batch,
        ),
        !args.stdin ==> r == Ok::<CreatePlan, CliError>(CreatePlan::Single),
{
    if args.stdin {
        let has_flags = args.title.is_some() || args.stage.is_some() || args.value.is_some()
            || args.org.is_some() || args.person.is_some() || args.expected_close_date.is_some()
            || args.notes.is_some() || args.custom_field.len() > 0
            || args.custom_field_json.is_some();
        if has_flags {
            return Err(stdin_conflict());
        }
        return Ok(CreatePlan::Batch);
    }
    Ok(CreatePlan::Single)
}

/// Where the stage of a new deal comes from.
#[derive(Debug, PartialEq, Eq, Structural)]
pub enum StageSource {
    /// The `--stage` flag.
    Flag,
    /// An interactive pick of a pipeline, then of one of its stages.
    Select,
    /// Nowhere: `--stage` is reported missing.
    Missing,
}

/// The stage of a new deal comes from `--stage` when given, else from an
/// interactive pick on a terminal with prompting allowed, else it is
/// missing.
pub fn deal_stage_source(stage_given: bool, stdin_is_terminal: bool, no_input: bool) -> (r:
    StageSource)
    ensures
        r == (if stage_given {
            StageSource::Flag
        } else if stdin_is_terminal && !no_input {
            StageSource::Select
        } else {
            StageSource::Missing
        }),
{
    if stage_given {
        StageSource::Flag
    } else if stdin_is_terminal && !no_input {
        StageSource::Select
    } else {
        StageSource::Missing
    }
}

/// Whether any field flag of `deals update` is given.
pub open spec fn update_has_flags(a: DealsUpdateArgs) -> bool {
    a.title is Some || a.stage is Some || a.value is Some || a.org is Some || a.person is Some
        || a.expected_close_date is Some || a.notes is Some || a.custom_field@.len() > 0
        || a.custom_field_json is Some
}

/// How `deals update` proceeds.
#[derive(Debug, PartialEq, Eq, Structural)]
pub enum DealUpdatePlan {
    /// Update each object of a JSON array read from standard input.
    Batch,
    /// Send the fields given by the flags.
    Flags,
    /// Prompt for each updatable field.
    Prompt,
}

/// The plan `deals update` follows, in the handler's order of checks.
pub open spec fn deal_update_plan_spec(
    a: DealsUpdateArgs,
    no_input: bool,
    stdin_is_terminal: bool,
) -> Result<DealUpdatePlan, CliErrorView> {
    if a.stdin {
        if update_has_flags(a) {
            Err(stdin_conflict_error())
        } else {
            Ok(DealUpdatePlan::Batch)
        }
    } else if a.id is None {
        Err(
            err_view(
                ErrorKind::Validation,
                "Missing deal ID"@,
                "Provide a deal ID or use --stdin."@,
            ),
        )
    } else if !update_has_flags(a) && (no_input || !stdin_is_terminal) {
        Err(
            err_view(
                ErrorKind::Validation,
                "No fields to update. Provide at least one flag."@,
                "Usage: pipelite deals update <id> --title <title> [--stage <stage_id>] [--value <value>]"@,
            ),
        )
    } else if update_has_flags(a) {
        Ok(DealUpdatePlan::Flags)
    } else {
        Ok(DealUpdatePlan::Prompt)
    }
}

/// Decides how `deals update` proceeds: `--stdin` is the exclusive batch
/// path; otherwise an ID is required, an empty headless update is refused,
/// flags are sent as given, and a terminal session with no flags prompts.
pub fn plan_deal_update(args: &DealsUpdateArgs, no_input: bool, stdin_is_terminal: bool) -> (r:
    Result<DealUpdatePlan, CliError>)
    ensures
        r is Ok <==> deal_update_plan_spec(*args, no_input, stdin_is_terminal) is Ok,
        r is Ok ==> Ok::<DealUpdatePlan, CliErrorView>(r->Ok_0) == deal_update_plan_spec(
            *args,
            no_input,
            stdin_is_terminal,
        ),
        r is Err ==> Err::<DealUpdatePlan, CliErrorView>(r->Err_0@) == deal_update_plan_spec(
            *args,
            no_input,
            stdin_is_terminal,
        ),
{
    let has_flags = args.title.is_some() || args.stage.is_some() || args.value.is_some()
        || args.org.is_some() || args.person.is_some() || args.expected_close_date.is_some()
        || args.notes.is_some() || args.custom_field.len() > 0 || args.custom_field_json.is_some();
    if args.stdin {
        if has_flags {
            return Err(stdin_conflict());
        }
        return Ok(DealUpdatePlan::Batch);
    }
    if args.id.is_none() {
        return Err(
            CliError::Validation {
                detail: owned("Missing deal ID"),
                hint: owned("Provide a deal ID or use --stdin."),
            },
        );
    }
    if !has_flags && (no_input || !stdin_is_terminal) {
        return Err(
            CliError::Validation {
                detail: owned("No fields to update. Provide at least one flag."),
                hint: owned(
                    "Usage: pipelite deals update <id> --title <title> [--stage <stage_id>] [--value <value>]",
                ),
            },
        );
    }
    if has_flags {
        Ok(DealUpdatePlan::Flags)
    } else {
        Ok(DealUpdatePlan::Prompt)
    }
}

/// Every field flag of `deals update` counts: with an ID and without
/// `--stdin`, any one of them is sent as given, never refused as an empty
/// update nor replaced by prompts; with `--stdin` any one of them is
/// refused as mixing the two inputs.
pub proof fn lemma_deal_update_counts_each_field_flag(
    a: DealsUpdateArgs,
    no_input: bool,
    stdin_is_terminal: bool,
)
    requires
        a.title is Some || a.stage is Some || a.value is Some || a.org is Some || a.person is Some
            || a.expected_close_date is Some || a.notes is Some || a.custom_field@.len() > 0
            || a.custom_field_json is Some,
    ensures
        !a.stdin && a.id is Some ==> deal_update_plan_spec(a, no_input, stdin_is_terminal) == Ok::<
            DealUpdatePlan,
            CliErrorView,
        >(DealUpdatePlan::Flags),
        a.stdin ==> deal_update_plan_spec(a, no_input, stdin_is_terminal) == Err::<
            DealUpdatePlan,
            CliErrorView,
        >(stdin_conflict_error()),
{
}

/// With no field flag at all, `deals update <id>` prompts on a terminal
/// and is refused otherwise; `--stdin` alone takes the batch path.
pub proof fn lemma_deal_update_without_field_flags(
    a: DealsUpdateArgs,
    no_input: bool,
    stdin_is_terminal: bool,
)
    requires
        a.title is None,
        a.stage is None,
        a.value is None,
        a.org is None,
        a.person is None,
        a.expected_close_date is None,
        a.notes is None,
        a.custom_field@.len() == 0,
        a.custom_field_json is None,
    ensures
        a.stdin ==> deal_update_plan_spec(a, no_input, stdin_is_terminal) == Ok::<
            DealUpdatePlan,
            CliErrorView,
        >(DealUpdatePlan::Batch),
        !a.stdin && a.id is Some && (no_input || !stdin_is_terminal) ==> deal_update_plan_spec(
            a,
            no_input,
            stdin_is_terminal,
        ) is Err,
        !a.stdin && a.id is Some && !no_input && stdin_is_terminal ==> deal_update_plan_spec(
            a,
            no_input,
            stdin_is_terminal,
        ) == Ok::<DealUpdatePlan, CliErrorView>(DealUpdatePlan::Prompt),
{
}

/// Every field flag of `deals create` counts against `--stdin`: with any
/// one of them the batch path is refused, with none it is taken.
pub proof fn lemma_deal_create_stdin_excludes_each_field_flag(a: DealsCreateArgs)
    ensures
        create_has_flags(a) == (a.title is Some || a.stage is Some || a.value is Some || a.org is Some
            || a.person is Some || a.expected_close_date is Some || a.notes is Some
            || a.custom_field@.len() > 0 || a.custom_field_json is Some),
{
}

/// The fields of a deal create or update request. `value` is the amount
/// as the JSON number text it is sent as.
pub struct DealFields {
    pub title: Option<String>,
    pub stage_id: Option<String>,
    pub value: Option<String>,
    pub organization_id: Option<String>,
    pub person_id: Option<String>,
    pub expected_close_date: Option<String>,
    pub notes: Option<String>,
    pub custom_fields: Option<JsonValue>,
}

/// The JSON number of an optional amount.
pub open spec fn number_of(v: Option<String>) -> Option<JsonValue> {
    match v {
        Some(t) => Some(JsonValue::Number(t)),
        None => None,
    }
}

/// The members of a deal request body: each field that is set, in the
/// order title, stage_id, value, organization_id, person_id,
/// expected_close_date, notes, custom_fields; an unset field is not sent.
pub open spec fn deal_members_spec(f: DealFields) -> Seq<(Seq<char>, JsonValue)> {
    opt_str_entry("title"@, f.title) + opt_str_entry("stage_id"@, f.stage_id) + opt_entry(
        "value"@,
        number_of(f.value),
    ) + opt_str_entry("organization_id"@, f.organization_id) + opt_str_entry(
        "person_id"@,
        f.person_id,
    ) + opt_str_entry("expected_close_date"@, f.expected_close_date) + opt_str_entry(
        "notes"@,
        f.notes,
    ) + opt_entry("custom_fields"@, f.custom_fields)
}

/// Builds the body of a deal create or update request from its fields.
pub fn deal_body(f: DealFields) -> (r: JsonValue)
    ensures
        r is Object,
        member_views(r->Object_0@) == deal_members_spec(f),
{
    let ghost g = f;
    let mut members: Vec<(String, JsonValue)> = Vec::new();
    assert(member_views(members@) =~= Seq::<(Seq<char>, JsonValue)>::empty());
    push_opt_str(&mut members, "title", &f.title);
    push_opt_str(&mut members, "stage_id", &f.stage_id);
    let value = match f.value {
        Some(t) => Some(JsonValue::Number(t)),
        None => None,
    };
    push_opt(&mut members, "value", value);
    push_opt_str(&mut members, "organization_id", &f.organization_id);
    push_opt_str(&mut members, "person_id", &f.person_id);
    push_opt_str(&mut members, "expected_close_date", &f.expected_close_date);
    push_opt_str(&mut members, "notes", &f.notes);
    push_opt(&mut members, "custom_fields", f.custom_fields);
    assert(member_views(members@) =~= deal_members_spec(g));
    JsonValue::Object(members)
}

/// A deal request body sends every given field under its wire key, with
/// the given value (the amount as a JSON number), and nothing else: under
/// each key a reader finds exactly the field, under no key an unset one,
/// and there is one member per set field.
pub proof fn lemma_deal_body_sends_each_given_field(f: DealFields)
    ensures
        lookup(deal_members_spec(f), "title"@) == opt_str_value(f.title),
        lookup(deal_members_spec(f), "stage_id"@) == opt_str_value(f.stage_id),
        lookup(deal_members_spec(f), "value"@) == (match f.value {
            Some(t) => Some(JsonValue::Number(t)),
            None => None,
        }),
        lookup(deal_members_spec(f), "organization_id"@) == opt_str_value(f.organization_id),
        lookup(deal_members_spec(f), "person_id"@) == opt_str_value(f.person_id),
        lookup(deal_members_spec(f), "expected_close_date"@) == opt_str_value(f.expected_close_date),
        lookup(deal_members_spec(f), "notes"@) == opt_str_value(f.notes),
        lookup(deal_members_spec(f), "custom_fields"@) == f.custom_fields,
        deal_members_spec(f).len() == set_count(f.title) + set_count(f.stage_id) + set_count(f.value)
            + set_count(f.organization_id) + set_count(f.person_id) + set_count(
            f.expected_close_date,
        ) + set_count(f.notes) + set_count(f.custom_fields),
{
    reveal_strlit("title");
    reveal_strlit("stage_id");
    reveal_strlit("value");
    reveal_strlit("organization_id");
    reveal_strlit("person_id");
    reveal_strlit("expected_close_date");
    reveal_strlit("notes");
    reveal_strlit("custom_fields");
    let p1 = opt_str_entry("title"@, f.title);
    let p2 = opt_str_entry("stage_id"@, f.stage_id);
    let p3 = opt_entry("value"@, number_of(f.value));
    let p4 = opt_str_entry("organization_id"@, f.organization_id);
    let p5 = opt_str_entry("person_id"@, f.person_id);
    let p6 = opt_str_entry("expected_close_date"@, f.expected_close_date);
    let p7 = opt_str_entry("notes"@, f.notes);
    let p8 = opt_entry("custom_fields"@, f.custom_fields);
    lemma_lookup_opt_entries("title"@, f.title, None);
    lemma_lookup_opt_entries("stage_id"@, f.stage_id, None);
    lemma_lookup_opt_entries("value"@, None, number_of(f.value));
    lemma_lookup_opt_entries("organization_id"@, f.organization_id, None);
    lemma_lookup_opt_entries("person_id"@, f.person_id, None);
    lemma_lookup_opt_entries("expected_close_date"@, f.expected_close_date, None);
    lemma_lookup_opt_entries("notes"@, f.notes, None);
    lemma_lookup_opt_entries("custom_fields"@, None, f.custom_fields);
    lemma_lookup_concat(p1, p2);
    lemma_lookup_concat(p1 + p2, p3);
    lemma_lookup_concat(p1 + p2 + p3, p4);
    lemma_lookup_concat(p1 + p2 + p3 + p4, p5);
    lemma_lookup_concat(p1 + p2 + p3 + p4 + p5, p6);
    lemma_lookup_concat(p1 + p2 + p3 + p4 + p5 + p6, p7);
    lemma_lookup_concat(p1 + p2 + p3 + p4 + p5 + p6 + p7, p8);
    assert(deal_members_spec(f) == p1 + p2 + p3 + p4 + p5 + p6 + p7 + p8);
    assert("title"@.len() == 5);
    assert("stage_id"@.len() == 8);
    assert("value"@.len() == 5);
    assert("organization_id"@.len() == 15);
    assert("person_id"@.len() == 9);
    assert("expected_close_date"@.len() == 19);
    assert("notes"@.len() == 5);
    assert("custom_fields"@.len() == 13);
    assert("title"@[0] != "value"@[0] && "title"@[0] != "notes"@[0] && "value"@[0] != "notes"@[0]);
}

} // verus!
