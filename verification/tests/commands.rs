use pipelite::cli::activities::{ActivitiesCreateArgs, ActivitiesUpdateArgs};
use pipelite::commands::activities::{
    batch_create_error, batch_create_summary, delete_plan, filter_done, null_completed_payload,
    plan_activity_create, plan_activity_update, CreatePlan, DeletePlan, UpdatePlan,
};
use pipelite::commands::audit::{actor_text, effective_limit, entity_text};
use pipelite::commands::docs::{check_save_target, rehint_docs_error, DOCS_ERROR_HINT};
use pipelite::commands::notes::{
    body_file_error, body_source, body_stdin_error, resolve_entity_type, single_note_get_error,
    BodySource,
};
use pipelite::commands::pagination::{refresh_continues, AllPages, DashboardPages};
use pipelite::error::CliError;
use pipelite::json::JsonValue;

fn update_args() -> ActivitiesUpdateArgs {
    ActivitiesUpdateArgs {
        id: Some("act_1".to_string()),
        stdin: false,
        title: None,
        type_id: None,
        deal: None,
        due_at: None,
        notes: None,
        custom_field: vec![],
        custom_field_json: None,
        completed_at: None,
        mark_done: false,
        mark_undone: false,
    }
}

fn create_args() -> ActivitiesCreateArgs {
    ActivitiesCreateArgs {
        title: None,
        type_id: None,
        deal: None,
        due_at: None,
        notes: None,
        custom_field: vec![],
        custom_field_json: None,
        stdin: false,
    }
}

#[test]
fn null_completed_payload_includes_null_and_recognized_fields() {
    let mut args = update_args();
    args.title = Some("Renamed".to_string());
    args.mark_undone = true;
    let payload = null_completed_payload(&args, None);
    assert!(matches!(payload, JsonValue::Object(_)), "payload is an object");
    assert_eq!(payload.get("completed_at"), Some(&JsonValue::Null));
    assert_eq!(payload.get("title").and_then(|v| v.as_str()), Some("Renamed"));
    assert!(payload.get("id").is_none(), "id must not be sent as a payload field");
}

#[test]
fn null_completed_payload_sends_deal_as_deal_id_and_custom_fields() {
    let mut args = update_args();
    args.deal = Some("deal_7".to_string());
    let cf = || JsonValue::Object(vec![("tier".to_string(), JsonValue::Str("gold".to_string()))]);
    let payload = null_completed_payload(&args, Some(cf()));
    assert_eq!(payload.get("deal_id").and_then(|v| v.as_str()), Some("deal_7"));
    assert_eq!(payload.get("custom_fields"), Some(&cf()));
    assert!(payload.get("title").is_none());
    assert!(payload.get("deal").is_none());
}

#[test]
fn create_plan_separates_stdin_from_flags() {
    let mut args = create_args();
    assert_eq!(plan_activity_create(&args), Ok(CreatePlan::Single));
    args.stdin = true;
    assert_eq!(plan_activity_create(&args), Ok(CreatePlan::Batch));
    args.title = Some("t".to_string());
    match plan_activity_create(&args) {
        Err(CliError::InvalidInput { detail, .. }) => {
            assert_eq!(detail, "--stdin and individual field flags are mutually exclusive")
        }
        other => panic!("expected InvalidInput, got {other:?}"),
    }
}

#[test]
fn update_plan_follows_the_handler_order() {
    let mut args = update_args();
    assert_eq!(plan_activity_update(&args, false, true), Ok(UpdatePlan::Prompt));
    match plan_activity_update(&args, true, true) {
        Err(CliError::Validation { detail, .. }) => {
            assert_eq!(detail, "No fields to update. Provide at least one flag.")
        }
        other => panic!("expected Validation, got {other:?}"),
    }
    assert!(plan_activity_update(&args, false, false).is_err());
    args.mark_done = true;
    assert_eq!(plan_activity_update(&args, true, false), Ok(UpdatePlan::Flags));
    args.mark_done = false;
    args.mark_undone = true;
    assert_eq!(plan_activity_update(&args, true, false), Ok(UpdatePlan::ClearCompleted));
    args.id = None;
    match plan_activity_update(&args, false, true) {
        Err(CliError::Validation { detail, .. }) => assert_eq!(detail, "Missing activity ID"),
        other => panic!("expected Validation, got {other:?}"),
    }
    let mut batch = update_args();
    batch.id = None;
    batch.stdin = true;
    assert_eq!(plan_activity_update(&batch, true, false), Ok(UpdatePlan::Batch));
    batch.notes = Some("n".to_string());
    assert!(matches!(
        plan_activity_update(&batch, true, false),
        Err(CliError::InvalidInput { .. })
    ));
}

fn item(completed: Option<JsonValue>) -> JsonValue {
    let mut members = vec![("id".to_string(), JsonValue::Str("a".to_string()))];
    if let Some(c) = completed {
        members.push(("completed_at".to_string(), c));
    }
    JsonValue::Object(members)
}

#[test]
fn filter_done_keeps_only_completed_items() {
    let done = || item(Some(JsonValue::Str("2026-01-01T00:00:00Z".to_string())));
    let items = || vec![item(Some(JsonValue::Null)), done(), item(None), done()];
    assert_eq!(filter_done(items(), true), vec![done(), done()]);
    assert_eq!(filter_done(items(), false), items());
    assert_eq!(filter_done(vec![], true), vec![]);
}

#[test]
fn delete_plan_confirms_batches() {
    assert_eq!(delete_plan(1, false), DeletePlan::Single);
    assert_eq!(delete_plan(1, true), DeletePlan::Batch);
    assert_eq!(delete_plan(3, false), DeletePlan::Batch);
    assert_eq!(delete_plan(0, true), DeletePlan::Batch);
}

#[test]
fn batch_create_reports_counts() {
    assert_eq!(
        batch_create_summary(2, 3, 1),
        "Created 2/3. 1 failed (see errors above)."
    );
    match batch_create_error(1, 3) {
        CliError::Api { status, detail, hint } => {
            assert_eq!(status, 0);
            assert_eq!(detail, "1 of 3 items failed");
            assert_eq!(hint, "Review errors above and retry failed items.");
        }
        other => panic!("expected Api, got {other:?}"),
    }
}

#[test]
fn audit_limit_is_clamped_into_server_range() {
    assert_eq!(effective_limit(0), 1);
    assert_eq!(effective_limit(1), 1);
    assert_eq!(effective_limit(50), 50);
    assert_eq!(effective_limit(100), 100);
    assert_eq!(effective_limit(101), 100);
    assert_eq!(effective_limit(u64::MAX), 100);
}

#[test]
fn docs_refuses_to_overwrite_without_force() {
    assert_eq!(check_save_target(&None, true, false), Ok(()));
    assert_eq!(check_save_target(&Some("api.json".to_string()), false, false), Ok(()));
    assert_eq!(check_save_target(&Some("api.json".to_string()), true, true), Ok(()));
    match check_save_target(&Some("api.json".to_string()), true, false) {
        Err(CliError::InvalidInput { detail, .. }) => {
            assert_eq!(detail, "Refusing to overwrite existing file: api.json")
        }
        other => panic!("expected InvalidInput, got {other:?}"),
    }
}

#[test]
fn docs_errors_get_the_docs_hint() {
    let e = rehint_docs_error(CliError::NotFound { detail: "nf".to_string(), hint: "h".to_string() });
    assert_eq!(e, CliError::NotFound { detail: "nf".to_string(), hint: DOCS_ERROR_HINT.to_string() });
    let e = rehint_docs_error(CliError::Api { status: 502, detail: "d".to_string(), hint: "h".to_string() });
    assert_eq!(
        e,
        CliError::Api { status: 502, detail: "d".to_string(), hint: DOCS_ERROR_HINT.to_string() }
    );
    let auth = CliError::Auth { detail: "a".to_string(), hint: "b".to_string() };
    assert_eq!(rehint_docs_error(auth.clone()), auth);
}

#[test]
fn notes_routes_by_entity_type() {
    assert_eq!(resolve_entity_type("deals").unwrap(), "deals");
    assert_eq!(resolve_entity_type("orgs").unwrap(), "organizations");
    assert_eq!(resolve_entity_type("people").unwrap(), "people");
    assert_eq!(resolve_entity_type("activities").unwrap(), "activities");
    match resolve_entity_type("deal") {
        Err(CliError::InvalidInput { detail, .. }) => assert_eq!(
            detail,
            "Notes are not available on 'deal' — notes are only available on deals, orgs, people, activities"
        ),
        other => panic!("expected InvalidInput, got {other:?}"),
    }
    assert!(matches!(single_note_get_error(), CliError::InvalidInput { .. }));
}

#[test]
fn note_body_source_precedence() {
    let lit = Some("hello".to_string());
    assert_eq!(body_source(&lit, false, false, true, true), Ok(BodySource::Literal("hello".to_string())));
    let file = Some("@notes.txt".to_string());
    assert_eq!(body_source(&file, false, true, false, false), Ok(BodySource::File("notes.txt".to_string())));
    let dash = Some("@-".to_string());
    assert_eq!(body_source(&dash, false, true, false, false), Ok(BodySource::Stdin));
    assert_eq!(body_source(&None, true, true, false, false), Ok(BodySource::Stdin));
    assert_eq!(body_source(&None, false, false, true, true), Ok(BodySource::Prompt));
    assert!(matches!(body_source(&dash, true, false, true, true), Err(CliError::InvalidInput { .. })));
    assert!(matches!(body_source(&None, false, true, true, true), Err(CliError::MissingInput { .. })));
    assert!(matches!(body_source(&None, false, false, true, false), Err(CliError::MissingInput { .. })));
}

#[test]
fn list_all_stops_at_total_or_ceiling() {
    let mut pages = AllPages::new();
    assert!(pages.record_page(100, 250));
    assert_eq!(pages.offset, 100);
    assert!(pages.record_page(100, 250));
    assert!(!pages.record_page(50, 250));
    assert_eq!(pages.collected, 250);
    assert!(!pages.truncated());
    let meta = pages.combined_meta();
    assert_eq!((meta.total, meta.offset, meta.limit), (250, 0, 250));

    let mut big = AllPages::new();
    let mut fetched = 0;
    while big.record_page(100, 5000) {
        fetched += 1;
    }
    assert_eq!(fetched, 9);
    assert_eq!(big.collected, 1000);
    assert!(big.truncated());
}

#[test]
fn list_all_follows_a_server_that_caps_pages() {
    let mut pages = AllPages::new();
    assert!(pages.record_page(50, 150));
    assert_eq!(pages.offset, 50);
    assert!(pages.record_page(50, 150));
    assert_eq!(pages.offset, 100);
    assert!(!pages.record_page(50, 150));
    assert_eq!(pages.collected, 150);
    let meta = pages.combined_meta();
    assert_eq!((meta.total, meta.offset, meta.limit), (150, 0, 150));

    let mut empty = AllPages::new();
    assert!(pages.total > 0);
    assert!(!empty.record_page(0, 40));
    assert_eq!((empty.offset, empty.collected), (0, 0));
}

#[test]
fn refresh_continues_only_after_full_pages() {
    assert!(refresh_continues(100));
    assert!(!refresh_continues(99));
    assert!(!refresh_continues(0));
}

#[test]
fn dashboard_advances_by_records_received() {
    let mut pages = DashboardPages::new();
    assert!(pages.record_page(200, 450));
    assert_eq!(pages.offset, 200);
    assert!(pages.record_page(200, 450));
    assert_eq!(pages.offset, 400);
    assert!(!pages.record_page(50, 450));
    assert_eq!(pages.collected, 450);
    let mut short = DashboardPages::new();
    assert!(!short.record_page(0, 10));
    assert_eq!(short.offset, 0);
}

#[test]
fn note_body_read_errors_name_their_cause() {
    match body_file_error("n.md", "No such file or directory (os error 2)") {
        CliError::InvalidInput { detail, .. } => {
            assert_eq!(detail, "Failed to read file 'n.md': No such file or directory (os error 2)")
        }
        other => panic!("expected InvalidInput, got {other:?}"),
    }
    match body_stdin_error("stream did not contain valid UTF-8") {
        CliError::InvalidInput { detail, hint } => {
            assert_eq!(detail, "Failed to read stdin: stream did not contain valid UTF-8");
            assert_eq!(hint, "Check that stdin is providing readable UTF-8 text.");
        }
        other => panic!("expected InvalidInput, got {other:?}"),
    }
}

#[test]
fn audit_cells_name_actor_and_entity() {
    let some = |s: &str| Some(s.to_string());
    assert_eq!(actor_text("user", &some("usr_1"), &some("run_9"), &None), "user (usr_1)");
    assert_eq!(actor_text("workflow_run", &None, &some("run_9"), &some("imp_2")), "workflow_run (run_9)");
    assert_eq!(actor_text("import", &None, &None, &some("imp_2")), "import (imp_2)");
    assert_eq!(actor_text("system", &None, &None, &None), "system");
    assert_eq!(entity_text("deal", "deal_1"), "deal/deal_1");
}
