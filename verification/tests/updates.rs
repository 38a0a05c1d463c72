use pipelite::cli::custom_fields::CustomFieldsUpdateArgs;
use pipelite::cli::deals::{DealsCreateArgs, DealsUpdateArgs};
use pipelite::commands::activities::CreatePlan;
use pipelite::commands::custom_fields_update::{
    check_update_sources, immutable_warning, parse_config_flag, update_body_from_flags,
    update_body_from_stdin,
};
use pipelite::commands::deals::{
    deal_stage_source, plan_deal_create, plan_deal_update, DealUpdatePlan, StageSource,
};
use pipelite::error::CliError;
use pipelite::json::JsonValue;

fn deal_create() -> DealsCreateArgs {
    DealsCreateArgs {
        title: None,
        stage: None,
        value: None,
        org: None,
        person: None,
        expected_close_date: None,
        notes: None,
        custom_field: vec![],
        custom_field_json: None,
        stdin: false,
    }
}

fn deal_update() -> DealsUpdateArgs {
    DealsUpdateArgs {
        id: Some("deal_1".to_string()),
        stdin: false,
        title: None,
        stage: None,
        value: None,
        org: None,
        person: None,
        expected_close_date: None,
        notes: None,
        custom_field: vec![],
        custom_field_json: None,
    }
}

#[test]
fn deal_create_plan_separates_stdin_from_flags() {
    let mut args = deal_create();
    assert_eq!(plan_deal_create(&args), Ok(CreatePlan::Single));
    args.stdin = true;
    assert_eq!(plan_deal_create(&args), Ok(CreatePlan::Batch));
    args.value = Some("5000".to_string());
    assert!(matches!(plan_deal_create(&args), Err(CliError::InvalidInput { .. })));
}

#[test]
fn deal_stage_comes_from_flag_pick_or_nowhere() {
    assert_eq!(deal_stage_source(true, false, true), StageSource::Flag);
    assert_eq!(deal_stage_source(false, true, false), StageSource::Select);
    assert_eq!(deal_stage_source(false, true, true), StageSource::Missing);
    assert_eq!(deal_stage_source(false, false, false), StageSource::Missing);
}

#[test]
fn deal_update_plan_follows_the_handler_order() {
    let mut args = deal_update();
    assert_eq!(plan_deal_update(&args, false, true), Ok(DealUpdatePlan::Prompt));
    match plan_deal_update(&args, true, true) {
        Err(CliError::Validation { detail, hint }) => {
            assert_eq!(detail, "No fields to update. Provide at least one flag.");
            assert!(hint.starts_with("Usage: pipelite deals update"));
        }
        other => panic!("expected Validation, got {other:?}"),
    }
    args.custom_field = vec!["tier=gold".to_string()];
    assert_eq!(plan_deal_update(&args, true, false), Ok(DealUpdatePlan::Flags));
    args.id = None;
    match plan_deal_update(&args, false, true) {
        Err(CliError::Validation { detail, .. }) => assert_eq!(detail, "Missing deal ID"),
        other => panic!("expected Validation, got {other:?}"),
    }
    args.stdin = true;
    assert!(matches!(plan_deal_update(&args, false, true), Err(CliError::InvalidInput { .. })));
    args.custom_field = vec![];
    assert_eq!(plan_deal_update(&args, false, true), Ok(DealUpdatePlan::Batch));
}

fn cf_update() -> CustomFieldsUpdateArgs {
    CustomFieldsUpdateArgs {
        definition_id: "cfd_1".to_string(),
        name: None,
        config: None,
        required: false,
        no_required: false,
        show_in_list: false,
        no_show_in_list: false,
        position: None,
        stdin: false,
    }
}

fn object(members: Vec<(&str, JsonValue)>) -> JsonValue {
    JsonValue::Object(members.into_iter().map(|(k, v)| (k.to_string(), v)).collect())
}

#[test]
fn update_flags_build_only_given_keys() {
    let mut args = cf_update();
    args.name = Some("price".to_string());
    args.required = true;
    args.no_required = true;
    args.show_in_list = true;
    args.position = Some("20000.0".to_string());
    assert_eq!(
        update_body_from_flags(&args).unwrap(),
        object(vec![
            ("name", JsonValue::Str("price".to_string())),
            ("required", JsonValue::Bool(false)),
            ("show_in_list", JsonValue::Bool(true)),
            ("position", JsonValue::Number("20000.0".to_string())),
        ])
    );
}

#[test]
fn update_flags_parse_config_as_object() {
    let mut args = cf_update();
    args.config = Some(r#"{"options":["a","b"]}"#.to_string());
    assert_eq!(
        update_body_from_flags(&args).unwrap(),
        object(vec![(
            "config",
            object(vec![(
                "options",
                JsonValue::Array(vec![
                    JsonValue::Str("a".to_string()),
                    JsonValue::Str("b".to_string())
                ])
            )])
        )])
    );
    args.config = Some("[1, 2]".to_string());
    match update_body_from_flags(&args) {
        Err(CliError::InvalidInput { detail, .. }) => {
            assert_eq!(detail, "--config must be a JSON object (got [1,2])")
        }
        other => panic!("expected InvalidInput, got {other:?}"),
    }
}

#[test]
fn update_without_flags_is_refused() {
    match update_body_from_flags(&cf_update()) {
        Err(CliError::InvalidInput { detail, .. }) => assert!(detail.starts_with("nothing to update")),
        other => panic!("expected InvalidInput, got {other:?}"),
    }
    let mut args = cf_update();
    args.stdin = true;
    assert_eq!(check_update_sources(&args), Ok(()));
    args.no_show_in_list = true;
    assert!(matches!(check_update_sources(&args), Err(CliError::InvalidInput { .. })));
}

#[test]
fn config_flag_errors() {
    match parse_config_flag("{oops") {
        Err(CliError::InvalidInput { detail, .. }) => {
            assert!(detail.starts_with("Invalid JSON for --config: "))
        }
        other => panic!("expected InvalidInput, got {other:?}"),
    }
    match parse_config_flag(r#""text""#) {
        Err(CliError::InvalidInput { detail, .. }) => {
            assert_eq!(detail, r#"--config must be a JSON object (got "text")"#)
        }
        other => panic!("expected InvalidInput, got {other:?}"),
    }
    assert!(parse_config_flag("{}").is_ok());
}

#[test]
fn stdin_update_strips_immutable_keys() {
    let update =
        update_body_from_stdin(r#"{"entity_type":"deal","name":"price","type":"number"}"#).unwrap();
    assert_eq!(update.body, object(vec![("name", JsonValue::Str("price".to_string()))]));
    assert_eq!(update.stripped, vec!["entity_type", "type"]);
    assert_eq!(
        immutable_warning(&update.stripped),
        Some("Warning: entity_type and type are immutable — removed from the update.".to_string())
    );
    let plain = update_body_from_stdin(r#"{"required":true}"#).unwrap();
    assert!(plain.stripped.is_empty());
    assert_eq!(immutable_warning(&plain.stripped), None);
    assert_eq!(
        immutable_warning(&vec!["type"]),
        Some("Warning: type is immutable — removed from the update.".to_string())
    );
}

#[test]
fn stdin_update_errors() {
    match update_body_from_stdin(r#"{"type":"text"}"#) {
        Err(CliError::InvalidInput { detail, .. }) => {
            assert_eq!(detail, "nothing to update — the stdin body carried only immutable keys")
        }
        other => panic!("expected InvalidInput, got {other:?}"),
    }
    match update_body_from_stdin("[true]") {
        Err(CliError::InvalidInput { detail, hint }) => {
            assert_eq!(detail, "The stdin body must be a JSON object");
            assert_eq!(hint, r#"Got [true]; e.g. {"name":"price"}"#);
        }
        other => panic!("expected InvalidInput, got {other:?}"),
    }
    match update_body_from_stdin("nope") {
        Err(CliError::Validation { detail, .. }) => assert!(detail.starts_with("Invalid JSON input: ")),
        other => panic!("expected Validation, got {other:?}"),
    }
}
