use pipelite::cli::activities::ActivitiesUpdateArgs;
use pipelite::commands::activities::{activity_body, null_completed_payload, ActivityFields};
use pipelite::commands::config::set_config_value;
use pipelite::commands::custom_field_flags::resolve_custom_field_flags;
use pipelite::commands::deals::{deal_body, DealFields};
use pipelite::config::AppConfig;
use pipelite::error::CliError;
use pipelite::json::JsonValue;

fn s(t: &str) -> Option<String> {
    Some(t.to_string())
}

fn object(members: Vec<(&str, JsonValue)>) -> JsonValue {
    JsonValue::Object(members.into_iter().map(|(k, v)| (k.to_string(), v)).collect())
}

fn text(t: &str) -> JsonValue {
    JsonValue::Str(t.to_string())
}

#[test]
fn deal_body_sends_only_the_fields_given() {
    let body = deal_body(DealFields {
        title: s("Big Deal"),
        stage_id: s("stg_1"),
        value: s("5000.0"),
        organization_id: None,
        person_id: s("per_1"),
        expected_close_date: None,
        notes: None,
        custom_fields: Some(object(vec![("tier", text("gold"))])),
    });
    assert_eq!(
        body,
        object(vec![
            ("title", text("Big Deal")),
            ("stage_id", text("stg_1")),
            ("value", JsonValue::Number("5000.0".to_string())),
            ("person_id", text("per_1")),
            ("custom_fields", object(vec![("tier", text("gold"))])),
        ])
    );
    let empty = deal_body(DealFields {
        title: None,
        stage_id: None,
        value: None,
        organization_id: None,
        person_id: None,
        expected_close_date: None,
        notes: s("n"),
        custom_fields: None,
    });
    assert_eq!(empty, object(vec![("notes", text("n"))]));
}

#[test]
fn activity_body_keeps_the_field_order() {
    let body = activity_body(ActivityFields {
        title: s("Call"),
        type_id: s("type_call"),
        deal_id: None,
        owner_id: None,
        due_at: s("2026-04-01T10:00:00Z"),
        completed_at: s("2026-04-02T10:00:00.000Z"),
        notes: None,
        custom_fields: None,
    });
    assert_eq!(
        body,
        object(vec![
            ("title", text("Call")),
            ("type_id", text("type_call")),
            ("due_at", text("2026-04-01T10:00:00Z")),
            ("completed_at", text("2026-04-02T10:00:00.000Z")),
        ])
    );
}

#[test]
fn clearing_payload_has_exactly_its_members() {
    let args = ActivitiesUpdateArgs {
        id: s("act_1"),
        stdin: false,
        title: s("Renamed"),
        type_id: None,
        deal: s("deal_7"),
        due_at: None,
        notes: s("n"),
        custom_field: vec![],
        custom_field_json: None,
        completed_at: None,
        mark_done: false,
        mark_undone: true,
    };
    assert_eq!(
        null_completed_payload(&args, Some(object(vec![("tier", text("gold"))]))),
        object(vec![
            ("completed_at", JsonValue::Null),
            ("title", text("Renamed")),
            ("deal_id", text("deal_7")),
            ("notes", text("n")),
            ("custom_fields", object(vec![("tier", text("gold"))])),
        ])
    );
}

#[test]
fn custom_field_flags_resolve_to_an_object() {
    let pairs = vec!["tier=gold".to_string(), "note=a=b".to_string(), "empty=".to_string()];
    assert_eq!(
        resolve_custom_field_flags(&pairs, &None),
        Ok(Some(object(vec![("tier", text("gold")), ("note", text("a=b")), ("empty", text(""))])))
    );
    assert_eq!(resolve_custom_field_flags(&vec![], &None), Ok(None));
    assert_eq!(
        resolve_custom_field_flags(&vec![], &s(r#"{"score":3}"#)),
        Ok(Some(object(vec![("score", JsonValue::Number("3".to_string()))])))
    );
}

#[test]
fn custom_field_flags_errors() {
    let expect_invalid = |r: Result<Option<JsonValue>, CliError>, want: &str| match r {
        Err(CliError::InvalidInput { detail, .. }) => assert!(detail.starts_with(want), "{detail}"),
        other => panic!("expected InvalidInput, got {other:?}"),
    };
    expect_invalid(
        resolve_custom_field_flags(&vec!["a=b".to_string()], &s("{}")),
        "--custom-field and --custom-field-json are mutually exclusive",
    );
    expect_invalid(
        resolve_custom_field_flags(&vec!["ok=1".to_string(), "bad".to_string(), "worse".to_string()], &None),
        "Invalid --custom-field 'bad'",
    );
    expect_invalid(resolve_custom_field_flags(&vec![], &s("[1]")), "--custom-field-json must be a JSON object");
    expect_invalid(resolve_custom_field_flags(&vec![], &s("{oops")), "Invalid JSON for --custom-field-json: ");
}

#[test]
fn config_set_then_get_reads_the_value_back() {
    let mut config = AppConfig::new("https://a".to_string(), "k".to_string());
    assert_eq!(set_config_value(&mut config, "server.url", "https://b"), Ok(()));
    assert_eq!(config.server.url, "https://b");
    assert_eq!(set_config_value(&mut config, "output.format", "json"), Ok(()));
    assert_eq!(config.output.format, s("json"));
    assert_eq!(set_config_value(&mut config, "display.no_color", "true"), Ok(()));
    assert_eq!(config.display.no_color, Some(true));
    assert_eq!(
        set_config_value(&mut config, "display.no_color", "yes"),
        Err("display.no_color must be true or false (got yes)".to_string())
    );
    assert_eq!(config.display.no_color, Some(true));
    let before = config.clone();
    assert!(set_config_value(&mut config, "server.port", "1").unwrap_err().starts_with("Unknown config key: server.port"));
    assert_eq!(config, before);
}
