use pipelite::cli::custom_fields::CustomFieldsCreateArgs;
use pipelite::commands::custom_fields::{
    build_options_config, check_create_sources, definition_from_flags, missing_create_flags,
    normalize_definition_type, normalize_entity_type, parse_definition_body,
};
use pipelite::error::CliError;
use pipelite::json::JsonValue;

#[test]
fn entity_type_normalization_maps_all_nine_aliases() {
    for (input, expected) in [
        ("deal", "deal"),
        ("deals", "deal"),
        ("organization", "organization"),
        ("organizations", "organization"),
        ("orgs", "organization"),
        ("person", "person"),
        ("people", "person"),
        ("activity", "activity"),
        ("activities", "activity"),
    ] {
        assert_eq!(
            normalize_entity_type(input).expect(input),
            expected,
            "alias '{input}' must normalize to '{expected}'"
        );
    }
}

#[test]
fn entity_type_normalization_is_case_sensitive_and_rejects_unknown() {
    for bad in ["Deal", "DEALS", "notes", "bogus", ""] {
        let err = normalize_entity_type(bad).expect_err(bad);
        match err {
            CliError::InvalidInput { detail, hint } => {
                assert!(detail.contains(bad), "detail must name the offending input: {detail}");
                for token in ["deal", "organization", "person", "activity"] {
                    assert!(hint.contains(token), "hint must list the server token '{token}': {hint}");
                }
            }
            other => panic!("expected InvalidInput, got {other:?}"),
        }
    }
}

#[test]
fn definition_type_normalization_passes_all_ten_tokens() {
    for token in [
        "text",
        "number",
        "date",
        "boolean",
        "single_select",
        "multi_select",
        "file",
        "url",
        "lookup",
        "formula",
    ] {
        assert_eq!(
            normalize_definition_type(token).expect(token),
            token,
            "server token '{token}' must pass through verbatim"
        );
    }
}

#[test]
fn definition_type_normalization_maps_select_alias() {
    assert_eq!(
        normalize_definition_type("select").expect("select"),
        "single_select",
        "select is an alias for the wire enum single_select"
    );
}

#[test]
fn definition_type_normalization_is_case_sensitive() {
    for bad in ["Single_Select", "SELECT", "string", "dropdown", ""] {
        let err = normalize_definition_type(bad).expect_err(bad);
        match err {
            CliError::InvalidInput { detail, hint } => {
                assert!(detail.contains(bad), "detail: {detail}");
                for token in [
                    "text",
                    "number",
                    "boolean",
                    "date",
                    "single_select",
                    "multi_select",
                    "file",
                    "url",
                    "lookup",
                    "formula",
                ] {
                    assert!(hint.contains(token), "hint must list '{token}': {hint}");
                }
                assert!(hint.contains("select is an alias"), "hint must note the select alias: {hint}");
            }
            other => panic!("expected InvalidInput, got {other:?}"),
        }
    }
}

fn options_object(items: &[&str]) -> JsonValue {
    JsonValue::Object(vec![(
        "options".to_string(),
        JsonValue::Array(items.iter().map(|s| JsonValue::Str(s.to_string())).collect()),
    )])
}

#[test]
fn options_config_builds_flat_array_skipping_empty_segments() {
    let options: Vec<String> = vec!["a".to_string(), "".to_string(), "b".to_string()];
    assert_eq!(
        build_options_config(&options),
        options_object(&["a", "b"]),
        "empty segments are skipped; the value is a REAL JSON array, never a comma-string"
    );
    assert_eq!(
        build_options_config(&[]),
        options_object(&[]),
        "an empty segment list still builds a valid (empty) options array"
    );
}

#[test]
fn normalizing_a_token_twice_changes_nothing() {
    for alias in ["deals", "orgs", "people", "activities"] {
        let once = normalize_entity_type(alias).unwrap();
        assert_eq!(normalize_entity_type(once).unwrap(), once);
    }
    let once = normalize_definition_type("select").unwrap();
    assert_eq!(normalize_definition_type(once).unwrap(), once);
}

fn create_args() -> CustomFieldsCreateArgs {
    CustomFieldsCreateArgs {
        entity_type: None,
        key: None,
        field_type: None,
        options: None,
        required: false,
        show_in_list: false,
        stdin: false,
    }
}

#[test]
fn stdin_excludes_create_flags() {
    let mut args = create_args();
    args.stdin = true;
    assert!(check_create_sources(&args).is_ok());
    args.required = true;
    match check_create_sources(&args) {
        Err(CliError::InvalidInput { detail, .. }) => {
            assert_eq!(detail, "--stdin and create flags are mutually exclusive")
        }
        other => panic!("expected InvalidInput, got {other:?}"),
    }
}

#[test]
fn missing_flags_are_listed_in_order() {
    let mut args = create_args();
    assert_eq!(missing_create_flags(&args), vec!["--entity-type", "--key", "--type"]);
    args.key = Some("tier".to_string());
    assert_eq!(missing_create_flags(&args), vec!["--entity-type", "--type"]);
}

#[test]
fn definition_from_flags_normalizes_and_builds_options() {
    let mut args = create_args();
    args.entity_type = Some("deals".to_string());
    args.key = Some("tier".to_string());
    args.field_type = Some("select".to_string());
    args.options = Some(vec!["gold".to_string(), "".to_string(), "silver".to_string()]);
    args.required = true;
    let d = definition_from_flags(&args).unwrap();
    assert_eq!(d.name, "tier");
    assert_eq!(d.entity_type, "deal");
    assert_eq!(d.type_, "single_select");
    assert!(d.required);
    assert!(!d.show_in_list);
    assert_eq!(d.config, Some(options_object(&["gold", "silver"])));
}

#[test]
fn definition_from_flags_checks_options_against_type() {
    let mut args = create_args();
    args.entity_type = Some("people".to_string());
    args.key = Some("size".to_string());
    args.field_type = Some("multi_select".to_string());
    match definition_from_flags(&args) {
        Err(CliError::InvalidInput { detail, .. }) => {
            assert_eq!(detail, "--type multi_select requires --options")
        }
        other => panic!("expected InvalidInput, got {other:?}"),
    }
    args.field_type = Some("number".to_string());
    args.options = Some(vec!["a".to_string()]);
    match definition_from_flags(&args) {
        Err(CliError::InvalidInput { detail, .. }) => assert_eq!(
            detail,
            "--options only applies to select/single_select/multi_select (got --type number)"
        ),
        other => panic!("expected InvalidInput, got {other:?}"),
    }
    args.options = None;
    let d = definition_from_flags(&args).unwrap();
    assert_eq!(d.entity_type, "person");
    assert_eq!(d.config, None);
}

#[test]
fn stdin_body_must_be_json_with_known_vocabulary() {
    let ok = parse_definition_body(r#"{"name":"tier","entity_type":"deal","type":"text"}"#).unwrap();
    assert_eq!(ok.get("name").and_then(|v| v.as_str()), Some("tier"));
    match parse_definition_body("not json") {
        Err(CliError::Validation { detail, .. }) => assert!(detail.starts_with("Invalid JSON input: ")),
        other => panic!("expected Validation, got {other:?}"),
    }
    match parse_definition_body(r#"{"entity_type":"widgets","type":"text"}"#) {
        Err(CliError::InvalidInput { detail, .. }) => {
            assert_eq!(detail, "Unknown entity type 'widgets'")
        }
        other => panic!("expected InvalidInput, got {other:?}"),
    }
    match parse_definition_body(r#"{"entity_type":"deals","type":"Text"}"#) {
        Err(CliError::InvalidInput { detail, .. }) => {
            assert_eq!(detail, "Unknown definition type 'Text'")
        }
        other => panic!("expected InvalidInput, got {other:?}"),
    }
}
