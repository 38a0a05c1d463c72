use pipelite::commands::config::{config_table, mask_api_key, resolve_config_key};
use pipelite::config::AppConfig;

#[test]
fn mask_api_key_empty() {
    assert_eq!(mask_api_key(""), "(not set)");
}

#[test]
fn mask_api_key_short() {
    assert_eq!(mask_api_key("abc"), "abc...");
}

#[test]
fn mask_api_key_normal() {
    assert_eq!(mask_api_key("pk_live_abc123xyz"), "pk_live_...");
}

#[test]
fn mask_api_key_counts_characters() {
    assert_eq!(mask_api_key("aéééé"), "aéééé...");
    assert_eq!(mask_api_key("ééééééééé"), "éééééééé...");
}

#[test]
fn mask_api_key_exactly_eight_bytes_is_shown_whole() {
    assert_eq!(mask_api_key("12345678"), "12345678...");
    assert_eq!(mask_api_key("123456789"), "12345678...");
}

#[test]
fn config_table_has_all_rows() {
    let config = AppConfig::new(
        "https://test.example.com".to_string(),
        "pk_test_longkey123".to_string(),
    );
    let tbl = config_table(&config);
    let output = tbl.to_string();
    assert!(output.contains("server.url"));
    assert!(output.contains("test.example.com"));
    assert!(output.contains("server.api_key"));
    assert!(output.contains("pk_test_..."));
    assert!(output.contains("output.format"));
    assert!(output.contains("display.no_color"));
}

#[test]
fn config_table_spells_out_defaults_and_hides_the_key() {
    let config = AppConfig::new("https://x.example".to_string(), "secret_key_value".to_string());
    let output = config_table(&config).to_string();
    assert!(output.contains("(default: table)"));
    assert!(output.contains("(default: false)"));
    assert!(output.contains("Key"));
    assert!(output.contains("Value"));
    assert!(!output.contains("secret_key_value"));
}

#[test]
fn config_get_resolves_each_key() {
    let mut config = AppConfig::new("https://x.example".to_string(), "k".to_string());
    assert_eq!(resolve_config_key(&config, "server.url"), Ok("https://x.example".to_string()));
    assert_eq!(resolve_config_key(&config, "server.api_key"), Ok("k".to_string()));
    assert_eq!(resolve_config_key(&config, "output.format"), Ok("table".to_string()));
    assert_eq!(resolve_config_key(&config, "display.no_color"), Ok("false".to_string()));
    config.output.format = Some("json".to_string());
    config.display.no_color = Some(true);
    assert_eq!(resolve_config_key(&config, "output.format"), Ok("json".to_string()));
    assert_eq!(resolve_config_key(&config, "display.no_color"), Ok("true".to_string()));
}

#[test]
fn config_get_rejects_unknown_keys() {
    let config = AppConfig::new(String::new(), String::new());
    assert_eq!(
        resolve_config_key(&config, "server.port"),
        Err("Unknown config key: server.port. Valid keys: server.url, server.api_key, output.format, display.no_color".to_string())
    );
}
