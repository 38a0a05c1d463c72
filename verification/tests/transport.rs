use pipelite::api::errors::{
    delete_response_error, forbidden_hint, response_error, response_parse_error,
};
use pipelite::api::transport::{
    check_auth_status, fallback_step, invalid_ping_body, ping_step, request_error,
    retry_after_secs, PingStep, MAX_RETRY_AFTER_SECS,
};
use pipelite::error::CliError;

#[test]
fn forbidden_hint_names_each_surface() {
    assert_eq!(forbidden_hint("audit"), "The audit log requires an admin API key.");
    assert_eq!(forbidden_hint("trash"), "Permanent purge requires an admin API key.");
    assert_eq!(
        forbidden_hint("notes"),
        "You can only modify your own notes (or use an admin key)."
    );
    assert_eq!(forbidden_hint("webhooks"), "This webhook belongs to another user.");
    assert_eq!(
        forbidden_hint("deals"),
        "Your API key doesn't have permission for this action."
    );
    assert_eq!(forbidden_hint("general"), forbidden_hint("anything else"));
}

#[test]
fn response_error_maps_each_status() {
    assert!(matches!(response_error(401, "deals", "d".to_string()), CliError::Auth { .. }));
    match response_error(403, "audit", "no".to_string()) {
        CliError::Forbidden { detail, hint } => {
            assert_eq!(detail, "no");
            assert_eq!(hint, "The audit log requires an admin API key.");
        }
        other => panic!("expected Forbidden, got {other:?}"),
    }
    assert!(matches!(response_error(404, "deals", "x".to_string()), CliError::NotFound { .. }));
    match response_error(409, "workflows", "inactive".to_string()) {
        CliError::Api { status, detail, hint } => {
            assert_eq!(status, 409);
            assert_eq!(detail, "inactive");
            assert!(hint.starts_with("Workflow trigger is inactive"));
        }
        other => panic!("expected Api, got {other:?}"),
    }
    match response_error(409, "deals", "dup".to_string()) {
        CliError::Api { hint, .. } => assert_eq!(hint, "Resolve the conflict and try again."),
        other => panic!("expected Api, got {other:?}"),
    }
    assert!(matches!(response_error(422, "deals", "x".to_string()), CliError::Validation { .. }));
    match response_error(429, "deals", "ignored".to_string()) {
        CliError::Api { status, detail, .. } => {
            assert_eq!(status, 429);
            assert!(detail.starts_with("Rate limited"));
        }
        other => panic!("expected Api, got {other:?}"),
    }
    match response_error(500, "deals", "boom".to_string()) {
        CliError::Api { status, detail, hint } => {
            assert_eq!(status, 500);
            assert_eq!(detail, "boom");
            assert_eq!(hint, "The server returned an error. Try again later.");
        }
        other => panic!("expected Api, got {other:?}"),
    }
}

#[test]
fn delete_errors_map_like_every_other_request() {
    match delete_response_error(422, "deals", "bad".to_string()) {
        CliError::Validation { detail, hint } => {
            assert_eq!(detail, "bad");
            assert_eq!(hint, "Check the request parameters and try again.");
        }
        other => panic!("expected Validation, got {other:?}"),
    }
    for status in [401u16, 403, 404, 409, 422, 429, 500, 503] {
        assert_eq!(
            delete_response_error(status, "trash", "d".to_string()),
            response_error(status, "trash", "d".to_string())
        );
    }
}

#[test]
fn auth_status_rejects_401_and_403_only() {
    match check_auth_status(401, "https://api.example/ping") {
        Err(CliError::Auth { detail, .. }) => {
            assert_eq!(detail, "Server returned 401 Unauthorized for https://api.example/ping")
        }
        other => panic!("expected Auth, got {other:?}"),
    }
    match check_auth_status(403, "u") {
        Err(CliError::Forbidden { detail, hint }) => {
            assert_eq!(detail, "Server returned 403 Forbidden for u");
            assert_eq!(hint, forbidden_hint("general"));
        }
        other => panic!("expected Forbidden, got {other:?}"),
    }
    assert_eq!(check_auth_status(200, "u"), Ok(()));
    assert_eq!(check_auth_status(500, "u"), Ok(()));
}

#[test]
fn ping_decides_by_status() {
    assert_eq!(ping_step(200, "200 OK", "u"), Ok(PingStep::ReadStatus));
    assert_eq!(ping_step(404, "404 Not Found", "u"), Ok(PingStep::Fallback));
    match ping_step(502, "502 Bad Gateway", "u") {
        Err(CliError::Connection { detail, .. }) => {
            assert_eq!(detail, "Server returned HTTP 502 Bad Gateway")
        }
        other => panic!("expected Connection, got {other:?}"),
    }
    assert!(matches!(ping_step(401, "401", "u"), Err(CliError::Auth { .. })));
    assert_eq!(fallback_step(204, "204", "u"), Ok(()));
    assert!(matches!(fallback_step(404, "404 Not Found", "u"), Err(CliError::Connection { .. })));
    assert!(matches!(fallback_step(403, "403", "u"), Err(CliError::Forbidden { .. })));
}

#[test]
fn request_errors_by_cause() {
    match request_error(true, true, "https://a", "x") {
        CliError::Connection { detail, .. } => {
            assert_eq!(detail, "Request timed out connecting to https://a")
        }
        other => panic!("expected Connection, got {other:?}"),
    }
    match request_error(false, true, "https://a", "x") {
        CliError::Connection { detail, .. } => assert_eq!(detail, "Could not connect to https://a"),
        other => panic!("expected Connection, got {other:?}"),
    }
    match request_error(false, false, "https://a", "dns") {
        CliError::Connection { detail, .. } => assert_eq!(detail, "HTTP request failed: dns"),
        other => panic!("expected Connection, got {other:?}"),
    }
    match invalid_ping_body("eof") {
        CliError::Connection { detail, .. } => {
            assert_eq!(detail, "Invalid response from server: eof")
        }
        other => panic!("expected Connection, got {other:?}"),
    }
}

#[test]
fn retry_after_is_read_and_capped() {
    assert_eq!(retry_after_secs(None), 1);
    assert_eq!(retry_after_secs(Some("5")), 5);
    assert_eq!(retry_after_secs(Some("0")), 0);
    assert_eq!(retry_after_secs(Some("60")), 60);
    assert_eq!(retry_after_secs(Some("3600")), MAX_RETRY_AFTER_SECS);
    assert_eq!(retry_after_secs(Some("99999999999999999999999")), 1);
    assert_eq!(retry_after_secs(Some("")), 1);
    assert_eq!(retry_after_secs(Some("1.5")), 1);
    assert_eq!(retry_after_secs(Some("Wed, 21 Oct 2015 07:28:00 GMT")), 1);
}

#[test]
fn unexpected_success_body_is_an_api_error() {
    assert_eq!(
        response_parse_error(200, "missing field `data`"),
        CliError::Api {
            status: 200,
            detail: "Failed to parse response: missing field `data`".to_string(),
            hint: "The server returned an unexpected response format.".to_string(),
        }
    );
}

#[test]
fn base_urls_lose_trailing_slashes() {
    assert_eq!(pipelite::text::trim_end_slashes("https://crm.example.com///"), "https://crm.example.com");
    assert_eq!(pipelite::text::trim_end_slashes("https://crm.example.com"), "https://crm.example.com");
    assert_eq!(pipelite::text::trim_end_slashes("/"), "");
}
