//! Mapping HTTP outcomes to user-facing errors.

use vstd::prelude::*;

use crate::error::{err_view, CliError, CliErrorView, ErrorKind};
use crate::text::{concat2, owned, str_eq};

verus! {

/// The Forbidden hint for each surface a request serves.
pub open spec fn forbidden_hint_spec(surface: Seq<char>) -> Seq<char> {
    if surface == "audit"@ {
        "The audit log requires an admin API key."@
    } else if surface == "trash"@ {
        "Permanent purge requires an admin API key."@
    } else if surface == "notes"@ {
        "You can only modify your own notes (or use an admin key)."@
    } else if surface == "webhooks"@ {
        "This webhook belongs to another user."@
    } else {
        "Your API key doesn't have permission for this action."@
    }
}

/// Per-surface Forbidden hint: the audit log and trash purge need an admin
/// key, notes and webhooks are owner-scoped, and every other surface gets
/// the general wording.
pub fn forbidden_hint(surface: &str) -> (r: String)
    ensures
        r@ == forbidden_hint_spec(surface@),
{
    if str_eq(surface, "audit") {
        owned("The audit log requires an admin API key.")
    } else if str_eq(surface, "trash") {
        owned("Permanent purge requires an admin API key.")
    } else if str_eq(surface, "notes") {
        owned("You can only modify your own notes (or use an admin key).")
    } else if str_eq(surface, "webhooks") {
        owned("This webhook belongs to another user.")
    } else {
        owned("Your API key doesn't have permission for this action.")
    }
}

/// The hint attached to authentication failures.
pub open spec fn auth_hint() -> Seq<char> {
    "Check your API key. Run `pipelite init` to reconfigure."@
}

/// The hint attached to 404 answers.
pub open spec fn not_found_hint() -> Seq<char> {
    "The requested resource was not found."@
}

/// The hint attached to 409 answers: an inactive workflow trigger on the
/// workflows surface, a generic conflict elsewhere.
pub open spec fn conflict_hint(surface: Seq<char>) -> Seq<char> {
    if surface == "workflows"@ {
        "Workflow trigger is inactive — activate it before firing (`pipelite workflows update <id> --active true`)"@
    } else {
        "Resolve the conflict and try again."@
    }
}

/// The detail reported when the server still answers 429 after the retry.
pub open spec fn rate_limited_detail() -> Seq<char> {
    "Rate limited: server returned 429 again after one retry (Retry-After applied)"@
}

/// The hint reported when the server still answers 429 after the retry.
pub open spec fn rate_limited_hint() -> Seq<char> {
    "The server is rate-limiting requests. Wait before retrying, or reduce the batch size."@
}

/// The hint attached to 422 answers.
pub open spec fn validation_hint() -> Seq<char> {
    "Check the request parameters and try again."@
}

/// The hint attached to every other failing status.
pub open spec fn server_error_hint() -> Seq<char> {
    "The server returned an error. Try again later."@
}

/// The error for a failing answer to a request that expects a body, given
/// the status, the surface the request serves and the detail read from
/// the problem body.
pub open spec fn response_error_spec(status: u16, surface: Seq<char>, detail: Seq<char>) -> CliErrorView {
    if status == 401 {
        err_view(ErrorKind::Auth, detail, auth_hint())
    } else if status == 403 {
        err_view(ErrorKind::Forbidden, detail, forbidden_hint_spec(surface))
    } else if status == 404 {
        err_view(ErrorKind::NotFound, detail, not_found_hint())
    } else if status == 409 {
        err_view(ErrorKind::Api(409), detail, conflict_hint(surface))
    } else if status == 422 {
        err_view(ErrorKind::Validation, detail, validation_hint())
    } else if status == 429 {
        err_view(ErrorKind::Api(429), rate_limited_detail(), rate_limited_hint())
    } else {
        err_view(ErrorKind::Api(status), detail, server_error_hint())
    }
}

fn conflict_hint_text(surface: &str) -> (r: String)
    ensures
        r@ == conflict_hint(surface@),
{
    if str_eq(surface, "workflows") {
        owned(
            "Workflow trigger is inactive — activate it before firing (`pipelite workflows update <id> --active true`)",
        )
    } else {
        owned("Resolve the conflict and try again.")
    }
}

/// Maps a failing status of a request that expects a body to its error:
/// 401 Auth, 403 Forbidden with the surface's hint, 404 NotFound, 409 an
/// API error with the conflict hint, 422 Validation, 429 the rate-limit
/// error (reached only after the one retry), anything else an API error.
pub fn response_error(status: u16, surface: &str, detail: String) -> (e: CliError)
    ensures
        e@ == response_error_spec(status, surface@, detail@),
{
    if status == 401 {
        CliError::Auth { detail, hint: owned("Check your API key. Run `pipelite init` to reconfigure.") }
    } else if status == 403 {
        CliError::Forbidden { detail, hint: forbidden_hint(surface) }
    } else if status == 404 {
        CliError::NotFound { detail, hint: owned("The requested resource was not found.") }
    } else if status == 409 {
        CliError::Api { status: 409, detail, hint: conflict_hint_text(surface) }
    } else if status == 422 {
        CliError::Validation { detail, hint: owned("Check the request parameters and try again.") }
    } else if status == 429 {
        CliError::Api {
            status: 429,
            detail: owned(
                "Rate limited: server returned 429 again after one retry (Retry-After applied)",
            ),
            hint: owned(
                "The server is rate-limiting requests. Wait before retrying, or reduce the batch size.",
            ),
        }
    } else {
        CliError::Api {
            status,
            detail,
            hint: owned("The server returned an error. Try again later."),
        }
    }
}

/// The error for a success answer whose body does not have the expected
/// shape; `cause` describes the decoding failure.
pub fn response_parse_error(status: u16, cause: &str) -> (e: CliError)
    ensures
        e@ == err_view(
            ErrorKind::Api(status),
            "Failed to parse response: "@ + cause@,
            "The server returned an unexpected response format."@,
        ),
{
    CliError::Api {
        status,
        detail: concat2("Failed to parse response: ", cause),
        hint: owned("The server returned an unexpected response format."),
    }
}

/// Maps a failing status of a DELETE-style request (204 on success) to
/// its error: the same mapping as [`response_error`].
pub fn delete_response_error(status: u16, surface: &str, detail: String) -> (e: CliError)
    ensures
        e@ == response_error_spec(status, surface@, detail@),
{
    response_error(status, surface, detail)
}

} // verus!
