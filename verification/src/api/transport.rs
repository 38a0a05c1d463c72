//! Decisions taken around each HTTP exchange: authentication checks on the
//! connectivity probe, transport failures, and the rate-limit retry delay.

use vstd::prelude::*;

use crate::api::errors::{auth_hint, forbidden_hint, forbidden_hint_spec};
use crate::error::{err_view, CliError, CliErrorView, ErrorKind};
use crate::text::{concat2, owned, parse_u64, parse_u64_spec};

verus! {

/// The outcome of the authentication check on a probe answer.
pub open spec fn auth_check_spec(status: u16, url: Seq<char>) -> Option<CliErrorView> {
    if status == 401 {
        Some(err_view(ErrorKind::Auth, "Server returned 401 Unauthorized for "@ + url, auth_hint()))
    } else if status == 403 {
        Some(
            err_view(
                ErrorKind::Forbidden,
                "Server returned 403 Forbidden for "@ + url,
                forbidden_hint_spec("general"@),
            ),
        )
    } else {
        None
    }
}

/// Rejects a 401 answer as a bad API key and a 403 answer as a missing
/// permission (with the general Forbidden hint); every other status passes.
pub fn check_auth_status(status: u16, url: &str) -> (r: Result<(), CliError>)
    ensures
        r is Ok <==> auth_check_spec(status, url@) is None,
        r is Err ==> Some(r->Err_0@) == auth_check_spec(status, url@),
{
    if status == 401 {
        return Err(
            CliError::Auth {
                detail: concat2("Server returned 401 Unauthorized for ", url),
                hint: owned("Check your API key. Run `pipelite init` to reconfigure."),
            },
        );
    }
    if status == 403 {
        return Err(
            CliError::Forbidden {
                detail: concat2("Server returned 403 Forbidden for ", url),
                hint: forbidden_hint("general"),
            },
        );
    }
    Ok(())
}

/// What the connectivity probe does after a non-failing answer.
#[derive(Debug, PartialEq, Eq)]
pub enum PingStep {
    /// The server has no ping endpoint: probe with a one-deal list instead.
    Fallback,
    /// Read the status from the answer's body.
    ReadStatus,
}

/// Whether a status is in the success range 200..=299.
pub open spec fn is_success(status: u16) -> bool {
    200 <= status <= 299
}

/// The error for a probe answer outside the success range; `status_line`
/// is the status as the HTTP library displays it (code and reason).
pub open spec fn server_unavailable_spec(status_line: Seq<char>) -> CliErrorView {
    err_view(
        ErrorKind::Connection,
        "Server returned HTTP "@ + status_line,
        "The server may be experiencing issues. Try again later."@,
    )
}

fn server_unavailable(status_line: &str) -> (e: CliError)
    ensures
        e@ == server_unavailable_spec(status_line@),
{
    CliError::Connection {
        detail: concat2("Server returned HTTP ", status_line),
        hint: owned("The server may be experiencing issues. Try again later."),
    }
}

/// The decision on the answer to the ping request: authentication failures
/// first, then 404 falls back to the deals probe, other failures are
/// connection errors, and success reads the body.
pub fn ping_step(status: u16, status_line: &str, url: &str) -> (r: Result<PingStep, CliError>)
    ensures
        auth_check_spec(status, url@) is Some ==> r is Err && Some(r->Err_0@) == auth_check_spec(
            status,
            url@,
        ),
        auth_check_spec(status, url@) is None && status == 404 ==> r == Ok::<PingStep, CliError>(
            PingStep::Fallback,
        ),
        auth_check_spec(status, url@) is None && status != 404 && !is_success(status) ==> r is Err
            && r->Err_0@ == server_unavailable_spec(status_line@),
        auth_check_spec(status, url@) is None && is_success(status) ==> r
            == Ok::<PingStep, CliError>(PingStep::ReadStatus),
{
    check_auth_status(status, url)?;
    if status == 404 {
        return Ok(PingStep::Fallback);
    }
    if !(200 <= status && status <= 299) {
        return Err(server_unavailable(status_line));
    }
    Ok(PingStep::ReadStatus)
}

/// The decision on the answer to the fallback probe: authentication
/// failures, then any non-success status is a connection error.
pub fn fallback_step(status: u16, status_line: &str, url: &str) -> (r: Result<(), CliError>)
    ensures
        auth_check_spec(status, url@) is Some ==> r is Err && Some(r->Err_0@) == auth_check_spec(
            status,
            url@,
        ),
        auth_check_spec(status, url@) is None && !is_success(status) ==> r is Err && r->Err_0@
            == server_unavailable_spec(status_line@),
        auth_check_spec(status, url@) is None && is_success(status) ==> r is Ok,
{
    check_auth_status(status, url)?;
    if !(200 <= status && status <= 299) {
        return Err(server_unavailable(status_line));
    }
    Ok(())
}

/// The error for a transport failure, by its cause.
pub open spec fn request_error_spec(
    is_timeout: bool,
    is_connect: bool,
    base_url: Seq<char>,
    cause: Seq<char>,
) -> CliErrorView {
    if is_timeout {
        err_view(
            ErrorKind::Connection,
            "Request timed out connecting to "@ + base_url,
            "Check that the server URL is correct and the server is running."@,
        )
    } else if is_connect {
        err_view(
            ErrorKind::Connection,
            "Could not connect to "@ + base_url,
            "Check your network connection and verify the server URL."@,
        )
    } else {
        err_view(
            ErrorKind::Connection,
            "HTTP request failed: "@ + cause,
            "Check the server URL and try again."@,
        )
    }
}

/// Maps a failed request to a connection error: a timeout, a failed
/// connection, or any other failure with its own description.
pub fn request_error(is_timeout: bool, is_connect: bool, base_url: &str, cause: &str) -> (e:
    CliError)
    ensures
        e@ == request_error_spec(is_timeout, is_connect, base_url@, cause@),
{
    if is_timeout {
        CliError::Connection {
            detail: concat2("Request timed out connecting to ", base_url),
            hint: owned("Check that the server URL is correct and the server is running."),
        }
    } else if is_connect {
        CliError::Connection {
            detail: concat2("Could not connect to ", base_url),
            hint: owned("Check your network connection and verify the server URL."),
        }
    } else {
        CliError::Connection {
            detail: concat2("HTTP request failed: ", cause),
            hint: owned("Check the server URL and try again."),
        }
    }
}

/// The error for a ping answer whose body is not the expected status
/// document; `cause` describes the decoding failure.
pub fn invalid_ping_body(cause: &str) -> (e: CliError)
    ensures
        e@ == err_view(
            ErrorKind::Connection,
            "Invalid response from server: "@ + cause@,
            "The server may be running an incompatible version."@,
        ),
{
    CliError::Connection {
        detail: concat2("Invalid response from server: ", cause),
        hint: owned("The server may be running an incompatible version."),
    }
}

/// The longest wait, in seconds, that a `Retry-After` header can ask for.
pub const MAX_RETRY_AFTER_SECS: u64 = 60;

/// The wait before the single retry of a 429 answer: the `Retry-After`
/// header read as whole seconds and capped at 60, or 1 second when the
/// header is missing or not a plain number.
pub open spec fn retry_after_spec(header: Option<Seq<char>>) -> u64 {
    match header {
        Some(h) => match parse_u64_spec(h) {
            Some(v) => if v > 60 {
                60
            } else {
                v
            },
            None => 1,
        },
        None => 1,
    }
}

/// Computes the delay before retrying a rate-limited request from the
/// `Retry-After` header (`None` when absent or not text).
pub fn retry_after_secs(header: Option<&str>) -> (r: u64)
    ensures
        r == retry_after_spec(
            match header {
                Some(h) => Some(h@),
                None => None,
            },
        ),
        r <= MAX_RETRY_AFTER_SECS,
{
    match header {
        Some(h) => match parse_u64(h) {
            Some(v) => if v > MAX_RETRY_AFTER_SECS {
                MAX_RETRY_AFTER_SECS
            } else {
                v
            },
            None => 1,
        },
        None => 1,
    }
}

} // verus!
