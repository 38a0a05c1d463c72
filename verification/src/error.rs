//! The error taxonomy the client reports to its users.

use vstd::prelude::*;

verus! {

/// Errors surfaced to the user, each with a human-readable detail and an
/// actionable hint.
#[derive(Debug, Clone, PartialEq, Eq)]
pub enum CliError {
    /// The API key was rejected (HTTP 401).
    Auth { detail: String, hint: String },
    /// The API key is valid but lacks permission (HTTP 403).
    Forbidden { detail: String, hint: String },
    /// The requested resource does not exist (HTTP 404).
    NotFound { detail: String, hint: String },
    /// Any other server-side failure, with its HTTP status.
    Api { status: u16, detail: String, hint: String },
    /// The request or its payload failed validation.
    Validation { detail: String, hint: String },
    /// A command-line value was rejected before any request was made.
    InvalidInput { detail: String, hint: String },
    /// A required input was not provided.
    MissingInput { detail: String, hint: String },
    /// The server could not be reached.
    Connection { detail: String, hint: String },
}

/// The category of a [`CliError`], with the HTTP status for API errors.
pub enum ErrorKind {
    Auth,
    Forbidden,
    NotFound,
    Api(u16),
    Validation,
    InvalidInput,
    MissingInput,
    Connection,
}

/// The mathematical content of a [`CliError`].
pub struct CliErrorView {
    pub kind: ErrorKind,
    pub detail: Seq<char>,
    pub hint: Seq<char>,
}

/// Builds the view of an error from its parts.
pub open spec fn err_view(kind: ErrorKind, detail: Seq<char>, hint: Seq<char>) -> CliErrorView {
    CliErrorView { kind, detail, hint }
}

impl View for CliError {
    type V = CliErrorView;

    open spec fn view(&self) -> CliErrorView {
        match self {
            CliError::Auth { detail, hint } => err_view(ErrorKind::Auth, detail@, hint@),
            CliError::Forbidden { detail, hint } => err_view(ErrorKind::Forbidden, detail@, hint@),
            CliError::NotFound { detail, hint } => err_view(ErrorKind::NotFound, detail@, hint@),
            CliError::Api { status, detail, hint } => err_view(
                ErrorKind::Api(*status),
                detail@,
                hint@,
            ),
            CliError::Validation { detail, hint } => err_view(
                ErrorKind::Validation,
                detail@,
                hint@,
            ),
            CliError::InvalidInput { detail, hint } => err_view(
                ErrorKind::InvalidInput,
                detail@,
                hint@,
            ),
            CliError::MissingInput { detail, hint } => err_view(
                ErrorKind::MissingInput,
                detail@,
                hint@,
            ),
            CliError::Connection { detail, hint } => err_view(
                ErrorKind::Connection,
                detail@,
                hint@,
            ),
        }
    }
}

impl CliError {
    /// The user-facing detail text.
    pub fn detail(&self) -> (r: &str)
        ensures
            r@ == self@.detail,
    {
        match self {
            CliError::Auth { detail, .. } => detail.as_str(),
            CliError::Forbidden { detail, .. } => detail.as_str(),
            CliError::NotFound { detail, .. } => detail.as_str(),
            CliError::Api { detail, .. } => detail.as_str(),
            CliError::Validation { detail, .. } => detail.as_str(),
            CliError::InvalidInput { detail, .. } => detail.as_str(),
            CliError::MissingInput { detail, .. } => detail.as_str(),
            CliError::Connection { detail, .. } => detail.as_str(),
        }
    }

    /// The actionable hint text.
    pub fn hint(&self) -> (r: &str)
        ensures
            r@ == self@.hint,
    {
        match self {
            CliError::Auth { hint, .. } => hint.as_str(),
            CliError::Forbidden { hint, .. } => hint.as_str(),
            CliError::NotFound { hint, .. } => hint.as_str(),
            CliError::Api { hint, .. } => hint.as_str(),
            CliError::Validation { hint, .. } => hint.as_str(),
            CliError::InvalidInput { hint, .. } => hint.as_str(),
            CliError::MissingInput { hint, .. } => hint.as_str(),
            CliError::Connection { hint, .. } => hint.as_str(),
        }
    }
}

} // verus!
