//! `pipelite docs`: refusing to overwrite, and the docs-specific hint.

use vstd::prelude::*;

use crate::error::{err_view, CliError, CliErrorView, ErrorKind};
use crate::text::{concat2, owned};

verus! {

/// The hint for failures of the docs endpoint.
pub const DOCS_ERROR_HINT: &'static str = "the server may not expose the docs endpoint — check server version";

/// The refusal to overwrite an existing file without `--force`.
pub open spec fn overwrite_refusal(path: Seq<char>) -> CliErrorView {
    err_view(
        ErrorKind::InvalidInput,
        "Refusing to overwrite existing file: "@ + path,
        "Use --force to overwrite: pipelite docs --save <file> --force"@,
    )
}

/// Checked before any request: saving onto an existing file needs
/// `--force`.
pub fn check_save_target(save: &Option<String>, target_exists: bool, force: bool) -> (r: Result<
    (),
    CliError,
>)
    ensures
        r is Err <==> save is Some && target_exists && !force,
        r is Err ==> r->Err_0@ == overwrite_refusal(save->0@),
{
    match save {
        Some(path) => {
            if target_exists && !force {
                return Err(
                    CliError::InvalidInput {
                        detail: concat2("Refusing to overwrite existing file: ", path.as_str()),
                        hint: owned("Use --force to overwrite: pipelite docs --save <file> --force"),
                    },
                );
            }
            Ok(())
        },
        None => Ok(()),
    }
}

/// The error a failed docs fetch is reported with: not-found and API
/// errors keep the server's detail (and status) but carry the docs hint;
/// every other error passes through untouched.
pub open spec fn docs_error_spec(e: CliErrorView) -> CliErrorView {
    match e.kind {
        ErrorKind::NotFound => err_view(ErrorKind::NotFound, e.detail, DOCS_ERROR_HINT@),
        ErrorKind::Api(status) => err_view(ErrorKind::Api(status), e.detail, DOCS_ERROR_HINT@),
        _ => e,
    }
}

/// Re-hints a docs-endpoint failure.
pub fn rehint_docs_error(e: CliError) -> (r: CliError)
    ensures
        r@ == docs_error_spec(e@),
{
    match e {
        CliError::NotFound { detail, .. } => CliError::NotFound {
            detail,
            hint: owned(DOCS_ERROR_HINT),
        },
        CliError::Api { status, detail, .. } => CliError::Api {
            status,
            detail,
            hint: owned(DOCS_ERROR_HINT),
        },
        other => other,
    }
}

} // verus!
