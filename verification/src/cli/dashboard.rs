//! Arguments of the `dashboard` commands.

use vstd::prelude::*;

verus! {

/// Arguments for the dashboard command.
///
/// The dashboard uses only global flags (--format, --no-color, etc.).
/// No entity-specific arguments are needed.
#[derive(Debug)]
pub struct DashboardArgs {}

} // verus!
