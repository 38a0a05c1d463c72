//! Bookkeeping of batch operations and their summary.

use vstd::prelude::*;

use crate::error::{err_view, CliError, CliErrorView, ErrorKind};
use crate::text::{decimal, owned, push_decimal};

verus! {

/// Tracks the outcome of a batch operation for summary reporting.
pub struct BatchOutcome {
    pub total: usize,
    pub succeeded: usize,
    pub failed: usize,
}

/// The line reported for one failed item:
/// `"[{index + 1}/{total}] Failed {id}: {err}"`.
pub open spec fn failure_line_spec(index: nat, total: nat, id: Seq<char>, err: Seq<char>) -> Seq<char> {
    "["@ + decimal(index + 1) + "/"@ + decimal(total) + "] Failed "@ + id + ": "@ + err
}

/// The summary reported when some items failed:
/// `"{succeeded}/{total} {entity} {operation}d, {failed} failed"`.
pub open spec fn failure_summary_spec(
    succeeded: nat,
    total: nat,
    entity: Seq<char>,
    operation: Seq<char>,
    failed: nat,
) -> Seq<char> {
    decimal(succeeded) + "/"@ + decimal(total) + " "@ + entity + " "@ + operation + "d, "@
        + decimal(failed) + " failed"@
}

/// The error a batch with failures ends with.
pub open spec fn batch_failed_spec(failed: nat, total: nat, operation: Seq<char>) -> CliErrorView {
    err_view(
        ErrorKind::Validation,
        decimal(failed) + " of "@ + decimal(total) + " "@ + operation + " operations failed"@,
        "Review the errors above and retry failed items."@,
    )
}

impl BatchOutcome {
    /// Create a new BatchOutcome for a batch of `total` items.
    pub fn new(total: usize) -> (r: Self)
        ensures
            r.total == total,
            r.succeeded == 0,
            r.failed == 0,
    {
        BatchOutcome { total, succeeded: 0, failed: 0 }
    }

    /// Record a success.
    pub fn record_success(&mut self)
        requires
            old(self).succeeded < usize::MAX,
        ensures
            final(self).succeeded == old(self).succeeded + 1,
            final(self).failed == old(self).failed,
            final(self).total == old(self).total,
    {
        self.succeeded = self.succeeded + 1;
    }

    /// Record the failure of the item at `index` (zero-based) with
    /// identifier `id`; returns the line to report for it.
    pub fn record_failure(&mut self, index: usize, id: &str, err: &str) -> (line: String)
        requires
            old(self).failed < usize::MAX,
            index < usize::MAX,
        ensures
            final(self).failed == old(self).failed + 1,
            final(self).succeeded == old(self).succeeded,
            final(self).total == old(self).total,
            line@ == failure_line_spec(index as nat, old(self).total as nat, id@, err@),
    {
        self.failed = self.failed + 1;
        let mut line = owned("[");
        push_decimal(&mut line, (index + 1) as u64);
        line.append("/");
        push_decimal(&mut line, self.total as u64);
        line.append("] Failed ");
        line.append(id);
        line.append(": ");
        line.append(err);
        line
    }

    /// The summary line to report when some items failed.
    pub fn failure_summary(&self, entity_name: &str, operation: &str) -> (line: String)
        ensures
            line@ == failure_summary_spec(
                self.succeeded as nat,
                self.total as nat,
                entity_name@,
                operation@,
                self.failed as nat,
            ),
    {
        let mut line = String::new();
        push_decimal(&mut line, self.succeeded as u64);
        line.append("/");
        push_decimal(&mut line, self.total as u64);
        line.append(" ");
        line.append(entity_name);
        line.append(" ");
        line.append(operation);
        line.append("d, ");
        push_decimal(&mut line, self.failed as u64);
        line.append(" failed");
        line
    }

    /// Ends the batch: `Ok` when every item succeeded, otherwise a
    /// validation error naming how many of the operations failed.
    pub fn finalize(self, entity_name: &str, operation: &str) -> (r: Result<(), CliError>)
        ensures
            r is Ok <==> self.failed == 0,
            r is Err ==> r->Err_0@ == batch_failed_spec(
                self.failed as nat,
                self.total as nat,
                operation@,
            ),
    {
        if self.failed > 0 {
            let mut detail = String::new();
            push_decimal(&mut detail, self.failed as u64);
            detail.append(" of ");
            push_decimal(&mut detail, self.total as u64);
            detail.append(" ");
            detail.append(operation);
            detail.append(" operations failed");
            return Err(
                CliError::Validation {
                    detail,
                    hint: owned("Review the errors above and retry failed items."),
                },
            );
        }
        Ok(())
    }
}

} // verus!
