use pipelite::batch::BatchOutcome;
use pipelite::error::CliError;

#[test]
fn batch_outcome_counts_successes_and_failures() {
    let mut outcome = BatchOutcome::new(3);
    outcome.record_success();
    outcome.record_failure(1, "item_2", &"boom");
    assert_eq!(outcome.total, 3);
    assert_eq!(outcome.succeeded, 1);
    assert_eq!(outcome.failed, 1);
}

#[test]
fn batch_outcome_finalize_ok_when_no_failures() {
    let mut outcome = BatchOutcome::new(1);
    outcome.record_success();
    assert!(outcome.finalize("deal", "update").is_ok());
}

#[test]
fn batch_outcome_finalize_err_on_failure() {
    let mut outcome = BatchOutcome::new(2);
    outcome.record_success();
    outcome.record_failure(1, "item_2", &"boom");
    let err = outcome.finalize("deal", "delete");
    let cli_err = err.expect_err("expected finalize to fail with failures present");
    match cli_err {
        CliError::Validation { detail, hint } => {
            assert_eq!(detail, "1 of 2 delete operations failed");
            assert!(hint.contains("retry failed items"));
        }
        other => panic!("expected Validation variant, got {:?}", other),
    }
}

#[test]
fn failure_line_numbers_items_from_one() {
    let mut outcome = BatchOutcome::new(12);
    let line = outcome.record_failure(9, "deal_10", "HTTP 500");
    assert_eq!(line, "[10/12] Failed deal_10: HTTP 500");
}

#[test]
fn failure_summary_counts_each_outcome() {
    let mut outcome = BatchOutcome::new(3);
    outcome.record_success();
    outcome.record_success();
    outcome.record_failure(2, "p_3", "boom");
    assert_eq!(outcome.failure_summary("people", "update"), "2/3 people updated, 1 failed");
}

#[test]
fn finalize_of_empty_batch_is_ok() {
    assert_eq!(BatchOutcome::new(0).finalize("deal", "delete"), Ok(()));
}
