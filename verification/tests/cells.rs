use pipelite::commands::activities::BatchCreateProgress;
use pipelite::commands::audit::{actor_cell, entity_cell};
use pipelite::commands::notes::note_content_cell;
use pipelite::error::CliError;
use pipelite::text::{flatten_line_breaks, truncate_with_ellipsis};

#[test]
fn truncate_keeps_short_text_and_marks_the_cut() {
    assert_eq!(truncate_with_ellipsis("hello", 5), "hello");
    assert_eq!(truncate_with_ellipsis("hello", 10), "hello");
    assert_eq!(truncate_with_ellipsis("hello world", 5), "hell…");
    assert_eq!(truncate_with_ellipsis("héllo wörld", 6), "héllo…");
    assert_eq!(truncate_with_ellipsis("abc", 0), "…");
    assert_eq!(truncate_with_ellipsis("", 0), "");
    let long = "x".repeat(100);
    assert_eq!(truncate_with_ellipsis(&long, 40).chars().count(), 40);
}

#[test]
fn flatten_puts_text_on_one_line() {
    assert_eq!(flatten_line_breaks("a\nb\r\nc"), "a b  c");
    assert_eq!(flatten_line_breaks("plain"), "plain");
    assert_eq!(flatten_line_breaks("\n"), " ");
    assert_eq!(flatten_line_breaks(""), "");
}

#[test]
fn note_cell_is_flat_and_at_most_eighty_chars() {
    assert_eq!(note_content_cell("line one\nline two"), "line one line two");
    let long = format!("{}\n{}", "a".repeat(50), "b".repeat(50));
    let cell = note_content_cell(&long);
    assert_eq!(cell.chars().count(), 80);
    assert_eq!(cell, format!("{} {}…", "a".repeat(50), "b".repeat(28)));
}

#[test]
fn audit_cells_are_cut_at_forty_chars() {
    let id = Some("u".repeat(60));
    let cell = actor_cell("user", &id, &None, &None);
    assert_eq!(cell.chars().count(), 40);
    assert_eq!(cell, format!("user ({}…", "u".repeat(33)));
    assert_eq!(actor_cell("system", &None, &Some("run_1".to_string()), &None), "system (run_1)");
    assert_eq!(entity_cell("deal", "d1"), "deal/d1");
    let entity = entity_cell("deal", &"9".repeat(100));
    assert_eq!(entity, format!("deal/{}…", "9".repeat(34)));
}

#[test]
fn batch_create_counts_each_item_once() {
    let mut p = BatchCreateProgress::new(3);
    assert_eq!(p.progress_line(0), "\rCreating 1/3...");
    p.record_created();
    assert_eq!(p.record_failed(1, "HTTP 500"), "\nFailed item 2: HTTP 500");
    p.record_created();
    assert_eq!((p.created, p.failed, p.total), (2, 1, 3));
    assert!(p.invalidates_cache());
    match p.finish() {
        Some((summary, CliError::Api { status, detail, hint })) => {
            assert_eq!(summary, "Created 2/3. 1 failed (see errors above).");
            assert_eq!(status, 0);
            assert_eq!(detail, "1 of 3 items failed");
            assert_eq!(hint, "Review errors above and retry failed items.");
        }
        other => panic!("unexpected outcome: {other:?}"),
    }
}

#[test]
fn batch_create_without_failures_ends_quietly() {
    let mut p = BatchCreateProgress::new(1);
    p.record_created();
    assert!(p.finish().is_none());
    let mut none = BatchCreateProgress::new(1);
    assert_eq!(none.record_failed(0, "boom"), "\nFailed item 1: boom");
    assert!(!none.invalidates_cache());
    assert!(none.finish().is_some());
}
