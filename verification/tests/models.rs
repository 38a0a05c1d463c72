use pipelite::api::models::{
    run_status_is_terminal, step_duration, watch_exit_code, WorkflowRunStatus, WorkflowRunStepStatus,
};
use pipelite::api::models::{
    activities_table_config, deals_table_config, notes_table_config, orgs_table_config,
    people_table_config, pipelines_table_config, stages_table_config, workflow_runs_table_config,
    workflow_templates_table_config, workflows_table_config,
};

#[test]
fn run_status_is_terminal_truth_table() {
    assert!(!run_status_is_terminal(&WorkflowRunStatus::Pending));
    assert!(!run_status_is_terminal(&WorkflowRunStatus::Running));
    assert!(!run_status_is_terminal(&WorkflowRunStatus::Waiting));
    assert!(run_status_is_terminal(&WorkflowRunStatus::Completed));
    assert!(run_status_is_terminal(&WorkflowRunStatus::Failed));
    assert!(run_status_is_terminal(&WorkflowRunStatus::Unknown));
}

#[test]
fn watch_exit_code_truth_table() {
    assert_eq!(watch_exit_code(&WorkflowRunStatus::Completed, false), 0);
    assert_eq!(watch_exit_code(&WorkflowRunStatus::Completed, true), 0);
    assert_eq!(watch_exit_code(&WorkflowRunStatus::Failed, false), 0);
    assert_eq!(watch_exit_code(&WorkflowRunStatus::Failed, true), 1);
    assert_eq!(watch_exit_code(&WorkflowRunStatus::Unknown, false), 0);
    assert_eq!(watch_exit_code(&WorkflowRunStatus::Unknown, true), 1);
    assert_eq!(watch_exit_code(&WorkflowRunStatus::Pending, true), 0);
    assert_eq!(watch_exit_code(&WorkflowRunStatus::Running, true), 0);
    assert_eq!(watch_exit_code(&WorkflowRunStatus::Waiting, true), 0);
}

#[test]
fn run_status_parses_all_five_wire_values_case_exact() {
    for (wire, expected) in [
        ("pending", WorkflowRunStatus::Pending),
        ("running", WorkflowRunStatus::Running),
        ("completed", WorkflowRunStatus::Completed),
        ("failed", WorkflowRunStatus::Failed),
        ("waiting", WorkflowRunStatus::Waiting),
    ] {
        let parsed = WorkflowRunStatus::from_wire(wire);
        assert_eq!(parsed, expected, "wire value: {wire}");
        assert_eq!(parsed.as_str(), wire);
    }
}

#[test]
fn run_status_unknown_future_value_falls_back_to_unknown() {
    let parsed = WorkflowRunStatus::from_wire("cancelled");
    assert_eq!(parsed, WorkflowRunStatus::Unknown);
    assert_eq!(parsed.as_str(), "unknown");
}

#[test]
fn step_status_parses_all_six_wire_values() {
    for (wire, expected) in [
        ("pending", WorkflowRunStepStatus::Pending),
        ("running", WorkflowRunStepStatus::Running),
        ("completed", WorkflowRunStepStatus::Completed),
        ("failed", WorkflowRunStepStatus::Failed),
        ("skipped", WorkflowRunStepStatus::Skipped),
        ("waiting", WorkflowRunStepStatus::Waiting),
    ] {
        let parsed = WorkflowRunStepStatus::from_wire(wire);
        assert_eq!(parsed, expected, "wire value: {wire}");
        assert_eq!(parsed.as_str(), wire);
    }
}

#[test]
fn step_status_unknown_future_value_falls_back_to_unknown() {
    let parsed = WorkflowRunStepStatus::from_wire("cancelled");
    assert_eq!(parsed, WorkflowRunStepStatus::Unknown);
    assert_eq!(parsed.as_str(), "unknown");
}

#[test]
fn run_status_wire_values_are_case_exact() {
    assert_eq!(WorkflowRunStatus::from_wire("Completed"), WorkflowRunStatus::Unknown);
    assert_eq!(WorkflowRunStatus::from_wire("FAILED"), WorkflowRunStatus::Unknown);
    assert_eq!(WorkflowRunStatus::from_wire(""), WorkflowRunStatus::Unknown);
}

#[test]
fn every_status_reads_back_from_its_wire_value() {
    for s in [
        WorkflowRunStatus::Pending,
        WorkflowRunStatus::Running,
        WorkflowRunStatus::Completed,
        WorkflowRunStatus::Failed,
        WorkflowRunStatus::Waiting,
        WorkflowRunStatus::Unknown,
    ] {
        assert_eq!(WorkflowRunStatus::from_wire(s.as_str()), s);
    }
    for s in [
        WorkflowRunStepStatus::Pending,
        WorkflowRunStepStatus::Running,
        WorkflowRunStepStatus::Completed,
        WorkflowRunStepStatus::Failed,
        WorkflowRunStepStatus::Skipped,
        WorkflowRunStepStatus::Waiting,
        WorkflowRunStepStatus::Unknown,
    ] {
        assert_eq!(WorkflowRunStepStatus::from_wire(s.as_str()), s);
    }
}

#[test]
fn watch_fails_only_for_terminal_runs_under_the_flag() {
    for s in [
        WorkflowRunStatus::Pending,
        WorkflowRunStatus::Running,
        WorkflowRunStatus::Completed,
        WorkflowRunStatus::Failed,
        WorkflowRunStatus::Waiting,
        WorkflowRunStatus::Unknown,
    ] {
        assert_eq!(watch_exit_code(&s, false), 0);
        if watch_exit_code(&s, true) != 0 {
            assert!(run_status_is_terminal(&s));
        }
    }
}

#[test]
fn table_configs_list_default_columns() {
    assert_eq!(
        deals_table_config().default_columns,
        vec!["id", "title", "value", "stage_id", "owner_id", "updated_at"]
    );
    assert_eq!(activities_table_config().default_columns[0], "id");
    assert!(!notes_table_config().default_columns.is_empty());
    assert!(workflow_runs_table_config().default_columns.contains(&"status"));
}

#[test]
fn parsed_step_timestamps_yield_nonempty_duration() {
    let started = Some("2026-01-01T00:00:00Z".to_string());
    let completed = Some("2026-01-01T00:00:03Z".to_string());
    let duration = step_duration(&started, &completed);
    assert!(!duration.is_empty(), "3s step must render a duration");
    assert_eq!(duration, "now", "sub-minute deltas render as now");

    let five_min = Some("2026-01-01T00:05:00Z".to_string());
    assert_eq!(step_duration(&started, &five_min), "5 minutes");
}

#[test]
fn missing_or_garbage_timestamps_yield_empty_duration() {
    let started = Some("2026-01-01T00:00:00Z".to_string());
    assert_eq!(step_duration(&started, &None), "");
    assert_eq!(step_duration(&None, &started), "");
    assert_eq!(step_duration(&None, &None), "");
    let garbage = Some("not-a-timestamp".to_string());
    assert_eq!(step_duration(&garbage, &started), "");
    assert_eq!(step_duration(&started, &garbage), "");
}

#[test]
fn step_duration_reads_offsets_and_rough_units() {
    let start = Some("2026-01-01T10:00:00+02:00".to_string());
    let end = Some("2026-01-01T08:00:30Z".to_string());
    assert_eq!(step_duration(&start, &end), "30 seconds");
    let hours = Some("2026-01-01T11:00:00+02:00".to_string());
    assert_eq!(step_duration(&start, &hours), "an hour");
    let backwards = step_duration(&hours, &start);
    assert_eq!(backwards, "an hour");
}

#[test]
fn every_entity_has_its_default_columns() {
    assert_eq!(orgs_table_config().default_columns, vec!["id", "name", "owner_id", "updated_at"]);
    assert_eq!(
        people_table_config().default_columns,
        vec!["id", "full_name", "email", "organization_id", "updated_at"]
    );
    assert_eq!(
        activities_table_config().default_columns,
        vec!["id", "title", "type_id", "deal_id", "due_at", "completed_at"]
    );
    assert_eq!(pipelines_table_config().default_columns, vec!["id", "name", "updated_at"]);
    assert_eq!(stages_table_config().default_columns, vec!["id", "name", "pipeline_id", "position"]);
    assert_eq!(workflows_table_config().default_columns, vec!["id", "name", "active", "updated_at"]);
    assert_eq!(
        workflow_runs_table_config().default_columns,
        vec!["id", "status", "dry_run", "depth", "started_at", "completed_at"]
    );
    assert_eq!(
        workflow_templates_table_config().default_columns,
        vec!["id", "name", "category", "created_at"]
    );
    assert_eq!(notes_table_config().default_columns, vec!["id", "created_at", "content"]);
}
