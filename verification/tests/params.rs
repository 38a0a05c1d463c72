use pipelite::api::params::{
    audit_query_pairs, filtered_page_query_pairs, page_query_pairs, DealsListParams,
    StagesListParams, WorkflowRunsListParams,
};

fn pair(k: &str, v: &str) -> (String, String) {
    (k.to_string(), v.to_string())
}

#[test]
fn runs_list_params_query_pairs_conditional_matrix() {
    let full = WorkflowRunsListParams {
        workflow_id: "wf_1".to_string(),
        status: Some("failed".to_string()),
        include_dry_run: true,
        limit: 10,
        offset: 20,
    };
    let pairs = full.to_query_pairs();
    assert!(pairs.contains(&("status".to_string(), "failed".to_string())));
    assert!(pairs.contains(&("dry_run".to_string(), "true".to_string())));
    assert!(pairs.contains(&("limit".to_string(), "10".to_string())));
    assert!(pairs.contains(&("offset".to_string(), "20".to_string())));
    assert!(
        !pairs.iter().any(|(k, _)| k == "workflow_id"),
        "workflow_id must never appear as a query pair: {pairs:?}"
    );

    let minimal = WorkflowRunsListParams {
        workflow_id: "wf_1".to_string(),
        status: None,
        include_dry_run: false,
        limit: 50,
        offset: 0,
    };
    let pairs = minimal.to_query_pairs();
    assert_eq!(pairs.len(), 2);
    assert!(pairs.contains(&("limit".to_string(), "50".to_string())));
    assert!(pairs.contains(&("offset".to_string(), "0".to_string())));
}

#[test]
fn runs_query_order_is_status_dry_run_then_page() {
    let p = WorkflowRunsListParams {
        workflow_id: "wf_9".to_string(),
        status: Some("running".to_string()),
        include_dry_run: true,
        limit: 25,
        offset: 1000,
    };
    assert_eq!(
        p.to_query_pairs(),
        vec![
            pair("status", "running"),
            pair("dry_run", "true"),
            pair("limit", "25"),
            pair("offset", "1000"),
        ]
    );
}

#[test]
fn page_query_renders_decimal_numbers() {
    assert_eq!(
        page_query_pairs(100, 18446744073709551615),
        vec![pair("limit", "100"), pair("offset", "18446744073709551615")]
    );
}

#[test]
fn filtered_page_query_appends_filter_only_when_set() {
    assert_eq!(
        filtered_page_query_pairs(20, 40, "entity_type", &Some("deal".to_string())),
        vec![pair("limit", "20"), pair("offset", "40"), pair("entity_type", "deal")]
    );
    assert_eq!(
        filtered_page_query_pairs(20, 40, "type", &None),
        vec![pair("limit", "20"), pair("offset", "40")]
    );
}

#[test]
fn audit_query_drops_empty_filters() {
    let pairs = audit_query_pairs(
        &Some("deal".to_string()),
        &Some(String::new()),
        &None,
        &Some("run_1".to_string()),
        50,
        0,
    );
    assert_eq!(
        pairs,
        vec![
            pair("limit", "50"),
            pair("offset", "0"),
            pair("entity_type", "deal"),
            pair("workflow_run_id", "run_1"),
        ]
    );
    assert!(pairs.iter().all(|(_, v)| !v.is_empty()));
}

#[test]
fn deals_query_carries_filters_and_expand() {
    let p = DealsListParams {
        stage: Some("stg_1".to_string()),
        org: None,
        owner: None,
        limit: 10,
        offset: 0,
        expand: Some(vec!["owner".to_string(), "stage".to_string()]),
    };
    let pairs = p.to_query_pairs();
    assert!(pairs.contains(&pair("stage_id", "stg_1")));
    assert!(pairs.contains(&pair("expand", "owner,stage")));
    assert!(pairs.contains(&pair("limit", "10")));
    assert!(pairs.contains(&pair("offset", "0")));
    assert!(!pairs.iter().any(|(k, _)| k == "owner_id"));
}

#[test]
fn stages_query_filters_by_pipeline() {
    let p = StagesListParams {
        pipeline_id: Some("pl_1".to_string()),
        limit: 100,
        offset: 0,
        expand: None,
    };
    assert!(p.to_query_pairs().contains(&pair("pipeline_id", "pl_1")));
}
