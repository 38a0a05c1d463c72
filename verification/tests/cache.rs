use pipelite::cache::{
    cache_dir_under, stages_key, file_matches_prefix, is_expired, CacheStore, KEY_PIPELINES, KEY_STAGES, TTL_ENTITY_LIST,
    TTL_PIPELINES, TTL_STAGES, TTL_USERS,
};

#[test]
fn ttl_constants_are_reasonable() {
    assert_eq!(TTL_PIPELINES, 3600);
    assert_eq!(TTL_STAGES, 3600);
    assert_eq!(TTL_USERS, 7200);
    assert_eq!(TTL_ENTITY_LIST, 300);
}

#[test]
fn entries_expire_at_their_ttl() {
    assert!(!is_expired(0, 300));
    assert!(!is_expired(299, 300));
    assert!(is_expired(300, 300));
    assert!(is_expired(10_000, 300));
    assert!(is_expired(0, 0));
    assert!(is_expired(-1, 3600));
}

#[test]
fn key_path_joins_directory_and_file_name() {
    let store = CacheStore::at("/home/u/.cache/pipelite".to_string());
    assert_eq!(store.cache_dir(), "/home/u/.cache/pipelite");
    assert_eq!(store.key_path(KEY_PIPELINES), "/home/u/.cache/pipelite/pipelines.json");
    assert_eq!(store.temp_path("users"), "/home/u/.cache/pipelite/.users.tmp");
    let trailing = CacheStore::at("cache/".to_string());
    assert_eq!(trailing.key_path("deals"), "cache/deals.json");
    let empty = CacheStore::at(String::new());
    assert_eq!(empty.key_path("orgs"), "orgs.json");
}

#[test]
fn prefix_matching_reads_keys_from_file_names() {
    assert!(file_matches_prefix("stages_pl_001.json", "stages_"));
    assert!(file_matches_prefix("stages_pl_002.json", KEY_STAGES));
    assert!(!file_matches_prefix("pipelines.json", "stages_"));
    assert!(!file_matches_prefix("x.json", "x.json"));
    assert!(file_matches_prefix("notes", "no"));
}

#[test]
fn stages_keys_are_found_by_their_prefix() {
    assert_eq!(stages_key("pl_001"), "stages_pl_001");
    let store = CacheStore::at("/c".to_string());
    let path = store.key_path(&stages_key("pl_002"));
    assert_eq!(path, "/c/stages_pl_002.json");
    assert!(file_matches_prefix("stages_pl_002.json", "stages_"));
}

#[test]
fn cache_lives_under_home() {
    assert_eq!(cache_dir_under("/home/ana"), "/home/ana/.pipelite/cache");
    assert_eq!(cache_dir_under("/"), "/.pipelite/cache");
    assert_eq!(cache_dir_under(""), ".pipelite/cache");
}
