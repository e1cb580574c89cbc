use deepseek_cli::apps_cache::{
    accept_cached_server_info, accept_cached_tools, cache_write_status,
    codex_apps_tools_cache_key, DeepSeekAppsToolsCache, DeepSeekAppsToolsCacheEntry,
    DeepSeekAppsToolsCacheIdentity, DeepSeekAppsToolsCacheKey, DeepSeekAppsToolsFetchSource,
    CODEX_APPS_SERVER_INFO_CACHE_DIR, CODEX_APPS_TOOLS_CACHE_DIR,
};
use deepseek_cli::digest::sha1_hex;
use deepseek_cli::workspace_settings::AuthFacts;

fn identity(home: &str, account: Option<&str>) -> DeepSeekAppsToolsCacheIdentity {
    DeepSeekAppsToolsCacheIdentity {
        deepseek_home: home.to_string(),
        auth_key: DeepSeekAppsToolsCacheKey {
            account_id: account.map(str::to_string),
            chatgpt_user_id: None,
            is_workspace_account: false,
        },
    }
}

#[test]
fn cache_key_comes_from_the_login() {
    let key = codex_apps_tools_cache_key(None);
    assert_eq!(key.account_id, None);
    assert_eq!(key.chatgpt_user_id, None);
    assert!(!key.is_workspace_account);
    let auth = AuthFacts {
        is_chatgpt_auth: true,
        is_workspace_account: true,
        account_id: Some("acc".to_string()),
        chatgpt_user_id: Some("user".to_string()),
    };
    let key = codex_apps_tools_cache_key(Some(&auth));
    assert_eq!(key.account_id.as_deref(), Some("acc"));
    assert_eq!(key.chatgpt_user_id.as_deref(), Some("user"));
    assert!(key.is_workspace_account);
}

#[test]
fn fetch_sources_have_metric_tags() {
    assert_eq!(DeepSeekAppsToolsFetchSource::Startup.as_str(), "startup");
    assert_eq!(DeepSeekAppsToolsFetchSource::HardRefresh.as_str(), "hard_refresh");
}

#[test]
fn newest_fetch_wins_and_stale_fetches_get_current_tools() {
    let mut entry: DeepSeekAppsToolsCacheEntry<String> =
        DeepSeekAppsToolsCacheEntry::new(identity("/h", None), None);
    let first = entry.begin_fetch(DeepSeekAppsToolsFetchSource::Startup);
    let second = entry.begin_fetch(DeepSeekAppsToolsFetchSource::HardRefresh);
    assert_eq!(first.generation(), 1);
    assert_eq!(second.generation(), 2);

    let published = entry.publish_if_newest_accepted(second, vec!["new".to_string()]);
    assert!(published.published);
    assert_eq!(published.tools, vec!["new".to_string()]);
    assert_eq!(entry.last_accepted_generation(), 2);
    assert_eq!(entry.next_fetch_generation(), 2);

    let stale = entry.publish_if_newest_accepted(first, vec!["old".to_string()]);
    assert!(!stale.published);
    assert_eq!(stale.tools, vec!["new".to_string()]);
    assert_eq!(entry.current_tools(), Some(vec!["new".to_string()]));
    assert!(entry.has_current_tools());
}

#[test]
fn fetch_generations_count_up_from_one() {
    let mut entry: DeepSeekAppsToolsCacheEntry<u32> =
        DeepSeekAppsToolsCacheEntry::new(identity("/h", None), Some(vec![3]));
    for k in 1..=5u64 {
        let source = if k % 2 == 0 {
            DeepSeekAppsToolsFetchSource::HardRefresh
        } else {
            DeepSeekAppsToolsFetchSource::Startup
        };
        let ticket = entry.begin_fetch(source);
        assert_eq!(ticket.generation(), k);
        assert_eq!(ticket.source().as_str(), source.as_str());
    }
    assert_eq!(entry.last_accepted_generation(), 0);
    assert_eq!(entry.current_tools(), Some(vec![3]));
}

#[test]
fn homes_spelled_differently_share_one_entry() {
    let mut cache: DeepSeekAppsToolsCache<u32> = DeepSeekAppsToolsCache::new();
    let a = cache.context(identity("/x", Some("acc")), Some(vec![1]));
    let b = cache.context(identity("/x/", Some("acc")), Some(vec![2]));
    let c = cache.context(identity("//x/./", Some("acc")), None);
    let d = cache.context(identity("/x/y/..", Some("acc")), None);
    assert_eq!(a, 0);
    assert_eq!(b, a);
    assert_eq!(c, a);
    assert_eq!(d, 1);
    assert_eq!(cache.len(), 2);
    assert_eq!(cache.entry(a).current_tools(), Some(vec![1]));
}

#[test]
fn same_identity_shares_one_entry() {
    let mut cache: DeepSeekAppsToolsCache<u32> = DeepSeekAppsToolsCache::new();
    let a = cache.context(identity("/h", Some("acc")), Some(vec![1]));
    let b = cache.context(identity("/h", Some("other")), None);
    let c = cache.context(identity("/h", Some("acc")), Some(vec![2]));
    assert_eq!(a, 0);
    assert_eq!(b, 1);
    assert_eq!(c, a);
    assert_eq!(cache.len(), 2);
    assert_eq!(cache.entry(a).current_tools(), Some(vec![1]));
    assert_eq!(cache.find_entry(&identity("/h", Some("other"))), Some(1));
    assert_eq!(cache.find_entry(&identity("/other", Some("acc"))), None);
}

#[test]
fn cache_files_are_named_by_the_key_hash() {
    let id = identity("/home/u/.codex", Some("acc"));
    let json = r#"{"account_id":"acc","chatgpt_user_id":null,"is_workspace_account":false}"#;
    let expected = format!("/home/u/.codex/cache/codex_apps_tools/{}.json", sha1_hex(json));
    assert_eq!(id.cache_path_in(CODEX_APPS_TOOLS_CACHE_DIR, json), expected);
    let expected = format!(
        "/home/u/.codex/cache/codex_apps_server_info/{}.json",
        sha1_hex(json)
    );
    assert_eq!(id.cache_path_in(CODEX_APPS_SERVER_INFO_CACHE_DIR, json), expected);
}

#[test]
fn persisted_caches_need_the_current_schema() {
    assert_eq!(accept_cached_tools(4, vec![1, 2]), Some(vec![1, 2]));
    assert_eq!(accept_cached_tools(3, vec![1, 2]), None);
    assert_eq!(accept_cached_server_info(1, "info"), Some("info"));
    assert_eq!(accept_cached_server_info(2, "info"), None);
    assert_eq!(cache_write_status(true, true), "success");
    assert_eq!(cache_write_status(true, false), "failure");
    assert_eq!(cache_write_status(false, true), "failure");
}
