use deepseek_cli::workspace_settings::{
    begin_plugins_enabled_check, finish_plugins_enabled_check, AuthFacts, PluginsEnabledStep,
    WorkspaceSettingsCache, WorkspaceSettingsCacheKey, WORKSPACE_SETTINGS_CACHE_TTL_NANOS,
};

fn key(url: &str, account: &str) -> WorkspaceSettingsCacheKey {
    WorkspaceSettingsCacheKey {
        chatgpt_base_url: url.to_string(),
        account_id: account.to_string(),
    }
}

fn workspace_auth(account: Option<&str>) -> AuthFacts {
    AuthFacts {
        is_chatgpt_auth: true,
        is_workspace_account: true,
        account_id: account.map(str::to_string),
        chatgpt_user_id: Some("user-1".to_string()),
    }
}

#[test]
fn cached_answer_is_read_back_until_it_expires() {
    let mut cache = WorkspaceSettingsCache::new();
    cache.set_at(key("https://b", "acc"), false, 100);
    assert_eq!(cache.get_at(&key("https://b", "acc"), 100), Some(false));
    assert_eq!(
        cache.get_at(&key("https://b", "acc"), 100 + WORKSPACE_SETTINGS_CACHE_TTL_NANOS - 1),
        Some(false)
    );
    assert_eq!(
        cache.get_at(&key("https://b", "acc"), 100 + WORKSPACE_SETTINGS_CACHE_TTL_NANOS),
        None
    );
    assert!(!cache.has_entry());
}

#[test]
fn other_account_misses_and_clears_the_entry() {
    let mut cache = WorkspaceSettingsCache::new();
    cache.set_at(key("https://b", "acc"), true, 0);
    assert_eq!(cache.get_at(&key("https://b", "other"), 1), None);
    assert!(!cache.has_entry());
    assert_eq!(cache.get_at(&key("https://b", "acc"), 1), None);
}

#[test]
fn clock_based_cache_answers_right_after_recording() {
    let mut cache = WorkspaceSettingsCache::new();
    assert_eq!(cache.get_deepseek_plugins_enabled(&key("u", "a")), None);
    cache.set_deepseek_plugins_enabled(key("u", "a"), false);
    assert_eq!(cache.get_deepseek_plugins_enabled(&key("u", "a")), Some(false));
}

#[test]
fn logins_without_a_workspace_account_have_plugins() {
    let mut cache = Some(WorkspaceSettingsCache::new());
    assert!(matches!(
        begin_plugins_enabled_check("u", None, &mut cache),
        PluginsEnabledStep::Decided(true)
    ));
    let mut api_key = workspace_auth(Some("acc"));
    api_key.is_chatgpt_auth = false;
    assert!(matches!(
        begin_plugins_enabled_check("u", Some(&api_key), &mut cache),
        PluginsEnabledStep::Decided(true)
    ));
    let mut personal = workspace_auth(Some("acc"));
    personal.is_workspace_account = false;
    assert!(matches!(
        begin_plugins_enabled_check("u", Some(&personal), &mut cache),
        PluginsEnabledStep::Decided(true)
    ));
    assert!(matches!(
        begin_plugins_enabled_check("u", Some(&workspace_auth(Some(""))), &mut cache),
        PluginsEnabledStep::Decided(true)
    ));
    assert!(matches!(
        begin_plugins_enabled_check("u", Some(&workspace_auth(None)), &mut cache),
        PluginsEnabledStep::Decided(true)
    ));
}

#[test]
fn workspace_account_fetches_then_uses_the_cache() {
    let mut cache = Some(WorkspaceSettingsCache::new());
    let auth = workspace_auth(Some("acc 1/x"));
    let step = begin_plugins_enabled_check("https://chatgpt.example", Some(&auth), &mut cache);
    let cache_key = match step {
        PluginsEnabledStep::FetchSettings { path, timeout_secs, cache_key } => {
            assert_eq!(path, "/accounts/acc%201%2Fx/settings");
            assert_eq!(timeout_secs, 10);
            assert_eq!(cache_key.chatgpt_base_url, "https://chatgpt.example");
            assert_eq!(cache_key.account_id, "acc 1/x");
            cache_key
        }
        PluginsEnabledStep::Decided(_) => panic!("expected a fetch"),
    };
    let settings = vec![
        ("other".to_string(), true),
        ("enable_plugins".to_string(), false),
    ];
    assert!(!finish_plugins_enabled_check(&settings, cache_key, &mut cache));
    assert!(matches!(
        begin_plugins_enabled_check("https://chatgpt.example", Some(&auth), &mut cache),
        PluginsEnabledStep::Decided(false)
    ));
}

#[test]
fn missing_beta_setting_means_enabled() {
    let mut cache: Option<WorkspaceSettingsCache> = None;
    assert!(finish_plugins_enabled_check(&vec![], key("u", "a"), &mut cache));
    assert!(cache.is_none());
    let settings = vec![("enable_plugins".to_string(), true)];
    assert!(finish_plugins_enabled_check(&settings, key("u", "a"), &mut cache));
}
