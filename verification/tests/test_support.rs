use deepseek_cli::test_support::{
    responses_metadata, set_deterministic_process_ids, set_thread_manager_test_mode,
    DeepSeekResponsesRequestKind, EmptyUserInstructionsProvider, TestDeepSeekResponsesRequestKind,
    TestModes,
};

#[test]
fn test_modes_switch_independently() {
    let mut modes = TestModes::new();
    set_thread_manager_test_mode(&mut modes, true);
    assert!(modes.thread_manager_test_mode);
    assert!(!modes.deterministic_process_ids);
    set_deterministic_process_ids(&mut modes, true);
    set_thread_manager_test_mode(&mut modes, false);
    assert!(!modes.thread_manager_test_mode);
    assert!(modes.deterministic_process_ids);
}

#[test]
fn empty_provider_supplies_no_instructions() {
    assert!(EmptyUserInstructionsProvider.load_user_instructions().text.is_none());
}

#[test]
fn turn_requests_carry_turn_metadata() {
    let m = responses_metadata(
        "install",
        "session",
        "thread",
        Some("turn-1"),
        "window".to_string(),
        Some("subagent".to_string()),
        Some("review".to_string()),
        Some("parent".to_string()),
        TestDeepSeekResponsesRequestKind::Turn,
    );
    assert_eq!(m.installation_id, "install");
    assert_eq!(m.session_id, "session");
    assert_eq!(m.thread_id, "thread");
    assert_eq!(m.window_id, "window");
    assert_eq!(m.turn_id.as_deref(), Some("turn-1"));
    assert!(m.request_kind == Some(DeepSeekResponsesRequestKind::Turn));
    assert_eq!(m.parent_thread_id.as_deref(), Some("parent"));
    assert_eq!(m.subagent_header.as_deref(), Some("subagent"));
    assert_eq!(m.subagent_kind.as_deref(), Some("review"));
}

#[test]
fn websocket_connections_carry_no_turn_metadata() {
    let m = responses_metadata(
        "install",
        "session",
        "thread",
        Some("turn-1"),
        "window".to_string(),
        Some("subagent".to_string()),
        Some("review".to_string()),
        None,
        TestDeepSeekResponsesRequestKind::WebsocketConnection,
    );
    assert!(m.turn_id.is_none());
    assert!(m.request_kind.is_none());
    assert!(m.subagent_kind.is_none());
    assert_eq!(m.subagent_header.as_deref(), Some("subagent"));
    let p = responses_metadata(
        "i",
        "s",
        "t",
        None,
        "w".to_string(),
        None,
        None,
        None,
        TestDeepSeekResponsesRequestKind::Prewarm,
    );
    assert!(p.request_kind == Some(DeepSeekResponsesRequestKind::Prewarm));
    assert!(p.turn_id.is_none());
}
