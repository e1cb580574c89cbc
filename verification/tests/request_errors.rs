use deepseek_cli::request_errors::{
    environment_selection_error, finish_turn_environment_selections,
    resolve_runtime_workspace_roots, resolve_turn_environment_selections,
    EnvironmentSelectionFailure, TurnEnvironmentParams, INTERNAL_ERROR_CODE,
    INVALID_REQUEST_ERROR_CODE,
};

fn env(id: &str, cwd: &str, uri: Option<&str>) -> TurnEnvironmentParams {
    TurnEnvironmentParams {
        environment_id: id.to_string(),
        cwd: cwd.to_string(),
        inferred_cwd_uri: uri.map(str::to_string),
    }
}

#[test]
fn turn_environments_become_selections() {
    assert!(matches!(resolve_turn_environment_selections(None), Ok(None)));
    let selections = resolve_turn_environment_selections(Some(vec![
        env("local", "/repo", Some("file:///repo")),
        env("remote", "C:\\work", Some("file:///C:/work")),
    ]))
    .ok()
    .flatten()
    .expect("selections");
    assert_eq!(selections.len(), 2);
    assert_eq!(selections[1].environment_id, "remote");
    assert_eq!(selections[1].cwd, "file:///C:/work");
    let done = finish_turn_environment_selections(selections, Ok(())).ok().flatten();
    assert_eq!(done.map(|s| s.len()), Some(2));
}

#[test]
fn first_relative_cwd_is_an_invalid_request() {
    let err = resolve_turn_environment_selections(Some(vec![
        env("ok", "/repo", Some("file:///repo")),
        env("bad", "repo", None),
        env("worse", "x", None),
    ]))
    .err()
    .expect("invalid cwd");
    assert_eq!(err.code, INVALID_REQUEST_ERROR_CODE);
    assert_eq!(
        err.message,
        "invalid cwd for environment `bad`: path `repo` does not use absolute POSIX or Windows path syntax"
    );
}

#[test]
fn failed_validation_maps_to_json_rpc_errors() {
    let err = finish_turn_environment_selections(
        vec![],
        Err(EnvironmentSelectionFailure::Other("unknown environment".to_string())),
    )
    .err()
    .expect("internal error");
    assert_eq!(err.code, INTERNAL_ERROR_CODE);
    assert_eq!(err.message, "failed to validate environment selections: unknown environment");
}

#[test]
fn invalid_requests_keep_their_message() {
    let e = environment_selection_error(EnvironmentSelectionFailure::InvalidRequest(
        "unknown environment `x`".to_string(),
    ));
    assert_eq!(e.code, INVALID_REQUEST_ERROR_CODE);
    assert_eq!(e.code, -32600);
    assert_eq!(e.message, "unknown environment `x`");
}

#[test]
fn other_failures_are_internal_errors() {
    let e = environment_selection_error(EnvironmentSelectionFailure::Other("boom".to_string()));
    assert_eq!(e.code, INTERNAL_ERROR_CODE);
    assert_eq!(e.code, -32603);
    assert_eq!(e.message, "failed to validate environment selections: boom");
}

#[test]
fn workspace_roots_keep_first_occurrences_in_order() {
    let roots = vec!["/b", "/a", "/b", "/c", "/a"]
        .into_iter()
        .map(str::to_string)
        .collect();
    assert_eq!(resolve_runtime_workspace_roots(roots), vec!["/b", "/a", "/c"]);
    assert!(resolve_runtime_workspace_roots(vec![]).is_empty());
    let once = resolve_runtime_workspace_roots(vec!["/x".to_string(), "/x".to_string()]);
    assert_eq!(once, vec!["/x"]);
    assert_eq!(resolve_runtime_workspace_roots(once.clone()), once);
}

#[test]
fn workspace_roots_spelled_differently_are_one_root() {
    let roots = vec!["/a", "/a/", "//a/./", "/b", "/a/b/.."]
        .into_iter()
        .map(str::to_string)
        .collect();
    assert_eq!(resolve_runtime_workspace_roots(roots), vec!["/a", "/b", "/a/b/.."]);
}
