use deepseek_cli::session_errors::{
    map_rollout_io_error, map_session_init_error, DeepSeekErr, InitErrorCause, IoErrorKind,
    IoFailure,
};

fn io(kind: IoErrorKind) -> IoFailure {
    IoFailure { kind, shown: "os error".to_string() }
}

fn fatal(e: DeepSeekErr) -> String {
    match e {
        DeepSeekErr::Fatal(m) => m,
        DeepSeekErr::UnsupportedOperation(m) => panic!("unexpected unsupported: {m}"),
    }
}

#[test]
fn storage_errors_get_hints() {
    let m = fatal(map_rollout_io_error(&io(IoErrorKind::PermissionDenied), "/h").unwrap());
    assert_eq!(
        m,
        "DeepSeek cannot access session files at /h/sessions (permission denied). If sessions were created using sudo, fix ownership: sudo chown -R $(whoami) /h (underlying error: os error)"
    );
    let m = fatal(map_rollout_io_error(&io(IoErrorKind::NotFound), "/h").unwrap());
    assert_eq!(
        m,
        "Session storage missing at /h/sessions. Create the directory or choose a different DeepSeek home. (underlying error: os error)"
    );
    let m = fatal(map_rollout_io_error(&io(IoErrorKind::AlreadyExists), "/h/").unwrap());
    assert!(m.starts_with("Session storage path /h/sessions is blocked by an existing file."));
    let m = fatal(map_rollout_io_error(&io(IoErrorKind::InvalidInput), "/h").unwrap());
    assert!(m.starts_with("Session data under /h/sessions looks corrupt or unreadable."));
    let m = fatal(map_rollout_io_error(&io(IoErrorKind::NotADirectory), "/h").unwrap());
    assert!(m.starts_with("Session storage path /h/sessions has an unexpected type."));
    assert!(map_rollout_io_error(&io(IoErrorKind::Other), "/h").is_none());
}

#[test]
fn unsupported_thread_store_operation_wins() {
    let chain = vec![
        InitErrorCause::Io(io(IoErrorKind::NotFound)),
        InitErrorCause::ThreadStoreUnsupported { operation: "archive".to_string() },
    ];
    match map_session_init_error(&chain, "outer: inner", "/h") {
        DeepSeekErr::UnsupportedOperation(m) => assert_eq!(m, "archive is not supported yet"),
        DeepSeekErr::Fatal(m) => panic!("unexpected fatal: {m}"),
    }
}

#[test]
fn first_hinted_io_error_is_used() {
    let chain = vec![
        InitErrorCause::Other,
        InitErrorCause::ThreadStoreOther,
        InitErrorCause::ThreadStoreUnsupported { operation: "archive".to_string() },
        InitErrorCause::Io(io(IoErrorKind::Other)),
        InitErrorCause::Io(io(IoErrorKind::NotFound)),
    ];
    let m = fatal(map_session_init_error(&chain, "outer: inner", "/h"));
    assert!(m.starts_with("Session storage missing at /h/sessions."));
}

#[test]
fn other_failures_are_fatal() {
    let chain = vec![InitErrorCause::Other, InitErrorCause::Io(io(IoErrorKind::Other))];
    let m = fatal(map_session_init_error(&chain, "outer: inner", "/h"));
    assert_eq!(m, "Failed to initialize session: outer: inner");
}

#[test]
fn kinds_without_a_hint_are_not_mapped() {
    assert!(map_rollout_io_error(&io(IoErrorKind::TimedOut), "/home/u/.codex").is_none());
    assert!(map_rollout_io_error(&io(IoErrorKind::Interrupted), "/home/u/.codex").is_none());
}
