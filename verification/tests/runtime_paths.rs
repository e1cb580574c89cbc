use deepseek_cli::runtime_paths::ExecServerRuntimePaths;
use deepseek_cli::io_error::IoErrorKind;

#[test]
fn missing_executable_is_invalid_input() {
    let err = ExecServerRuntimePaths::from_optional_paths(None, None).err().expect("error");
    assert!(err.kind == IoErrorKind::InvalidInput);
    assert_eq!(err.message, "DeepSeek executable path is not configured");
}

#[test]
fn absolute_paths_are_kept_and_failures_reported() {
    let paths = ExecServerRuntimePaths::from_optional_paths(
        Some(Ok("/usr/bin/deepseek".to_string())),
        Some(Ok("/usr/bin/deepseek-linux-sandbox".to_string())),
    )
    .ok()
    .expect("paths");
    assert_eq!(paths.codex_self_exe, "/usr/bin/deepseek");
    assert_eq!(paths.deepseek_linux_sandbox_exe.as_deref(), Some("/usr/bin/deepseek-linux-sandbox"));
    let none = ExecServerRuntimePaths::new(Ok("/x".to_string()), None).ok().expect("paths");
    assert!(none.deepseek_linux_sandbox_exe.is_none());
    let err = ExecServerRuntimePaths::new(Err("exe".to_string()), Some(Err("sandbox".to_string())))
        .err()
        .expect("error");
    assert_eq!(err.message, "exe");
    assert!(err.kind == IoErrorKind::InvalidInput);
    let err = ExecServerRuntimePaths::new(Ok("/x".to_string()), Some(Err("sandbox".to_string())))
        .err()
        .expect("error");
    assert_eq!(err.message, "sandbox");
}
