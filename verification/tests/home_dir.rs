use deepseek_cli::home_dir::{
    begin_find_deepseek_home, check_deepseek_home_metadata, deepseek_home_env_value,
    default_deepseek_home, finish_deepseek_home, memory_root, HomeDirStep,
};
use deepseek_cli::io_error::IoErrorKind;

#[test]
fn empty_env_value_counts_as_unset() {
    assert_eq!(deepseek_home_env_value(Some(String::new())), None);
    assert_eq!(deepseek_home_env_value(None), None);
    assert_eq!(deepseek_home_env_value(Some("/x".to_string())).as_deref(), Some("/x"));
    assert!(matches!(begin_find_deepseek_home(None), HomeDirStep::UseHomeDir));
    match begin_find_deepseek_home(Some("/x")) {
        HomeDirStep::ReadMetadata { path } => assert_eq!(path, "/x"),
        HomeDirStep::UseHomeDir => panic!("expected a metadata read"),
    }
}

#[test]
fn missing_home_is_not_found() {
    let err = check_deepseek_home_metadata(
        "/tmp/missing",
        Err((IoErrorKind::NotFound, "No such file or directory".to_string())),
    )
    .unwrap_err();
    assert!(err.kind == IoErrorKind::NotFound);
    assert_eq!(
        err.message,
        "DEEPSEEK_HOME points to \"/tmp/missing\", but that path does not exist"
    );
}

#[test]
fn unreadable_home_keeps_its_kind() {
    let err = check_deepseek_home_metadata(
        "/tmp/x",
        Err((IoErrorKind::PermissionDenied, "Permission denied".to_string())),
    )
    .unwrap_err();
    assert!(err.kind == IoErrorKind::PermissionDenied);
    assert_eq!(err.message, "failed to read DEEPSEEK_HOME \"/tmp/x\": Permission denied");
}

#[test]
fn file_home_is_invalid_input() {
    let err = check_deepseek_home_metadata("/tmp/file.txt", Ok(false)).unwrap_err();
    assert!(err.kind == IoErrorKind::InvalidInput);
    assert!(err.message.contains("not a directory"));
    assert!(check_deepseek_home_metadata("/tmp", Ok(true)).is_ok());
}

#[test]
fn canonical_home_is_used() {
    assert_eq!(
        finish_deepseek_home("/tmp/./x", Ok("/tmp/x".to_string())).ok().as_deref(),
        Some("/tmp/x")
    );
    let err = finish_deepseek_home("a\"b", Err((IoErrorKind::Other, "boom".to_string()))).unwrap_err();
    assert_eq!(err.message, "failed to canonicalize DEEPSEEK_HOME \"a\\\"b\": boom");
}

#[test]
fn default_home_is_dot_codex() {
    assert_eq!(
        default_deepseek_home(Some("/home/u".to_string())).ok().as_deref(),
        Some("/home/u/.codex")
    );
    let err = default_deepseek_home(None).unwrap_err();
    assert!(err.kind == IoErrorKind::NotFound);
    assert_eq!(err.message, "Could not find home directory");
    assert_eq!(memory_root("/home/u/.codex"), "/home/u/.codex/memories");
}


#[test]
fn find_deepseek_home_without_env_uses_default_home_dir() {
    assert!(matches!(begin_find_deepseek_home(None), HomeDirStep::UseHomeDir));
    let home = dirs::home_dir().expect("home dir");
    let resolved = default_deepseek_home(Some(home.to_str().unwrap().to_string()))
        .ok()
        .expect("default DEEPSEEK_HOME");
    let mut expected = home;
    expected.push(".codex");
    assert_eq!(resolved, expected.to_str().unwrap());
}

#[test]
fn unreadable_home_keeps_a_timeout_kind() {
    let err = check_deepseek_home_metadata(
        "/net/home",
        Err((IoErrorKind::TimedOut, "timed out".to_string())),
    )
    .unwrap_err();
    assert!(err.kind == IoErrorKind::TimedOut);
    assert_eq!(err.message, "failed to read DEEPSEEK_HOME \"/net/home\": timed out");
}

/// Reads the metadata of `path` as the library's step expects it.
fn read_metadata(path: &str) -> Result<bool, (IoErrorKind, String)> {
    std::path::Path::new(path)
        .metadata()
        .map(|m| m.is_dir())
        .map_err(|err| {
            let kind = match err.kind() {
                std::io::ErrorKind::NotFound => IoErrorKind::NotFound,
                std::io::ErrorKind::PermissionDenied => IoErrorKind::PermissionDenied,
                _ => IoErrorKind::Other,
            };
            (kind, err.to_string())
        })
}

/// The path the library asks to read for `DEEPSEEK_HOME` set to `val`.
fn metadata_path(val: &str) -> String {
    match begin_find_deepseek_home(Some(val)) {
        HomeDirStep::ReadMetadata { path } => path,
        HomeDirStep::UseHomeDir => panic!("expected a metadata read"),
    }
}

#[test]
fn find_deepseek_home_env_missing_path_is_fatal() {
    let temp_home = tempfile::TempDir::new().expect("temp home");
    let missing = temp_home.path().join("missing-deepseek-home");
    let missing_str = missing.to_str().expect("missing codex home path should be valid utf-8");

    let path = metadata_path(missing_str);
    let err = check_deepseek_home_metadata(&path, read_metadata(&path)).expect_err("missing DEEPSEEK_HOME");
    assert!(err.kind == IoErrorKind::NotFound);
    assert!(err.message.contains("DEEPSEEK_HOME"), "unexpected error: {}", err.message);
}

#[test]
fn find_deepseek_home_env_file_path_is_fatal() {
    let file = tempfile::NamedTempFile::new().expect("temp file");
    let file_str = file.path().to_str().expect("file codex home path should be valid utf-8");

    let path = metadata_path(file_str);
    let err = check_deepseek_home_metadata(&path, read_metadata(&path)).expect_err("file DEEPSEEK_HOME");
    assert!(err.kind == IoErrorKind::InvalidInput);
    assert!(err.message.contains("not a directory"), "unexpected error: {}", err.message);
}

#[test]
fn find_deepseek_home_env_valid_directory_canonicalizes() {
    let temp_home = tempfile::TempDir::new().expect("temp home");
    let temp_str = temp_home.path().to_str().expect("temp codex home path should be valid utf-8");

    let path = metadata_path(temp_str);
    assert!(check_deepseek_home_metadata(&path, read_metadata(&path)).is_ok());
    let canonical = std::path::Path::new(&path)
        .canonicalize()
        .map(|p| p.to_str().expect("utf-8").to_string())
        .map_err(|err| (IoErrorKind::Other, err.to_string()));
    let resolved = finish_deepseek_home(&path, canonical).ok().expect("valid DEEPSEEK_HOME");
    let expected = temp_home.path().canonicalize().expect("canonicalize temp home");
    assert_eq!(resolved, expected.to_str().unwrap());
}
