use deepseek_cli::credentials::{
    deepseek_api_key_env_vars, deepseek_binding, request_header_value, CredentialHostBinding,
};
use deepseek_cli::state_db_recovery::{backup_folder, is_auto_backup_recoverable, RuntimeDbBackup};
use std::collections::HashMap;

#[test]
fn backup_folder_uses_parent_of_first_backup_path() {
    let backups = vec![RuntimeDbBackup {
        original_path: "/tmp/state_5.sqlite".to_string(),
        backup_path: "/tmp/db-backups/sqlite-1-0/state_5.sqlite".to_string(),
    }];

    assert_eq!(
        backup_folder(&backups).as_deref(),
        Some("/tmp/db-backups/sqlite-1-0")
    );
}

#[test]
fn no_backups_have_no_folder() {
    assert_eq!(backup_folder(&[]), None);
    let root = vec![RuntimeDbBackup {
        original_path: "/".to_string(),
        backup_path: "/".to_string(),
    }];
    assert_eq!(backup_folder(&root), None);
    assert!(is_auto_backup_recoverable(true, false));
    assert!(is_auto_backup_recoverable(false, true));
    assert!(!is_auto_backup_recoverable(false, false));
}

#[test]
fn deepseek_credential_binding_and_header() {
    assert_eq!(deepseek_api_key_env_vars(), vec!["DEEPSEEK_API_KEY".to_string()]);
    match deepseek_binding(&HashMap::new()) {
        Some(CredentialHostBinding::HostPattern { exact_hosts, suffixes }) => {
            assert_eq!(exact_hosts, vec!["api.deepseek.com", "api.deepseek.com"]);
            assert!(suffixes.is_empty());
        }
        None => panic!("expected a binding"),
    }
    let value = request_header_value("sk-123").expect("valid header");
    assert_eq!(value.text, "Bearer sk-123");
    assert_eq!(value.value.as_bytes(), b"Bearer sk-123");
    assert!(request_header_value("bad\nkey").is_none());
    assert!(request_header_value("del\u{7f}").is_none());
    assert!(request_header_value("tab\tok").is_some());
    assert!(request_header_value("ключ").is_some());
}

#[test]
fn fresh_start_notice_names_the_backup_folder_and_prompts_on_a_terminal() {
    let backups = vec![RuntimeDbBackup {
        original_path: "/tmp/state_5.sqlite".to_string(),
        backup_path: "/tmp/db-backups/sqlite-1-0/state_5.sqlite".to_string(),
    }];
    let lines = deepseek_cli::state_db_recovery::fresh_start_notice("/tmp/state_5.sqlite", &backups, true);
    assert_eq!(lines.len(), 5);
    assert_eq!(lines[2], "Путь к базе: /tmp/state_5.sqlite");
    assert_eq!(lines[3], "Папка резервной копии: /tmp/db-backups/sqlite-1-0");
    assert_eq!(lines[4], "Нажмите Enter для продолжения.");
    let lines = deepseek_cli::state_db_recovery::fresh_start_notice("/tmp/state_5.sqlite", &[], false);
    assert_eq!(lines[3], "Папка резервной копии: недоступна");
    assert_eq!(lines[4], "Продолжаю запуск с новой локальной базой...");
}

#[test]
fn sqlite_home_is_the_database_directory() {
    assert_eq!(
        deepseek_cli::state_db_recovery::sqlite_home("/home/u/.codex/sqlite/state_5.sqlite").as_deref(),
        Some("/home/u/.codex/sqlite")
    );
    assert_eq!(deepseek_cli::state_db_recovery::sqlite_home("/"), None);
}
