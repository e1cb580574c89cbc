//! Recovery from a local state database that cannot be opened.

use vstd::prelude::*;
use vstd::string::*;
use std::path::Path;
use crate::text::owned;

verus! {

/// The parent that `std::path::Path::parent` gives for a path: the path
/// without its final component, if it has one.
pub uninterp spec fn std_path_parent(path: Seq<char>) -> Option<Seq<char>>;

/// Calls `Path::parent` on `path`. Claimed: the result is the named parent
/// of the path, which depends on the path alone. The parent of a UTF-8 path
/// is UTF-8, so the conversion back loses nothing.
#[verifier::external_body]
fn path_parent(path: &str) -> (r: Option<String>)
    ensures
        match r {
            Some(p) => std_path_parent(path@) == Some(p@),
            None => std_path_parent(path@) is None,
        },
{
    Path::new(path).parent().map(|p| p.to_string_lossy().into_owned())
}

/// A database file that was moved aside before a fresh start.
pub struct RuntimeDbBackup {
    pub original_path: String,
    pub backup_path: String,
}

/// The folder of the backups: the parent of the first backup's path.
pub fn backup_folder(backups: &[RuntimeDbBackup]) -> (r: Option<String>)
    ensures
        backups@.len() == 0 ==> r is None,
        backups@.len() > 0 ==> match r {
            Some(p) => std_path_parent(backups@[0].backup_path@) == Some(p@),
            None => std_path_parent(backups@[0].backup_path@) is None,
        },
{
    if backups.len() == 0 {
        return None;
    }
    path_parent(backups[0].backup_path.as_str())
}

/// The directory that should hold the database: the parent of its path,
/// if it has one. A file there blocks the database.
pub fn sqlite_home(database_path: &str) -> (r: Option<String>)
    ensures
        match r {
            Some(p) => std_path_parent(database_path@) == Some(p@),
            None => std_path_parent(database_path@) is None,
        },
{
    path_parent(database_path)
}

/// A corrupt database, or a file where the database's directory should be,
/// can be backed up and rebuilt automatically.
pub fn is_auto_backup_recoverable(detail_is_corruption: bool, sqlite_home_is_blocking_file: bool) -> (r: bool)
    ensures
        r == (detail_is_corruption || sqlite_home_is_blocking_file),
{
    detail_is_corruption || sqlite_home_is_blocking_file
}

/// The folder of the backups, by its characters: the parent of the first
/// backup's path, if there is a first backup and its path has a parent.
pub open spec fn backup_folder_spec(backups: Seq<RuntimeDbBackup>) -> Option<Seq<char>> {
    if backups.len() == 0 {
        None
    } else {
        std_path_parent(backups[0].backup_path@)
    }
}

/// The lines printed after the database was rebuilt: what happened, where
/// the database is, where its backup went (or that it is unavailable), and
/// either the prompt to press Enter (on a terminal) or the notice that
/// startup goes on.
pub open spec fn fresh_start_notice_spec(
    database_path: Seq<char>,
    folder: Option<Seq<char>>,
    interactive: bool,
) -> Seq<Seq<char>> {
    seq![
        "DeepSeek CLI пересоздал локальную базу данных."@,
        "DeepSeek CLI обнаружил повреждённую базу, переместил её в папку резервных копий и продолжит запуск с новой базой."@,
        "Путь к базе: "@ + database_path,
        match folder {
            Some(f) => "Папка резервной копии: "@ + f,
            None => "Папка резервной копии: недоступна"@,
        },
        if interactive {
            "Нажмите Enter для продолжения."@
        } else {
            "Продолжаю запуск с новой локальной базой..."@
        },
    ]
}

/// The notice after a fresh start; when `interactive` (both standard input
/// and standard error are terminals) the caller then waits for Enter.
pub fn fresh_start_notice(database_path: &str, backups: &[RuntimeDbBackup], interactive: bool) -> (lines: Vec<String>)
    ensures
        lines@.map_values(|l: String| l@) == fresh_start_notice_spec(
            database_path@,
            backup_folder_spec(backups@),
            interactive,
        ),
{
    let mut lines: Vec<String> = Vec::new();
    lines.push(owned("DeepSeek CLI пересоздал локальную базу данных."));
    lines.push(
        owned(
            "DeepSeek CLI обнаружил повреждённую базу, переместил её в папку резервных копий и продолжит запуск с новой базой.",
        ),
    );
    let mut path_line = owned("Путь к базе: ");
    path_line.append(database_path);
    lines.push(path_line);
    let folder_line = match backup_folder(backups) {
        Some(folder) => {
            let mut l = owned("Папка резервной копии: ");
            l.append(folder.as_str());
            l
        },
        None => owned("Папка резервной копии: недоступна"),
    };
    lines.push(folder_line);
    if interactive {
        lines.push(owned("Нажмите Enter для продолжения."));
    } else {
        lines.push(owned("Продолжаю запуск с новой локальной базой..."));
    }
    assert(lines@.map_values(|l: String| l@) =~= fresh_start_notice_spec(
        database_path@,
        backup_folder_spec(backups@),
        interactive,
    ));
    lines
}

} // verus!
