//! Where the DeepSeek configuration directory is: `DEEPSEEK_HOME` when it
//! is set (it must then be an existing directory, and is canonicalised), or
//! `~/.codex`.

use vstd::prelude::*;
use vstd::string::*;
use crate::text::{owned, path_join, path_join_spec, chars_of};
use crate::io_error::IoErrorKind;

verus! {

/// How `Debug` shows a string: quoted, with escapes.
pub uninterp spec fn debug_quoted(s: Seq<char>) -> Seq<char>;

/// Calls `format!("{:?}", s)`, std's `Debug` for `str`. Claimed: the result
/// is the named rendering of `s`, which depends on `s` alone.
#[verifier::external_body]
fn debug_str(s: &str) -> (r: String)
    ensures
        r@ == debug_quoted(s@),
{
    format!("{:?}", s)
}

/// An I/O error to report: its kind and message.
pub struct HomeDirError {
    pub kind: IoErrorKind,
    pub message: String,
}

/// What to do next while looking for the DeepSeek home.
pub enum HomeDirStep {
    /// Read the metadata of `path`, the value of `DEEPSEEK_HOME`.
    ReadMetadata { path: String },
    /// Use the user's home directory.
    UseHomeDir,
}

/// The value of `DEEPSEEK_HOME` that counts: an empty value counts as unset.
pub fn deepseek_home_env_value(raw: Option<String>) -> (r: Option<String>)
    ensures
        match raw {
            Some(v) => if v@.len() > 0 {
                r == Some(v)
            } else {
                r is None
            },
            None => r is None,
        },
{
    match raw {
        Some(v) => {
            let n = chars_of(v.as_str()).len();
            if n > 0 {
                Some(v)
            } else {
                None
            }
        },
        None => None,
    }
}

/// First step: a set `DEEPSEEK_HOME` must be checked on disk; otherwise the
/// user's home directory is used.
pub fn begin_find_deepseek_home(deepseek_home_env: Option<&str>) -> (step: HomeDirStep)
    ensures
        match deepseek_home_env {
            Some(v) => step matches HomeDirStep::ReadMetadata { path } && path@ == v@,
            None => step is UseHomeDir,
        },
{
    match deepseek_home_env {
        Some(v) => HomeDirStep::ReadMetadata { path: owned(v) },
        None => HomeDirStep::UseHomeDir,
    }
}

/// The error for `DEEPSEEK_HOME` value `val` whose metadata could not be read.
pub open spec fn metadata_error_spec(val: Seq<char>, kind: IoErrorKind, shown: Seq<char>) -> (IoErrorKind, Seq<char>) {
    if kind == IoErrorKind::NotFound {
        (IoErrorKind::NotFound, "DEEPSEEK_HOME points to "@ + debug_quoted(val) + ", but that path does not exist"@)
    } else {
        (kind, "failed to read DEEPSEEK_HOME "@ + debug_quoted(val) + ": "@ + shown)
    }
}

/// Second step, after reading the metadata of `val`: a failure to read is
/// reported (a missing path as such); a path that is not a directory is
/// invalid input; a directory goes on to be canonicalised (`Ok`).
pub fn check_deepseek_home_metadata(val: &str, metadata: Result<bool, (IoErrorKind, String)>) -> (r: Result<(), HomeDirError>)
    ensures
        match metadata {
            Err((kind, shown)) => r matches Err(e) && (e.kind, e.message@) == metadata_error_spec(
                val@,
                kind,
                shown@,
            ),
            Ok(is_dir) => if is_dir {
                r is Ok
            } else {
                r matches Err(e) && e.kind == IoErrorKind::InvalidInput && e.message@
                    == "DEEPSEEK_HOME points to "@ + debug_quoted(val@)
                    + ", but that path is not a directory"@
            },
        },
{
    match metadata {
        Err((kind, shown)) => {
            let quoted = debug_str(val);
            if kind == IoErrorKind::NotFound {
                let mut m = owned("DEEPSEEK_HOME points to ");
                m.append(quoted.as_str());
                m.append(", but that path does not exist");
                Err(HomeDirError { kind: IoErrorKind::NotFound, message: m })
            } else {
                let mut m = owned("failed to read DEEPSEEK_HOME ");
                m.append(quoted.as_str());
                m.append(": ");
                m.append(shown.as_str());
                Err(HomeDirError { kind, message: m })
            }
        },
        Ok(is_dir) => {
            if is_dir {
                Ok(())
            } else {
                let quoted = debug_str(val);
                let mut m = owned("DEEPSEEK_HOME points to ");
                m.append(quoted.as_str());
                m.append(", but that path is not a directory");
                Err(HomeDirError { kind: IoErrorKind::InvalidInput, message: m })
            }
        },
    }
}

/// Last step for a set `DEEPSEEK_HOME`: the canonical path is the home; a
/// failure to canonicalise keeps its kind and says what failed.
pub fn finish_deepseek_home(val: &str, canonical: Result<String, (IoErrorKind, String)>) -> (r: Result<String, HomeDirError>)
    ensures
        match canonical {
            Ok(path) => r == Ok::<String, HomeDirError>(path),
            Err((kind, shown)) => r matches Err(e) && e.kind == kind && e.message@
                == "failed to canonicalize DEEPSEEK_HOME "@ + debug_quoted(val@) + ": "@ + shown@,
        },
{
    match canonical {
        Ok(path) => Ok(path),
        Err((kind, shown)) => {
            let quoted = debug_str(val);
            let mut m = owned("failed to canonicalize DEEPSEEK_HOME ");
            m.append(quoted.as_str());
            m.append(": ");
            m.append(shown.as_str());
            Err(HomeDirError { kind, message: m })
        },
    }
}

/// Without `DEEPSEEK_HOME`: `.codex` in the user's home directory, which
/// must be known.
pub fn default_deepseek_home(home_dir: Option<String>) -> (r: Result<String, HomeDirError>)
    ensures
        match home_dir {
            Some(h) => r matches Ok(p) && p@ == path_join_spec(h@, ".codex"@),
            None => r matches Err(e) && e.kind == IoErrorKind::NotFound && e.message@
                == "Could not find home directory"@,
        },
{
    match home_dir {
        Some(h) => Ok(path_join(h.as_str(), ".codex")),
        None => Err(
            HomeDirError { kind: IoErrorKind::NotFound, message: owned("Could not find home directory") },
        ),
    }
}

/// The memories folder of a DeepSeek home.
pub fn memory_root(deepseek_home: &str) -> (r: String)
    ensures
        r@ == path_join_spec(deepseek_home@, "memories"@),
{
    path_join(deepseek_home, "memories")
}

} // verus!
