//! Errors of session initialisation, with hints about the session storage.

use vstd::prelude::*;
use vstd::string::*;
use crate::text::{join3, path_join, path_join_spec, owned};
pub use crate::io_error::IoErrorKind;

verus! {

/// Directory, under the DeepSeek home, that holds the session files.
pub const SESSIONS_SUBDIR: &'static str = "sessions";

/// An I/O error: its kind and its display text.
pub struct IoFailure {
    pub kind: IoErrorKind,
    pub shown: String,
}

/// One cause in the chain of an initialisation error.
pub enum InitErrorCause {
    /// The thread store does not support `operation`.
    ThreadStoreUnsupported { operation: String },
    /// Any other thread-store error.
    ThreadStoreOther,
    /// An I/O error.
    Io(IoFailure),
    /// Any other error.
    Other,
}

/// The errors that session initialisation reports.
pub enum DeepSeekErr {
    UnsupportedOperation(String),
    Fatal(String),
}

/// The hint for an I/O error on the session storage of `home`, if its kind
/// has one.
pub open spec fn storage_hint(kind: IoErrorKind, home: Seq<char>) -> Option<Seq<char>> {
    let dir = path_join_spec(home, SESSIONS_SUBDIR@);
    match kind {
        IoErrorKind::PermissionDenied => Some(
            "DeepSeek cannot access session files at "@ + dir
                + " (permission denied). If sessions were created using sudo, fix ownership: sudo chown -R $(whoami) "@
                + home,
        ),
        IoErrorKind::NotFound => Some(
            "Session storage missing at "@ + dir
                + ". Create the directory or choose a different DeepSeek home."@,
        ),
        IoErrorKind::AlreadyExists => Some(
            "Session storage path "@ + dir
                + " is blocked by an existing file. Remove or rename it so DeepSeek can create sessions."@,
        ),
        IoErrorKind::InvalidData | IoErrorKind::InvalidInput => Some(
            "Session data under "@ + dir
                + " looks corrupt or unreadable. Clearing the sessions directory may help (this will remove saved threads)."@,
        ),
        IoErrorKind::IsADirectory | IoErrorKind::NotADirectory => Some(
            "Session storage path "@ + dir
                + " has an unexpected type. Ensure it is a directory DeepSeek can use for session files."@,
        ),
        _ => None,
    }
}

/// The fatal message for an I/O error whose kind has a hint.
pub open spec fn io_error_message(io: IoFailure, home: Seq<char>) -> Option<Seq<char>> {
    match storage_hint(io.kind, home) {
        Some(hint) => Some(hint + " (underlying error: "@ + io.shown@ + ")"@),
        None => None,
    }
}

/// Maps an I/O error on the session storage of `deepseek_home` to a fatal
/// error with a hint, for the kinds that have one.
pub fn map_rollout_io_error(io_err: &IoFailure, deepseek_home: &str) -> (r: Option<DeepSeekErr>)
    ensures
        match io_error_message(*io_err, deepseek_home@) {
            Some(m) => r matches Some(DeepSeekErr::Fatal(msg)) && msg@ == m,
            None => r is None,
        },
{
    let sessions_dir = path_join(deepseek_home, SESSIONS_SUBDIR);
    let dir = sessions_dir.as_str();
    let hint = match io_err.kind {
        IoErrorKind::PermissionDenied => {
            let mut h = join3(
                "DeepSeek cannot access session files at ",
                dir,
                " (permission denied). If sessions were created using sudo, fix ownership: sudo chown -R $(whoami) ",
            );
            h.append(deepseek_home);
            h
        },
        IoErrorKind::NotFound => join3(
            "Session storage missing at ",
            dir,
            ". Create the directory or choose a different DeepSeek home.",
        ),
        IoErrorKind::AlreadyExists => join3(
            "Session storage path ",
            dir,
            " is blocked by an existing file. Remove or rename it so DeepSeek can create sessions.",
        ),
        IoErrorKind::InvalidData | IoErrorKind::InvalidInput => join3(
            "Session data under ",
            dir,
            " looks corrupt or unreadable. Clearing the sessions directory may help (this will remove saved threads).",
        ),
        IoErrorKind::IsADirectory | IoErrorKind::NotADirectory => join3(
            "Session storage path ",
            dir,
            " has an unexpected type. Ensure it is a directory DeepSeek can use for session files.",
        ),
        _ => return None,
    };
    let mut message = hint;
    message.append(" (underlying error: ");
    message.append(io_err.shown.as_str());
    message.append(")");
    Some(DeepSeekErr::Fatal(message))
}

/// Whether a cause is a thread-store error.
pub open spec fn is_thread_store_cause(c: InitErrorCause) -> bool {
    c is ThreadStoreUnsupported || c is ThreadStoreOther
}

/// The first thread-store error in the chain, if any.
pub open spec fn first_thread_store_cause(chain: Seq<InitErrorCause>) -> Option<InitErrorCause>
    decreases chain.len(),
{
    if chain.len() == 0 {
        None
    } else if is_thread_store_cause(chain[0]) {
        Some(chain[0])
    } else {
        first_thread_store_cause(chain.drop_first())
    }
}

/// The message of the first I/O error in the chain whose kind has a hint.
pub open spec fn first_io_message(chain: Seq<InitErrorCause>, home: Seq<char>) -> Option<Seq<char>>
    decreases chain.len(),
{
    if chain.len() == 0 {
        None
    } else {
        match chain[0] {
            InitErrorCause::Io(io) => match io_error_message(io, home) {
                Some(m) => Some(m),
                None => first_io_message(chain.drop_first(), home),
            },
            _ => first_io_message(chain.drop_first(), home),
        }
    }
}

/// The error that session initialisation reports for a failure whose causes
/// are `chain` and whose alternate display is `shown`.
pub open spec fn session_init_error(chain: Seq<InitErrorCause>, shown: Seq<char>, home: Seq<char>) -> (Option<Seq<char>>, Seq<char>) {
    match first_thread_store_cause(chain) {
        Some(InitErrorCause::ThreadStoreUnsupported { operation }) => (
            Some(operation@ + " is not supported yet"@),
            Seq::empty(),
        ),
        _ => match first_io_message(chain, home) {
            Some(m) => (None, m),
            None => (None, "Failed to initialize session: "@ + shown),
        },
    }
}

/// Maps a session initialisation failure: an unsupported thread-store
/// operation (the first thread-store error of the chain) is reported as
/// such; else the first I/O error with a storage hint becomes a fatal error
/// with that hint; else the failure is fatal as it is.
pub fn map_session_init_error(chain: &Vec<InitErrorCause>, shown: &str, deepseek_home: &str) -> (r: DeepSeekErr)
    ensures
        match session_init_error(chain@, shown@, deepseek_home@) {
            (Some(unsupported), _) => r matches DeepSeekErr::UnsupportedOperation(m) && m@
                == unsupported,
            (None, fatal) => r matches DeepSeekErr::Fatal(m) && m@ == fatal,
        },
{
    let mut i: usize = 0;
    let mut other_store_error = false;
    assert(chain@.skip(0) =~= chain@);
    while i < chain.len() && !other_store_error
        invariant
            i <= chain@.len(),
            !other_store_error ==> first_thread_store_cause(chain@) == first_thread_store_cause(
                chain@.skip(i as int),
            ),
            other_store_error ==> first_thread_store_cause(chain@) == Some(
                InitErrorCause::ThreadStoreOther,
            ),
        decreases chain@.len() - i, if other_store_error { 0int } else { 1int },
    {
        assert(chain@.skip(i as int).drop_first() =~= chain@.skip(i + 1));
        match &chain[i] {
            InitErrorCause::ThreadStoreUnsupported { operation } => {
                let mut m = owned(operation.as_str());
                m.append(" is not supported yet");
                return DeepSeekErr::UnsupportedOperation(m);
            },
            InitErrorCause::ThreadStoreOther => {
                other_store_error = true;
            },
            _ => {
                i = i + 1;
            },
        }
    }
    assert(chain@.skip(chain@.len() as int) =~= Seq::<InitErrorCause>::empty());
    let mut j: usize = 0;
    while j < chain.len()
        invariant
            j <= chain@.len(),
            !(first_thread_store_cause(chain@) matches Some(
                InitErrorCause::ThreadStoreUnsupported { .. },
            )),
            first_io_message(chain@, deepseek_home@) == first_io_message(chain@.skip(j as int), deepseek_home@),
        decreases chain@.len() - j,
    {
        assert(chain@.skip(j as int).drop_first() =~= chain@.skip(j + 1));
        if let InitErrorCause::Io(io) = &chain[j] {
            assert(chain@.skip(j as int)[0] == chain@[j as int]);
            if let Some(mapped) = map_rollout_io_error(io, deepseek_home) {
                assert(first_io_message(chain@.skip(j as int), deepseek_home@) == io_error_message(
                    *io,
                    deepseek_home@,
                ));
                return mapped;
            }
        }
        j = j + 1;
    }
    assert(chain@.skip(chain@.len() as int) =~= Seq::<InitErrorCause>::empty());
    let mut m = owned("Failed to initialize session: ");
    m.append(shown);
    DeepSeekErr::Fatal(m)
}

} // verus!
