//! Runtime paths needed by exec-server child processes.

use vstd::prelude::*;
use vstd::string::*;
use crate::text::owned;
use crate::io_error::IoErrorKind;

verus! {

/// Message when no DeepSeek executable was configured.
pub const EXECUTABLE_NOT_CONFIGURED: &'static str = "DeepSeek executable path is not configured";

/// Stable path of the DeepSeek executable, and of the Linux sandbox helper
/// alias, if any.
pub struct ExecServerRuntimePaths {
    pub codex_self_exe: String,
    pub deepseek_linux_sandbox_exe: Option<String>,
}

/// An invalid runtime path: the error's kind and message.
pub struct RuntimePathError {
    pub kind: IoErrorKind,
    pub message: String,
}

/// The paths built from the absolute forms of the two paths. Each argument
/// is a path made absolute, or the message of why it could not be; the
/// executable's failure is reported first, and every failure is invalid
/// input.
pub open spec fn runtime_paths_spec(
    exe: Result<String, String>,
    sandbox: Option<Result<String, String>>,
    r: Result<ExecServerRuntimePaths, RuntimePathError>,
) -> bool {
    match exe {
        Err(m) => r matches Err(e) && e.kind == IoErrorKind::InvalidInput && e.message == m,
        Ok(p) => match sandbox {
            Some(Err(m)) => r matches Err(e) && e.kind == IoErrorKind::InvalidInput && e.message
                == m,
            Some(Ok(s)) => r matches Ok(paths) && paths.codex_self_exe == p
                && paths.deepseek_linux_sandbox_exe == Some(s),
            None => r matches Ok(paths) && paths.codex_self_exe == p
                && paths.deepseek_linux_sandbox_exe is None,
        },
    }
}

impl ExecServerRuntimePaths {
    /// Builds the paths from the absolute forms of the executable and of the
    /// sandbox helper.
    pub fn new(
        codex_self_exe: Result<String, String>,
        deepseek_linux_sandbox_exe: Option<Result<String, String>>,
    ) -> (r: Result<Self, RuntimePathError>)
        ensures
            runtime_paths_spec(codex_self_exe, deepseek_linux_sandbox_exe, r),
    {
        let exe = match codex_self_exe {
            Ok(p) => p,
            Err(m) => return Err(RuntimePathError { kind: IoErrorKind::InvalidInput, message: m }),
        };
        let sandbox = match deepseek_linux_sandbox_exe {
            Some(Ok(s)) => Some(s),
            Some(Err(m)) => return Err(
                RuntimePathError { kind: IoErrorKind::InvalidInput, message: m },
            ),
            None => None,
        };
        Ok(ExecServerRuntimePaths { codex_self_exe: exe, deepseek_linux_sandbox_exe: sandbox })
    }

    /// As `new`, where the executable must have been configured.
    pub fn from_optional_paths(
        codex_self_exe: Option<Result<String, String>>,
        deepseek_linux_sandbox_exe: Option<Result<String, String>>,
    ) -> (r: Result<Self, RuntimePathError>)
        ensures
            match codex_self_exe {
                None => r matches Err(e) && e.kind == IoErrorKind::InvalidInput && e.message@
                    == EXECUTABLE_NOT_CONFIGURED@,
                Some(exe) => runtime_paths_spec(exe, deepseek_linux_sandbox_exe, r),
            },
    {
        match codex_self_exe {
            None => Err(
                RuntimePathError {
                    kind: IoErrorKind::InvalidInput,
                    message: owned(EXECUTABLE_NOT_CONFIGURED),
                },
            ),
            Some(exe) => Self::new(exe, deepseek_linux_sandbox_exe),
        }
    }
}

} // verus!
