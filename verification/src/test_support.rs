//! Helpers for integration tests: test modes, an instructions provider
//! that supplies nothing, and request metadata for the responses API.

use vstd::prelude::*;
use vstd::string::*;
use crate::text::owned;

verus! {

/// Switches that tests turn on. A process keeps one value of this type,
/// shared by the thread manager (which reads `thread_manager_test_mode`) and
/// by process-id allocation (which reads `deterministic_process_ids`); the
/// setters below change that value.
pub struct TestModes {
    pub thread_manager_test_mode: bool,
    pub deterministic_process_ids: bool,
}

impl TestModes {
    /// Both switches off.
    pub fn new() -> (r: Self)
        ensures
            !r.thread_manager_test_mode,
            !r.deterministic_process_ids,
    {
        TestModes { thread_manager_test_mode: false, deterministic_process_ids: false }
    }
}

/// Sets, in `modes`, whether the thread manager runs in test mode; the
/// other switch is left as it was.
pub fn set_thread_manager_test_mode(modes: &mut TestModes, enabled: bool)
    ensures
        final(modes).thread_manager_test_mode == enabled,
        final(modes).deterministic_process_ids == old(modes).deterministic_process_ids,
{
    modes.thread_manager_test_mode = enabled;
}

/// Sets, in `modes`, whether process ids are handed out deterministically;
/// the other switch is left as it was.
pub fn set_deterministic_process_ids(modes: &mut TestModes, enabled: bool)
    ensures
        final(modes).deterministic_process_ids == enabled,
        final(modes).thread_manager_test_mode == old(modes).thread_manager_test_mode,
{
    modes.deterministic_process_ids = enabled;
}

/// User instructions loaded for a session: their text, if any.
pub struct LoadedUserInstructions {
    pub text: Option<String>,
}

/// Test-only provider that supplies no user instructions.
pub struct EmptyUserInstructionsProvider;

impl EmptyUserInstructionsProvider {
    /// Loads the user instructions: there are none.
    pub fn load_user_instructions(&self) -> (r: LoadedUserInstructions)
        ensures
            r.text is None,
    {
        LoadedUserInstructions { text: None }
    }
}

/// The kinds of request a test can describe.
#[derive(Clone, Copy)]
pub enum TestDeepSeekResponsesRequestKind {
    Turn,
    Prewarm,
    WebsocketConnection,
}

/// The kinds of request that carry turn metadata.
#[derive(Clone, Copy, PartialEq, Eq, Structural)]
pub enum DeepSeekResponsesRequestKind {
    Turn,
    Prewarm,
}

/// Metadata sent with a responses API request.
pub struct DeepSeekResponsesMetadata {
    pub installation_id: String,
    pub session_id: String,
    pub thread_id: String,
    pub window_id: String,
    pub turn_id: Option<String>,
    pub request_kind: Option<DeepSeekResponsesRequestKind>,
    pub parent_thread_id: Option<String>,
    pub subagent_header: Option<String>,
    pub subagent_kind: Option<String>,
}

/// The request kind of a test kind: websocket connections have none.
pub open spec fn request_kind_of(kind: TestDeepSeekResponsesRequestKind) -> Option<DeepSeekResponsesRequestKind> {
    match kind {
        TestDeepSeekResponsesRequestKind::Turn => Some(DeepSeekResponsesRequestKind::Turn),
        TestDeepSeekResponsesRequestKind::Prewarm => Some(DeepSeekResponsesRequestKind::Prewarm),
        TestDeepSeekResponsesRequestKind::WebsocketConnection => None,
    }
}

/// An optional string slice by its characters.
pub open spec fn opt_str_view(s: Option<&str>) -> Option<Seq<char>> {
    match s {
        Some(v) => Some(v@),
        None => None,
    }
}

/// An optional string by its characters.
pub open spec fn opt_string_view(s: Option<String>) -> Option<Seq<char>> {
    match s {
        Some(v) => Some(v@),
        None => None,
    }
}

/// Builds the metadata of a request. `subagent_header` and `subagent_kind`
/// are what the session source gives for them. The turn id and the subagent
/// kind are only sent with requests that have a request kind.
pub fn responses_metadata(
    installation_id: &str,
    session_id: &str,
    thread_id: &str,
    turn_id: Option<&str>,
    window_id: String,
    subagent_header: Option<String>,
    subagent_kind: Option<String>,
    parent_thread_id: Option<String>,
    request_kind: TestDeepSeekResponsesRequestKind,
) -> (m: DeepSeekResponsesMetadata)
    ensures
        m.installation_id@ == installation_id@,
        m.session_id@ == session_id@,
        m.thread_id@ == thread_id@,
        m.window_id == window_id,
        m.request_kind == request_kind_of(request_kind),
        opt_string_view(m.turn_id) == if request_kind_of(request_kind) is Some {
            opt_str_view(turn_id)
        } else {
            None
        },
        m.parent_thread_id == parent_thread_id,
        m.subagent_header == subagent_header,
        m.subagent_kind == if request_kind_of(request_kind) is Some {
            subagent_kind
        } else {
            None
        },
{
    let kind = match request_kind {
        TestDeepSeekResponsesRequestKind::Turn => Some(DeepSeekResponsesRequestKind::Turn),
        TestDeepSeekResponsesRequestKind::Prewarm => Some(DeepSeekResponsesRequestKind::Prewarm),
        TestDeepSeekResponsesRequestKind::WebsocketConnection => None,
    };
    let has_kind = kind.is_some();
    let turn_id = if has_kind {
        match turn_id {
            Some(t) => Some(owned(t)),
            None => None,
        }
    } else {
        None
    };
    let subagent_kind = if has_kind {
        subagent_kind
    } else {
        None
    };
    DeepSeekResponsesMetadata {
        installation_id: owned(installation_id),
        session_id: owned(session_id),
        thread_id: owned(thread_id),
        window_id,
        turn_id,
        request_kind: kind,
        parent_thread_id,
        subagent_header,
        subagent_kind,
    }
}

} // verus!
