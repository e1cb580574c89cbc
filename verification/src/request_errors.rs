//! JSON-RPC errors of request handling, and the workspace roots of a turn.

use vstd::prelude::*;
use vstd::string::*;
use crate::text::{str_eq, owned};
use crate::path_components::{path_components, same_path};

verus! {

/// JSON-RPC code of an invalid request.
pub const INVALID_REQUEST_ERROR_CODE: i64 = -32600;
/// JSON-RPC code of an internal error.
pub const INTERNAL_ERROR_CODE: i64 = -32603;

/// The error object of a JSON-RPC response.
pub struct JSONRPCErrorError {
    pub code: i64,
    pub message: String,
}

/// An invalid-request error with `message`.
pub fn invalid_request(message: String) -> (e: JSONRPCErrorError)
    ensures
        e.code == INVALID_REQUEST_ERROR_CODE,
        e.message == message,
{
    JSONRPCErrorError { code: INVALID_REQUEST_ERROR_CODE, message }
}

/// An internal error with `message`.
pub fn internal_error(message: String) -> (e: JSONRPCErrorError)
    ensures
        e.code == INTERNAL_ERROR_CODE,
        e.message == message,
{
    JSONRPCErrorError { code: INTERNAL_ERROR_CODE, message }
}

/// Why validating the environments of a turn failed: the request itself was
/// invalid, or another error occurred, given by its display text.
pub enum EnvironmentSelectionFailure {
    InvalidRequest(String),
    Other(String),
}

/// The JSON-RPC error for a failed environment validation: invalid requests
/// keep their message; other errors become internal errors that say what
/// failed.
pub fn environment_selection_error(err: EnvironmentSelectionFailure) -> (e: JSONRPCErrorError)
    ensures
        match err {
            EnvironmentSelectionFailure::InvalidRequest(message) => e.code
                == INVALID_REQUEST_ERROR_CODE && e.message == message,
            EnvironmentSelectionFailure::Other(shown) => e.code == INTERNAL_ERROR_CODE
                && e.message@ == "failed to validate environment selections: "@ + shown@,
        },
{
    match err {
        EnvironmentSelectionFailure::InvalidRequest(message) => invalid_request(message),
        EnvironmentSelectionFailure::Other(shown) => {
            let mut message = owned("failed to validate environment selections: ");
            message.append(shown.as_str());
            internal_error(message)
        },
    }
}


/// One environment requested for a turn: its id, its working directory as
/// the client wrote it, and that directory as a path URI, when it uses
/// absolute POSIX or Windows path syntax.
pub struct TurnEnvironmentParams {
    pub environment_id: String,
    pub cwd: String,
    pub inferred_cwd_uri: Option<String>,
}

/// An environment selected for a turn, with its working directory URI.
pub struct TurnEnvironmentSelection {
    pub environment_id: String,
    pub cwd: String,
}

/// The index of the first environment whose directory is not a path.
pub open spec fn first_invalid_cwd(envs: Seq<TurnEnvironmentParams>) -> Option<int>
    decreases envs.len(),
{
    if envs.len() == 0 {
        None
    } else if envs[0].inferred_cwd_uri is None {
        Some(0)
    } else {
        match first_invalid_cwd(envs.drop_first()) {
            Some(i) => Some(i + 1),
            None => None,
        }
    }
}

/// The message for an environment whose directory is not a path.
pub open spec fn invalid_cwd_message(env: TurnEnvironmentParams) -> Seq<char> {
    "invalid cwd for environment `"@ + env.environment_id@ + "`: path `"@ + env.cwd@
        + "` does not use absolute POSIX or Windows path syntax"@
}

/// The selections made of the environments, one for one.
pub open spec fn selections_of(envs: Seq<TurnEnvironmentParams>, sel: Seq<TurnEnvironmentSelection>) -> bool {
    &&& sel.len() == envs.len()
    &&& forall|k: int| 0 <= k < envs.len() ==> #[trigger] selects(envs[k], sel[k])
}

/// The selection of an environment: same id, and its directory URI.
pub open spec fn selects(env: TurnEnvironmentParams, sel: TurnEnvironmentSelection) -> bool {
    sel.environment_id == env.environment_id && env.inferred_cwd_uri == Some(sel.cwd)
}

proof fn lemma_first_invalid_prefix(envs: Seq<TurnEnvironmentParams>, i: int)
    requires
        0 <= i <= envs.len(),
        forall|k: int| 0 <= k < i ==> envs[k].inferred_cwd_uri is Some,
    ensures
        first_invalid_cwd(envs) == match first_invalid_cwd(envs.skip(i)) {
            Some(j) => Some(j + i),
            None => None::<int>,
        },
    decreases i,
{
    if i > 0 {
        assert(envs.drop_first().skip(i - 1) =~= envs.skip(i));
        lemma_first_invalid_prefix(envs.drop_first(), i - 1);
    } else {
        assert(envs.skip(0) =~= envs);
    }
}

/// Turns the requested environments into selections: no environments gives
/// none; the first environment whose directory is not a path is an invalid
/// request; otherwise each environment is selected with its directory URI.
pub fn resolve_turn_environment_selections(environments: Option<Vec<TurnEnvironmentParams>>) -> (r: Result<Option<Vec<TurnEnvironmentSelection>>, JSONRPCErrorError>)
    ensures
        match environments {
            None => r matches Ok(None),
            Some(envs) => match first_invalid_cwd(envs@) {
                Some(i) => r matches Err(e) && e.code == INVALID_REQUEST_ERROR_CODE && e.message@
                    == invalid_cwd_message(envs@[i]),
                None => r matches Ok(Some(sel)) && selections_of(envs@, sel@),
            },
        },
{
    let env_list = match environments {
        None => return Ok(None),
        Some(e) => e,
    };
    let ghost envs = env_list@;
    let mut selections: Vec<TurnEnvironmentSelection> = Vec::new();
    let mut i: usize = 0;
    while i < env_list.len()
        invariant
            environments == Some(env_list),
            envs == env_list@,
            i <= envs.len(),
            forall|k: int| 0 <= k < i ==> envs[k].inferred_cwd_uri is Some,
            selections_of(envs.take(i as int), selections@),
        decreases envs.len() - i,
    {
        let environment = &env_list[i];
        match &environment.inferred_cwd_uri {
            Some(cwd) => {
                let ghost prev = selections@;
                selections.push(
                    TurnEnvironmentSelection {
                        environment_id: environment.environment_id.clone(),
                        cwd: cwd.clone(),
                    },
                );
                let ghost t = envs.take(i + 1);
                assert(t.len() == i + 1);
                assert forall|k: int| 0 <= k < t.len() implies #[trigger] selects(t[k], selections@[k]) by {
                    if k < i {
                        assert(envs.take(i as int)[k] == t[k]);
                        assert(prev[k] == selections@[k]);
                        assert(selects(envs.take(i as int)[k], prev[k]));
                    } else {
                        assert(t[k] == envs[i as int]);
                    }
                }
                assert(selections_of(t, selections@));
            },
            None => {
                proof {
                    lemma_first_invalid_prefix(envs, i as int);
                    assert(envs.skip(i as int)[0] == envs[i as int]);
                }
                let mut message = owned("invalid cwd for environment `");
                message.append(environment.environment_id.as_str());
                message.append("`: path `");
                message.append(environment.cwd.as_str());
                message.append("` does not use absolute POSIX or Windows path syntax");
                return Err(invalid_request(message));
            },
        }
        i = i + 1;
    }
    proof {
        lemma_first_invalid_prefix(envs, envs.len() as int);
        assert(envs.skip(envs.len() as int) =~= Seq::<TurnEnvironmentParams>::empty());
        assert(envs.take(envs.len() as int) =~= envs);
    }
    Ok(Some(selections))
}

/// Last step: the thread manager's validation of the selections decides;
/// a failure becomes the JSON-RPC error of `environment_selection_error`.
pub fn finish_turn_environment_selections(
    selections: Vec<TurnEnvironmentSelection>,
    validation: Result<(), EnvironmentSelectionFailure>,
) -> (r: Result<Option<Vec<TurnEnvironmentSelection>>, JSONRPCErrorError>)
    ensures
        match validation {
            Ok(()) => r == Ok::<Option<Vec<TurnEnvironmentSelection>>, JSONRPCErrorError>(
                Some(selections),
            ),
            Err(EnvironmentSelectionFailure::InvalidRequest(message)) => r matches Err(e) && e.code
                == INVALID_REQUEST_ERROR_CODE && e.message == message,
            Err(EnvironmentSelectionFailure::Other(shown)) => r matches Err(e) && e.code
                == INTERNAL_ERROR_CODE && e.message@
                == "failed to validate environment selections: "@ + shown@,
        },
{
    match validation {
        Ok(()) => Ok(Some(selections)),
        Err(err) => Err(environment_selection_error(err)),
    }
}

/// The paths of a list, by their characters.
pub open spec fn path_views(paths: Seq<String>) -> Seq<Seq<char>> {
    paths.map_values(|p: String| p@)
}

/// The path components of each path of a list.
pub open spec fn root_keys(paths: Seq<Seq<char>>) -> Seq<Seq<Seq<char>>> {
    paths.map_values(|p: Seq<char>| path_components(p))
}

/// The list with every path dropped that has the components of an earlier
/// one (paths are equal when their components are).
pub open spec fn first_occurrences(paths: Seq<Seq<char>>) -> Seq<Seq<char>>
    decreases paths.len(),
{
    if paths.len() == 0 {
        Seq::empty()
    } else {
        let kept = first_occurrences(paths.drop_last());
        if root_keys(kept).contains(path_components(paths.last())) {
            kept
        } else {
            kept.push(paths.last())
        }
    }
}

fn contains_root(paths: &Vec<String>, path: &String) -> (r: bool)
    ensures
        r == root_keys(path_views(paths@)).contains(path_components(path@)),
{
    let mut i: usize = 0;
    while i < paths.len()
        invariant
            i <= paths@.len(),
            forall|k: int| 0 <= k < i ==> path_components(paths@[k]@) != path_components(path@),
        decreases paths@.len() - i,
    {
        if same_path(paths[i].as_str(), path.as_str()) {
            assert(root_keys(path_views(paths@))[i as int] == path_components(path@));
            return true;
        }
        i = i + 1;
    }
    assert forall|k: int| 0 <= k < root_keys(path_views(paths@)).len() implies root_keys(
        path_views(paths@),
    )[k] != path_components(path@) by {
        assert(root_keys(path_views(paths@))[k] == path_components(paths@[k]@));
    }
    false
}

/// The workspace roots in their order, each root kept only where it first
/// occurs; two roots are the same when their path components are.
pub fn resolve_runtime_workspace_roots(workspace_roots: Vec<String>) -> (resolved: Vec<String>)
    ensures
        path_views(resolved@) == first_occurrences(path_views(workspace_roots@)),
{
    let mut resolved: Vec<String> = Vec::new();
    let mut i: usize = 0;
    let ghost input = workspace_roots@;
    let mut roots = workspace_roots;
    while i < roots.len()
        invariant
            roots@ == input,
            i <= input.len(),
            path_views(resolved@) == first_occurrences(path_views(input.take(i as int))),
        decreases input.len() - i,
    {
        let root = roots[i].clone();
        proof {
            assert(path_views(input.take(i + 1)).drop_last() =~= path_views(input.take(i as int)));
            assert(path_views(input.take(i + 1)).last() == input[i as int]@);
        }
        if !contains_root(&resolved, &root) {
            let ghost before = resolved@;
            resolved.push(root);
            assert(path_views(resolved@) =~= path_views(before).push(root@));
        }
        i = i + 1;
    }
    assert(input.take(input.len() as int) =~= input);
    resolved
}

/// No two paths of the list have the same components.
pub open spec fn distinct_roots(paths: Seq<Seq<char>>) -> bool {
    forall|i: int, j: int| 0 <= i < j < paths.len() ==> path_components(paths[i]) != path_components(paths[j])
}

/// Resolving workspace roots keeps only roots it was given, keeps a root
/// for every root given (one with the same components), and never keeps two
/// roots with the same components.
pub proof fn lemma_first_occurrences_dedups(paths: Seq<Seq<char>>)
    ensures
        distinct_roots(first_occurrences(paths)),
        forall|p: Seq<char>| #[trigger] first_occurrences(paths).contains(p) ==> paths.contains(p),
        forall|p: Seq<char>|
            #[trigger] paths.contains(p) ==> root_keys(first_occurrences(paths)).contains(path_components(p)),
    decreases paths.len(),
{
    if paths.len() > 0 {
        let init = paths.drop_last();
        let last = paths.last();
        lemma_first_occurrences_dedups(init);
        let kept = first_occurrences(init);
        let out = first_occurrences(paths);
        assert(paths =~= init.push(last));
        if !root_keys(kept).contains(path_components(last)) {
            assert(out == kept.push(last));
            assert forall|i: int, j: int| 0 <= i < j < out.len() implies path_components(out[i])
                != path_components(out[j]) by {
                if j == out.len() - 1 {
                    assert(root_keys(kept)[i] == path_components(out[i]));
                }
            }
            assert(root_keys(out) =~= root_keys(kept).push(path_components(last)));
        } else {
            assert(out == kept);
        }
        assert forall|p: Seq<char>| #[trigger] out.contains(p) implies paths.contains(p) by {
            let k = choose|k: int| 0 <= k < out.len() && out[k] == p;
            if k < kept.len() {
                assert(kept[k] == p);
                assert(kept.contains(p));
                let m = choose|m: int| 0 <= m < init.len() && init[m] == p;
                assert(paths[m] == p);
            } else {
                assert(p == last);
                assert(paths[paths.len() - 1] == p);
            }
        }
        assert forall|p: Seq<char>| #[trigger] paths.contains(p) implies root_keys(out).contains(
            path_components(p),
        ) by {
            let k = choose|k: int| 0 <= k < paths.len() && paths[k] == p;
            if k < paths.len() - 1 {
                assert(init[k] == p);
                assert(init.contains(p));
                let m = choose|m: int| 0 <= m < root_keys(kept).len() && root_keys(kept)[m] == path_components(p);
                assert(root_keys(out)[m] == path_components(p));
            } else {
                if root_keys(kept).contains(path_components(last)) {
                } else {
                    assert(root_keys(out)[kept.len() as int] == path_components(p));
                }
            }
        }
    }
}

/// Resolving roots that are already resolved changes nothing.
pub proof fn lemma_first_occurrences_idempotent(paths: Seq<Seq<char>>)
    ensures
        first_occurrences(first_occurrences(paths)) == first_occurrences(paths),
{
    lemma_first_occurrences_dedups(paths);
    lemma_first_occurrences_of_distinct(first_occurrences(paths));
}

/// A list without two paths of the same components is its own first
/// occurrences.
proof fn lemma_first_occurrences_of_distinct(paths: Seq<Seq<char>>)
    requires
        distinct_roots(paths),
    ensures
        first_occurrences(paths) == paths,
    decreases paths.len(),
{
    if paths.len() > 0 {
        let init = paths.drop_last();
        assert(distinct_roots(init));
        lemma_first_occurrences_of_distinct(init);
        if root_keys(init).contains(path_components(paths.last())) {
            let k = choose|k: int| 0 <= k < root_keys(init).len() && root_keys(init)[k] == path_components(paths.last());
            assert(path_components(paths[k]) == path_components(paths[paths.len() - 1]));
        }
        assert(init.push(paths.last()) =~= paths);
    }
}

} // verus!
