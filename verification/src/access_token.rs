//! Classification of DeepSeek access tokens.

use vstd::prelude::*;
use crate::text::{has_prefix, starts_with};

verus! {

/// Prefix that marks a personal access token.
pub const PERSONAL_ACCESS_TOKEN_PREFIX: &'static str = "at-";

/// An access token together with the kind it was recognised as.
pub enum DeepSeekAccessToken<'a> {
    PersonalAccessToken(&'a str),
    AgentIdentityJwt(&'a str),
}

/// Tokens that start with `at-` are personal access tokens; every other
/// token is an agent identity JWT. The token is carried unchanged.
pub fn classify_codex_access_token(access_token: &str) -> (r: DeepSeekAccessToken<'_>)
    ensures
        match r {
            DeepSeekAccessToken::PersonalAccessToken(t) => t == access_token
                && has_prefix(access_token@, PERSONAL_ACCESS_TOKEN_PREFIX@),
            DeepSeekAccessToken::AgentIdentityJwt(t) => t == access_token
                && !has_prefix(access_token@, PERSONAL_ACCESS_TOKEN_PREFIX@),
        },
{
    if starts_with(access_token, PERSONAL_ACCESS_TOKEN_PREFIX) {
        DeepSeekAccessToken::PersonalAccessToken(access_token)
    } else {
        DeepSeekAccessToken::AgentIdentityJwt(access_token)
    }
}

} // verus!
