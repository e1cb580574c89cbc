//! The DeepSeek API credential as the network proxy handles it.

use vstd::prelude::*;
use vstd::string::*;
use crate::text::owned;
use std::collections::HashMap;
use rama_http::HeaderValue;

verus! {

#[verifier::external_type_specification]
#[verifier::external_body]
pub struct ExHeaderValue(HeaderValue);

/// Host the DeepSeek API is served from.
pub const DEEPSEEK_API_HOST: &'static str = "api.deepseek.com";
/// Environment variable that holds the DeepSeek API key.
pub const DEEPSEEK_API_KEY_ENV_VAR: &'static str = "DEEPSEEK_API_KEY";

/// The environment variables that hold the DeepSeek API key.
pub fn deepseek_api_key_env_vars() -> (r: Vec<String>)
    ensures
        r@.len() == 1,
        r@[0]@ == DEEPSEEK_API_KEY_ENV_VAR@,
{
    let mut r = Vec::new();
    r.push(owned(DEEPSEEK_API_KEY_ENV_VAR));
    r
}

/// The hosts a credential may be sent to.
pub enum CredentialHostBinding {
    HostPattern { exact_hosts: Vec<String>, suffixes: Vec<String> },
}

/// The DeepSeek credential is bound to the DeepSeek API host (listed twice)
/// and to no host suffix, whatever the environment.
pub fn deepseek_binding(_env: &HashMap<String, String>) -> (r: Option<CredentialHostBinding>)
    ensures
        r matches Some(CredentialHostBinding::HostPattern { exact_hosts, suffixes }) && exact_hosts@.len()
            == 2 && exact_hosts@[0]@ == DEEPSEEK_API_HOST@ && exact_hosts@[1]@ == DEEPSEEK_API_HOST@
            && suffixes@.len() == 0,
{
    let mut exact_hosts = Vec::new();
    exact_hosts.push(owned(DEEPSEEK_API_HOST));
    exact_hosts.push(owned(DEEPSEEK_API_HOST));
    Some(CredentialHostBinding::HostPattern { exact_hosts, suffixes: Vec::new() })
}

/// Bytes that a header value may hold: horizontal tab, and every byte from
/// 32 up except 127.
pub open spec fn valid_header_bytes(bytes: Seq<u8>) -> bool {
    forall|i: int| 0 <= i < bytes.len() ==> (bytes[i] >= 32 && bytes[i] != 127) || bytes[i] == 9
}

/// The header value that `HeaderValue::from_str` makes of the given bytes
/// (it holds exactly those bytes).
pub uninterp spec fn header_value_for(bytes: Seq<u8>) -> HeaderValue;

/// Calls `HeaderValue::from_str`. Claimed, from its source: it succeeds
/// exactly when every byte of `s` is a tab or at least 32 and not 127, and
/// the value it makes is the named value of the bytes of `s`, which depends
/// on them alone.
#[verifier::external_body]
fn header_value_from_str(s: &str) -> (r: Option<HeaderValue>)
    ensures
        r is Some <==> valid_header_bytes(s.spec_bytes()),
        r matches Some(v) ==> v == header_value_for(s.spec_bytes()),
{
    HeaderValue::from_str(s).ok()
}

/// An `Authorization` header: its text, and the header value that
/// `HeaderValue::from_str` made of the bytes of that text.
pub struct AuthorizationHeader {
    pub text: String,
    pub value: HeaderValue,
}

/// The `Authorization` header for API key `value`: `Bearer ` and the key,
/// when `HeaderValue` accepts that text as a header value.
pub fn request_header_value(value: &str) -> (r: Option<AuthorizationHeader>)
    ensures
        r is Some <==> valid_header_bytes(vstd::utf8::encode_utf8("Bearer "@ + value@)),
        r matches Some(header) ==> header.text@ == "Bearer "@ + value@ && header.value
            == header_value_for(vstd::utf8::encode_utf8("Bearer "@ + value@)),
{
    let mut header = owned("Bearer ");
    header.append(value);
    match header_value_from_str(header.as_str()) {
        Some(parsed) => Some(AuthorizationHeader { text: header, value: parsed }),
        None => None,
    }
}

} // verus!
