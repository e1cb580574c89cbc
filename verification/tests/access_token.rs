use deepseek_cli::access_token::classify_codex_access_token;
use deepseek_cli::access_token::DeepSeekAccessToken;

#[test]
fn classifies_personal_access_tokens_by_prefix() {
    assert!(matches!(
        classify_codex_access_token("at-example"),
        DeepSeekAccessToken::PersonalAccessToken("at-example")
    ));
    assert!(matches!(
        classify_codex_access_token("header.payload.signature"),
        DeepSeekAccessToken::AgentIdentityJwt("header.payload.signature")
    ));
}

#[test]
fn bare_prefix_is_personal_and_near_misses_are_not() {
    assert!(matches!(
        classify_codex_access_token("at-"),
        DeepSeekAccessToken::PersonalAccessToken("at-")
    ));
    assert!(matches!(
        classify_codex_access_token("at"),
        DeepSeekAccessToken::AgentIdentityJwt("at")
    ));
    assert!(matches!(
        classify_codex_access_token("xat-1"),
        DeepSeekAccessToken::AgentIdentityJwt("xat-1")
    ));
    assert!(matches!(
        classify_codex_access_token(""),
        DeepSeekAccessToken::AgentIdentityJwt("")
    ));
}
