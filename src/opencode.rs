//! The entry that OpenCode's auth file keeps for an account's tokens.

use crate::exchange::{opt_view, CodexTokens};
use crate::jwt::{account_id_claim, decode_token_exp_ms, exp_millis, extract_chatgpt_account_id};
use vstd::prelude::*;

verus! {

/// A Codex account: its tokens and, where known, its account id.
#[derive(Debug, Clone)]
pub struct CodexAccount {
    pub account_id: Option<String>,
    pub tokens: CodexTokens,
}

/// The `openai` entry of OpenCode's auth file, of type `oauth`.
#[derive(Debug, Clone)]
pub struct OpenAiAuthEntry {
    /// The access token.
    pub access: String,
    /// The refresh token, where there is one.
    pub refresh: Option<String>,
    /// The access token's expiry in Unix milliseconds, where it can be read.
    pub expires: Option<i64>,
    /// The account's id, else the one the access token carries.
    pub account_id: Option<String>,
}

/// The entry for an account: its tokens, the access token's expiry, and the
/// account's id or, failing that, the one in its access token.
pub fn build_openai_payload(account: &CodexAccount) -> (r: OpenAiAuthEntry)
    ensures
        r.access@ == account.tokens.access_token@,
        opt_view(r.refresh) == opt_view(account.tokens.refresh_token),
        r.expires == exp_millis(account.tokens.access_token@),
        opt_view(r.account_id) == (match account.account_id {
            Some(id) => Some(id@),
            None => account_id_claim(account.tokens.access_token@),
        }),
{
    let access = account.tokens.access_token.clone();
    let refresh = match &account.tokens.refresh_token {
        Some(t) => Some(t.clone()),
        None => None,
    };
    let expires = decode_token_exp_ms(access.as_str());
    let account_id = match &account.account_id {
        Some(id) => Some(id.clone()),
        None => extract_chatgpt_account_id(access.as_str()),
    };
    OpenAiAuthEntry { access, refresh, expires, account_id }
}

} // verus!
