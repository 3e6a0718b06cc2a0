//! Starting a flow: the authorization URL and the session behind it.

use crate::codec::{string_of, url_encode, url_encoded};
use crate::exchange::{push_text, redirect_uri, redirect_uri_spec, CLIENT_ID};
use crate::secrets::{challenge_of, generate_base64url_token, generate_code_challenge, is_secret_token};
use crate::session::{begun, SessionStore};
use vstd::prelude::*;

verus! {

/// The provider's authorization endpoint.
pub const AUTH_ENDPOINT: &'static str = "https://auth.openai.com/oauth/authorize";

/// The scopes requested, space-separated.
pub const SCOPES: &'static str = "openid profile email offline_access";

/// The originator the provider is told of.
pub const ORIGINATOR: &'static str = "codex_vscode";

/// The authorization URL for a redirect URI, a code challenge and a state.
pub open spec fn authorize_url_spec(redirect: Seq<char>, challenge: Seq<char>, state: Seq<char>) -> Seq<char> {
    AUTH_ENDPOINT@ + "?response_type=code&client_id="@ + CLIENT_ID@ + "&redirect_uri="@ + redirect
        + "&scope="@ + url_encoded(SCOPES@) + "&code_challenge="@ + challenge
        + "&code_challenge_method=S256&id_token_add_organizations=true&codex_cli_simplified_flow=true&state="@
        + state + "&originator="@ + url_encoded(ORIGINATOR@)
}

/// The authorization URL for a redirect URI, a code challenge and a state.
pub fn authorize_url(redirect: &str, code_challenge: &str, state: &str) -> (r: String)
    ensures
        r@ == authorize_url_spec(redirect@, code_challenge@, state@),
{
    let scope = url_encode(SCOPES);
    let originator = url_encode(ORIGINATOR);
    let mut out: Vec<char> = Vec::new();
    push_text(&mut out, AUTH_ENDPOINT);
    push_text(&mut out, "?response_type=code&client_id=");
    push_text(&mut out, CLIENT_ID);
    push_text(&mut out, "&redirect_uri=");
    push_text(&mut out, redirect);
    push_text(&mut out, "&scope=");
    push_text(&mut out, scope.as_str());
    push_text(&mut out, "&code_challenge=");
    push_text(&mut out, code_challenge);
    push_text(
        &mut out,
        "&code_challenge_method=S256&id_token_add_organizations=true&codex_cli_simplified_flow=true&state=",
    );
    push_text(&mut out, state);
    push_text(&mut out, "&originator=");
    push_text(&mut out, originator.as_str());
    string_of(&out)
}

/// Starts the flow for a verifier and a state on `port`: the store then
/// holds that session, replacing any earlier one, and the result is the URL
/// to open in a browser.
pub fn prepare_session<T>(
    store: &mut SessionStore<T>,
    code_verifier: String,
    state: String,
    port: u16,
    completion: T,
) -> (r: String)
    ensures
        r@ == authorize_url_spec(redirect_uri_spec(port), challenge_of(code_verifier@), state@),
        final(store)@ == begun(code_verifier@, state@, port, completion),
{
    let challenge = generate_code_challenge(code_verifier.as_str());
    let redirect = redirect_uri(port);
    let url = authorize_url(redirect.as_str(), challenge.as_str(), state.as_str());
    store.begin(code_verifier, state, port, completion);
    url
}

/// Starts a flow with a fresh random verifier and state, for a listener on
/// `port` whose redirect is delivered through `completion`.
pub fn prepare_oauth_url<T>(store: &mut SessionStore<T>, port: u16, completion: T) -> (r: String)
    ensures
        exists|verifier: Seq<char>, state: Seq<char>|
            is_secret_token(verifier) && is_secret_token(state) && final(store)@ == begun(
                verifier,
                state,
                port,
                completion,
            ) && r@ == authorize_url_spec(redirect_uri_spec(port), challenge_of(verifier), state),
{
    let code_verifier = generate_base64url_token();
    let state = generate_base64url_token();
    prepare_session(store, code_verifier, state, port, completion)
}

} // verus!
