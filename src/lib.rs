//! Session manager for the OAuth authorization-code flow with PKCE: secrets,
//! the authorization URL, routing of the loopback redirect, the single-slot
//! session store, token responses and expiry checks.

mod codec;
pub mod exchange;
pub mod flow;
pub mod group;
pub mod jwt;
pub mod listener;
pub mod opencode;
pub mod query;
pub mod secrets;
pub mod session;
pub mod text;

pub use exchange::{
    code_exchange_request, complete_code_exchange, complete_refresh, needs_refresh,
    parse_token_response, plan_refresh, plan_refresh_at, redirect_uri, refresh_request,
    require_refresh_token, token_exchange_result, CodexTokens, OAuthError, TokenRequest,
};
pub use flow::{authorize_url, prepare_oauth_url, prepare_session};
pub use group::DisplayGroup;
pub use jwt::{
    decode_jwt_payload_text, decode_token_exp_ms, extract_chatgpt_account_id, is_token_expired,
    is_token_expired_at,
};
pub use opencode::{build_openai_payload, CodexAccount, OpenAiAuthEntry};
pub use listener::{
    handle_callback_request, listener_should_stop, route_callback, CallbackRoute, ListenerReply,
    ReplyPage,
};
pub use secrets::{generate_base64url_token, generate_code_challenge};
pub use session::{cancel_oauth_flow, get_callback_port, SessionSnapshot, SessionStore};
