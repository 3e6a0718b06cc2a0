//! The token endpoint: form bodies of the code and refresh exchanges, and
//! what a response turns into.

use crate::codec::{chars_of, json_string, json_string_member, string_of, unix_now};
use crate::jwt::{is_token_expired_at, token_expired_at};
use crate::session::SessionStore;
use vstd::prelude::*;

verus! {

/// The client identifier registered with the provider.
pub const CLIENT_ID: &'static str = "app_EMoamEEZ73f0CkXaXp7hrann";

/// The provider's token endpoint.
pub const TOKEN_ENDPOINT: &'static str = "https://auth.openai.com/oauth/token";

/// The tokens a successful exchange yields.
#[derive(Debug, Clone)]
pub struct CodexTokens {
    pub id_token: String,
    pub access_token: String,
    pub refresh_token: Option<String>,
}

/// The ways a flow fails.
#[derive(Debug, Clone)]
pub enum OAuthError {
    /// The callback port is already bound by another process.
    PortInUse { port: u16 },
    /// No redirect arrived before the listener gave up.
    ListenerTimeout,
    /// There is no flow in progress to complete.
    NoActiveSession,
    /// The token endpoint answered with a status outside 200..=299.
    ExchangeRejected { status: u16, body: String },
    /// The token endpoint's answer lacks `id_token` or `access_token`.
    MalformedTokenResponse,
    /// The provider issued no refresh token.
    MissingRefreshToken,
}

/// A form-encoded POST to the token endpoint.
#[derive(Debug, Clone)]
pub struct TokenRequest {
    pub url: String,
    pub form: Vec<(String, String)>,
}

/// The view of an optional string.
pub open spec fn opt_view(o: Option<String>) -> Option<Seq<char>> {
    match o {
        Some(s) => Some(s@),
        None => None,
    }
}

/// The view of a form: its name/value pairs.
pub open spec fn form_view(f: Seq<(String, String)>) -> Seq<(Seq<char>, Seq<char>)> {
    f.map_values(|p: (String, String)| (p.0@, p.1@))
}

/// Whether `t` holds exactly the tokens of a successful response `body`.
pub open spec fn tokens_of(t: CodexTokens, body: Seq<char>) -> bool {
    &&& json_string_member(body, "id_token"@) == Some(t.id_token@)
    &&& json_string_member(body, "access_token"@) == Some(t.access_token@)
    &&& opt_view(t.refresh_token) == json_string_member(body, "refresh_token"@)
}

/// Whether a response body holds both an `id_token` and an `access_token`.
pub open spec fn has_tokens(body: Seq<char>) -> bool {
    json_string_member(body, "id_token"@) is Some && json_string_member(body, "access_token"@) is Some
}

/// Whether an HTTP status is a success.
pub open spec fn is_success(status: u16) -> bool {
    200 <= status <= 299
}

/// What an exchange yields from the endpoint's status and body.
pub open spec fn exchange_spec(r: Result<CodexTokens, OAuthError>, status: u16, body: Seq<char>) -> bool {
    if !is_success(status) {
        r matches Err(OAuthError::ExchangeRejected { status: s, body: b }) && s == status && b@ == body
    } else if has_tokens(body) {
        r matches Ok(t) && tokens_of(t, body)
    } else {
        r matches Err(OAuthError::MalformedTokenResponse)
    }
}

/// Reads the tokens out of a successful response body. The refresh token is
/// `None` where the body holds none.
pub fn parse_token_response(body: &str) -> (r: Result<CodexTokens, OAuthError>)
    ensures
        match r {
            Ok(t) => tokens_of(t, body@),
            Err(e) => !has_tokens(body@) && e is MalformedTokenResponse,
        },
{
    let id_token = match json_string(body, "id_token") {
        Some(v) => v,
        None => return Err(OAuthError::MalformedTokenResponse),
    };
    let access_token = match json_string(body, "access_token") {
        Some(v) => v,
        None => return Err(OAuthError::MalformedTokenResponse),
    };
    let refresh_token = json_string(body, "refresh_token");
    Ok(CodexTokens { id_token, access_token, refresh_token })
}

/// What the token endpoint's answer yields: its body verbatim where the
/// status is not a success, else the tokens in the body.
pub fn token_exchange_result(status: u16, body: &str) -> (r: Result<CodexTokens, OAuthError>)
    ensures
        exchange_spec(r, status, body@),
{
    if status < 200 || status > 299 {
        return Err(OAuthError::ExchangeRejected { status, body: body.to_owned() });
    }
    parse_token_response(body)
}

/// The decimal digits of `n`.
pub open spec fn decimal(n: nat) -> Seq<char>
    decreases n,
{
    if n < 10 {
        seq![digit_char(n)]
    } else {
        decimal(n / 10).push(digit_char(n % 10))
    }
}

/// The character of a decimal digit.
pub open spec fn digit_char(d: nat) -> char {
    (('0' as u8) + d) as char
}

/// The decimal digits of `n`.
pub fn decimal_chars(n: u64) -> (r: Vec<char>)
    ensures
        r@ == decimal(n as nat),
    decreases n,
{
    if n < 10 {
        let c = (('0' as u8) + (n as u8)) as char;
        let mut v: Vec<char> = Vec::new();
        v.push(c);
        proof {
            assert(v@ =~= seq![digit_char(n as nat)]);
        }
        v
    } else {
        let mut v = decimal_chars(n / 10);
        let d = (n % 10) as u8;
        v.push((('0' as u8) + d) as char);
        v
    }
}

/// Appends the characters of `s` to `out`.
pub fn push_text(out: &mut Vec<char>, s: &str)
    ensures
        final(out)@ == old(out)@ + s@,
{
    let mut t = chars_of(s);
    out.append(&mut t);
}

/// The redirect URI that a listener on `port` serves.
pub open spec fn redirect_uri_spec(port: u16) -> Seq<char> {
    "http://localhost:"@ + decimal(port as nat) + "/auth/callback"@
}

/// The redirect URI that a listener on `port` serves.
pub fn redirect_uri(port: u16) -> (r: String)
    ensures
        r@ == redirect_uri_spec(port),
{
    let mut out: Vec<char> = Vec::new();
    push_text(&mut out, "http://localhost:");
    let mut digits = decimal_chars(port as u64);
    out.append(&mut digits);
    push_text(&mut out, "/auth/callback");
    string_of(&out)
}

/// A name/value pair of a form.
fn field(name: &str, value: &str) -> (r: (String, String))
    ensures
        r.0@ == name@,
        r.1@ == value@,
{
    (name.to_owned(), value.to_owned())
}

/// The form of the code exchange.
pub open spec fn code_form_spec(code: Seq<char>, verifier: Seq<char>, redirect: Seq<char>) -> Seq<(Seq<char>, Seq<char>)> {
    seq![
        ("grant_type"@, "authorization_code"@),
        ("code"@, code),
        ("redirect_uri"@, redirect),
        ("client_id"@, CLIENT_ID@),
        ("code_verifier"@, verifier),
    ]
}

/// The form of the refresh exchange.
pub open spec fn refresh_form_spec(refresh_token: Seq<char>) -> Seq<(Seq<char>, Seq<char>)> {
    seq![
        ("grant_type"@, "refresh_token"@),
        ("refresh_token"@, refresh_token),
        ("client_id"@, CLIENT_ID@),
    ]
}

/// The request that trades `code` for tokens in the flow that `store`
/// holds; `NoActiveSession` where it holds none.
pub fn code_exchange_request<T>(store: &SessionStore<T>, code: &str) -> (r: Result<TokenRequest, OAuthError>)
    ensures
        match r {
            Ok(req) => store@ matches Some(s) && req.url@ == TOKEN_ENDPOINT@ && form_view(req.form@)
                == code_form_spec(code@, s.code_verifier, redirect_uri_spec(s.port)),
            Err(e) => store@ is None && e is NoActiveSession,
        },
{
    let snapshot = match store.current() {
        Some(s) => s,
        None => return Err(OAuthError::NoActiveSession),
    };
    let redirect = redirect_uri(snapshot.port);
    let mut form: Vec<(String, String)> = Vec::new();
    form.push(field("grant_type", "authorization_code"));
    form.push(field("code", code));
    form.push(field("redirect_uri", redirect.as_str()));
    form.push(field("client_id", CLIENT_ID));
    form.push(field("code_verifier", snapshot.code_verifier.as_str()));
    proof {
        assert(form_view(form@) =~= code_form_spec(code@, snapshot.code_verifier@, redirect@));
    }
    Ok(TokenRequest { url: TOKEN_ENDPOINT.to_owned(), form })
}

/// The request that trades `refresh_token` for fresh tokens.
pub fn refresh_request(refresh_token: &str) -> (r: TokenRequest)
    ensures
        r.url@ == TOKEN_ENDPOINT@,
        form_view(r.form@) == refresh_form_spec(refresh_token@),
{
    let mut form: Vec<(String, String)> = Vec::new();
    form.push(field("grant_type", "refresh_token"));
    form.push(field("refresh_token", refresh_token));
    form.push(field("client_id", CLIENT_ID));
    proof {
        assert(form_view(form@) =~= refresh_form_spec(refresh_token@));
    }
    TokenRequest { url: TOKEN_ENDPOINT.to_owned(), form }
}

/// Ends a code exchange with the endpoint's answer. On success the flow is
/// over and the store is emptied; on failure it is left as it was, so that
/// the caller can start again.
pub fn complete_code_exchange<T>(
    store: &mut SessionStore<T>,
    status: u16,
    body: &str,
) -> (r: Result<CodexTokens, OAuthError>)
    ensures
        exchange_spec(r, status, body@),
        r is Ok ==> final(store)@ is None,
        r is Err ==> final(store)@ == old(store)@,
{
    let r = token_exchange_result(status, body);
    if r.is_ok() {
        store.clear();
    }
    r
}

/// What a refresh yields: as an exchange, but with the refresh token that
/// was used where the answer holds no new one.
pub open spec fn refresh_spec(
    r: Result<CodexTokens, OAuthError>,
    prior: Seq<char>,
    status: u16,
    body: Seq<char>,
) -> bool {
    match r {
        Ok(t) => {
            &&& is_success(status)
            &&& has_tokens(body)
            &&& json_string_member(body, "id_token"@) == Some(t.id_token@)
            &&& json_string_member(body, "access_token"@) == Some(t.access_token@)
            &&& opt_view(t.refresh_token) == Some(
                match json_string_member(body, "refresh_token"@) {
                    Some(n) => n,
                    None => prior,
                },
            )
        },
        Err(e) => exchange_spec(Err(e), status, body),
    }
}

/// Ends a refresh exchange with the endpoint's answer. Where the answer
/// holds no new refresh token, the one that was used is kept.
pub fn complete_refresh(prior_refresh_token: &str, status: u16, body: &str) -> (r: Result<
    CodexTokens,
    OAuthError,
>)
    ensures
        refresh_spec(r, prior_refresh_token@, status, body@),
{
    match token_exchange_result(status, body) {
        Ok(t) => {
            let refresh_token = match t.refresh_token {
                Some(n) => Some(n),
                None => Some(prior_refresh_token.to_owned()),
            };
            Ok(CodexTokens { id_token: t.id_token, access_token: t.access_token, refresh_token })
        },
        Err(e) => Err(e),
    }
}

/// Whether stored tokens must be refreshed before use at `now`.
pub fn needs_refresh(tokens: &CodexTokens, now: i64) -> (r: bool)
    ensures
        r == token_expired_at(tokens.access_token@, now as int),
{
    is_token_expired_at(tokens.access_token.as_str(), now)
}

/// The refresh token of a sign-in, which must have issued one.
pub fn require_refresh_token(tokens: &CodexTokens) -> (r: Result<String, OAuthError>)
    ensures
        match r {
            Ok(t) => tokens.refresh_token matches Some(rt) && t@ == rt@,
            Err(e) => tokens.refresh_token is None && e is MissingRefreshToken,
        },
{
    match &tokens.refresh_token {
        Some(t) => Ok(t.clone()),
        None => Err(OAuthError::MissingRefreshToken),
    }
}

/// What `plan_refresh_at` decides for stored tokens at `now`.
pub open spec fn refresh_plan_spec(
    r: Result<Option<TokenRequest>, OAuthError>,
    tokens: CodexTokens,
    now: int,
) -> bool {
    if !token_expired_at(tokens.access_token@, now) {
        r matches Ok(None)
    } else {
        match tokens.refresh_token {
            Some(rt) => r matches Ok(Some(req)) && req.url@ == TOKEN_ENDPOINT@ && form_view(
                req.form@,
            ) == refresh_form_spec(rt@),
            None => r matches Err(OAuthError::MissingRefreshToken),
        }
    }
}

/// Decides whether stored tokens can be used as they are at `now` (`None`),
/// must first be refreshed with the returned request, or cannot be refreshed
/// for want of a refresh token.
pub fn plan_refresh_at(tokens: &CodexTokens, now: i64) -> (r: Result<Option<TokenRequest>, OAuthError>)
    ensures
        refresh_plan_spec(r, *tokens, now as int),
{
    if !needs_refresh(tokens, now) {
        return Ok(None);
    }
    match &tokens.refresh_token {
        Some(rt) => Ok(Some(refresh_request(rt.as_str()))),
        None => Err(OAuthError::MissingRefreshToken),
    }
}

/// Decides, against the clock, whether stored tokens must be refreshed.
pub fn plan_refresh(tokens: &CodexTokens) -> (r: Result<Option<TokenRequest>, OAuthError>)
    ensures
        exists|now: i64| refresh_plan_spec(r, *tokens, now as int),
{
    let now = unix_now();
    plan_refresh_at(tokens, now)
}

/// Where the endpoint's answer holds no refresh token, the exchange reports
/// none and the refresh keeps the one that was used.
pub proof fn lemma_refresh_keeps_prior(
    exchanged: CodexTokens,
    refreshed: CodexTokens,
    prior: Seq<char>,
    status: u16,
    body: Seq<char>,
)
    requires
        exchange_spec(Ok(exchanged), status, body),
        refresh_spec(Ok(refreshed), prior, status, body),
        json_string_member(body, "refresh_token"@) is None,
    ensures
        exchanged.refresh_token is None,
        opt_view(refreshed.refresh_token) == Some(prior),
{
}

/// A refresh succeeds exactly where the exchange on the same answer does.
pub proof fn lemma_refresh_fails_as_exchange(
    exchanged: Result<CodexTokens, OAuthError>,
    refreshed: Result<CodexTokens, OAuthError>,
    prior: Seq<char>,
    status: u16,
    body: Seq<char>,
)
    requires
        exchange_spec(exchanged, status, body),
        refresh_spec(refreshed, prior, status, body),
    ensures
        exchanged is Ok <==> refreshed is Ok,
{
}

} // verus!
