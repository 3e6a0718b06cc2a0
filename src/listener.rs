//! Decisions of the loopback listener that receives the provider's redirect:
//! which reply each request gets, what it does to the session store, and
//! when the listener stops.

use crate::codec::{chars_of, string_of};
use crate::query::{get_query_param, query_param};
use crate::session::{is_active_for, sender_of, taken, SessionModel, SessionStore};
use crate::text::{has_prefix, starts_with_chars};
use vstd::prelude::*;

verus! {

/// Path prefix of the redirect.
pub const CALLBACK_PATH: &'static str = "/auth/callback";

/// Path prefix of the request that wakes the listener to cancel it.
pub const CANCEL_PATH: &'static str = "/cancel";

/// How long a listener waits for the redirect, in milliseconds.
pub const CALLBACK_TIMEOUT_MS: u64 = 300000;

/// What a request to the listener asks for.
#[derive(Debug, Clone)]
pub enum CallbackRoute {
    /// A redirect whose state matches: it carries the authorization code.
    Authorized { code: String },
    /// A redirect whose state does not match the expected one.
    StateMismatch,
    /// A request to the cancel path.
    Cancel,
    /// Any other path.
    NotFound,
}

/// The page sent back with a reply.
#[derive(PartialEq, Eq, Structural, Clone, Copy, Debug)]
pub enum ReplyPage {
    Success,
    StateMismatch,
    Cancelled,
    NotFound,
}

/// The listener's answer to one request.
pub struct ListenerReply<T> {
    /// The HTTP status of the reply.
    pub status: u16,
    /// The page sent with it.
    pub page: ReplyPage,
    /// The completion sender and the code to send through it.
    pub delivery: Option<(T, String)>,
    /// Whether the listener stops after replying.
    pub stop: bool,
}

/// What `route_callback` decides for a request target `url`.
pub open spec fn route_spec(route: CallbackRoute, url: Seq<char>, expected_state: Seq<char>) -> bool {
    if has_prefix(url, CALLBACK_PATH@) {
        if query_param(url, "state"@) == expected_state {
            route matches CallbackRoute::Authorized { code } && code@ == query_param(url, "code"@)
        } else {
            route is StateMismatch
        }
    } else if has_prefix(url, CANCEL_PATH@) {
        route is Cancel
    } else {
        route is NotFound
    }
}

/// Classifies a request to the listener by its target `url`.
pub fn route_callback(url: &str, expected_state: &str) -> (r: CallbackRoute)
    ensures
        route_spec(r, url@, expected_state@),
{
    let target = chars_of(url);
    let callback = chars_of(CALLBACK_PATH);
    let cancel = chars_of(CANCEL_PATH);
    if starts_with_chars(&target, &callback) {
        let state_key = chars_of("state");
        let state = get_query_param(&target, &state_key);
        let expected = chars_of(expected_state);
        if crate::text::chars_equal(&state, &expected) {
            let code_key = chars_of("code");
            let code = get_query_param(&target, &code_key);
            CallbackRoute::Authorized { code: string_of(&code) }
        } else {
            CallbackRoute::StateMismatch
        }
    } else if starts_with_chars(&target, &cancel) {
        CallbackRoute::Cancel
    } else {
        CallbackRoute::NotFound
    }
}

/// What `handle_callback_request` answers and does to the store.
pub open spec fn reply_spec<T>(
    reply: ListenerReply<T>,
    before: Option<SessionModel<T>>,
    after: Option<SessionModel<T>>,
    url: Seq<char>,
    expected_state: Seq<char>,
) -> bool {
    if has_prefix(url, CALLBACK_PATH@) {
        if query_param(url, "state"@) == expected_state {
            &&& reply.status == 200
            &&& reply.page == ReplyPage::Success
            &&& reply.stop
            &&& after == taken(before)
            &&& match sender_of(before) {
                Some(tx) => reply.delivery matches Some(d) && d.0 == tx && d.1@ == query_param(
                    url,
                    "code"@,
                ),
                None => reply.delivery is None,
            }
        } else {
            &&& reply.status == 400
            &&& reply.page == ReplyPage::StateMismatch
            &&& !reply.stop
            &&& reply.delivery is None
            &&& after == before
        }
    } else if has_prefix(url, CANCEL_PATH@) {
        &&& reply.status == 200
        &&& reply.page == ReplyPage::Cancelled
        &&& reply.stop
        &&& reply.delivery is None
        &&& after is None
    } else {
        &&& reply.status == 404
        &&& reply.page == ReplyPage::NotFound
        &&& !reply.stop
        &&& reply.delivery is None
        &&& after == before
    }
}

/// Answers one request to the listener started for `expected_state`. A
/// matching redirect hands out the completion sender with the code; a cancel
/// request empties the store; other requests leave it as it is.
pub fn handle_callback_request<T>(
    store: &mut SessionStore<T>,
    url: &str,
    expected_state: &str,
) -> (r: ListenerReply<T>)
    ensures
        reply_spec(r, old(store)@, final(store)@, url@, expected_state@),
{
    match route_callback(url, expected_state) {
        CallbackRoute::Authorized { code } => {
            let delivery = match store.take_completion_sender() {
                Some(tx) => Some((tx, code)),
                None => None,
            };
            ListenerReply { status: 200, page: ReplyPage::Success, delivery, stop: true }
        },
        CallbackRoute::StateMismatch => {
            ListenerReply { status: 400, page: ReplyPage::StateMismatch, delivery: None, stop: false }
        },
        CallbackRoute::Cancel => {
            store.clear();
            ListenerReply { status: 200, page: ReplyPage::Cancelled, delivery: None, stop: true }
        },
        CallbackRoute::NotFound => {
            ListenerReply { status: 404, page: ReplyPage::NotFound, delivery: None, stop: false }
        },
    }
}

/// Whether the listener started for `expected_state` stops polling: its
/// session was replaced or cleared, or it has waited past the timeout.
pub fn listener_should_stop<T>(
    store: &SessionStore<T>,
    expected_state: &str,
    elapsed_ms: u64,
) -> (r: bool)
    ensures
        r == (!is_active_for(store@, expected_state@) || elapsed_ms > CALLBACK_TIMEOUT_MS),
{
    !store.is_current_state(expected_state) || elapsed_ms > CALLBACK_TIMEOUT_MS
}

/// A redirect whose state does not match is answered with 400 and leaves
/// the flow waiting: the store keeps its session and its sender.
pub proof fn lemma_mismatch_keeps_waiting<T>(
    reply: ListenerReply<T>,
    before: Option<SessionModel<T>>,
    after: Option<SessionModel<T>>,
    url: Seq<char>,
    expected_state: Seq<char>,
)
    requires
        reply_spec(reply, before, after, url, expected_state),
        has_prefix(url, CALLBACK_PATH@),
        query_param(url, "state"@) != expected_state,
    ensures
        reply.status == 400,
        !reply.stop,
        after == before,
        sender_of(after) == sender_of(before),
{
}

} // verus!
