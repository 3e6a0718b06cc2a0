//! The single-slot store that holds the one authorization flow in progress.

use vstd::prelude::*;

verus! {

/// The fixed loopback port on which the redirect is received.
pub const OAUTH_CALLBACK_PORT: u16 = 1455;

/// The port the callback listener binds.
pub fn get_callback_port() -> (r: u16)
    ensures
        r == OAUTH_CALLBACK_PORT,
{
    OAUTH_CALLBACK_PORT
}

/// The flow in progress: its PKCE verifier, its CSRF state, the port its
/// listener uses and, until it is taken, the one-shot sender `T` through
/// which the authorization code is delivered.
pub struct Session<T> {
    code_verifier: String,
    state: String,
    port: u16,
    completion: Option<T>,
}

/// What the store holds of a session, as a value.
pub struct SessionModel<T> {
    pub code_verifier: Seq<char>,
    pub state: Seq<char>,
    pub port: u16,
    pub completion: Option<T>,
}

/// A copy of the parts of the active session that the token exchange reads.
#[derive(Debug, Clone)]
pub struct SessionSnapshot {
    pub code_verifier: String,
    pub state: String,
    pub port: u16,
}

/// Holds at most one session.
pub struct SessionStore<T> {
    slot: Option<Session<T>>,
}

impl<T> View for SessionStore<T> {
    type V = Option<SessionModel<T>>;

    closed spec fn view(&self) -> Option<SessionModel<T>> {
        match self.slot {
            Some(s) => Some(
                SessionModel {
                    code_verifier: s.code_verifier@,
                    state: s.state@,
                    port: s.port,
                    completion: s.completion,
                },
            ),
            None => None,
        }
    }
}

/// Whether the store holds the session that `expected_state` was issued for.
pub open spec fn is_active_for<T>(m: Option<SessionModel<T>>, expected_state: Seq<char>) -> bool {
    m matches Some(s) && s.state == expected_state
}

/// The port that a cancellation wakes: the active session's, else the fixed
/// callback port.
pub open spec fn cancel_port<T>(m: Option<SessionModel<T>>) -> u16 {
    match m {
        Some(s) => s.port,
        None => OAUTH_CALLBACK_PORT,
    }
}

/// The store's contents after a session is started.
pub open spec fn begun<T>(
    code_verifier: Seq<char>,
    state: Seq<char>,
    port: u16,
    completion: T,
) -> Option<SessionModel<T>> {
    Some(SessionModel { code_verifier, state, port, completion: Some(completion) })
}

/// The sender that taking the completion sender hands out.
pub open spec fn sender_of<T>(m: Option<SessionModel<T>>) -> Option<T> {
    match m {
        Some(s) => s.completion,
        None => None,
    }
}

/// The store's contents after its completion sender is taken.
pub open spec fn taken<T>(m: Option<SessionModel<T>>) -> Option<SessionModel<T>> {
    match m {
        Some(s) => Some(SessionModel { completion: None, ..s }),
        None => None,
    }
}

impl<T> SessionStore<T> {
    /// An empty store.
    pub fn new() -> (r: Self)
        ensures
            r@ is None,
    {
        SessionStore { slot: None }
    }

    /// Starts a session, replacing whatever the store held.
    pub fn begin(&mut self, code_verifier: String, state: String, port: u16, completion: T)
        ensures
            final(self)@ == begun(code_verifier@, state@, port, completion),
    {
        self.slot = Some(Session { code_verifier, state, port, completion: Some(completion) });
    }

    /// A copy of the active session's verifier, state and port.
    pub fn current(&self) -> (r: Option<SessionSnapshot>)
        ensures
            match r {
                Some(c) => self@ matches Some(s) && c.code_verifier@ == s.code_verifier
                    && c.state@ == s.state && c.port == s.port,
                None => self@ is None,
            },
    {
        match &self.slot {
            Some(s) => Some(
                SessionSnapshot {
                    code_verifier: s.code_verifier.clone(),
                    state: s.state.clone(),
                    port: s.port,
                },
            ),
            None => None,
        }
    }

    /// Whether a session is active.
    pub fn is_active(&self) -> (r: bool)
        ensures
            r == self@ is Some,
    {
        self.slot.is_some()
    }

    /// Whether the active session is the one `expected_state` was issued for.
    pub fn is_current_state(&self, expected_state: &str) -> (r: bool)
        ensures
            r == is_active_for(self@, expected_state@),
    {
        match &self.slot {
            Some(s) => {
                let a = s.state.as_str();
                let b = expected_state;
                str_equal(a, b)
            },
            None => false,
        }
    }

    /// Takes the active session's completion sender; a second call in the
    /// same session returns `None`.
    pub fn take_completion_sender(&mut self) -> (r: Option<T>)
        ensures
            r == sender_of(old(self)@),
            final(self)@ == taken(old(self)@),
    {
        match &mut self.slot {
            Some(s) => s.completion.take(),
            None => None,
        }
    }

    /// Empties the store.
    pub fn clear(&mut self)
        ensures
            final(self)@ is None,
    {
        self.slot = None;
    }
}

/// Whether two strings hold the same characters.
pub fn str_equal(a: &str, b: &str) -> (r: bool)
    ensures
        r == (a@ == b@),
{
    let x = crate::codec::chars_of(a);
    let y = crate::codec::chars_of(b);
    crate::text::chars_equal(&x, &y)
}

/// Ends the flow in progress: returns the port whose listener must be woken
/// and leaves the store empty. With no flow in progress nothing changes.
pub fn cancel_oauth_flow<T>(store: &mut SessionStore<T>) -> (r: u16)
    ensures
        r == cancel_port(old(store)@),
        final(store)@ is None,
{
    let port = match store.current() {
        Some(s) => s.port,
        None => OAUTH_CALLBACK_PORT,
    };
    store.clear();
    port
}

/// Starting a session while another is active leaves exactly the second one
/// in the store: a listener started for the first one no longer finds its
/// state there.
pub proof fn lemma_second_begin_wins<T>(
    s1: Seq<char>,
    v2: Seq<char>,
    s2: Seq<char>,
    p2: u16,
    c2: T,
    after: Option<SessionModel<T>>,
)
    requires
        after == begun(v2, s2, p2, c2),
    ensures
        after == Some(
            SessionModel { code_verifier: v2, state: s2, port: p2, completion: Some(c2) },
        ),
        is_active_for(after, s2),
        s1 != s2 ==> !is_active_for(after, s1),
{
}

/// The completion sender is handed out at most once per session: after one
/// take, a second take yields nothing.
pub proof fn lemma_sender_taken_once<T>(m: Option<SessionModel<T>>)
    ensures
        sender_of(taken(m)) is None,
        taken(taken(m)) == taken(m),
{
}

/// Cancelling with no flow in progress changes nothing and wakes the fixed
/// callback port.
pub proof fn lemma_cancel_idle<T>(m: Option<SessionModel<T>>)
    requires
        m is None,
    ensures
        cancel_port(m) == OAUTH_CALLBACK_PORT,
{
}

} // verus!
