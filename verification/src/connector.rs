//! The client upgrade adapter: initiates a WebSocket upgrade against a target.

use vstd::prelude::*;

use std::collections::HashMap;
use std::io::Read;
use std::io::Write;

use crate::event::Notification;
use crate::event::Reaction;
use crate::event::Token;
use crate::handshake::connect_attempt;
use crate::pending::pending_added;
use crate::pending::pending_cleared;
use crate::handshake::parse_target;
use crate::handshake::resume_connect;
use crate::handshake::url_ok;
use crate::handshake::ClientAttempt;
use crate::handshake::SuspendedClient;
use tungstenite::handshake::client::Response;
use tungstenite::WebSocket;

verus! {

broadcast use vstd::std_specs::hash::group_hash_axioms;

/// The three-way outcome of a client-side negotiation attempt, as surfaced to
/// the caller of [`WebSocketConnector::submit`] or [`WebSocketConnector::resume`].
#[verifier::reject_recursive_types(S)]
pub enum ClientOutcome<S> {
    /// The upgrade finished: the completed connection together with the peer's
    /// upgrade response, whose metadata (negotiated subprotocol, headers) is
    /// thereby available to callers; the adapter keeps no state for the token.
    Ready(WebSocket<S>, Response),
    /// Not enough bytes yet: the negotiation is suspended in the adapter's
    /// table and nothing is emitted.
    Incomplete,
    /// The negotiation failed for good — the peer rejected or garbled the
    /// upgrade, or the target was not a well-formed URL: the connection is
    /// dropped silently and nothing is kept for its token.
    Failed,
}

/// What [`WebSocketConnector::resume`] hands back: an outcome for a token that
/// was suspended here, or the untouched notification of any other token.
#[verifier::reject_recursive_types(S)]
pub enum ClientResumed<S> {
    /// The token had a pending handshake; its retried attempt ended this way.
    Done(ClientOutcome<S>),
    /// Nothing was pending for the token: the notification is returned
    /// unchanged so the surrounding loop can route it elsewhere.
    PassThrough(Notification),
}

/// Client upgrade adapter: sends an upgrade request for a target URL over a
/// raw byte stream and parses the peer's response into a message-framed
/// WebSocket connection, without ever blocking.
///
/// Its whole state is one table from connection tokens to suspended
/// handshakes, which is also its view: a `Map<Token, SuspendedClient<S>>`,
/// kept under exactly the discipline of the server adapter.
#[verifier::reject_recursive_types(S)]
pub struct WebSocketConnector<S> {
    handshakes: HashMap<Token, SuspendedClient<S>>,
}

impl<S> View for WebSocketConnector<S> {
    type V = Map<Token, SuspendedClient<S>>;

    closed spec fn view(&self) -> Map<Token, SuspendedClient<S>> {
        self.handshakes@
    }
}

impl<S> WebSocketConnector<S> {
    /// A fresh adapter with nothing pending.
    pub fn new() -> (r: Self)
        ensures
            r@ == Map::<Token, SuspendedClient<S>>::empty(),
    {
        WebSocketConnector { handshakes: HashMap::new() }
    }

    /// Whether a suspended handshake is stored for `token`.
    pub fn is_pending(&self, token: Token) -> (r: bool)
        ensures
            r == self@.contains_key(token),
    {
        self.handshakes.contains_key(&token)
    }

    /// How many connections are suspended mid-handshake.
    pub fn pending_count(&self) -> (n: usize)
        ensures
            n == self@.len(),
    {
        self.handshakes.len()
    }

    /// The table discipline for the result of one negotiation attempt on
    /// `token`'s connection: a completed upgrade is emitted with its response
    /// metadata and stores nothing, an interrupted one stores exactly its
    /// suspension under `token`, and a failure stores nothing and surfaces
    /// nothing.
    pub fn apply_attempt(&mut self, token: Token, attempt: ClientAttempt<S>) -> (out: ClientOutcome<S>)
        ensures
            match attempt {
                ClientAttempt::Complete(ws, resp) => out == ClientOutcome::Ready(ws, resp)
                    && final(self)@ == old(self)@,
                ClientAttempt::Interrupted(m) => out is Incomplete
                    && final(self)@ == old(self)@.insert(token, m),
                ClientAttempt::Failure => out is Failed && final(self)@ == old(self)@,
            },
    {
        match attempt {
            ClientAttempt::Complete(ws, resp) => ClientOutcome::Ready(ws, resp),
            ClientAttempt::Interrupted(m) => {
                self.handshakes.insert(token, m);
                ClientOutcome::Incomplete
            },
            ClientAttempt::Failure => ClientOutcome::Failed,
        }
    }

    /// Submit a fresh raw connection with the target to upgrade at: the
    /// upgrade request is sent and the peer's response parsed as far as the
    /// bytes available now allow. `Ready` emits the completed connection with
    /// the response metadata and keeps nothing; `Incomplete` stores the
    /// suspended handshake under `token` and nothing else changes; `Failed` —
    /// including a target that is no well-formed URL — drops the connection
    /// silently and keeps nothing. The token is fresh by the transport's
    /// guarantee that tokens are not reused while their connection lives.
    pub fn submit(&mut self, target: String, token: Token, stream: S) -> (out: ClientOutcome<S>) where
        S: Read + Write + 'static,

        requires
            !old(self)@.contains_key(token),
        ensures
            !url_ok(target@) ==> out is Failed,
            match out {
                ClientOutcome::Ready(_, _) => final(self)@ == old(self)@
                    && !final(self)@.contains_key(token),
                ClientOutcome::Incomplete => pending_added(old(self)@, final(self)@, token),
                ClientOutcome::Failed => final(self)@ == old(self)@
                    && !final(self)@.contains_key(token),
            },
    {
        match parse_target(target.as_str()) {
            None => ClientOutcome::Failed,
            Some(url) => {
                let attempt = connect_attempt(url, stream);
                self.apply_attempt(token, attempt)
            },
        }
    }

    /// Deliver a readiness notification. A token with nothing pending is not
    /// this adapter's to consume: the notification comes back unchanged and
    /// the table is untouched. A pending token's handshake is retried with
    /// the bytes now available; `Ready` and `Failed` clear its entry,
    /// `Incomplete` replaces it.
    pub fn resume(&mut self, note: Notification) -> (out: ClientResumed<S>) where
        S: Read + Write + 'static,

        ensures
            !old(self)@.contains_key(note.token) ==> out == ClientResumed::<S>::PassThrough(note),
            match out {
                ClientResumed::PassThrough(n) => n == note && final(self)@ == old(self)@
                    && !old(self)@.contains_key(note.token),
                ClientResumed::Done(o) => old(self)@.contains_key(note.token) && match o {
                    ClientOutcome::Ready(_, _) => pending_cleared(old(self)@, final(self)@, note.token),
                    ClientOutcome::Incomplete => pending_added(old(self)@, final(self)@, note.token),
                    ClientOutcome::Failed => pending_cleared(old(self)@, final(self)@, note.token),
                },
            },
    {
        let token = note.token;
        match self.handshakes.remove(&token) {
            None => ClientResumed::PassThrough(note),
            Some(suspended) => {
                let ghost after_remove = self@;
                let attempt = resume_connect(suspended);
                let out = self.apply_attempt(token, attempt);
                proof {
                    if out is Incomplete {
                        let m = choose|m: SuspendedClient<S>|
                            self@ == #[trigger] after_remove.insert(token, m);
                        assert(old(self)@.remove(token).insert(token, m)
                            =~= old(self)@.insert(token, m));
                    }
                }
                ClientResumed::Done(out)
            },
        }
    }

    /// The event-loop dispatch the adapter exposes to the composed pipeline,
    /// handling one stimulus per call. A submitted target and connection
    /// (`Value`) emits its completed upgrade — the response metadata is
    /// available through [`WebSocketConnector::submit`] instead — or, when
    /// suspended or failed, asks the loop to continue; a notification
    /// (`Event`) for a pending token does the same, while one for an unknown
    /// token passes through unchanged; a `Continue` tick changes nothing.
    pub fn react(&mut self, input: Reaction<(String, Token, S)>) -> (out: Reaction<WebSocket<S>>) where
        S: Read + Write + 'static,

        requires
            match input {
                Reaction::Value(p) => !old(self)@.contains_key(p.1),
                _ => true,
            },
        ensures
            match input {
                Reaction::Value(p) => !(out is Event)
                    && (!url_ok(p.0@) ==> !(out is Value) && final(self)@ == old(self)@)
                    && match out {
                    Reaction::Value(_) => final(self)@ == old(self)@ && !final(self)@.contains_key(p.1),
                    Reaction::Event(_) => false,
                    Reaction::Continue => pending_added(old(self)@, final(self)@, p.1)
                        || final(self)@ == old(self)@,
                },
                Reaction::Event(n) => match out {
                    Reaction::Value(_) => old(self)@.contains_key(n.token)
                        && pending_cleared(old(self)@, final(self)@, n.token),
                    Reaction::Event(n2) => n2 == n && final(self)@ == old(self)@
                        && !old(self)@.contains_key(n.token),
                    Reaction::Continue => old(self)@.contains_key(n.token)
                        && (pending_added(old(self)@, final(self)@, n.token)
                            || pending_cleared(old(self)@, final(self)@, n.token)),
                },
                Reaction::Continue => out is Continue && final(self)@ == old(self)@,
            },
    {
        match input {
            Reaction::Value((target, token, stream)) => match self.submit(target, token, stream) {
                ClientOutcome::Ready(ws, _) => Reaction::Value(ws),
                ClientOutcome::Incomplete => Reaction::Continue,
                ClientOutcome::Failed => Reaction::Continue,
            },
            Reaction::Event(note) => match self.resume(note) {
                ClientResumed::Done(ClientOutcome::Ready(ws, _)) => Reaction::Value(ws),
                ClientResumed::Done(ClientOutcome::Incomplete) => Reaction::Continue,
                ClientResumed::Done(ClientOutcome::Failed) => Reaction::Continue,
                ClientResumed::PassThrough(n) => Reaction::Event(n),
            },
            Reaction::Continue => Reaction::Continue,
        }
    }
}

} // verus!
