//! The server upgrade adapter: answers inbound WebSocket upgrade requests.

use vstd::prelude::*;

use std::collections::HashMap;
use std::io::Read;
use std::io::Write;

use crate::event::Notification;
use crate::event::Reaction;
use crate::event::Token;
use crate::handshake::accept_attempt;
use crate::handshake::resume_accept;
use crate::handshake::ServerAttempt;
use crate::handshake::SuspendedServer;
use crate::pending::pending_added;
use crate::pending::pending_cleared;
use tungstenite::WebSocket;

verus! {

broadcast use vstd::std_specs::hash::group_hash_axioms;

/// The three-way outcome of a server-side negotiation attempt, as surfaced to
/// the caller of [`WebSocketAcceptor::submit`] or [`WebSocketAcceptor::resume`].
#[verifier::reject_recursive_types(S)]
pub enum ServerOutcome<S> {
    /// The upgrade finished: the completed connection, emitted exactly once;
    /// the adapter keeps no state for its token afterwards.
    Ready(WebSocket<S>),
    /// Not enough bytes yet: the negotiation is suspended in the adapter's
    /// table and nothing is emitted.
    Incomplete,
    /// The negotiation failed for good: the connection is dropped silently and
    /// nothing is kept for its token.
    Failed,
}

/// What [`WebSocketAcceptor::resume`] hands back: an outcome for a token that
/// was suspended here, or the untouched notification of any other token.
#[verifier::reject_recursive_types(S)]
pub enum ServerResumed<S> {
    /// The token had a pending handshake; its retried attempt ended this way.
    Done(ServerOutcome<S>),
    /// Nothing was pending for the token: the notification is returned
    /// unchanged so the surrounding loop can route it elsewhere.
    PassThrough(Notification),
}

/// Server upgrade adapter: turns raw byte streams into message-framed
/// WebSocket connections by answering the peer's upgrade request, without
/// ever blocking.
///
/// Its whole state is one table from connection tokens to suspended
/// handshakes, which is also its view: a `Map<Token, SuspendedServer<S>>`.
/// A handshake that cannot finish with the bytes available so far is stored
/// there and retried on the next readiness notification for its token.
#[verifier::reject_recursive_types(S)]
pub struct WebSocketAcceptor<S> {
    handshakes: HashMap<Token, SuspendedServer<S>>,
}

impl<S> View for WebSocketAcceptor<S> {
    type V = Map<Token, SuspendedServer<S>>;

    closed spec fn view(&self) -> Map<Token, SuspendedServer<S>> {
        self.handshakes@
    }
}

impl<S> WebSocketAcceptor<S> {
    /// A fresh adapter with nothing pending.
    pub fn new() -> (r: Self)
        ensures
            r@ == Map::<Token, SuspendedServer<S>>::empty(),
    {
        WebSocketAcceptor { handshakes: HashMap::new() }
    }

    /// Whether a suspended handshake is stored for `token`.
    pub fn is_pending(&self, token: Token) -> (r: bool)
        ensures
            r == self@.contains_key(token),
    {
        self.handshakes.contains_key(&token)
    }

    /// How many connections are suspended mid-handshake.
    pub fn pending_count(&self) -> (n: usize)
        ensures
            n == self@.len(),
    {
        self.handshakes.len()
    }

    /// The table discipline for the result of one negotiation attempt on
    /// `token`'s connection: a completed upgrade is emitted and stores
    /// nothing, an interrupted one stores exactly its suspension under
    /// `token`, and a failure stores nothing and surfaces nothing.
    pub fn apply_attempt(&mut self, token: Token, attempt: ServerAttempt<S>) -> (out: ServerOutcome<S>)
        ensures
            match attempt {
                ServerAttempt::Complete(ws) => out == ServerOutcome::Ready(ws) && final(self)@ == old(self)@,
                ServerAttempt::Interrupted(m) => out is Incomplete && final(self)@ == old(self)@.insert(token, m),
                ServerAttempt::Failure => out is Failed && final(self)@ == old(self)@,
            },
    {
        match attempt {
            ServerAttempt::Complete(ws) => ServerOutcome::Ready(ws),
            ServerAttempt::Interrupted(m) => {
                self.handshakes.insert(token, m);
                ServerOutcome::Incomplete
            },
            ServerAttempt::Failure => ServerOutcome::Failed,
        }
    }

    /// Submit a fresh raw connection: attempt to answer its upgrade request
    /// with the bytes available now. `Ready` emits the completed connection
    /// and keeps nothing; `Incomplete` stores the suspended handshake under
    /// `token` and nothing else changes; `Failed` drops the connection
    /// silently and keeps nothing. The token is fresh by the transport's
    /// guarantee that tokens are not reused while their connection lives.
    pub fn submit(&mut self, token: Token, stream: S) -> (out: ServerOutcome<S>) where
        S: Read + Write + 'static,

        requires
            !old(self)@.contains_key(token),
        ensures
            match out {
                ServerOutcome::Ready(_) => final(self)@ == old(self)@ && !final(self)@.contains_key(token),
                ServerOutcome::Incomplete => pending_added(old(self)@, final(self)@, token),
                ServerOutcome::Failed => final(self)@ == old(self)@ && !final(self)@.contains_key(token),
            },
    {
        let attempt = accept_attempt(stream);
        self.apply_attempt(token, attempt)
    }

    /// Deliver a readiness notification. A token with nothing pending is not
    /// this adapter's to consume: the notification comes back unchanged and
    /// the table is untouched. A pending token's handshake is retried with
    /// the bytes now available; `Ready` and `Failed` clear its entry,
    /// `Incomplete` replaces it.
    pub fn resume(&mut self, note: Notification) -> (out: ServerResumed<S>) where
        S: Read + Write + 'static,

        ensures
            !old(self)@.contains_key(note.token) ==> out == ServerResumed::<S>::PassThrough(note),
            match out {
                ServerResumed::PassThrough(n) => n == note && final(self)@ == old(self)@
                    && !old(self)@.contains_key(note.token),
                ServerResumed::Done(o) => old(self)@.contains_key(note.token) && match o {
                    ServerOutcome::Ready(_) => pending_cleared(old(self)@, final(self)@, note.token),
                    ServerOutcome::Incomplete => pending_added(old(self)@, final(self)@, note.token),
                    ServerOutcome::Failed => pending_cleared(old(self)@, final(self)@, note.token),
                },
            },
    {
        let token = note.token;
        match self.handshakes.remove(&token) {
            None => ServerResumed::PassThrough(note),
            Some(suspended) => {
                let ghost after_remove = self@;
                let attempt = resume_accept(suspended);
                let out = self.apply_attempt(token, attempt);
                proof {
                    if out is Incomplete {
                        let m = choose|m: SuspendedServer<S>|
                            self@ == #[trigger] after_remove.insert(token, m);
                        assert(old(self)@.remove(token).insert(token, m)
                            =~= old(self)@.insert(token, m));
                    }
                }
                ServerResumed::Done(out)
            },
        }
    }

    /// The event-loop dispatch the adapter exposes to the composed pipeline,
    /// handling one stimulus per call. A submitted connection (`Value`) emits
    /// its completed upgrade or, when suspended or failed, asks the loop to
    /// continue; a notification (`Event`) for a pending token does the same,
    /// while one for an unknown token passes through unchanged; a `Continue`
    /// tick changes nothing.
    pub fn react(&mut self, input: Reaction<(Token, S)>) -> (out: Reaction<WebSocket<S>>) where
        S: Read + Write + 'static,

        requires
            match input {
                Reaction::Value(p) => !old(self)@.contains_key(p.0),
                _ => true,
            },
        ensures
            match input {
                Reaction::Value(p) => !(out is Event) && match out {
                    Reaction::Value(_) => final(self)@ == old(self)@ && !final(self)@.contains_key(p.0),
                    Reaction::Event(_) => false,
                    Reaction::Continue => pending_added(old(self)@, final(self)@, p.0)
                        || final(self)@ == old(self)@,
                },
                Reaction::Event(n) => match out {
                    Reaction::Value(_) => old(self)@.contains_key(n.token)
                        && pending_cleared(old(self)@, final(self)@, n.token),
                    Reaction::Event(n2) => n2 == n && final(self)@ == old(self)@
                        && !old(self)@.contains_key(n.token),
                    Reaction::Continue => old(self)@.contains_key(n.token)
                        && (pending_added(old(self)@, final(self)@, n.token)
                            || pending_cleared(old(self)@, final(self)@, n.token)),
                },
                Reaction::Continue => out is Continue && final(self)@ == old(self)@,
            },
    {
        match input {
            Reaction::Value((token, stream)) => match self.submit(token, stream) {
                ServerOutcome::Ready(ws) => Reaction::Value(ws),
                ServerOutcome::Incomplete => Reaction::Continue,
                ServerOutcome::Failed => Reaction::Continue,
            },
            Reaction::Event(note) => match self.resume(note) {
                ServerResumed::Done(ServerOutcome::Ready(ws)) => Reaction::Value(ws),
                ServerResumed::Done(ServerOutcome::Incomplete) => Reaction::Continue,
                ServerResumed::Done(ServerOutcome::Failed) => Reaction::Continue,
                ServerResumed::PassThrough(n) => Reaction::Event(n),
            },
            Reaction::Continue => Reaction::Continue,
        }
    }
}

} // verus!
