//! Non-blocking WebSocket upgrade adapters for an event-driven byte stream.
//!
//! A raw, non-blocking byte stream is upgraded into a message-framed WebSocket
//! connection without ever blocking the thread that drives the event loop.
//! Both roles are supported: [`WebSocketAcceptor`] answers inbound upgrade
//! requests, [`WebSocketConnector`] initiates one against a target URL.
//!
//! A handshake that cannot finish with the bytes available so far is suspended:
//! the partially-run negotiation is stored in a table keyed by the connection's
//! token, and is retried when a readiness notification for that token arrives.
//! A notification for a token with nothing pending is passed through untouched,
//! so that another component of the surrounding loop can route it.

mod acceptor;
mod connector;
mod event;
mod handshake;
mod pending;

pub use acceptor::ServerOutcome;
pub use acceptor::ServerResumed;
pub use acceptor::WebSocketAcceptor;
pub use connector::ClientOutcome;
pub use connector::ClientResumed;
pub use connector::WebSocketConnector;
pub use event::Notification;
pub use event::Reaction;
pub use event::Token;
pub use handshake::ClientAttempt;
pub use handshake::ServerAttempt;
pub use handshake::url_ok;
pub use handshake::SuspendedClient;
pub use handshake::SuspendedServer;
pub use pending::lemma_at_most_one_pending;
pub use pending::lemma_cleanup_on_terminal;
pub use pending::lemma_n_round_resumption;
pub use pending::pending_added;
pub use pending::pending_cleared;

pub use tungstenite::Error as WebSocketError;
pub use tungstenite::WebSocket;
