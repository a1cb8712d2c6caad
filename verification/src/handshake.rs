//! Trusted boundary around the outside crates that perform the handshake.
//!
//! The negotiation itself — parsing the HTTP upgrade request or response and
//! producing the reply — is done by `tungstenite`, and target URLs are parsed
//! by `url`. Everything here either declares one of their types so that it can
//! stand in signatures, or wraps one call in a function whose body Verus does
//! not read. Which variant such a call returns depends on the bytes the peer
//! has sent so far, so the wrappers promise nothing about it; the adapters'
//! verified logic states what happens to the pending table for every outcome.
//!
//! A suspended negotiation is `tungstenite`'s `MidHandshake` value. That type
//! is bounded by an outside trait, which keeps it out of any signature Verus
//! reads, so [`SuspendedServer`] and [`SuspendedClient`] carry it as an erased
//! box tagged with the stream type. Only the wrappers below ever create or
//! open one, always for the same stream type `S`, so unboxing cannot fail.

use vstd::prelude::*;

use std::any::Any;
use std::io::Read;
use std::io::Write;
use std::marker::PhantomData;

use tungstenite::handshake::client::ClientHandshake;
use tungstenite::handshake::client::Response;
use tungstenite::handshake::server::NoCallback;
use tungstenite::handshake::server::ServerHandshake;
use tungstenite::handshake::HandshakeError;
use tungstenite::handshake::MidHandshake;
use tungstenite::WebSocket;
use url::Url;

verus! {

#[verifier::external_type_specification]
#[verifier::external_body]
#[verifier::reject_recursive_types(S)]
pub struct ExWebSocket<S>(WebSocket<S>);

#[verifier::external_type_specification]
#[verifier::external_body]
#[verifier::reject_recursive_types(T)]
pub struct ExHttpResponse<T>(tungstenite::http::Response<T>);

#[verifier::external_type_specification]
#[verifier::external_body]
pub struct ExUrl(Url);

/// A server-side upgrade negotiation that ran out of bytes: `tungstenite`'s
/// suspended `MidHandshake`, held opaquely until the next readiness
/// notification for its connection retries it through [`resume_accept`].
#[verifier::external_body]
#[verifier::reject_recursive_types(S)]
pub struct SuspendedServer<S> {
    mid: Box<dyn Any>,
    stream: PhantomData<S>,
}

/// A client-side upgrade negotiation that ran out of bytes; the counterpart of
/// [`SuspendedServer`], retried through [`resume_connect`].
#[verifier::external_body]
#[verifier::reject_recursive_types(S)]
pub struct SuspendedClient<S> {
    mid: Box<dyn Any>,
    stream: PhantomData<S>,
}

/// The three-way result of one server-side negotiation attempt, before the
/// adapter has updated its pending table.
#[verifier::reject_recursive_types(S)]
pub enum ServerAttempt<S> {
    /// The handshake finished: the stream is now a message-framed connection.
    Complete(WebSocket<S>),
    /// Not enough bytes yet: the suspended negotiation, to be stored and
    /// retried on the next readiness notification.
    Interrupted(SuspendedServer<S>),
    /// The negotiation failed for good (malformed or rejected upgrade); the
    /// connection is dropped silently, so no error value is carried.
    Failure,
}

/// The three-way result of one client-side negotiation attempt. On completion
/// the peer's HTTP response is kept alongside the connection, so that callers
/// can read negotiated metadata from it.
#[verifier::reject_recursive_types(S)]
pub enum ClientAttempt<S> {
    /// The handshake finished; the peer's upgrade response comes with it.
    Complete(WebSocket<S>, Response),
    /// Not enough bytes yet: the suspended negotiation.
    Interrupted(SuspendedClient<S>),
    /// The negotiation failed for good; dropped silently, as on the server.
    Failure,
}

/// Relies on `tungstenite::accept_hdr_with_config`: drives the server side of
/// the upgrade handshake as far as the bytes already readable from the stream
/// allow, reading and writing only in non-blocking fashion. Assumes the
/// stream's `write` never returns `Ok(0)` — a write moves bytes, errors, or
/// reports it would block — as `tungstenite` panics on a zero-byte write.
#[verifier::external_body]
pub(crate) fn accept_attempt<S: Read + Write + 'static>(stream: S) -> (r: ServerAttempt<S>) {
    match tungstenite::accept_hdr_with_config(stream, NoCallback, None) {
        Ok(ws) => ServerAttempt::Complete(ws),
        Err(HandshakeError::Interrupted(mid)) => ServerAttempt::Interrupted(SuspendedServer {
            mid: Box::new(mid),
            stream: PhantomData,
        }),
        Err(HandshakeError::Failure(_)) => ServerAttempt::Failure,
    }
}

/// Relies on `tungstenite::handshake::MidHandshake::handshake`: retries a
/// suspended server-side negotiation with whatever bytes are now available;
/// like [`accept_attempt`], it assumes the stream's `write` never returns
/// `Ok(0)`. A [`SuspendedServer`] for stream type `S` always holds a
/// server-role `MidHandshake` over `S`, so the unboxing arm cannot miss.
#[verifier::external_body]
pub(crate) fn resume_accept<S: Read + Write + 'static>(s: SuspendedServer<S>) -> (r: ServerAttempt<S>) {
    match s.mid.downcast::<MidHandshake<ServerHandshake<S, NoCallback>>>() {
        Err(_) => ServerAttempt::Failure,
        Ok(mid) => match mid.handshake() {
            Ok(ws) => ServerAttempt::Complete(ws),
            Err(HandshakeError::Interrupted(m)) => ServerAttempt::Interrupted(SuspendedServer {
                mid: Box::new(m),
                stream: PhantomData,
            }),
            Err(HandshakeError::Failure(_)) => ServerAttempt::Failure,
        },
    }
}

/// Relies on `tungstenite::client`: sends the upgrade request for `target`
/// over the stream and parses as much of the peer's response as is available,
/// reading and writing only in non-blocking fashion. Assumes the stream's
/// `write` never returns `Ok(0)` — a write moves bytes, errors, or reports it
/// would block — as `tungstenite` panics on a zero-byte write.
#[verifier::external_body]
pub(crate) fn connect_attempt<S: Read + Write + 'static>(target: Url, stream: S) -> (r: ClientAttempt<S>) {
    match tungstenite::client(target, stream) {
        Ok((ws, response)) => ClientAttempt::Complete(ws, response),
        Err(HandshakeError::Interrupted(mid)) => ClientAttempt::Interrupted(SuspendedClient {
            mid: Box::new(mid),
            stream: PhantomData,
        }),
        Err(HandshakeError::Failure(_)) => ClientAttempt::Failure,
    }
}

/// Relies on `tungstenite::handshake::MidHandshake::handshake`: retries a
/// suspended client-side negotiation with whatever bytes are now available;
/// like [`connect_attempt`], it assumes the stream's `write` never returns
/// `Ok(0)`. A [`SuspendedClient`] for stream type `S` always holds a
/// client-role `MidHandshake` over `S`, so the unboxing arm cannot miss.
#[verifier::external_body]
pub(crate) fn resume_connect<S: Read + Write + 'static>(s: SuspendedClient<S>) -> (r: ClientAttempt<S>) {
    match s.mid.downcast::<MidHandshake<ClientHandshake<S>>>() {
        Err(_) => ClientAttempt::Failure,
        Ok(mid) => match mid.handshake() {
            Ok((ws, response)) => ClientAttempt::Complete(ws, response),
            Err(HandshakeError::Interrupted(m)) => ClientAttempt::Interrupted(SuspendedClient {
                mid: Box::new(m),
                stream: PhantomData,
            }),
            Err(HandshakeError::Failure(_)) => ClientAttempt::Failure,
        },
    }
}

/// Whether `url::Url::parse` accepts the string as a well-formed, absolute
/// URL: the named verdict of [`parse_target`], a function of the target string
/// alone.
pub uninterp spec fn url_ok(s: Seq<char>) -> bool;

/// Relies on `url::Url::parse` to validate and parse the target resource
/// identifier, deterministically in the string alone; `None` exactly when the
/// target is not a well-formed URL.
#[verifier::external_body]
pub(crate) fn parse_target(s: &str) -> (r: Option<Url>)
    ensures
        r is Some <==> url_ok(s@),
{
    match Url::parse(s) {
        Ok(u) => Some(u),
        Err(_) => None,
    }
}

} // verus!
