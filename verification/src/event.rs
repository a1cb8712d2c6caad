use vstd::prelude::*;

verus! {

/// A stable identifier bound to one raw connection for its whole lifetime.
///
/// All pending-handshake lookups are keyed by it, and every readiness
/// notification carries the token of the connection it concerns. The
/// surrounding transport guarantees that a token is never reused while its
/// connection is live.
pub type Token = usize;

/// A readiness notification: the connection identified by `token` may now have
/// more bytes available to read, or may have become writable.
#[derive(Clone, Copy, PartialEq, Eq, Structural, Debug)]
pub struct Notification {
    /// Token of the connection that became ready.
    pub token: Token,
}

/// One stimulus delivered to an adapter by the event loop, or one effect the
/// adapter hands back to it.
///
/// As input, `Value` submits a new payload (a raw connection, with its token),
/// `Event` delivers a readiness notification, and `Continue` is a no-op tick.
/// As output, `Value` emits a completed upgraded connection downstream,
/// `Event` passes an unconsumed notification on to the next component, and
/// `Continue` tells the loop that nothing is emitted this round.
pub enum Reaction<T> {
    /// A submitted payload (input) or an emitted completed value (output).
    Value(T),
    /// A readiness notification, delivered or passed through unconsumed.
    Event(Notification),
    /// Nothing to route: the loop simply goes on.
    Continue,
}

} // verus!
