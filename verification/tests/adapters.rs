//! End-to-end exercises of both upgrade adapters over an in-memory,
//! non-blocking mock stream.

use std::cell::RefCell;
use std::collections::VecDeque;
use std::io::Error;
use std::io::ErrorKind;
use std::io::Read;
use std::io::Result as IoResult;
use std::io::Write;
use std::rc::Rc;

use tungstenite::handshake::derive_accept_key;
use tungstenite::Message;

use ws_upgrade::ClientOutcome;
use ws_upgrade::ClientResumed;
use ws_upgrade::Notification;
use ws_upgrade::Reaction;
use ws_upgrade::ServerOutcome;
use ws_upgrade::ServerResumed;
use ws_upgrade::WebSocketAcceptor;
use ws_upgrade::WebSocketConnector;

struct Inner {
    readable: VecDeque<u8>,
    written: Vec<u8>,
    // When set, a complete request written to the stream is answered with a
    // valid 101 upgrade response on the next read, as a live peer would.
    auto_reply: bool,
    replied: bool,
}

/// A non-blocking in-memory byte stream: reads yield whatever has been fed so
/// far and `WouldBlock` once that runs out; writes always succeed and are
/// kept for inspection. Clones share the same buffers, so a test keeps a
/// handle after moving the stream into an adapter.
#[derive(Clone)]
struct MockStream(Rc<RefCell<Inner>>);

impl MockStream {
    fn new() -> Self {
        MockStream(Rc::new(RefCell::new(Inner {
            readable: VecDeque::new(),
            written: Vec::new(),
            auto_reply: false,
            replied: false,
        })))
    }

    fn with_bytes(bytes: &[u8]) -> Self {
        let s = MockStream::new();
        s.feed(bytes);
        s
    }

    fn replying() -> Self {
        let s = MockStream::new();
        s.0.borrow_mut().auto_reply = true;
        s
    }

    fn feed(&self, bytes: &[u8]) {
        self.0.borrow_mut().readable.extend(bytes.iter().copied());
    }

    fn start_replying(&self) {
        self.0.borrow_mut().auto_reply = true;
    }

    fn written(&self) -> Vec<u8> {
        self.0.borrow().written.clone()
    }
}

fn extract_key(request: &[u8]) -> String {
    let text = String::from_utf8_lossy(request);
    for line in text.split("\r\n") {
        let lower = line.to_ascii_lowercase();
        if let Some(rest) = lower.strip_prefix("sec-websocket-key:") {
            let start = line.len() - rest.len();
            return line[start..].trim().to_string();
        }
    }
    String::new()
}

fn upgrade_response(key: &str) -> Vec<u8> {
    let accept = derive_accept_key(key.as_bytes());
    format!(
        "HTTP/1.1 101 Switching Protocols\r\nUpgrade: websocket\r\nConnection: Upgrade\r\nSec-WebSocket-Accept: {}\r\n\r\n",
        accept
    )
    .into_bytes()
}

impl Read for MockStream {
    fn read(&mut self, buf: &mut [u8]) -> IoResult<usize> {
        let mut inner = self.0.borrow_mut();
        if inner.auto_reply && !inner.replied && inner.written.ends_with(b"\r\n\r\n") {
            let key = extract_key(&inner.written);
            let reply = upgrade_response(&key);
            inner.readable.extend(reply.iter().copied());
            inner.replied = true;
        }
        if inner.readable.is_empty() {
            return Err(Error::new(ErrorKind::WouldBlock, "no bytes yet"));
        }
        let mut n = 0;
        while n < buf.len() {
            match inner.readable.pop_front() {
                Some(b) => {
                    buf[n] = b;
                    n += 1;
                }
                None => break,
            }
        }
        Ok(n)
    }
}

impl Write for MockStream {
    fn write(&mut self, buf: &[u8]) -> IoResult<usize> {
        self.0.borrow_mut().written.extend_from_slice(buf);
        Ok(buf.len())
    }

    fn flush(&mut self) -> IoResult<()> {
        Ok(())
    }
}

const VALID_REQUEST: &[u8] = b"GET /chat HTTP/1.1\r\nHost: localhost\r\nUpgrade: websocket\r\nConnection: Upgrade\r\nSec-WebSocket-Key: dGhlIHNhbXBsZSBub25jZQ==\r\nSec-WebSocket-Version: 13\r\n\r\n";

// A masked single-frame text message "hello" as a client would send it.
const HELLO_FRAME: &[u8] = &[0x81, 0x85, 0x00, 0x00, 0x00, 0x00, b'h', b'e', b'l', b'l', b'o'];

#[test]
fn server_submit_complete_request_is_ready() {
    let stream = MockStream::with_bytes(VALID_REQUEST);
    let handle = stream.clone();
    let mut acceptor = WebSocketAcceptor::new();
    let out = acceptor.submit(1, stream);
    assert!(matches!(out, ServerOutcome::Ready(_)));
    assert!(!acceptor.is_pending(1));
    assert_eq!(acceptor.pending_count(), 0);
    let response = handle.written();
    let text = String::from_utf8_lossy(&response);
    assert!(text.contains("101 Switching Protocols"));
    // The accept key for the RFC 6455 sample nonce.
    assert!(text.contains("s3pPLMBiTxaQ9kYGzzhZRbK+xOo="));
}

#[test]
fn server_ready_connection_wraps_the_stream() {
    let stream = MockStream::with_bytes(VALID_REQUEST);
    let handle = stream.clone();
    let mut acceptor = WebSocketAcceptor::new();
    let out = acceptor.submit(1, stream);
    let mut ws = match out {
        ServerOutcome::Ready(ws) => ws,
        _ => panic!("expected a completed upgrade"),
    };
    handle.feed(HELLO_FRAME);
    let msg = ws.read().expect("a whole frame was fed");
    assert!(matches!(msg, Message::Text(ref t) if t.as_str() == "hello"));
}

#[test]
fn server_multi_round_three_deliveries() {
    let stream = MockStream::with_bytes(&VALID_REQUEST[..40]);
    let handle = stream.clone();
    let mut acceptor = WebSocketAcceptor::new();

    let out = acceptor.submit(3, stream);
    assert!(matches!(out, ServerOutcome::Incomplete));
    assert!(acceptor.is_pending(3));

    handle.feed(&VALID_REQUEST[40..90]);
    let second = acceptor.resume(Notification { token: 3 });
    assert!(matches!(second, ServerResumed::Done(ServerOutcome::Incomplete)));
    assert!(acceptor.is_pending(3));
    assert_eq!(acceptor.pending_count(), 1);

    handle.feed(&VALID_REQUEST[90..]);
    let third = acceptor.resume(Notification { token: 3 });
    assert!(matches!(third, ServerResumed::Done(ServerOutcome::Ready(_))));
    assert!(!acceptor.is_pending(3));
    assert_eq!(acceptor.pending_count(), 0);
    assert!(String::from_utf8_lossy(&handle.written()).contains("101 Switching Protocols"));
}

#[test]
fn server_malformed_request_fails_without_pending_entry() {
    // No Sec-WebSocket-Key, so the negotiation is rejected outright.
    let stream =
        MockStream::with_bytes(b"GET / HTTP/1.1\r\nHost: localhost\r\nUpgrade: websocket\r\nConnection: Upgrade\r\n\r\n");
    let mut acceptor = WebSocketAcceptor::new();
    let out = acceptor.submit(4, stream);
    assert!(matches!(out, ServerOutcome::Failed));
    assert!(!acceptor.is_pending(4));
    assert_eq!(acceptor.pending_count(), 0);
    // A terminal outcome leaves nothing behind: the token now passes through.
    let after = acceptor.resume(Notification { token: 4 });
    assert!(matches!(after, ServerResumed::PassThrough(n) if n.token == 4));
}

#[test]
fn server_unrelated_notification_passes_through() {
    let mut acceptor = WebSocketAcceptor::<MockStream>::new();
    let out = acceptor.resume(Notification { token: 99 });
    assert!(matches!(out, ServerResumed::PassThrough(n) if n.token == 99));
    assert_eq!(acceptor.pending_count(), 0);
}

#[test]
fn server_pass_through_leaves_other_pending_entries() {
    let stream = MockStream::with_bytes(&VALID_REQUEST[..20]);
    let mut acceptor = WebSocketAcceptor::new();
    assert!(matches!(acceptor.submit(1, stream), ServerOutcome::Incomplete));

    let out = acceptor.resume(Notification { token: 2 });
    assert!(matches!(out, ServerResumed::PassThrough(n) if n.token == 2));
    assert!(acceptor.is_pending(1));
    assert_eq!(acceptor.pending_count(), 1);
}

#[test]
fn server_at_most_one_entry_per_token() {
    let stream = MockStream::with_bytes(&VALID_REQUEST[..20]);
    let handle = stream.clone();
    let mut acceptor = WebSocketAcceptor::new();
    assert!(matches!(acceptor.submit(7, stream), ServerOutcome::Incomplete));
    assert_eq!(acceptor.pending_count(), 1);

    // A further suspension replaces the entry rather than adding one.
    handle.feed(&VALID_REQUEST[20..40]);
    let again = acceptor.resume(Notification { token: 7 });
    assert!(matches!(again, ServerResumed::Done(ServerOutcome::Incomplete)));
    assert_eq!(acceptor.pending_count(), 1);

    handle.feed(&VALID_REQUEST[40..]);
    let done = acceptor.resume(Notification { token: 7 });
    assert!(matches!(done, ServerResumed::Done(ServerOutcome::Ready(_))));
    assert_eq!(acceptor.pending_count(), 0);
}

#[test]
fn server_counts_two_suspended_connections() {
    let mut acceptor = WebSocketAcceptor::new();
    assert!(matches!(
        acceptor.submit(1, MockStream::with_bytes(&VALID_REQUEST[..10])),
        ServerOutcome::Incomplete
    ));
    assert!(matches!(
        acceptor.submit(2, MockStream::with_bytes(&VALID_REQUEST[..10])),
        ServerOutcome::Incomplete
    ));
    assert_eq!(acceptor.pending_count(), 2);
    assert!(acceptor.is_pending(1));
    assert!(acceptor.is_pending(2));
}

#[test]
fn server_react_dispatches_all_stimuli() {
    let mut acceptor = WebSocketAcceptor::new();

    let emitted = acceptor.react(Reaction::Value((1, MockStream::with_bytes(VALID_REQUEST))));
    assert!(matches!(emitted, Reaction::Value(_)));

    let suspended = acceptor.react(Reaction::Value((2, MockStream::with_bytes(&VALID_REQUEST[..15]))));
    assert!(matches!(suspended, Reaction::Continue));
    assert!(acceptor.is_pending(2));

    let unrelated = acceptor.react(Reaction::Event(Notification { token: 5 }));
    assert!(matches!(unrelated, Reaction::Event(n) if n.token == 5));

    let tick = acceptor.react(Reaction::Continue);
    assert!(matches!(tick, Reaction::Continue));
    assert!(acceptor.is_pending(2));
    assert_eq!(acceptor.pending_count(), 1);
}

#[test]
fn client_submit_ready_with_metadata() {
    let stream = MockStream::replying();
    let handle = stream.clone();
    let mut connector = WebSocketConnector::new();
    let out = connector.submit("ws://localhost/chat".to_string(), 1, stream);
    let response = match out {
        ClientOutcome::Ready(_, response) => response,
        _ => panic!("expected a completed upgrade with metadata"),
    };
    assert_eq!(response.status().as_u16(), 101);
    assert!(response.headers().contains_key("Sec-WebSocket-Accept"));
    assert_eq!(connector.pending_count(), 0);
    // The upgrade request went to the right resource.
    let request = handle.written();
    assert!(String::from_utf8_lossy(&request).starts_with("GET /chat HTTP/1.1\r\n"));
}

#[test]
fn client_multi_round_resumption() {
    let stream = MockStream::new();
    let handle = stream.clone();
    let mut connector = WebSocketConnector::new();

    // The request is written, but the peer has sent nothing back yet.
    let out = connector.submit("ws://localhost/chat".to_string(), 8, stream);
    assert!(matches!(out, ClientOutcome::Incomplete));
    assert!(connector.is_pending(8));

    // Still nothing to read: suspended again, the entry replaced.
    let again = connector.resume(Notification { token: 8 });
    assert!(matches!(again, ClientResumed::Done(ClientOutcome::Incomplete)));
    assert!(connector.is_pending(8));
    assert_eq!(connector.pending_count(), 1);

    // Now the peer answers; the retried handshake completes and cleans up.
    handle.start_replying();
    let done = connector.resume(Notification { token: 8 });
    assert!(matches!(done, ClientResumed::Done(ClientOutcome::Ready(_, _))));
    assert!(!connector.is_pending(8));
    assert_eq!(connector.pending_count(), 0);
}

#[test]
fn client_invalid_target_fails_without_pending_entry() {
    let mut connector = WebSocketConnector::new();
    let out = connector.submit("/chat".to_string(), 2, MockStream::new());
    assert!(matches!(out, ClientOutcome::Failed));
    assert!(!connector.is_pending(2));
    assert_eq!(connector.pending_count(), 0);
}

#[test]
fn client_rejected_upgrade_fails_and_cleans_up() {
    let stream = MockStream::with_bytes(b"HTTP/1.1 404 Not Found\r\nContent-Length: 0\r\n\r\n");
    let mut connector = WebSocketConnector::new();
    let out = connector.submit("ws://localhost/chat".to_string(), 6, stream);
    assert!(matches!(out, ClientOutcome::Failed));
    assert!(!connector.is_pending(6));
    let after = connector.resume(Notification { token: 6 });
    assert!(matches!(after, ClientResumed::PassThrough(n) if n.token == 6));
}

#[test]
fn client_unrelated_notification_passes_through() {
    let mut connector = WebSocketConnector::<MockStream>::new();
    let out = connector.resume(Notification { token: 123 });
    assert!(matches!(out, ClientResumed::PassThrough(n) if n.token == 123));
    assert_eq!(connector.pending_count(), 0);
}

#[test]
fn client_react_dispatches_all_stimuli() {
    let mut connector = WebSocketConnector::new();

    let emitted = connector.react(Reaction::Value((
        "ws://localhost/chat".to_string(),
        1,
        MockStream::replying(),
    )));
    assert!(matches!(emitted, Reaction::Value(_)));

    let suspended = connector.react(Reaction::Value((
        "ws://localhost/chat".to_string(),
        2,
        MockStream::new(),
    )));
    assert!(matches!(suspended, Reaction::Continue));
    assert!(connector.is_pending(2));

    let unrelated = connector.react(Reaction::Event(Notification { token: 9 }));
    assert!(matches!(unrelated, Reaction::Event(n) if n.token == 9));

    let tick = connector.react(Reaction::Continue);
    assert!(matches!(tick, Reaction::Continue));
    assert_eq!(connector.pending_count(), 1);
}
