use materialized::mux::{sniff, sniff_http, sniff_pgwire, Handler, Mux, Routed};

const PGWIRE_STARTUP: [u8; 8] = [0, 0, 0, 8, 0, 3, 0, 0]; // protocol 3.0
const PGWIRE_SSL_REQUEST: [u8; 8] = [0, 0, 0, 8, 4, 210, 22, 47]; // code 80877103
const PGWIRE_CANCEL: [u8; 8] = [0, 0, 0, 16, 4, 210, 22, 46]; // code 80877102
const PGWIRE_GSSENC: [u8; 8] = [0, 0, 0, 8, 4, 210, 22, 48]; // code 80877104

fn standard_mux() -> Mux {
    let mut m = Mux::new();
    m.add_handler(Handler::Pgwire { tls: None });
    m.add_handler(Handler::Http { tls: None });
    m
}

#[test]
fn pgwire_sniff_recognizes_startup_codes() {
    assert!(sniff_pgwire(&PGWIRE_STARTUP));
    assert!(sniff_pgwire(&PGWIRE_SSL_REQUEST));
    assert!(sniff_pgwire(&PGWIRE_CANCEL));
    assert!(sniff_pgwire(&PGWIRE_GSSENC));
    // A header that is too short, or whose code is unknown, does not match.
    assert!(!sniff_pgwire(&[0, 0, 0, 8]));
    assert!(!sniff_pgwire(&[0, 0, 0, 8, 0, 9, 9, 9]));
}

#[test]
fn http_sniff_recognizes_request_lines() {
    assert!(sniff_http(b"GET / HTTP/1.1\r\n"));
    assert!(sniff_http(b"POST /api/sql HTTP/1.1\r\n"));
    assert!(sniff_http(b"HEAD"));
    assert!(sniff_http(b"PUT /x"));
    assert!(sniff_http(b"DELETE /x HTTP/1.1"));
    assert!(sniff_http(b"OPTIONS * HTTP/1.1"));
    assert!(!sniff_http(b"QUIT"));
    assert!(!sniff_http(b"GE"));
    assert!(!sniff_http(&PGWIRE_STARTUP));
}

#[test]
fn http_request_is_routed_to_http_handler() {
    let m = standard_mux();
    assert_eq!(m.route(b"GET /status HTTP/1.1\r\n"), Routed::Claim { index: 1 });
}

#[test]
fn pgwire_startup_is_routed_to_pgwire_handler() {
    let m = standard_mux();
    assert_eq!(m.route(&PGWIRE_STARTUP), Routed::Claim { index: 0 });
    assert_eq!(m.route(&PGWIRE_SSL_REQUEST), Routed::Claim { index: 0 });
}

#[test]
fn unmatched_bytes_close_the_connection() {
    let m = standard_mux();
    // Four arbitrary bytes that open neither protocol: closed, nothing sent.
    assert_eq!(m.route(&[0xde, 0xad, 0xbe, 0xef]), Routed::Close);
    assert_eq!(m.route(&[]), Routed::Close);
}

#[test]
fn routing_is_deterministic_in_the_prefix() {
    // Determinism: a fixed registration order and a fixed byte prefix
    // always select the same handler, whatever follows the prefix.
    let m = standard_mux();
    let first = m.route(&PGWIRE_STARTUP);
    for _ in 0..100 {
        assert_eq!(m.route(&PGWIRE_STARTUP), first);
    }
    let mut long = PGWIRE_STARTUP.to_vec();
    long.extend_from_slice(b"user=materialize");
    assert_eq!(m.route(&long), first);
}

#[test]
fn registration_order_is_sniff_precedence() {
    // With the HTTP handler registered first, an HTTP request line is
    // claimed by index 0 instead: the first match in order wins.
    let mut m = Mux::new();
    m.add_handler(Handler::Http { tls: None });
    m.add_handler(Handler::Pgwire { tls: None });
    assert_eq!(m.route(b"GET / HTTP/1.1\r\n"), Routed::Claim { index: 0 });
    assert_eq!(m.route(&PGWIRE_STARTUP), Routed::Claim { index: 1 });
}

#[test]
fn sniffing_consumes_nothing() {
    // The sniff predicate only peeks: the buffer is untouched afterwards,
    // so the claiming handler sees the full, un-truncated stream.
    let m = standard_mux();
    let conn = b"GET /metrics HTTP/1.1\r\nHost: localhost\r\n\r\n".to_vec();
    let before = conn.clone();
    let _ = m.route(&conn);
    let h = Handler::Pgwire { tls: None };
    let _ = sniff(&h, &conn);
    assert_eq!(conn, before);
}

#[test]
fn thousands_of_concurrent_style_connections_resolve_independently() {
    // Isolation: a large batch, half speaking each protocol, resolves each
    // connection to its own handler with no cross-talk.
    let m = standard_mux();
    let mut decisions = Vec::new();
    for i in 0..4096u32 {
        if i % 2 == 0 {
            decisions.push(m.route(&PGWIRE_STARTUP));
        } else {
            decisions.push(m.route(b"POST /api/sql HTTP/1.1\r\n"));
        }
    }
    for (i, d) in decisions.iter().enumerate() {
        if i % 2 == 0 {
            assert_eq!(*d, Routed::Claim { index: 0 });
        } else {
            assert_eq!(*d, Routed::Claim { index: 1 });
        }
    }
}

#[test]
fn drain_refuses_new_work_and_keeps_inflight() {
    // Drain property: before the signal, connections are accepted; after
    // it, no new connection is, while already-dispatched connections still
    // finish their normal lifecycle.
    let mut m = standard_mux();
    assert!(m.should_accept());
    m.conn_accepted();
    m.conn_accepted();
    m.drain();
    assert!(!m.should_accept());
    // The two in-flight connections are unaffected and finish naturally.
    m.conn_finished();
    m.conn_finished();
}
