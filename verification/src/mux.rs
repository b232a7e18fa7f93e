//! The connection multiplexer.
//!
//! The multiplexer owns a fixed, ordered registry of protocol handlers and
//! the tripwire end of the drain signal. For each accepted connection it
//! inspects a bounded prefix of the connection's bytes — a peek, consuming
//! nothing — and hands the connection to the first handler, in registration
//! order, whose sniff predicate matches. A connection matching no handler is
//! closed immediately with no protocol-level response. Once the drain signal
//! fires, no new connection is accepted, but connections already dispatched
//! are left to finish naturally.

use vstd::prelude::*;
use vstd::seq_lib::*;

use crate::drain::DrainSignal;
use crate::tls::{HttpTlsMode, PgwireTlsMode};

verus! {

/// How many bytes of a connection are peeked to identify its protocol:
/// enough for a Postgres-style startup header (eight bytes) and for an
/// HTTP request line's method token (four bytes).
pub const SNIFF_LEN: usize = 8;

/// The Postgres-style startup request for protocol version 3.0.
pub const VERSION_3: u32 = 196608;
/// The Postgres-style cancellation request code.
pub const VERSION_CANCEL: u32 = 80877102;
/// The Postgres-style TLS negotiation request code.
pub const VERSION_SSL: u32 = 80877103;
/// The Postgres-style GSSAPI encryption request code.
pub const VERSION_GSSENC: u32 = 80877104;

/// One registered protocol handler: the tag selects the sniff predicate and
/// the serve entrypoint, and each handler carries the TLS strictness policy
/// it must apply (`None` when the server runs without TLS).
#[derive(Clone, Copy, Debug)]
pub enum Handler {
    /// The Postgres-style wire-protocol handler.
    Pgwire {
        /// The TLS policy this handler enforces, if TLS is configured.
        tls: Option<PgwireTlsMode>,
    },
    /// The HTTP API handler.
    Http {
        /// The TLS policy this handler enforces, if TLS is configured.
        tls: Option<HttpTlsMode>,
    },
}

/// The outcome of sniffing one connection: either the handler at `index`
/// (in registration order) claims it, or no handler does and the connection
/// is closed with no protocol-level response.
#[derive(Clone, Copy, Debug, PartialEq, Eq, Structural)]
pub enum Routed {
    /// The handler at this position of the registry claims the connection.
    Claim {
        /// The position, in registration order, of the claiming handler.
        index: usize,
    },
    /// No handler matched within the bounded prefix; the connection is
    /// closed immediately, with nothing written to it.
    Close,
}

/// The 32-bit big-endian value held in bytes `i..i + 4` of `s`.
pub open spec fn be_u32_at(s: Seq<u8>, i: int) -> int
    recommends
        0 <= i,
        i + 4 <= s.len(),
{
    (s[i] as int) * 0x1000000 + (s[i + 1] as int) * 0x10000 + (s[i + 2] as int) * 0x100 + (s[i
        + 3] as int)
}

/// Whether `v` is one of the request codes that open a Postgres-style
/// conversation.
pub open spec fn is_pgwire_version(v: int) -> bool {
    v == VERSION_3 || v == VERSION_CANCEL || v == VERSION_SSL || v == VERSION_GSSENC
}

/// The Postgres-style sniff predicate: the prefix holds a full eight-byte
/// startup header whose second word is a recognized request code.
pub open spec fn pgwire_frame(s: Seq<u8>) -> bool {
    s.len() >= 8 && is_pgwire_version(be_u32_at(s, 4))
}

/// Whether `s` begins with the four given bytes.
pub open spec fn has4(s: Seq<u8>, a: u8, b: u8, c: u8, d: u8) -> bool {
    s.len() >= 4 && s[0] == a && s[1] == b && s[2] == c && s[3] == d
}

/// The HTTP sniff predicate: the prefix begins with the first four bytes of
/// an HTTP request line, that is with a method token (`GET `, `HEAD`, `POST`,
/// `PUT `, `DELE`, `OPTI`, `PATC`, `CONN` or `TRAC`).
pub open spec fn http_request_line(s: Seq<u8>) -> bool {
    ||| has4(s, 71, 69, 84, 32)  // "GET "
    ||| has4(s, 72, 69, 65, 68)  // "HEAD"
    ||| has4(s, 80, 79, 83, 84)  // "POST"
    ||| has4(s, 80, 85, 84, 32)  // "PUT "
    ||| has4(s, 68, 69, 76, 69)  // "DELE"
    ||| has4(s, 79, 80, 84, 73)  // "OPTI"
    ||| has4(s, 80, 65, 84, 67)  // "PATC"
    ||| has4(s, 67, 79, 78, 78)  // "CONN"
    ||| has4(s, 84, 82, 65, 67)  // "TRAC"
}

/// Whether the handler `h` claims a connection whose bytes begin with `s`.
pub open spec fn handler_matches(h: Handler, s: Seq<u8>) -> bool {
    match h {
        Handler::Pgwire { .. } => pgwire_frame(s),
        Handler::Http { .. } => http_request_line(s),
    }
}

/// The bounded prefix that sniffing is allowed to look at: the first
/// [`SNIFF_LEN`] bytes, or all of them if fewer have arrived.
pub open spec fn sniff_prefix(s: Seq<u8>) -> Seq<u8> {
    if s.len() <= SNIFF_LEN {
        s
    } else {
        s.take(SNIFF_LEN as int)
    }
}

/// The first handler at or after position `i`, in registration order, that
/// matches `s`; [`Routed::Close`] if none does.
pub open spec fn first_match_from(handlers: Seq<Handler>, s: Seq<u8>, i: int) -> Routed
    decreases handlers.len() - i,
{
    if i < 0 || i >= handlers.len() {
        Routed::Close
    } else if handler_matches(handlers[i], s) {
        Routed::Claim { index: i as usize }
    } else {
        first_match_from(handlers, s, i + 1)
    }
}

/// Where a connection whose bytes are `s` is routed by the registry
/// `handlers`: to the first matching handler in registration order, or
/// closed if none matches.
pub open spec fn route_spec(handlers: Seq<Handler>, s: Seq<u8>) -> Routed {
    first_match_from(handlers, s, 0)
}

/// The decision taken for every connection of a batch, each from its own
/// bytes alone.
pub open spec fn route_all(handlers: Seq<Handler>, conns: Seq<Seq<u8>>) -> Seq<Routed> {
    conns.map_values(|c: Seq<u8>| route_spec(handlers, c))
}

/// Reads the big-endian word in bytes `4..8` of a prefix.
fn read_be_u32_at_4(p: &[u8]) -> (v: u32)
    requires
        p@.len() >= 8,
    ensures
        v as int == be_u32_at(p@, 4),
{
    (p[4] as u32) * 0x1000000 + (p[5] as u32) * 0x10000 + (p[6] as u32) * 0x100 + (p[7] as u32)
}

/// Whether `p` begins with the four given bytes.
fn starts4(p: &[u8], a: u8, b: u8, c: u8, d: u8) -> (r: bool)
    ensures
        r == has4(p@, a, b, c, d),
{
    p.len() >= 4 && p[0] == a && p[1] == b && p[2] == c && p[3] == d
}

/// The Postgres-style sniff predicate on a peeked prefix.
pub fn sniff_pgwire(p: &[u8]) -> (r: bool)
    ensures
        r == pgwire_frame(p@),
{
    if p.len() < 8 {
        return false;
    }
    let v = read_be_u32_at_4(p);
    v == VERSION_3 || v == VERSION_CANCEL || v == VERSION_SSL || v == VERSION_GSSENC
}

/// The HTTP sniff predicate on a peeked prefix.
pub fn sniff_http(p: &[u8]) -> (r: bool)
    ensures
        r == http_request_line(p@),
{
    starts4(p, 71, 69, 84, 32) || starts4(p, 72, 69, 65, 68) || starts4(p, 80, 79, 83, 84)
        || starts4(p, 80, 85, 84, 32) || starts4(p, 68, 69, 76, 69) || starts4(p, 79, 80, 84, 73)
        || starts4(p, 80, 65, 84, 67) || starts4(p, 67, 79, 78, 78) || starts4(p, 84, 82, 65, 67)
}

/// Evaluates one handler's sniff predicate against a peeked prefix.
/// Sniffing is deterministic, side-effect free, and consumes nothing.
pub fn sniff(h: &Handler, p: &[u8]) -> (r: bool)
    ensures
        r == handler_matches(*h, p@),
{
    match h {
        Handler::Pgwire { .. } => sniff_pgwire(p),
        Handler::Http { .. } => sniff_http(p),
    }
}

/// A handler's sniff predicate reads nothing beyond the bounded prefix:
/// whether it matches is the same on the full byte stream and on the first
/// [`SNIFF_LEN`] bytes of it.
proof fn lemma_matches_prefix_only(h: Handler, a: Seq<u8>, b: Seq<u8>)
    requires
        sniff_prefix(a) == sniff_prefix(b),
    ensures
        handler_matches(h, a) == handler_matches(h, b),
{
    let pa = sniff_prefix(a);
    let pb = sniff_prefix(b);
    assert forall|k: int| 0 <= k < pa.len() implies pa[k] == a[k] by {}
    assert forall|k: int| 0 <= k < pb.len() implies pb[k] == b[k] by {}
    assert(a.len() >= 8 <==> pa.len() >= 8);
    assert(b.len() >= 8 <==> pb.len() >= 8);
    assert(a.len() >= 4 <==> pa.len() >= 4);
    assert(b.len() >= 4 <==> pb.len() >= 4);
}

/// The helper behind [`lemma_route_determined_by_prefix`], over every
/// starting position of the registry scan.
proof fn lemma_first_match_prefix_only(handlers: Seq<Handler>, a: Seq<u8>, b: Seq<u8>, i: int)
    requires
        sniff_prefix(a) == sniff_prefix(b),
    ensures
        first_match_from(handlers, a, i) == first_match_from(handlers, b, i),
    decreases handlers.len() - i,
{
    if 0 <= i < handlers.len() {
        lemma_matches_prefix_only(handlers[i], a, b);
        if !handler_matches(handlers[i], a) {
            lemma_first_match_prefix_only(handlers, a, b, i + 1);
        }
    }
}

/// Determinism of sniffing: for a fixed handler registration order, the
/// routing decision is a function of the first [`SNIFF_LEN`] bytes alone.
/// Two connections whose bounded prefixes agree are routed identically,
/// whatever follows the prefix on either.
pub proof fn lemma_route_determined_by_prefix(handlers: Seq<Handler>, a: Seq<u8>, b: Seq<u8>)
    requires
        sniff_prefix(a) == sniff_prefix(b),
    ensures
        route_spec(handlers, a) == route_spec(handlers, b),
{
    lemma_first_match_prefix_only(handlers, a, b, 0);
}

/// The helper behind [`lemma_route_first_match`], over every starting
/// position of the registry scan.
proof fn lemma_first_match_characterization(handlers: Seq<Handler>, s: Seq<u8>, i: int)
    requires
        0 <= i <= handlers.len(),
        handlers.len() <= usize::MAX,
    ensures
        ({
            let r = first_match_from(handlers, s, i);
            &&& (r matches Routed::Claim { index } ==> i <= index < handlers.len()
                && handler_matches(handlers[index as int], s) && (forall|j: int|
                i <= j < index ==> !handler_matches(handlers[j], s)))
            &&& (r is Close ==> forall|j: int|
                i <= j < handlers.len() ==> !handler_matches(handlers[j], s))
        }),
    decreases handlers.len() - i,
{
    if i < handlers.len() && !handler_matches(handlers[i], s) {
        lemma_first_match_characterization(handlers, s, i + 1);
        let r = first_match_from(handlers, s, i);
        assert(r == first_match_from(handlers, s, i + 1));
        match r {
            Routed::Claim { index } => {
                assert forall|j: int| i <= j < index implies !handler_matches(
                    handlers[j],
                    s,
                ) by {
                    if j != i {
                        assert(i + 1 <= j < index);
                    }
                }
            },
            Routed::Close => {
                assert forall|j: int| i <= j < handlers.len() implies !handler_matches(
                    handlers[j],
                    s,
                ) by {
                    if j != i {
                        assert(i + 1 <= j < handlers.len());
                    }
                }
            },
        }
    }
}

/// First match claims: the routing decision names a handler exactly when it
/// is the earliest one, in registration order, whose sniff predicate
/// matches; a close decision means no registered handler matched.
pub proof fn lemma_route_first_match(handlers: Seq<Handler>, s: Seq<u8>)
    requires
        handlers.len() <= usize::MAX,
    ensures
        ({
            let r = route_spec(handlers, s);
            &&& (r matches Routed::Claim { index } ==> index < handlers.len()
                && handler_matches(handlers[index as int], s) && (forall|j: int|
                0 <= j < index ==> !handler_matches(handlers[j], s)))
            &&& (r is Close ==> forall|j: int|
                0 <= j < handlers.len() ==> !handler_matches(handlers[j], s))
        }),
{
    lemma_first_match_characterization(handlers, s, 0);
}

/// Isolation: in a batch of simultaneous connections, each connection's
/// routing decision is computed from its own bytes and the fixed registry
/// alone. Changing every other connection of the batch cannot change it.
pub proof fn lemma_connection_isolation(
    handlers: Seq<Handler>,
    a: Seq<Seq<u8>>,
    b: Seq<Seq<u8>>,
    i: int,
)
    requires
        0 <= i < a.len(),
        0 <= i < b.len(),
        a[i] == b[i],
    ensures
        route_all(handlers, a)[i] == route_spec(handlers, a[i]),
        route_all(handlers, a)[i] == route_all(handlers, b)[i],
{
}

/// Drain asymmetry: firing the tripwire refuses all new work — the
/// multiplexer is complete and accepts nothing further — while the handler
/// registry and every connection already dispatched are untouched and may
/// finish naturally.
pub proof fn lemma_drain_property(pre: Mux, post: Mux)
    requires
        drain_transition(pre, post),
    ensures
        !post.accepting(),
        post.complete(),
        post.inflight_count() == pre.inflight_count(),
        post.handler_seq() == pre.handler_seq(),
{
}

/// The connection multiplexer: a fixed, ordered handler registry, the
/// tripwire of the drain signal, and a count of the connections dispatched
/// but not yet finished.
#[derive(Debug)]
pub struct Mux {
    handlers: Vec<Handler>,
    drain: DrainSignal,
    inflight: u64,
}

/// The drain transition as the multiplexer promises it: the tripwire is now
/// fired, and neither the registry nor the connections already in flight are
/// touched.
pub open spec fn drain_transition(pre: Mux, post: Mux) -> bool {
    &&& !post.accepting()
    &&& post.handler_seq() == pre.handler_seq()
    &&& post.inflight_count() == pre.inflight_count()
}

impl Mux {
    /// The handler registry, in registration order.
    pub closed spec fn handler_seq(self) -> Seq<Handler> {
        self.handlers@
    }

    /// Whether the accept loop is still pulling new connections: exactly
    /// until the drain tripwire fires.
    pub closed spec fn accepting(self) -> bool {
        !self.drain.is_fired()
    }

    /// The number of connections dispatched and not yet finished.
    pub closed spec fn inflight_count(self) -> u64 {
        self.inflight
    }

    /// Whether the multiplexer is complete: the listener is abandoned and no
    /// further accept occurs. Completion is independent of whether in-flight
    /// connections have finished.
    pub open spec fn complete(self) -> bool {
        !self.accepting()
    }

    /// A multiplexer with an empty registry, an unfired tripwire and no
    /// connection in flight.
    pub fn new() -> (m: Mux)
        ensures
            m.handler_seq() == Seq::<Handler>::empty(),
            m.accepting(),
            m.inflight_count() == 0,
    {
        Mux { handlers: Vec::new(), drain: DrainSignal::new(), inflight: 0 }
    }

    /// Appends a handler to the registry. Registration order is sniff
    /// precedence and is fixed before the accept loop starts.
    pub fn add_handler(&mut self, h: Handler)
        ensures
            final(self).handler_seq() == old(self).handler_seq().push(h),
            final(self).accepting() == old(self).accepting(),
            final(self).inflight_count() == old(self).inflight_count(),
    {
        self.handlers.push(h);
    }

    /// Whether the accept loop may pull another connection from the
    /// listener.
    pub fn should_accept(&self) -> (r: bool)
        ensures
            r == self.accepting(),
    {
        !self.drain.has_fired()
    }

    /// The number of connections dispatched and not yet finished.
    pub fn inflight(&self) -> (n: u64)
        ensures
            n == self.inflight_count(),
    {
        self.inflight
    }

    /// Records that one connection was pulled from the listener and its
    /// task dispatched.
    pub fn conn_accepted(&mut self)
        requires
            old(self).accepting(),
            old(self).inflight_count() < u64::MAX,
        ensures
            final(self).inflight_count() == old(self).inflight_count() + 1,
            final(self).handler_seq() == old(self).handler_seq(),
            final(self).accepting() == old(self).accepting(),
    {
        self.inflight = self.inflight + 1;
    }

    /// Records that one dispatched connection finished its lifecycle. This
    /// needs no permission from the drain signal: existing work is allowed
    /// to finish after the tripwire fires.
    pub fn conn_finished(&mut self)
        requires
            old(self).inflight_count() > 0,
        ensures
            final(self).inflight_count() == old(self).inflight_count() - 1,
            final(self).handler_seq() == old(self).handler_seq(),
            final(self).accepting() == old(self).accepting(),
    {
        self.inflight = self.inflight - 1;
    }

    /// Fires the drain tripwire: the accept loop stops pulling new
    /// connections, while the registry and every connection already in
    /// flight are left untouched.
    pub fn drain(&mut self)
        requires
            old(self).accepting(),
        ensures
            drain_transition(*old(self), *final(self)),
    {
        self.drain.fire();
    }

    /// Routes one connection from its peeked bytes: the first handler in
    /// registration order whose sniff predicate matches claims it; if none
    /// matches, the connection is to be closed with nothing written. The
    /// connection's bytes are only read, never consumed, so the claiming
    /// handler sees the full, un-truncated stream.
    pub fn route(&self, conn: &[u8]) -> (d: Routed)
        ensures
            d == route_spec(self.handler_seq(), conn@),
    {
        let n = self.handlers.len();
        let mut i: usize = 0;
        while i < n
            invariant
                n == self.handlers.len(),
                i <= n,
                route_spec(self.handlers@, conn@) == first_match_from(self.handlers@, conn@, i as int),
            decreases n - i,
        {
            if sniff(&self.handlers[i], conn) {
                return Routed::Claim { index: i };
            }
            i = i + 1;
        }
        Routed::Close
    }
}

} // verus!
