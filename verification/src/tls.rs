//! TLS policy translation.
//!
//! A single TLS configuration (a mode plus certificate, key and optional CA
//! paths) is turned into one immutable context plan — what the process must
//! load into its TLS library exactly once, before any connection is accepted —
//! plus a per-protocol authentication-strictness policy for each of the two
//! registered protocol handlers.

use vstd::prelude::*;

verus! {

/// How strictly to enforce TLS encryption and authentication.
#[derive(Clone, Debug)]
pub enum TlsMode {
    /// Require that all clients connect with TLS, but do not require that
    /// they present a client certificate.
    Require,
    /// Require that clients connect with TLS and present a certificate that
    /// is signed by the specified CA.
    VerifyCa {
        /// The path to a TLS certificate authority.
        ca: String,
    },
    /// Like `VerifyCa`, but the certificate's subject name must additionally
    /// match the user named in the connection request.
    VerifyFull {
        /// The path to a TLS certificate authority.
        ca: String,
    },
}

/// TLS encryption configuration for connections.
#[derive(Clone, Debug)]
pub struct TlsConfig {
    /// The TLS mode to use.
    pub mode: TlsMode,
    /// The path to the TLS certificate.
    pub cert: String,
    /// The path to the TLS key.
    pub key: String,
}

/// The TLS strictness policy of the Postgres-style wire-protocol handler.
#[derive(Clone, Copy, Debug, PartialEq, Eq, Structural)]
pub enum PgwireTlsMode {
    /// Clients must use TLS; no identity is taken from the certificate.
    Require,
    /// Clients must use TLS and name a user themselves; the name is trusted
    /// only if it matches a verified peer certificate.
    VerifyUser,
}

/// The TLS strictness policy of the HTTP handler.
#[derive(Clone, Copy, Debug, PartialEq, Eq, Structural)]
pub enum HttpTlsMode {
    /// Clients must use TLS; no identity is taken from the certificate.
    Require,
    /// Clients must use TLS; the user identity is derived directly from the
    /// verified peer certificate's subject name.
    AssumeUser,
}

impl TlsMode {
    /// Whether this mode demands a verified peer certificate.
    pub open spec fn verifies_peer(self) -> bool {
        match self {
            TlsMode::Require => false,
            TlsMode::VerifyCa { .. } => true,
            TlsMode::VerifyFull { .. } => true,
        }
    }

    /// The CA path carried by this mode, if any. Only the two verifying
    /// modes carry one; `Require` never does.
    pub open spec fn ca_path(self) -> Option<Seq<char>> {
        match self {
            TlsMode::Require => None,
            TlsMode::VerifyCa { ca } => Some(ca@),
            TlsMode::VerifyFull { ca } => Some(ca@),
        }
    }

    /// The strictness the Postgres-style handler must apply under this mode.
    pub open spec fn pgwire_policy(self) -> PgwireTlsMode {
        match self {
            TlsMode::Require => PgwireTlsMode::Require,
            TlsMode::VerifyCa { .. } => PgwireTlsMode::Require,
            TlsMode::VerifyFull { .. } => PgwireTlsMode::VerifyUser,
        }
    }

    /// The strictness the HTTP handler must apply under this mode.
    pub open spec fn http_policy(self) -> HttpTlsMode {
        match self {
            TlsMode::Require => HttpTlsMode::Require,
            TlsMode::VerifyCa { .. } => HttpTlsMode::Require,
            TlsMode::VerifyFull { .. } => HttpTlsMode::AssumeUser,
        }
    }
}

/// Everything the process must feed its TLS library to build the one shared
/// server context: which files to load and whether to demand and verify a
/// peer certificate. Constructed once from a [`TlsConfig`]; any failure to
/// load this material aborts startup and is never deferred to a connection.
#[derive(Clone, Debug)]
pub struct TlsContextPlan {
    /// The path to the server certificate to load.
    pub cert: String,
    /// The path to the server private key to load.
    pub key: String,
    /// The CA to load, when a peer certificate is to be verified.
    pub ca: Option<String>,
    /// Whether the handshake must require and verify a peer certificate,
    /// rejecting the connection if it is absent or invalid.
    pub verify_peer: bool,
}

/// The outcome of translating one TLS configuration: the shared context plan
/// and the derived per-protocol policies.
#[derive(Clone, Debug)]
pub struct TlsPolicies {
    /// The plan for the single shared TLS server context.
    pub context: TlsContextPlan,
    /// The policy handed to the Postgres-style handler.
    pub pgwire: PgwireTlsMode,
    /// The policy handed to the HTTP handler.
    pub http: HttpTlsMode,
}

/// Whether `p` is exactly the translation of the TLS configuration `c`:
/// the per-protocol policies of the mapping table, and a context plan that
/// loads `c`'s certificate and key and verifies a peer certificate against
/// `c`'s CA precisely under the two verifying modes.
pub open spec fn policies_match(c: TlsConfig, p: TlsPolicies) -> bool {
    &&& p.pgwire == c.mode.pgwire_policy()
    &&& p.http == c.mode.http_policy()
    &&& p.context.cert@ == c.cert@
    &&& p.context.key@ == c.key@
    &&& p.context.ca.deep_view() == c.mode.ca_path()
    &&& p.context.verify_peer == c.mode.verifies_peer()
}

/// Translates a TLS configuration into the shared context plan and the two
/// per-protocol policies.
pub fn derive_tls_policies(config: &TlsConfig) -> (r: TlsPolicies)
    ensures
        policies_match(*config, r),
{
    let ca: Option<String> = match &config.mode {
        TlsMode::Require => None,
        TlsMode::VerifyCa { ca } => Some(ca.clone()),
        TlsMode::VerifyFull { ca } => Some(ca.clone()),
    };
    let verify_peer = match &config.mode {
        TlsMode::Require => false,
        TlsMode::VerifyCa { .. } => true,
        TlsMode::VerifyFull { .. } => true,
    };
    let pgwire = match &config.mode {
        TlsMode::Require => PgwireTlsMode::Require,
        TlsMode::VerifyCa { .. } => PgwireTlsMode::Require,
        TlsMode::VerifyFull { .. } => PgwireTlsMode::VerifyUser,
    };
    let http = match &config.mode {
        TlsMode::Require => HttpTlsMode::Require,
        TlsMode::VerifyCa { .. } => HttpTlsMode::Require,
        TlsMode::VerifyFull { .. } => HttpTlsMode::AssumeUser,
    };
    TlsPolicies {
        context: TlsContextPlan { cert: config.cert.clone(), key: config.key.clone(), ca, verify_peer },
        pgwire,
        http,
    }
}

/// The TLS-mode mapping table, stated in full: under `Require` and `VerifyCa`
/// both handlers merely require TLS; only `VerifyFull` makes the Postgres-style
/// handler check the named user against the peer certificate and lets the HTTP
/// handler take its user identity from the certificate. A peer certificate is
/// demanded exactly under the two verifying modes, and exactly those modes
/// carry a CA path.
pub proof fn lemma_tls_mode_table(m: TlsMode)
    ensures
        m is Require ==> m.pgwire_policy() == PgwireTlsMode::Require
            && m.http_policy() == HttpTlsMode::Require
            && !m.verifies_peer()
            && m.ca_path() is None,
        m is VerifyCa ==> m.pgwire_policy() == PgwireTlsMode::Require
            && m.http_policy() == HttpTlsMode::Require
            && m.verifies_peer()
            && m.ca_path() is Some,
        m is VerifyFull ==> m.pgwire_policy() == PgwireTlsMode::VerifyUser
            && m.http_policy() == HttpTlsMode::AssumeUser
            && m.verifies_peer()
            && m.ca_path() is Some,
        m.verifies_peer() <==> m.ca_path() is Some,
{
}

} // verus!
