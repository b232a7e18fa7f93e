use materialized::tls::{derive_tls_policies, HttpTlsMode, PgwireTlsMode, TlsConfig, TlsMode};

fn config_with(mode: TlsMode) -> TlsConfig {
    TlsConfig {
        mode,
        cert: String::from("/etc/server.crt"),
        key: String::from("/etc/server.key"),
    }
}

#[test]
fn require_mode_maps_to_require_policies() {
    let p = derive_tls_policies(&config_with(TlsMode::Require));
    assert_eq!(p.pgwire, PgwireTlsMode::Require);
    assert_eq!(p.http, HttpTlsMode::Require);
    assert!(!p.context.verify_peer);
    assert!(p.context.ca.is_none());
    assert_eq!(p.context.cert, "/etc/server.crt");
    assert_eq!(p.context.key, "/etc/server.key");
}

#[test]
fn verify_ca_mode_requires_peer_cert_but_no_identity() {
    let p = derive_tls_policies(&config_with(TlsMode::VerifyCa {
        ca: String::from("/etc/ca.crt"),
    }));
    assert_eq!(p.pgwire, PgwireTlsMode::Require);
    assert_eq!(p.http, HttpTlsMode::Require);
    assert!(p.context.verify_peer);
    assert_eq!(p.context.ca.as_deref(), Some("/etc/ca.crt"));
}

#[test]
fn verify_full_mode_derives_identity_per_protocol() {
    let p = derive_tls_policies(&config_with(TlsMode::VerifyFull {
        ca: String::from("/etc/ca.crt"),
    }));
    assert_eq!(p.pgwire, PgwireTlsMode::VerifyUser);
    assert_eq!(p.http, HttpTlsMode::AssumeUser);
    assert!(p.context.verify_peer);
    assert_eq!(p.context.ca.as_deref(), Some("/etc/ca.crt"));
}
