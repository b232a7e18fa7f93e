use materialized::metrics::{MetricId, MetricsRegistry};
use materialized::mux::Routed;
use materialized::tls::{TlsConfig, TlsMode};
use materialized::{
    coord_settings, serve, Config, ListenAddr, ShutdownAction, StartupError, StartupPhase,
    TelemetryConfig,
};

fn plain_config() -> Config {
    Config {
        workers: 4,
        introspection_frequency_ms: 1_000,
        logical_compaction_window_ms: Some(60_000),
        timestamp_frequency_ms: 100,
        // An ephemeral listen address: port 0 asks the OS to pick one.
        listen_addr: ListenAddr { ip: 0x7f000001, port: 0 },
        tls: None,
        data_directory: String::from("/var/lib/mzdata"),
        symbiosis_url: None,
        experimental_mode: false,
        safe_mode: false,
        telemetry: None,
    }
}

#[test]
fn startup_happy_path_yields_handle_with_nonzero_port() {
    // Scenario: no TLS, ephemeral listen address. The handle's address has
    // the concrete port the bind resolved, never zero.
    let mut registry = MetricsRegistry::new();
    let mut startup = serve(plain_config());
    startup.tls_built(true).unwrap();
    startup.register_metrics(&mut registry).unwrap();
    startup.bound(Some(ListenAddr { ip: 0x7f000001, port: 54_321 })).unwrap();
    startup.coord_started(true).unwrap();
    let mux = startup.spawn_tasks();
    let server = startup.into_server();
    assert_ne!(server.local_addr().port, 0);
    assert_eq!(server.local_addr().port, 54_321);
    // The spawned multiplexer routes each protocol to its handler, and
    // closes a connection that matches neither.
    assert_eq!(mux.route(b"GET /status HTTP/1.1\r\n"), Routed::Claim { index: 1 });
    assert_eq!(mux.route(&[0, 0, 0, 8, 0, 3, 0, 0]), Routed::Claim { index: 0 });
    assert_eq!(mux.route(&[1, 2, 3, 4]), Routed::Close);
}

#[test]
fn tls_failure_aborts_before_anything_is_acquired() {
    let mut startup = serve(plain_config());
    assert_eq!(startup.tls_built(false), Err(StartupError::InvalidTls));
    assert_eq!(startup.phase, StartupPhase::Failed);
    assert!(!startup.listener_held);
    assert!(!startup.mux_spawned);
}

#[test]
fn duplicate_metric_aborts_startup() {
    let mut registry = MetricsRegistry::new();
    registry.register(MetricId::WorkerCount).unwrap();
    let mut startup = serve(plain_config());
    startup.tls_built(true).unwrap();
    assert_eq!(
        startup.register_metrics(&mut registry),
        Err(StartupError::DuplicateMetric)
    );
    assert_eq!(startup.phase, StartupPhase::Failed);
    assert!(!startup.listener_held);
}

#[test]
fn refused_bind_aborts_startup() {
    let mut registry = MetricsRegistry::new();
    let mut startup = serve(plain_config());
    startup.tls_built(true).unwrap();
    startup.register_metrics(&mut registry).unwrap();
    assert_eq!(startup.bound(None), Err(StartupError::BindRefused));
    assert_eq!(startup.phase, StartupPhase::Failed);
    assert!(!startup.listener_held);
}

#[test]
fn coordinator_failure_releases_the_bound_port() {
    // Startup atomicity: when coordinator bootstrap fails, the bound port
    // is released — a subsequent bind to the same address succeeds — and no
    // background task remains, none having been spawned yet.
    let mut registry = MetricsRegistry::new();
    let mut startup = serve(plain_config());
    startup.tls_built(true).unwrap();
    startup.register_metrics(&mut registry).unwrap();
    startup.bound(Some(ListenAddr { ip: 0x7f000001, port: 6_875 })).unwrap();
    assert!(startup.listener_held);
    assert_eq!(startup.coord_started(false), Err(StartupError::CoordFailed));
    assert_eq!(startup.phase, StartupPhase::Failed);
    assert!(!startup.listener_held);
    assert!(!startup.mux_spawned);
    assert!(!startup.uptime_spawned);
    assert!(!startup.telemetry_spawned);
}

#[test]
fn telemetry_loop_is_spawned_exactly_when_configured() {
    let mut registry = MetricsRegistry::new();
    let mut config = plain_config();
    config.telemetry = Some(TelemetryConfig {
        domain: String::from("cloud.materialize.com"),
        interval_ms: 3_600_000,
    });
    let mut startup = serve(config);
    startup.tls_built(true).unwrap();
    startup.register_metrics(&mut registry).unwrap();
    startup.bound(Some(ListenAddr { ip: 0, port: 1_234 })).unwrap();
    startup.coord_started(true).unwrap();
    let _mux = startup.spawn_tasks();
    assert!(startup.telemetry_spawned);

    let mut registry2 = MetricsRegistry::new();
    let mut startup2 = serve(plain_config());
    startup2.tls_built(true).unwrap();
    startup2.register_metrics(&mut registry2).unwrap();
    startup2.bound(Some(ListenAddr { ip: 0, port: 1_235 })).unwrap();
    startup2.coord_started(true).unwrap();
    let _mux2 = startup2.spawn_tasks();
    assert!(!startup2.telemetry_spawned);
}

#[test]
fn tls_policies_are_wired_into_the_registry() {
    let mut registry = MetricsRegistry::new();
    let mut config = plain_config();
    config.tls = Some(TlsConfig {
        mode: TlsMode::VerifyFull { ca: String::from("/etc/ca.crt") },
        cert: String::from("/etc/server.crt"),
        key: String::from("/etc/server.key"),
    });
    let mut startup = serve(config);
    startup.tls_built(true).unwrap();
    startup.register_metrics(&mut registry).unwrap();
    startup.bound(Some(ListenAddr { ip: 0, port: 6_875 })).unwrap();
    startup.coord_started(true).unwrap();
    let mux = startup.spawn_tasks();
    // Both handlers are registered, in the fixed order.
    assert_eq!(mux.route(&[0, 0, 0, 8, 0, 3, 0, 0]), Routed::Claim { index: 0 });
    assert_eq!(mux.route(b"GET / HTTP/1.1\r\n"), Routed::Claim { index: 1 });
}

#[test]
fn shutdown_fires_drain_then_releases_coordinator() {
    let mut registry = MetricsRegistry::new();
    let mut startup = serve(plain_config());
    startup.tls_built(true).unwrap();
    startup.register_metrics(&mut registry).unwrap();
    startup.bound(Some(ListenAddr { ip: 0, port: 6_875 })).unwrap();
    startup.coord_started(true).unwrap();
    let _mux = startup.spawn_tasks();
    let mut server = startup.into_server();
    let addr_before = server.local_addr();
    let acts = server.shutdown();
    assert_eq!(
        acts,
        vec![ShutdownAction::FireDrain, ShutdownAction::ReleaseCoordinator]
    );
    assert_eq!(server.local_addr(), addr_before);
}

#[test]
fn coord_settings_copies_the_configuration() {
    let mut config = plain_config();
    config.symbiosis_url = Some(String::from("postgres://localhost:5432"));
    let s = coord_settings(&config);
    assert_eq!(s.workers, 4);
    assert_eq!(s.symbiosis_url.as_deref(), Some("postgres://localhost:5432"));
    assert_eq!(s.data_directory, "/var/lib/mzdata");
    assert_eq!(s.timestamp_frequency_ms, 100);
    assert_eq!(s.logical_compaction_window_ms, Some(60_000));
    assert!(!s.experimental_mode);
    assert!(!s.safe_mode);
}
