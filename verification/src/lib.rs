//! Connection front-end of a SQL stream-processing server.
//!
//! This crate owns the decision logic of the layer that accepts raw TCP
//! connections, determines which application wire protocol each one speaks,
//! hands it to the matching protocol handler, and coordinates graceful
//! shutdown. Everything here is ordinary data and pure decisions; the
//! surrounding process supplies the sockets, the TLS library, the
//! coordinator and the task runtime, and drives the state machines defined
//! here, performing each step's outside work and reporting its outcome.

use vstd::prelude::*;

pub mod drain;
pub mod metrics;
pub mod mux;
pub mod tls;

pub use tls::TlsConfig;
pub use tls::TlsMode;

use crate::drain::DrainSignal;
use crate::metrics::Metrics;
use crate::metrics::MetricsRegistry;
use crate::metrics::process_ids_fresh;
use crate::mux::Handler;
use crate::mux::Mux;
use crate::tls::HttpTlsMode;
use crate::tls::PgwireTlsMode;
use crate::tls::TlsPolicies;
use crate::tls::derive_tls_policies;
use crate::tls::policies_match;

verus! {

/// A listening or bound socket address, reduced to what the front-end's
/// logic reads: a host (IPv4, as its four octets packed big-endian) and a
/// port. Port `0` in a configuration requests an ephemeral port; a bound
/// socket always reports a concrete, non-zero port.
#[derive(Clone, Copy, Debug, PartialEq, Eq, Structural)]
pub struct ListenAddr {
    /// The IPv4 host, packed big-endian.
    pub ip: u32,
    /// The port; `0` asks the operating system to pick one.
    pub port: u16,
}

/// Telemetry configuration.
#[derive(Clone, Debug)]
pub struct TelemetryConfig {
    /// The domain hosting the telemetry server.
    pub domain: String,
    /// The interval at which to report telemetry data, in milliseconds.
    pub interval_ms: u64,
}

/// Configuration for a server, supplied once at startup and never mutated
/// afterwards.
#[derive(Clone, Debug)]
pub struct Config {
    /// The number of dataflow worker threads that this process should host.
    pub workers: usize,
    /// The frequency at which to refresh introspection gauges, in
    /// milliseconds.
    pub introspection_frequency_ms: u64,
    /// The historical window in which distinctions are maintained for
    /// arrangements, in milliseconds; `None` keeps full detail.
    pub logical_compaction_window_ms: Option<u64>,
    /// The interval at which sources should be timestamped, in
    /// milliseconds.
    pub timestamp_frequency_ms: u64,
    /// The address to listen on.
    pub listen_addr: ListenAddr,
    /// TLS encryption configuration, if any.
    pub tls: Option<TlsConfig>,
    /// The directory in which the server stores its own metadata.
    pub data_directory: String,
    /// An optional symbiosis endpoint.
    pub symbiosis_url: Option<String>,
    /// Whether to permit usage of experimental features.
    pub experimental_mode: bool,
    /// Whether to run in safe mode.
    pub safe_mode: bool,
    /// Telemetry configuration, if reporting is wanted.
    pub telemetry: Option<TelemetryConfig>,
}

/// The settings handed to the coordinator collaborator when it is started:
/// the server configuration, translated field by field.
#[derive(Clone, Debug)]
pub struct CoordSettings {
    /// The number of dataflow worker threads.
    pub workers: usize,
    /// The symbiosis endpoint, if any.
    pub symbiosis_url: Option<String>,
    /// The metadata directory.
    pub data_directory: String,
    /// The source timestamping interval, in milliseconds.
    pub timestamp_frequency_ms: u64,
    /// The logical compaction window, in milliseconds.
    pub logical_compaction_window_ms: Option<u64>,
    /// Whether experimental features are permitted.
    pub experimental_mode: bool,
    /// Whether the server runs in safe mode.
    pub safe_mode: bool,
}

/// Translates the server configuration into the coordinator's settings,
/// copying each field unchanged.
pub fn coord_settings(config: &Config) -> (s: CoordSettings)
    ensures
        s.workers == config.workers,
        s.symbiosis_url.deep_view() == config.symbiosis_url.deep_view(),
        s.data_directory@ == config.data_directory@,
        s.timestamp_frequency_ms == config.timestamp_frequency_ms,
        s.logical_compaction_window_ms == config.logical_compaction_window_ms,
        s.experimental_mode == config.experimental_mode,
        s.safe_mode == config.safe_mode,
{
    let symbiosis_url = match &config.symbiosis_url {
        Some(u) => Some(u.clone()),
        None => None,
    };
    CoordSettings {
        workers: config.workers,
        symbiosis_url,
        data_directory: config.data_directory.clone(),
        timestamp_frequency_ms: config.timestamp_frequency_ms,
        logical_compaction_window_ms: config.logical_compaction_window_ms,
        experimental_mode: config.experimental_mode,
        safe_mode: config.safe_mode,
    }
}

/// The handler registry the multiplexer is started with: the Postgres-style
/// handler first, the HTTP handler second — registration order is sniff
/// precedence — each carrying the policy derived from the TLS mode, or no
/// policy when the server runs without TLS.
pub open spec fn standard_registry(tls: Option<TlsConfig>) -> Seq<Handler> {
    match tls {
        Option::None => seq![
            Handler::Pgwire { tls: Option::None },
            Handler::Http { tls: Option::None },
        ],
        Option::Some(c) => seq![
            Handler::Pgwire { tls: Option::Some(c.mode.pgwire_policy()) },
            Handler::Http { tls: Option::Some(c.mode.http_policy()) },
        ],
    }
}

/// How the standard registry resolves any connection: bytes opening a
/// Postgres-style conversation go to the Postgres-style handler; bytes
/// opening an HTTP request line (and not a Postgres-style one, which takes
/// precedence by registration order) go to the HTTP handler; anything else
/// has the connection closed with no response. This holds whether or not
/// TLS is configured.
pub proof fn lemma_standard_registry_routing(tls: Option<TlsConfig>, s: Seq<u8>)
    ensures
        mux::pgwire_frame(s) ==> mux::route_spec(standard_registry(tls), s) == (mux::Routed::Claim {
            index: 0,
        }),
        !mux::pgwire_frame(s) && mux::http_request_line(s) ==> mux::route_spec(
            standard_registry(tls),
            s,
        ) == (mux::Routed::Claim { index: 1 }),
        !mux::pgwire_frame(s) && !mux::http_request_line(s) ==> mux::route_spec(
            standard_registry(tls),
            s,
        ) == mux::Routed::Close,
{
    reveal_with_fuel(mux::first_match_from, 4);
}

/// A fatal startup error. Each aborts the whole startup synchronously,
/// before any connection is accepted, leaving the process in its pre-start
/// state.
#[derive(Clone, Copy, Debug, PartialEq, Eq, Structural)]
pub enum StartupError {
    /// The TLS material could not be loaded: an unreadable file, a
    /// malformed certificate, or a key that does not match.
    InvalidTls,
    /// A metric was already registered against the shared registry.
    DuplicateMetric,
    /// The listening socket could not be bound, e.g. the port is in use.
    BindRefused,
    /// The coordinator collaborator failed to boot.
    CoordFailed,
}

/// Where the startup sequence stands.
#[derive(Clone, Copy, Debug, PartialEq, Eq, Structural)]
pub enum StartupPhase {
    /// Nothing has happened yet.
    Init,
    /// The TLS context and per-protocol policies are built.
    TlsReady,
    /// The process metrics are registered.
    MetricsReady,
    /// The listening socket is bound and its address resolved.
    Bound,
    /// The coordinator collaborator is up.
    CoordReady,
    /// The multiplexer and the background loops are spawned; the server
    /// handle can be taken.
    Running,
    /// A step failed; everything acquired before it has been released.
    Failed,
}

/// The server startup sequence, as a state machine. The process drives it
/// step by step in a strict order — TLS, metrics, bind, coordinator, spawn —
/// performing each step's outside work and reporting the outcome; a failure
/// at any step moves to [`StartupPhase::Failed`] with every acquired
/// resource released, so no partially-started server is ever left behind.
#[derive(Debug)]
pub struct Startup {
    /// Where the sequence stands.
    pub phase: StartupPhase,
    /// The configuration, immutable for the life of the sequence.
    pub config: Config,
    /// The TLS translation, once built (`None` also when TLS is not
    /// configured).
    pub tls: Option<TlsPolicies>,
    /// The process gauges, once registered.
    pub metrics: Option<Metrics>,
    /// The resolved address of the bound socket.
    pub local_addr: Option<ListenAddr>,
    /// Whether the listening socket is currently held.
    pub listener_held: bool,
    /// Whether the multiplexer task has been spawned.
    pub mux_spawned: bool,
    /// Whether the uptime-refresh loop has been spawned.
    pub uptime_spawned: bool,
    /// Whether the telemetry-reporting loop has been spawned.
    pub telemetry_spawned: bool,
    /// The error that aborted the sequence, if one did.
    pub error: Option<StartupError>,
}

impl Startup {
    /// Whether the stored TLS translation agrees with the configuration:
    /// present and correctly derived exactly when TLS is configured.
    pub open spec fn tls_state_ok(self) -> bool {
        match (self.config.tls, self.tls) {
            (Option::Some(c), Option::Some(p)) => policies_match(c, p),
            (Option::None, Option::None) => true,
            _ => false,
        }
    }

    /// Whether a bound address is recorded; a bound socket always has a
    /// non-zero port, also when an ephemeral port was requested.
    pub open spec fn addr_ok(self) -> bool {
        self.local_addr matches Option::Some(a) && a.port != 0
    }

    /// Whether no background task has been spawned.
    pub open spec fn nothing_spawned(self) -> bool {
        !self.mux_spawned && !self.uptime_spawned && !self.telemetry_spawned
    }

    /// What holds of the sequence at each phase. Constructors establish it
    /// and every step preserves it; in particular a failed sequence holds
    /// nothing: no listener, no spawned task.
    pub open spec fn inv(self) -> bool {
        &&& (self.phase is Init ==> !self.listener_held && self.tls is None && self.local_addr
            is None && self.metrics is None && self.nothing_spawned() && self.error is None)
        &&& (self.phase is TlsReady ==> self.tls_state_ok() && !self.listener_held
            && self.local_addr is None && self.metrics is None && self.nothing_spawned()
            && self.error is None)
        &&& (self.phase is MetricsReady ==> self.tls_state_ok() && self.metrics is Some
            && !self.listener_held && self.local_addr is None && self.nothing_spawned()
            && self.error is None)
        &&& (self.phase is Bound ==> self.tls_state_ok() && self.metrics is Some
            && self.listener_held && self.addr_ok() && self.nothing_spawned() && self.error
            is None)
        &&& (self.phase is CoordReady ==> self.tls_state_ok() && self.metrics is Some
            && self.listener_held && self.addr_ok() && self.nothing_spawned() && self.error
            is None)
        &&& (self.phase is Running ==> self.tls_state_ok() && self.metrics is Some
            && self.listener_held && self.addr_ok() && self.mux_spawned && self.uptime_spawned
            && (self.telemetry_spawned <==> self.config.telemetry is Some) && self.error
            is None)
        &&& (self.phase is Failed ==> !self.listener_held && self.nothing_spawned()
            && self.error is Some)
    }

    /// Step one: the process has tried to build the shared TLS context from
    /// the plan of [`derive_tls_policies`] (trivially successful when no TLS
    /// is configured) and reports whether the material loaded. On success
    /// the per-protocol policies are fixed; on failure the whole startup is
    /// aborted.
    pub fn tls_built(&mut self, ok: bool) -> (r: Result<(), StartupError>)
        requires
            old(self).inv(),
            old(self).phase is Init,
        ensures
            final(self).inv(),
            final(self).config == old(self).config,
            r is Ok <==> ok,
            ok ==> final(self).phase is TlsReady,
            !ok ==> final(self).phase is Failed && final(self).error == Some(
                StartupError::InvalidTls,
            ),
    {
        if ok {
            let policies = match &self.config.tls {
                Some(c) => Some(derive_tls_policies(c)),
                None => None,
            };
            self.tls = policies;
            self.phase = StartupPhase::TlsReady;
            Ok(())
        } else {
            self.phase = StartupPhase::Failed;
            self.error = Some(StartupError::InvalidTls);
            Err(StartupError::InvalidTls)
        }
    }

    /// Step two: registers the process metrics against the shared registry
    /// and sets the worker-count gauge once, so it shows up in every
    /// export. A duplicate registration is a fatal configuration error and
    /// aborts the startup.
    pub fn register_metrics(&mut self, registry: &mut MetricsRegistry) -> (r: Result<
        (),
        StartupError,
    >)
        requires
            old(self).inv(),
            old(self).phase is TlsReady,
        ensures
            final(self).inv(),
            final(self).config == old(self).config,
            r is Ok <==> process_ids_fresh(*old(registry)),
            r is Ok ==> final(self).phase is MetricsReady && (final(self).metrics matches Some(m)
                && m.worker_count == old(self).config.workers as u64 && m.uptime_ms == 0
                && m.request_metrics_gather_ms == 0 && m.request_metrics_encode_ms == 0)
                && final(registry).ids() == old(registry).ids().push(
                metrics::MetricId::ScrapeTimes,
            ).push(
                metrics::MetricId::WorkerCount,
            ).push(metrics::MetricId::Uptime),
            r is Err ==> final(self).phase is Failed && final(self).error == Some(
                StartupError::DuplicateMetric,
            ) && final(registry).ids() == old(registry).ids(),
    {
        match Metrics::register_with(registry) {
            Ok(mut m) => {
                m.set_worker_count(self.config.workers);
                self.metrics = Some(m);
                self.phase = StartupPhase::MetricsReady;
                Ok(())
            },
            Err(_) => {
                self.phase = StartupPhase::Failed;
                self.error = Some(StartupError::DuplicateMetric);
                Err(StartupError::DuplicateMetric)
            },
        }
    }

    /// Step three: the process has tried to bind the listening socket and
    /// reports the resolved address, or `None` if the bind was refused. A
    /// bound socket reports a concrete non-zero port, also when the
    /// configuration asked for an ephemeral one.
    pub fn bound(&mut self, outcome: Option<ListenAddr>) -> (r: Result<(), StartupError>)
        requires
            old(self).inv(),
            old(self).phase is MetricsReady,
            outcome matches Some(a) ==> a.port != 0,
        ensures
            final(self).inv(),
            final(self).config == old(self).config,
            r is Ok <==> outcome is Some,
            outcome matches Some(a) ==> final(self).phase is Bound && final(self).local_addr
                == Some(a) && final(self).listener_held,
            outcome is None ==> final(self).phase is Failed && final(self).error == Some(
                StartupError::BindRefused,
            ) && !final(self).listener_held,
    {
        match outcome {
            Some(a) => {
                self.local_addr = Some(a);
                self.listener_held = true;
                self.phase = StartupPhase::Bound;
                Ok(())
            },
            None => {
                self.phase = StartupPhase::Failed;
                self.error = Some(StartupError::BindRefused);
                Err(StartupError::BindRefused)
            },
        }
    }

    /// Step four: the process has tried to start the coordinator
    /// collaborator with the settings of [`coord_settings`] and reports the
    /// outcome. On failure the bound listener is released — a later bind to
    /// the same address must succeed — and, no spawn step having run, no
    /// background task exists.
    pub fn coord_started(&mut self, ok: bool) -> (r: Result<(), StartupError>)
        requires
            old(self).inv(),
            old(self).phase is Bound,
        ensures
            final(self).inv(),
            final(self).config == old(self).config,
            r is Ok <==> ok,
            ok ==> final(self).phase is CoordReady && final(self).listener_held
                && final(self).local_addr == old(self).local_addr,
            !ok ==> final(self).phase is Failed && final(self).error == Some(
                StartupError::CoordFailed,
            ) && !final(self).listener_held && final(self).nothing_spawned(),
    {
        if ok {
            self.phase = StartupPhase::CoordReady;
            Ok(())
        } else {
            self.listener_held = false;
            self.phase = StartupPhase::Failed;
            self.error = Some(StartupError::CoordFailed);
            Err(StartupError::CoordFailed)
        }
    }

    /// Steps five to eight: constructs the multiplexer — registry populated
    /// in fixed order with the two handlers, each carrying its derived TLS
    /// policy — for the process to run against the listener, and records
    /// that the uptime-refresh loop and, exactly if telemetry is
    /// configured, the telemetry-reporting loop are spawned. Background
    /// failures are contained in their tasks and never surface here.
    pub fn spawn_tasks(&mut self) -> (m: Mux)
        requires
            old(self).inv(),
            old(self).phase is CoordReady,
        ensures
            final(self).inv(),
            final(self).config == old(self).config,
            final(self).phase is Running,
            final(self).local_addr == old(self).local_addr,
            m.handler_seq() == standard_registry(old(self).config.tls),
            m.accepting(),
            m.inflight_count() == 0,
    {
        let policies: (Option<PgwireTlsMode>, Option<HttpTlsMode>) = match &self.tls {
            Some(p) => (Some(p.pgwire), Some(p.http)),
            None => (None, None),
        };
        let mut m = Mux::new();
        m.add_handler(Handler::Pgwire { tls: policies.0 });
        m.add_handler(Handler::Http { tls: policies.1 });
        self.mux_spawned = true;
        self.uptime_spawned = true;
        self.telemetry_spawned = self.config.telemetry.is_some();
        self.phase = StartupPhase::Running;
        proof {
            assert(m.handler_seq() =~= standard_registry(self.config.tls));
        }
        m
    }

    /// The last step: takes the server handle. The handle exposes the bound
    /// address and owns the drain trigger and the coordinator; releasing it
    /// through [`Server::shutdown`] begins the drain.
    pub fn into_server(self) -> (s: Server)
        requires
            self.inv(),
            self.phase is Running,
        ensures
            Some(s.spec_local_addr()) == self.local_addr,
            s.spec_local_addr().port != 0,
            !s.drain_triggered(),
            s.holds_coordinator(),
    {
        let local_addr = self.local_addr.unwrap();
        Server { local_addr, drain: DrainSignal::new(), coord_held: true }
    }
}

/// Begins starting a server: the returned state machine is driven through
/// its steps in order, and yields the server handle once every step has
/// succeeded.
pub fn serve(config: Config) -> (s: Startup)
    ensures
        s.inv(),
        s.phase is Init,
        s.config == config,
{
    Startup {
        phase: StartupPhase::Init,
        config,
        tls: None,
        metrics: None,
        local_addr: None,
        listener_held: false,
        mux_spawned: false,
        uptime_spawned: false,
        telemetry_spawned: false,
        error: None,
    }
}

/// Startup atomicity: whichever step failed, a failed startup holds no
/// resource — the bound port has been released, so a later bind to the same
/// address succeeds, and no background task was left running.
pub proof fn lemma_startup_atomicity(s: Startup)
    requires
        s.inv(),
        s.phase is Failed,
    ensures
        !s.listener_held,
        !s.mux_spawned,
        !s.uptime_spawned,
        !s.telemetry_spawned,
{
}

/// What releasing the server handle does, in order: first the drain signal
/// is fired, then the coordinator is released.
#[derive(Clone, Copy, Debug, PartialEq, Eq, Structural)]
pub enum ShutdownAction {
    /// Fire the drain signal, so the multiplexer stops accepting.
    FireDrain,
    /// Release the coordinator collaborator.
    ReleaseCoordinator,
}

/// A running server: the bound local address, exclusive ownership of the
/// drain trigger, and ownership of the coordinator's handle. Created once
/// per successful startup.
#[derive(Debug)]
pub struct Server {
    local_addr: ListenAddr,
    drain: DrainSignal,
    coord_held: bool,
}

impl Server {
    /// The bound local address.
    pub closed spec fn spec_local_addr(self) -> ListenAddr {
        self.local_addr
    }

    /// Whether the drain trigger has been fired.
    pub closed spec fn drain_triggered(self) -> bool {
        self.drain.is_fired()
    }

    /// Whether the coordinator is still held.
    pub closed spec fn holds_coordinator(self) -> bool {
        self.coord_held
    }

    /// The local address the server is listening on.
    pub fn local_addr(&self) -> (a: ListenAddr)
        ensures
            a == self.spec_local_addr(),
    {
        self.local_addr
    }

    /// Shuts the server down: fires the drain signal — new connections are
    /// refused from then on, connections already dispatched finish
    /// naturally — and only then releases the coordinator. The returned
    /// actions, in that order, are what the process must carry out.
    pub fn shutdown(&mut self) -> (acts: Vec<ShutdownAction>)
        requires
            !old(self).drain_triggered(),
            old(self).holds_coordinator(),
        ensures
            acts@ == seq![ShutdownAction::FireDrain, ShutdownAction::ReleaseCoordinator],
            final(self).drain_triggered(),
            !final(self).holds_coordinator(),
            final(self).spec_local_addr() == old(self).spec_local_addr(),
    {
        self.drain.fire();
        self.coord_held = false;
        let mut acts: Vec<ShutdownAction> = Vec::new();
        acts.push(ShutdownAction::FireDrain);
        acts.push(ShutdownAction::ReleaseCoordinator);
        proof {
            assert(acts@ =~= seq![
                ShutdownAction::FireDrain,
                ShutdownAction::ReleaseCoordinator,
            ]);
        }
        acts
    }
}

} // verus!
