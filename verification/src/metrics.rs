//! Process metrics bookkeeping.
//!
//! A small set of gauges — worker-thread count, process uptime, and the
//! metrics-scrape timings — registered exactly once per process against a
//! shared registry. Registering the same metric twice is a fatal
//! configuration error, surfaced at startup and never deferred. The gauge
//! values themselves are plain integers here; exporting them in a wire
//! format is the surrounding process's concern.

use vstd::prelude::*;

verus! {

/// The identity of one metric family owned by this front-end.
#[derive(Clone, Copy, Debug, PartialEq, Eq, Structural)]
pub enum MetricId {
    /// How long gathering and encoding a metrics scrape took.
    ScrapeTimes,
    /// The number of worker threads the process hosts.
    WorkerCount,
    /// Server metadata; the gauge's value is the process uptime.
    Uptime,
}

impl MetricId {
    /// The name under which this metric family is exported.
    pub fn name(&self) -> (s: &str)
        ensures
            *self is ScrapeTimes ==> s@ == "mz_server_scrape_metrics_times"@,
            *self is WorkerCount ==> s@ == "mz_server_metadata_timely_worker_threads"@,
            *self is Uptime ==> s@ == "mz_server_metadata_seconds"@,
    {
        match self {
            MetricId::ScrapeTimes => "mz_server_scrape_metrics_times",
            MetricId::WorkerCount => "mz_server_metadata_timely_worker_threads",
            MetricId::Uptime => "mz_server_metadata_seconds",
        }
    }
}

/// The error of a metrics operation.
#[derive(Clone, Copy, Debug, PartialEq, Eq, Structural)]
pub enum MetricsError {
    /// A metric with the same identity was already registered against this
    /// registry. A fatal configuration error: startup must abort.
    DuplicateRegistration,
}

/// The shared registry that metric families are registered against, reduced
/// to what the front-end's logic reads of it: which families are registered,
/// in order.
#[derive(Debug)]
pub struct MetricsRegistry {
    registered: Vec<MetricId>,
}

/// Whether the three families owned by this front-end are all still
/// unregistered, so that registering them can succeed.
pub open spec fn process_ids_fresh(r: MetricsRegistry) -> bool {
    &&& !r.ids().contains(MetricId::ScrapeTimes)
    &&& !r.ids().contains(MetricId::WorkerCount)
    &&& !r.ids().contains(MetricId::Uptime)
}

/// Appending an element makes a sequence contain exactly what it contained
/// before, plus that element.
proof fn lemma_push_contains(s: Seq<MetricId>, x: MetricId, y: MetricId)
    ensures
        s.push(x).contains(y) <==> (s.contains(y) || x == y),
{
    if s.contains(y) {
        let i = choose|i: int| 0 <= i < s.len() && s[i] == y;
        assert(s.push(x)[i] == y);
    }
    assert(s.push(x)[s.len() as int] == x);
    if s.push(x).contains(y) && x != y {
        let i = choose|i: int| 0 <= i < s.push(x).len() && s.push(x)[i] == y;
        assert(s[i] == y);
    }
}

impl MetricsRegistry {
    /// The registered metric families, in registration order.
    pub closed spec fn ids(self) -> Seq<MetricId> {
        self.registered@
    }

    /// An empty registry.
    pub fn new() -> (r: MetricsRegistry)
        ensures
            r.ids() == Seq::<MetricId>::empty(),
    {
        MetricsRegistry { registered: Vec::new() }
    }

    /// Whether a family with this identity is already registered.
    pub fn is_registered(&self, id: MetricId) -> (r: bool)
        ensures
            r == self.ids().contains(id),
    {
        let n = self.registered.len();
        let mut i: usize = 0;
        while i < n
            invariant
                n == self.registered.len(),
                i <= n,
                forall|j: int| 0 <= j < i ==> self.registered@[j] != id,
            decreases n - i,
        {
            if self.registered[i] == id {
                return true;
            }
            i = i + 1;
        }
        false
    }

    /// Registers one metric family. Registering an identity twice is
    /// refused and leaves the registry unchanged.
    pub fn register(&mut self, id: MetricId) -> (r: Result<(), MetricsError>)
        ensures
            old(self).ids().contains(id) ==> r == Result::<(), MetricsError>::Err(
                MetricsError::DuplicateRegistration,
            ) && final(self).ids() == old(self).ids(),
            !old(self).ids().contains(id) ==> r is Ok && final(self).ids() == old(
                self,
            ).ids().push(id),
    {
        if self.is_registered(id) {
            Err(MetricsError::DuplicateRegistration)
        } else {
            self.registered.push(id);
            Ok(())
        }
    }
}

/// The gauges owned by the server, with their current values.
#[derive(Clone, Copy, Debug, PartialEq, Eq, Structural)]
pub struct Metrics {
    /// The number of workers active in the system.
    pub worker_count: u64,
    /// How long the system has been running, in milliseconds.
    pub uptime_ms: u64,
    /// How long the last scrape spent gathering metrics, in milliseconds.
    pub request_metrics_gather_ms: u64,
    /// How long the last scrape spent encoding metrics, in milliseconds.
    pub request_metrics_encode_ms: u64,
}

impl Metrics {
    /// Registers the server's three metric families against `registry`, in a
    /// fixed order, and returns the zeroed gauges. If any of the families is
    /// already registered — a fatal configuration error — nothing is
    /// registered and the error is returned.
    pub fn register_with(registry: &mut MetricsRegistry) -> (r: Result<Metrics, MetricsError>)
        ensures
            r is Ok <==> process_ids_fresh(*old(registry)),
            r matches Ok(m) ==> final(registry).ids() == old(registry).ids().push(
                MetricId::ScrapeTimes,
            ).push(MetricId::WorkerCount).push(MetricId::Uptime) && m == (Metrics {
                worker_count: 0,
                uptime_ms: 0,
                request_metrics_gather_ms: 0,
                request_metrics_encode_ms: 0,
            }),
            r is Err ==> r == Result::<Metrics, MetricsError>::Err(
                MetricsError::DuplicateRegistration,
            ) && final(registry).ids() == old(registry).ids(),
    {
        let fresh = !registry.is_registered(MetricId::ScrapeTimes) && !registry.is_registered(
            MetricId::WorkerCount,
        ) && !registry.is_registered(MetricId::Uptime);
        if fresh {
            proof {
                lemma_push_contains(registry.ids(), MetricId::ScrapeTimes, MetricId::WorkerCount);
                lemma_push_contains(
                    registry.ids().push(MetricId::ScrapeTimes),
                    MetricId::WorkerCount,
                    MetricId::Uptime,
                );
                lemma_push_contains(registry.ids(), MetricId::ScrapeTimes, MetricId::Uptime);
            }
            match registry.register(MetricId::ScrapeTimes) {
                Ok(_) => (),
                Err(e) => {
                    return Err(e);
                },
            }
            match registry.register(MetricId::WorkerCount) {
                Ok(_) => (),
                Err(e) => {
                    return Err(e);
                },
            }
            match registry.register(MetricId::Uptime) {
                Ok(_) => (),
                Err(e) => {
                    return Err(e);
                },
            }
            Ok(
                Metrics {
                    worker_count: 0,
                    uptime_ms: 0,
                    request_metrics_gather_ms: 0,
                    request_metrics_encode_ms: 0,
                },
            )
        } else {
            Err(MetricsError::DuplicateRegistration)
        }
    }

    /// Sets the worker-count gauge; set once at startup so the count shows
    /// up in every later export.
    pub fn set_worker_count(&mut self, workers: usize)
        ensures
            final(self).worker_count == workers as u64,
            final(self).uptime_ms == old(self).uptime_ms,
            final(self).request_metrics_gather_ms == old(self).request_metrics_gather_ms,
            final(self).request_metrics_encode_ms == old(self).request_metrics_encode_ms,
    {
        self.worker_count = workers as u64;
    }

    /// Refreshes the uptime gauge from the process start time and the
    /// current time, both in milliseconds of a monotone clock.
    pub fn update_uptime(&mut self, start_ms: u64, now_ms: u64)
        requires
            start_ms <= now_ms,
        ensures
            final(self).uptime_ms == now_ms - start_ms,
            final(self).worker_count == old(self).worker_count,
            final(self).request_metrics_gather_ms == old(self).request_metrics_gather_ms,
            final(self).request_metrics_encode_ms == old(self).request_metrics_encode_ms,
    {
        self.uptime_ms = now_ms - start_ms;
    }
}

/// Registering the server's metric families is a once-per-process act: a
/// registry that has gone through a successful registration can never accept
/// a second one.
pub proof fn lemma_metrics_register_once(pre: MetricsRegistry, post: MetricsRegistry)
    requires
        post.ids() == pre.ids().push(MetricId::ScrapeTimes).push(MetricId::WorkerCount).push(
            MetricId::Uptime,
        ),
    ensures
        !process_ids_fresh(post),
{
    let s = pre.ids().push(MetricId::ScrapeTimes).push(MetricId::WorkerCount);
    assert(post.ids()[s.len() as int] == MetricId::Uptime);
}

} // verus!
