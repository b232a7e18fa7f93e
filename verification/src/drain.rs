//! The drain signal.
//!
//! A single-fire, two-ended signal: the trigger end is owned by the server
//! handle, the tripwire end is watched by the multiplexer's accept loop.
//! Firing is a one-time, irreversible transition — nothing ever clears it —
//! and it marks the point after which no new connection is accepted.

use vstd::prelude::*;

verus! {

/// A one-shot drain signal. The only transition is [`DrainSignal::fire`],
/// which can happen at most once and can never be undone. Deliberately
/// neither clonable nor copyable: there is exactly one trigger.
#[derive(Debug)]
pub struct DrainSignal {
    fired: bool,
}

impl DrainSignal {
    /// Whether the signal has fired.
    pub closed spec fn is_fired(self) -> bool {
        self.fired
    }

    /// A fresh, unfired signal.
    pub fn new() -> (s: Self)
        ensures
            !s.is_fired(),
    {
        DrainSignal { fired: false }
    }

    /// Fires the signal. Single-fire: the trigger is consumed by this call,
    /// so an already-fired signal cannot be fired again.
    pub fn fire(&mut self)
        requires
            !old(self).is_fired(),
        ensures
            final(self).is_fired(),
    {
        self.fired = true;
    }

    /// Reads the tripwire end.
    pub fn has_fired(&self) -> (r: bool)
        ensures
            r == self.is_fired(),
    {
        self.fired
    }
}

} // verus!
