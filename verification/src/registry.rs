//! The shared metric state: a monotone counter of consumed messages and a
//! gauge holding the last successfully parsed battery percentage.

use vstd::prelude::*;

verus! {

/// Mathematical model of the registry: both metrics as unbounded integers.
pub ghost struct RegistryModel {
    pub messages_total: int,
    pub battery_last_pct: int,
}

/// A point-in-time read of both metrics. The two fields are read together
/// here, but callers get no cross-metric atomicity guarantee beyond what a
/// single borrow of the registry provides.
pub struct MetricSnapshot {
    pub messages_total: u64,
    pub battery_last_pct: i64,
}

/// Holds the two metrics. Created once at startup; the consumer loop mutates
/// it and the metrics endpoint reads it.
pub struct MetricRegistry {
    messages_total: u64,
    battery_last_pct: i64,
}

impl View for MetricRegistry {
    type V = RegistryModel;

    closed spec fn view(&self) -> RegistryModel {
        RegistryModel {
            messages_total: self.messages_total as int,
            battery_last_pct: self.battery_last_pct as int,
        }
    }
}

impl MetricRegistry {
    /// Both metrics start at zero: no message consumed, gauge unset.
    pub fn new() -> (r: MetricRegistry)
        ensures
            r@.messages_total == 0,
            r@.battery_last_pct == 0,
    {
        MetricRegistry { messages_total: 0, battery_last_pct: 0 }
    }

    /// Adds exactly 1 to the message counter and touches nothing else.
    pub fn increment_messages_total(&mut self)
        requires
            old(self)@.messages_total < u64::MAX,
        ensures
            final(self)@.messages_total == old(self)@.messages_total + 1,
            final(self)@.battery_last_pct == old(self)@.battery_last_pct,
    {
        self.messages_total = self.messages_total + 1;
    }

    /// Overwrites the gauge with `value` and touches nothing else.
    pub fn set_battery_gauge(&mut self, value: i64)
        ensures
            final(self)@.battery_last_pct == value,
            final(self)@.messages_total == old(self)@.messages_total,
    {
        self.battery_last_pct = value;
    }

    /// Returns the current value of both metrics.
    pub fn snapshot(&self) -> (s: MetricSnapshot)
        ensures
            s.messages_total == self@.messages_total,
            s.battery_last_pct == self@.battery_last_pct,
    {
        MetricSnapshot {
            messages_total: self.messages_total,
            battery_last_pct: self.battery_last_pct,
        }
    }
}

} // verus!
