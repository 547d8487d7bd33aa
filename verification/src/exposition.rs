//! The read path: rendering the registry for a scrape and the liveness
//! probe's body. The text-exposition encoding itself is a fixed external
//! contract; this module fixes only which values are rendered, under which
//! metric names.

use vstd::prelude::*;

use crate::registry::MetricRegistry;

verus! {

/// The text exposition of the two metrics — the counter of consumed messages
/// under `mqtt_messages_total` and the last battery reading under
/// `drone_battery_last_pct` — as a function of their values alone. Its exact
/// text is fixed by the exposition format and is not restated here.
pub uninterp spec fn exposition_of(messages_total: int, battery_last_pct: int) -> Seq<char>;

/// Relies on prometheus's IntCounter, IntGauge, Registry and TextEncoder:
/// encoding a registry that holds the two metrics at the given values is
/// deterministic in those values, and none of the calls fails — the two
/// metric names are valid and distinct, the counter is fed at most one
/// increment, and the encoder writes to an in-memory string.
#[verifier::external_body]
fn render_exposition(messages_total: u64, battery_last_pct: i64) -> (r: String)
    ensures
        r@ == exposition_of(messages_total as int, battery_last_pct as int),
{
    let registry = prometheus::Registry::new();
    let counter = prometheus::IntCounter::new("mqtt_messages_total", "Total MQTT messages consumed")
        .unwrap();
    let gauge = prometheus::IntGauge::new(
        "drone_battery_last_pct",
        "Last seen drone battery percentage",
    )
        .unwrap();
    counter.inc_by(messages_total);
    gauge.set(battery_last_pct);
    registry.register(Box::new(counter)).unwrap();
    registry.register(Box::new(gauge)).unwrap();
    prometheus::TextEncoder::new().encode_to_string(&registry.gather()).unwrap()
}

/// The body served for a scrape: the current registry state in the
/// text-exposition format. Always succeeds; a scrape sees the last snapshot
/// even while the consumer is mid-retry.
pub fn metrics_body(reg: &MetricRegistry) -> (r: String)
    ensures
        r@ == exposition_of(reg@.messages_total, reg@.battery_last_pct),
{
    let s = reg.snapshot();
    render_exposition(s.messages_total, s.battery_last_pct)
}

/// The body served for a liveness probe: a fixed literal, unconditionally.
pub fn health_body() -> (r: &'static str)
    ensures
        r@ == "ok"@,
{
    "ok"
}

} // verus!
