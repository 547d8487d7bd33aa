//! Topic handling: the two logical topics are derived from a configured base
//! by appending a fixed suffix, and an incoming message is classified by the
//! suffix of its topic. The class decides the delivery guarantee requested at
//! subscription time and whether the payload is parsed.

use vstd::prelude::*;

verus! {

/// The class of a topic: periodic telemetry samples or discrete events.
#[derive(Clone, Copy, Debug, PartialEq, Eq, Structural)]
pub enum TopicClass {
    Telemetry,
    Event,
}

/// The delivery guarantee requested when subscribing to a topic.
#[derive(Clone, Copy, Debug, PartialEq, Eq, Structural)]
pub enum DeliveryGuarantee {
    /// Loss tolerated: telemetry volume is high and the gauge only needs the
    /// latest value.
    AtMostOnce,
    /// Loss not tolerated: discrete events carry semantic weight.
    AtLeastOnce,
}

/// The topic suffix that marks telemetry messages: `/telemetry`.
pub open spec fn telemetry_suffix() -> Seq<u8> {
    seq![47u8, 116u8, 101u8, 108u8, 101u8, 109u8, 101u8, 116u8, 114u8, 121u8]
}

/// The topic suffix that marks event messages: `/event`.
pub open spec fn event_suffix() -> Seq<u8> {
    seq![47u8, 101u8, 118u8, 101u8, 110u8, 116u8]
}

/// `s` ends with `suffix`.
pub open spec fn ends_with(s: Seq<u8>, suffix: Seq<u8>) -> bool {
    suffix.len() <= s.len() && s.subrange(s.len() - suffix.len(), s.len() as int) == suffix
}

/// A topic is classified as telemetry exactly when it ends with the telemetry
/// suffix; every other topic the bridge sees is an event topic.
pub open spec fn spec_topic_class(topic: Seq<u8>) -> TopicClass {
    if ends_with(topic, telemetry_suffix()) {
        TopicClass::Telemetry
    } else {
        TopicClass::Event
    }
}

/// The delivery guarantee for each topic class: telemetry tolerates loss,
/// events do not. Requesting the stronger guarantee for telemetry as well
/// would amplify broker load disproportionately.
pub open spec fn spec_delivery_guarantee_for(class: TopicClass) -> DeliveryGuarantee {
    match class {
        TopicClass::Telemetry => DeliveryGuarantee::AtMostOnce,
        TopicClass::Event => DeliveryGuarantee::AtLeastOnce,
    }
}

pub fn delivery_guarantee_for(class: TopicClass) -> (g: DeliveryGuarantee)
    ensures
        g == spec_delivery_guarantee_for(class),
{
    match class {
        TopicClass::Telemetry => DeliveryGuarantee::AtMostOnce,
        TopicClass::Event => DeliveryGuarantee::AtLeastOnce,
    }
}

/// Decides whether `s` ends with `suffix`, byte for byte.
pub fn slice_ends_with(s: &[u8], suffix: &[u8]) -> (r: bool)
    ensures
        r == ends_with(s@, suffix@),
{
    let n = s.len();
    let m = suffix.len();
    if m > n {
        return false;
    }
    let offset = n - m;
    let mut i: usize = 0;
    while i < m
        invariant
            i <= m,
            m <= n,
            offset == n - m,
            n == s@.len(),
            m == suffix@.len(),
            forall|j: int| 0 <= j < i ==> s@[offset + j] == suffix@[j],
        decreases m - i,
    {
        if s[offset + i] != suffix[i] {
            proof {
                if ends_with(s@, suffix@) {
                    assert(s@.subrange(offset as int, n as int)[i as int] == suffix@[i as int]);
                }
            }
            return false;
        }
        i = i + 1;
    }
    proof {
        assert(s@.subrange(offset as int, n as int) =~= suffix@);
    }
    true
}

/// The telemetry suffix as bytes.
fn telemetry_suffix_bytes() -> (v: Vec<u8>)
    ensures
        v@ == telemetry_suffix(),
{
    let mut v: Vec<u8> = Vec::new();
    v.push(47u8);
    v.push(116u8);
    v.push(101u8);
    v.push(108u8);
    v.push(101u8);
    v.push(109u8);
    v.push(101u8);
    v.push(116u8);
    v.push(114u8);
    v.push(121u8);
    proof {
        assert(v@ =~= telemetry_suffix());
    }
    v
}

/// The event suffix as bytes.
fn event_suffix_bytes() -> (v: Vec<u8>)
    ensures
        v@ == event_suffix(),
{
    let mut v: Vec<u8> = Vec::new();
    v.push(47u8);
    v.push(101u8);
    v.push(118u8);
    v.push(101u8);
    v.push(110u8);
    v.push(116u8);
    proof {
        assert(v@ =~= event_suffix());
    }
    v
}

/// Classifies an incoming message's topic by its suffix.
pub fn topic_class(topic: &[u8]) -> (c: TopicClass)
    ensures
        c == spec_topic_class(topic@),
{
    let suffix = telemetry_suffix_bytes();
    if slice_ends_with(topic, suffix.as_slice()) {
        TopicClass::Telemetry
    } else {
        TopicClass::Event
    }
}

/// The telemetry topic for a base prefix: `{base}/telemetry`.
pub fn telemetry_topic(base: &[u8]) -> (t: Vec<u8>)
    ensures
        t@ == base@ + telemetry_suffix(),
{
    let mut t: Vec<u8> = Vec::new();
    t.extend_from_slice(base);
    let suffix = telemetry_suffix_bytes();
    t.extend_from_slice(suffix.as_slice());
    t
}

/// The event topic for a base prefix: `{base}/event`.
pub fn event_topic(base: &[u8]) -> (t: Vec<u8>)
    ensures
        t@ == base@ + event_suffix(),
{
    let mut t: Vec<u8> = Vec::new();
    t.extend_from_slice(base);
    let suffix = event_suffix_bytes();
    t.extend_from_slice(suffix.as_slice());
    t
}

/// A derived telemetry topic always classifies as telemetry, whatever the
/// base prefix.
pub proof fn lemma_telemetry_topic_classifies(base: Seq<u8>)
    ensures
        spec_topic_class(base + telemetry_suffix()) == TopicClass::Telemetry,
{
    let t = base + telemetry_suffix();
    assert(t.subrange(t.len() - telemetry_suffix().len(), t.len() as int) =~= telemetry_suffix());
}

/// A derived event topic never classifies as telemetry, whatever the base
/// prefix: the two suffixes end in different bytes.
pub proof fn lemma_event_topic_classifies(base: Seq<u8>)
    ensures
        spec_topic_class(base + event_suffix()) == TopicClass::Event,
{
    let t = base + event_suffix();
    if ends_with(t, telemetry_suffix()) {
        assert(t.subrange(t.len() - telemetry_suffix().len(), t.len() as int)[telemetry_suffix().len()
            - 1] == t[t.len() - 1]);
    }
}

} // verus!
