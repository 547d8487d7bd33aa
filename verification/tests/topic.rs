use telemetry_bridge::topic::delivery_guarantee_for;
use telemetry_bridge::topic::event_topic;
use telemetry_bridge::topic::slice_ends_with;
use telemetry_bridge::topic::telemetry_topic;
use telemetry_bridge::topic::topic_class;
use telemetry_bridge::topic::DeliveryGuarantee;
use telemetry_bridge::topic::TopicClass;

#[test]
fn telemetry_topic_appends_suffix() {
    assert_eq!(telemetry_topic(b"drone/alpha"), b"drone/alpha/telemetry".to_vec());
}

#[test]
fn event_topic_appends_suffix() {
    assert_eq!(event_topic(b"drone/alpha"), b"drone/alpha/event".to_vec());
}

#[test]
fn topic_with_telemetry_suffix_is_telemetry() {
    assert_eq!(topic_class(b"drone/alpha/telemetry"), TopicClass::Telemetry);
}

#[test]
fn topic_with_event_suffix_is_event() {
    assert_eq!(topic_class(b"drone/alpha/event"), TopicClass::Event);
}

#[test]
fn derived_topics_classify_as_their_class() {
    assert_eq!(topic_class(&telemetry_topic(b"lab/unit7")), TopicClass::Telemetry);
    assert_eq!(topic_class(&event_topic(b"lab/unit7")), TopicClass::Event);
}

#[test]
fn bare_suffix_is_not_enough() {
    // The class goes by the topic's suffix, separator included.
    assert_eq!(topic_class(b"telemetry"), TopicClass::Event);
    assert_eq!(topic_class(b"/telemetry"), TopicClass::Telemetry);
}

#[test]
fn telemetry_is_at_most_once() {
    assert_eq!(delivery_guarantee_for(TopicClass::Telemetry), DeliveryGuarantee::AtMostOnce);
}

#[test]
fn event_is_at_least_once() {
    assert_eq!(delivery_guarantee_for(TopicClass::Event), DeliveryGuarantee::AtLeastOnce);
}

#[test]
fn ends_with_handles_edges() {
    assert!(slice_ends_with(b"abc", b"abc"));
    assert!(slice_ends_with(b"abc", b""));
    assert!(slice_ends_with(b"", b""));
    assert!(!slice_ends_with(b"", b"a"));
    assert!(!slice_ends_with(b"bc", b"abc"));
    assert!(!slice_ends_with(b"abd", b"bc"));
}
