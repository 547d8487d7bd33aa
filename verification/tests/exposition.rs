use telemetry_bridge::consumer::process_message;
use telemetry_bridge::consumer::BusMessage;
use telemetry_bridge::exposition::health_body;
use telemetry_bridge::exposition::metrics_body;
use telemetry_bridge::registry::MetricRegistry;

#[test]
fn health_body_is_the_fixed_literal() {
    assert_eq!(health_body(), "ok");
}

#[test]
fn scrape_reports_both_metrics_by_name() {
    let reg = MetricRegistry::new();
    let body = metrics_body(&reg);
    assert!(body.contains("mqtt_messages_total 0"));
    assert!(body.contains("drone_battery_last_pct 0"));
    assert!(body.contains("# TYPE mqtt_messages_total counter"));
    assert!(body.contains("# TYPE drone_battery_last_pct gauge"));
}

#[test]
fn scrape_reflects_a_processed_reading() {
    let mut reg = MetricRegistry::new();
    process_message(
        &mut reg,
        &BusMessage {
            topic: b"drone/alpha/telemetry".to_vec(),
            payload: b"{\"battery_pct\": 87}".to_vec(),
        },
    );
    let body = metrics_body(&reg);
    assert!(body.contains("mqtt_messages_total 1"));
    assert!(body.contains("drone_battery_last_pct 87"));
}

#[test]
fn scrape_renders_a_negative_reading() {
    let mut reg = MetricRegistry::new();
    process_message(
        &mut reg,
        &BusMessage {
            topic: b"drone/alpha/telemetry".to_vec(),
            payload: b"{\"battery_pct\": -3}".to_vec(),
        },
    );
    let body = metrics_body(&reg);
    assert!(body.contains("drone_battery_last_pct -3"));
}
