use telemetry_bridge::parser::parse_battery_pct;

#[test]
fn parse_simple_integer_field() {
    assert_eq!(parse_battery_pct(b"{\"battery_pct\": 87}"), Some(87));
}

#[test]
fn parse_ignores_other_fields() {
    assert_eq!(
        parse_battery_pct(b"{\"alt_m\": 120, \"battery_pct\": 40, \"mode\": \"auto\"}"),
        Some(40)
    );
}

#[test]
fn parse_negative_value() {
    assert_eq!(parse_battery_pct(b"{\"battery_pct\": -5}"), Some(-5));
}

#[test]
fn parse_largest_value() {
    let payload = format!("{{\"battery_pct\": {}}}", i64::MAX);
    assert_eq!(parse_battery_pct(payload.as_bytes()), Some(i64::MAX));
}

#[test]
fn parse_value_beyond_i64_is_absent() {
    let payload = format!("{{\"battery_pct\": {}}}", u64::MAX);
    assert_eq!(parse_battery_pct(payload.as_bytes()), None);
}

#[test]
fn parse_missing_field_is_absent() {
    assert_eq!(parse_battery_pct(b"{\"foo\": 1}"), None);
}

#[test]
fn parse_string_field_is_absent() {
    assert_eq!(parse_battery_pct(b"{\"battery_pct\": \"87\"}"), None);
}

#[test]
fn parse_fractional_field_is_absent() {
    assert_eq!(parse_battery_pct(b"{\"battery_pct\": 87.5}"), None);
}

#[test]
fn parse_malformed_payload_is_absent() {
    assert_eq!(parse_battery_pct(b"not json at all"), None);
}

#[test]
fn parse_empty_payload_is_absent() {
    assert_eq!(parse_battery_pct(b""), None);
}

#[test]
fn parse_non_object_payload_is_absent() {
    assert_eq!(parse_battery_pct(b"[1, 2, 3]"), None);
    assert_eq!(parse_battery_pct(b"87"), None);
}
