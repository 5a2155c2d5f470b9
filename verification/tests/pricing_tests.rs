use rust_webserver::pricing::{pricing_request, report_fields};
use std::collections::HashMap;

#[test]
fn report_fields_in_order() {
    let f = report_fields("room9", "start", 1518568087);
    let expected = vec![
        ("roomJid".to_string(), "room9@muc.sariska.io".to_string()),
        ("timestamp".to_string(), "2018-02-14T00:28:07Z".to_string()),
        ("action".to_string(), "start".to_string()),
        ("type".to_string(), "stream".to_string()),
    ];
    assert_eq!(f, expected);
}

#[test]
fn report_timestamp_at_epoch() {
    let f = report_fields("r", "stop", 0);
    assert_eq!(f[1].1, "1970-01-01T00:00:00Z");
}

#[test]
fn pricing_request_carries_headers_and_body() {
    let p = pricing_request("room9", "stop", "tok".to_string(), "svc".to_string(), "http://pricing".to_string(), 0)
        .ok()
        .unwrap();
    assert_eq!(p.url, "http://pricing");
    assert_eq!(p.authorization, "tok");
    assert_eq!(p.service_token, "svc");
    let body: HashMap<String, String> = serde_json::from_str(&p.body).unwrap();
    assert_eq!(body.len(), 4);
    assert_eq!(body["roomJid"], "room9@muc.sariska.io");
    assert_eq!(body["timestamp"], "1970-01-01T00:00:00Z");
    assert_eq!(body["action"], "stop");
    assert_eq!(body["type"], "stream");
}
