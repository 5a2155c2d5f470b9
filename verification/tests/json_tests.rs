use rust_webserver::json::push_json_string;
use rust_webserver::room::SetRoomInfo;

fn json(s: &str) -> String {
    let mut out = String::new();
    push_json_string(&mut out, s);
    out
}

#[test]
fn json_string_escapes() {
    assert_eq!(json("plain"), "\"plain\"");
    assert_eq!(json("a\"b\\c"), "\"a\\\"b\\\\c\"");
    assert_eq!(json("\u{8}\t\n\u{c}\r"), "\"\\b\\t\\n\\f\\r\"");
    assert_eq!(json("\u{0}\u{1f}"), "\"\\u0000\\u001f\"");
    assert_eq!(json("\u{7f}é/"), "\"\u{7f}é/\"");
}

#[test]
fn json_string_matches_serde_json() {
    for s in ["", "x", "\"", "\\", "\u{1}\u{b}\u{1e}", "ümlaut ✓", "tab\there"] {
        assert_eq!(json(s), serde_json::to_string(s).unwrap());
    }
}

#[test]
fn json_string_appends() {
    let mut out = String::from("k:");
    push_json_string(&mut out, "v");
    assert_eq!(out, "k:\"v\"");
}

#[test]
fn room_info_json_layout() {
    let info = SetRoomInfo {
        hostname: "host-1".to_string(),
        process_id: "4321".to_string(),
        room_name: "my \"room\"".to_string(),
    };
    assert_eq!(
        info.to_json(),
        "{\"hostname\":\"host-1\",\"process_id\":\"4321\",\"room_name\":\"my \\\"room\\\"\"}"
    );
    let back: serde_json::Value = serde_json::from_str(&info.to_json()).unwrap();
    assert_eq!(back["hostname"], "host-1");
    assert_eq!(back["process_id"], "4321");
    assert_eq!(back["room_name"], "my \"room\"");
}

#[test]
fn local_process_when_record_names_this_host() {
    let info = SetRoomInfo {
        hostname: "h".to_string(),
        process_id: "77".to_string(),
        room_name: "r".to_string(),
    };
    assert_eq!(info.local_process("h"), Some(77));
    assert_eq!(info.local_process("other"), None);
}
