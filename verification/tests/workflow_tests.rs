use rust_webserver::request::{LookupReply, Params};
use rust_webserver::room::SetRoomInfo;
use rust_webserver::start::{StartAction, StartEvent, StartPhase, StartRecording};
use rust_webserver::stop::{StopAction, StopEvent, StopPhase, StopRecording};

fn params(room: &str, is_audio: Option<bool>) -> Params {
    Params {
        room_name: room.to_string(),
        is_audio,
        is_vod: None,
        is_recording: None,
        stream_urls: None,
        stream_keys: None,
    }
}

fn begin(is_audio: Option<bool>) -> StartRecording {
    let (s, a) = StartRecording::new(
        &params("room1", is_audio),
        Some("Bearer tok.en.x ".to_string()),
        "https://keys".to_string(),
        "app1".to_string(),
        "st1".to_string(),
    );
    match a {
        StartAction::Query(c) => {
            assert_eq!(c.command, "GET");
            assert_eq!(c.arg, "production::room_key::room1");
            assert!(c.arg2.is_none());
        }
        _ => panic!("first the room is looked up"),
    }
    assert_eq!(s.phase, StartPhase::Lookup);
    s
}

#[test]
fn start_when_already_recording() {
    let (s, a) = begin(None).step(StartEvent::Looked(LookupReply::Found("{}".to_string())));
    assert_eq!(s.phase, StartPhase::Finished);
    match a {
        StartAction::AlreadyStarted(r) => {
            assert!(!r.started);
            assert_eq!(r.message, "Recording already started");
        }
        _ => panic!("expected the already-started answer"),
    }
}

#[test]
fn start_with_refused_token_never_launches() {
    let (s, a) = begin(None).step(StartEvent::Looked(LookupReply::Failed));
    match a {
        StartAction::CheckToken { key_url, token } => {
            assert_eq!(token, "tok.en.x");
            assert_eq!(key_url, "https://keys/default string");
        }
        _ => panic!("expected the token check"),
    }
    let (s, a) = s.step(StartEvent::TokenChecked(false));
    assert_eq!(s.phase, StartPhase::Finished);
    assert!(matches!(a, StartAction::Unauthorized));
}

#[test]
fn start_video_recording_end_to_end() {
    let (s, a) = begin(None).step(StartEvent::Looked(LookupReply::Missing));
    assert!(matches!(a, StartAction::CheckToken { .. }));
    assert_eq!(s.location, "rtmp://3.7.148.117:1935/app1/st1?vhost=flv.sariska.io&token=tok.en.x");
    let (s, a) = s.step(StartEvent::TokenChecked(true));
    match a {
        StartAction::Launch { command } => {
            assert!(command.starts_with("./gst-meet "));
            assert!(command.contains("--room-name=room1 "));
            assert!(command.ends_with("rtmpsink location=rtmp://3.7.148.117:1935/app1/st1?vhost=flv.sariska.io&token=tok.en.x'"));
        }
        _ => panic!("expected the launch"),
    }
    let (s, a) = s.step(StartEvent::Launched { pid: 4321, hostname: "host-a".to_string() });
    match a {
        StartAction::Store(c) => {
            assert_eq!(c.command, "SET");
            assert_eq!(c.arg, "production::room_key::room1");
            assert_eq!(c.arg2, "{\"hostname\":\"host-a\",\"process_id\":\"4321\",\"room_name\":\"room1\"}");
        }
        _ => panic!("expected the store"),
    }
    let (s, a) = s.step(StartEvent::Acknowledged);
    match a {
        StartAction::Report { room_name, action, authorization } => {
            assert_eq!(room_name, "room1");
            assert_eq!(action, "start");
            assert_eq!(authorization, "tok.en.x");
        }
        _ => panic!("expected the report"),
    }
    let (s, a) = s.step(StartEvent::Acknowledged);
    assert_eq!(s.phase, StartPhase::Finished);
    match a {
        StartAction::VideoStarted(r) => assert_eq!(r.hls_url, "https://edge.sariska.io/play/hls/app1/st1.m3u8"),
        _ => panic!("expected the video answer"),
    }
}

#[test]
fn start_audio_recording_when_is_audio_is_false() {
    let (s, _) = begin(Some(false)).step(StartEvent::Looked(LookupReply::Missing));
    assert_eq!(s.location, "rtmp://3.7.148.117:1935/app1/st1?vhost=aac.sariska.io&token=tok.en.x");
    let (s, _) = s.step(StartEvent::TokenChecked(true));
    let (s, _) = s.step(StartEvent::Launched { pid: 1, hostname: "h".to_string() });
    let (s, _) = s.step(StartEvent::Acknowledged);
    let (_, a) = s.step(StartEvent::Acknowledged);
    match a {
        StartAction::AudioStarted(r) => assert_eq!(r.aac_url.ends_with("app1/st1.aac?vhost=aac.sariska.io"), true),
        _ => panic!("expected the audio answer"),
    }
}

fn stop_begin() -> StopRecording {
    let (s, a) = StopRecording::new(&params("room1", None), "Bearer tk");
    assert_eq!(s.token, "tk");
    match a {
        StopAction::Query(c) => assert_eq!(c.arg, "production::room_key::room1"),
        _ => panic!("first the room is looked up"),
    }
    s
}

fn finish_stop(s: StopRecording) {
    let (s, a) = s.step(StopEvent::Acknowledged);
    match a {
        StopAction::Report { room_name, action, authorization } => {
            assert_eq!(room_name, "room1");
            assert_eq!(action, "stop");
            assert_eq!(authorization, "tk");
        }
        _ => panic!("expected the report"),
    }
    let (s, a) = s.step(StopEvent::Acknowledged);
    assert_eq!(s.phase, StopPhase::Finished);
    match a {
        StopAction::Stopped(r) => assert!(!r.started),
        _ => panic!("expected the answer"),
    }
}

fn expect_delete(s: StopRecording, a: StopAction) -> StopRecording {
    assert_eq!(s.phase, StopPhase::Delete);
    match a {
        StopAction::Delete(c) => {
            assert_eq!(c.command, "DEL");
            assert_eq!(c.arg, "production::room_key::room1");
        }
        _ => panic!("expected the delete"),
    }
    s
}

#[test]
fn stop_recording_on_this_host() {
    let value = "{\"hostname\":\"me\",\"process_id\":\"99\",\"room_name\":\"room1\"}".to_string();
    let info = SetRoomInfo { hostname: "me".to_string(), process_id: "99".to_string(), room_name: "room1".to_string() };
    let (s, a) = stop_begin().step(StopEvent::Recorded { value, info, hostname: "me".to_string() });
    assert!(matches!(a, StopAction::Terminate { pid: 99 }));
    let (s, a) = s.step(StopEvent::Acknowledged);
    let s = expect_delete(s, a);
    finish_stop(s);
}

#[test]
fn stop_recording_on_another_host() {
    let value = "{\"hostname\":\"them\",\"process_id\":\"x\",\"room_name\":\"room1\"}".to_string();
    let info = SetRoomInfo { hostname: "them".to_string(), process_id: "x".to_string(), room_name: "room1".to_string() };
    let (s, a) = stop_begin().step(StopEvent::Recorded { value: value.clone(), info, hostname: "me".to_string() });
    match a {
        StopAction::Publish(c) => {
            assert_eq!(c.command, "PUBLISH");
            assert_eq!(c.channel, "sariska_channel");
            assert_eq!(c.message, value);
        }
        _ => panic!("expected the publish"),
    }
    let (s, a) = s.step(StopEvent::Acknowledged);
    let s = expect_delete(s, a);
    finish_stop(s);
}

#[test]
fn stop_without_record_still_deletes_and_reports() {
    let (s, a) = stop_begin().step(StopEvent::NotRecorded);
    let s = expect_delete(s, a);
    finish_stop(s);
}

fn run_start(p: &Params) -> Vec<String> {
    let (mut s, mut a) = StartRecording::new(
        p,
        Some("Bearer tok".to_string()),
        "https://keys".to_string(),
        "app1".to_string(),
        "st1".to_string(),
    );
    let events = vec![
        StartEvent::Looked(LookupReply::Missing),
        StartEvent::TokenChecked(true),
        StartEvent::Launched { pid: 5, hostname: "h".to_string() },
        StartEvent::Acknowledged,
        StartEvent::Acknowledged,
    ];
    let mut seen = Vec::new();
    for e in events {
        seen.push(match &a {
            StartAction::Query(c) => format!("query {} {}", c.command, c.arg),
            StartAction::CheckToken { key_url, token } => format!("check {} {}", key_url, token),
            StartAction::Launch { command } => format!("launch {}", command),
            StartAction::Store(c) => format!("store {} {} {}", c.command, c.arg, c.arg2),
            StartAction::Report { room_name, action, authorization } => format!("report {} {} {}", room_name, action, authorization),
            _ => "other".to_string(),
        });
        let next = s.step(e);
        s = next.0;
        a = next.1;
    }
    match a {
        StartAction::VideoStarted(r) => seen.push(format!("video {} {}", r.hls_url, r.flv_url)),
        StartAction::AudioStarted(r) => seen.push(format!("audio {} {}", r.hls_url, r.aac_url)),
        _ => seen.push("other".to_string()),
    }
    seen
}

#[test]
fn start_ignores_vod_recording_urls_and_keys() {
    let plain = params("room1", None);
    let mut extra = params("room1", None);
    extra.is_vod = Some(true);
    extra.is_recording = Some(false);
    extra.stream_urls = Some(vec!["rtmp://x".to_string()]);
    extra.stream_keys = Some(vec![rust_webserver::request::StreamKeyDict {
        stream_key: "k".to_string(),
        stream_value: "v".to_string(),
    }]);
    assert_eq!(run_start(&plain), run_start(&extra));
}
