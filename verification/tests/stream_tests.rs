use rust_webserver::stream::{
    create_response_start_audio, create_response_start_video, pipeline_command, random_stream_name,
    stream_location,
};

#[test]
fn locations_for_video_and_audio() {
    assert_eq!(
        stream_location(None, "app1", "st1", "tok"),
        "rtmp://3.7.148.117:1935/app1/st1?vhost=flv.sariska.io&token=tok"
    );
    assert_eq!(
        stream_location(Some(true), "app1", "st1", "tok"),
        "rtmp://3.7.148.117:1935/app1/st1?vhost=aac.sariska.io&token=tok"
    );
    assert_eq!(
        stream_location(Some(false), "a", "s", "t"),
        "rtmp://3.7.148.117:1935/a/s?vhost=aac.sariska.io&token=t"
    );
}

#[test]
fn video_pipeline_command() {
    assert_eq!(
        pipeline_command(None, "room1", "LOC"),
        "./gst-meet --web-socket-url=wss://api.sariska.io/api/v1/media/websocket --xmpp-domain=sariska.io  --muc-domain=muc.sariska.io --recv-video-scale-width=640 --recv-video-scale-height=360 --room-name=room1 --recv-pipeline='audiomixer name=audio ! voaacenc bitrate=128000 ! mux. compositor name=video sink_1::xpos=640 ! queue ! x264enc cabac=1 bframes=2 ref=1 ! video/x-h264,profile=main ! flvmux streamable=true name=mux ! rtmpsink location=LOC'"
    );
}

#[test]
fn audio_pipeline_command() {
    assert_eq!(
        pipeline_command(Some(true), "room1", "LOC"),
        "./gst-meet --web-socket-url=wss://api.sariska.io/api/v1/media/websocket --xmpp-domain=sariska.io  --muc-domain=muc.sariska.io --room-name=room1 --recv-pipeline='audiomixer name=audio ! voaacenc bitrate=128000 flvmux streamable=true name=mux ! rtmpsink location=LOC'"
    );
}

#[test]
fn audio_start_urls() {
    let r = create_response_start_audio("app".to_string(), "st".to_string());
    assert!(r.started);
    assert_eq!(r.hls_url, "https://edge.sariska.io/play/hls/app/st.m3u8");
    assert_eq!(r.hds_url, "https://edge.sariska.io/play/hds/app/st.f4m");
    assert_eq!(r.dash_url, "https://edge.sariska.io/play/dash/app/st.mpd");
    assert_eq!(r.aac_url, "http://a1888dceaa234469683e47544f5f0d33-c703d14b936b1688.elb.ap-south-1.amazonaws.com:8080app/st.aac?vhost=aac.sariska.io");
    assert_eq!(r.rtmp_url, "rtmp://a1888dceaa234469683e47544f5f0d33-c703d14b936b1688.elb.ap-south-1.amazonaws.com:1935/appst?vhost=aac.sariska.io");
    assert_eq!(r.srt_url, "srt://a23d4c35634a24dd8a0a932f57f40380-f2266220d83cf36b.elb.ap-south-1.amazonaws.com:10080?streamid=#!::r=app/st,m=request&vhost=aac.sariska.io");
}

#[test]
fn video_start_urls() {
    let r = create_response_start_video("app".to_string(), "st".to_string());
    assert!(r.started);
    assert_eq!(r.hls_url, "https://edge.sariska.io/play/hls/app/st.m3u8");
    assert_eq!(r.hds_url, "https://edge.sariska.io/play/hds/app/st.f4m");
    assert_eq!(r.dash_url, "https://edge.sariska.io/play/dash/app/st.mpd");
    assert_eq!(r.rtmp_url, "rtmp://a1888dceaa234469683e47544f5f0d33-c703d14b936b1688.elb.ap-south-1.amazonaws.com:1935/appst?vhost=flv.sariska.io");
    assert_eq!(r.flv_url, "http://a1888dceaa234469683e47544f5f0d33-c703d14b936b1688.elb.ap-south-1.amazonaws.com:8080/app/st.flv?vhost=flv.sariska.io");
    assert_eq!(r.srt_url, "srt://a23d4c35634a24dd8a0a932f57f40380-f2266220d83cf36b.elb.ap-south-1.amazonaws.com:10080?streamid=#!::r=app/st,m=request&vhost=flv.sariska.io");
}

#[test]
fn random_names_are_lowercase_alphanumeric() {
    for _ in 0..20 {
        let n = random_stream_name();
        assert_eq!(n.chars().count(), 16);
        assert!(n.chars().all(|c| c.is_ascii_lowercase() || c.is_ascii_digit()));
    }
}
