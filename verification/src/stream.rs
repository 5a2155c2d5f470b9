//! Stream names, the RTMP location a room is pushed to, the media pipeline
//! command and the URLs handed back to the client.

use vstd::prelude::*;
use vstd::string::*;
use crate::text::{lowercase_ascii, lower_ascii_chars};

verus! {

broadcast use vstd::string::group_string_axioms;

/// Where video streams are pushed.
pub const RTMP_OUT_LOCATION_VIDEO: &'static str = "rtmp://3.7.148.117:1935";

/// Where audio streams are pushed.
pub const RTMP_OUT_LOCATION_AUDIO: &'static str = "rtmp://3.7.148.117:1935";

/// The length of a generated application or stream name.
pub const STREAM_NAME_LEN: usize = 16;

/// A character `rand`'s `Alphanumeric` can draw: A–Z, a–z or 0–9.
pub open spec fn is_alphanumeric(c: char) -> bool {
    ('A' <= c && c <= 'Z') || ('a' <= c && c <= 'z') || ('0' <= c && c <= '9')
}

/// A character of a generated name: a–z or 0–9.
pub open spec fn is_lower_alphanumeric(c: char) -> bool {
    ('a' <= c && c <= 'z') || ('0' <= c && c <= '9')
}

/// `Alphanumeric.sample_string(&mut rand::thread_rng(), len)`: `len` characters
/// each drawn from A–Z, a–z, 0–9. Which ones is left open: they are random.
#[verifier::external_body]
fn sample_alphanumeric(len: usize) -> (r: String)
    ensures
        r@.len() == len,
        forall|i: int| 0 <= i < len ==> is_alphanumeric(#[trigger] r@[i]),
{
    rand::distributions::DistString::sample_string(
        &rand::distributions::Alphanumeric,
        &mut rand::thread_rng(),
        len,
    )
}

/// A fresh random name for an application or a stream: sixteen characters
/// from a–z and 0–9.
pub fn random_stream_name() -> (r: String)
    ensures
        r@.len() == STREAM_NAME_LEN,
        forall|i: int| 0 <= i < r@.len() ==> is_lower_alphanumeric(#[trigger] r@[i]),
{
    let raw = sample_alphanumeric(STREAM_NAME_LEN);
    let r = lowercase_ascii(raw.as_str());
    assert forall|i: int| 0 <= i < r@.len() implies is_lower_alphanumeric(#[trigger] r@[i]) by {
        assert(r@[i] == lower_ascii_chars(raw@)[i]);
        assert(is_alphanumeric(raw@[i]));
    }
    r
}

/// `prefix + app + middle + stream + suffix`.
pub open spec fn framed(
    prefix: Seq<char>,
    app: Seq<char>,
    middle: Seq<char>,
    stream: Seq<char>,
    suffix: Seq<char>,
) -> Seq<char> {
    prefix + app + middle + stream + suffix
}

/// `format!("{prefix}{app}{middle}{stream}{suffix}")`.
fn frame(prefix: &str, app: &str, middle: &str, stream: &str, suffix: &str) -> (r: String)
    ensures
        r@ == framed(prefix@, app@, middle@, stream@, suffix@),
{
    let mut r = prefix.to_string();
    r.append(app);
    r.append(middle);
    r.append(stream);
    r.append(suffix);
    r
}

/// Whether the room is recorded as audio only: the query carried `is_audio`
/// at all, whatever its value.
pub open spec fn audio_only(is_audio: Option<bool>) -> bool {
    is_audio is Some
}

/// The RTMP location a room is pushed to: `{base}/{app}/{stream}?vhost=…&token={token}`,
/// with the audio base and `aac.sariska.io` for audio rooms and the video base and
/// `flv.sariska.io` otherwise.
pub open spec fn stream_location_spec(
    is_audio: Option<bool>,
    app: Seq<char>,
    stream: Seq<char>,
    token: Seq<char>,
) -> Seq<char> {
    if audio_only(is_audio) {
        framed(RTMP_OUT_LOCATION_AUDIO@ + "/"@, app, "/"@, stream, "?vhost=aac.sariska.io&token="@)
            + token
    } else {
        framed(RTMP_OUT_LOCATION_VIDEO@ + "/"@, app, "/"@, stream, "?vhost=flv.sariska.io&token="@)
            + token
    }
}

pub fn stream_location(is_audio: Option<bool>, app: &str, stream: &str, token: &str) -> (r: String)
    ensures
        r@ == stream_location_spec(is_audio, app@, stream@, token@),
{
    let base = if is_audio.is_some() {
        RTMP_OUT_LOCATION_AUDIO
    } else {
        RTMP_OUT_LOCATION_VIDEO
    };
    let mut prefix = base.to_string();
    prefix.append("/");
    let mut r = if is_audio.is_some() {
        frame(prefix.as_str(), app, "/", stream, "?vhost=aac.sariska.io&token=")
    } else {
        frame(prefix.as_str(), app, "/", stream, "?vhost=flv.sariska.io&token=")
    };
    r.append(token);
    r
}

/// The shell command that joins a room and pushes it to `location`: the
/// composited video pipeline, or the audio-only one for audio rooms.
pub open spec fn pipeline_command_spec(
    is_audio: Option<bool>,
    room_name: Seq<char>,
    location: Seq<char>,
) -> Seq<char> {
    if audio_only(is_audio) {
        "./gst-meet --web-socket-url=wss://api.sariska.io/api/v1/media/websocket --xmpp-domain=sariska.io  --muc-domain=muc.sariska.io --room-name="@
            + room_name
            + " --recv-pipeline='audiomixer name=audio ! voaacenc bitrate=128000 flvmux streamable=true name=mux ! rtmpsink location="@
            + location + "'"@
    } else {
        "./gst-meet --web-socket-url=wss://api.sariska.io/api/v1/media/websocket --xmpp-domain=sariska.io  --muc-domain=muc.sariska.io --recv-video-scale-width=640 --recv-video-scale-height=360 --room-name="@
            + room_name
            + " --recv-pipeline='audiomixer name=audio ! voaacenc bitrate=128000 ! mux. compositor name=video sink_1::xpos=640 ! queue ! x264enc cabac=1 bframes=2 ref=1 ! video/x-h264,profile=main ! flvmux streamable=true name=mux ! rtmpsink location="@
            + location + "'"@
    }
}

pub fn pipeline_command(is_audio: Option<bool>, room_name: &str, location: &str) -> (r: String)
    ensures
        r@ == pipeline_command_spec(is_audio, room_name@, location@),
{
    let mut r = if is_audio.is_some() {
        "./gst-meet --web-socket-url=wss://api.sariska.io/api/v1/media/websocket --xmpp-domain=sariska.io  --muc-domain=muc.sariska.io --room-name=".to_string()
    } else {
        "./gst-meet --web-socket-url=wss://api.sariska.io/api/v1/media/websocket --xmpp-domain=sariska.io  --muc-domain=muc.sariska.io --recv-video-scale-width=640 --recv-video-scale-height=360 --room-name=".to_string()
    };
    r.append(room_name);
    if is_audio.is_some() {
        r.append(" --recv-pipeline='audiomixer name=audio ! voaacenc bitrate=128000 flvmux streamable=true name=mux ! rtmpsink location=");
    } else {
        r.append(" --recv-pipeline='audiomixer name=audio ! voaacenc bitrate=128000 ! mux. compositor name=video sink_1::xpos=640 ! queue ! x264enc cabac=1 bframes=2 ref=1 ! video/x-h264,profile=main ! flvmux streamable=true name=mux ! rtmpsink location=");
    }
    r.append(location);
    r.append("'");
    r
}

/// The answer to a started audio recording.
pub struct ResponseAudioStart {
    pub started: bool,
    pub hls_url: String,
    pub dash_url: String,
    pub rtmp_url: String,
    pub aac_url: String,
    pub srt_url: String,
    pub hds_url: String,
}

/// The answer to a started video recording.
pub struct ResponseVideoStart {
    pub started: bool,
    pub hls_url: String,
    pub dash_url: String,
    pub rtmp_url: String,
    pub flv_url: String,
    pub srt_url: String,
    pub hds_url: String,
}

/// The answer to a stop request.
pub struct ResponseStop {
    pub started: bool,
}

/// The answer when the room is being recorded already.
pub struct ResponseRecordingAlreadyStarted {
    pub started: bool,
    pub message: String,
}

pub open spec fn hls_url(app: Seq<char>, stream: Seq<char>) -> Seq<char> {
    framed("https://edge.sariska.io/play/hls/"@, app, "/"@, stream, ".m3u8"@)
}

pub open spec fn hds_url(app: Seq<char>, stream: Seq<char>) -> Seq<char> {
    framed("https://edge.sariska.io/play/hds/"@, app, "/"@, stream, ".f4m"@)
}

pub open spec fn dash_url(app: Seq<char>, stream: Seq<char>) -> Seq<char> {
    framed("https://edge.sariska.io/play/dash/"@, app, "/"@, stream, ".mpd"@)
}

/// An audio-start answer, as plain text.
pub struct AudioStartView {
    pub started: bool,
    pub hls_url: Seq<char>,
    pub dash_url: Seq<char>,
    pub rtmp_url: Seq<char>,
    pub aac_url: Seq<char>,
    pub srt_url: Seq<char>,
    pub hds_url: Seq<char>,
}

impl View for ResponseAudioStart {
    type V = AudioStartView;

    open spec fn view(&self) -> AudioStartView {
        AudioStartView {
            started: self.started,
            hls_url: self.hls_url@,
            dash_url: self.dash_url@,
            rtmp_url: self.rtmp_url@,
            aac_url: self.aac_url@,
            srt_url: self.srt_url@,
            hds_url: self.hds_url@,
        }
    }
}

/// A video-start answer, as plain text.
pub struct VideoStartView {
    pub started: bool,
    pub hls_url: Seq<char>,
    pub dash_url: Seq<char>,
    pub rtmp_url: Seq<char>,
    pub flv_url: Seq<char>,
    pub srt_url: Seq<char>,
    pub hds_url: Seq<char>,
}

impl View for ResponseVideoStart {
    type V = VideoStartView;

    open spec fn view(&self) -> VideoStartView {
        VideoStartView {
            started: self.started,
            hls_url: self.hls_url@,
            dash_url: self.dash_url@,
            rtmp_url: self.rtmp_url@,
            flv_url: self.flv_url@,
            srt_url: self.srt_url@,
            hds_url: self.hds_url@,
        }
    }
}

/// The playback URLs of an audio recording (the AAC URL has no `/` after
/// the port and the RTMP URL none between application and stream).
pub open spec fn audio_start_view(app: Seq<char>, stream: Seq<char>) -> AudioStartView {
    AudioStartView {
        started: true,
        hls_url: hls_url(app, stream),
        hds_url: hds_url(app, stream),
        dash_url: dash_url(app, stream),
        aac_url: framed("http://a1888dceaa234469683e47544f5f0d33-c703d14b936b1688.elb.ap-south-1.amazonaws.com:8080"@, app, "/"@, stream, ".aac?vhost=aac.sariska.io"@),
        rtmp_url: framed("rtmp://a1888dceaa234469683e47544f5f0d33-c703d14b936b1688.elb.ap-south-1.amazonaws.com:1935/"@, app, ""@, stream, "?vhost=aac.sariska.io"@),
        srt_url: framed("srt://a23d4c35634a24dd8a0a932f57f40380-f2266220d83cf36b.elb.ap-south-1.amazonaws.com:10080?streamid=#!::r="@, app, "/"@, stream, ",m=request&vhost=aac.sariska.io"@),
    }
}

/// The playback URLs of a video recording (the RTMP URL has no `/` between
/// application and stream).
pub open spec fn video_start_view(app: Seq<char>, stream: Seq<char>) -> VideoStartView {
    VideoStartView {
        started: true,
        hls_url: hls_url(app, stream),
        hds_url: hds_url(app, stream),
        dash_url: dash_url(app, stream),
        rtmp_url: framed("rtmp://a1888dceaa234469683e47544f5f0d33-c703d14b936b1688.elb.ap-south-1.amazonaws.com:1935/"@, app, ""@, stream, "?vhost=flv.sariska.io"@),
        flv_url: framed("http://a1888dceaa234469683e47544f5f0d33-c703d14b936b1688.elb.ap-south-1.amazonaws.com:8080/"@, app, "/"@, stream, ".flv?vhost=flv.sariska.io"@),
        srt_url: framed("srt://a23d4c35634a24dd8a0a932f57f40380-f2266220d83cf36b.elb.ap-south-1.amazonaws.com:10080?streamid=#!::r="@, app, "/"@, stream, ",m=request&vhost=flv.sariska.io"@),
    }
}

/// `r` holds the playback URLs of the audio recording of `stream` in `app`.
pub open spec fn audio_start_response(r: ResponseAudioStart, app: Seq<char>, stream: Seq<char>) -> bool {
    r@ == audio_start_view(app, stream)
}

/// `r` holds the playback URLs of the video recording of `stream` in `app`.
pub open spec fn video_start_response(r: ResponseVideoStart, app: Seq<char>, stream: Seq<char>) -> bool {
    r@ == video_start_view(app, stream)
}

pub fn create_response_start_audio(app: String, stream: String) -> (r: ResponseAudioStart)
    ensures
        audio_start_response(r, app@, stream@),
{
    let a = app.as_str();
    let s = stream.as_str();
    ResponseAudioStart {
        started: true,
        hls_url: frame("https://edge.sariska.io/play/hls/", a, "/", s, ".m3u8"),
        hds_url: frame("https://edge.sariska.io/play/hds/", a, "/", s, ".f4m"),
        dash_url: frame("https://edge.sariska.io/play/dash/", a, "/", s, ".mpd"),
        aac_url: frame("http://a1888dceaa234469683e47544f5f0d33-c703d14b936b1688.elb.ap-south-1.amazonaws.com:8080", a, "/", s, ".aac?vhost=aac.sariska.io"),
        rtmp_url: frame("rtmp://a1888dceaa234469683e47544f5f0d33-c703d14b936b1688.elb.ap-south-1.amazonaws.com:1935/", a, "", s, "?vhost=aac.sariska.io"),
        srt_url: frame("srt://a23d4c35634a24dd8a0a932f57f40380-f2266220d83cf36b.elb.ap-south-1.amazonaws.com:10080?streamid=#!::r=", a, "/", s, ",m=request&vhost=aac.sariska.io"),
    }
}


pub fn create_response_start_video(app: String, stream: String) -> (r: ResponseVideoStart)
    ensures
        video_start_response(r, app@, stream@),
{
    let a = app.as_str();
    let s = stream.as_str();
    ResponseVideoStart {
        started: true,
        hls_url: frame("https://edge.sariska.io/play/hls/", a, "/", s, ".m3u8"),
        hds_url: frame("https://edge.sariska.io/play/hds/", a, "/", s, ".f4m"),
        dash_url: frame("https://edge.sariska.io/play/dash/", a, "/", s, ".mpd"),
        rtmp_url: frame("rtmp://a1888dceaa234469683e47544f5f0d33-c703d14b936b1688.elb.ap-south-1.amazonaws.com:1935/", a, "", s, "?vhost=flv.sariska.io"),
        flv_url: frame("http://a1888dceaa234469683e47544f5f0d33-c703d14b936b1688.elb.ap-south-1.amazonaws.com:8080/", a, "/", s, ".flv?vhost=flv.sariska.io"),
        srt_url: frame("srt://a23d4c35634a24dd8a0a932f57f40380-f2266220d83cf36b.elb.ap-south-1.amazonaws.com:10080?streamid=#!::r=", a, "/", s, ",m=request&vhost=flv.sariska.io"),
    }
}


/// The location ends with the token exactly as given, after `&token=`; in
/// front stand the RTMP base, the application and the stream.
pub proof fn location_carries_token(
    is_audio: Option<bool>,
    app: Seq<char>,
    stream: Seq<char>,
    token: Seq<char>,
)
    ensures
        ({
            let loc = stream_location_spec(is_audio, app, stream, token);
            let vhost = if is_audio is Some {
                "?vhost=aac.sariska.io&token="@
            } else {
                "?vhost=flv.sariska.io&token="@
            };
            let base = if is_audio is Some {
                RTMP_OUT_LOCATION_AUDIO@
            } else {
                RTMP_OUT_LOCATION_VIDEO@
            };
            &&& loc == base + "/"@ + app + "/"@ + stream + vhost + token
            &&& loc.len() >= token.len()
            &&& loc.subrange(loc.len() - token.len(), loc.len() as int) == token
        }),
{
    let loc = stream_location_spec(is_audio, app, stream, token);
    let head = if is_audio is Some {
        framed(RTMP_OUT_LOCATION_AUDIO@ + "/"@, app, "/"@, stream, "?vhost=aac.sariska.io&token="@)
    } else {
        framed(RTMP_OUT_LOCATION_VIDEO@ + "/"@, app, "/"@, stream, "?vhost=flv.sariska.io&token="@)
    };
    assert(loc == head + token);
    assert((head + token).subrange(head.len() as int, (head + token).len() as int) =~= token);
}

/// The whole location goes into the command, whatever its length: the command
/// ends with `rtmpsink location=`, the location and a closing quote, begins
/// with its fixed head and the room name, and is exactly as long as its fixed
/// parts, the room name and the location.
pub proof fn pipeline_runs_whole_location(
    is_audio: Option<bool>,
    room_name: Seq<char>,
    location: Seq<char>,
)
    ensures
        ({
            let cmd = pipeline_command_spec(is_audio, room_name, location);
            let tail = "rtmpsink location="@ + location + "'"@;
            let head = if is_audio is Some { "./gst-meet --web-socket-url=wss://api.sariska.io/api/v1/media/websocket --xmpp-domain=sariska.io  --muc-domain=muc.sariska.io --room-name="@ } else { "./gst-meet --web-socket-url=wss://api.sariska.io/api/v1/media/websocket --xmpp-domain=sariska.io  --muc-domain=muc.sariska.io --recv-video-scale-width=640 --recv-video-scale-height=360 --room-name="@ };
            let middle = if is_audio is Some { " --recv-pipeline='audiomixer name=audio ! voaacenc bitrate=128000 flvmux streamable=true name=mux ! rtmpsink location="@ } else { " --recv-pipeline='audiomixer name=audio ! voaacenc bitrate=128000 ! mux. compositor name=video sink_1::xpos=640 ! queue ! x264enc cabac=1 bframes=2 ref=1 ! video/x-h264,profile=main ! flvmux streamable=true name=mux ! rtmpsink location="@ };
            &&& cmd.len() == head.len() + room_name.len() + middle.len() + location.len() + 1
            &&& cmd.len() >= tail.len()
            &&& cmd.subrange(cmd.len() - tail.len(), cmd.len() as int) == tail
            &&& cmd.subrange(0, (head.len() + room_name.len()) as int) == head + room_name
        }),
{
    reveal_strlit("'");
    reveal_strlit("rtmpsink location=");
    reveal_strlit(" --recv-pipeline='audiomixer name=audio ! voaacenc bitrate=128000 flvmux streamable=true name=mux ! rtmpsink location=");
    reveal_strlit(" --recv-pipeline='audiomixer name=audio ! voaacenc bitrate=128000 ! mux. compositor name=video sink_1::xpos=640 ! queue ! x264enc cabac=1 bframes=2 ref=1 ! video/x-h264,profile=main ! flvmux streamable=true name=mux ! rtmpsink location=");
    let cmd = pipeline_command_spec(is_audio, room_name, location);
    let tail = "rtmpsink location="@ + location + "'"@;
    let head = if is_audio is Some { "./gst-meet --web-socket-url=wss://api.sariska.io/api/v1/media/websocket --xmpp-domain=sariska.io  --muc-domain=muc.sariska.io --room-name="@ } else { "./gst-meet --web-socket-url=wss://api.sariska.io/api/v1/media/websocket --xmpp-domain=sariska.io  --muc-domain=muc.sariska.io --recv-video-scale-width=640 --recv-video-scale-height=360 --room-name="@ };
    let middle = if is_audio is Some { " --recv-pipeline='audiomixer name=audio ! voaacenc bitrate=128000 flvmux streamable=true name=mux ! rtmpsink location="@ } else { " --recv-pipeline='audiomixer name=audio ! voaacenc bitrate=128000 ! mux. compositor name=video sink_1::xpos=640 ! queue ! x264enc cabac=1 bframes=2 ref=1 ! video/x-h264,profile=main ! flvmux streamable=true name=mux ! rtmpsink location="@ };
    assert(cmd == head + room_name + middle + location + "'"@);
    let k = middle.len() - 18;
    assert(middle.subrange(k, middle.len() as int) =~= "rtmpsink location="@);
    let front = head + room_name + middle.subrange(0, k);
    assert(cmd =~= front + tail);
    assert(cmd.subrange(cmd.len() - tail.len(), cmd.len() as int) =~= tail);
    assert(cmd.subrange(0, (head.len() + room_name.len()) as int) =~= head + room_name);
}

} // verus!
