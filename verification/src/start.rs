//! The start-recording workflow: from the request to the answer, one outside
//! step at a time.

use vstd::prelude::*;
use vstd::string::*;
use crate::auth::{
    bearer_token, bearer_token_spec, has_bearer_spec, jwt_header_kid, opt_string_view,
    public_key_url, public_key_url_spec, token_key_id,
};
use crate::commands::{room_key, room_key_spec, InfoCommandGet, InfoCommandSet};
use crate::request::{LookupReply, LookupView, Params};
use crate::room::{room_info_json, SetRoomInfo};
use crate::stream::{
    audio_start_response, audio_start_view, create_response_start_audio,
    create_response_start_video, pipeline_command, pipeline_command_spec, stream_location,
    stream_location_spec, video_start_response, video_start_view, AudioStartView,
    ResponseAudioStart, ResponseRecordingAlreadyStarted, ResponseVideoStart, VideoStartView,
};
use crate::text::{decimal, u32_to_decimal};

verus! {

broadcast use vstd::string::group_string_axioms;

/// Where a start request stands.
#[derive(PartialEq, Eq, Structural, Clone, Copy, Debug)]
pub enum StartPhase {
    /// Waiting for the lookup of the room's key.
    Lookup,
    /// Waiting for the token to be checked against the fetched key.
    TokenCheck,
    /// Waiting for the media pipeline to be spawned.
    Launch,
    /// Waiting for the room record to be stored.
    Store,
    /// Waiting for the usage report to be sent.
    Report,
    /// Answered.
    Finished,
}

/// What the outside world reports back.
pub enum StartEvent {
    /// The lookup of the room's key answered.
    Looked(LookupReply),
    /// The token was checked: `true` when the key was fetched and the token
    /// verifies against it.
    TokenChecked(bool),
    /// The pipeline runs as process `pid` on the host named `hostname`.
    Launched { pid: u32, hostname: String },
    /// The last request was sent.
    Acknowledged,
}

/// What to do next.
pub enum StartAction {
    /// Look the room's key up.
    Query(InfoCommandGet),
    /// Fetch the public key at `key_url` and verify `token` with it (RS256).
    CheckToken { key_url: String, token: String },
    /// Spawn `sh -c command`.
    Launch { command: String },
    /// Store the room record.
    Store(InfoCommandSet),
    /// Report usage to the pricing service.
    Report { room_name: String, action: String, authorization: String },
    /// Answer that the room is being recorded already.
    AlreadyStarted(ResponseRecordingAlreadyStarted),
    /// Answer `401` with `"{}"`.
    Unauthorized,
    /// Answer with the playback URLs of the video recording.
    VideoStarted(ResponseVideoStart),
    /// Answer with the playback URLs of the audio recording.
    AudioStarted(ResponseAudioStart),
}

/// A start request in progress.
pub struct StartRecording {
    pub room_name: String,
    pub is_audio: Option<bool>,
    pub app: String,
    pub stream: String,
    pub authorization: Option<String>,
    pub key_service: String,
    pub token: String,
    pub location: String,
    pub pipeline: String,
    pub phase: StartPhase,
}

/// The key id used to fetch the public key: the token header's `kid`, `None`
/// also when the header cannot be decoded.
pub open spec fn token_kid(token: Seq<char>) -> Option<Seq<char>> {
    match jwt_header_kid(token) {
        Some(k) => k,
        None => None,
    }
}

/// The message of the answer to a room that is being recorded already.
pub open spec fn already_started_message() -> Seq<char> {
    "Recording already started"@
}

/// What a start request is made of, as plain values: the room, whether it is
/// recorded as audio, the generated names, the `Authorization` header and the
/// key service URL.
pub struct StartRequestView {
    pub room_name: Seq<char>,
    pub is_audio: Option<bool>,
    pub app: Seq<char>,
    pub stream: Seq<char>,
    pub authorization: Option<Seq<char>>,
    pub key_service: Seq<char>,
}

/// A start request in progress, as plain values.
pub struct StartView {
    pub request: StartRequestView,
    pub token: Seq<char>,
    pub location: Seq<char>,
    pub pipeline: Seq<char>,
    pub phase: StartPhase,
}

/// An event, as plain values.
pub enum StartEventView {
    Looked(LookupView),
    TokenChecked(bool),
    Launched { pid: u32, hostname: Seq<char> },
    Acknowledged,
}

/// An action, as plain values.
pub enum StartActionView {
    Query { command: Seq<char>, arg: Seq<char>, arg2: Option<Seq<char>> },
    CheckToken { key_url: Seq<char>, token: Seq<char> },
    Launch { command: Seq<char> },
    Store { command: Seq<char>, arg: Seq<char>, value: Seq<char> },
    Report { room_name: Seq<char>, action: Seq<char>, authorization: Seq<char> },
    AlreadyStarted { started: bool, message: Seq<char> },
    Unauthorized,
    VideoStarted(VideoStartView),
    AudioStarted(AudioStartView),
}

impl View for StartRecording {
    type V = StartView;

    open spec fn view(&self) -> StartView {
        StartView {
            request: StartRequestView {
                room_name: self.room_name@,
                is_audio: self.is_audio,
                app: self.app@,
                stream: self.stream@,
                authorization: opt_string_view(self.authorization),
                key_service: self.key_service@,
            },
            token: self.token@,
            location: self.location@,
            pipeline: self.pipeline@,
            phase: self.phase,
        }
    }
}

impl View for StartEvent {
    type V = StartEventView;

    open spec fn view(&self) -> StartEventView {
        match self {
            StartEvent::Looked(r) => StartEventView::Looked(r@),
            StartEvent::TokenChecked(b) => StartEventView::TokenChecked(*b),
            StartEvent::Launched { pid, hostname } => StartEventView::Launched {
                pid: *pid,
                hostname: hostname@,
            },
            StartEvent::Acknowledged => StartEventView::Acknowledged,
        }
    }
}

impl View for StartAction {
    type V = StartActionView;

    open spec fn view(&self) -> StartActionView {
        match self {
            StartAction::Query(c) => StartActionView::Query {
                command: c.command@,
                arg: c.arg@,
                arg2: opt_string_view(c.arg2),
            },
            StartAction::CheckToken { key_url, token } => StartActionView::CheckToken {
                key_url: key_url@,
                token: token@,
            },
            StartAction::Launch { command } => StartActionView::Launch { command: command@ },
            StartAction::Store(c) => StartActionView::Store {
                command: c.command@,
                arg: c.arg@,
                value: c.arg2@,
            },
            StartAction::Report { room_name, action, authorization } => StartActionView::Report {
                room_name: room_name@,
                action: action@,
                authorization: authorization@,
            },
            StartAction::AlreadyStarted(a) => StartActionView::AlreadyStarted {
                started: a.started,
                message: a.message@,
            },
            StartAction::Unauthorized => StartActionView::Unauthorized,
            StartAction::VideoStarted(v) => StartActionView::VideoStarted(v@),
            StartAction::AudioStarted(a) => StartActionView::AudioStarted(a@),
        }
    }
}

/// The request a start makes of its query: of the query only the room name and
/// `is_audio` are read.
pub open spec fn start_request(
    params: Params,
    app: Seq<char>,
    stream: Seq<char>,
    authorization: Option<Seq<char>>,
    key_service: Seq<char>,
) -> StartRequestView {
    StartRequestView {
        room_name: params.room_name@,
        is_audio: params.is_audio,
        app,
        stream,
        authorization,
        key_service,
    }
}

/// The token, stream location and pipeline are those of the request's header.
pub open spec fn token_ready(s: StartView) -> bool {
    &&& s.request.authorization is Some
    &&& has_bearer_spec(s.request.authorization.unwrap())
    &&& s.token == bearer_token_spec(s.request.authorization.unwrap())
    &&& s.location == stream_location_spec(s.request.is_audio, s.request.app, s.request.stream, s.token)
    &&& s.pipeline == pipeline_command_spec(s.request.is_audio, s.request.room_name, s.location)
}

/// Well-formed: once the lookup is past, the token, location and pipeline are
/// those the request's header and names give.
pub open spec fn start_wf(s: StartView) -> bool {
    match s.phase {
        StartPhase::Lookup => true,
        StartPhase::Finished => true,
        _ => token_ready(s),
    }
}

/// The event is the one the phase waits for; past a lookup that found
/// nothing, the request has a header that holds the word `Bearer`.
pub open spec fn start_accepts(s: StartView, e: StartEventView) -> bool {
    match s.phase {
        StartPhase::Lookup => match e {
            StartEventView::Looked(LookupView::Found(_)) => true,
            StartEventView::Looked(_) => match s.request.authorization {
                Some(h) => has_bearer_spec(h),
                None => false,
            },
            _ => false,
        },
        StartPhase::TokenCheck => e is TokenChecked,
        StartPhase::Launch => e is Launched,
        StartPhase::Store => e is Acknowledged,
        StartPhase::Report => e is Acknowledged,
        StartPhase::Finished => false,
    }
}

/// The first state and action of a start request: look the room's key up.
pub open spec fn start_init(req: StartRequestView) -> (StartView, StartActionView) {
    (
        StartView {
            request: req,
            token: Seq::empty(),
            location: Seq::empty(),
            pipeline: Seq::empty(),
            phase: StartPhase::Lookup,
        },
        StartActionView::Query { command: "GET"@, arg: room_key_spec(req.room_name), arg2: None },
    )
}

/// The next state and action, for an event the state accepts (other pairs
/// give the state back with `Unauthorized`).
pub open spec fn start_next(s: StartView, e: StartEventView) -> (StartView, StartActionView) {
    match s.phase {
        StartPhase::Lookup => match e {
            StartEventView::Looked(LookupView::Found(_)) => (
                StartView { phase: StartPhase::Finished, ..s },
                StartActionView::AlreadyStarted { started: false, message: already_started_message() },
            ),
            StartEventView::Looked(_) => {
                let token = bearer_token_spec(s.request.authorization.unwrap());
                let location = stream_location_spec(
                    s.request.is_audio,
                    s.request.app,
                    s.request.stream,
                    token,
                );
                let pipeline = pipeline_command_spec(s.request.is_audio, s.request.room_name, location);
                (
                    StartView { token, location, pipeline, phase: StartPhase::TokenCheck, ..s },
                    StartActionView::CheckToken {
                        key_url: public_key_url_spec(s.request.key_service, token_kid(token)),
                        token,
                    },
                )
            },
            _ => (s, StartActionView::Unauthorized),
        },
        StartPhase::TokenCheck => match e {
            StartEventView::TokenChecked(true) => (
                StartView { phase: StartPhase::Launch, ..s },
                StartActionView::Launch { command: s.pipeline },
            ),
            StartEventView::TokenChecked(false) => (
                StartView { phase: StartPhase::Finished, ..s },
                StartActionView::Unauthorized,
            ),
            _ => (s, StartActionView::Unauthorized),
        },
        StartPhase::Launch => match e {
            StartEventView::Launched { pid, hostname } => (
                StartView { phase: StartPhase::Store, ..s },
                StartActionView::Store {
                    command: "SET"@,
                    arg: room_key_spec(s.request.room_name),
                    value: room_info_json(hostname, decimal(pid as nat), s.request.room_name),
                },
            ),
            _ => (s, StartActionView::Unauthorized),
        },
        StartPhase::Store => (
            StartView { phase: StartPhase::Report, ..s },
            StartActionView::Report {
                room_name: s.request.room_name,
                action: "start"@,
                authorization: s.token,
            },
        ),
        StartPhase::Report => (
            StartView { phase: StartPhase::Finished, ..s },
            if s.request.is_audio is None {
                StartActionView::VideoStarted(video_start_view(s.request.app, s.request.stream))
            } else {
                StartActionView::AudioStarted(audio_start_view(s.request.app, s.request.stream))
            },
        ),
        StartPhase::Finished => (s, StartActionView::Unauthorized),
    }
}

/// The actions of a start request that meets `events`, one per event.
pub open spec fn start_run(s: StartView, events: Seq<StartEventView>) -> Seq<StartActionView>
    decreases events.len(),
{
    if events.len() == 0 {
        Seq::empty()
    } else {
        let (next, action) = start_next(s, events[0]);
        seq![action] + start_run(next, events.drop_first())
    }
}

/// Past a lookup that found nothing, the key is fetched from the key service
/// under the `kid` that the token's JWT header names.
pub proof fn token_key_is_fetched_by_kid(s: StartView, e: StartEventView, kid: Seq<char>)
    requires
        s.phase == StartPhase::Lookup,
        e == StartEventView::Looked(LookupView::Missing) || e == StartEventView::Looked(
            LookupView::Failed,
        ),
        start_accepts(s, e),
        jwt_header_kid(bearer_token_spec(s.request.authorization.unwrap())) == Some(Some(kid)),
    ensures
        start_next(s, e).1 == (StartActionView::CheckToken {
            key_url: s.request.key_service + "/"@ + kid,
            token: bearer_token_spec(s.request.authorization.unwrap()),
        }),
{
}

/// When the token's JWT header names no `kid`, or cannot be decoded, the key
/// is fetched under the name `default string`.
pub proof fn token_key_defaults_without_kid(s: StartView, e: StartEventView)
    requires
        s.phase == StartPhase::Lookup,
        e == StartEventView::Looked(LookupView::Missing) || e == StartEventView::Looked(
            LookupView::Failed,
        ),
        start_accepts(s, e),
        jwt_header_kid(bearer_token_spec(s.request.authorization.unwrap())) == Some(
            None::<Seq<char>>,
        ) || jwt_header_kid(bearer_token_spec(s.request.authorization.unwrap())) is None,
    ensures
        start_next(s, e).1 == (StartActionView::CheckToken {
            key_url: s.request.key_service + "/"@ + "default string"@,
            token: bearer_token_spec(s.request.authorization.unwrap()),
        }),
{
}

/// Every accepted step keeps a start request well-formed.
pub proof fn start_next_keeps_wf(s: StartView, e: StartEventView)
    requires
        start_wf(s),
        start_accepts(s, e),
    ensures
        start_wf(start_next(s, e).0),
{
}

/// Two start requests whose queries differ only in `is_vod`, `is_recording`,
/// `stream_urls` and `stream_keys`, with the same names, header and key
/// service, begin alike and, meeting the same events, take the same actions.
pub proof fn start_ignores_query_extras(
    p1: Params,
    p2: Params,
    app: Seq<char>,
    stream: Seq<char>,
    authorization: Option<Seq<char>>,
    key_service: Seq<char>,
    events: Seq<StartEventView>,
)
    requires
        p1.room_name@ == p2.room_name@,
        p1.is_audio == p2.is_audio,
    ensures
        start_init(start_request(p1, app, stream, authorization, key_service)) == start_init(
            start_request(p2, app, stream, authorization, key_service),
        ),
        start_run(start_init(start_request(p1, app, stream, authorization, key_service)).0, events)
            == start_run(start_init(start_request(p2, app, stream, authorization, key_service)).0, events),
{
    assert(start_request(p1, app, stream, authorization, key_service) == start_request(
        p2,
        app,
        stream,
        authorization,
        key_service,
    ));
}

impl StartRecording {
    /// The parts of the request that every step keeps.
    pub open spec fn same_request(&self, other: &StartRecording) -> bool {
        &&& self.room_name@ == other.room_name@
        &&& self.is_audio == other.is_audio
        &&& self.app@ == other.app@
        &&& self.stream@ == other.stream@
        &&& opt_string_view(self.authorization) == opt_string_view(other.authorization)
        &&& self.key_service@ == other.key_service@
    }

    /// The event is the one the phase waits for, and, where the token is taken
    /// from the `Authorization` header, there is a header and it holds the word
    /// `Bearer`; requests without one are kept out.
    pub open spec fn accepts(&self, event: &StartEvent) -> bool {
        start_accepts(self@, event@)
    }

    /// Well-formed: see `start_wf`.
    pub open spec fn wf(&self) -> bool {
        start_wf(self@)
    }

    /// A new start request for `params`, with the fresh names `app` and
    /// `stream`, the `Authorization` header if any and the key service URL.
    /// It first looks the room's key up.
    pub fn new(
        params: &Params,
        authorization: Option<String>,
        key_service: String,
        app: String,
        stream: String,
    ) -> (r: (StartRecording, StartAction))
        ensures
            (r.0@, r.1@) == start_init(
                start_request(*params, app@, stream@, opt_string_view(authorization), key_service@),
            ),
            r.0.wf(),
            r.0.phase == StartPhase::Lookup,
            r.0.room_name@ == params.room_name@,
            r.0.is_audio == params.is_audio,
            r.0.app@ == app@,
            r.0.stream@ == stream@,
            opt_string_view(r.0.authorization) == opt_string_view(authorization),
            r.0.key_service@ == key_service@,
            r.1 matches StartAction::Query(c) && c.command@ == "GET"@ && c.arg@ == room_key_spec(
                params.room_name@,
            ) && c.arg2 is None,
    {
        let query = InfoCommandGet {
            command: "GET".to_string(),
            arg: room_key(params.room_name.as_str()),
            arg2: None,
        };
        let state = StartRecording {
            room_name: params.room_name.clone(),
            is_audio: params.is_audio,
            app,
            stream,
            authorization,
            key_service,
            token: String::new(),
            location: String::new(),
            pipeline: String::new(),
            phase: StartPhase::Lookup,
        };
        (state, StartAction::Query(query))
    }

    /// Takes the outcome of the last action and says what to do next.
    pub fn step(self, event: StartEvent) -> (r: (StartRecording, StartAction))
        requires
            self.wf(),
            self.accepts(&event),
        ensures
            (r.0@, r.1@) == start_next(self@, event@),
            r.0.wf(),
            r.0.same_request(&self),
            // The pipeline is launched only once the token was accepted.
            r.1 is Launch ==> self.phase == StartPhase::TokenCheck && event
                == StartEvent::TokenChecked(true),
            // A room that is being recorded already is answered at once.
            self.phase == StartPhase::Lookup ==> (event matches StartEvent::Looked(
                LookupReply::Found(_),
            ) ==> ({
                &&& r.0.phase == StartPhase::Finished
                &&& (r.1 matches StartAction::AlreadyStarted(a) && !a.started && a.message@
                    == already_started_message())
            })),
            // Otherwise the token is taken from the header and checked.
            self.phase == StartPhase::Lookup ==> (event matches StartEvent::Looked(rep) ==> (!(
            rep is Found) ==> ({
                let token = bearer_token_spec(self.authorization.unwrap()@);
                let location = stream_location_spec(self.is_audio, self.app@, self.stream@, token);
                &&& r.0.phase == StartPhase::TokenCheck
                &&& r.0.token@ == token
                &&& r.0.location@ == location
                &&& r.0.pipeline@ == pipeline_command_spec(self.is_audio, self.room_name@, location)
                &&& (r.1 matches StartAction::CheckToken { key_url, token: t } && key_url@
                    == public_key_url_spec(self.key_service@, token_kid(token)) && t@ == token)
            }))),
            // A refused token is answered with 401.
            self.phase == StartPhase::TokenCheck && event == StartEvent::TokenChecked(false) ==> ({
                &&& r.0.phase == StartPhase::Finished
                &&& r.1 is Unauthorized
            }),
            // Only an accepted token launches the pipeline.
            self.phase == StartPhase::TokenCheck && event == StartEvent::TokenChecked(true) ==> ({
                &&& r.0.phase == StartPhase::Launch
                &&& r.0.token@ == self.token@
                &&& (r.1 matches StartAction::Launch { command } && command@ == self.pipeline@
                    && command@ == pipeline_command_spec(
                    self.is_audio,
                    self.room_name@,
                    stream_location_spec(
                        self.is_audio,
                        self.app@,
                        self.stream@,
                        bearer_token_spec(self.authorization.unwrap()@),
                    ),
                ))
            }),
            // The running pipeline is recorded under the room's key.
            self.phase == StartPhase::Launch ==> (event matches StartEvent::Launched { pid, hostname }
                ==> ({
                &&& r.0.phase == StartPhase::Store
                &&& r.0.token@ == self.token@
                &&& (r.1 matches StartAction::Store(c) && c.command@ == "SET"@ && c.arg@
                    == room_key_spec(self.room_name@) && c.arg2@ == room_info_json(
                    hostname@,
                    decimal(pid as nat),
                    self.room_name@,
                ))
            })),
            // Then usage is reported with the token as `Authorization`.
            self.phase == StartPhase::Store ==> ({
                &&& r.0.phase == StartPhase::Report
                &&& r.0.token@ == self.token@
                &&& (r.1 matches StartAction::Report { room_name, action, authorization }
                    && room_name@ == self.room_name@ && action@ == "start"@ && authorization@
                    == self.token@ && authorization@ == bearer_token_spec(
                    self.authorization.unwrap()@,
                ))
            }),
            // And the playback URLs are answered.
            self.phase == StartPhase::Report ==> ({
                &&& r.0.phase == StartPhase::Finished
                &&& self.is_audio is None ==> (r.1 matches StartAction::VideoStarted(v)
                    && video_start_response(v, self.app@, self.stream@))
                &&& self.is_audio is Some ==> (r.1 matches StartAction::AudioStarted(a)
                    && audio_start_response(a, self.app@, self.stream@))
            }),
    {
        let StartRecording {
            room_name,
            is_audio,
            app,
            stream,
            authorization,
            key_service,
            token,
            location,
            pipeline,
            phase,
        } = self;
        match phase {
            StartPhase::Lookup => {
                let found = match &event {
                    StartEvent::Looked(LookupReply::Found(_)) => true,
                    _ => false,
                };
                if found {
                    let answer = ResponseRecordingAlreadyStarted {
                        started: false,
                        message: "Recording already started".to_string(),
                    };
                    let state = StartRecording {
                        room_name, is_audio, app, stream, authorization, key_service, token,
                        location, pipeline, phase: StartPhase::Finished,
                    };
                    return (state, StartAction::AlreadyStarted(answer));
                }
                let token = match &authorization {
                    Some(h) => bearer_token(h.as_str()),
                    None => String::new(),
                };
                let location = stream_location(is_audio, app.as_str(), stream.as_str(), token.as_str());
                let pipeline = pipeline_command(is_audio, room_name.as_str(), location.as_str());
                let kid = match token_key_id(token.as_str()) {
                    Ok(k) => k,
                    Err(_) => None,
                };
                let key_url = public_key_url(key_service.as_str(), &kid);
                let check = StartAction::CheckToken { key_url, token: token.clone() };
                let state = StartRecording {
                    room_name, is_audio, app, stream, authorization, key_service, token,
                    location, pipeline, phase: StartPhase::TokenCheck,
                };
                (state, check)
            },
            StartPhase::TokenCheck => {
                let accepted = match event {
                    StartEvent::TokenChecked(b) => b,
                    _ => false,
                };
                if accepted {
                    let command = pipeline.clone();
                    let state = StartRecording {
                        room_name, is_audio, app, stream, authorization, key_service, token,
                        location, pipeline, phase: StartPhase::Launch,
                    };
                    (state, StartAction::Launch { command })
                } else {
                    let state = StartRecording {
                        room_name, is_audio, app, stream, authorization, key_service, token,
                        location, pipeline, phase: StartPhase::Finished,
                    };
                    (state, StartAction::Unauthorized)
                }
            },
            StartPhase::Launch => {
                let (pid, hostname) = match event {
                    StartEvent::Launched { pid, hostname } => (pid, hostname),
                    _ => (0, String::new()),
                };
                let info = SetRoomInfo {
                    room_name: room_name.clone(),
                    process_id: u32_to_decimal(pid),
                    hostname,
                };
                let store = InfoCommandSet {
                    command: "SET".to_string(),
                    arg2: info.to_json(),
                    arg: room_key(room_name.as_str()),
                };
                let state = StartRecording {
                    room_name, is_audio, app, stream, authorization, key_service, token,
                    location, pipeline, phase: StartPhase::Store,
                };
                (state, StartAction::Store(store))
            },
            StartPhase::Store => {
                let report = StartAction::Report {
                    room_name: room_name.clone(),
                    action: "start".to_string(),
                    authorization: token.clone(),
                };
                let state = StartRecording {
                    room_name, is_audio, app, stream, authorization, key_service, token,
                    location, pipeline, phase: StartPhase::Report,
                };
                (state, report)
            },
            _ => {
                let answer = if is_audio.is_none() {
                    StartAction::VideoStarted(create_response_start_video(app.clone(), stream.clone()))
                } else {
                    StartAction::AudioStarted(create_response_start_audio(app.clone(), stream.clone()))
                };
                let state = StartRecording {
                    room_name, is_audio, app, stream, authorization, key_service, token,
                    location, pipeline, phase: StartPhase::Finished,
                };
                (state, answer)
            },
        }
    }
}

} // verus!
