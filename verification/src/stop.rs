//! The stop-recording workflow: from the request to the answer, one outside
//! step at a time.

use vstd::prelude::*;
use vstd::string::*;
use crate::auth::{bearer_token, bearer_token_spec, has_bearer_spec};
use crate::commands::{room_key, room_key_spec, InfoCommandDel, InfoCommandGet, InfoCommandPublish};
use crate::request::Params;
use crate::room::SetRoomInfo;
use crate::stream::ResponseStop;
use crate::text::parse_i32_spec;

verus! {

broadcast use vstd::string::group_string_axioms;

/// The channel on which other hosts are asked to stop a recording.
pub open spec fn stop_channel() -> Seq<char> {
    "sariska_channel"@
}

/// Where a stop request stands.
#[derive(PartialEq, Eq, Structural, Clone, Copy, Debug)]
pub enum StopPhase {
    /// Waiting for the lookup of the room's key.
    Lookup,
    /// Waiting for the recording to be signalled or the stop to be published.
    Notify,
    /// Waiting for the room's key to be deleted.
    Delete,
    /// Waiting for the usage report to be sent.
    Report,
    /// Answered.
    Finished,
}

/// What the outside world reports back.
pub enum StopEvent {
    /// The room's key holds `value`, which reads as the record `info`; this
    /// host is named `hostname`.
    Recorded { value: String, info: SetRoomInfo, hostname: String },
    /// The room's key is not set, or the lookup failed.
    NotRecorded,
    /// The last request was sent.
    Acknowledged,
}

/// What to do next.
pub enum StopAction {
    /// Look the room's key up.
    Query(InfoCommandGet),
    /// Send `SIGTERM` to process `pid` on this host.
    Terminate { pid: i32 },
    /// Ask the other hosts to stop the recording.
    Publish(InfoCommandPublish),
    /// Delete the room's key.
    Delete(InfoCommandDel),
    /// Report usage to the pricing service.
    Report { room_name: String, action: String, authorization: String },
    /// Answer that nothing is being recorded any more.
    Stopped(ResponseStop),
}

/// A stop request in progress.
pub struct StopRecording {
    pub room_name: String,
    pub authorization: String,
    pub token: String,
    pub phase: StopPhase,
}

impl StopRecording {
    /// Well-formed: the token is the one the `Authorization` header carries.
    pub open spec fn wf(&self) -> bool {
        has_bearer_spec(self.authorization@) && self.token@ == bearer_token_spec(self.authorization@)
    }

    /// The event is the one the phase waits for; a record that names this host
    /// holds a process id that parses as an `i32` (other such records are kept out).
    pub open spec fn accepts(&self, event: &StopEvent) -> bool {
        match self.phase {
            StopPhase::Lookup => match event {
                StopEvent::Recorded { value, info, hostname } => info.stoppable_here(hostname@),
                StopEvent::NotRecorded => true,
                StopEvent::Acknowledged => false,
            },
            StopPhase::Notify => event is Acknowledged,
            StopPhase::Delete => event is Acknowledged,
            StopPhase::Report => event is Acknowledged,
            StopPhase::Finished => false,
        }
    }

    /// A new stop request for `params`, with the `Authorization` header, which
    /// must hold the word `Bearer`.
    /// It first looks the room's key up.
    pub fn new(params: &Params, authorization: &str) -> (r: (StopRecording, StopAction))
        requires
            has_bearer_spec(authorization@),
        ensures
            r.0.wf(),
            r.0.phase == StopPhase::Lookup,
            r.0.room_name@ == params.room_name@,
            r.0.authorization@ == authorization@,
            r.0.token@ == bearer_token_spec(authorization@),
            r.1 matches StopAction::Query(c) && c.command@ == "GET"@ && c.arg@ == room_key_spec(
                params.room_name@,
            ) && c.arg2 is None,
    {
        let token = bearer_token(authorization);
        let query = InfoCommandGet {
            command: "GET".to_string(),
            arg: room_key(params.room_name.as_str()),
            arg2: None,
        };
        (
            StopRecording {
                room_name: params.room_name.clone(),
                authorization: authorization.to_string(),
                token,
                phase: StopPhase::Lookup,
            },
            StopAction::Query(query),
        )
    }

    /// Takes the outcome of the last action and says what to do next.
    pub fn step(self, event: StopEvent) -> (r: (StopRecording, StopAction))
        requires
            self.wf(),
            self.accepts(&event),
        ensures
            r.0.wf(),
            r.0.room_name@ == self.room_name@,
            r.0.authorization@ == self.authorization@,
            r.0.token@ == self.token@,
            // A process is signalled only when the stored record names this host.
            r.1 is Terminate ==> self.phase == StopPhase::Lookup && (event matches StopEvent::Recorded {
                value,
                info,
                hostname,
            } && info.hostname@ == hostname@),
            // A recording on this host is signalled.
            self.phase == StopPhase::Lookup ==> (event matches StopEvent::Recorded {
                value,
                info,
                hostname,
            } ==> (info.hostname@ == hostname@ ==> ({
                &&& r.0.phase == StopPhase::Notify
                &&& (r.1 matches StopAction::Terminate { pid } && parse_i32_spec(info.process_id@)
                    == Some(pid))
            }))),
            // A recording on another host is passed on with the stored record.
            self.phase == StopPhase::Lookup ==> (event matches StopEvent::Recorded {
                value,
                info,
                hostname,
            } ==> (info.hostname@ != hostname@ ==> ({
                &&& r.0.phase == StopPhase::Notify
                &&& (r.1 matches StopAction::Publish(c) && c.command@ == "PUBLISH"@ && c.channel@
                    == stop_channel() && c.message@ == value@)
            }))),
            // The room's key is deleted whatever the lookup gave.
            (self.phase == StopPhase::Lookup && event is NotRecorded) || self.phase == StopPhase::Notify
                ==> ({
                &&& r.0.phase == StopPhase::Delete
                &&& (r.1 matches StopAction::Delete(c) && c.command@ == "DEL"@ && c.arg@
                    == room_key_spec(self.room_name@))
            }),
            // Then usage is reported with the token as `Authorization`.
            self.phase == StopPhase::Delete ==> ({
                &&& r.0.phase == StopPhase::Report
                &&& (r.1 matches StopAction::Report { room_name, action, authorization }
                    && room_name@ == self.room_name@ && action@ == "stop"@ && authorization@
                    == self.token@ && authorization@ == bearer_token_spec(self.authorization@))
            }),
            // And the answer says nothing is being recorded.
            self.phase == StopPhase::Report ==> ({
                &&& r.0.phase == StopPhase::Finished
                &&& (r.1 matches StopAction::Stopped(a) && !a.started)
            }),
    {
        let StopRecording { room_name, authorization, token, phase } = self;
        match phase {
            StopPhase::Lookup => {
                match event {
                    StopEvent::Recorded { value, info, hostname } => {
                        let action = match info.local_process(hostname.as_str()) {
                            Some(pid) => StopAction::Terminate { pid },
                            None => StopAction::Publish(
                                InfoCommandPublish {
                                    command: "PUBLISH".to_string(),
                                    channel: "sariska_channel".to_string(),
                                    message: value,
                                },
                            ),
                        };
                        (StopRecording { room_name, authorization, token, phase: StopPhase::Notify }, action)
                    },
                    _ => {
                        let delete = InfoCommandDel {
                            command: "DEL".to_string(),
                            arg: room_key(room_name.as_str()),
                        };
                        (StopRecording { room_name, authorization, token, phase: StopPhase::Delete }, StopAction::Delete(delete))
                    },
                }
            },
            StopPhase::Notify => {
                let delete = InfoCommandDel {
                    command: "DEL".to_string(),
                    arg: room_key(room_name.as_str()),
                };
                (StopRecording { room_name, authorization, token, phase: StopPhase::Delete }, StopAction::Delete(delete))
            },
            StopPhase::Delete => {
                let report = StopAction::Report {
                    room_name: room_name.clone(),
                    action: "stop".to_string(),
                    authorization: token.clone(),
                };
                (StopRecording { room_name, authorization, token, phase: StopPhase::Report }, report)
            },
            _ => {
                (
                    StopRecording { room_name, authorization, token, phase: StopPhase::Finished },
                    StopAction::Stopped(ResponseStop { started: false }),
                )
            },
        }
    }
}

} // verus!
