//! The record stored under a room's key while it is being recorded.

use vstd::prelude::*;
use vstd::string::*;
use crate::json::{escape, json_string, push_json_string, unescape, unescape_undoes_escape};
use crate::text::{parse_i32, parse_i32_spec};

verus! {

/// Which host runs the recording of a room, and the id of its process there.
pub struct SetRoomInfo {
    pub hostname: String,
    pub process_id: String,
    pub room_name: String,
}

/// The JSON object for a room record, fields in declaration order.
pub open spec fn room_info_json(
    hostname: Seq<char>,
    process_id: Seq<char>,
    room_name: Seq<char>,
) -> Seq<char> {
    "{\"hostname\":"@ + json_string(hostname) + ",\"process_id\":"@ + json_string(process_id)
        + ",\"room_name\":"@ + json_string(room_name) + "}"@
}

/// Every field of a room record is written as a JSON string literal: a quote,
/// the escaped text, a quote, after its key; and what a JSON reader makes of
/// each escaped text is the field again.
pub proof fn room_record_fields_are_json_strings(
    hostname: Seq<char>,
    process_id: Seq<char>,
    room_name: Seq<char>,
)
    ensures
        room_info_json(hostname, process_id, room_name) == "{\"hostname\":"@ + seq!['"'] + escape(
            hostname,
        ) + seq!['"'] + ",\"process_id\":"@ + seq!['"'] + escape(process_id) + seq!['"']
            + ",\"room_name\":"@ + seq!['"'] + escape(room_name) + seq!['"'] + "}"@,
        unescape(escape(hostname)) == Some(hostname),
        unescape(escape(process_id)) == Some(process_id),
        unescape(escape(room_name)) == Some(room_name),
{
    unescape_undoes_escape(hostname);
    unescape_undoes_escape(process_id);
    unescape_undoes_escape(room_name);
    assert(room_info_json(hostname, process_id, room_name) =~= "{\"hostname\":"@ + seq!['"']
        + escape(hostname) + seq!['"'] + ",\"process_id\":"@ + seq!['"'] + escape(process_id)
        + seq!['"'] + ",\"room_name\":"@ + seq!['"'] + escape(room_name) + seq!['"'] + "}"@);
}

impl SetRoomInfo {
    /// `serde_json::to_string(&self)`: `{"hostname":…,"process_id":…,"room_name":…}`.
    pub fn to_json(&self) -> (r: String)
        ensures
            r@ == room_info_json(self.hostname@, self.process_id@, self.room_name@),
    {
        let mut r = String::new();
        r.append("{\"hostname\":");
        push_json_string(&mut r, self.hostname.as_str());
        r.append(",\"process_id\":");
        push_json_string(&mut r, self.process_id.as_str());
        r.append(",\"room_name\":");
        push_json_string(&mut r, self.room_name.as_str());
        r.append("}");
        r
    }

    /// Whether the recording process of this record can be stopped from this
    /// host: a record that names this host holds a process id that is an `i32`.
    /// Records naming this host with any other process id are kept out.
    pub open spec fn stoppable_here(&self, hostname: Seq<char>) -> bool {
        self.hostname@ == hostname ==> parse_i32_spec(self.process_id@) is Some
    }

    /// The process to signal on the host named `hostname`: the recorded
    /// process id when the record names this host, nothing otherwise.
    pub fn local_process(&self, hostname: &str) -> (r: Option<i32>)
        requires
            self.stoppable_here(hostname@),
        ensures
            self.hostname@ == hostname@ ==> r == parse_i32_spec(self.process_id@),
            self.hostname@ != hostname@ ==> r is None,
    {
        let here = hostname.to_string();
        if self.hostname == here {
            parse_i32(self.process_id.as_str())
        } else {
            None
        }
    }
}

} // verus!
