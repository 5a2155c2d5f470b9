//! The usage report sent to the pricing service when a recording starts or stops.

use vstd::prelude::*;
use vstd::string::*;
use crate::json::json_string;

verus! {

broadcast use vstd::string::group_string_axioms;

/// `humantime::format_rfc3339_seconds` of the instant `secs` seconds after the
/// Unix epoch, as text (`YYYY-MM-DDTHH:MM:SSZ`).
pub uninterp spec fn rfc3339_seconds(secs: u64) -> Seq<char>;

/// The last second `humantime` can write (the end of year 9999), plus one.
pub const RFC3339_LIMIT: u64 = 253402300800;

/// `humantime::format_rfc3339_seconds(UNIX_EPOCH + secs).to_string()`; humantime
/// fails past year 9999, where `to_string` panics.
#[verifier::external_body]
fn format_rfc3339_seconds(secs: u64) -> (r: String)
    requires
        secs < RFC3339_LIMIT,
    ensures
        r@ == rfc3339_seconds(secs),
{
    humantime::format_rfc3339_seconds(std::time::UNIX_EPOCH + std::time::Duration::from_secs(secs)).to_string()
}

#[verifier::external_type_specification]
#[verifier::external_body]
pub struct ExJsonError(serde_json::Error);

/// One member of a JSON object: `"key":"value"`.
pub open spec fn json_member(entry: (Seq<char>, Seq<char>)) -> Seq<char> {
    json_string(entry.0) + seq![':'] + json_string(entry.1)
}

/// The members, separated by commas.
pub open spec fn json_members(entries: Seq<(Seq<char>, Seq<char>)>) -> Seq<char>
    decreases entries.len(),
{
    if entries.len() == 0 {
        Seq::empty()
    } else if entries.len() == 1 {
        json_member(entries[0])
    } else {
        json_members(entries.drop_last()) + seq![','] + json_member(entries.last())
    }
}

/// The compact JSON object with these members, in this order.
pub open spec fn json_object(entries: Seq<(Seq<char>, Seq<char>)>) -> Seq<char> {
    seq!['{'] + json_members(entries) + seq!['}']
}

/// No two entries share a key.
pub open spec fn distinct_keys(entries: Seq<(Seq<char>, Seq<char>)>) -> bool {
    forall|i: int, j: int|
        0 <= i < entries.len() && 0 <= j < entries.len() && i != j ==> #[trigger] entries[i].0
            != #[trigger] entries[j].0
}

/// The body is the compact JSON object of exactly these entries, in some order.
pub open spec fn object_of_entries(body: Seq<char>, entries: Seq<(Seq<char>, Seq<char>)>) -> bool {
    exists|order: Seq<(Seq<char>, Seq<char>)>|
        order.to_multiset() == entries.to_multiset() && body == #[trigger] json_object(order)
}

/// `serde_json::to_string` of a `HashMap<&str, &str>` holding these entries:
/// the compact JSON object of the entries, keys and values written as JSON
/// strings. It succeeds: serde_json documents that it fails only where a
/// `Serialize` impl decides to fail or a map has non-string keys, and neither
/// holds of a map of `&str` to `&str`. The order of the members is the map's
/// walk order, which varies from run to run, so only that some order is taken
/// is stated.
#[verifier::external_body]
fn json_object_of(fields: &Vec<(String, String)>) -> (r: Result<String, serde_json::Error>)
    requires
        distinct_keys(pairs_view(fields@)),
    ensures
        r is Ok,
        r matches Ok(s) ==> object_of_entries(s@, pairs_view(fields@)),
{
    serde_json::to_string(&fields.iter().map(|f| (f.0.as_str(), f.1.as_str())).collect::<std::collections::HashMap<&str, &str>>())
}

/// The entries of a usage report, in the order they are inserted.
pub open spec fn report_fields_spec(
    room_name: Seq<char>,
    action: Seq<char>,
    timestamp: Seq<char>,
) -> Seq<(Seq<char>, Seq<char>)> {
    seq![
        ("roomJid"@, room_name + "@muc.sariska.io"@),
        ("timestamp"@, timestamp),
        ("action"@, action),
        ("type"@, "stream"@),
    ]
}

pub open spec fn pairs_view(v: Seq<(String, String)>) -> Seq<(Seq<char>, Seq<char>)> {
    Seq::new(v.len(), |i: int| (v[i].0@, v[i].1@))
}

/// The entries of the usage report for `room_name` and `action` at time `now_secs`.
pub fn report_fields(room_name: &str, action: &str, now_secs: u64) -> (r: Vec<(String, String)>)
    requires
        now_secs < RFC3339_LIMIT,
    ensures
        pairs_view(r@) == report_fields_spec(room_name@, action@, rfc3339_seconds(now_secs)),
{
    let mut jid = room_name.to_string();
    jid.append("@muc.sariska.io");
    let mut r: Vec<(String, String)> = Vec::new();
    r.push(("roomJid".to_string(), jid));
    r.push(("timestamp".to_string(), format_rfc3339_seconds(now_secs)));
    r.push(("action".to_string(), action.to_string()));
    r.push(("type".to_string(), "stream".to_string()));
    assert(pairs_view(r@) =~= report_fields_spec(room_name@, action@, rfc3339_seconds(now_secs)));
    r
}

/// The HTTP request that reports usage: posted to `url` with the caller's
/// `Authorization` value and the service token, the entries as a JSON body.
pub struct PricingRequest {
    pub url: String,
    pub authorization: String,
    pub service_token: String,
    pub body: String,
}

/// Why no usage report could be made.
#[derive(PartialEq, Eq, Structural, Clone, Copy, Debug)]
pub enum PricingError {
    /// The entries could not be written as JSON.
    Encoding,
}

/// The usage report for `room_name` and `action` at time `now_secs`; it is
/// always made.
pub fn pricing_request(
    room_name: &str,
    action: &str,
    authorization: String,
    service_token: String,
    url: String,
    now_secs: u64,
) -> (r: Result<PricingRequest, PricingError>)
    requires
        now_secs < RFC3339_LIMIT,
    ensures
        r matches Ok(p) ==> p.url@ == url@ && p.authorization@ == authorization@
            && p.service_token@ == service_token@ && object_of_entries(
            p.body@,
            report_fields_spec(room_name@, action@, rfc3339_seconds(now_secs)),
        ),
        r is Ok,
{
    let fields = report_fields(room_name, action, now_secs);
    proof {
        reveal_strlit("roomJid");
        reveal_strlit("timestamp");
        reveal_strlit("action");
        reveal_strlit("type");
        let e = report_fields_spec(room_name@, action@, rfc3339_seconds(now_secs));
        assert(e[0].0.len() == 7 && e[1].0.len() == 9 && e[2].0.len() == 6 && e[3].0.len() == 4);
        assert(distinct_keys(e));
    }
    match json_object_of(&fields) {
        Ok(body) => Ok(PricingRequest { url, authorization, service_token, body }),
        Err(_) => Err(PricingError::Encoding),
    }
}

} // verus!
