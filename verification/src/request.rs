//! What a recording request carries.

use vstd::prelude::*;

verus! {

/// A stream key and its value, as given in the query.
pub struct StreamKeyDict {
    pub stream_key: String,
    pub stream_value: String,
}

/// The query of a start or stop request.
pub struct Params {
    pub room_name: String,
    pub is_audio: Option<bool>,
    pub is_vod: Option<bool>,
    pub is_recording: Option<bool>,
    pub stream_urls: Option<Vec<String>>,
    pub stream_keys: Option<Vec<StreamKeyDict>>,
}

/// The group a token was issued for.
pub struct Context {
    pub group: String,
}

/// The claims a recording request's token must carry.
pub struct Claims {
    pub sub: String,
    pub exp: usize,
    pub context: Context,
}

/// What the Redis lookup of a room's key gave.
pub enum LookupReply {
    /// The key holds this value.
    Found(String),
    /// The key is not set.
    Missing,
    /// The lookup failed (Redis error, lost actor or panic).
    Failed,
}

/// A lookup reply, as plain text.
pub enum LookupView {
    Found(Seq<char>),
    Missing,
    Failed,
}

impl View for LookupReply {
    type V = LookupView;

    open spec fn view(&self) -> LookupView {
        match self {
            LookupReply::Found(v) => LookupView::Found(v@),
            LookupReply::Missing => LookupView::Missing,
            LookupReply::Failed => LookupView::Failed,
        }
    }
}

} // verus!
