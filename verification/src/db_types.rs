use uuid::Uuid;
use vstd::prelude::*;

verus! {

/// A row of the table of callers.
pub struct Caller {
    pub id: i32,
    pub phone: String,
    pub city: Option<String>,
    pub state: Option<String>,
    pub country: Option<String>,
    pub zip: Option<String>,
}

/// A row of the table of calls.
pub struct Call {
    pub id: i32,
    pub caller: i32,
    pub twilio_call_sid: String,
    pub twilio_stream_sid: String,
    pub dg_request_id: Uuid,
    /// When the row was made, in nanoseconds since the Unix epoch.
    pub created: i128,
}

/// A row of the table of turns.
pub struct Turn {
    pub id: i32,
    pub call: i32,
    pub call_idx: i32,
    pub caller_side: String,
    pub bot_side: String,
    pub topic: Option<String>,
    pub summary: Option<String>,
}

} // verus!
