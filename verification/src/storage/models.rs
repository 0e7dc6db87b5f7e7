use vstd::prelude::*;

use crate::time::{UtcTime, utc_now};

verus! {

/// A message as it is stored.
#[derive(Debug, Clone)]
pub struct SmsRecord {
    pub id: i64,
    pub sender: String,
    pub body: String,
    pub timestamp: UtcTime,
    pub category: String,
    pub forwarded: bool,
    pub created_at: UtcTime,
}

impl SmsRecord {
    /// A record made at `now`: not stored yet (id 0), not forwarded, and dated now.
    pub fn new_at(sender: String, body: String, category: String, now: UtcTime) -> (r: SmsRecord)
        ensures
            r.id == 0,
            r.sender == sender,
            r.body == body,
            r.category == category,
            !r.forwarded,
            r.timestamp == now,
            r.created_at == now,
    {
        SmsRecord { id: 0, sender, body, timestamp: now, category, forwarded: false, created_at: now }
    }

    /// A record made at the current time.
    pub fn new(sender: String, body: String, category: String) -> (r: SmsRecord)
        ensures
            r.id == 0,
            r.sender == sender,
            r.body == body,
            r.category == category,
            !r.forwarded,
            r.timestamp == r.created_at,
            r.timestamp.nanos < 1_000_000_000,
    {
        SmsRecord::new_at(sender, body, category, utc_now())
    }
}

} // verus!
