//! Fired alerts (`alert_events`).
use vstd::prelude::*;

verus! {

/// An alert firing to record; it is stored unacknowledged.
#[derive(Debug, Clone, Copy, PartialEq, Eq)]
pub struct InsertAlertEvent<'a> {
    pub rule_id: i32,
    pub fired_ts: i64,
    pub payload_json: &'a str,
}

/// A recorded alert firing.
#[derive(Debug, Clone, PartialEq, Eq)]
pub struct AlertEventRow {
    pub id: i32,
    pub rule_id: i32,
    pub fired_ts: i64,
    pub payload: String,
    pub acked: bool,
}

} // verus!
