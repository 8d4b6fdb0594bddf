//! The rows that the library hands over for storing: audit entries and
//! maintenance entries, each stamped with the current UTC time.
use vstd::prelude::*;
use vstd::string::*;

use crate::audit::{event_action, event_details, AuditEvent};

verus! {

/// A time stamp in UTC as `to_rfc3339` writes it: it ends in the offset
/// `+00:00`.
pub open spec fn is_utc_stamp(s: Seq<char>) -> bool {
    &&& s.len() >= 6
    &&& s.subrange(s.len() - 6, s.len() as int) == "+00:00"@
}

/// Trusted: `chrono::Utc::now()`, converted to text by
/// `DateTime::to_rfc3339`. The clock decides the value; the contract claims
/// only that the text ends in `+00:00`, which is how `to_rfc3339` writes the
/// zero offset of `Utc` (`OffsetFormat` with minutes precision, colons, and
/// no `Z`). The date and time digits before it are not stated.
#[verifier::external_body]
fn now_ts() -> (ts: String)
    ensures
        is_utc_stamp(ts@),
{
    chrono::Utc::now().to_rfc3339()
}

/// An audit entry ready to be stored.
#[derive(Debug, Clone)]
pub struct NewAuditEntry {
    pub timestamp: String,
    pub user_id: Option<i64>,
    pub action: String,
    pub details: String,
}

/// A maintenance entry ready to be stored.
#[derive(Debug, Clone)]
pub struct NewMaintenanceEntry {
    pub item_id: i64,
    pub timestamp: String,
    pub description: String,
    pub by_user_id: i64,
}

/// The audit entry that records `event`, done by `user_id` (no user for
/// events of the system itself), with the time stamp `timestamp`.
pub fn audit_entry_at(user_id: Option<i64>, event: &AuditEvent, timestamp: String) -> (r:
    NewAuditEntry)
    ensures
        r.timestamp == timestamp,
        r.user_id == user_id,
        r.action@ == event_action(*event),
        r.details@ == event_details(*event),
{
    let action = event.action().to_owned();
    let details = event.details();
    NewAuditEntry { timestamp, user_id, action, details }
}

/// The audit entry that records `event`, done by `user_id` (no user for
/// events of the system itself), stamped with the clock read during the
/// call: it is `audit_entry_at` of what `now_ts` returned.
pub fn audit_entry(user_id: Option<i64>, event: &AuditEvent) -> (r: NewAuditEntry)
    ensures
        r.user_id == user_id,
        r.action@ == event_action(*event),
        r.details@ == event_details(*event),
        is_utc_stamp(r.timestamp@),
{
    audit_entry_at(user_id, event, now_ts())
}

/// The maintenance entry for `item_id` with `description`, done by
/// `by_user_id`, with the time stamp `timestamp`.
pub fn maintenance_entry_at(
    item_id: i64,
    description: &str,
    by_user_id: i64,
    timestamp: String,
) -> (r: NewMaintenanceEntry)
    ensures
        r.timestamp == timestamp,
        r.item_id == item_id,
        r.description@ == description@,
        r.by_user_id == by_user_id,
{
    NewMaintenanceEntry { item_id, timestamp, description: description.to_owned(), by_user_id }
}

/// The maintenance entry for `item_id` with `description`, done by
/// `by_user_id`, stamped with the clock read during the call: it is
/// `maintenance_entry_at` of what `now_ts` returned.
pub fn maintenance_entry(item_id: i64, description: &str, by_user_id: i64) -> (r:
    NewMaintenanceEntry)
    ensures
        r.item_id == item_id,
        r.description@ == description@,
        r.by_user_id == by_user_id,
        is_utc_stamp(r.timestamp@),
{
    maintenance_entry_at(item_id, description, by_user_id, now_ts())
}

} // verus!
