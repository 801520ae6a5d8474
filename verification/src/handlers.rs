//! The plain data producers behind the routed endpoints: the health status
//! with its RFC 3339 timestamp, and the static user profile of the guarded
//! endpoint.

use vstd::prelude::*;
use chrono::Datelike;
use chrono::Timelike;
use crate::timefmt::{
    DateTimeParts, format_rfc3339, rfc3339_seq, parts_in_range, year_formattable,
    is_rfc3339_timestamp, lemma_rendered_timestamp_is_rfc3339,
};

verus! {

/// The body of the health probe's response.
pub struct HealthStatus {
    pub status: String,
    pub time: String,
}

/// The body of the guarded profile endpoint's response.
pub struct UserProfile {
    pub user: String,
    pub permissions: Vec<String>,
    pub roles: Vec<String>,
}

/// Build the health body for a given clock reading: status "ok" and the
/// RFC 3339 rendering of the reading. Succeeds exactly when the reading's
/// fields are in range and its year fits four digits.
pub fn health_body(now: &DateTimeParts) -> (r: Option<HealthStatus>)
    ensures
        match r {
            Some(h) => {
                &&& parts_in_range(*now) && year_formattable(*now)
                &&& h.status@ == "ok"@
                &&& h.time@ == rfc3339_seq(*now)
                &&& is_rfc3339_timestamp(h.time@)
            },
            None => !(parts_in_range(*now) && year_formattable(*now)),
        },
{
    match format_rfc3339(now) {
        Some(time) => {
            proof {
                lemma_rendered_timestamp_is_rfc3339(*now);
            }
            Some(HealthStatus { status: String::from_str("ok"), time })
        },
        None => None,
    }
}

/// Relies on `std::time::SystemTime::now` read against the Unix epoch, on
/// `chrono::DateTime::from_timestamp` (total: `None` outside the representable
/// range), and on the `Datelike`/`Timelike` accessors of
/// `chrono::DateTime<Utc>`: `month` ranges over 1..=12, `day` over 1..=31,
/// `hour` over 0..=23, `minute` and `second` over 0..=59; the year carries no
/// documented bound. A clock before the epoch or past the representable range
/// yields `None`; no path panics.
#[verifier::external_body]
fn now_utc_parts() -> (p: Option<DateTimeParts>)
    ensures
        match p {
            Some(q) => 1 <= q.month <= 12 && 1 <= q.day <= 31 && q.hour <= 23 && q.minute <= 59
                && q.second <= 59,
            None => true,
        },
{
    let since = match std::time::SystemTime::now().duration_since(std::time::UNIX_EPOCH) {
        Ok(d) => d.as_secs(),
        Err(_) => return None,
    };
    if since > i64::MAX as u64 {
        return None;
    }
    let now = match chrono::DateTime::from_timestamp(since as i64, 0) {
        Some(t) => t,
        None => return None,
    };
    Some(DateTimeParts {
        year: now.year(), month: now.month(), day: now.day(),
        hour: now.hour(), minute: now.minute(), second: now.second(),
    })
}

/// The health handler: read the clock and build the health body. Whatever the
/// clock returned, a produced body has status "ok" and a well-formed RFC 3339
/// timestamp; `None` comes only of an unreadable clock or a year outside the
/// four-digit range.
pub fn health_now() -> (r: Option<HealthStatus>)
    ensures
        match r {
            Some(h) => h.status@ == "ok"@ && is_rfc3339_timestamp(h.time@),
            None => true,
        },
{
    match now_utc_parts() {
        Some(now) => health_body(&now),
        None => None,
    }
}

/// The static profile of the guarded endpoint: user "client123" with the
/// "read" and "write" permissions and the single role "user".
pub fn user_info() -> (p: UserProfile)
    ensures
        p.user@ == "client123"@,
        p.permissions@.len() == 2,
        p.permissions@[0]@ == "read"@,
        p.permissions@[1]@ == "write"@,
        p.roles@.len() == 1,
        p.roles@[0]@ == "user"@,
{
    let mut permissions: Vec<String> = Vec::new();
    permissions.push(String::from_str("read"));
    permissions.push(String::from_str("write"));
    let mut roles: Vec<String> = Vec::new();
    roles.push(String::from_str("user"));
    UserProfile { user: String::from_str("client123"), permissions, roles }
}

} // verus!
