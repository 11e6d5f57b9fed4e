//! Time handling: timestamps are milliseconds since the Unix epoch, rendered
//! as UTC strings at the boundary. The chrono crate supplies the wall clock
//! and the string form; everything else is computed and proved here.

use vstd::prelude::*;

verus! {

/// A freshly issued token lives this long (two days, in milliseconds).
pub const TTL_ISSUE_MILLIS: i64 = 2 * 24 * 60 * 60 * 1000;

/// A refreshed token lives this long from the moment of refresh (one day).
pub const TTL_REFRESH_MILLIS: i64 = 1 * 24 * 60 * 60 * 1000;

/// Earliest timestamp the library stores: the Unix epoch itself.
pub const MIN_STAMP: i64 = 0;

/// Latest timestamp the library stores: the last millisecond of year 9999,
/// the largest instant whose rendered year keeps four digits.
pub const MAX_STAMP: i64 = 253_402_300_799_999;

/// Latest instant accepted as "now": issuing a token at this instant keeps
/// its expiry within `MAX_STAMP`.
pub const MAX_NOW: i64 = MAX_STAMP - TTL_ISSUE_MILLIS;

/// The UTC string that chrono renders for a millisecond timestamp.
pub uninterp spec fn timestamp_text_of(t: i64) -> Seq<char>;

/// Relies on chrono's `Utc::now` and `DateTime::timestamp_millis`: the
/// current UTC wall-clock time in milliseconds since the Unix epoch. The
/// result depends on the machine's clock, so nothing is promised of it.
#[verifier::external_body]
fn now_millis() -> i64 {
    chrono::Utc::now().timestamp_millis()
}

/// Relies on chrono's `DateTime::<Utc>::from_timestamp_millis` (total on the
/// required range) and on `Display` for `DateTime<Utc>`, a pure function of
/// the instant alone, named `timestamp_text_of`.
#[verifier::external_body]
pub(crate) fn format_timestamp(t: i64) -> (r: String)
    requires
        MIN_STAMP <= t <= MAX_STAMP,
    ensures
        r@ == timestamp_text_of(t),
{
    let dt = chrono::DateTime::<chrono::Utc>::from_timestamp_millis(t).unwrap();
    dt.to_string()
}

/// Relies on chrono's `FromStr` for `DateTime<Utc>`, which reads back what
/// `Display` writes (the relaxed RFC 3339 parser accepts the `UTC` suffix),
/// and on `DateTime::from_timestamp_millis`'s documented round-trip with
/// `timestamp_millis`.
#[verifier::external_body]
pub(crate) fn parse_timestamp(s: &str) -> (r: Option<i64>)
    ensures
        forall|t: i64|
            MIN_STAMP <= t <= MAX_STAMP && s@ == timestamp_text_of(t) ==> r == Some(t),
{
    match s.parse::<chrono::DateTime<chrono::Utc>>() {
        Ok(dt) => Some(dt.timestamp_millis()),
        Err(_) => None,
    }
}

/// The wall clock, clamped into the range the store accepts. On any real
/// machine the clamp never bites; it only keeps the result provably in range.
pub fn current_stamp() -> (r: i64)
    ensures
        MIN_STAMP <= r <= MAX_NOW,
{
    let t = now_millis();
    if t < MIN_STAMP {
        MIN_STAMP
    } else if t > MAX_NOW {
        MAX_NOW
    } else {
        t
    }
}

} // verus!
