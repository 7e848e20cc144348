use vstd::prelude::*;

verus! {

/// An instant in UTC: whole seconds since the Unix epoch and the nanoseconds
/// past that second (above 999,999,999 only during a leap second).
#[derive(Clone, Copy, Debug, PartialEq, Eq, Structural)]
pub struct Timestamp {
    pub seconds: i64,
    pub nanos: u32,
}

/// The instant that an RFC 3339 text denotes, as (seconds, nanoseconds), or
/// `None` where the text is not RFC 3339.
pub uninterp spec fn rfc3339_instant(text: Seq<char>) -> Option<(i64, u32)>;

/// The RFC 3339 text of a UTC instant given as (seconds, nanoseconds), or
/// `None` where the instant is out of the representable range.
pub uninterp spec fn rfc3339_text(seconds: i64, nanos: u32) -> Option<Seq<char>>;

/// Relies on `chrono::Utc::now`: the current instant, read from the clock.
#[verifier::external_body]
pub(crate) fn now_utc() -> (r: Timestamp) {
    let now = chrono::Utc::now();
    Timestamp { seconds: now.timestamp(), nanos: now.timestamp_subsec_nanos() }
}

/// Relies on `chrono::DateTime::parse_from_rfc3339`, read back through
/// `timestamp` and `timestamp_subsec_nanos`: the instant a text denotes.
#[verifier::external_body]
pub(crate) fn parse_rfc3339(text: &str) -> (r: Option<Timestamp>)
    ensures
        rfc3339_instant(text@) == match r {
            Some(t) => Some((t.seconds, t.nanos)),
            None => None::<(i64, u32)>,
        },
{
    match chrono::DateTime::parse_from_rfc3339(text) {
        Ok(d) => Some(Timestamp { seconds: d.timestamp(), nanos: d.timestamp_subsec_nanos() }),
        Err(_) => None,
    }
}

/// Relies on `chrono::DateTime::from_timestamp` and `DateTime::to_rfc3339`:
/// the RFC 3339 text of an instant, `None` out of chrono's range.
#[verifier::external_body]
pub(crate) fn format_rfc3339(t: Timestamp) -> (r: Option<String>)
    ensures
        rfc3339_text(t.seconds, t.nanos) == match r {
            Some(s) => Some(s@),
            None => None::<Seq<char>>,
        },
{
    match chrono::DateTime::from_timestamp(t.seconds, t.nanos) {
        Some(d) => Some(d.to_rfc3339()),
        None => None,
    }
}

} // verus!
