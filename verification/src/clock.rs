//! Instants and their text in the form of RFC 3339, as the directory stores
//! them.

use vstd::prelude::*;
use crate::models::Timestamp;

verus! {

/// The instant that a text in the form of RFC 3339 names: the whole seconds
/// since the Unix epoch and the nanoseconds past them; none where the text
/// has not that form.
pub uninterp spec fn rfc3339_instant(text: Seq<char>) -> Option<(int, int)>;

/// The text in the form of RFC 3339, in UTC, of the instant that lies
/// `secs` seconds after the Unix epoch and `nanos` nanoseconds past that; none
/// where there is no such date.
pub uninterp spec fn rfc3339_text(secs: int, nanos: int) -> Option<Seq<char>>;

/// `chrono::DateTime::parse_from_rfc3339`, read by `timestamp` and
/// `timestamp_subsec_nanos`: the instant that the text names, or nothing
/// where the text is refused.
#[verifier::external_body]
pub(crate) fn parse_rfc3339(text: &str) -> (r: Option<Timestamp>)
    ensures
        match r {
            Some(t) => rfc3339_instant(text@) == Some((t.secs as int, t.nanos as int)),
            None => rfc3339_instant(text@) is None,
        },
{
    match chrono::DateTime::parse_from_rfc3339(text) {
        Ok(t) => Some(Timestamp { secs: t.timestamp(), nanos: t.timestamp_subsec_nanos() }),
        Err(_) => None,
    }
}

/// `chrono::DateTime::to_rfc3339` of the date that
/// `chrono::DateTime::from_timestamp` makes of the instant: its text, or
/// nothing where there is no such date.
#[verifier::external_body]
pub(crate) fn format_rfc3339(t: Timestamp) -> (r: Option<String>)
    ensures
        match r {
            Some(s) => rfc3339_text(t.secs as int, t.nanos as int) == Some(s@),
            None => rfc3339_text(t.secs as int, t.nanos as int) is None,
        },
{
    match chrono::DateTime::from_timestamp(t.secs, t.nanos) {
        Some(d) => Some(d.to_rfc3339()),
        None => None,
    }
}

/// Reads a text in the form of RFC 3339.
pub fn timestamp_from_text(text: &str) -> (r: Option<Timestamp>)
    ensures
        r == instant_of(text@),
{
    parse_rfc3339(text)
}

/// The instant that a text names, where it fits a [`Timestamp`].
pub open spec fn instant_of(text: Seq<char>) -> Option<Timestamp> {
    match rfc3339_instant(text) {
        Some((secs, nanos)) => if i64::MIN <= secs <= i64::MAX && 0 <= nanos <= u32::MAX {
            Some(Timestamp { secs: secs as i64, nanos: nanos as u32 })
        } else {
            None
        },
        None => None,
    }
}

/// Writes an instant in the form of RFC 3339.
pub fn timestamp_text(t: Timestamp) -> (r: Option<String>)
    ensures
        match r {
            Some(s) => text_of(t) == Some(s@),
            None => text_of(t) is None,
        },
{
    format_rfc3339(t)
}

/// The text of an instant.
pub open spec fn text_of(t: Timestamp) -> Option<Seq<char>> {
    rfc3339_text(t.secs as int, t.nanos as int)
}

} // verus!
