//! Calendar timestamps for metadata fields.
//!
//! The media-player protocol carries dates as RFC 3339 text.  A parsed
//! timestamp is held as its distance from the Unix epoch in nanoseconds,
//! which pins the instant down without modelling calendars here.

use vstd::prelude::*;

verus! {

/// An instant, as nanoseconds since the Unix epoch.
#[derive(Clone, Copy, Debug, PartialEq, Eq, Structural)]
pub struct DateTime {
    pub unix_nanos: i128,
}

/// The instant that a piece of RFC 3339 text denotes, if it is valid.
pub uninterp spec fn rfc3339_nanos(s: Seq<char>) -> Option<i128>;

/// Relies on `time::OffsetDateTime::parse` with the RFC 3339 well-known
/// format, and on `unix_timestamp_nanos`: the outcome is a function of the
/// text alone.
#[verifier::external_body]
pub(crate) fn parse_rfc3339(s: &str) -> (r: Option<i128>)
    ensures
        r == rfc3339_nanos(s@),
{
    time::OffsetDateTime::parse(s, &time::format_description::well_known::Rfc3339)
        .ok()
        .map(|t| t.unix_timestamp_nanos())
}

} // verus!
