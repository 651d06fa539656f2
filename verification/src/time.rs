//! UTC timestamps as they appear in StockFighter replies.

use vstd::prelude::*;

verus! {

/// A UTC instant: whole seconds since the Unix epoch, and the nanoseconds
/// past that second. The derived order is chronological.
#[derive(Debug, PartialEq, Eq, PartialOrd, Ord, Clone, Copy, Structural)]
pub struct DTUTC {
    pub seconds: i64,
    pub nanos: u32,
}

/// The instant that chrono reads from `text` as a `DateTime<Utc>`, or `None`
/// where chrono refuses the text.
pub uninterp spec fn utc_instant(text: Seq<char>) -> Option<DTUTC>;

/// Calls chrono's `FromStr` for `DateTime<Utc>` (RFC 3339 style text such as
/// `2016-04-14T14:18:28.579888777Z`) and keeps the instant it denotes as
/// seconds and nanoseconds. Claimed: the result is `utc_instant` of the text,
/// a function of the text alone; nothing is claimed of which texts chrono accepts.
#[verifier::external_body]
fn chrono_utc_instant(text: &str) -> (r: Option<DTUTC>)
    ensures
        r == utc_instant(text@),
{
    match text.parse::<chrono::DateTime<chrono::Utc>>() {
        Ok(d) => Some(DTUTC { seconds: d.timestamp(), nanos: d.timestamp_subsec_nanos() }),
        Err(_) => None,
    }
}

impl DTUTC {
    /// Reads a timestamp; the text must be one chrono accepts.
    pub fn parse(text: &str) -> (r: DTUTC)
        requires
            utc_instant(text@) is Some,
        ensures
            utc_instant(text@) == Some(r),
    {
        match chrono_utc_instant(text) {
            Some(d) => d,
            None => DTUTC { seconds: 0, nanos: 0 },
        }
    }

    /// Reads a timestamp, or gives `None` where the text is not one.
    pub fn try_parse(text: &str) -> (r: Option<DTUTC>)
        ensures
            r == utc_instant(text@),
    {
        match chrono_utc_instant(text) {
            Some(_) => Some(DTUTC::parse(text)),
            None => None,
        }
    }
}

} // verus!
