//! Instants on the UTC time line and their RFC 3339 text.

use vstd::prelude::*;

verus! {

/// An instant: whole seconds since 1970-01-01T00:00:00Z, and the nanoseconds
/// past that second.
#[derive(Clone, Copy, Debug, PartialEq, Eq, Structural)]
pub struct Timestamp {
    pub secs: i64,
    pub nanos: u32,
}

/// The RFC 3339 text of the instant `secs`, `nanos`, in UTC; `None` where the
/// calendar in use cannot represent the instant.
pub uninterp spec fn rfc3339_text(secs: i64, nanos: u32) -> Option<Seq<char>>;

/// The instant that a date-time text denotes, as seconds and nanoseconds;
/// `None` where the text is no date-time.
pub uninterp spec fn rfc3339_instant(text: Seq<char>) -> Option<(i64, u32)>;

/// Calls `chrono::DateTime::from_timestamp` and, on the instant it gives,
/// `chrono::DateTime::to_rfc3339`. The text is a function of the two numbers
/// alone, which the contract records under the name `rfc3339_text`; there is
/// no text exactly where `from_timestamp` reports the instant out of range.
#[verifier::external_body]
fn format_instant(secs: i64, nanos: u32) -> (r: Option<String>)
    ensures
        match r {
            Some(text) => rfc3339_text(secs, nanos) == Some(text@),
            None => rfc3339_text(secs, nanos).is_none(),
        },
{
    chrono::DateTime::from_timestamp(secs, nanos).map(|instant| instant.to_rfc3339())
}

/// Calls chrono's `FromStr` for `DateTime<Utc>`, which reads a relaxed form
/// of RFC 3339, and takes the result apart with `timestamp` and
/// `timestamp_subsec_nanos`. The instant is a function of the text alone,
/// recorded under the name `rfc3339_instant`; there is none exactly where
/// the parse fails.
#[verifier::external_body]
fn parse_instant(text: &str) -> (r: Option<Timestamp>)
    ensures
        match r {
            Some(t) => rfc3339_instant(text@) == Some((t.secs, t.nanos)),
            None => rfc3339_instant(text@).is_none(),
        },
{
    text.parse::<chrono::DateTime<chrono::Utc>>().ok().map(
        |instant| Timestamp { secs: instant.timestamp(), nanos: instant.timestamp_subsec_nanos() },
    )
}

impl Timestamp {
    /// The instant's RFC 3339 text, such as `2020-01-01T00:00:00+00:00`.
    pub fn to_rfc3339(&self) -> (r: Option<String>)
        ensures
            match r {
                Some(text) => rfc3339_text(self.secs, self.nanos) == Some(text@),
                None => rfc3339_text(self.secs, self.nanos).is_none(),
            },
    {
        format_instant(self.secs, self.nanos)
    }

    /// Reads a date-time text.
    pub fn parse(text: &str) -> (r: Option<Timestamp>)
        ensures
            match r {
                Some(t) => rfc3339_instant(text@) == Some((t.secs, t.nanos)),
                None => rfc3339_instant(text@).is_none(),
            },
    {
        parse_instant(text)
    }

    /// Whether writing this instant and reading the text back gives the
    /// instant again.
    pub open spec fn reads_back(self) -> bool {
        match rfc3339_text(self.secs, self.nanos) {
            Some(text) => rfc3339_instant(text) == Some((self.secs, self.nanos)),
            None => false,
        }
    }
}

} // verus!
