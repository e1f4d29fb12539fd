//! Instants on the UTC time line and the text that stands for them in a
//! request.

use vstd::prelude::*;

verus! {

/// An instant in UTC: whole seconds since 1970-01-01T00:00:00Z, and the
/// nanoseconds that have passed within that second. A leap second is written
/// as the second before it with `nanos` of one thousand million or more.
#[derive(Clone, Copy, Debug, PartialEq, Eq, Structural)]
pub struct Timestamp {
    pub secs: i64,
    pub nanos: u32,
}

/// The RFC 3339 text of the instant `secs` seconds and `nanos` nanoseconds
/// after the epoch, as chrono writes it; `None` where chrono has no date-time
/// for these two numbers.
pub uninterp spec fn rfc3339_text(secs: int, nanos: int) -> Option<Seq<char>>;

/// Builds the date-time with `chrono::DateTime::from_timestamp` and writes it
/// with `chrono::DateTime::to_rfc3339`. Both depend on their arguments alone,
/// and the contract says no more than that: the answer is the one that
/// [`rfc3339_text`] names, absent where `from_timestamp` gives no date-time.
#[verifier::external_body]
fn chrono_rfc3339(secs: i64, nanos: u32) -> (text: Option<String>)
    ensures
        text.deep_view() == rfc3339_text(secs as int, nanos as int),
{
    match chrono::DateTime::from_timestamp(secs, nanos) {
        Some(instant) => Some(instant.to_rfc3339()),
        None => None,
    }
}

impl Timestamp {
    /// The text of this instant in a query, if it has one.
    pub open spec fn text(self) -> Option<Seq<char>> {
        rfc3339_text(self.secs as int, self.nanos as int)
    }

    /// Writes the instant as an RFC 3339 date and time with the offset
    /// `+00:00`. There is no text for an instant outside the years that the
    /// calendar covers, nor for a `nanos` that names no second.
    pub fn to_rfc3339(&self) -> (text: Option<String>)
        ensures
            text.deep_view() == self.text(),
    {
        chrono_rfc3339(self.secs, self.nanos)
    }
}

} // verus!
