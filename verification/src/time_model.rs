//! Instants and spans as plain integers of nanoseconds.
//!
//! Every instant the library reasons about is an offset from the Unix epoch
//! in nanoseconds, and every span is a signed count of nanoseconds. The
//! representable instants are those of a UTC date-time between the years
//! -9999 and 9999; arithmetic that would leave that range is ruled out by
//! the `requires` of the functions that perform it.

use vstd::prelude::*;

verus! {

/// Earliest representable instant: -9999-01-01T00:00:00Z, in nanoseconds.
pub const MIN_UNIX_NANOS: i128 = -377_705_116_800_000_000_000i128;

/// Latest representable instant: 9999-12-31T23:59:59.999999999Z, in nanoseconds.
pub const MAX_UNIX_NANOS: i128 = 253_402_300_799_999_999_999i128;

/// Whether `nanos` is a representable instant.
pub open spec fn representable(nanos: int) -> bool {
    MIN_UNIX_NANOS <= nanos <= MAX_UNIX_NANOS
}

/// An instant, as nanoseconds since the Unix epoch (UTC).
#[derive(Debug, Clone, Copy, PartialEq, Eq, Structural, PartialOrd, Ord, Hash)]
pub struct Timestamp {
    pub unix_nanos: i128,
}

/// A signed span of time in nanoseconds.
#[derive(Debug, Clone, Copy, PartialEq, Eq, Structural, PartialOrd, Ord, Hash)]
pub struct Duration {
    pub nanos: i128,
}

impl Timestamp {
    /// The Unix epoch.
    pub fn unix_epoch() -> (t: Timestamp)
        ensures
            t.unix_nanos == 0,
    {
        Timestamp { unix_nanos: 0 }
    }

    /// The instant `unix_nanos` nanoseconds after the epoch, when it is
    /// representable.
    pub fn from_unix_nanos(unix_nanos: i128) -> (t: Option<Timestamp>)
        ensures
            t is Some <==> representable(unix_nanos as int),
            t matches Some(t) ==> t.unix_nanos == unix_nanos,
    {
        if MIN_UNIX_NANOS <= unix_nanos && unix_nanos <= MAX_UNIX_NANOS {
            Some(Timestamp { unix_nanos })
        } else {
            None
        }
    }

    /// `self + span`, when the result is representable.
    pub fn checked_add(self, span: Duration) -> (t: Option<Timestamp>)
        requires
            representable(self.unix_nanos as int),
        ensures
            t is Some <==> representable(self.unix_nanos + span.nanos),
            t matches Some(t) ==> t.unix_nanos == self.unix_nanos + span.nanos,
    {
        if span.nanos >= 0 {
            if span.nanos > MAX_UNIX_NANOS - self.unix_nanos {
                return None;
            }
        } else {
            if span.nanos < MIN_UNIX_NANOS - self.unix_nanos {
                return None;
            }
        }
        Some(Timestamp { unix_nanos: self.unix_nanos + span.nanos })
    }

    /// `self + span`. The sum must be representable.
    pub fn plus(self, span: Duration) -> (t: Timestamp)
        requires
            representable(self.unix_nanos + span.nanos),
        ensures
            t.unix_nanos == self.unix_nanos + span.nanos,
    {
        Timestamp { unix_nanos: self.unix_nanos + span.nanos }
    }

    /// `self - span`. The difference must be representable.
    pub fn minus(self, span: Duration) -> (t: Timestamp)
        requires
            representable(self.unix_nanos - span.nanos),
        ensures
            t.unix_nanos == self.unix_nanos - span.nanos,
    {
        Timestamp { unix_nanos: self.unix_nanos - span.nanos }
    }

    /// Whether `self` is strictly before `other`.
    pub fn is_before(self, other: Timestamp) -> (r: bool)
        ensures
            r == (self.unix_nanos < other.unix_nanos),
    {
        self.unix_nanos < other.unix_nanos
    }

    /// The earlier of two instants.
    pub fn earliest(self, other: Timestamp) -> (t: Timestamp)
        ensures
            t.unix_nanos == if self.unix_nanos <= other.unix_nanos {
                self.unix_nanos
            } else {
                other.unix_nanos
            },
    {
        if self.unix_nanos <= other.unix_nanos {
            self
        } else {
            other
        }
    }
}

impl Duration {
    /// The empty span.
    pub fn zero() -> (d: Duration)
        ensures
            d.nanos == 0,
    {
        Duration { nanos: 0 }
    }

    /// `n` nanoseconds.
    pub fn nanoseconds(n: i64) -> (d: Duration)
        ensures
            d.nanos == n,
    {
        Duration { nanos: n as i128 }
    }

    /// `n` seconds.
    pub fn seconds(n: i64) -> (d: Duration)
        ensures
            d.nanos == n * 1_000_000_000,
    {
        Duration { nanos: n as i128 * 1_000_000_000 }
    }

    /// `n` minutes. The count of seconds must fit in an `i64`.
    pub fn minutes(n: i64) -> (d: Duration)
        requires
            i64::MIN <= n * 60 <= i64::MAX,
        ensures
            d.nanos == n * 60_000_000_000,
    {
        Duration { nanos: n as i128 * 60_000_000_000 }
    }

    /// `n` hours. The count of seconds must fit in an `i64`.
    pub fn hours(n: i64) -> (d: Duration)
        requires
            i64::MIN <= n * 3600 <= i64::MAX,
        ensures
            d.nanos == n * 3_600_000_000_000,
    {
        Duration { nanos: n as i128 * 3_600_000_000_000 }
    }
}

/// The instant, in Unix nanoseconds, that `time::OffsetDateTime::parse`
/// reads from a text in the RFC 3339 format, or `None` where it refuses it.
pub uninterp spec fn rfc3339_instant(text: Seq<char>) -> Option<i128>;

/// The text that `time`'s RFC 3339 format writes for the instant `unix_nanos`,
/// or `None` where the instant cannot be built or written.
pub uninterp spec fn rfc3339_text(unix_nanos: i128) -> Option<Seq<char>>;

/// Calls `time::OffsetDateTime::parse` with the RFC 3339 format and reads
/// `unix_timestamp_nanos` of the result. Claimed: it succeeds exactly where
/// [`rfc3339_instant`] has a value, and then gives that instant. The text of
/// its error is left unsaid.
#[verifier::external_body]
pub(crate) fn rfc3339_parse(text: &str) -> (r: Result<Timestamp, String>)
    ensures
        r is Ok <==> rfc3339_instant(text@) is Some,
        r matches Ok(t) ==> rfc3339_instant(text@) == Some(t.unix_nanos),
{
    match time::OffsetDateTime::parse(text, &time::format_description::well_known::Rfc3339) {
        Ok(t) => Ok(Timestamp { unix_nanos: t.unix_timestamp_nanos() }),
        Err(e) => Err(e.to_string()),
    }
}

/// Calls `time::OffsetDateTime::from_unix_timestamp_nanos` and formats the
/// result with `time`'s RFC 3339 format. Claimed: it succeeds exactly where
/// [`rfc3339_text`] has a value, and then gives that text. The text of its
/// error is left unsaid.
#[verifier::external_body]
pub(crate) fn rfc3339_format(t: Timestamp) -> (r: Result<String, String>)
    ensures
        r is Ok <==> rfc3339_text(t.unix_nanos) is Some,
        r matches Ok(s) ==> rfc3339_text(t.unix_nanos) == Some(s@),
{
    match time::OffsetDateTime::from_unix_timestamp_nanos(t.unix_nanos) {
        Ok(d) => d.format(&time::format_description::well_known::Rfc3339).map_err(|e| e.to_string()),
        Err(e) => Err(e.to_string()),
    }
}

} // verus!
