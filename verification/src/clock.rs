//! Instants, and the two things only the outside world can give: the
//! current time and a fresh random identifier.

use vstd::prelude::*;

verus! {

/// The earliest second that has a calendar date here
/// (the start of the year -262143).
pub const MIN_SECS: i64 = -8_334_601_228_800;

/// The latest second that has a calendar date here
/// (the end of the year 262142).
pub const MAX_SECS: i64 = 8_210_266_876_799;

/// An instant on the UTC time line: whole seconds since the Unix epoch and
/// the nanoseconds into that second. A nanosecond count of a full second or
/// more stands for a leap second.
#[derive(Debug, Clone, Copy, PartialEq, Eq, Structural)]
pub struct Timestamp {
    pub secs: i64,
    pub nanos: u32,
}

impl DeepView for Timestamp {
    type V = Timestamp;

    open spec fn deep_view(&self) -> Timestamp {
        *self
    }
}

/// The text of an instant in RFC 3339 form, where the instant has a
/// calendar date.
pub uninterp spec fn rfc3339_text(secs: i64, nanos: u32) -> Option<Seq<char>>;

/// The instant that an RFC 3339 text denotes, brought to UTC, where the text
/// is well formed.
pub uninterp spec fn rfc3339_instant(text: Seq<char>) -> Option<Timestamp>;

impl Timestamp {
    /// Whether this instant is strictly later than `other`.
    pub open spec fn later_than(self, other: Timestamp) -> bool {
        self.secs > other.secs || (self.secs == other.secs && self.nanos > other.nanos)
    }

    /// Whether this instant is `other` or later.
    pub open spec fn at_or_after(self, other: Timestamp) -> bool {
        !other.later_than(self)
    }

    /// Whether the instant has a calendar date and is no leap second: what
    /// the system clock gives.
    pub open spec fn is_plain(self) -> bool {
        MIN_SECS <= self.secs <= MAX_SECS && self.nanos < 1_000_000_000
    }

    /// This instant moved `secs` seconds into the future.
    pub open spec fn plus(self, secs: u64) -> Timestamp {
        Timestamp { secs: (self.secs + secs) as i64, nanos: self.nanos }
    }

    /// Whether this instant is strictly later than `other`.
    pub fn is_after(&self, other: &Timestamp) -> (r: bool)
        ensures
            r == self.later_than(*other),
    {
        self.secs > other.secs || (self.secs == other.secs && self.nanos > other.nanos)
    }

    /// The later of the two instants.
    pub fn latest(self, other: Timestamp) -> (r: Timestamp)
        ensures
            r == if other.later_than(self) { other } else { self },
            r.at_or_after(self),
            r.at_or_after(other),
    {
        if other.is_after(&self) {
            other
        } else {
            self
        }
    }

    /// This instant moved `secs` seconds into the future.
    pub fn plus_secs(&self, secs: u64) -> (r: Timestamp)
        requires
            self.secs + secs <= i64::MAX,
        ensures
            r == self.plus(secs),
            r.secs == self.secs + secs,
            r.nanos == self.nanos,
    {
        if self.secs >= 0 {
            let delta: i64 = secs as i64;
            Timestamp { secs: self.secs + delta, nanos: self.nanos }
        } else {
            // The sum fits, but `secs` alone may not: go through zero.
            let below: u64 = (-(self.secs + 1)) as u64 + 1;
            if secs >= below {
                let rest: u64 = secs - below;
                Timestamp { secs: rest as i64, nanos: self.nanos }
            } else {
                let delta: i64 = secs as i64;
                Timestamp { secs: self.secs + delta, nanos: self.nanos }
            }
        }
    }

    /// The current time, from the system clock.
    ///
    /// Trusted: `chrono::Utc::now`, read through `DateTime::timestamp` and
    /// `DateTime::timestamp_subsec_nanos`. Nothing is known of the instant
    /// but that it has a calendar date and is no leap second.
    #[verifier::external_body]
    pub(crate) fn now() -> (r: Timestamp)
        ensures
            r.is_plain(),
    {
        let now = chrono::Utc::now();
        Timestamp { secs: now.timestamp(), nanos: now.timestamp_subsec_nanos() }
    }

    /// The RFC 3339 text of this instant, or `None` where it has no
    /// calendar date.
    ///
    /// Trusted: `chrono::DateTime::from_timestamp` followed by
    /// `DateTime::to_rfc3339`. Every plain instant has a text.
    #[verifier::external_body]
    pub(crate) fn to_rfc3339(&self) -> (r: Option<String>)
        ensures
            match r {
                Some(text) => rfc3339_text(self.secs, self.nanos) == Some(text@),
                None => rfc3339_text(self.secs, self.nanos) is None && !self.is_plain(),
            },
    {
        chrono::DateTime::from_timestamp(self.secs, self.nanos).map(|d| d.to_rfc3339())
    }

    /// The instant that an RFC 3339 text denotes, or `None` where the text
    /// is not well formed.
    ///
    /// Trusted: `chrono::DateTime::parse_from_rfc3339`, the result brought
    /// to UTC and read through `timestamp` and `timestamp_subsec_nanos`.
    #[verifier::external_body]
    pub(crate) fn parse_rfc3339(text: &str) -> (r: Option<Timestamp>)
        ensures
            r == rfc3339_instant(text@),
    {
        chrono::DateTime::parse_from_rfc3339(text).ok().map(
            |d| Timestamp { secs: d.timestamp(), nanos: d.timestamp_subsec_nanos() },
        )
    }
}

/// A fresh random identifier: a version 4 UUID in its hyphenated text form.
///
/// Trusted: `uuid::Uuid::new_v4` followed by its `to_string`. Nothing is
/// known of the text but its length.
#[verifier::external_body]
pub(crate) fn new_uuid() -> (r: String)
    ensures
        r@.len() == 36,
{
    uuid::Uuid::new_v4().to_string()
}

} // verus!
