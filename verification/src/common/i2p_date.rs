//! The date of the I2P protocols: a count of milliseconds since the start of
//! 1970 in UTC, which is never zero.

use crate::common::rfc3339::{format_rfc3339_utc, rfc3339_utc, MAX_CALENDAR_SECONDS};
use std::cmp::Ordering;
use vstd::prelude::*;
use vstd::std_specs::cmp::PartialOrdSpec;

verus! {

/// The number of milliseconds since January 1, 1970 (UNIX time) in the GMT
/// timezone. The protocols read a count of zero as "no date", so no value of
/// this type holds it.
#[derive(Copy, Clone, PartialEq, Eq, Structural, Debug)]
pub struct I2pDate {
    milliseconds: u64,
}

impl View for I2pDate {
    type V = nat;

    /// The count of milliseconds.
    closed spec fn view(&self) -> nat {
        self.milliseconds as nat
    }
}

impl I2pDate {
    /// What holds of every date: its count is not zero.
    #[verifier::type_invariant]
    pub open spec fn is_defined(&self) -> bool {
        self@ != 0
    }

    /// Whether the date falls within the years that have a calendar form,
    /// which end with the year 262143.
    pub open spec fn spec_has_calendar_form(&self) -> bool {
        self.seconds() <= MAX_CALENDAR_SECONDS
    }

    /// The whole seconds between the epoch and the date.
    pub open spec fn seconds(&self) -> int {
        self@ as int / 1000
    }

    /// The part of the date beyond its whole seconds, in nanoseconds.
    pub open spec fn nanoseconds(&self) -> int {
        (self@ as int % 1000) * 1_000_000
    }

    /// The date that lies `milliseconds` after the epoch.
    pub fn new(milliseconds: u64) -> (date: I2pDate)
        requires
            milliseconds != 0,
        ensures
            date@ == milliseconds,
    {
        I2pDate { milliseconds: milliseconds }
    }

    /// Whether the date falls within the years that have a calendar form,
    /// which end with the year 262143. Only such a date can be written as
    /// text.
    #[verifier::when_used_as_spec(spec_has_calendar_form)]
    pub fn has_calendar_form(&self) -> (yes: bool)
        ensures
            yes == self.spec_has_calendar_form(),
    {
        let (seconds, _) = self.to_datetime();
        seconds <= MAX_CALENDAR_SECONDS
    }

    /// The date as RFC 3339 text in UTC, with the offset written `+00:00`.
    /// The date must have a calendar form.
    pub fn to_rfc3339(&self) -> (text: String)
        requires
            self.has_calendar_form(),
        ensures
            text@ == rfc3339_utc(self.seconds(), self.nanoseconds()),
    {
        let (seconds, nanoseconds) = self.to_datetime();
        format_rfc3339_utc(seconds, nanoseconds)
    }

    /// The date as whole seconds since the epoch and the nanoseconds that
    /// follow them. Nothing is lost: a millisecond is a million nanoseconds.
    pub fn to_datetime(&self) -> (parts: (i64, u32))
        ensures
            parts.0 == self.seconds(),
            parts.1 == self.nanoseconds(),
    {
        let msec_to_sec: u64 = 1000;
        let msec_to_nsec: u64 = 1_000_000;
        let seconds: u64 = self.milliseconds / msec_to_sec;
        let remainder: u64 = self.milliseconds % msec_to_sec;
        let nanoseconds: u64 = remainder * msec_to_nsec;
        (seconds as i64, nanoseconds as u32)
    }

    /// The earliest date: one millisecond after the epoch.
    pub fn min_value() -> (date: I2pDate)
        ensures
            date@ == 1,
    {
        I2pDate::new(1)
    }

    /// The latest date: the largest count that 64 bits hold.
    pub fn max_value() -> (date: I2pDate)
        ensures
            date@ == u64::MAX,
    {
        I2pDate::new(u64::MAX)
    }

    /// The date for a count that a random source has drawn, or nothing where
    /// the source drew zero.
    pub fn rand(draw: u64) -> (date: Option<I2pDate>)
        ensures
            match date {
                Some(d) => draw != 0 && d@ == draw,
                None => draw == 0,
            },
    {
        if draw == 0 {
            None
        } else {
            Some(I2pDate::new(draw))
        }
    }
}

impl I2pDate {
    /// A date is its count and nothing else: two dates with the same count
    /// are the same date, and a count always fits in 64 bits.
    pub proof fn lemma_count_determines_date(a: I2pDate, b: I2pDate)
        ensures
            a@ == b@ <==> a == b,
            a@ <= u64::MAX,
    {
    }

    /// No date lies before the earliest, one millisecond after the epoch, or
    /// after the latest, the largest count that 64 bits hold; and the
    /// earliest comes before the latest.
    pub proof fn lemma_earliest_and_latest(date: I2pDate, earliest: I2pDate, latest: I2pDate)
        requires
            date.is_defined(),
            earliest@ == 1,
            latest@ == u64::MAX,
        ensures
            earliest.partial_cmp_spec(&date) is Some,
            earliest.partial_cmp_spec(&date) != Some(Ordering::Greater),
            date.partial_cmp_spec(&latest) is Some,
            date.partial_cmp_spec(&latest) != Some(Ordering::Greater),
            earliest.partial_cmp_spec(&latest) == Some(Ordering::Less),
    {
        Self::lemma_count_determines_date(date, date);
    }

    /// The order of dates is the order of their counts: it is total, and a
    /// date compares as equal to itself alone.
    pub proof fn lemma_order_follows_count(a: I2pDate, b: I2pDate)
        ensures
            a.partial_cmp_spec(&b) == Some(Ordering::Less) <==> a@ < b@,
            a.partial_cmp_spec(&b) == Some(Ordering::Equal) <==> a == b,
            a.partial_cmp_spec(&b) == Some(Ordering::Greater) <==> a@ > b@,
    {
        Self::lemma_count_determines_date(a, b);
    }
}

impl Default for I2pDate {
    /// The earliest date.
    fn default() -> (date: I2pDate)
        ensures
            date@ == 1,
    {
        I2pDate::min_value()
    }
}

impl PartialOrd for I2pDate {
    /// Dates are ordered as their counts are.
    fn partial_cmp(&self, other: &I2pDate) -> (order: Option<Ordering>) {
        if self.milliseconds < other.milliseconds {
            Some(Ordering::Less)
        } else if self.milliseconds == other.milliseconds {
            Some(Ordering::Equal)
        } else {
            Some(Ordering::Greater)
        }
    }
}

impl vstd::std_specs::cmp::PartialOrdSpecImpl for I2pDate {
    open spec fn obeys_partial_cmp_spec() -> bool {
        true
    }

    open spec fn partial_cmp_spec(&self, other: &I2pDate) -> Option<Ordering> {
        if self@ < other@ {
            Some(Ordering::Less)
        } else if self@ == other@ {
            Some(Ordering::Equal)
        } else {
            Some(Ordering::Greater)
        }
    }
}

} // verus!
