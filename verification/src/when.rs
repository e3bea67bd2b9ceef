//! The moment a record was made, as a count of nanoseconds.

use crate::text::{decimal_string, decimal_text};
use vstd::prelude::*;
use vstd::std_specs::convert::FromSpecImpl;
use vstd::string::StringExecFns;

verus! {

/// What follows the count in the text of an instant.
pub const NANOSECONDS: &'static str = " ns";

/// A point in time, in nanoseconds since the Unix epoch.
#[derive(Clone, Copy)]
pub struct When(i64);

/// `std::time::SystemTime::elapsed` on `UNIX_EPOCH`: the time that the
/// system clock has gone past the epoch, or `None` where the clock reads a
/// date before it. Nothing is claimed of the reading: it is whatever the
/// clock says.
#[verifier::external_body]
fn elapsed_since_epoch() -> Option<core::time::Duration> {
    std::time::UNIX_EPOCH.elapsed().ok()
}

/// `Duration::as_secs`: the whole seconds of a duration. Nothing is claimed
/// of them.
pub assume_specification[ core::time::Duration::as_secs ](
    duration: &core::time::Duration,
) -> (secs: u64)
;

/// `Duration::subsec_nanos`: the part of a duration below one second, in
/// nanoseconds, which is always less than one billion.
pub assume_specification[ core::time::Duration::subsec_nanos ](
    duration: &core::time::Duration,
) -> (subsec: u32)
    ensures
        subsec < 1_000_000_000,
;

/// The count of nanoseconds that stands for `secs` whole seconds and
/// `subsec` nanoseconds.
pub open spec fn nanos_of(secs: int, subsec: int) -> int {
    secs * 1_000_000_000 + subsec
}

/// The reading of a clock that has gone `secs` seconds and `subsec`
/// nanoseconds past the epoch: the count of nanoseconds where it fits in 64
/// bits.
pub open spec fn reading_of(secs: u64, subsec: u32) -> Option<i64> {
    if nanos_of(secs as int, subsec as int) <= i64::MAX {
        Some(nanos_of(secs as int, subsec as int) as i64)
    } else {
        None
    }
}

/// `chrono::DateTime::from_timestamp` followed by
/// `DateTime::timestamp_nanos_opt`: the date that lies `secs` seconds and
/// `subsec` nanoseconds after the epoch, counted in nanoseconds. For a time
/// at or after the epoch with less than a second of nanoseconds, the count
/// comes back exactly where it fits in 64 bits, and `None` where it does
/// not. Both functions return an `Option`; neither panics.
#[verifier::external_body]
fn timestamp_nanos(secs: i64, subsec: u32) -> (nanos: Option<i64>)
    ensures
        secs >= 0 && subsec < 1_000_000_000 ==> nanos == reading_of(secs as u64, subsec),
{
    match chrono::DateTime::from_timestamp(secs, subsec) {
        Some(date) => date.timestamp_nanos_opt(),
        None => None,
    }
}

impl When {
    /// The number of nanoseconds since the Unix epoch.
    pub closed spec fn nanos(self) -> int {
        self.0 as int
    }

    /// The instant `nanos` nanoseconds after the Unix epoch.
    pub fn from_nanos(nanos: i64) -> (instant: When)
        ensures
            instant.nanos() == nanos,
    {
        When(nanos)
    }

    /// The instant that a clock reading stands for, if the clock gave one.
    pub fn from_reading(reading: Option<i64>) -> (instant: Option<When>)
        ensures
            reading is Some <==> instant is Some,
            instant matches Some(w) ==> w.nanos() == reading->0,
    {
        match reading {
            Some(nanos) => Some(When(nanos)),
            None => None,
        }
    }

    /// The instant that lies `secs` seconds and `subsec` nanoseconds after
    /// the epoch, or `None` where that many nanoseconds do not fit in 64
    /// bits. Nanoseconds beyond a second count as further seconds.
    pub fn from_elapsed(secs: u64, subsec: u32) -> (instant: Option<When>)
        ensures
            match reading_of(secs, subsec) {
                Some(nanos) => instant matches Some(w) && w.nanos() == nanos,
                None => instant is None,
            },
    {
        let carry: u64 = (subsec / 1_000_000_000) as u64;
        let rest: u32 = subsec % 1_000_000_000;
        if secs > 0x7fff_ffff_ffff_ffff - carry {
            None
        } else {
            assert(nanos_of(secs + carry, rest as int) == nanos_of(secs as int, subsec as int));
            When::from_reading(timestamp_nanos((secs + carry) as i64, rest))
        }
    }

    /// The current instant, or `None` when the clock is set to a date before
    /// the epoch or to one that does not fit in 64 bits of nanoseconds.
    /// Which instant that is depends on the clock alone; it never lies
    /// before the epoch.
    pub fn now() -> (instant: Option<When>)
        ensures
            instant matches Some(w) ==> w.nanos() >= 0,
    {
        match elapsed_since_epoch() {
            Some(elapsed) => When::from_elapsed(elapsed.as_secs(), elapsed.subsec_nanos()),
            None => None,
        }
    }

    /// The instant as text: the count of nanoseconds, then ` ns`.
    pub fn to_text(&self) -> (text: String)
        ensures
            text@ == decimal_text(self.nanos()) + NANOSECONDS@,
    {
        let mut text = decimal_string(self.0);
        text.append(NANOSECONDS);
        text
    }

    /// The number of nanoseconds since the Unix epoch.
    pub fn as_nanos(&self) -> (nanos: i64)
        ensures
            nanos == self.nanos(),
    {
        self.0
    }
}

impl From<When> for i64 {
    fn from(lhs: When) -> (nanos: i64) {
        lhs.0
    }
}

impl FromSpecImpl<When> for i64 {
    open spec fn obeys_from_spec() -> bool {
        true
    }

    open spec fn from_spec(lhs: When) -> i64 {
        lhs.nanos() as i64
    }
}

} // verus!
