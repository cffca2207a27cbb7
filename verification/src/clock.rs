use vstd::prelude::*;
use core::time::Duration;
use std::time::{SystemTime, SystemTimeError};
use vstd::arithmetic::div_mod::lemma_fundamental_div_mod_converse;
use crate::container::opt_text;

verus! {

#[verifier::external_type_specification]
#[verifier::external_body]
pub struct ExSystemTime(SystemTime);

#[verifier::external_type_specification]
#[verifier::external_body]
pub struct ExSystemTimeError(SystemTimeError);

/// Nanoseconds in a second.
pub const NANOS_PER_SEC: u64 = 1_000_000_000;

/// What the system clock read: how long after, or how long before, the Unix epoch, in
/// whole seconds and the nanoseconds of the second that follow.
#[derive(Clone, Copy, Debug, PartialEq, Eq, Structural)]
pub enum ClockReading {
    AfterEpoch { secs: u64, nanos: u32 },
    BeforeEpoch { secs: u64, nanos: u32 },
}

/// An instant as `chrono` holds one: whole seconds since the Unix epoch (negative
/// before it) and the nanoseconds that follow within the second (from one billion on
/// only during a leap second).
#[derive(Clone, Copy, Debug, PartialEq, Eq, Structural)]
pub struct Timestamp {
    pub secs: i64,
    pub nanos: u32,
}

/// The Unix epoch.
pub open spec fn epoch() -> Timestamp {
    Timestamp { secs: 0, nanos: 0 }
}

/// The epoch, 1970-01-01T00:00:00Z.
pub fn unix_epoch() -> (t: Timestamp)
    ensures
        t == epoch(),
{
    Timestamp { secs: 0, nanos: 0 }
}

/// The signed number of nanoseconds from the epoch that a reading stands for.
pub open spec fn reading_nanos(r: ClockReading) -> int {
    match r {
        ClockReading::AfterEpoch { secs, nanos } => secs * NANOS_PER_SEC + nanos,
        ClockReading::BeforeEpoch { secs, nanos } => -(secs * NANOS_PER_SEC + nanos),
    }
}

/// `x`, or the nearest bound of `i64` where `x` lies beyond it.
pub open spec fn clamp_i64(x: int) -> i64 {
    if x > i64::MAX {
        i64::MAX
    } else if x < i64::MIN {
        i64::MIN
    } else {
        x as i64
    }
}

/// The instant that a reading stands for: the whole seconds, rounded down, and the
/// nanoseconds left over. Seconds beyond the range of an `i64`, hundreds of billions of
/// years away, where no date can be written, are held at the nearest end of that range.
pub open spec fn reading_instant(r: ClockReading) -> Timestamp {
    Timestamp {
        secs: clamp_i64(reading_nanos(r) / (NANOS_PER_SEC as int)),
        nanos: (reading_nanos(r) % (NANOS_PER_SEC as int)) as u32,
    }
}

/// The instant that the clock reading `r` stands for (see `reading_instant`). A reading
/// before the epoch is an instant before it, as `chrono` counts one.
pub fn instant_of(r: ClockReading) -> (t: Timestamp)
    requires
        match r {
            ClockReading::AfterEpoch { nanos, .. } => nanos < NANOS_PER_SEC,
            ClockReading::BeforeEpoch { nanos, .. } => nanos < NANOS_PER_SEC,
        },
    ensures
        t == reading_instant(r),
{
    match r {
        ClockReading::AfterEpoch { secs, nanos } => {
            proof {
                lemma_fundamental_div_mod_converse(
                    reading_nanos(r),
                    NANOS_PER_SEC as int,
                    secs as int,
                    nanos as int,
                );
            }
            if secs > 9_223_372_036_854_775_807u64 {
                Timestamp { secs: i64::MAX, nanos }
            } else {
                Timestamp { secs: secs as i64, nanos }
            }
        },
        ClockReading::BeforeEpoch { secs, nanos } => {
            if nanos == 0 {
                proof {
                    lemma_fundamental_div_mod_converse(reading_nanos(r), NANOS_PER_SEC as int, -(secs as int), 0);
                }
                if secs > 9_223_372_036_854_775_808u64 {
                    Timestamp { secs: i64::MIN, nanos: 0 }
                } else {
                    Timestamp { secs: (0i128 - secs as i128) as i64, nanos: 0 }
                }
            } else {
                proof {
                    lemma_fundamental_div_mod_converse(
                        reading_nanos(r),
                        NANOS_PER_SEC as int,
                        -(secs as int) - 1,
                        NANOS_PER_SEC - nanos,
                    );
                }
                let left: u32 = 1_000_000_000u32 - nanos;
                if secs > 9_223_372_036_854_775_807u64 {
                    Timestamp { secs: i64::MIN, nanos: left }
                } else {
                    Timestamp { secs: (0i128 - secs as i128 - 1) as i64, nanos: left }
                }
            }
        },
    }
}

/// The current time of the system clock.
///
/// Trusted: calls `std::time::SystemTime::now`, whose documentation names no panic.
/// Nothing is promised of the value.
#[verifier::external_body]
fn system_now() -> (t: SystemTime) {
    SystemTime::now()
}

/// How long after the Unix epoch `t` lies, or, as the error, how long before it.
///
/// Trusted: calls `SystemTime::duration_since(UNIX_EPOCH)`, which returns an error
/// (and does not panic) when `t` is earlier than the epoch. Nothing is promised of the
/// durations.
#[verifier::external_body]
fn since_epoch(t: &SystemTime) -> (d: Result<Duration, SystemTimeError>) {
    t.duration_since(std::time::UNIX_EPOCH)
}

/// How far before the epoch a time lies that `duration_since` refused.
///
/// Trusted: calls `SystemTimeError::duration`.
#[verifier::external_body]
fn before_epoch_by(e: &SystemTimeError) -> (d: Duration) {
    e.duration()
}

/// The whole seconds of a duration.
///
/// Trusted: calls `Duration::as_secs`.
#[verifier::external_body]
fn whole_secs(d: &Duration) -> (secs: u64) {
    d.as_secs()
}

/// The nanoseconds of a duration beyond its whole seconds.
///
/// Trusted: calls `Duration::subsec_nanos`, which std documents as always less than
/// one billion.
#[verifier::external_body]
fn fraction_nanos(d: &Duration) -> (nanos: u32)
    ensures
        nanos < NANOS_PER_SEC,
{
    d.subsec_nanos()
}

/// Reads the system clock. A clock set before the epoch is read as such, not refused.
pub fn read_clock() -> (r: ClockReading)
    ensures
        match r {
            ClockReading::AfterEpoch { nanos, .. } => nanos < NANOS_PER_SEC,
            ClockReading::BeforeEpoch { nanos, .. } => nanos < NANOS_PER_SEC,
        },
{
    let t = system_now();
    match since_epoch(&t) {
        Ok(d) => ClockReading::AfterEpoch { secs: whole_secs(&d), nanos: fraction_nanos(&d) },
        Err(e) => {
            let d = before_epoch_by(&e);
            ClockReading::BeforeEpoch { secs: whole_secs(&d), nanos: fraction_nanos(&d) }
        },
    }
}

/// The current time by the system clock (see `instant_of`).
pub fn now() -> (t: Timestamp)
    ensures
        t.nanos < NANOS_PER_SEC,
{
    instant_of(read_clock())
}

/// The text that `chrono` writes under `{:?}` for the instant `secs` seconds and `nanos`
/// nanoseconds after the Unix epoch (for example `2024-01-02T03:04:05.000000006Z`), or
/// nothing where `chrono` has no date for that instant.
pub uninterp spec fn instant_debug_text(secs: i64, nanos: u32) -> Option<Seq<char>>;

/// The `{:?}` text of an instant, if `chrono` can write it.
///
/// Trusted: calls `chrono::DateTime::from_timestamp`, which gives no date (and does not
/// panic) for seconds outside its calendar's range or for nanoseconds that no second
/// can hold, and formats the date with `chrono`'s `Debug`. The text depends on `secs`
/// and `nanos` alone.
#[verifier::external_body]
fn instant_text(secs: i64, nanos: u32) -> (text: Option<String>)
    ensures
        opt_text(text) == instant_debug_text(secs, nanos),
{
    match chrono::DateTime::from_timestamp(secs, nanos) {
        Some(t) => Some(format!("{:?}", t)),
        None => None,
    }
}

/// What is written for an instant that has no date: only instants that no `chrono`
/// date stands for, beyond the years -262142 and 262142 or with nanoseconds no second
/// can hold.
pub open spec fn undated_text() -> Seq<char> {
    "(no such date)"@
}

/// The `{:?}` text of an instant (see `instant_debug_text`).
pub open spec fn timestamp_text(t: Timestamp) -> Seq<char> {
    match instant_debug_text(t.secs, t.nanos) {
        Some(text) => text,
        None => undated_text(),
    }
}

impl Timestamp {
    /// The instant as `{:?}` writes a `chrono` date (see `timestamp_text`).
    pub fn debug_text(&self) -> (text: String)
        ensures
            text@ == timestamp_text(*self),
    {
        match instant_text(self.secs, self.nanos) {
            Some(text) => text,
            None => String::from_str("(no such date)"),
        }
    }
}

} // verus!
