//! The wall clock, in Unix time.
//!
//! The system clock is read as an instant, std measures the instant from the
//! Unix epoch, and chrono turns the measure into a count since the epoch.
//! What the count means as a time of this library is decided here: the
//! library has no time before the epoch, so an earlier instant counts as the
//! epoch itself; and where chrono has no count for an instant, the time is
//! std's own measure.

use vstd::prelude::*;

verus! {

/// An instant of the system clock, carried through unread.
#[verifier::external_type_specification]
#[verifier::external_body]
pub struct ExSystemTime(std::time::SystemTime);

/// How far an instant lies from the Unix epoch, in whole seconds and the
/// nanoseconds beyond them.
#[derive(Debug, Clone, Copy, PartialEq, Eq, Structural)]
pub enum EpochOffset {
    /// The instant is the epoch or lies after it.
    After { secs: u64, nanos: u32 },
    /// The instant lies before the epoch.
    Before { secs: u64, nanos: u32 },
}

/// `std::time::SystemTime::now`: the instant that the system clock shows.
/// Nothing is claimed of it.
#[verifier::external_body]
fn system_time_now() -> (at: std::time::SystemTime) {
    std::time::SystemTime::now()
}

/// `std::time::SystemTime::duration_since` with the Unix epoch: the distance
/// of the instant from the epoch, on the side on which it lies, handed out as
/// the whole seconds and the nanoseconds of the `Duration`. The nanoseconds
/// are those beyond the whole seconds, so they stay below a second.
#[verifier::external_body]
fn since_epoch(at: std::time::SystemTime) -> (offset: EpochOffset)
    ensures
        match offset {
            EpochOffset::After { secs, nanos } => nanos < 1_000_000_000,
            EpochOffset::Before { secs, nanos } => nanos < 1_000_000_000,
        },
{
    match at.duration_since(std::time::UNIX_EPOCH) {
        Ok(d) => EpochOffset::After { secs: d.as_secs(), nanos: d.subsec_nanos() },
        Err(e) => EpochOffset::Before {
            secs: e.duration().as_secs(),
            nanos: e.duration().subsec_nanos(),
        },
    }
}

/// `chrono::DateTime::from_timestamp`, read through `timestamp`: chrono's count
/// of whole seconds since the epoch for the instant `secs` seconds and
/// `nanos` nanoseconds after it, or `None` where chrono has no date for the
/// instant. Nothing is claimed of the count.
#[verifier::external_body]
fn utc_timestamp(secs: i64, nanos: u32) -> (t: Option<i64>) {
    match chrono::DateTime::from_timestamp(secs, nanos) {
        Some(at) => Some(at.timestamp()),
        None => None,
    }
}

/// `chrono::DateTime::from_timestamp`, read through `timestamp_millis`:
/// chrono's count of whole milliseconds since the epoch for the instant
/// `secs` seconds and `nanos` nanoseconds after it, or `None` where chrono
/// has no date for the instant. Nothing is claimed of the count.
#[verifier::external_body]
fn utc_timestamp_millis(secs: i64, nanos: u32) -> (t: Option<i64>) {
    match chrono::DateTime::from_timestamp(secs, nanos) {
        Some(at) => Some(at.timestamp_millis()),
        None => None,
    }
}

/// The largest number that a clock reading can be.
pub open spec fn latest_reading() -> int {
    i64::MAX as int
}

/// A count held down to the largest reading.
pub open spec fn capped(n: int) -> u64 {
    if n > latest_reading() {
        latest_reading() as u64
    } else if n < 0 {
        0
    } else {
        n as u64
    }
}

/// What is asked of chrono for an instant: the seconds and nanoseconds of an
/// instant at or after the epoch whose seconds chrono can take. An instant
/// before the epoch is not asked about, and neither is one too far for a
/// count of seconds.
pub open spec fn asked_of_chrono(offset: EpochOffset) -> Option<(i64, u32)> {
    match offset {
        EpochOffset::After { secs, nanos } => if secs <= latest_reading() {
            Some((secs as i64, nanos))
        } else {
            None
        },
        EpochOffset::Before { .. } => None,
    }
}

/// The seconds of an instant by std's measure alone: none before the epoch,
/// and the whole seconds after it, held down to the largest reading.
pub open spec fn measured_seconds(offset: EpochOffset) -> u64 {
    match offset {
        EpochOffset::After { secs, nanos } => capped(secs as int),
        EpochOffset::Before { .. } => 0,
    }
}

/// The milliseconds of an instant by std's measure alone: none before the
/// epoch, and the whole milliseconds after it, held down to the largest
/// reading.
pub open spec fn measured_millis(offset: EpochOffset) -> u64 {
    match offset {
        EpochOffset::After { secs, nanos } => capped(secs * 1000 + nanos / 1_000_000),
        EpochOffset::Before { .. } => 0,
    }
}

/// The time that a reading stands for: chrono's count where it has one, and
/// the epoch for a count before it; the measure `measured` where chrono has
/// none.
pub open spec fn reading_as_time(measured: u64, reading: Option<i64>) -> u64 {
    match reading {
        Some(t) => capped(t as int),
        None => capped(measured as int),
    }
}

/// What is asked of chrono for an instant.
pub fn chrono_arguments(offset: EpochOffset) -> (r: Option<(i64, u32)>)
    ensures
        r == asked_of_chrono(offset),
{
    match offset {
        EpochOffset::After { secs, nanos } => {
            if secs <= 0x7fff_ffff_ffff_ffff {
                Some((secs as i64, nanos))
            } else {
                None
            }
        },
        EpochOffset::Before { .. } => None,
    }
}

/// The seconds of an instant by std's measure alone.
pub fn seconds_measured(offset: EpochOffset) -> (n: u64)
    ensures
        n == measured_seconds(offset),
{
    match offset {
        EpochOffset::After { secs, nanos } => {
            if secs > 0x7fff_ffff_ffff_ffff {
                0x7fff_ffff_ffff_ffff
            } else {
                secs
            }
        },
        EpochOffset::Before { .. } => 0,
    }
}

/// The milliseconds of an instant by std's measure alone.
pub fn millis_measured(offset: EpochOffset) -> (n: u64)
    ensures
        n == measured_millis(offset),
{
    match offset {
        EpochOffset::After { secs, nanos } => {
            let beyond: u64 = (nanos / 1_000_000) as u64;
            if secs > (0x7fff_ffff_ffff_ffff - beyond) / 1000 {
                0x7fff_ffff_ffff_ffff
            } else {
                secs * 1000 + beyond
            }
        },
        EpochOffset::Before { .. } => 0,
    }
}

/// The time that a reading stands for.
pub fn time_from_reading(measured: u64, reading: Option<i64>) -> (now: u64)
    ensures
        now == reading_as_time(measured, reading),
        now <= latest_reading(),
{
    match reading {
        Some(t) => {
            if t < 0 {
                0
            } else {
                t as u64
            }
        },
        None => {
            if measured > 0x7fff_ffff_ffff_ffff {
                0x7fff_ffff_ffff_ffff
            } else {
                measured
            }
        },
    }
}

/// The current Unix time in seconds: what the clock's reading stands for,
/// with std's measure of seconds where chrono has no count.
pub fn unix_now() -> (now: u64)
    ensures
        exists|offset: EpochOffset, reading: Option<i64>|
            now == #[trigger] reading_as_time(measured_seconds(offset), reading),
        now <= latest_reading(),
{
    let offset = since_epoch(system_time_now());
    let reading = match chrono_arguments(offset) {
        Some(asked) => utc_timestamp(asked.0, asked.1),
        None => None,
    };
    time_from_reading(seconds_measured(offset), reading)
}

/// The current Unix time in milliseconds: what the clock's reading stands
/// for, with std's measure of milliseconds where chrono has no count.
pub fn unix_now_millis() -> (now: u64)
    ensures
        exists|offset: EpochOffset, reading: Option<i64>|
            now == #[trigger] reading_as_time(measured_millis(offset), reading),
        now <= latest_reading(),
{
    let offset = since_epoch(system_time_now());
    let reading = match chrono_arguments(offset) {
        Some(asked) => utc_timestamp_millis(asked.0, asked.1),
        None => None,
    };
    time_from_reading(millis_measured(offset), reading)
}

} // verus!
