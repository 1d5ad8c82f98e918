//! Services of the host system: the clock, unique identifiers and random numbers.
//!
//! Nothing here is computed by this library. Each function hands back what
//! the host gave, and its contract says only what holds of every answer.

use vstd::prelude::*;

verus! {

/// Number of characters in the hyphenated text form of an identifier.
pub const UUID_TEXT_LEN: usize = 36;

/// A reading of the system clock, as the standard library holds it.
#[verifier::external_type_specification]
#[verifier::external_body]
pub struct ExSystemTime(std::time::SystemTime);

/// Reads the system clock with `std::time::SystemTime::now`. The reading
/// depends on the moment of the call, so nothing is promised of it.
#[verifier::external_body]
pub(crate) fn system_now() -> std::time::SystemTime {
    std::time::SystemTime::now()
}

/// The time from the Unix epoch to a reading of the clock, by
/// `std::time::SystemTime::duration_since`; none where the reading lies
/// before the epoch. Nothing is promised of the time that is given.
#[verifier::external_body]
pub(crate) fn since_epoch(reading: &std::time::SystemTime) -> Option<core::time::Duration> {
    reading.duration_since(std::time::UNIX_EPOCH).ok()
}

/// The whole microseconds of a span of time, by `core::time::Duration::as_micros`.
/// Nothing is promised of the number.
#[verifier::external_body]
pub(crate) fn micros_of(span: &core::time::Duration) -> u128 {
    span.as_micros()
}

/// The microseconds since the Unix epoch for what the clock gives now, as [`saturate`]
/// counts them. The reading depends on the moment, so nothing is promised of the count.
pub(crate) fn clock_micros() -> u64 {
    let reading = system_now();
    let micros = match since_epoch(&reading) {
        Some(span) => Some(micros_of(&span)),
        None => None,
    };
    saturate(micros)
}

/// The count of microseconds that stands for a reading of the clock: 0
/// where the reading lies before the Unix epoch, and the largest `u64`
/// where the microseconds since the epoch do not fit.
pub open spec fn saturated(since_epoch: Option<u128>) -> u64 {
    match since_epoch {
        Some(micros) => if micros > u64::MAX {
            u64::MAX
        } else {
            micros as u64
        },
        None => 0,
    }
}

/// Counts the microseconds of a reading of the clock.
pub(crate) fn saturate(since_epoch: Option<u128>) -> (r: u64)
    ensures
        r == saturated(since_epoch),
{
    match since_epoch {
        Some(micros) => {
            if micros > 0xffff_ffff_ffff_ffff {
                u64::MAX
            } else {
                micros as u64
            }
        },
        None => 0,
    }
}

/// The whole seconds in a count of microseconds.
pub open spec fn whole_seconds_of(micros: u64) -> u64 {
    micros / 1_000_000
}

/// The whole seconds in a count of microseconds.
pub(crate) fn whole_seconds(micros: u64) -> (r: u64)
    ensures
        r == whole_seconds_of(micros),
        r <= u64::MAX / 1_000_000,
{
    micros / 1_000_000
}

/// Draws a fresh random identifier with `uuid::Uuid::new_v4` and renders it
/// with the crate's `Display` impl, which writes the hyphenated lower-case
/// form: always 36 characters. Which identifier comes out is left open, and
/// so is whether two calls ever give the same one.
#[verifier::external_body]
pub(crate) fn random_uuid() -> (id: String)
    ensures
        id@.len() == UUID_TEXT_LEN,
{
    uuid::Uuid::new_v4().to_string()
}

/// Draws one random byte with `rand::random`. Every value of `u8` can come out.
#[verifier::external_body]
pub(crate) fn random_octet() -> u8 {
    rand::random::<u8>()
}

/// The Unix timestamp of the instant that lies `seconds` seconds after the
/// Unix epoch, as chrono counts it. `chrono::DateTime::from_timestamp` makes
/// the instant and gives none where it lies outside the years that chrono
/// holds; `DateTime::timestamp` counts the seconds of the instant, which
/// are those that it was made from.
#[verifier::external_body]
pub(crate) fn chrono_timestamp(seconds: i64) -> (r: Option<i64>)
    ensures
        r matches Some(stamp) ==> stamp == seconds,
{
    match chrono::DateTime::from_timestamp(seconds, 0) {
        Some(instant) => Some(instant.timestamp()),
        None => None,
    }
}

/// The present time as a Unix timestamp in seconds: the whole seconds of
/// the clock's count of microseconds, as chrono counts them where it holds
/// the instant.
pub(crate) fn utc_timestamp() -> (r: i64)
    ensures
        0 <= r <= u64::MAX / 1_000_000,
{
    let seconds = whole_seconds(clock_micros()) as i64;
    match chrono_timestamp(seconds) {
        Some(stamp) => stamp,
        None => seconds,
    }
}

} // verus!
