//! The system clock.
//!
//! What the clock says is known to nobody beforehand: the functions that
//! read it promise nothing of their result, and whatever is computed from
//! a time takes that time as an argument elsewhere.
use vstd::prelude::*;

verus! {

/// Declares `std::time::SystemTime`. Trusted: the type exists; nothing is
/// known of what a value of it holds.
#[verifier::external_type_specification]
#[verifier::external_body]
pub struct ExSystemTime(std::time::SystemTime);

/// Declares `std::time::Instant`. Trusted: the type exists; nothing is
/// known of what a value of it holds.
#[verifier::external_type_specification]
#[verifier::external_body]
pub struct ExInstant(std::time::Instant);

/// Calls `std::time::SystemTime::now`. Trusted: nothing is claimed of the
/// result.
#[verifier::external_body]
pub(crate) fn system_now() -> (now: std::time::SystemTime)
{
    std::time::SystemTime::now()
}

/// Calls `std::time::SystemTime::duration_since` with the Unix epoch as
/// the earlier time. Trusted: nothing is claimed of the result; `None`
/// stands for the error that the time lies before the epoch.
#[verifier::external_body]
pub(crate) fn since_epoch(at: &std::time::SystemTime) -> (span: Option<std::time::Duration>)
{
    match at.duration_since(std::time::UNIX_EPOCH) {
        Ok(span) => Some(span),
        Err(_) => None,
    }
}

/// Calls `std::time::Duration::as_secs`. Trusted: nothing is claimed of
/// the result, which is the whole seconds of the span.
#[verifier::external_body]
pub(crate) fn whole_seconds(span: &std::time::Duration) -> (secs: u64)
{
    span.as_secs()
}

/// Calls `std::time::Duration::as_millis`. Trusted: nothing is claimed of
/// the result, which is the whole milliseconds of the span.
#[verifier::external_body]
pub(crate) fn whole_millis(span: &std::time::Duration) -> (millis: u128)
{
    span.as_millis()
}

/// Calls `std::time::Instant::now`. Trusted: nothing is claimed of the
/// result.
#[verifier::external_body]
pub(crate) fn instant_now() -> (now: std::time::Instant)
{
    std::time::Instant::now()
}

/// Calls `std::time::Instant::elapsed`. Trusted: nothing is claimed of
/// the result, which is the time that has passed since `start`.
#[verifier::external_body]
pub(crate) fn elapsed_since(start: &std::time::Instant) -> (span: std::time::Duration)
{
    start.elapsed()
}

/// The timestamp that a reading of the clock stands for: the whole
/// seconds since the Unix epoch where the clock is past it, zero where it
/// is set before it.
pub fn timestamp_from(since_epoch: Option<u64>) -> (secs: u64)
    ensures
        secs == match since_epoch {
            Some(whole) => whole,
            None => 0,
        },
{
    match since_epoch {
        Some(whole) => whole,
        None => 0,
    }
}

/// A number of milliseconds cut to 64 bits: what is left of it after
/// whole multiples of two to the power of 64 are taken away.
pub fn millis_from(whole: u128) -> (millis: u64)
    ensures
        millis == whole % 0x1_0000_0000_0000_0000,
{
    assert((whole as u64) as u128 == whole % 0x1_0000_0000_0000_0000) by (bit_vector);
    #[verifier::truncate]
    (whole as u64)
}

/// Seconds since the Unix epoch, or zero on a clock set before it. What
/// the clock says is open; `timestamp_from` says what is made of it.
pub fn unix_timestamp() -> (secs: u64)
{
    let now = system_now();
    let since_epoch = match since_epoch(&now) {
        Some(span) => Some(whole_seconds(&span)),
        None => None,
    };
    timestamp_from(since_epoch)
}

/// The whole milliseconds that have passed since `start`, cut to 64
/// bits. How much time has passed is open; `millis_from` says what is
/// made of it.
pub fn elapsed_millis(start: &std::time::Instant) -> (millis: u64)
{
    let span = elapsed_since(start);
    millis_from(whole_millis(&span))
}

} // verus!
