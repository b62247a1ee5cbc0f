//! The wall clock, read in milliseconds since the Unix epoch.
use vstd::prelude::*;

verus! {

/// `std::time::SystemTime`, a reading of the system clock. Carried from the
/// read to the measurement; nothing is known of what it holds.
#[verifier::external_type_specification]
#[verifier::external_body]
pub struct ExSystemTime(std::time::SystemTime);

/// `std::time::SystemTimeError`, what a measurement from a later point in
/// time gives. Only its presence is used.
#[verifier::external_type_specification]
#[verifier::external_body]
pub struct ExSystemTimeError(std::time::SystemTimeError);

/// `SystemTime::now` reads the system clock. Nothing is claimed of the
/// reading: two reads may come back in either order.
pub assume_specification[ std::time::SystemTime::now ]() -> (t: std::time::SystemTime);

/// `Duration::as_millis` gives the whole milliseconds of a duration. Nothing
/// is claimed of the count.
pub assume_specification[ std::time::Duration::as_millis ](d: &std::time::Duration) -> (ms: u128);

/// `SystemTime::duration_since`, measured from `UNIX_EPOCH`: the time elapsed
/// since the Unix epoch, or an error when `t` lies before it. Nothing is
/// claimed of either.
#[verifier::external_body]
fn since_unix_epoch(t: &std::time::SystemTime) -> (r: Result<
    std::time::Duration,
    std::time::SystemTimeError,
>) {
    t.duration_since(std::time::UNIX_EPOCH)
}

/// The timestamp that stands for a count of milliseconds since the Unix
/// epoch: the count itself as long as it fits a signed 64-bit word, and past
/// that its low 64 bits.
pub fn millis_to_timestamp(ms: u128) -> (r: i64)
    ensures
        r == ms as i64,
        ms <= i64::MAX ==> r == ms,
{
    #[verifier::truncate]
    (ms as i64)
}

/// The current time in milliseconds since the Unix epoch, or `None` when the
/// clock reads earlier than the epoch. The count of milliseconds becomes a
/// timestamp by [`millis_to_timestamp`]. Nothing is known of the reading
/// itself: it is whatever the system clock says.
pub fn now_millis() -> (r: Option<i64>) {
    let now = std::time::SystemTime::now();
    match since_unix_epoch(&now) {
        Ok(elapsed) => Some(millis_to_timestamp(elapsed.as_millis())),
        Err(_) => None,
    }
}

} // verus!
