//! The system clock.

use vstd::prelude::*;

verus! {

#[verifier::external_type_specification]
#[verifier::external_body]
pub struct ExSystemTime(std::time::SystemTime);

#[verifier::external_type_specification]
#[verifier::external_body]
pub struct ExSystemTimeError(std::time::SystemTimeError);

/// `std::time::SystemTime::now`: the machine's current time. Nothing is
/// claimed of it.
#[verifier::external_body]
fn system_time_now() -> (r: std::time::SystemTime) {
    std::time::SystemTime::now()
}

/// `std::time::SystemTime::duration_since`, taken from the Unix epoch: the
/// time elapsed since the epoch, or an error where `t` lies before it.
/// Nothing is claimed of the value, which depends on `t`.
#[verifier::external_body]
fn duration_since_unix_epoch(t: &std::time::SystemTime) -> (r: Result<
    core::time::Duration,
    std::time::SystemTimeError,
>) {
    t.duration_since(std::time::UNIX_EPOCH)
}

/// `core::time::Duration::as_nanos`: the whole nanoseconds of `d`. Nothing
/// is claimed of the value.
#[verifier::external_body]
fn duration_as_nanos(d: &core::time::Duration) -> (r: u128) {
    d.as_nanos()
}

/// Nanoseconds since the Unix epoch, taken to 64 bits, or 0 where the clock
/// stands before the epoch.
pub(crate) fn now_ns() -> u64 {
    let t = system_time_now();
    match duration_since_unix_epoch(&t) {
        Ok(d) => {
            let nanos = duration_as_nanos(&d);
            #[verifier::truncate]
            (nanos as u64)
        },
        Err(_) => 0,
    }
}

} // verus!
