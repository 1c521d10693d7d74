//! Reading the local wall clock.
use chrono::Timelike;
use vstd::prelude::*;

verus! {

/// Reads the local wall clock through `chrono::Local::now()` and returns its
/// hour and minute. Trusted: chrono documents `Timelike::hour` as 0 to 23 and
/// `Timelike::minute` as 0 to 59; nothing else is promised of the reading.
#[verifier::external_body]
pub fn local_hour_minute() -> (r: (u32, u32))
    ensures
        r.0 < 24,
        r.1 < 60,
{
    let now = chrono::Local::now();
    (now.hour(), now.minute())
}

} // verus!
