//! The wall clock.
use chrono::Utc;
use vstd::prelude::*;

verus! {

/// Nanoseconds since the Unix epoch, by `chrono::Utc::now` and
/// `chrono::DateTime::timestamp_nanos_opt`; `None` when the time lies beyond what an `i64` counts
/// in nanoseconds. `Utc::now` counts the time that has passed since the epoch, so a reading is
/// never negative. (The variant of `Utc::now` that asks JavaScript is compiled for `wasm32` only,
/// and is not meant here.) Nothing more is claimed of the reading: it is whatever the system clock
/// says, and two readings may differ in either direction. A system clock set before the epoch, or
/// beyond the years that chrono knows, makes `Utc::now` panic.
#[verifier::external_body]
pub(crate) fn utc_now_nanos() -> (reading: Option<i64>)
    ensures
        reading matches Some(now) ==> now >= 0,
{
    Utc::now().timestamp_nanos_opt()
}

/// The system clock gave this reading when it was asked.
pub closed spec fn given(reading: Option<i64>) -> bool {
    call_ensures(utc_now_nanos, (), reading)
}

/// A reading is given by the clock itself, and by nothing else.
pub(crate) proof fn readings_come_from_the_clock(reading: Option<i64>)
    ensures
        given(reading) <==> call_ensures(utc_now_nanos, (), reading),
{
}

/// What the system clock shows now.
pub fn read_clock() -> (reading: Option<i64>)
    ensures
        given(reading),
        reading matches Some(now) ==> now >= 0,
{
    utc_now_nanos()
}

} // verus!
