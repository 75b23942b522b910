//! Times of day. The engine stamps events and completed challenges with a
//! `chrono::NaiveTime`; the library carries such a value through and reads
//! from it only the seconds since midnight.

use chrono::NaiveTime;
use chrono::Timelike;
use vstd::prelude::*;

verus! {

/// `chrono::NaiveTime`, a time of day without a time zone. Nothing is known
/// of what it holds beyond what `seconds_past_midnight` names.
#[verifier::external_type_specification]
#[verifier::external_body]
pub struct ExNaiveTime(NaiveTime);

/// The whole, non-leap seconds that have passed since midnight at `time`.
pub uninterp spec fn seconds_past_midnight(time: NaiveTime) -> u32;

/// Calls `chrono::Timelike::num_seconds_from_midnight` on a `NaiveTime`.
/// Trusted: the result is the number that `seconds_past_midnight` names.
#[verifier::external_body]
pub(crate) fn seconds_from_midnight(time: &NaiveTime) -> (secs: u32)
    ensures
        secs == seconds_past_midnight(*time),
{
    time.num_seconds_from_midnight()
}

} // verus!
