//! The time string parsed into a [`core::time::Duration`].
//!
//! The parsing itself is the verified function of [`crate::duration`]; only
//! the final conversion into the standard duration type is taken on trust,
//! under a name for its result.

use vstd::prelude::*;

use crate::duration::{parse_time_millis, valid_time_string};

verus! {

/// The duration holding exactly the given number of milliseconds.
pub uninterp spec fn millis_duration(ms: u64) -> core::time::Duration;

/// Relies on `core::time::Duration::from_millis`: the returned duration is
/// a function of the millisecond count alone.
#[verifier::external_body]
fn duration_from_millis(ms: u64) -> (d: core::time::Duration)
    ensures
        d == millis_duration(ms),
{
    core::time::Duration::from_millis(ms)
}

/// Parses the user's time string into a duration: the duration holding
/// [`parse_time_millis`] milliseconds.
pub fn parse_time_string(time: &String) -> (r: core::time::Duration)
    requires
        valid_time_string(time@),
    ensures
        r == millis_duration(parse_time_millis(time@) as u64),
{
    let ms = crate::duration::parse_time_string(time);
    duration_from_millis(ms)
}

} // verus!
