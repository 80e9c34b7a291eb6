//! What the library takes from chrono: the whole seconds of a `TimeDelta`,
//! and the plain form in which it keeps an instant.

use vstd::prelude::*;

verus! {

#[verifier::external_type_specification]
#[verifier::external_body]
pub struct ExTimeDelta(chrono::TimeDelta);

/// An instant as chrono's `DateTime<Utc>` holds it: whole seconds since the
/// Unix epoch and the nanoseconds past that second.
#[derive(Clone, Copy, Debug, PartialEq, Eq, Structural)]
pub struct Timestamp {
    pub seconds: i64,
    pub nanos: u32,
}

/// The number of whole seconds in a chrono `TimeDelta`, rounded toward zero,
/// as `TimeDelta::num_seconds` computes it.
pub uninterp spec fn delta_whole_seconds(delta: chrono::TimeDelta) -> i64;

/// Calls `chrono::TimeDelta::num_seconds`, the number of whole seconds in the
/// delta, rounded toward zero: a function of the delta alone, named
/// `delta_whole_seconds`. Nothing is said of its range: chrono documents
/// `i64::MAX` milliseconds either way, but its multiplication can build
/// longer deltas.
#[verifier::external_body]
pub(crate) fn whole_seconds(delta: &chrono::TimeDelta) -> (secs: i64)
    ensures
        secs == delta_whole_seconds(*delta),
{
    delta.num_seconds()
}

} // verus!
