use vstd::prelude::*;

verus! {

/// Relies on chrono's `Utc::now` and `DateTime::timestamp`: the current time as
/// whole seconds since the Unix epoch. `Utc::now` panics on a system clock set
/// before the epoch, so a returned value is never negative.
#[verifier::external_body]
pub(crate) fn now_epoch_seconds() -> (r: i64)
    ensures
        r >= 0,
{
    chrono::Utc::now().timestamp()
}

} // verus!
