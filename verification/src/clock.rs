//! The one clock read of a pass.

use vstd::prelude::*;

verus! {

/// Relies on chrono's `Utc::now` and `DateTime::timestamp`: the current
/// wall-clock time as whole seconds since the Unix epoch. Nothing is
/// promised of the value: every decision downstream is verified for every
/// possible timestamp.
#[verifier::external_body]
pub(crate) fn now_epoch_seconds() -> u64 {
    chrono::Utc::now().timestamp() as u64
}

} // verus!
