use vstd::prelude::*;

verus! {

/// `Utc::now().timestamp()`: the current time in seconds since the Unix
/// epoch. Nothing is claimed of the value.
#[verifier::external_body]
pub(crate) fn unix_now() -> i64 {
    chrono::Utc::now().timestamp()
}

} // verus!
