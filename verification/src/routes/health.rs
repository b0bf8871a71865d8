use crate::clock::unix_now;
use vstd::prelude::*;
use vstd::string::*;

verus! {

/// The answer to a liveness probe.
#[derive(Debug)]
pub struct HealthStatus {
    pub status: String,
    pub timestamp: i64,
}

/// What a liveness probe is answered with at a given time.
pub open spec fn healthy_at(now: i64, r: HealthStatus) -> bool {
    r.status@ == "healthy"@ && r.timestamp == now
}

/// The answer to a liveness probe at a given time: the service is up, and
/// the timestamp is that time, in seconds since the Unix epoch.
pub fn health_at(now: i64) -> (r: HealthStatus)
    ensures
        healthy_at(now, r),
{
    HealthStatus { status: String::from_str("healthy"), timestamp: now }
}

/// Reports that the service is up, with the current time in seconds since
/// the Unix epoch. Whatever the time is, the answer is that of
/// [`health_at`] at some time.
pub fn health_check() -> (r: HealthStatus)
    ensures
        exists|now: i64| healthy_at(now, r),
{
    let now = unix_now();
    health_at(now)
}

} // verus!
