//! Latency results and their display classification.

use vstd::prelude::*;

verus! {

/// Why a reachability probe failed, as classified at the call boundary.
#[derive(Clone, Copy, Debug, PartialEq, Eq, Structural)]
pub enum ProbeError {
    /// The request exceeded its configured timeout.
    Timeout,
    /// The connection was refused or the host was unreachable.
    ConnectError,
    /// Any other failure, including a non-success HTTP status.
    Other,
}

/// State of one latency test target, re-enterable on re-trigger.
#[derive(Clone, Copy, Debug, PartialEq, Eq, Structural)]
pub enum LatencyStatus {
    /// No test has been triggered yet.
    Pending,
    /// A test is in flight.
    Testing,
    /// The last test succeeded, with the measured round trip in milliseconds.
    Success(u64),
    /// The last test failed.
    Failed(ProbeError),
}

/// How a measured latency is presented.
#[derive(Clone, Copy, Debug, PartialEq, Eq, Structural)]
pub enum Classification {
    Good,
    Warn,
    Bad,
}

/// Classify a round-trip time for display: below 200 ms is good,
/// 200 to below 500 ms warns, 500 ms and above is bad.
pub fn classify(ms: u64) -> (c: Classification)
    ensures
        (c == Classification::Good) <==> ms < 200,
        (c == Classification::Warn) <==> (200 <= ms < 500),
        (c == Classification::Bad) <==> ms >= 500,
{
    if ms < 200 {
        Classification::Good
    } else if ms < 500 {
        Classification::Warn
    } else {
        Classification::Bad
    }
}

} // verus!
