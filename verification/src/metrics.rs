//! What a single event adds to the metrics that a server exports.
use vstd::prelude::*;

verus! {

/// The amounts by which one event raises each metric of the server it
/// happened in: bytes taken in, bytes sent back, successful sends, failed
/// sends, and samples taken of the send latency. The caller, which owns the
/// clock, measures each sample's value.
#[derive(Clone, Copy, Debug, PartialEq, Eq, Structural)]
pub struct MetricUpdate {
    pub recv_bytes: u64,
    pub send_bytes: u64,
    pub send_success: u64,
    pub send_fail: u64,
    pub latency_samples: u64,
}

/// The update of an event that touches no metric.
pub open spec fn no_update() -> MetricUpdate {
    MetricUpdate { recv_bytes: 0, send_bytes: 0, send_success: 0, send_fail: 0, latency_samples: 0 }
}

/// Total bytes taken in over a run of updates.
pub open spec fn sum_recv(us: Seq<MetricUpdate>) -> int
    decreases us.len(),
{
    if us.len() == 0 {
        0
    } else {
        sum_recv(us.drop_last()) + us.last().recv_bytes
    }
}

/// Total bytes sent over a run of updates.
pub open spec fn sum_send(us: Seq<MetricUpdate>) -> int
    decreases us.len(),
{
    if us.len() == 0 {
        0
    } else {
        sum_send(us.drop_last()) + us.last().send_bytes
    }
}

} // verus!
