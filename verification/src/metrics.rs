//! What is measured of the executor.

use crate::chain::Height;
use crate::engine::LocalState;
use vstd::prelude::*;

verus! {

/// The readings of the executor's gauges.
#[derive(Clone, Copy, Debug)]
pub struct Readings {
    /// How far the tracked finalized tip is behind the network's.
    pub finalization_lag: i64,
    /// How far the pending head is ahead of the execution layer's head.
    /// Negative when consensus selected a head below it. Absent while the
    /// height of the pending head is not known; the gauge then keeps its value.
    pub convergence_depth: Option<i64>,
}

/// A number as a gauge holds it: in 64 bits, of which the first is a sign.
pub open spec fn gauge_value(number: u64) -> int {
    if number <= i64::MAX {
        number as int
    } else {
        number - 0x1_0000_0000_0000_0000
    }
}

/// How far the tracked finalized tip is behind the network's.
pub open spec fn lag_of(local: LocalState, finalized: Height) -> u64 {
    if finalized > local.finalized.0 {
        (finalized - local.finalized.0) as u64
    } else {
        0
    }
}

/// How far the pending head is ahead of the head, as gauges hold the two.
pub open spec fn depth_of(local: LocalState, pending_height: Option<Height>) -> Option<int> {
    match pending_height {
        Some(height) => Some(gauge_value(height) - gauge_value(local.head.0)),
        None => None,
    }
}

/// A number as a gauge holds it.
fn to_gauge(number: u64) -> (value: i64)
    ensures
        value == gauge_value(number),
{
    let value: i64 = #[verifier::truncate] (number as i64);
    assert(number <= 0x7fff_ffff_ffff_ffff ==> value == number) by (bit_vector)
        requires
            value == number as i64,
    ;
    assert(number > 0x7fff_ffff_ffff_ffff ==> value == number - 0x1_0000_0000_0000_0000)
        by (bit_vector)
        requires
            value == number as i64,
    ;
    value
}

/// Reads the gauges.
pub fn observe(local: LocalState, finalized: Height, pending_height: Option<Height>) -> (readings:
    Readings)
    requires
        pending_height matches Some(height) ==> i64::MIN <= gauge_value(height) - gauge_value(
            local.head.0,
        ) <= i64::MAX,
    ensures
        readings.finalization_lag == gauge_value(lag_of(local, finalized)),
        match depth_of(local, pending_height) {
            Some(depth) => readings.convergence_depth is Some && readings.convergence_depth->0
                == depth,
            None => readings.convergence_depth is None,
        },
{
    let finalization_lag = to_gauge(finalized.saturating_sub(local.finalized.0));
    let convergence_depth = match pending_height {
        Some(height) => Some(to_gauge(height) - to_gauge(local.head.0)),
        None => None,
    };
    Readings { finalization_lag, convergence_depth }
}

} // verus!
