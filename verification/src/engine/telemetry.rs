//! When the telemetry sampler takes a reading. Sampling itself, and the readings, which are
//! fractional, are the caller's part: one task ticks, asks here what to do, and publishes.
use vstd::prelude::*;

use crate::primitives::unix_now;

verus! {

/// The floor on the sampling interval, in milliseconds: below it a CPU percentage, which is
/// the difference of two samples, is mostly noise.
pub const MINIMUM_INTERVAL_MS: u64 = 200;

/// What to do on a tick.
#[derive(Debug, Clone, Copy, PartialEq, Eq, Structural)]
pub struct TickDecision {
    /// Take a reading and publish it.
    pub sample: bool,
    /// Milliseconds counted towards the next reading.
    pub elapsed_ms: u64,
}

/// One tick of the sampler, `MINIMUM_INTERVAL_MS` after the last. Settings are read afresh on
/// every tick, since `settings.set` changes them live. Time accrues while telemetry is off; a
/// reading is due once the interval (never below the floor) has passed, and then the count
/// restarts; a due reading is skipped when no socket is connected at all.
pub open spec fn tick_spec(elapsed_ms: u64, enabled: bool, interval_ms: u32, listeners: bool) -> TickDecision {
    let e = (elapsed_ms + MINIMUM_INTERVAL_MS) as u64;
    let wanted = if interval_ms as u64 > MINIMUM_INTERVAL_MS {
        interval_ms as u64
    } else {
        MINIMUM_INTERVAL_MS
    };
    if !enabled || e < wanted {
        TickDecision { sample: false, elapsed_ms: e }
    } else {
        TickDecision { sample: listeners, elapsed_ms: 0 }
    }
}

pub fn tick(elapsed_ms: u64, enabled: bool, interval_ms: u32, listeners: bool) -> (r: TickDecision)
    requires
        elapsed_ms <= u64::MAX - MINIMUM_INTERVAL_MS,
    ensures
        r == tick_spec(elapsed_ms, enabled, interval_ms, listeners),
{
    let e = elapsed_ms + MINIMUM_INTERVAL_MS;
    if !enabled {
        return TickDecision { sample: false, elapsed_ms: e };
    }
    let wanted = if interval_ms as u64 > MINIMUM_INTERVAL_MS {
        interval_ms as u64
    } else {
        MINIMUM_INTERVAL_MS
    };
    if e < wanted {
        return TickDecision { sample: false, elapsed_ms: e };
    }
    TickDecision { sample: listeners, elapsed_ms: 0 }
}

/// The reading's timestamp: seconds since the Unix epoch.
pub fn now_seconds() -> i64 {
    unix_now()
}

} // verus!
