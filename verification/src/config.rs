//! Timer thresholds.

use vstd::prelude::*;

use crate::time::Duration;

verus! {

/// The three durations the state machine is built around.
#[derive(Debug, Clone, Copy, PartialEq, Eq, Structural)]
pub struct Timings {
    /// How long `Working` runs before it earns the `LongTask` pose. Nothing
    /// in the agent announces "this is taking a while".
    pub long_task: Duration,
    /// How long `Success` holds before settling back to `Idle`.
    pub success_hold: Duration,
    /// Quiet period after which any busy state drops to `Paused`. If the
    /// agent is killed outright no end event fires, and sitting on `Working`
    /// for ten minutes is confidently reporting something that stopped.
    pub stale: Duration,
}

impl Timings {
    /// Shrunk thresholds for the dev harness, so the long-task pose and the
    /// watchdog are testable without waiting around.
    pub fn fast() -> (r: Timings)
        ensures
            r.long_task@ == 2000,
            r.success_hold@ == 2000,
            r.stale@ == 6000,
    {
        Timings {
            long_task: Duration::from_secs(2),
            success_hold: Duration::from_secs(2),
            stale: Duration::from_secs(6),
        }
    }
}

impl Default for Timings {
    /// Ten seconds to the long-task pose, five of success, two minutes to
    /// the watchdog.
    fn default() -> (r: Timings)
        ensures
            r.long_task@ == 10_000,
            r.success_hold@ == 5000,
            r.stale@ == 120_000,
    {
        Timings {
            long_task: Duration::from_secs(10),
            success_hold: Duration::from_secs(5),
            stale: Duration::from_secs(120),
        }
    }
}

} // verus!
