//! Cooking-session metadata.
//!
//! A session begins when the probe leaves its charger and carries a random
//! identifier plus the interval at which the probe logs samples.

use vstd::prelude::*;

verus! {

/// Metadata of one cooking session.
#[derive(Debug, Clone, PartialEq, Eq, Structural)]
pub struct SessionInfo {
    /// Random identifier generated when the probe leaves the charger.
    pub session_id: u32,
    /// Milliseconds between logged samples.
    pub sample_period_ms: u32,
}

impl SessionInfo {
    /// Assemble session metadata.
    pub fn new(session_id: u32, sample_period_ms: u32) -> (r: Self)
        ensures
            r.session_id == session_id,
            r.sample_period_ms == sample_period_ms,
    {
        SessionInfo { session_id, sample_period_ms }
    }

    /// The sample period in milliseconds, widened for duration arithmetic.
    pub fn sample_period(&self) -> (r: u64)
        ensures
            r == self.sample_period_ms,
    {
        self.sample_period_ms as u64
    }
}

impl Default for SessionInfo {
    /// A placeholder session: zero identifier, zero period.
    fn default() -> (r: Self)
        ensures
            r.session_id == 0 && r.sample_period_ms == 0,
    {
        SessionInfo { session_id: 0, sample_period_ms: 0 }
    }
}

} // verus!
