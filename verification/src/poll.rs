//! Poll loop decisions and per-device memory.
//!
//! The loop itself — network calls and sleeps — runs outside the library;
//! what it remembers between cycles and how it decides per reading is
//! verified here. The memory is the per-device map from device to the
//! observation timestamp of the most recent successfully submitted reading:
//! single writer, updated only on successful submission, never pruned, and
//! empty at process start (so after a restart the first reading per device is
//! always eligible).

use vstd::prelude::*;

use crate::filter::{decide, spec_decide, Verdict};
use crate::grainfather::FermenterId;
use std::collections::HashMap;

verus! {

broadcast use vstd::std_specs::hash::group_hash_axioms;

/// Delay before retrying a cycle after a failed login or device listing, in
/// seconds.
pub const ERROR_RETRY_SECONDS: u64 = 10;

/// Pause between successive poll cycles, in seconds.
pub const POLL_INTERVAL_SECONDS: u64 = 901;

/// How one poll cycle ended, as far as the pacing of the loop cares.
#[derive(Debug, Clone, Copy, PartialEq, Eq, Structural)]
pub enum CycleOutcome {
    /// Login failed: retry the whole cycle after the short delay.
    LoginFailed,
    /// The device listing failed: retry the whole cycle after the short
    /// delay.
    ListingFailed,
    /// The cycle ran through (whatever happened per device): pause for the
    /// full poll interval.
    Completed,
}

/// How long to wait before the next cycle. Failures at the cycle level get
/// the fixed short delay; a completed cycle gets the fixed poll interval —
/// never any backoff.
pub fn cycle_delay_seconds(outcome: CycleOutcome) -> (r: u64)
    ensures
        r == match outcome {
            CycleOutcome::LoginFailed => ERROR_RETRY_SECONDS as int,
            CycleOutcome::ListingFailed => ERROR_RETRY_SECONDS as int,
            CycleOutcome::Completed => POLL_INTERVAL_SECONDS as int,
        },
{
    match outcome {
        CycleOutcome::LoginFailed => ERROR_RETRY_SECONDS,
        CycleOutcome::ListingFailed => ERROR_RETRY_SECONDS,
        CycleOutcome::Completed => POLL_INTERVAL_SECONDS,
    }
}

/// The poll loop's per-device memory.
pub struct PollState {
    last_logged: HashMap<u64, i64>,
}

impl View for PollState {
    type V = Map<u64, i64>;

    closed spec fn view(&self) -> Map<u64, i64> {
        self.last_logged@
    }
}

impl PollState {
    /// Fresh memory: empty, as at process start.
    pub fn new() -> (r: PollState)
        ensures
            r@ == Map::<u64, i64>::empty(),
    {
        PollState { last_logged: HashMap::new() }
    }

    /// The observation timestamp of the most recent successfully submitted
    /// reading for this device, if any.
    pub fn last_submitted(&self, id: FermenterId) -> (r: Option<i64>)
        ensures
            r == if self@.contains_key(id.spec_u64()) {
                Some(self@[id.spec_u64()])
            } else {
                None::<i64>
            },
    {
        match self.last_logged.get(&id.as_u64()) {
            Some(t) => Some(*t),
            None => None,
        }
    }

    /// Decide whether a reading for this device should be forwarded, given
    /// the current time and the device's memory.
    pub fn decide_for(&self, id: FermenterId, observed_at: i64, now: i64) -> (v: Verdict)
        ensures
            v == spec_decide(
                now as int,
                if self@.contains_key(id.spec_u64()) {
                    Some(self@[id.spec_u64()] as int)
                } else {
                    None
                },
                observed_at as int,
            ),
    {
        decide(now, self.last_submitted(id), observed_at)
    }

    /// Record a successful submission: from now on, a reading for this
    /// device is forwarded only under the filter's rules against this
    /// timestamp.
    pub fn record_submission(&mut self, id: FermenterId, observed_at: i64)
        ensures
            final(self)@ == old(self)@.insert(id.spec_u64(), observed_at),
    {
        let _ = self.last_logged.insert(id.as_u64(), observed_at);
    }
}

} // verus!
