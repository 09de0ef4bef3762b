//! Dedup/staleness filter: the pure decision of whether a freshly retrieved
//! reading is eligible for submission.

use vstd::prelude::*;

verus! {

/// A reading older than this (relative to the current wall-clock time) is
/// never forwarded.
pub const MAX_AGE_SECONDS: i64 = 1800;

/// The verdict of the filter for one reading.
#[derive(Debug, Clone, Copy, PartialEq, Eq, Structural)]
pub enum Verdict {
    /// The reading is fresh and not yet logged: submit it.
    Forward,
    /// The reading is older than [`MAX_AGE_SECONDS`].
    SkipTooOld,
    /// A reading for this device was already submitted and the current time
    /// has not yet passed its observation timestamp.
    SkipAlreadyLogged,
}

/// What `decide` returns, as a function of the current time, the timestamp of
/// the last submitted reading for the device (if any), and the observation
/// timestamp of the new reading. All times are Unix seconds.
///
/// Staleness is checked first; the duplicate check compares the current time
/// against the *previously submitted reading's* observation timestamp, not
/// the new reading's timestamp against the old one.
pub open spec fn spec_decide(now: int, last_submitted: Option<int>, observed_at: int) -> Verdict {
    if now - observed_at > MAX_AGE_SECONDS {
        Verdict::SkipTooOld
    } else if last_submitted is Some && now <= last_submitted->0 {
        Verdict::SkipAlreadyLogged
    } else {
        Verdict::Forward
    }
}

/// Decide whether a reading observed at `observed_at` should be forwarded,
/// given the current time `now` and the observation timestamp of the last
/// successfully submitted reading for the same device.
pub fn decide(now: i64, last_submitted: Option<i64>, observed_at: i64) -> (v: Verdict)
    ensures
        v == spec_decide(
            now as int,
            match last_submitted {
                Some(t) => Some(t as int),
                None => None,
            },
            observed_at as int,
        ),
{
    let age: i128 = (now as i128) - (observed_at as i128);
    if age > MAX_AGE_SECONDS as i128 {
        Verdict::SkipTooOld
    } else {
        match last_submitted {
            Some(last) if now <= last => Verdict::SkipAlreadyLogged,
            _ => Verdict::Forward,
        }
    }
}

/// The filter is a pure function: two runs of `decide` on an unchanged
/// `last_submitted` and the same reading yield the same verdict. Because
/// `decide` ensures its result equals `spec_decide` on its inputs, any two
/// results `v1` and `v2` of such runs are equal.
pub proof fn lemma_decide_deterministic(
    now: int,
    last_submitted: Option<int>,
    observed_at: int,
    v1: Verdict,
    v2: Verdict,
)
    requires
        v1 == spec_decide(now, last_submitted, observed_at),
        v2 == spec_decide(now, last_submitted, observed_at),
    ensures
        v1 == v2,
{
}

} // verus!
