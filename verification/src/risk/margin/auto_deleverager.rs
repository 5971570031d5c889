//! Pacing of auto-deleveraging actions.

use vstd::prelude::*;

verus! {

/// Nanoseconds per millisecond.
pub const NANOS_PER_MS: u64 = 1_000_000;

/// Whether a new deleveraging action may be taken at `current_timestamp_ns`:
/// always when no action was recorded yet (a last timestamp of 0),
/// otherwise once the whole milliseconds elapsed since the last action
/// reach the configured delay.
pub open spec fn action_allowed(
    last_action_timestamp_ns: u64,
    current_timestamp_ns: u64,
    action_delay_ms: u64,
) -> bool {
    last_action_timestamp_ns == 0
        || (current_timestamp_ns - last_action_timestamp_ns) / (NANOS_PER_MS as int) >= action_delay_ms
}

/// Decide whether a new deleveraging action may be taken: see
/// [`action_allowed`]. The clock must not run backwards past a recorded
/// action.
pub fn action_delay_elapsed(
    last_action_timestamp_ns: u64,
    current_timestamp_ns: u64,
    action_delay_ms: u64,
) -> (r: bool)
    requires
        last_action_timestamp_ns == 0 || current_timestamp_ns >= last_action_timestamp_ns,
    ensures
        r == action_allowed(last_action_timestamp_ns, current_timestamp_ns, action_delay_ms),
{
    if last_action_timestamp_ns == 0 {
        return true;
    }
    let elapsed_ms = (current_timestamp_ns - last_action_timestamp_ns) / NANOS_PER_MS;
    elapsed_ms >= action_delay_ms
}

/// Actions are paced: right after an action recorded at `t` (non-zero), no
/// new action is allowed before `action_delay_ms` milliseconds have passed,
/// and one is allowed from then on.
pub proof fn actions_are_paced(t: u64, now: u64, action_delay_ms: u64)
    requires
        t > 0,
        now >= t,
    ensures
        action_allowed(t, now, action_delay_ms) <==> now - t >= action_delay_ms * NANOS_PER_MS,
{
    let d = (now - t) as int;
    let m = NANOS_PER_MS as int;
    assert((d / m >= action_delay_ms) <==> (d >= action_delay_ms * m)) by (nonlinear_arith)
        requires
            m == 1_000_000,
            d >= 0,
            action_delay_ms >= 0,
    {
        let q = d / m;
        assert(q * m <= d < q * m + m);
        if q >= action_delay_ms {
            assert(q * m >= action_delay_ms * m);
        } else {
            assert(q + 1 <= action_delay_ms);
            assert((q + 1) * m <= action_delay_ms * m);
        }
    }
}

} // verus!
