//! What the hardware driver loops share: how long to wait for the next
//! instruction, and what the wait brought.
//!
//! Times are milliseconds since the loop started.

use vstd::prelude::*;

verus! {

/// What waiting for the next instruction brought.
#[derive(Clone, Copy, PartialEq, Eq, Debug)]
pub enum Received<M> {
    /// A new instruction.
    Message(M),
    /// The deadline passed without an instruction.
    Timeout,
    /// No sender is left: the loop ends.
    Disconnected,
}

/// How long to wait for the next instruction.
#[derive(Clone, Copy, PartialEq, Eq, Debug, Structural)]
pub enum Wait {
    /// Until an instruction comes.
    Forever,
    /// At most this many milliseconds.
    AtMostMs(u64),
}

/// The wait for a loop whose next scheduled update is at `deadline`, at time `now_ms`.
pub open spec fn wait_spec(deadline: Option<u64>, now_ms: u64) -> Wait {
    match deadline {
        None => Wait::Forever,
        Some(t) => Wait::AtMostMs(if t > now_ms { (t - now_ms) as u64 } else { 0 }),
    }
}

/// The wait for a loop whose next scheduled update is at `deadline`, at time `now_ms`:
/// without one it waits for an instruction; with one it waits until the deadline, and not
/// at all once the deadline has passed.
pub fn wait_for(deadline: Option<u64>, now_ms: u64) -> (w: Wait)
    ensures
        w == wait_spec(deadline, now_ms),
{
    match deadline {
        None => Wait::Forever,
        Some(t) => Wait::AtMostMs(t.saturating_sub(now_ms)),
    }
}

/// The time a periodic update that follows `deadline` is due: `period_ms` after the
/// previous deadline, or after `now_ms` when none was set.
pub open spec fn next_deadline(deadline: Option<u64>, now_ms: u64, period_ms: u64) -> int {
    match deadline {
        Some(t) => t + period_ms,
        None => now_ms + period_ms,
    }
}


/// A loop with nothing scheduled waits for an instruction; a loop with a deadline never
/// waits for ever: it wakes exactly at the deadline, or at once when the deadline has
/// passed.
pub proof fn lemma_wait_ends_at_deadline(deadline: Option<u64>, now_ms: u64)
    ensures
        deadline is None ==> wait_spec(deadline, now_ms) == Wait::Forever,
        deadline matches Some(t) ==> (wait_spec(deadline, now_ms) matches Wait::AtMostMs(w)
            && (t <= now_ms ==> w == 0) && (t > now_ms ==> now_ms + w == t)),
{
}

} // verus!
