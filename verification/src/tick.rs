//! Timing arithmetic for the event loop.
//!
//! Each loop iteration renders a frame, then waits for input, but only for
//! the time that remains until the next tick boundary, so that a redraw
//! happens roughly once per tick even when no key arrives.

use vstd::prelude::*;

verus! {

/// The default tick interval, in milliseconds.
pub const DEFAULT_TICK_MS: u64 = 250;

/// How long the loop may block waiting for input: the tick interval minus
/// the time already spent in this iteration, clamped at zero. The result
/// never exceeds the tick interval, so an input poll bounded by it can
/// never delay the next redraw by more than one tick.
pub fn poll_budget_ms(tick_ms: u64, elapsed_ms: u64) -> (budget: u64)
    ensures
        budget == if elapsed_ms >= tick_ms {
            0u64
        } else {
            (tick_ms - elapsed_ms) as u64
        },
        budget <= tick_ms,
{
    if elapsed_ms >= tick_ms {
        0
    } else {
        tick_ms - elapsed_ms
    }
}

/// Whether the tick boundary has been reached, so the loop must reset its
/// tick reference to the present instant.
pub fn tick_expired(tick_ms: u64, elapsed_ms: u64) -> (expired: bool)
    ensures
        expired == (elapsed_ms >= tick_ms),
{
    elapsed_ms >= tick_ms
}

} // verus!
