//! The quiet-window settling policy: after launch and after each input the
//! driver drains child output until the stream has been quiet long enough,
//! but never longer than a per-phase bound.  The decision is pure; the
//! waiting itself is the caller's.

use vstd::prelude::*;

verus! {

/// The quiet window: this much silence means the render is complete.
pub const QUIET_WINDOW_MS: u64 = 180;

/// Bound on the initial settle phase, for programs that never go quiet.
pub const MAX_INITIAL_RENDER_WAIT_MS: u64 = 3000;

/// Bound on each per-input settle phase.
pub const MAX_INPUT_RENDER_WAIT_MS: u64 = 2000;

/// Bound on draining output while waiting for the child to exit.
pub const PROCESS_DRAIN_TIMEOUT_MS: u64 = 3000;

/// The short poll used while settling, so the quiet check stays tight.
pub const SETTLE_POLL_MS: u64 = 50;

/// What one receive attempt on the byte queue produced.
#[derive(Debug, Clone, Copy, PartialEq, Eq, Structural)]
pub enum SettleEvent {
    /// A chunk of bytes arrived.
    Chunk,
    /// The poll timed out with nothing received.
    Timeout,
    /// The producer is gone.
    Disconnected,
}

/// Whether settling goes on after an event: never once the phase bound is
/// spent; a chunk always continues below it; a quiet poll continues only
/// while the stream has been quiet for less than the quiet window; a
/// closed queue always stops.
pub open spec fn spec_settle_continue(
    now_ms: int,
    start_ms: int,
    last_activity_ms: int,
    quiet_window_ms: int,
    max_wait_ms: int,
    event: SettleEvent,
) -> bool {
    if now_ms - start_ms >= max_wait_ms {
        false
    } else {
        match event {
            SettleEvent::Chunk => true,
            SettleEvent::Timeout => now_ms - last_activity_ms < quiet_window_ms,
            SettleEvent::Disconnected => false,
        }
    }
}

/// Decide whether one more settle iteration runs.
pub fn settle_continue(
    now_ms: u64,
    start_ms: u64,
    last_activity_ms: u64,
    quiet_window_ms: u64,
    max_wait_ms: u64,
    event: SettleEvent,
) -> (r: bool)
    requires
        start_ms <= now_ms,
        last_activity_ms <= now_ms,
    ensures
        r == spec_settle_continue(
            now_ms as int,
            start_ms as int,
            last_activity_ms as int,
            quiet_window_ms as int,
            max_wait_ms as int,
            event,
        ),
{
    if now_ms - start_ms >= max_wait_ms {
        return false;
    }
    match event {
        SettleEvent::Chunk => true,
        SettleEvent::Timeout => now_ms - last_activity_ms < quiet_window_ms,
        SettleEvent::Disconnected => false,
    }
}

/// Settling is bounded: once the phase bound has elapsed the policy stops,
/// whatever the stream does — a program that writes forever still yields a
/// capture within the bound.
pub proof fn lemma_settle_bounded(
    now_ms: int,
    start_ms: int,
    last_activity_ms: int,
    quiet_window_ms: int,
    max_wait_ms: int,
    event: SettleEvent,
)
    ensures
        now_ms - start_ms >= max_wait_ms ==> !spec_settle_continue(
            now_ms,
            start_ms,
            last_activity_ms,
            quiet_window_ms,
            max_wait_ms,
            event,
        ),
        !spec_settle_continue(
            now_ms,
            start_ms,
            last_activity_ms,
            quiet_window_ms,
            max_wait_ms,
            SettleEvent::Disconnected,
        ),
{
}

} // verus!
