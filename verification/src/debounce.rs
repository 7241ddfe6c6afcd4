//! The input debouncer: accept one button press, then hold a quiet window.
//!
//! The physical line gives no debounce guarantee, so a single press can show
//! up as a burst of rising edges. The policy here is the core's own: the
//! first edge is accepted (the mode advances and is published), and every
//! further edge within a fixed quiet window is ignored. The runtime layer
//! suspends on the input line and hands each observed rising edge, with a
//! millisecond timestamp, to [`Debouncer::on_edge`].

use vstd::prelude::*;

use crate::mode::DisplayState;
use crate::mode_signal::ModeSignal;
use crate::mode_signal::spec_publish;

verus! {

/// Length of the quiet window after an accepted press, in milliseconds.
/// Edges this close behind an accepted one are taken for switch bounce.
pub const QUIET_WINDOW_MS: u64 = 50;

/// What one observed edge does to a debouncer whose remembered mode is
/// `mode` and whose quiet window ends at `quiet_until`: an accepted edge
/// (one at or after `quiet_until`) advances the mode and opens a fresh quiet
/// window; a rejected edge changes nothing. The components of the result are
/// the mode, the end of the quiet window, and the mode published by the
/// edge, if any.
pub open spec fn spec_debounce_step(mode: DisplayState, quiet_until: int, now: int) -> (
    DisplayState,
    int,
    Option<DisplayState>,
) {
    if quiet_until <= now {
        (mode.spec_next(), now + QUIET_WINDOW_MS, Some(mode.spec_next()))
    } else {
        (mode, quiet_until, None)
    }
}

/// The debouncer's state: the mode it last advanced to, and the end of the
/// quiet window opened by the last accepted edge.
pub struct Debouncer {
    mode: DisplayState,
    quiet_until: u64,
}

impl Debouncer {
    /// The mode the debouncer last advanced to (the mode it will publish
    /// from on the next accepted edge).
    pub closed spec fn mode(self) -> DisplayState {
        self.mode
    }

    /// The millisecond instant at which the current quiet window ends.
    pub closed spec fn quiet_until(self) -> int {
        self.quiet_until as int
    }

    /// Whether an edge observed at `now` is accepted rather than taken for
    /// bounce.
    pub open spec fn spec_accepts(self, now: int) -> bool {
        self.quiet_until() <= now
    }

    /// A fresh debouncer remembering `initial`, with no quiet window open:
    /// the very first edge is always accepted.
    pub fn new(initial: DisplayState) -> (r: Debouncer)
        ensures
            r.mode() == initial,
            r.quiet_until() == 0,
    {
        Debouncer { mode: initial, quiet_until: 0 }
    }

    /// Handle one rising edge observed at `now_ms`. If the edge is accepted,
    /// the remembered mode advances by one step of the cycle and the new mode
    /// is published (unconditionally, even if the reader has not consumed the
    /// previous one); if the edge falls inside the quiet window, nothing
    /// changes and nothing is published.
    pub fn on_edge(&mut self, signal: &mut ModeSignal, now_ms: u64) -> (published: Option<
        DisplayState,
    >)
        requires
            now_ms + QUIET_WINDOW_MS <= u64::MAX,
        ensures
            (final(self).mode(), final(self).quiet_until(), published) == spec_debounce_step(
                old(self).mode(),
                old(self).quiet_until(),
                now_ms as int,
            ),
            published matches Some(m) ==> final(signal).pending() == spec_publish(
                old(signal).pending(),
                m,
            ),
            published is None ==> *final(signal) == *old(signal),
    {
        if self.quiet_until <= now_ms {
            let next = self.mode.next_state();
            self.mode = next;
            self.quiet_until = now_ms + QUIET_WINDOW_MS;
            signal.publish(next);
            Some(next)
        } else {
            None
        }
    }
}

/// Law: at most one press is accepted per quiet window. If an edge at `t1`
/// is accepted, then any further edges at `t2` and `t3` inside the quiet
/// window opened at `t1` are both rejected, and the net effect of all three
/// is exactly one mode transition.
pub proof fn lemma_one_transition_per_quiet_window(
    mode: DisplayState,
    quiet_until: int,
    t1: int,
    t2: int,
    t3: int,
)
    requires
        quiet_until <= t1,
        t1 <= t2 <= t3,
        t2 < t1 + QUIET_WINDOW_MS,
        t3 < t1 + QUIET_WINDOW_MS,
    ensures
        ({
            let s1 = spec_debounce_step(mode, quiet_until, t1);
            let s2 = spec_debounce_step(s1.0, s1.1, t2);
            let s3 = spec_debounce_step(s2.0, s2.1, t3);
            &&& s1.2 == Some(mode.spec_next())
            &&& s2.2 is None
            &&& s3.2 is None
            &&& s3.0 == mode.spec_next()
            &&& s3.1 == t1 + QUIET_WINDOW_MS
        }),
{
}

} // verus!
