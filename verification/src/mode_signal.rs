//! The single-slot, latest-value-wins mode mailbox.
//!
//! The input debouncer is the sole writer and the sampler/renderer the sole
//! reader. The slot holds at most one pending mode: publishing overwrites any
//! unconsumed value ("freshest mode wins", never a backlog), and waiting
//! consumes and clears the slot. In the running device the two sides live in
//! different tasks and the runtime layer parks the reader while the slot is
//! empty; this type is the slot itself, and its contracts are the overwrite
//! and consume rules that the two tasks rely on.

use vstd::prelude::*;

use crate::mode::DisplayState;

verus! {

/// What publishing does to the slot: the new mode replaces whatever was
/// pending, read or not.
pub open spec fn spec_publish(slot: Option<DisplayState>, mode: DisplayState) -> Option<
    DisplayState,
> {
    Some(mode)
}

/// What one wait step does to the slot: the pending value (if any) is
/// delivered and the slot is cleared. The first component is the delivered
/// value, the second the slot afterwards.
pub open spec fn spec_wait_step(slot: Option<DisplayState>) -> (Option<DisplayState>, Option<
    DisplayState,
>) {
    (slot, None)
}

/// A single-slot mailbox holding at most one pending display mode.
pub struct ModeSignal {
    pending: Option<DisplayState>,
}

impl ModeSignal {
    /// The pending value, `None` when the slot is clear.
    pub closed spec fn pending(self) -> Option<DisplayState> {
        self.pending
    }

    /// A fresh signal with nothing pending.
    pub fn new() -> (r: ModeSignal)
        ensures
            r.pending() is None,
    {
        ModeSignal { pending: None }
    }

    /// Whether a published mode is waiting to be consumed.
    pub fn has_pending(&self) -> (r: bool)
        ensures
            r <==> self.pending() is Some,
    {
        self.pending.is_some()
    }

    /// Publish a mode. Non-blocking and infallible: any unconsumed previous
    /// value is overwritten, so a reader only ever sees the freshest mode.
    pub fn publish(&mut self, mode: DisplayState)
        ensures
            final(self).pending() == spec_publish(old(self).pending(), mode),
    {
        self.pending = Some(mode);
    }

    /// Consume the pending mode. In the running device the reader suspends
    /// until a mode is pending; the caller therefore only invokes this once
    /// the slot is known to be filled, and the slot is clear on return.
    pub fn wait(&mut self) -> (r: DisplayState)
        requires
            old(self).pending() is Some,
        ensures
            Some(r) == spec_wait_step(old(self).pending()).0,
            final(self).pending() == spec_wait_step(old(self).pending()).1,
    {
        let r = self.pending.unwrap();
        self.pending = None;
        r
    }
}

/// Law: nothing is lost or reordered between the two tasks. A mode
/// published into the slot is exactly what the very next wait step
/// delivers.
pub proof fn lemma_publish_visible_to_next_wait(slot: Option<DisplayState>, m: DisplayState)
    ensures
        spec_wait_step(spec_publish(slot, m)).0 == Some(m),
{
}

/// Law: the slot is latest-value-wins. After publishing `a` and then `b`
/// with no wait between them, the next wait step delivers `b` exactly once:
/// it never delivers `a` (when the two differ), and it leaves the slot clear,
/// so nothing further can be delivered until the next publish.
pub proof fn lemma_latest_value_wins(
    slot: Option<DisplayState>,
    a: DisplayState,
    b: DisplayState,
)
    ensures
        spec_wait_step(spec_publish(spec_publish(slot, a), b)).0 == Some(b),
        spec_wait_step(spec_publish(spec_publish(slot, a), b)).1 == None::<DisplayState>,
        a != b ==> spec_wait_step(spec_publish(spec_publish(slot, a), b)).0 != Some(a),
{
}

} // verus!
