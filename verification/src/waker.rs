//! Waker slots.
//!
//! Every future keeps at most one waker per wait condition. The machines in
//! this crate are generic over the waker type `W`: they decide which waker is
//! kept and which ones are due, and the caller wakes them.
use vstd::prelude::*;

verus! {

/// The waker of the task that polls.
pub struct Poller<W> {
    /// Waker to store when the slot needs a new one.
    pub waker: W,
    /// Whether the waker already in the slot wakes the polling task.
    pub registered: bool,
}

/// Outcome of polling a machine.
#[derive(Clone, Copy, Debug, PartialEq, Eq)]
pub enum PollState<T> {
    /// The value is available.
    Ready(T),
    /// The poller's waker is registered.
    Pending,
}

/// The slot that results from registering `poller`.
pub open spec fn registered<W>(slot: Option<W>, poller: Poller<W>) -> Option<W> {
    if slot is Some && poller.registered {
        slot
    } else {
        Some(poller.waker)
    }
}

/// The wakers taken from `slot` when `due` holds.
pub open spec fn taken<W>(due: bool, slot: Option<W>) -> Seq<W> {
    if due && slot is Some {
        seq![slot->0]
    } else {
        Seq::empty()
    }
}

/// The slot that remains after [`taken`].
pub open spec fn kept<W>(due: bool, slot: Option<W>) -> Option<W> {
    if due {
        None
    } else {
        slot
    }
}

/// Stores the poller's waker unless the existing one wakes the same task.
pub fn replace_waker<W>(slot: &mut Option<W>, poller: Poller<W>)
    ensures
        *final(slot) == registered(*old(slot), poller),
{
    if slot.is_none() || !poller.registered {
        *slot = Some(poller.waker);
    }
}

/// Moves the registered waker to the end of `wakes` when `due` holds.
pub fn take_waker<W>(due: bool, slot: &mut Option<W>, wakes: &mut Vec<W>)
    ensures
        *final(slot) == kept(due, *old(slot)),
        final(wakes)@ == old(wakes)@ + taken(due, *old(slot)),
{
    if due {
        if let Some(waker) = slot.take() {
            wakes.push(waker);
        }
    }
    assert(wakes@ =~= old(wakes)@ + taken(due, *old(slot)));
}

} // verus!
