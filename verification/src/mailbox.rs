//! Single-slot command mailbox.
//!
//! A `Mailbox` hands control events from one or more producer tasks to one
//! consumer task without locks and without a queue.  A publish never blocks
//! and silently overwrites any unconsumed prior value (latest-value-wins); a
//! take empties the slot.  Consumers only ever care about the current state,
//! so dropped intermediate values are correct behaviour, not failures.

use vstd::prelude::*;

verus! {

/// One storage cell holding at most one unconsumed value.
///
/// The view of a mailbox is the slot's contents: `None` when empty,
/// `Some(v)` when `v` has been published and not yet taken.
pub struct Mailbox<T> {
    slot: Option<T>,
}

impl<T> View for Mailbox<T> {
    type V = Option<T>;

    closed spec fn view(&self) -> Option<T> {
        self.slot
    }
}

/// The slot after a publish: the new value, whatever was there before.
pub open spec fn publish_transition<T>(slot: Option<T>, value: T) -> Option<T> {
    Some(value)
}

/// A take observes the whole slot and leaves it empty:
/// `(observed value, slot afterwards)`.
pub open spec fn take_transition<T>(slot: Option<T>) -> (Option<T>, Option<T>) {
    (slot, None)
}

impl<T> Mailbox<T> {
    /// A fresh, empty mailbox.
    pub fn new() -> (mailbox: Mailbox<T>)
        ensures
            mailbox@ is None,
    {
        Mailbox { slot: None }
    }

    /// Deposit `value`, overwriting any unconsumed prior value.
    /// Never blocks the producer.
    pub fn publish(&mut self, value: T)
        ensures
            final(self)@ == publish_transition(old(self)@, value),
    {
        self.slot = Some(value);
    }

    /// Take the current value, if any, leaving the mailbox empty.
    /// The suspension of a consumer until a value is present is the
    /// scheduler's affair; this is the atomic take-and-clear itself.
    pub fn try_take(&mut self) -> (taken: Option<T>)
        ensures
            taken == take_transition(old(self)@).0,
            final(self)@ == take_transition(old(self)@).1,
    {
        self.slot.take()
    }

    /// Whether a value is waiting to be consumed.
    pub fn has_value(&self) -> (present: bool)
        ensures
            present == (self@ is Some),
    {
        self.slot.is_some()
    }
}

/// Mailbox overwrite law: publishing `v1` and then `v2` before any take
/// leaves only `v2` observable; the overwritten `v1` is never observed.
pub proof fn lemma_mailbox_overwrite<T>(slot: Option<T>, v1: T, v2: T)
    ensures
        take_transition(publish_transition(publish_transition(slot, v1), v2)).0 == Some(v2),
        v1 != v2 ==> take_transition(publish_transition(publish_transition(slot, v1), v2)).0
            != Some(v1),
{
}

} // verus!
