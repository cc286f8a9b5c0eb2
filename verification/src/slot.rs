//! The shared result slot: a one-shot cell written by the picker's completion
//! callback and read by the side that waits for it.

use vstd::prelude::*;

verus! {

/// The time that the waiting side lets pass after a poll that found the slot
/// still pending, in milliseconds.
pub const POLL_INTERVAL_MS: u64 = 50;

/// The state of one selection request.
///
/// `T` is whatever the picker hands to its callback for a chosen file.
#[derive(Debug, PartialEq, Eq)]
pub enum ResultSlot<T> {
    /// The callback has not fired yet.
    Pending,
    /// The callback has fired: with a selection, or with `None` where the
    /// user dismissed the picker.
    Resolved(Option<T>),
}

/// What the waiting side does after one look at the slot.
#[derive(Debug, PartialEq, Eq)]
pub enum PollStep<'a, T> {
    /// The slot is still pending: let `millis` milliseconds pass, then look again.
    Wait { millis: u64 },
    /// The slot is resolved: stop polling and go on with this outcome.
    Done(&'a Option<T>),
}

impl<T> ResultSlot<T> {
    /// Whether the callback has written its outcome.
    pub open spec fn is_resolved(&self) -> bool {
        self is Resolved
    }

    /// The step that one poll of this slot yields.
    pub open spec fn step(&self) -> PollStep<'_, T> {
        match self {
            ResultSlot::Pending => PollStep::Wait { millis: POLL_INTERVAL_MS },
            ResultSlot::Resolved(outcome) => PollStep::Done(outcome),
        }
    }

    /// The slot after the callback has fired with `outcome`: the first write
    /// stays, a later one changes nothing.
    pub open spec fn after_write(self, outcome: Option<T>) -> ResultSlot<T> {
        match self {
            ResultSlot::Pending => ResultSlot::Resolved(outcome),
            ResultSlot::Resolved(first) => ResultSlot::Resolved(first),
        }
    }

    /// A slot for a request whose picker has just been opened.
    pub fn new() -> (slot: Self)
        ensures
            slot == ResultSlot::<T>::Pending,
    {
        ResultSlot::Pending
    }

    /// Records the outcome that the callback was invoked with.
    ///
    /// Returns `true` where this was the first write, which is the one that
    /// stays in the slot; a write into a resolved slot is dropped.
    pub fn resolve(&mut self, outcome: Option<T>) -> (written: bool)
        ensures
            *final(self) == old(self).after_write(outcome),
            written == !old(self).is_resolved(),
    {
        match self {
            ResultSlot::Pending => {
                *self = ResultSlot::Resolved(outcome);
                true
            },
            ResultSlot::Resolved(_) => false,
        }
    }

    /// Looks at the slot once, as the waiting side does under the lock.
    pub fn poll(&self) -> (step: PollStep<'_, T>)
        ensures
            step == self.step(),
    {
        match self {
            ResultSlot::Pending => PollStep::Wait { millis: POLL_INTERVAL_MS },
            ResultSlot::Resolved(outcome) => PollStep::Done(outcome),
        }
    }
}

/// The slot as a look at time `now` finds it, where the callback fires at
/// time `fired_at` with `outcome`. Times are in milliseconds.
pub open spec fn slot_at<T>(fired_at: nat, outcome: Option<T>, now: nat) -> ResultSlot<T> {
    if now < fired_at {
        ResultSlot::Pending
    } else {
        ResultSlot::Pending.after_write(outcome)
    }
}

/// The time at which the waiting side makes its look number `k`, counted
/// from 0, at a slot whose callback fires at time `fired_at` with `outcome`.
///
/// It looks first at time 0, a look takes no time, and after each look it
/// lets pass what the step told it to. A look that hands over the outcome
/// ends the loop, so from then on the time stands still.
pub open spec fn poll_time<T>(fired_at: nat, outcome: Option<T>, k: nat) -> nat
    decreases k,
{
    if k == 0 {
        0
    } else {
        let before = poll_time(fired_at, outcome, (k - 1) as nat);
        match slot_at(fired_at, outcome, before).step() {
            PollStep::Wait { millis } => before + millis as nat,
            PollStep::Done(_) => before,
        }
    }
}

/// The number of the look that sees the outcome of a callback that fires at
/// time `fired_at`: the first one made at or after that time.
pub open spec fn observing_poll(fired_at: nat) -> nat {
    ((fired_at + POLL_INTERVAL_MS - 1) / (POLL_INTERVAL_MS as int)) as nat
}

/// A write is never missed: once the callback has written, the slot is
/// resolved, the next look at it yields what the first write held, and a
/// later write changes nothing.
pub proof fn lemma_write_is_read<T>(slot: ResultSlot<T>, outcome: Option<T>)
    ensures
        slot.after_write(outcome).is_resolved(),
        slot is Pending ==> slot.after_write(outcome).step() == PollStep::Done(&outcome),
        slot.is_resolved() ==> slot.after_write(outcome) == slot,
{
}

/// Up to the observing look the looks are one poll interval apart, and each
/// look before it is made before the callback fires.
proof fn lemma_schedule<T>(fired_at: nat, outcome: Option<T>, k: nat)
    requires
        k <= observing_poll(fired_at),
    ensures
        poll_time(fired_at, outcome, k) == k * POLL_INTERVAL_MS,
        k < observing_poll(fired_at) ==> poll_time(fired_at, outcome, k) < fired_at,
    decreases k,
{
    if k > 0 {
        lemma_schedule(fired_at, outcome, (k - 1) as nat);
    }
}

/// The waiting side sees the outcome within one poll interval of the
/// callback: every look before the observing one tells it to wait for
/// [`POLL_INTERVAL_MS`], the observing one hands over the outcome that was
/// written, and it is made at or after the time at which the callback fired
/// and less than [`POLL_INTERVAL_MS`] later.
pub proof fn lemma_observed_within_one_interval<T>(fired_at: nat, outcome: Option<T>)
    ensures
        forall|k: nat|
            k < observing_poll(fired_at) ==> ((#[trigger] slot_at(
                fired_at,
                outcome,
                poll_time(fired_at, outcome, k),
            )).step() matches PollStep::Wait { millis } && millis == POLL_INTERVAL_MS),
        slot_at(
            fired_at,
            outcome,
            poll_time(fired_at, outcome, observing_poll(fired_at)),
        ).step() == PollStep::Done(&outcome),
        fired_at <= poll_time(fired_at, outcome, observing_poll(fired_at)) < fired_at
            + POLL_INTERVAL_MS,
{
    lemma_schedule(fired_at, outcome, observing_poll(fired_at));
    assert forall|k: nat| k < observing_poll(fired_at) implies poll_time(fired_at, outcome, k)
        < fired_at by {
        lemma_schedule(fired_at, outcome, k);
    }
}

} // verus!
