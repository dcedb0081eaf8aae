//! The slot synchronizer: the barrier that holds a scenario back until the
//! ledger's slot height has moved on by a given number of slots.
//!
//! The caller polls the ledger; what each observation means is decided here.

use vstd::prelude::*;

verus! {

/// What an observation of the slot height means for a wait.
#[derive(Clone, Copy, Debug, PartialEq, Eq, Structural)]
pub enum WaitDecision {
    /// The slot height has moved on far enough: the wait is over.
    Reached,
    /// Not yet: look again after the polling interval.
    PollAgain,
    /// Not yet, and the wait may not poll any more.
    TimedOut,
}

/// A wait for the slot height to move on by `slots` from the height `entry`
/// that was observed when the wait began.
#[derive(Clone, Copy, Debug)]
pub struct SlotWait {
    pub entry: u64,
    pub slots: u64,
    /// How many more observations may be answered with `PollAgain`.
    pub polls_left: u64,
}

/// Whether the slot height `observed` lies at least `slots` above `entry`.
pub open spec fn barrier_passed(entry: u64, slots: u64, observed: u64) -> bool {
    observed - entry >= slots
}

/// Whether the slot height `observed` lies at least `slots` above `entry`.
pub fn slots_elapsed(entry: u64, slots: u64, observed: u64) -> (passed: bool)
    ensures
        passed == barrier_passed(entry, slots, observed),
{
    observed >= entry && observed - entry >= slots
}

impl SlotWait {
    /// What the wait answers to the observation `observed`, and the wait that
    /// is left afterwards.
    pub open spec fn step(self, observed: u64) -> (WaitDecision, SlotWait) {
        if barrier_passed(self.entry, self.slots, observed) {
            (WaitDecision::Reached, self)
        } else if self.polls_left == 0 {
            (WaitDecision::TimedOut, self)
        } else {
            (
                WaitDecision::PollAgain,
                SlotWait { polls_left: (self.polls_left - 1) as u64, ..self },
            )
        }
    }

    /// What the wait answers after the observations `observed`, taken in turn
    /// for as long as the answer is `PollAgain`; `PollAgain` where they run out
    /// before the wait is decided.
    pub open spec fn outcome(self, observed: Seq<u64>) -> WaitDecision
        decreases observed.len(),
    {
        if observed.len() == 0 {
            WaitDecision::PollAgain
        } else {
            let (decision, rest) = self.step(observed[0]);
            if decision == WaitDecision::PollAgain {
                rest.outcome(observed.skip(1))
            } else {
                decision
            }
        }
    }

    /// Begins a wait of `slots` slots at the slot height `entry`, with at most
    /// `max_polls` inconclusive observations.
    pub fn begin(entry: u64, slots: u64, max_polls: u64) -> (wait: SlotWait)
        ensures
            wait == (SlotWait { entry, slots, polls_left: max_polls }),
    {
        SlotWait { entry, slots, polls_left: max_polls }
    }

    /// Takes in one observation of the slot height.
    pub fn observe(&mut self, observed: u64) -> (decision: WaitDecision)
        ensures
            (decision, *final(self)) == old(self).step(observed),
    {
        if slots_elapsed(self.entry, self.slots, observed) {
            WaitDecision::Reached
        } else if self.polls_left == 0 {
            WaitDecision::TimedOut
        } else {
            self.polls_left = self.polls_left - 1;
            WaitDecision::PollAgain
        }
    }
}

/// A wait ends with `Reached` only on an observation that lies at least the
/// asked number of slots above the entry height, and with `TimedOut` only
/// after more inconclusive observations than it was allowed.
pub proof fn lemma_wait_outcome(wait: SlotWait, observed: Seq<u64>)
    ensures
        wait.outcome(observed) == WaitDecision::Reached ==> exists|i: int|
            0 <= i < observed.len() && barrier_passed(wait.entry, wait.slots, #[trigger] observed[i]),
        wait.outcome(observed) == WaitDecision::TimedOut ==> observed.len() > wait.polls_left,
        (forall|i: int|
            0 <= i < observed.len() ==> !barrier_passed(wait.entry, wait.slots, #[trigger] observed[i]))
            && observed.len() <= wait.polls_left ==> wait.outcome(observed)
            == WaitDecision::PollAgain,
    decreases observed.len(),
{
    if observed.len() > 0 {
        let (decision, rest) = wait.step(observed[0]);
        if decision == WaitDecision::PollAgain {
            let tail = observed.skip(1);
            lemma_wait_outcome(rest, tail);
            if rest.outcome(tail) == WaitDecision::Reached {
                let i = choose|i: int|
                    0 <= i < tail.len() && barrier_passed(rest.entry, rest.slots, #[trigger] tail[i]);
                assert(observed[i + 1] == tail[i]);
            }
            assert forall|i: int| 0 <= i < tail.len() implies tail[i] == observed[i + 1] by {}
        }
    }
}

} // verus!
