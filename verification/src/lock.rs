//! Mutual exclusion for the shared radio session in the multi-task design.
//!
//! When the three activities are scheduled independently rather than polled
//! from one loop, the radio session sits behind this guard: an activity
//! enters the critical section only when no other is inside, and the
//! instrumented holder count never exceeds one.

use vstd::prelude::*;

verus! {

/// The guard around the radio session, with an instrumented count of the
/// activities currently inside the critical section.
pub struct RadioGuard {
    holders: u8,
}

impl RadioGuard {
    /// How many activities are inside the critical section.
    pub closed spec fn spec_holders(&self) -> u8 {
        self.holders
    }

    /// Internal invariant: never more than one activity inside.
    pub open spec fn wf(&self) -> bool {
        self.spec_holders() <= 1
    }

    /// A free guard: nobody inside.
    pub fn new() -> (r: RadioGuard)
        ensures
            r.spec_holders() == 0,
            r.wf(),
    {
        RadioGuard { holders: 0 }
    }

    /// One attempt to enter the critical section. It succeeds exactly when
    /// nobody is inside; a failed attempt changes nothing, so two
    /// activities never hold the guard at once.
    pub fn try_acquire(&mut self) -> (r: bool)
        ensures
            r <==> old(self).spec_holders() == 0,
            r ==> final(self).spec_holders() == 1,
            !r ==> *final(self) == *old(self),
            old(self).wf() ==> final(self).wf(),
    {
        if self.holders == 0 {
            self.holders = 1;
            true
        } else {
            false
        }
    }

    /// Leaving the critical section; only the one holder may leave.
    pub fn release(&mut self)
        requires
            old(self).spec_holders() == 1,
        ensures
            final(self).spec_holders() == 0,
            final(self).wf(),
    {
        self.holders = 0;
    }
}

/// One scheduling event against the guard: an activity (by its number)
/// attempts to enter the critical section, or leaves it.
pub enum GuardEvent {
    TryEnter(u8),
    Leave(u8),
}

/// Which activity is inside after one event: an attempt succeeds only when
/// nobody is inside, and only the activity inside can leave.
pub open spec fn spec_guard_step(holder: Option<u8>, ev: GuardEvent) -> Option<u8> {
    match ev {
        GuardEvent::TryEnter(i) => if holder is None {
            Some(i)
        } else {
            holder
        },
        GuardEvent::Leave(i) => if holder == Some(i) {
            None
        } else {
            holder
        },
    }
}

/// Which activity is inside after a whole sequence of events.
pub open spec fn spec_guard_run(holder: Option<u8>, evs: Seq<GuardEvent>) -> Option<u8>
    decreases evs.len(),
{
    if evs.len() == 0 {
        holder
    } else {
        spec_guard_run(spec_guard_step(holder, evs[0]), evs.subrange(1, evs.len() as int))
    }
}

/// The instrumented holder count of a guard state.
pub open spec fn spec_holder_count(holder: Option<u8>) -> nat {
    if holder is Some {
        1
    } else {
        0
    }
}

/// Law (exclusivity): under any interleaving of enter and leave events,
/// starting from a free guard, the holder count after every prefix is at
/// most one — no two activities are ever inside an overlapping critical
/// section.
pub proof fn lemma_guard_exclusive(evs: Seq<GuardEvent>, k: int)
    requires
        0 <= k <= evs.len(),
    ensures
        spec_holder_count(spec_guard_run(None, evs.subrange(0, k))) <= 1,
{
}

/// Law (no overlapping entry): while activity `i` is inside the critical
/// section, an attempt by any activity `j` leaves `i` inside and does not
/// admit `j`; only `i` itself can end the critical section.
pub proof fn lemma_guard_no_overlap(i: u8, j: u8)
    ensures
        spec_guard_step(Some(i), GuardEvent::TryEnter(j)) == Some(i),
        i != j ==> spec_guard_step(Some(i), GuardEvent::Leave(j)) == Some(i),
        spec_guard_step(Some(i), GuardEvent::Leave(i)) is None,
{
}

} // verus!

