//! The periodic broadcaster: one scheduling deadline, one fixed payload.
//!
//! When the clock reaches or passes the deadline, the broadcaster asks for
//! one transmission to the broadcast address and moves the deadline a fixed
//! interval past the firing instant — not past the old deadline, so a late
//! pass drifts rather than firing in bursts, and missed deadlines are never
//! queued.

use vstd::prelude::*;
use crate::MacAddress;
use crate::radio::SendCmd;

verus! {

/// Milliseconds between periodic broadcasts.
pub const BROADCAST_INTERVAL_MS: u64 = 5000;

/// "0123456789" in ASCII: the fixed payload of the periodic broadcast.
pub open spec fn spec_broadcast_payload() -> Seq<u8> {
    seq![0x30u8, 0x31, 0x32, 0x33, 0x34, 0x35, 0x36, 0x37, 0x38, 0x39]
}

/// The broadcast payload, "0123456789".
pub fn broadcast_payload() -> (r: Vec<u8>)
    ensures
        r@ == spec_broadcast_payload(),
        r@.len() == 10,
{
    let mut v: Vec<u8> = Vec::new();
    v.push(0x30);
    v.push(0x31);
    v.push(0x32);
    v.push(0x33);
    v.push(0x34);
    v.push(0x35);
    v.push(0x36);
    v.push(0x37);
    v.push(0x38);
    v.push(0x39);
    assert(v@ =~= spec_broadcast_payload());
    v
}

/// Whether a deadline has been reached at time `now`.
pub open spec fn spec_due(deadline: u64, now: u64) -> bool {
    now >= deadline
}

/// The deadline after a broadcast fires at `now`: measured from the firing
/// instant, an accepted drift by design.
pub open spec fn spec_next_deadline(now: u64) -> int {
    now + BROADCAST_INTERVAL_MS
}

/// The periodic broadcaster: nothing but the next permitted firing time.
pub struct Broadcaster {
    deadline: u64,
}

impl Broadcaster {
    /// The next permitted firing time.
    pub closed spec fn spec_deadline(&self) -> u64 {
        self.deadline
    }

    /// A broadcaster whose first firing is one interval from `now`.
    pub fn new(now: u64) -> (r: Broadcaster)
        requires
            now + BROADCAST_INTERVAL_MS <= u64::MAX,
        ensures
            r.spec_deadline() == spec_next_deadline(now),
    {
        Broadcaster { deadline: now + BROADCAST_INTERVAL_MS }
    }

    /// One deadline check. Fires exactly when `now` has reached the
    /// deadline: then it asks for one broadcast of the fixed payload and
    /// advances the deadline one interval past `now`. Otherwise nothing
    /// changes and nothing is sent.
    pub fn poll(&mut self, now: u64) -> (r: Option<SendCmd>)
        requires
            now + BROADCAST_INTERVAL_MS <= u64::MAX,
        ensures
            r is Some <==> spec_due(old(self).spec_deadline(), now),
            spec_due(old(self).spec_deadline(), now) ==> {
                &&& final(self).spec_deadline() == spec_next_deadline(now)
                &&& r.unwrap().dest.spec_is_broadcast()
                &&& r.unwrap().payload@ == spec_broadcast_payload()
            },
            !spec_due(old(self).spec_deadline(), now) ==> *final(self) == *old(self),
    {
        if now >= self.deadline {
            self.deadline = now + BROADCAST_INTERVAL_MS;
            let cmd = SendCmd {
                dest: crate::radio::broadcast_address(),
                payload: broadcast_payload(),
            };
            Some(cmd)
        } else {
            None
        }
    }
}

/// The deadline after one check at time `t`: a firing moves it one
/// interval past `t`, anything else leaves it alone. Written over
/// mathematical integers so it is total for any times.
pub open spec fn spec_step_deadline(deadline: int, t: u64) -> int {
    if t >= deadline {
        t + BROADCAST_INTERVAL_MS
    } else {
        deadline
    }
}

/// The deadline after a whole sequence of checks, one `poll` per entry.
pub open spec fn spec_run_deadline(deadline: int, times: Seq<u64>) -> int
    decreases times.len(),
{
    if times.len() == 0 {
        deadline
    } else {
        spec_run_deadline(spec_step_deadline(deadline, times[0]), times.subrange(1, times.len() as int))
    }
}

/// Whether the check at position `k` of a run fires.
pub open spec fn spec_fires_at(deadline: int, times: Seq<u64>, k: int) -> bool
    recommends
        0 <= k < times.len(),
{
    times[k] >= spec_run_deadline(deadline, times.subrange(0, k))
}

/// Helper: a run over one more check steps the deadline of the shorter run.
proof fn lemma_run_deadline_push(deadline: int, times: Seq<u64>, t: u64)
    ensures
        spec_run_deadline(deadline, times.push(t)) == spec_step_deadline(
            spec_run_deadline(deadline, times),
            t,
        ),
    decreases times.len(),
{
    if times.len() == 0 {
        assert(times.push(t)[0] == t);
        assert(times.push(t).subrange(1, 1) =~= Seq::<u64>::empty());
        assert(spec_run_deadline(deadline, times.push(t)) == spec_run_deadline(
            spec_step_deadline(deadline, t),
            times.push(t).subrange(1, 1),
        ));
        assert(spec_run_deadline(spec_step_deadline(deadline, t), Seq::<u64>::empty())
            == spec_step_deadline(deadline, t));
    } else {
        let next = spec_step_deadline(deadline, times[0]);
        assert(times.push(t)[0] == times[0]);
        assert(times.push(t).subrange(1, times.len() as int + 1) =~= times.subrange(
            1,
            times.len() as int,
        ).push(t));
        lemma_run_deadline_push(next, times.subrange(1, times.len() as int), t);
    }
}

/// Helper: the deadline never moves backwards along a run — a firing pushes
/// it one interval past the firing time, everything else leaves it alone.
proof fn lemma_deadline_prefix_monotone(deadline: int, times: Seq<u64>, k1: int, k2: int)
    requires
        0 <= k1 <= k2 <= times.len(),
    ensures
        spec_run_deadline(deadline, times.subrange(0, k2)) >= spec_run_deadline(
            deadline,
            times.subrange(0, k1),
        ),
    decreases k2 - k1,
{
    if k1 < k2 {
        assert(times.subrange(0, k1 + 1) =~= times.subrange(0, k1).push(times[k1]));
        lemma_run_deadline_push(deadline, times.subrange(0, k1), times[k1]);
        lemma_deadline_prefix_monotone(deadline, times, k1 + 1, k2);
    }
}

/// Law (trace cadence): over any sequence of checks, two firings are at
/// least one interval apart, measured from the earlier firing instant —
/// broadcasts are never more frequent than the interval, with no catch-up
/// bursts after a late pass.
pub proof fn lemma_trace_cadence(deadline: int, times: Seq<u64>, i: int, j: int)
    requires
        0 <= i < j < times.len(),
        spec_fires_at(deadline, times, i),
        spec_fires_at(deadline, times, j),
    ensures
        times[j] >= times[i] + BROADCAST_INTERVAL_MS,
{
    assert(times.subrange(0, i + 1) =~= times.subrange(0, i).push(times[i]));
    lemma_run_deadline_push(deadline, times.subrange(0, i), times[i]);
    assert(spec_run_deadline(deadline, times.subrange(0, i + 1)) == times[i]
        + BROADCAST_INTERVAL_MS);
    lemma_deadline_prefix_monotone(deadline, times, i + 1, j);
}

/// Law (broadcast cadence): after a firing at `fire_time`, no check before
/// one full interval has passed fires again, and every check at or past
/// that instant does fire — firings are never more frequent than the
/// interval and never skipped once the clock passes the deadline.
pub proof fn lemma_broadcast_cadence(fire_time: u64, t: u64)
    requires
        fire_time + BROADCAST_INTERVAL_MS <= u64::MAX,
    ensures
        t < spec_next_deadline(fire_time) ==> !spec_due(
            (fire_time + BROADCAST_INTERVAL_MS) as u64,
            t,
        ),
        t >= spec_next_deadline(fire_time) ==> spec_due(
            (fire_time + BROADCAST_INTERVAL_MS) as u64,
            t,
        ),
{
}

} // verus!
