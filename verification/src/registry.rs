//! The peer table and the discovery state machine.
//!
//! Each address is Unknown until a broadcast frame arrives from it, then
//! Known forever: registered as a unicast peer exactly once, greeted exactly
//! once, never updated and never removed.

use vstd::prelude::*;
use crate::MacAddress;

verus! {

/// Why the registry refused to add a peer.
#[derive(Clone, Copy, Debug, PartialEq, Eq)]
pub enum RegistryError {
    /// The driver's fixed peer table has no free slot.
    TableFull,
    /// The entry is malformed: the broadcast address as a peer, or
    /// encryption requested where the protocol runs unencrypted.
    MalformedEntry,
    /// The address is already registered.
    DuplicatePeer,
}

/// What is recorded for one peer: its address, with encryption disabled;
/// the channel is inherited from the session and the role is station.
#[derive(Clone, Copy)]
pub struct PeerEntry {
    pub address: MacAddress,
    pub encrypt: bool,
}

impl PeerEntry {
    /// The entry the discovery protocol creates for a newly seen sender.
    pub fn for_address(address: MacAddress) -> (r: PeerEntry)
        ensures
            r.address == address,
            !r.encrypt,
    {
        PeerEntry { address, encrypt: false }
    }

    /// A well-formed entry: a real unicast address, unencrypted. The
    /// broadcast address never enters the table.
    pub open spec fn spec_well_formed(self) -> bool {
        !self.address.spec_is_broadcast() && !self.encrypt
    }
}

/// The peer table: each discovered sender at most once, bounded by the
/// radio driver's fixed capacity.
pub struct PeerRegistry {
    peers: Vec<MacAddress>,
    capacity: usize,
}

impl PeerRegistry {
    /// The registered addresses, in order of discovery.
    pub closed spec fn view(&self) -> Seq<MacAddress> {
        self.peers@
    }

    /// The fixed number of entries the table can hold.
    pub closed spec fn spec_capacity(&self) -> usize {
        self.capacity
    }

    /// Internal invariant: no address twice, never the broadcast address,
    /// never more entries than the capacity.
    pub open spec fn wf(&self) -> bool {
        &&& self@.no_duplicates()
        &&& self@.len() <= self.spec_capacity()
        &&& forall|i: int| 0 <= i < self@.len() ==> !(#[trigger] self@[i]).spec_is_broadcast()
    }

    /// An empty table with the driver's capacity.
    pub fn new(capacity: usize) -> (r: PeerRegistry)
        ensures
            r@ == Seq::<MacAddress>::empty(),
            r.spec_capacity() == capacity,
            r.wf(),
    {
        PeerRegistry { peers: Vec::new(), capacity }
    }

    /// How many peers are registered.
    pub fn len(&self) -> (r: usize)
        ensures
            r == self@.len(),
    {
        self.peers.len()
    }

    /// The address of the peer at one position, in order of discovery.
    pub fn peer_at(&self, i: usize) -> (r: MacAddress)
        requires
            i < self@.len(),
        ensures
            r == self@[i as int],
    {
        self.peers[i]
    }

    /// Whether an address is already registered.
    pub fn peer_exists(&self, addr: &MacAddress) -> (r: bool)
        ensures
            r == self@.contains(*addr),
    {
        let mut i: usize = 0;
        while i < self.peers.len()
            invariant
                0 <= i <= self.peers@.len(),
                forall|j: int| 0 <= j < i ==> self.peers@[j] != *addr,
            decreases self.peers@.len() - i,
        {
            if self.peers[i].same_as(addr) {
                return true;
            }
            i += 1;
        }
        false
    }

    /// Inserts a peer. Succeeds exactly when the entry is well formed, the
    /// table has room, and the address is new; the error says which of
    /// these failed. The table is unchanged on failure.
    pub fn add_peer(&mut self, entry: PeerEntry) -> (r: Result<(), RegistryError>)
        ensures
            r is Ok <==> entry.spec_well_formed() && old(self)@.len() < old(self).spec_capacity()
                && !old(self)@.contains(entry.address),
            r is Ok ==> final(self)@ == old(self)@.push(entry.address),
            r is Err ==> final(self)@ == old(self)@,
            final(self).spec_capacity() == old(self).spec_capacity(),
            r == Err::<(), RegistryError>(RegistryError::MalformedEntry) <==> !entry.spec_well_formed(),
            r == Err::<(), RegistryError>(RegistryError::TableFull) <==> entry.spec_well_formed() && old(self)@.len()
                >= old(self).spec_capacity(),
            r == Err::<(), RegistryError>(RegistryError::DuplicatePeer) <==> entry.spec_well_formed() && old(self)@.len()
                < old(self).spec_capacity() && old(self)@.contains(entry.address),
            old(self).wf() ==> final(self).wf(),
    {
        if entry.address.is_broadcast() || entry.encrypt {
            return Err(RegistryError::MalformedEntry);
        }
        if self.peers.len() >= self.capacity {
            return Err(RegistryError::TableFull);
        }
        if self.peer_exists(&entry.address) {
            return Err(RegistryError::DuplicatePeer);
        }
        self.peers.push(entry.address);
        Ok(())
    }
}

/// One step of the discovery state machine: the peer set after a frame from
/// `src` to `dst` reaches a table holding `peers` with capacity `cap`, and
/// whether a greeting goes back to `src`. Only a frame addressed to the
/// broadcast address promotes its sender; a sender already Known, a full
/// table, or the broadcast address itself as sender changes nothing.
pub open spec fn spec_discovery_step(
    peers: Seq<MacAddress>,
    cap: nat,
    src: MacAddress,
    dst: MacAddress,
) -> (Seq<MacAddress>, bool) {
    if dst.spec_is_broadcast() && !peers.contains(src) && peers.len() < cap
        && !src.spec_is_broadcast() {
        (peers.push(src), true)
    } else {
        (peers, false)
    }
}

/// The peer set after a whole sequence of frames, each given as (src, dst).
pub open spec fn spec_run_discovery(
    peers: Seq<MacAddress>,
    cap: nat,
    frames: Seq<(MacAddress, MacAddress)>,
) -> Seq<MacAddress>
    decreases frames.len(),
{
    if frames.len() == 0 {
        peers
    } else {
        let step = spec_discovery_step(peers, cap, frames[0].0, frames[0].1);
        spec_run_discovery(step.0, cap, frames.subrange(1, frames.len() as int))
    }
}

/// How many greetings go to `a` over a sequence of frames.
pub open spec fn spec_greetings_to(
    peers: Seq<MacAddress>,
    cap: nat,
    frames: Seq<(MacAddress, MacAddress)>,
    a: MacAddress,
) -> nat
    decreases frames.len(),
{
    if frames.len() == 0 {
        0
    } else {
        let step = spec_discovery_step(peers, cap, frames[0].0, frames[0].1);
        (if step.1 && frames[0].0 == a {
            1nat
        } else {
            0nat
        }) + spec_greetings_to(step.0, cap, frames.subrange(1, frames.len() as int), a)
    }
}

/// Law: an address once in the table stays in it; discovery never removes.
pub proof fn lemma_discovery_monotone(
    peers: Seq<MacAddress>,
    cap: nat,
    frames: Seq<(MacAddress, MacAddress)>,
    a: MacAddress,
)
    requires
        peers.contains(a),
    ensures
        spec_run_discovery(peers, cap, frames).contains(a),
    decreases frames.len(),
{
    if frames.len() > 0 {
        let step = spec_discovery_step(peers, cap, frames[0].0, frames[0].1);
        if step.0 != peers {
            let i = choose|i: int| 0 <= i < peers.len() && peers[i] == a;
            assert(step.0[i] == a);
        }
        lemma_discovery_monotone(step.0, cap, frames.subrange(1, frames.len() as int), a);
    }
}

/// Law (discovery idempotence): however many broadcast frames the same
/// sender emits, it stands in the table at most once — a table without
/// duplicates never acquires one.
pub proof fn lemma_discovery_idempotent(
    peers: Seq<MacAddress>,
    cap: nat,
    frames: Seq<(MacAddress, MacAddress)>,
)
    requires
        peers.no_duplicates(),
    ensures
        spec_run_discovery(peers, cap, frames).no_duplicates(),
    decreases frames.len(),
{
    if frames.len() > 0 {
        let step = spec_discovery_step(peers, cap, frames[0].0, frames[0].1);
        if step.1 {
            assert forall|i: int, j: int|
                0 <= i < step.0.len() && 0 <= j < step.0.len() && i != j implies step.0[i]
                != step.0[j] by {
                if i < peers.len() && j == peers.len() {
                    assert(peers[i] == step.0[i]);
                }
                if j < peers.len() && i == peers.len() {
                    assert(peers[j] == step.0[j]);
                }
            }
        }
        lemma_discovery_idempotent(step.0, cap, frames.subrange(1, frames.len() as int));
    }
}

/// Law: a sender that is already Known is never greeted again.
pub proof fn lemma_no_greeting_when_known(
    peers: Seq<MacAddress>,
    cap: nat,
    frames: Seq<(MacAddress, MacAddress)>,
    a: MacAddress,
)
    requires
        peers.contains(a),
    ensures
        spec_greetings_to(peers, cap, frames, a) == 0,
    decreases frames.len(),
{
    if frames.len() > 0 {
        let step = spec_discovery_step(peers, cap, frames[0].0, frames[0].1);
        if step.0 != peers {
            let i = choose|i: int| 0 <= i < peers.len() && peers[i] == a;
            assert(step.0[i] == a);
        }
        lemma_no_greeting_when_known(step.0, cap, frames.subrange(1, frames.len() as int), a);
    }
}

/// Helper: pushing an element keeps or adds membership, and adds nothing else.
proof fn lemma_push_contains(s: Seq<MacAddress>, x: MacAddress, a: MacAddress)
    ensures
        s.push(x).contains(a) <==> (s.contains(a) || x == a),
{
    if s.push(x).contains(a) {
        let i = choose|i: int| 0 <= i < s.push(x).len() && s.push(x)[i] == a;
        if i < s.len() {
            assert(s[i] == a);
        }
    }
    if s.contains(a) {
        let i = choose|i: int| 0 <= i < s.len() && s[i] == a;
        assert(s.push(x)[i] == a);
    }
    if x == a {
        assert(s.push(x)[s.len() as int] == a);
    }
}

/// Law (discovery is the only door): an address absent at the start stands
/// in the table after a run only if some frame of the run was a broadcast
/// frame sent by it — nothing else ever inserts a peer.
pub proof fn lemma_only_broadcast_senders_enter(
    peers: Seq<MacAddress>,
    cap: nat,
    frames: Seq<(MacAddress, MacAddress)>,
    a: MacAddress,
)
    requires
        spec_run_discovery(peers, cap, frames).contains(a),
        !peers.contains(a),
    ensures
        exists|i: int|
            0 <= i < frames.len() && frames[i].0 == a && (#[trigger] frames[i].1).spec_is_broadcast(),
    decreases frames.len(),
{
    let src = frames[0].0;
    let dst = frames[0].1;
    let step = spec_discovery_step(peers, cap, src, dst);
    let rest = frames.subrange(1, frames.len() as int);
    if step.0.contains(a) {
        if step.1 {
            lemma_push_contains(peers, src, a);
            assert(src == a && dst.spec_is_broadcast());
            assert(frames[0].0 == a && frames[0].1.spec_is_broadcast());
        }
    } else {
        lemma_only_broadcast_senders_enter(step.0, cap, rest, a);
        let i = choose|i: int|
            0 <= i < rest.len() && rest[i].0 == a && (#[trigger] rest[i].1).spec_is_broadcast();
        assert(frames[i + 1].0 == a && frames[i + 1].1.spec_is_broadcast());
    }
}

/// Law (greeting once): over any run of frames, an address is greeted at
/// most once, and exactly once precisely when the run takes it from Unknown
/// to Known.
pub proof fn lemma_greeting_once(
    peers: Seq<MacAddress>,
    cap: nat,
    frames: Seq<(MacAddress, MacAddress)>,
    a: MacAddress,
)
    ensures
        spec_greetings_to(peers, cap, frames, a) <= 1,
        spec_greetings_to(peers, cap, frames, a) == 1 <==> (!peers.contains(a)
            && spec_run_discovery(peers, cap, frames).contains(a)),
    decreases frames.len(),
{
    if frames.len() == 0 {
    } else {
        let src = frames[0].0;
        let dst = frames[0].1;
        let step = spec_discovery_step(peers, cap, src, dst);
        let rest = frames.subrange(1, frames.len() as int);
        if step.1 && src == a {
            assert(step.0 == peers.push(a));
            lemma_push_contains(peers, a, a);
            lemma_no_greeting_when_known(step.0, cap, rest, a);
            lemma_discovery_monotone(step.0, cap, rest, a);
        } else {
            lemma_greeting_once(step.0, cap, rest, a);
            if step.1 {
                lemma_push_contains(peers, src, a);
            }
            assert(step.0.contains(a) == peers.contains(a));
        }
    }
}

} // verus!
