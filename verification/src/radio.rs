//! The radio session: the single point of ownership for the radio
//! endpoint. It keeps the operating channel and the peer table, validates
//! outbound sends, and runs the receive-side discovery protocol. The
//! hardware send and receive themselves happen outside; the session decides
//! what they must carry.

use vstd::prelude::*;
use crate::MacAddress;
use crate::registry::{PeerEntry, PeerRegistry, RegistryError, spec_discovery_step};

verus! {

/// The operating channel configured at startup.
pub const DEFAULT_CHANNEL: u8 = 11;

/// The lowest channel the radio driver accepts.
pub const MIN_CHANNEL: u8 = 1;

/// The highest channel the radio driver accepts.
pub const MAX_CHANNEL: u8 = 14;

/// The longest payload one frame may carry.
pub const MAX_PAYLOAD_LEN: usize = 250;

/// The reserved all-ones address meaning "deliver to all listeners".
pub fn broadcast_address() -> (r: MacAddress)
    ensures
        r.spec_is_broadcast(),
{
    MacAddress([0xff, 0xff, 0xff, 0xff, 0xff, 0xff])
}

/// One inbound frame: consumed immediately upon receipt, never retained.
pub struct Frame {
    pub src: MacAddress,
    pub dst: MacAddress,
    pub payload: Vec<u8>,
}

/// One outbound transmission the engine asks the radio to perform. The
/// caller must await the hardware's completion before the send counts as
/// done.
#[derive(Debug, PartialEq, Eq)]
pub struct SendCmd {
    pub dest: MacAddress,
    pub payload: Vec<u8>,
}

/// Why the session refused an operation.
#[derive(Clone, Copy, Debug, PartialEq, Eq)]
pub enum RadioError {
    /// The requested channel lies outside the driver's range.
    InvalidChannel,
    /// The destination is neither the broadcast address nor a known peer.
    UnknownDestination,
    /// The payload exceeds what one frame may carry.
    PayloadTooLong,
}

/// "Hello Peer" in ASCII: the fixed greeting sent to a newly discovered peer.
pub open spec fn spec_greeting() -> Seq<u8> {
    seq![0x48u8, 0x65, 0x6c, 0x6c, 0x6f, 0x20, 0x50, 0x65, 0x65, 0x72]
}

/// The greeting payload, "Hello Peer".
pub fn greeting_payload() -> (r: Vec<u8>)
    ensures
        r@ == spec_greeting(),
        r@.len() == 10,
{
    let mut v: Vec<u8> = Vec::new();
    v.push(0x48);
    v.push(0x65);
    v.push(0x6c);
    v.push(0x6c);
    v.push(0x6f);
    v.push(0x20);
    v.push(0x50);
    v.push(0x65);
    v.push(0x65);
    v.push(0x72);
    assert(v@ =~= spec_greeting());
    v
}

/// The radio session. All peer-table reads and writes and all send
/// validation pass through here; the session is lent to one activity at a
/// time (see the lock module for the multi-task discipline).
pub struct RadioSession {
    channel: Option<u8>,
    registry: PeerRegistry,
}

impl RadioSession {
    /// The registered peers, in order of discovery.
    pub closed spec fn view(&self) -> Seq<MacAddress> {
        self.registry@
    }

    /// The configured operating channel, if one was set.
    pub closed spec fn spec_channel(&self) -> Option<u8> {
        self.channel
    }

    /// The driver's fixed peer-table capacity.
    pub closed spec fn spec_capacity(&self) -> usize {
        self.registry.spec_capacity()
    }

    /// Internal invariant: a sound peer table and, once set, a channel in
    /// the driver's range.
    pub open spec fn wf(&self) -> bool {
        &&& self@.no_duplicates()
        &&& self@.len() <= self.spec_capacity()
        &&& (forall|i: int| 0 <= i < self@.len() ==> !(#[trigger] self@[i]).spec_is_broadcast())
        &&& (self.spec_channel() is Some ==> MIN_CHANNEL <= self.spec_channel().unwrap()
            <= MAX_CHANNEL)
    }

    /// A fresh session: no channel configured, no peers known.
    pub fn new(peer_capacity: usize) -> (r: RadioSession)
        ensures
            r@ == Seq::<MacAddress>::empty(),
            r.spec_channel() is None,
            r.spec_capacity() == peer_capacity,
            r.wf(),
    {
        RadioSession { channel: None, registry: PeerRegistry::new(peer_capacity) }
    }

    /// Configures the operating channel, once at startup. Succeeds exactly
    /// for channels in the driver's range; the caller treats a failure as
    /// fatal.
    pub fn set_channel(&mut self, n: u8) -> (r: Result<(), RadioError>)
        ensures
            r is Ok <==> MIN_CHANNEL <= n <= MAX_CHANNEL,
            r is Ok ==> final(self).spec_channel() == Some(n),
            r is Err ==> r == Err::<(), RadioError>(RadioError::InvalidChannel) && *final(self)
                == *old(self),
            final(self)@ == old(self)@,
            final(self).spec_capacity() == old(self).spec_capacity(),
            old(self).wf() ==> final(self).wf(),
    {
        if n < MIN_CHANNEL || n > MAX_CHANNEL {
            return Err(RadioError::InvalidChannel);
        }
        self.channel = Some(n);
        Ok(())
    }

    /// The configured channel, if any.
    pub fn current_channel(&self) -> (r: Option<u8>)
        ensures
            r == self.spec_channel(),
    {
        self.channel
    }

    /// How many peers are registered.
    pub fn peer_count(&self) -> (r: usize)
        ensures
            r == self@.len(),
    {
        self.registry.len()
    }

    /// The peer at one position, in order of discovery.
    pub fn peer_at(&self, i: usize) -> (r: MacAddress)
        requires
            i < self@.len(),
        ensures
            r == self@[i as int],
    {
        self.registry.peer_at(i)
    }

    /// Whether an address is a known peer.
    pub fn peer_exists(&self, addr: &MacAddress) -> (r: bool)
        ensures
            r == self@.contains(*addr),
    {
        self.registry.peer_exists(addr)
    }

    /// Inserts a peer; see the registry for the exact conditions.
    pub fn add_peer(&mut self, entry: PeerEntry) -> (r: Result<(), RegistryError>)
        ensures
            r is Ok <==> entry.spec_well_formed() && old(self)@.len() < old(self).spec_capacity()
                && !old(self)@.contains(entry.address),
            r is Ok ==> final(self)@ == old(self)@.push(entry.address),
            r is Err ==> final(self)@ == old(self)@,
            final(self).spec_channel() == old(self).spec_channel(),
            final(self).spec_capacity() == old(self).spec_capacity(),
            old(self).wf() ==> final(self).wf(),
    {
        self.registry.add_peer(entry)
    }

    /// Validates an outbound send: the destination must be the broadcast
    /// address or a known peer, and the payload must fit in one frame.
    /// Succeeds if and only if both hold; the error names the first that
    /// does not.
    pub fn prepare_send(&self, dest: MacAddress, payload: Vec<u8>) -> (r: Result<
        SendCmd,
        RadioError,
    >)
        ensures
            r is Ok <==> (dest.spec_is_broadcast() || self@.contains(dest)) && payload@.len()
                <= MAX_PAYLOAD_LEN,
            r is Ok ==> r.unwrap() == (SendCmd { dest, payload }),
            r == Err::<SendCmd, RadioError>(RadioError::UnknownDestination) <==> !(
            dest.spec_is_broadcast() || self@.contains(dest)),
            r == Err::<SendCmd, RadioError>(RadioError::PayloadTooLong) <==> (
            dest.spec_is_broadcast() || self@.contains(dest)) && payload@.len() > MAX_PAYLOAD_LEN,
    {
        if !dest.is_broadcast() && !self.registry.peer_exists(&dest) {
            return Err(RadioError::UnknownDestination);
        }
        if payload.len() > MAX_PAYLOAD_LEN {
            return Err(RadioError::PayloadTooLong);
        }
        Ok(SendCmd { dest, payload })
    }

    /// The receive-side discovery protocol, one inbound frame at a time.
    ///
    /// A frame addressed to the broadcast address promotes an Unknown
    /// sender to Known and produces the one greeting owed to it; any other
    /// frame, a sender already Known, or a failed registration (table full,
    /// malformed sender) changes nothing and produces nothing — the attempt
    /// is abandoned until the next frame.
    pub fn process_frame(&mut self, frame: &Frame) -> (r: Option<SendCmd>)
        ensures
            final(self).spec_channel() == old(self).spec_channel(),
            final(self).spec_capacity() == old(self).spec_capacity(),
            final(self)@ == spec_discovery_step(
                old(self)@,
                old(self).spec_capacity() as nat,
                frame.src,
                frame.dst,
            ).0,
            r is Some <==> spec_discovery_step(
                old(self)@,
                old(self).spec_capacity() as nat,
                frame.src,
                frame.dst,
            ).1,
            r is Some ==> r.unwrap().dest == frame.src && r.unwrap().payload@ == spec_greeting(),
            old(self).wf() ==> final(self).wf(),
    {
        if !frame.dst.is_broadcast() {
            return None;
        }
        if self.registry.peer_exists(&frame.src) {
            return None;
        }
        let entry = PeerEntry::for_address(frame.src);
        match self.registry.add_peer(entry) {
            Ok(()) => {
                let greeting = greeting_payload();
                match self.prepare_send(frame.src, greeting) {
                    Ok(cmd) => Some(cmd),
                    Err(_) => {
                        // cannot happen: the sender was registered just above,
                        // and the greeting fits in one frame
                        proof {
                            assert(self@[old(self)@.len() as int] == frame.src);
                            assert(self@.contains(frame.src));
                        }
                        assert(false);
                        None
                    },
                }
            },
            Err(_) => None,
        }
    }
}

} // verus!
