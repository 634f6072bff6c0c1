//! The coordinator: one cooperative pass over the three activities.
//!
//! Each tick performs, in order, one indicator advance, one non-blocking
//! receive-and-process step, and one broadcast-deadline check, all in one
//! logical thread of control, so the radio session has one user at a time.
//! The caller owns the clock and the hardware: it feeds in the time and the
//! frame its radio received, performs the sends and the indicator write the
//! tick asks for, awaits their completion, and paces the loop.

use vstd::prelude::*;
use crate::MacAddress;
use crate::broadcast::{BROADCAST_INTERVAL_MS, Broadcaster, spec_broadcast_payload, spec_due,
    spec_next_deadline};
use crate::led::{Led, LedCommand, spec_led_command, spec_led_next};
use crate::radio::{Frame, MAX_CHANNEL, MIN_CHANNEL, RadioError, RadioSession, SendCmd,
    spec_greeting};
use crate::registry::spec_discovery_step;

verus! {

/// The intensity the indicator shows in its lit phase.
pub const LED_ON_BRIGHTNESS: u8 = 50;

/// The indicator brightness of a phase: lit or dark.
pub open spec fn spec_brightness(on: bool) -> u8 {
    if on {
        LED_ON_BRIGHTNESS
    } else {
        0
    }
}

/// Everything one cooperative pass asks the hardware to do.
pub struct TickOutput {
    /// What the indicator must show this pass.
    pub led: LedCommand,
    /// The greeting owed to a newly discovered peer, if one was discovered.
    pub greeting: Option<SendCmd>,
    /// The periodic broadcast, if its deadline was reached.
    pub broadcast: Option<SendCmd>,
}

/// The scheduler: owner of the radio session, the broadcaster and the
/// indicator, lending the session to one activity per pass.
pub struct Scheduler {
    session: RadioSession,
    broadcaster: Broadcaster,
    led: Led,
    led_on: bool,
}

impl Scheduler {
    /// The registered peers, in order of discovery.
    pub closed spec fn spec_peers(&self) -> Seq<MacAddress> {
        self.session@
    }

    /// The driver's fixed peer-table capacity.
    pub closed spec fn spec_capacity(&self) -> usize {
        self.session.spec_capacity()
    }

    /// The configured operating channel.
    pub closed spec fn spec_channel(&self) -> Option<u8> {
        self.session.spec_channel()
    }

    /// The next permitted broadcast time.
    pub closed spec fn spec_deadline(&self) -> u64 {
        self.broadcaster.spec_deadline()
    }

    /// The indicator state.
    pub closed spec fn spec_led(&self) -> Led {
        self.led
    }

    /// Whether the next indicator phase is the lit one.
    pub closed spec fn spec_led_on(&self) -> bool {
        self.led_on
    }

    /// Internal invariant: the session is sound.
    pub open spec fn wf(&self) -> bool {
        &&& self.spec_peers().no_duplicates()
        &&& self.spec_peers().len() <= self.spec_capacity()
        &&& (forall|i: int|
            0 <= i < self.spec_peers().len() ==> !(#[trigger] self.spec_peers()[i]).spec_is_broadcast())
        &&& (self.spec_channel() is Some ==> MIN_CHANNEL <= self.spec_channel().unwrap()
            <= MAX_CHANNEL)
    }

    /// Assembles the engine at startup: an empty peer table with the
    /// driver's capacity, the channel configured, the first broadcast one
    /// interval away, the indicator handed in by the composition root and
    /// starting with its lit phase. Fails exactly when the channel is out
    /// of the driver's range — a fatal startup error for the caller.
    pub fn new(led: Led, now: u64, channel: u8, peer_capacity: usize) -> (r: Result<
        Scheduler,
        RadioError,
    >)
        requires
            now + BROADCAST_INTERVAL_MS <= u64::MAX,
        ensures
            r is Ok <==> MIN_CHANNEL <= channel <= MAX_CHANNEL,
            r is Err ==> r == Err::<Scheduler, RadioError>(RadioError::InvalidChannel),
            r is Ok ==> {
                let s = r.unwrap();
                &&& s.spec_peers() == Seq::<MacAddress>::empty()
                &&& s.spec_capacity() == peer_capacity
                &&& s.spec_channel() == Some(channel)
                &&& s.spec_deadline() == spec_next_deadline(now)
                &&& s.spec_led() == led
                &&& s.spec_led_on()
                &&& s.wf()
            },
    {
        let mut session = RadioSession::new(peer_capacity);
        match session.set_channel(channel) {
            Ok(()) => Ok(
                Scheduler { session, broadcaster: Broadcaster::new(now), led, led_on: true },
            ),
            Err(e) => Err(e),
        }
    }

    /// One cooperative pass at time `now`, with the frame the radio had
    /// queued, if any. The indicator advances and alternates its phase; the
    /// frame, if present, runs the discovery protocol; the broadcast fires
    /// exactly when its deadline was reached — on its own cadence, whatever
    /// the inbound traffic did.
    pub fn tick(&mut self, now: u64, inbound: Option<Frame>) -> (out: TickOutput)
        requires
            now + BROADCAST_INTERVAL_MS <= u64::MAX,
        ensures
            final(self).spec_channel() == old(self).spec_channel(),
            final(self).spec_capacity() == old(self).spec_capacity(),
            out.led == spec_led_command(
                old(self).spec_led(),
                spec_brightness(old(self).spec_led_on()),
            ),
            final(self).spec_led() == spec_led_next(
                old(self).spec_led(),
                spec_brightness(old(self).spec_led_on()),
            ),
            final(self).spec_led_on() == !old(self).spec_led_on(),
            match inbound {
                Some(f) => {
                    let step = spec_discovery_step(
                        old(self).spec_peers(),
                        old(self).spec_capacity() as nat,
                        f.src,
                        f.dst,
                    );
                    &&& final(self).spec_peers() == step.0
                    &&& (out.greeting is Some <==> step.1)
                    &&& (out.greeting is Some ==> out.greeting.unwrap().dest == f.src
                        && out.greeting.unwrap().payload@ == spec_greeting())
                },
                None => final(self).spec_peers() == old(self).spec_peers() && out.greeting
                    is None,
            },
            out.broadcast is Some <==> spec_due(old(self).spec_deadline(), now),
            spec_due(old(self).spec_deadline(), now) ==> final(self).spec_deadline()
                == spec_next_deadline(now) && out.broadcast.unwrap().dest.spec_is_broadcast()
                && out.broadcast.unwrap().payload@ == spec_broadcast_payload(),
            !spec_due(old(self).spec_deadline(), now) ==> final(self).spec_deadline() == old(
                self,
            ).spec_deadline(),
            old(self).wf() ==> final(self).wf(),
    {
        let brightness = if self.led_on {
            LED_ON_BRIGHTNESS
        } else {
            0
        };
        let led_cmd = self.led.cycle_color(brightness);
        self.led_on = !self.led_on;
        let greeting = match &inbound {
            Some(f) => self.session.process_frame(f),
            None => None,
        };
        let broadcast = self.broadcaster.poll(now);
        TickOutput { led: led_cmd, greeting, broadcast }
    }

    /// How many peers are registered.
    pub fn peer_count(&self) -> (r: usize)
        ensures
            r == self.spec_peers().len(),
    {
        self.session.peer_count()
    }

    /// The peer at one position, in order of discovery.
    pub fn peer_at(&self, i: usize) -> (r: MacAddress)
        requires
            i < self.spec_peers().len(),
        ensures
            r == self.spec_peers()[i as int],
    {
        self.session.peer_at(i)
    }

    /// Whether an address is a known peer.
    pub fn peer_exists(&self, addr: &MacAddress) -> (r: bool)
        ensures
            r == self.spec_peers().contains(*addr),
    {
        self.session.peer_exists(addr)
    }
}

} // verus!

