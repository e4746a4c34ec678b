use vstd::prelude::*;
use crate::channel::{PacketChannel, CHANNEL_CAPACITY};
use crate::link::{LinkFlag, LinkState};
use crate::pool::{Packet, PacketPool};
use crate::MAX_TRANSMISSION_UNIT;

verus! {

/// The kind of link layer the device carries.
#[derive(Clone, Copy, Debug, PartialEq, Eq, Structural)]
pub enum Medium {
    Ethernet,
}

/// What the network stack learns of the device once, when it attaches.
#[derive(Clone, Copy, Debug, PartialEq, Eq, Structural)]
pub struct Capabilities {
    pub max_transmission_unit: u16,
    pub medium: Medium,
}

/// Outcome of handing a packet to the device for transmission.
#[derive(Clone, Copy, Debug, PartialEq, Eq, Structural)]
pub enum TransmitOutcome {
    /// The packet is queued for the transmit pump.
    Queued,
    /// The transmit channel was full: the packet was dropped and its slot freed.
    Dropped,
}

/// The network device as the IP stack polls it. Every operation returns at once; packets
/// come from the receive channel and go to the transmit channel.
pub struct Device {
    pub mac_addr: [u8; 6],
}

impl Device {
    pub fn new(mac_addr: [u8; 6]) -> (d: Self)
        ensures
            d.mac_addr@ == mac_addr@,
    {
        Device { mac_addr }
    }

    /// Whether the stack's waker is to be woken right away. The device has no interrupt
    /// of its own to wake it later, so it always asks to be polled again.
    pub fn register_waker(&mut self) -> (wake_now: bool)
        ensures
            wake_now,
            final(self).mac_addr@ == old(self).mac_addr@,
    {
        true
    }

    /// Reads the shared link flag.
    pub fn link_state(&self, link: &LinkFlag) -> (r: LinkState)
        ensures
            r == (if link.is_up() { LinkState::Up } else { LinkState::Down }),
    {
        link.state()
    }

    /// The fixed description of this device.
    pub fn capabilities(&self) -> (c: Capabilities)
        ensures
            c.max_transmission_unit == MAX_TRANSMISSION_UNIT,
            c.medium == Medium::Ethernet,
    {
        Capabilities { max_transmission_unit: MAX_TRANSMISSION_UNIT, medium: Medium::Ethernet }
    }

    /// The stack may always hand over a packet; backpressure is the transmit channel's.
    pub fn is_transmit_ready(&self) -> (r: bool)
        ensures
            r,
    {
        true
    }

    /// Queues `pkt` on the transmit channel, or drops it (freeing its slot) when that
    /// channel is full. Never waits.
    pub fn transmit(&mut self, tx: &mut PacketChannel, pool: &mut PacketPool, pkt: Packet) -> (r:
        TransmitOutcome)
        requires
            old(tx).wf(),
            old(pool).wf(),
        ensures
            final(tx).wf(),
            final(pool).wf(),
            final(self).mac_addr@ == old(self).mac_addr@,
            old(tx)@.len() < CHANNEL_CAPACITY ==> r == TransmitOutcome::Queued && final(tx)@ == old(tx)@.push(
                pkt,
            ) && final(pool)@ == old(pool)@,
            old(tx)@.len() == CHANNEL_CAPACITY ==> r == TransmitOutcome::Dropped && final(tx)@ == old(tx)@
                && final(pool)@ == if pkt.slot < old(pool)@.len() {
                old(pool)@.update(pkt.slot as int, false)
            } else {
                old(pool)@
            },
    {
        match tx.try_send(pkt) {
            Ok(()) => TransmitOutcome::Queued,
            Err(p) => {
                pool.release(p.slot);
                TransmitOutcome::Dropped
            },
        }
    }

    /// Takes the oldest received packet, or `None` when there is none. Never waits.
    pub fn receive(&mut self, rx: &mut PacketChannel) -> (r: Option<Packet>)
        requires
            old(rx).wf(),
        ensures
            final(rx).wf(),
            final(self).mac_addr@ == old(self).mac_addr@,
            old(rx)@.len() == 0 ==> r.is_none() && final(rx)@ == old(rx)@,
            old(rx)@.len() > 0 ==> r == Some(old(rx)@[0]) && final(rx)@ == old(rx)@.drop_first(),
    {
        rx.try_receive()
    }

    pub fn ethernet_address(&self) -> (r: [u8; 6])
        ensures
            r@ == self.mac_addr@,
    {
        self.mac_addr
    }
}

} // verus!
