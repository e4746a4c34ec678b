use vstd::prelude::*;
use crate::channel::{PacketChannel, RecvPoll, CHANNEL_CAPACITY};
use crate::link::LinkFlag;
use crate::pool::{Packet, PacketPool, POOL_SLOTS};

verus! {

/// States of the task that moves frames from the USB class endpoint into the receive channel.
#[derive(Clone, Copy, Debug, PartialEq, Eq, Structural)]
pub enum RxState {
    /// Waiting for the host to connect.
    WaitConnection,
    /// Connected: reading frames.
    Receiving,
}

/// What the receive pump asks of the USB endpoint next.
#[derive(Clone, Copy, Debug, PartialEq, Eq, Structural)]
pub enum RxAction {
    /// Suspend until the class reports a connection.
    WaitConnection,
    /// Read one frame into the given pool slot.
    ReadInto(usize),
}

/// What became of a frame that was read.
#[derive(Clone, Copy, Debug, PartialEq, Eq, Structural)]
pub enum RxOutcome {
    /// The frame is in the receive channel.
    Queued,
    /// The receive channel was full: the frame was dropped.
    Dropped,
    /// The read failed: the link is down and the pump waits for a new connection.
    Disconnected,
}

/// The receive pump: decisions only. The caller performs each action on the USB
/// endpoint and reports the result back.
pub struct RxPump {
    pub state: RxState,
}

impl RxPump {
    /// The link flag reads up exactly while the pump is connected.
    pub open spec fn tracks(&self, link: &LinkFlag) -> bool {
        link.is_up() <==> self.state == RxState::Receiving
    }

    pub fn new() -> (p: Self)
        ensures
            p.state == RxState::WaitConnection,
    {
        RxPump { state: RxState::WaitConnection }
    }

    /// The class reported a connection: the link goes up.
    pub fn on_connected(&mut self, link: &mut LinkFlag)
        ensures
            final(self).state == RxState::Receiving,
            final(link).is_up(),
            final(self).tracks(final(link)),
    {
        link.set_up();
        self.state = RxState::Receiving;
    }

    /// The next thing to do. While connected this takes a fresh slot from the pool for the
    /// next frame; when the pool is exhausted the connection is given up, the link goes
    /// down and the pump waits for a connection again.
    pub fn next_action(&mut self, pool: &mut PacketPool, link: &mut LinkFlag) -> (a: RxAction)
        requires
            old(pool).wf(),
        ensures
            final(pool).wf(),
            old(self).state == RxState::WaitConnection ==> a == RxAction::WaitConnection
                && final(self).state == RxState::WaitConnection && final(pool)@ == old(pool)@
                && *final(link) == *old(link),
            old(self).state == RxState::Receiving && (exists|j: int|
                0 <= j < POOL_SLOTS && !old(pool)@[j]) ==> {
                &&& a matches RxAction::ReadInto(s) && s < POOL_SLOTS && !old(pool)@[s as int]
                    && final(pool)@ == old(pool)@.update(s as int, true)
                &&& final(self).state == RxState::Receiving
                &&& *final(link) == *old(link)
            },
            old(self).state == RxState::Receiving && (forall|j: int|
                0 <= j < POOL_SLOTS ==> old(pool)@[j]) ==> a == RxAction::WaitConnection
                && final(self).state == RxState::WaitConnection && !final(link).is_up()
                && final(pool)@ == old(pool)@,
            old(self).tracks(old(link)) ==> final(self).tracks(final(link)),
    {
        match self.state {
            RxState::WaitConnection => RxAction::WaitConnection,
            RxState::Receiving => {
                match pool.acquire() {
                    Some(s) => RxAction::ReadInto(s),
                    None => {
                        link.set_down();
                        self.state = RxState::WaitConnection;
                        RxAction::WaitConnection
                    },
                }
            },
        }
    }

    /// A read into `slot` finished: `Ok(n)` carries the frame length, `Err` a failed read.
    /// A frame goes to the receive channel, or is dropped (its slot freed) when the channel
    /// is full. A failed read frees the slot, takes the link down and sends the pump back
    /// to waiting for a connection; packets already queued stay queued.
    pub fn on_read(
        &mut self,
        slot: usize,
        result: Result<usize, ()>,
        pool: &mut PacketPool,
        rx: &mut PacketChannel,
        link: &mut LinkFlag,
    ) -> (r: RxOutcome)
        requires
            old(pool).wf(),
            old(rx).wf(),
            old(self).state == RxState::Receiving,
        ensures
            final(pool).wf(),
            final(rx).wf(),
            final(self).tracks(final(link)) <== old(self).tracks(old(link)),
            match result {
                Ok(n) => {
                    &&& final(self).state == RxState::Receiving
                    &&& *final(link) == *old(link)
                    &&& old(rx)@.len() < CHANNEL_CAPACITY ==> r == RxOutcome::Queued && final(rx)@
                        == old(rx)@.push(Packet { slot, len: n }) && final(pool)@ == old(pool)@
                    &&& old(rx)@.len() == CHANNEL_CAPACITY ==> r == RxOutcome::Dropped
                        && final(rx)@ == old(rx)@ && (slot < POOL_SLOTS ==> final(pool)@
                        == old(pool)@.update(slot as int, false))
                },
                Err(()) => {
                    &&& r == RxOutcome::Disconnected
                    &&& final(self).state == RxState::WaitConnection
                    &&& !final(link).is_up()
                    &&& final(rx)@ == old(rx)@
                    &&& slot < POOL_SLOTS ==> final(pool)@ == old(pool)@.update(slot as int, false)
                },
            },
    {
        match result {
            Ok(n) => {
                match rx.try_send(Packet { slot, len: n }) {
                    Ok(()) => RxOutcome::Queued,
                    Err(p) => {
                        pool.release(p.slot);
                        RxOutcome::Dropped
                    },
                }
            },
            Err(()) => {
                pool.release(slot);
                link.set_down();
                self.state = RxState::WaitConnection;
                RxOutcome::Disconnected
            },
        }
    }
}

/// The transmit pump: takes packets from the transmit channel and writes them to the
/// USB endpoint. A failed write drops the packet; either way its slot goes back to the pool.
pub struct TxPump {}

impl TxPump {
    pub fn new() -> (p: Self) {
        TxPump {  }
    }

    /// One poll of the suspending receive on the transmit channel.
    pub fn next_packet(&mut self, tx: &mut PacketChannel) -> (r: RecvPoll)
        requires
            old(tx).wf(),
        ensures
            final(tx).wf(),
            old(tx)@.len() == 0 ==> r == RecvPoll::Pending && final(tx)@ == old(tx)@,
            old(tx)@.len() > 0 ==> r == RecvPoll::Ready(old(tx)@[0]) && final(tx)@
                == old(tx)@.drop_first(),
    {
        tx.poll_receive()
    }

    /// The write of `pkt` finished; returns whether it went out. The slot is freed either way.
    pub fn on_written(&mut self, pkt: Packet, result: Result<(), ()>, pool: &mut PacketPool) -> (sent:
        bool)
        requires
            old(pool).wf(),
        ensures
            final(pool).wf(),
            sent == result is Ok,
            pkt.slot < POOL_SLOTS ==> final(pool)@ == old(pool)@.update(pkt.slot as int, false),
            pkt.slot >= POOL_SLOTS ==> final(pool)@ == old(pool)@,
    {
        pool.release(pkt.slot);
        result.is_ok()
    }
}

} // verus!
