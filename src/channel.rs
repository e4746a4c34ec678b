use vstd::prelude::*;
use embassy_sync::blocking_mutex::raw::NoopRawMutex;
use embassy_sync::channel::Channel;
use crate::pool::Packet;

verus! {

/// Number of packets a channel holds at most.
pub const CHANNEL_CAPACITY: usize = 8;

/// A bounded first-in first-out queue of packet handles.
///
/// The queue itself is embassy-sync's `Channel`; it is kept in a hidden field and
/// reached only through the methods below.
#[verifier::external_body]
pub struct PacketChannel {
    inner: Channel<NoopRawMutex, Packet, 8>,
}

/// The packets that a channel holds, oldest first.
pub uninterp spec fn channel_items(c: PacketChannel) -> Seq<Packet>;

/// Outcome of a send that never waits: on failure the packet comes back.
pub type SendResult = Result<(), Packet>;

/// What a receiving task sees when it polls a channel.
#[derive(Clone, Copy, Debug, PartialEq, Eq, Structural)]
pub enum RecvPoll {
    /// The oldest packet, now owned by the receiver.
    Ready(Packet),
    /// Nothing is queued: the receiver stays suspended until a packet is sent.
    Pending,
}

/// Relies on embassy-sync's `Channel::new`: a new channel is empty.
#[verifier::external_body]
fn channel_new() -> (c: PacketChannel)
    ensures
        channel_items(c) == Seq::<Packet>::empty(),
{
    PacketChannel { inner: Channel::new() }
}

/// Relies on embassy-sync's `Channel::try_send`: the item is pushed at the back of the
/// queue unless it already holds `N` items, in which case it is handed back untouched.
#[verifier::external_body]
fn channel_try_send(c: &mut PacketChannel, p: Packet) -> (r: SendResult)
    ensures
        channel_items(*old(c)).len() < CHANNEL_CAPACITY ==> r is Ok
            && channel_items(*final(c)) == channel_items(*old(c)).push(p),
        channel_items(*old(c)).len() >= CHANNEL_CAPACITY ==> r == SendResult::Err(p)
            && channel_items(*final(c)) == channel_items(*old(c)),
{
    match c.inner.try_send(p) {
        Ok(()) => Ok(()),
        Err(embassy_sync::channel::TrySendError::Full(p)) => Err(p),
    }
}

/// Relies on embassy-sync's `Channel::try_receive`: the front item is popped, or an
/// error comes back when the queue is empty.
#[verifier::external_body]
fn channel_try_receive(c: &mut PacketChannel) -> (r: Option<Packet>)
    ensures
        channel_items(*old(c)).len() == 0 ==> r.is_none()
            && channel_items(*final(c)) == channel_items(*old(c)),
        channel_items(*old(c)).len() > 0 ==> r == Some(channel_items(*old(c))[0])
            && channel_items(*final(c)) == channel_items(*old(c)).drop_first(),
{
    c.inner.try_receive().ok()
}

/// Relies on embassy-sync's `Channel::len`: the number of queued items.
#[verifier::external_body]
fn channel_len(c: &PacketChannel) -> (r: usize)
    ensures
        r == channel_items(*c).len(),
{
    c.inner.len()
}

/// One call on a channel, for reasoning about runs of calls.
pub enum ChannelOp {
    Send(Packet),
    Receive,
}

/// The queue after a non-waiting send of `p` to queue `q`.
pub open spec fn after_send(q: Seq<Packet>, p: Packet) -> Seq<Packet> {
    if q.len() < CHANNEL_CAPACITY {
        q.push(p)
    } else {
        q
    }
}

/// The queue after a receive from queue `q`; an empty queue is left as it is.
pub open spec fn after_receive(q: Seq<Packet>) -> Seq<Packet> {
    if q.len() > 0 {
        q.drop_first()
    } else {
        q
    }
}

/// Running `ops` on a new channel gives the queue left behind, the packets that were
/// accepted by sends, and the packets that receives handed out, each in order.
pub open spec fn run(ops: Seq<ChannelOp>) -> (Seq<Packet>, Seq<Packet>, Seq<Packet>)
    decreases ops.len(),
{
    if ops.len() == 0 {
        (Seq::empty(), Seq::empty(), Seq::empty())
    } else {
        let (q, sent, got) = run(ops.drop_last());
        match ops.last() {
            ChannelOp::Send(p) => if q.len() < CHANNEL_CAPACITY {
                (after_send(q, p), sent.push(p), got)
            } else {
                (q, sent, got)
            },
            ChannelOp::Receive => if q.len() > 0 {
                (after_receive(q), sent, got.push(q[0]))
            } else {
                (q, sent, got)
            },
        }
    }
}

/// Whatever calls are made on a channel, it never holds more than its capacity, and the
/// packets received, followed by those still queued, are exactly the packets accepted,
/// in the order they were sent: nothing is lost, reordered or handed out twice.
pub proof fn lemma_channel_fifo(ops: Seq<ChannelOp>)
    ensures
        run(ops).0.len() <= CHANNEL_CAPACITY,
        run(ops).2 + run(ops).0 == run(ops).1,
    decreases ops.len(),
{
    if ops.len() > 0 {
        lemma_channel_fifo(ops.drop_last());
        let (q, sent, got) = run(ops.drop_last());
        match ops.last() {
            ChannelOp::Send(p) => {
                if q.len() < CHANNEL_CAPACITY {
                    assert(got + q.push(p) =~= (got + q).push(p));
                }
            },
            ChannelOp::Receive => {
                if q.len() > 0 {
                    assert(got.push(q[0]) + q.drop_first() =~= got + q);
                }
            },
        }
    }
}

impl View for PacketChannel {
    type V = Seq<Packet>;

    open spec fn view(&self) -> Seq<Packet> {
        channel_items(*self)
    }
}

impl PacketChannel {
    /// A channel never holds more than its capacity.
    pub open spec fn wf(&self) -> bool {
        self@.len() <= CHANNEL_CAPACITY
    }

    /// An empty channel.
    pub fn new() -> (c: Self)
        ensures
            c.wf(),
            c@ == Seq::<Packet>::empty(),
    {
        channel_new()
    }

    /// Queues `p` at the back without waiting. On a full channel nothing changes and the
    /// packet comes back to the caller, who then owns it again.
    pub fn try_send(&mut self, p: Packet) -> (r: SendResult)
        requires
            old(self).wf(),
        ensures
            final(self).wf(),
            final(self)@ == after_send(old(self)@, p),
            old(self)@.len() < CHANNEL_CAPACITY ==> r is Ok && final(self)@
                == old(self)@.push(p),
            old(self)@.len() == CHANNEL_CAPACITY ==> r == SendResult::Err(p) && final(self)@
                == old(self)@,
    {
        channel_try_send(self, p)
    }

    /// Takes the oldest packet without waiting, or `None` when the channel is empty.
    pub fn try_receive(&mut self) -> (r: Option<Packet>)
        requires
            old(self).wf(),
        ensures
            final(self).wf(),
            final(self)@ == after_receive(old(self)@),
            old(self)@.len() == 0 ==> r.is_none() && final(self)@ == old(self)@,
            old(self)@.len() > 0 ==> r == Some(old(self)@[0]) && final(self)@
                == old(self)@.drop_first(),
    {
        channel_try_receive(self)
    }

    /// One poll of a suspending receive: the oldest packet when there is one, else
    /// `Pending` with the channel left as it was.
    pub fn poll_receive(&mut self) -> (r: RecvPoll)
        requires
            old(self).wf(),
        ensures
            final(self).wf(),
            final(self)@ == after_receive(old(self)@),
            old(self)@.len() == 0 ==> r == RecvPoll::Pending && final(self)@ == old(self)@,
            old(self)@.len() > 0 ==> r == RecvPoll::Ready(old(self)@[0]) && final(self)@
                == old(self)@.drop_first(),
    {
        match channel_try_receive(self) {
            Some(p) => RecvPoll::Ready(p),
            None => RecvPoll::Pending,
        }
    }

    /// Number of queued packets.
    pub fn len(&self) -> (r: usize)
        requires
            self.wf(),
        ensures
            r == self@.len(),
    {
        channel_len(self)
    }

    pub fn is_empty(&self) -> (r: bool)
        requires
            self.wf(),
        ensures
            r == (self@.len() == 0),
    {
        channel_len(self) == 0
    }

    pub fn is_full(&self) -> (r: bool)
        requires
            self.wf(),
        ensures
            r == (self@.len() == CHANNEL_CAPACITY),
    {
        channel_len(self) == CHANNEL_CAPACITY
    }

    pub fn capacity(&self) -> (r: usize)
        ensures
            r == CHANNEL_CAPACITY,
    {
        CHANNEL_CAPACITY
    }
}

} // verus!
