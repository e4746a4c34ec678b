use vstd::prelude::*;

verus! {

/// Number of packet buffers set aside at boot.
pub const POOL_SLOTS: usize = 16;

/// A packet handle: the pool slot that holds the frame, and the frame's length in bytes.
#[derive(Clone, Copy, Debug, PartialEq, Eq, Structural)]
pub struct Packet {
    pub slot: usize,
    pub len: usize,
}

/// A fixed arena of packet buffers. A slot is either free or held by exactly one owner.
pub struct PacketPool {
    used: Vec<bool>,
}

impl View for PacketPool {
    type V = Seq<bool>;

    closed spec fn view(&self) -> Seq<bool> {
        self.used@
    }
}

impl PacketPool {
    /// The pool never grows: it always has `POOL_SLOTS` slots.
    pub open spec fn wf(&self) -> bool {
        self@.len() == POOL_SLOTS
    }

    /// Whether `slot` names a slot of this pool that is currently handed out.
    pub open spec fn holds(&self, slot: usize) -> bool {
        slot < self@.len() && self@[slot as int]
    }

    /// A pool with every slot free.
    pub fn new() -> (p: Self)
        ensures
            p.wf(),
            forall|i: int| 0 <= i < POOL_SLOTS ==> !p@[i],
    {
        let mut used: Vec<bool> = Vec::new();
        let mut i: usize = 0;
        while i < POOL_SLOTS
            invariant
                i <= POOL_SLOTS,
                used@.len() == i,
                forall|j: int| 0 <= j < i ==> !used@[j],
            decreases POOL_SLOTS - i,
        {
            used.push(false);
            i = i + 1;
        }
        PacketPool { used }
    }

    /// Hands out the lowest free slot, or `None` when every slot is taken.
    pub fn acquire(&mut self) -> (r: Option<usize>)
        requires
            old(self).wf(),
        ensures
            final(self).wf(),
            match r {
                Some(s) => {
                    &&& s < POOL_SLOTS
                    &&& !old(self)@[s as int]
                    &&& forall|j: int| 0 <= j < s ==> old(self)@[j]
                    &&& final(self)@ == old(self)@.update(s as int, true)
                },
                None => {
                    &&& forall|j: int| 0 <= j < POOL_SLOTS ==> old(self)@[j]
                    &&& final(self)@ == old(self)@
                },
            },
    {
        let mut i: usize = 0;
        while i < self.used.len()
            invariant
                self.wf(),
                self@ == old(self)@,
                i <= POOL_SLOTS,
                forall|j: int| 0 <= j < i ==> self@[j],
            decreases POOL_SLOTS - i,
        {
            if !self.used[i] {
                self.used.set(i, true);
                return Some(i);
            }
            i = i + 1;
        }
        None
    }

    /// Gives a slot back to the pool. Releasing a slot that is already free changes nothing.
    pub fn release(&mut self, slot: usize)
        requires
            old(self).wf(),
        ensures
            final(self).wf(),
            slot < POOL_SLOTS ==> final(self)@ == old(self)@.update(slot as int, false),
            slot >= POOL_SLOTS ==> final(self)@ == old(self)@,
    {
        if slot < self.used.len() {
            self.used.set(slot, false);
        }
    }

    /// Whether `slot` is currently handed out.
    pub fn is_held(&self, slot: usize) -> (r: bool)
        requires
            self.wf(),
        ensures
            r == self.holds(slot),
    {
        slot < self.used.len() && self.used[slot]
    }
}

} // verus!
