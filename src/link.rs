use vstd::prelude::*;

verus! {

/// Connectivity of the bridged interface as the network stack sees it.
#[derive(Clone, Copy, Debug, PartialEq, Eq, Structural)]
pub enum LinkState {
    Up,
    Down,
}

/// The single shared up/down flag. The receive pump is its only writer; the device
/// adapter reads it on every poll.
pub struct LinkFlag {
    up: bool,
}

impl LinkFlag {
    pub closed spec fn is_up(&self) -> bool {
        self.up
    }

    /// A link starts out down.
    pub fn new() -> (l: Self)
        ensures
            !l.is_up(),
    {
        LinkFlag { up: false }
    }

    pub fn set_up(&mut self)
        ensures
            final(self).is_up(),
    {
        self.up = true;
    }

    pub fn set_down(&mut self)
        ensures
            !final(self).is_up(),
    {
        self.up = false;
    }

    pub fn get(&self) -> (r: bool)
        ensures
            r == self.is_up(),
    {
        self.up
    }

    pub fn state(&self) -> (r: LinkState)
        ensures
            r == (if self.is_up() { LinkState::Up } else { LinkState::Down }),
    {
        if self.up {
            LinkState::Up
        } else {
            LinkState::Down
        }
    }
}

} // verus!
